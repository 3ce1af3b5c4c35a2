//! Per-repository deploy configuration: the `.hookshot.conf` contents,
//! and the resolution of a ref name to its deploy action.
//!
//! Loading happens in two steps. Parsing the TOML text yields a
//! pending configuration together with the filesystem checks it still
//! needs (does a playbook file exist, does the Makefile declare a
//! target); the caller looks and hands the answers back, and finishing
//! turns them into a configuration or into the error the failed check
//! stands for.

use vstd::prelude::*;
use vstd::string::*;
use crate::ansible_task::AnsibleTask;
use crate::make_task::MakeTask;
use crate::message::RefType;
use crate::pattern::{
    contains_star, is_catch_all, lemma_pattern_le_total, lemma_pattern_le_trans, pattern_le,
    pattern_le_exec, pattern_matches, star_count, wild_matches,
};
use crate::jsondoc::{path1, path2, path3};
use crate::strutil::{str_eq, views_of};
use crate::tomldoc::{
    TomlLookup, TomlStrsLookup, TomlTableStatus, toml_keys, toml_keys_at, toml_lookup_str,
    toml_lookup_strs, toml_ok, toml_str_at, toml_strs_at, toml_table_at, toml_table_status,
};

verus! {

broadcast use vstd::seq_lib::group_to_multiset_ensures;

#[derive(Debug, Clone, Copy, PartialEq, Eq, Structural)]
pub enum DeployMethod {
    Ansible,
    Makefile,
}

pub open spec fn method_token(m: DeployMethod) -> Seq<char> {
    match m {
        DeployMethod::Ansible => "ansible"@,
        DeployMethod::Makefile => "makefile"@,
    }
}

impl DeployMethod {
    pub fn to_string(&self) -> (r: String)
        ensures
            r@ == method_token(*self),
    {
        match *self {
            DeployMethod::Ansible => "ansible".to_owned(),
            DeployMethod::Makefile => "makefile".to_owned(),
        }
    }
}

#[derive(Debug, PartialEq, Eq)]
pub enum Error {
    FileLoad,
    FileRead,
    Parse,
    InvalidDefaultMethod,
    InvalidDefaultMakeTask,
    InvalidDefaultPlaybook,
    InvalidDefaultInventory,
    InvalidDefaultNotifyUrl,
    MissingConfiguration,
    InvalidConfigGroup,
    InvalidConfigEntry(String),
    InvalidMethod(String),
    InvalidPlaybook(String),
    InvalidInventory(String),
    InvalidNotifyUrl(String),
    MissingMethod(String),
    InvalidMakeTask(String),
    MissingTask(String),
    InvalidAnsibleConfig,
    InvalidMakeTaskConfig,
}

/// The mathematical image of a configuration error.
#[verifier::ext_equal]
pub enum ErrorModel {
    FileLoad,
    FileRead,
    Parse,
    InvalidDefaultMethod,
    InvalidDefaultMakeTask,
    InvalidDefaultPlaybook,
    InvalidDefaultInventory,
    InvalidDefaultNotifyUrl,
    MissingConfiguration,
    InvalidConfigGroup,
    InvalidConfigEntry(Seq<char>),
    InvalidMethod(Seq<char>),
    InvalidPlaybook(Seq<char>),
    InvalidInventory(Seq<char>),
    InvalidNotifyUrl(Seq<char>),
    MissingMethod(Seq<char>),
    InvalidMakeTask(Seq<char>),
    MissingTask(Seq<char>),
    InvalidAnsibleConfig,
    InvalidMakeTaskConfig,
}

/// The pattern an error concerns, if it concerns one.
pub open spec fn spec_related_branch(e: ErrorModel) -> Option<Seq<char>> {
    match e {
        ErrorModel::MissingMethod(s) => Some(s),
        ErrorModel::InvalidConfigEntry(s) => Some(s),
        ErrorModel::InvalidMethod(s) => Some(s),
        ErrorModel::InvalidPlaybook(s) => Some(s),
        ErrorModel::InvalidInventory(s) => Some(s),
        ErrorModel::InvalidNotifyUrl(s) => Some(s),
        ErrorModel::InvalidMakeTask(s) => Some(s),
        ErrorModel::MissingTask(s) => Some(s),
        _ => None,
    }
}

/// The sentence each error prints as.
pub open spec fn error_message(e: ErrorModel) -> Seq<char> {
    match e {
        ErrorModel::FileLoad => "could not open hookshot configuration"@,
        ErrorModel::FileRead => "could not read file contents"@,
        ErrorModel::Parse => "could not parse file as toml"@,
        ErrorModel::InvalidDefaultMethod => "invalid type for `default.method`, valid values are 'ansible' and 'makefile'"@,
        ErrorModel::InvalidDefaultMakeTask => "`default.task` must be a valid, existing make task"@,
        ErrorModel::InvalidDefaultPlaybook => "`default.playbook` must point to an existing file"@,
        ErrorModel::InvalidDefaultInventory => "`default.inventory` must point to an existing file"@,
        ErrorModel::InvalidDefaultNotifyUrl => "`default.notify_url` must be a URL"@,
        ErrorModel::MissingConfiguration => "must have at least one `branch` or `tag` entry"@,
        ErrorModel::InvalidConfigGroup => "`branch` or `tag` must be a table"@,
        ErrorModel::InvalidConfigEntry(_) => "every `branch.<pattern>` or `tag.<pattern>` entry must be a table"@,
        ErrorModel::InvalidMethod(_) => "invalid branch `method`, valid values are 'ansible' and 'makefile'"@,
        ErrorModel::InvalidPlaybook(_) => "branch `playbook` must point to an existing file"@,
        ErrorModel::InvalidInventory(_) => "branch `inventory` must point to an existing file"@,
        ErrorModel::InvalidNotifyUrl(_) => "branch `notify_url` must be valid URL"@,
        ErrorModel::MissingMethod(_) => "could not find `method` between default and branch config"@,
        ErrorModel::InvalidMakeTask(_) => "branch `task` must be valid, existing make task"@,
        ErrorModel::MissingTask(_) => "could not find make or ansible task between default and branch config"@,
        ErrorModel::InvalidAnsibleConfig => "could not find playbook + inventory between default and branch config"@,
        ErrorModel::InvalidMakeTaskConfig => "could not find valid make task between default and branch config"@,
    }
}

impl Error {
    pub open spec fn model(&self) -> ErrorModel {
        match self {
            Error::FileLoad => ErrorModel::FileLoad,
            Error::FileRead => ErrorModel::FileRead,
            Error::Parse => ErrorModel::Parse,
            Error::InvalidDefaultMethod => ErrorModel::InvalidDefaultMethod,
            Error::InvalidDefaultMakeTask => ErrorModel::InvalidDefaultMakeTask,
            Error::InvalidDefaultPlaybook => ErrorModel::InvalidDefaultPlaybook,
            Error::InvalidDefaultInventory => ErrorModel::InvalidDefaultInventory,
            Error::InvalidDefaultNotifyUrl => ErrorModel::InvalidDefaultNotifyUrl,
            Error::MissingConfiguration => ErrorModel::MissingConfiguration,
            Error::InvalidConfigGroup => ErrorModel::InvalidConfigGroup,
            Error::InvalidConfigEntry(s) => ErrorModel::InvalidConfigEntry(s@),
            Error::InvalidMethod(s) => ErrorModel::InvalidMethod(s@),
            Error::InvalidPlaybook(s) => ErrorModel::InvalidPlaybook(s@),
            Error::InvalidInventory(s) => ErrorModel::InvalidInventory(s@),
            Error::InvalidNotifyUrl(s) => ErrorModel::InvalidNotifyUrl(s@),
            Error::MissingMethod(s) => ErrorModel::MissingMethod(s@),
            Error::InvalidMakeTask(s) => ErrorModel::InvalidMakeTask(s@),
            Error::MissingTask(s) => ErrorModel::MissingTask(s@),
            Error::InvalidAnsibleConfig => ErrorModel::InvalidAnsibleConfig,
            Error::InvalidMakeTaskConfig => ErrorModel::InvalidMakeTaskConfig,
        }
    }

    /// The pattern this error concerns, if it concerns one.
    pub fn related_branch(&self) -> (r: Option<&str>)
        ensures
            match r {
                Some(s) => spec_related_branch(self.model()) == Some(s@),
                None => spec_related_branch(self.model()) is None,
            },
    {
        match self {
            Error::MissingMethod(s) => Some(s.as_str()),
            Error::InvalidConfigEntry(s) => Some(s.as_str()),
            Error::InvalidMethod(s) => Some(s.as_str()),
            Error::InvalidPlaybook(s) => Some(s.as_str()),
            Error::InvalidInventory(s) => Some(s.as_str()),
            Error::InvalidNotifyUrl(s) => Some(s.as_str()),
            Error::InvalidMakeTask(s) => Some(s.as_str()),
            Error::MissingTask(s) => Some(s.as_str()),
            _ => None,
        }
    }

    /// The sentence this error prints as.
    pub fn description(&self) -> (r: &'static str)
        ensures
            r@ == error_message(self.model()),
    {
        match self {
            Error::FileLoad => "could not open hookshot configuration",
            Error::FileRead => "could not read file contents",
            Error::Parse => "could not parse file as toml",
            Error::InvalidDefaultMethod => "invalid type for `default.method`, valid values are 'ansible' and 'makefile'",
            Error::InvalidDefaultMakeTask => "`default.task` must be a valid, existing make task",
            Error::InvalidDefaultPlaybook => "`default.playbook` must point to an existing file",
            Error::InvalidDefaultInventory => "`default.inventory` must point to an existing file",
            Error::InvalidDefaultNotifyUrl => "`default.notify_url` must be a URL",
            Error::MissingConfiguration => "must have at least one `branch` or `tag` entry",
            Error::InvalidConfigGroup => "`branch` or `tag` must be a table",
            Error::InvalidConfigEntry(_) => "every `branch.<pattern>` or `tag.<pattern>` entry must be a table",
            Error::InvalidMethod(_) => "invalid branch `method`, valid values are 'ansible' and 'makefile'",
            Error::InvalidPlaybook(_) => "branch `playbook` must point to an existing file",
            Error::InvalidInventory(_) => "branch `inventory` must point to an existing file",
            Error::InvalidNotifyUrl(_) => "branch `notify_url` must be valid URL",
            Error::MissingMethod(_) => "could not find `method` between default and branch config",
            Error::InvalidMakeTask(_) => "branch `task` must be valid, existing make task",
            Error::MissingTask(_) => "could not find make or ansible task between default and branch config",
            Error::InvalidAnsibleConfig => "could not find playbook + inventory between default and branch config",
            Error::InvalidMakeTaskConfig => "could not find valid make task between default and branch config",
        }
    }
}

/// One resolved deploy action under a pattern.
#[derive(Debug)]
pub struct Config {
    pub pattern: String,
    pub method: DeployMethod,
    pub notifiers: Option<Vec<String>>,
    pub make_task: Option<MakeTask>,
    pub ansible_task: Option<AnsibleTask>,
}

/// The mathematical image of a `Config`.
#[verifier::ext_equal]
pub struct EntryModel {
    pub pattern: Seq<char>,
    pub method: DeployMethod,
    pub notifiers: Option<Seq<Seq<char>>>,
    pub make_task: Option<Seq<char>>,
    pub ansible: Option<(Seq<char>, Seq<char>)>,
}

impl Config {
    pub open spec fn model(&self) -> EntryModel {
        EntryModel {
            pattern: self.pattern@,
            method: self.method,
            notifiers: match self.notifiers {
                Some(v) => Some(views_of(v@)),
                None => None,
            },
            make_task: match self.make_task {
                Some(t) => Some(t.task@),
                None => None,
            },
            ansible: match self.ansible_task {
                Some(a) => Some((a.playbook@, a.inventory@)),
                None => None,
            },
        }
    }

    pub fn make_task(&self) -> (r: Option<&MakeTask>)
        ensures
            match r {
                Some(t) => self.make_task == Some(*t),
                None => self.make_task is None,
            },
    {
        match &self.make_task {
            Some(t) => Some(t),
            None => None,
        }
    }

    pub fn ansible_task(&self) -> (r: Option<&AnsibleTask>)
        ensures
            match r {
                Some(t) => self.ansible_task == Some(*t),
                None => self.ansible_task is None,
            },
    {
        match &self.ansible_task {
            Some(t) => Some(t),
            None => None,
        }
    }
}

pub open spec fn entries_model(v: Seq<Config>) -> Seq<EntryModel> {
    v.map_values(|c: Config| c.model())
}

/// An entry whose pattern is exactly the name.
pub open spec fn is_exact(e: EntryModel, name: Seq<char>) -> bool {
    e.pattern == name
}

/// A wildcard entry other than the lone catch-all.
pub open spec fn is_wild(e: EntryModel) -> bool {
    star_count(e.pattern) > 0 && e.pattern != seq!['*']
}

/// A wildcard entry whose pattern matches the name.
pub open spec fn wild_hits(e: EntryModel, name: Seq<char>) -> bool {
    is_wild(e) && wild_matches(e.pattern, name)
}

/// The lone catch-all entry.
pub open spec fn is_catch(e: EntryModel) -> bool {
    e.pattern == seq!['*']
}

/// What resolution owes: the first exact entry; failing that, a
/// matching wildcard entry no other matching one is more specific
/// than; failing that, the first catch-all; failing that, nothing.
pub open spec fn lookup_post(entries: Seq<EntryModel>, name: Seq<char>, r: Option<
    EntryModel,
>) -> bool {
    if exists|i: int| 0 <= i < entries.len() && is_exact(#[trigger] entries[i], name) {
        exists|i: int|
            0 <= i < entries.len() && is_exact(#[trigger] entries[i], name) && r == Some(entries[i])
                && (forall|j: int| 0 <= j < i ==> !is_exact(#[trigger] entries[j], name))
    } else if exists|i: int| 0 <= i < entries.len() && wild_hits(#[trigger] entries[i], name) {
        exists|i: int|
            0 <= i < entries.len() && wild_hits(#[trigger] entries[i], name) && r == Some(
                entries[i],
            ) && (forall|j: int|
                0 <= j < entries.len() && wild_hits(#[trigger] entries[j], name) ==> pattern_le(
                    entries[i].pattern,
                    entries[j].pattern,
                ))
    } else if exists|i: int| 0 <= i < entries.len() && is_catch(#[trigger] entries[i]) {
        exists|i: int|
            0 <= i < entries.len() && is_catch(#[trigger] entries[i]) && r == Some(entries[i]) && (
            forall|j: int| 0 <= j < i ==> !is_catch(#[trigger] entries[j]))
    } else {
        r is None
    }
}

/// The parsed configuration of one repository.
#[derive(Debug)]
pub struct RepoConfig {
    pub branch: Option<Vec<Config>>,
    pub tag: Option<Vec<Config>>,
    pub project_root: String,
}

impl RepoConfig {
    pub open spec fn group_entries(&self, group: RefType) -> Option<Seq<EntryModel>> {
        match group {
            RefType::branch => match self.branch {
                Some(v) => Some(entries_model(v@)),
                None => None,
            },
            RefType::tag => match self.tag {
                Some(v) => Some(entries_model(v@)),
                None => None,
            },
        }
    }

    pub fn lookup_branch(&self, name: &str) -> (r: Option<&Config>)
        ensures
            match self.group_entries(RefType::branch) {
                None => r is None,
                Some(es) => lookup_post(
                    es,
                    name@,
                    match r {
                        Some(c) => Some(c.model()),
                        None => None,
                    },
                ),
            },
    {
        self.lookup(RefType::branch, name)
    }

    pub fn lookup_tag(&self, name: &str) -> (r: Option<&Config>)
        ensures
            match self.group_entries(RefType::tag) {
                None => r is None,
                Some(es) => lookup_post(
                    es,
                    name@,
                    match r {
                        Some(c) => Some(c.model()),
                        None => None,
                    },
                ),
            },
    {
        self.lookup(RefType::tag, name)
    }

    /// Resolve a ref name in one pattern group.
    pub fn lookup(&self, group: RefType, name: &str) -> (r: Option<&Config>)
        ensures
            match self.group_entries(group) {
                None => r is None,
                Some(es) => lookup_post(
                    es,
                    name@,
                    match r {
                        Some(c) => Some(c.model()),
                        None => None,
                    },
                ),
            },
    {
        let entries: &Vec<Config> = match group {
            RefType::branch => match &self.branch {
                Some(v) => v,
                None => {
                    return None;
                },
            },
            RefType::tag => match &self.tag {
                Some(v) => v,
                None => {
                    return None;
                },
            },
        };
        let ghost es = entries_model(entries@);
        let n = entries.len();
        let mut i: usize = 0;
        while i < n
            invariant
                0 <= i <= n,
                n == entries@.len(),
                es == entries_model(entries@),
                self.group_entries(group) == Some(es),
                forall|j: int| 0 <= j < i ==> !is_exact(#[trigger] es[j], name@),
            decreases n - i,
        {
            if str_eq(entries[i].pattern.as_str(), name) {
                proof {
                    assert(es[i as int] == entries@[i as int].model());
                    assert(is_exact(es[i as int], name@));
                    assert(lookup_post(es, name@, Some(entries@[i as int].model())));
                }
                return Some(&entries[i]);
            }
            i += 1;
        }
        let mut best: Option<usize> = None;
        i = 0;
        while i < n
            invariant
                0 <= i <= n,
                n == entries@.len(),
                es == entries_model(entries@),
                self.group_entries(group) == Some(es),
                forall|j: int| 0 <= j < n ==> !is_exact(#[trigger] es[j], name@),
                match best {
                    None => forall|j: int| 0 <= j < i ==> !wild_hits(#[trigger] es[j], name@),
                    Some(b) => b < i && wild_hits(es[b as int], name@) && (forall|j: int|
                        0 <= j < i && wild_hits(#[trigger] es[j], name@) ==> pattern_le(
                            es[b as int].pattern,
                            es[j].pattern,
                        )),
                },
            decreases n - i,
        {
            let pat = entries[i].pattern.as_str();
            if contains_star(pat) && !is_catch_all(pat) && pattern_matches(pat, name) {
                match best {
                    None => {
                        best = Some(i);
                    },
                    Some(b) => {
                        if !pattern_le_exec(entries[b].pattern.as_str(), pat) {
                            proof {
                                lemma_pattern_le_total(es[b as int].pattern, es[i as int].pattern);
                                assert forall|j: int|
                                    0 <= j < i + 1 && wild_hits(
                                        #[trigger] es[j],
                                        name@,
                                    ) implies pattern_le(es[i as int].pattern, es[j].pattern) by {
                                    if j < i {
                                        lemma_pattern_le_trans(
                                            es[i as int].pattern,
                                            es[b as int].pattern,
                                            es[j].pattern,
                                        );
                                    } else {
                                        lemma_pattern_le_total(
                                            es[i as int].pattern,
                                            es[i as int].pattern,
                                        );
                                    }
                                }
                            }
                            best = Some(i);
                        }
                    },
                }
            }
            i += 1;
        }
        match best {
            Some(b) => {
                return Some(&entries[b]);
            },
            None => {},
        }
        i = 0;
        while i < n
            invariant
                0 <= i <= n,
                n == entries@.len(),
                es == entries_model(entries@),
                self.group_entries(group) == Some(es),
                forall|j: int| 0 <= j < n ==> !is_exact(#[trigger] es[j], name@),
                forall|j: int| 0 <= j < n ==> !wild_hits(#[trigger] es[j], name@),
                forall|j: int| 0 <= j < i ==> !is_catch(#[trigger] es[j]),
            decreases n - i,
        {
            if is_catch_all(entries[i].pattern.as_str()) {
                proof {
                    assert(es[i as int] == entries@[i as int].model());
                    assert(is_catch(es[i as int]));
                    assert(lookup_post(es, name@, Some(entries@[i as int].model())));
                }
                return Some(&entries[i]);
            }
            i += 1;
        }
        None
    }
}

/// The view of an optional string.
pub open spec fn opt_str_view(o: Option<String>) -> Option<Seq<char>> {
    match o {
        Some(s) => Some(s@),
        None => None,
    }
}

/// The string an optional value holds, empty when it holds none.
pub open spec fn opt_val(o: Option<Seq<char>>) -> Seq<char> {
    match o {
        Some(s) => s,
        None => Seq::empty(),
    }
}

/// The `[default]` block, each field optional.
#[derive(Debug)]
pub struct Defaults {
    pub method: Option<DeployMethod>,
    pub task: Option<String>,
    pub playbook: Option<String>,
    pub inventory: Option<String>,
    pub notify: Option<String>,
}

/// The mathematical image of the `[default]` block.
#[verifier::ext_equal]
pub struct DefaultsModel {
    pub method: Option<DeployMethod>,
    pub task: Option<Seq<char>>,
    pub playbook: Option<Seq<char>>,
    pub inventory: Option<Seq<char>>,
    pub notify: Option<Seq<char>>,
}

impl Defaults {
    pub open spec fn model(&self) -> DefaultsModel {
        DefaultsModel {
            method: self.method,
            task: opt_str_view(self.task),
            playbook: opt_str_view(self.playbook),
            inventory: opt_str_view(self.inventory),
            notify: opt_str_view(self.notify),
        }
    }
}

/// A filesystem question the caller must answer before the
/// configuration can be accepted.
#[derive(Debug)]
pub enum FileCheck {
    /// Does the Makefile at the project root declare this target?
    TargetExists(String),
    /// Does this path, relative to the project root, exist as a file?
    FileExists(String),
}

/// One pending question and the error a `false` answer raises.
#[derive(Debug)]
pub struct Check {
    pub what: FileCheck,
    pub fail: Error,
}

/// The mathematical image of a pending question.
#[verifier::ext_equal]
pub struct CheckModel {
    pub target: bool,
    pub subject: Seq<char>,
    pub fail: ErrorModel,
}

impl Check {
    pub open spec fn model(&self) -> CheckModel {
        CheckModel {
            target: self.what is TargetExists,
            subject: match self.what {
                FileCheck::TargetExists(s) => s@,
                FileCheck::FileExists(s) => s@,
            },
            fail: self.fail.model(),
        }
    }
}

pub open spec fn checks_model(v: Seq<Check>) -> Seq<CheckModel> {
    v.map_values(|c: Check| c.model())
}

/// A parsed configuration still waiting for its filesystem answers.
#[derive(Debug)]
pub struct PendingRepoConfig {
    pub checks: Vec<Check>,
    pub tag: Option<Vec<Config>>,
    pub branch: Option<Vec<Config>>,
    pub project_root: String,
}

/// The mathematical image of a pending configuration.
#[verifier::ext_equal]
pub struct PendingModel {
    pub checks: Seq<CheckModel>,
    pub tag: Option<Seq<EntryModel>>,
    pub branch: Option<Seq<EntryModel>>,
    pub project_root: Seq<char>,
}

impl PendingRepoConfig {
    pub open spec fn model(&self) -> PendingModel {
        PendingModel {
            checks: checks_model(self.checks@),
            tag: match self.tag {
                Some(v) => Some(entries_model(v@)),
                None => None,
            },
            branch: match self.branch {
                Some(v) => Some(entries_model(v@)),
                None => None,
            },
            project_root: self.project_root@,
        }
    }
}

/// The mathematical image of a finished configuration.
#[verifier::ext_equal]
pub struct RepoConfigModel {
    pub branch: Option<Seq<EntryModel>>,
    pub tag: Option<Seq<EntryModel>>,
    pub project_root: Seq<char>,
}

impl RepoConfig {
    pub open spec fn model(&self) -> RepoConfigModel {
        RepoConfigModel {
            branch: match self.branch {
                Some(v) => Some(entries_model(v@)),
                None => None,
            },
            tag: match self.tag {
                Some(v) => Some(entries_model(v@)),
                None => None,
            },
            project_root: self.project_root@,
        }
    }
}

/// What `default.method` means.
pub open spec fn spec_default_method(doc: Seq<char>) -> Result<Option<DeployMethod>, ErrorModel> {
    match toml_str_at(doc, seq!["default"@, "method"@]) {
        None => Ok(None),
        Some(None) => Err(ErrorModel::InvalidDefaultMethod),
        Some(Some(v)) => if v == "ansible"@ {
            Ok(Some(DeployMethod::Ansible))
        } else if v == "makefile"@ || v == "make"@ {
            Ok(Some(DeployMethod::Makefile))
        } else {
            Err(ErrorModel::InvalidDefaultMethod)
        },
    }
}

/// What an optional string under `[default]` means.
pub open spec fn spec_default_str(doc: Seq<char>, key: Seq<char>, bad: ErrorModel) -> Result<
    Option<Seq<char>>,
    ErrorModel,
> {
    match toml_str_at(doc, seq!["default"@, key]) {
        None => Ok(None),
        Some(None) => Err(bad),
        Some(Some(v)) => Ok(Some(v)),
    }
}

/// The whole `[default]` block, field by field.
pub open spec fn spec_defaults(doc: Seq<char>) -> Result<DefaultsModel, ErrorModel> {
    match spec_default_method(doc) {
        Err(e) => Err(e),
        Ok(m) => match spec_default_str(doc, "task"@, ErrorModel::InvalidDefaultMakeTask) {
            Err(e) => Err(e),
            Ok(t) => match spec_default_str(doc, "playbook"@, ErrorModel::InvalidDefaultPlaybook) {
                Err(e) => Err(e),
                Ok(p) => match spec_default_str(
                    doc,
                    "inventory"@,
                    ErrorModel::InvalidDefaultInventory,
                ) {
                    Err(e) => Err(e),
                    Ok(iv) => match spec_default_str(
                        doc,
                        "notify_url"@,
                        ErrorModel::InvalidDefaultNotifyUrl,
                    ) {
                        Err(e) => Err(e),
                        Ok(nu) => Ok(
                            DefaultsModel {
                                method: m,
                                task: t,
                                playbook: p,
                                inventory: iv,
                                notify: nu,
                            },
                        ),
                    },
                },
            },
        },
    }
}

/// The filesystem questions the `[default]` block itself raises.
pub open spec fn spec_default_checks(d: DefaultsModel) -> Seq<CheckModel> {
    (match d.task {
        Some(t) => seq![
            CheckModel { target: true, subject: t, fail: ErrorModel::InvalidDefaultMakeTask },
        ],
        None => Seq::empty(),
    }) + (match d.playbook {
        Some(p) => seq![
            CheckModel { target: false, subject: p, fail: ErrorModel::InvalidDefaultPlaybook },
        ],
        None => Seq::empty(),
    }) + (match d.inventory {
        Some(p) => seq![
            CheckModel { target: false, subject: p, fail: ErrorModel::InvalidDefaultInventory },
        ],
        None => Seq::empty(),
    })
}

/// What an entry's `method` means, with the default as fallback.
pub open spec fn spec_method_of(
    doc: Seq<char>,
    g: Seq<char>,
    k: Seq<char>,
    d: DefaultsModel,
) -> Result<DeployMethod, ErrorModel> {
    match toml_str_at(doc, seq![g, k, "method"@]) {
        None => match d.method {
            Some(m) => Ok(m),
            None => Err(ErrorModel::MissingMethod(k)),
        },
        Some(None) => Err(ErrorModel::InvalidMethod(k)),
        Some(Some(v)) => if v == "ansible"@ {
            Ok(DeployMethod::Ansible)
        } else if v == "makefile"@ || v == "make"@ {
            Ok(DeployMethod::Makefile)
        } else {
            Err(ErrorModel::InvalidMethod(k))
        },
    }
}

/// What an entry's optional string means: the value and whether it was
/// written here rather than inherited.
pub open spec fn spec_entry_str(
    doc: Seq<char>,
    g: Seq<char>,
    k: Seq<char>,
    key: Seq<char>,
    dflt: Option<Seq<char>>,
    bad: ErrorModel,
) -> Result<(Option<Seq<char>>, bool), ErrorModel> {
    match toml_str_at(doc, seq![g, k, key]) {
        None => Ok((dflt, false)),
        Some(None) => Err(bad),
        Some(Some(v)) => Ok((Some(v), true)),
    }
}

/// What an entry's `notifiers` list means, with the default single
/// `notify_url` as fallback.
pub open spec fn spec_notifiers(doc: Seq<char>, g: Seq<char>, k: Seq<char>, d: DefaultsModel) -> Result<
    Option<Seq<Seq<char>>>,
    ErrorModel,
> {
    match toml_strs_at(doc, seq![g, k, "notifiers"@]) {
        None => Ok(
            match d.notify {
                Some(u) => Some(seq![u]),
                None => None,
            },
        ),
        Some(None) => Err(ErrorModel::InvalidNotifyUrl(k)),
        Some(Some(l)) => Ok(Some(l)),
    }
}

/// The filesystem questions one entry raises, in the order its fields
/// are read.
pub open spec fn spec_entry_checks(
    k: Seq<char>,
    pb: (Option<Seq<char>>, bool),
    inv: (Option<Seq<char>>, bool),
    tk: (Option<Seq<char>>, bool),
) -> Seq<CheckModel> {
    (if pb.1 {
        seq![
            CheckModel {
                target: false,
                subject: opt_val(pb.0),
                fail: ErrorModel::InvalidPlaybook(k),
            },
        ]
    } else {
        Seq::empty()
    }) + (if inv.1 {
        seq![
            CheckModel {
                target: false,
                subject: opt_val(inv.0),
                fail: ErrorModel::InvalidInventory(k),
            },
        ]
    } else {
        Seq::empty()
    }) + (if tk.1 {
        seq![
            CheckModel {
                target: true,
                subject: opt_val(tk.0),
                fail: ErrorModel::InvalidMakeTask(k),
            },
        ]
    } else {
        Seq::empty()
    })
}

/// Settle an entry once its fields are read: an ansible entry needs a
/// playbook and an inventory, a make entry needs a target here or in
/// the default block.
pub open spec fn spec_entry_finish(
    k: Seq<char>,
    method: DeployMethod,
    pb: (Option<Seq<char>>, bool),
    inv: (Option<Seq<char>>, bool),
    notifiers: Option<Seq<Seq<char>>>,
    tk: (Option<Seq<char>>, bool),
    d: DefaultsModel,
) -> Result<(EntryModel, Seq<CheckModel>), ErrorModel> {
    let ansible = if method == DeployMethod::Ansible && pb.0 is Some && inv.0 is Some {
        Some((opt_val(pb.0), opt_val(inv.0)))
    } else {
        None
    };
    let make = if method == DeployMethod::Makefile {
        if tk.0 is Some {
            tk.0
        } else {
            d.task
        }
    } else {
        None
    };
    if method == DeployMethod::Ansible && !(pb.0 is Some && inv.0 is Some) {
        Err(ErrorModel::InvalidAnsibleConfig)
    } else if method == DeployMethod::Makefile && make is None {
        Err(ErrorModel::InvalidMakeTaskConfig)
    } else if make is None && ansible is None {
        Err(ErrorModel::MissingTask(k))
    } else {
        Ok(
            (
                EntryModel { pattern: k, method, notifiers, make_task: make, ansible },
                spec_entry_checks(k, pb, inv, tk),
            ),
        )
    }
}

/// What one `[group.pattern]` entry means.
pub open spec fn spec_entry(doc: Seq<char>, g: Seq<char>, k: Seq<char>, d: DefaultsModel) -> Result<
    (EntryModel, Seq<CheckModel>),
    ErrorModel,
> {
    if toml_table_at(doc, seq![g, k]) != Some(true) {
        Err(ErrorModel::InvalidConfigEntry(k))
    } else {
        match spec_method_of(doc, g, k, d) {
            Err(e) => Err(e),
            Ok(method) => match spec_entry_str(
                doc,
                g,
                k,
                "playbook"@,
                d.playbook,
                ErrorModel::InvalidPlaybook(k),
            ) {
                Err(e) => Err(e),
                Ok(pb) => match spec_entry_str(
                    doc,
                    g,
                    k,
                    "inventory"@,
                    d.inventory,
                    ErrorModel::InvalidInventory(k),
                ) {
                    Err(e) => Err(e),
                    Ok(inv) => match spec_notifiers(doc, g, k, d) {
                        Err(e) => Err(e),
                        Ok(notifiers) => match spec_entry_str(
                            doc,
                            g,
                            k,
                            "task"@,
                            None,
                            ErrorModel::InvalidMakeTask(k),
                        ) {
                            Err(e) => Err(e),
                            Ok(tk) => spec_entry_finish(k, method, pb, inv, notifiers, tk, d),
                        },
                    },
                },
            },
        }
    }
}

/// All entries of a group under their keys, first error first.
pub open spec fn spec_entries(
    doc: Seq<char>,
    g: Seq<char>,
    keys: Seq<Seq<char>>,
    d: DefaultsModel,
) -> Result<(Seq<EntryModel>, Seq<CheckModel>), ErrorModel>
    decreases keys.len(),
{
    if keys.len() == 0 {
        Ok((Seq::empty(), Seq::empty()))
    } else {
        match spec_entry(doc, g, keys[0], d) {
            Err(e) => Err(e),
            Ok(first) => match spec_entries(doc, g, keys.skip(1), d) {
                Err(e) => Err(e),
                Ok(rest) => Ok((seq![first.0] + rest.0, first.1 + rest.1)),
            },
        }
    }
}

/// Prepend already-processed entries and checks to a remainder.
pub open spec fn spec_entries_append(
    es: Seq<EntryModel>,
    cs: Seq<CheckModel>,
    rest: Result<(Seq<EntryModel>, Seq<CheckModel>), ErrorModel>,
) -> Result<(Seq<EntryModel>, Seq<CheckModel>), ErrorModel> {
    match rest {
        Err(e) => Err(e),
        Ok(r) => Ok((es + r.0, cs + r.1)),
    }
}

proof fn lemma_entries_append_assoc(
    a: Seq<EntryModel>,
    c: Seq<CheckModel>,
    b: Seq<EntryModel>,
    d2: Seq<CheckModel>,
    rest: Result<(Seq<EntryModel>, Seq<CheckModel>), ErrorModel>,
)
    ensures
        spec_entries_append(a, c, spec_entries_append(b, d2, rest)) == spec_entries_append(
            a + b,
            c + d2,
            rest,
        ),
{
    match rest {
        Err(_) => {},
        Ok(r) => {
            assert(a + (b + r.0) =~= (a + b) + r.0);
            assert(c + (d2 + r.1) =~= (c + d2) + r.1);
        },
    }
}

/// What one pattern group means: absent, malformed, or its entries.
pub open spec fn spec_group(doc: Seq<char>, g: Seq<char>, d: DefaultsModel) -> Result<
    Option<(Seq<EntryModel>, Seq<CheckModel>)>,
    ErrorModel,
> {
    match toml_table_at(doc, seq![g]) {
        None => Ok(None),
        Some(false) => Err(ErrorModel::InvalidConfigGroup),
        Some(true) => match spec_entries(doc, g, toml_keys_at(doc, seq![g]), d) {
            Err(e) => Err(e),
            Ok(x) => Ok(Some(x)),
        },
    }
}

pub open spec fn group_entry_count(o: Option<(Seq<EntryModel>, Seq<CheckModel>)>) -> int {
    match o {
        Some(x) => x.0.len() as int,
        None => 0,
    }
}

pub open spec fn group_checks(o: Option<(Seq<EntryModel>, Seq<CheckModel>)>) -> Seq<CheckModel> {
    match o {
        Some(x) => x.1,
        None => Seq::empty(),
    }
}

pub open spec fn group_entries_of(o: Option<(Seq<EntryModel>, Seq<CheckModel>)>) -> Option<
    Seq<EntryModel>,
> {
    match o {
        Some(x) => Some(x.0),
        None => None,
    }
}

/// What the whole `.hookshot.conf` text means: a pending configuration
/// with its filesystem questions, or the first error. The tag group is
/// read before the branch group, and at least one entry must exist.
pub open spec fn spec_repo_parse(doc: Seq<char>, root: Seq<char>) -> Result<
    PendingModel,
    ErrorModel,
> {
    if !toml_ok(doc) {
        Err(ErrorModel::Parse)
    } else {
        match spec_defaults(doc) {
            Err(e) => Err(e),
            Ok(d) => match spec_group(doc, "tag"@, d) {
                Err(e) => Err(e),
                Ok(tg) => match spec_group(doc, "branch"@, d) {
                    Err(e) => Err(e),
                    Ok(bg) => if group_entry_count(tg) + group_entry_count(bg) == 0 {
                        Err(ErrorModel::MissingConfiguration)
                    } else {
                        Ok(
                            PendingModel {
                                checks: spec_default_checks(d) + group_checks(tg) + group_checks(
                                    bg,
                                ),
                                tag: group_entries_of(tg),
                                branch: group_entries_of(bg),
                                project_root: root,
                            },
                        )
                    },
                },
            },
        }
    }
}

/// Entries ordered most specific first.
pub open spec fn sorted_by_specificity(s: Seq<Config>) -> bool {
    forall|i: int, j: int|
        0 <= i < j < s.len() ==> pattern_le(#[trigger] s[i].pattern@, #[trigger] s[j].pattern@)
}

/// Sort entries by the specificity order: the result holds the same
/// entries, most specific first.
pub fn sort_by_specificity(v: Vec<Config>) -> (r: Vec<Config>)
    ensures
        sorted_by_specificity(r@),
        r@.to_multiset() == v@.to_multiset(),
{
    let mut src = v;
    let ghost orig = src@;
    let mut out: Vec<Config> = Vec::new();
    while src.len() > 0
        invariant
            out@.to_multiset().add(src@.to_multiset()) == orig.to_multiset(),
            sorted_by_specificity(out@),
            forall|i: int, j: int|
                0 <= i < out@.len() && 0 <= j < src@.len() ==> pattern_le(
                    #[trigger] out@[i].pattern@,
                    #[trigger] src@[j].pattern@,
                ),
        decreases src.len(),
    {
        let mut m: usize = 0;
        let mut t: usize = 1;
        while t < src.len()
            invariant
                src@.len() > 0,
                0 <= m < t <= src@.len(),
                forall|j: int|
                    0 <= j < t ==> pattern_le(src@[m as int].pattern@, #[trigger] src@[j].pattern@),
            decreases src@.len() - t,
        {
            if !pattern_le_exec(src[m].pattern.as_str(), src[t].pattern.as_str()) {
                proof {
                    lemma_pattern_le_total(src@[m as int].pattern@, src@[t as int].pattern@);
                    assert forall|j: int| 0 <= j < t + 1 implies pattern_le(
                        src@[t as int].pattern@,
                        #[trigger] src@[j].pattern@,
                    ) by {
                        if j < t {
                            lemma_pattern_le_trans(
                                src@[t as int].pattern@,
                                src@[m as int].pattern@,
                                src@[j].pattern@,
                            );
                        } else {
                            lemma_pattern_le_total(src@[t as int].pattern@, src@[t as int].pattern@);
                        }
                    }
                }
                m = t;
            }
            t += 1;
        }
        let ghost old_src = src@;
        let ghost old_out = out@;
        let x = src.remove(m);
        proof {
            assert(old_src.remove(m as int).to_multiset() =~= old_src.to_multiset().remove(x));
            assert(old_src.to_multiset().count(x) > 0);
        }
        out.push(x);
        proof {
            assert(out@ == old_out.push(x));
            assert(out@.to_multiset() =~= old_out.to_multiset().insert(x));
            assert(out@.to_multiset().add(src@.to_multiset()) =~= orig.to_multiset()) by {
                assert forall|e: Config|
                    out@.to_multiset().add(src@.to_multiset()).count(e) == orig.to_multiset().count(
                        e,
                    ) by {
                    assert(old_out.to_multiset().add(old_src.to_multiset()).count(e)
                        == orig.to_multiset().count(e));
                }
            }
            assert forall|i: int, j: int|
                0 <= i < out@.len() && 0 <= j < src@.len() implies pattern_le(
                #[trigger] out@[i].pattern@,
                #[trigger] src@[j].pattern@,
            ) by {
                assert(src@[j] == old_src[if j < m { j } else { j + 1 }]);
                if i < old_out.len() {
                    assert(out@[i] == old_out[i]);
                } else {
                    assert(out@[i] == x);
                }
            }
            assert forall|i: int, j: int| 0 <= i < j < out@.len() implies pattern_le(
                #[trigger] out@[i].pattern@,
                #[trigger] out@[j].pattern@,
            ) by {
                if j == out@.len() - 1 {
                    assert(old_src[m as int] == x);
                    assert(pattern_le(old_out[i].pattern@, old_src[m as int].pattern@));
                }
            }
        }
    }
    out
}


fn read_default_str(doc: &str, key: &str, bad: Error) -> (r: Result<Option<String>, Error>)
    requires
        toml_ok(doc@),
    ensures
        match r {
            Ok(v) => spec_default_str(doc@, key@, bad.model()) == Ok::<
                Option<Seq<char>>,
                ErrorModel,
            >(opt_str_view(v)),
            Err(e) => spec_default_str(doc@, key@, bad.model()) == Err::<
                Option<Seq<char>>,
                ErrorModel,
            >(e.model()),
        },
{
    match toml_lookup_str(doc, &path2("default", key)) {
        TomlLookup::Missing => Ok(None),
        TomlLookup::Found(v) => Ok(Some(v)),
        _ => Err(bad),
    }
}

fn parse_defaults(doc: &str) -> (r: Result<Defaults, Error>)
    requires
        toml_ok(doc@),
    ensures
        match r {
            Ok(d) => spec_defaults(doc@) == Ok::<DefaultsModel, ErrorModel>(d.model()),
            Err(e) => spec_defaults(doc@) == Err::<DefaultsModel, ErrorModel>(e.model()),
        },
{
    let method = match toml_lookup_str(doc, &path2("default", "method")) {
        TomlLookup::Missing => None,
        TomlLookup::Found(v) => {
            if str_eq(v.as_str(), "ansible") {
                Some(DeployMethod::Ansible)
            } else if str_eq(v.as_str(), "makefile") || str_eq(v.as_str(), "make") {
                Some(DeployMethod::Makefile)
            } else {
                return Err(Error::InvalidDefaultMethod);
            }
        },
        _ => {
            return Err(Error::InvalidDefaultMethod);
        },
    };
    let task = match read_default_str(doc, "task", Error::InvalidDefaultMakeTask) {
        Ok(v) => v,
        Err(e) => {
            return Err(e);
        },
    };
    let playbook = match read_default_str(doc, "playbook", Error::InvalidDefaultPlaybook) {
        Ok(v) => v,
        Err(e) => {
            return Err(e);
        },
    };
    let inventory = match read_default_str(doc, "inventory", Error::InvalidDefaultInventory) {
        Ok(v) => v,
        Err(e) => {
            return Err(e);
        },
    };
    let notify = match read_default_str(doc, "notify_url", Error::InvalidDefaultNotifyUrl) {
        Ok(v) => v,
        Err(e) => {
            return Err(e);
        },
    };
    let d = Defaults { method, task, playbook, inventory, notify };
    proof {
        assert(spec_defaults(doc@) == Ok::<DefaultsModel, ErrorModel>(d.model()));
    }
    Ok(d)
}

fn entry_str(
    doc: &str,
    g: &str,
    k: &str,
    key: &str,
    dflt: &Option<String>,
    bad: Error,
) -> (r: Result<(Option<String>, bool), Error>)
    requires
        toml_ok(doc@),
    ensures
        match r {
            Ok(p) => spec_entry_str(doc@, g@, k@, key@, opt_str_view(*dflt), bad.model()) == Ok::<
                (Option<Seq<char>>, bool),
                ErrorModel,
            >((opt_str_view(p.0), p.1)),
            Err(e) => spec_entry_str(doc@, g@, k@, key@, opt_str_view(*dflt), bad.model()) == Err::<
                (Option<Seq<char>>, bool),
                ErrorModel,
            >(e.model()),
        },
{
    match toml_lookup_str(doc, &path3(g, k, key)) {
        TomlLookup::Missing => {
            let c = match dflt {
                Some(s) => Some(s.clone()),
                None => None,
            };
            Ok((c, false))
        },
        TomlLookup::Found(v) => Ok((Some(v), true)),
        _ => Err(bad),
    }
}

fn process_entry(doc: &str, g: &str, k: &String, d: &Defaults, root: &str) -> (r: Result<
    (Config, Vec<Check>),
    Error,
>)
    requires
        toml_ok(doc@),
    ensures
        match r {
            Ok(p) => spec_entry(doc@, g@, k@, d.model()) == Ok::<
                (EntryModel, Seq<CheckModel>),
                ErrorModel,
            >((p.0.model(), checks_model(p.1@))),
            Err(e) => spec_entry(doc@, g@, k@, d.model()) == Err::<
                (EntryModel, Seq<CheckModel>),
                ErrorModel,
            >(e.model()),
        },
{
    match toml_table_status(doc, &path2(g, k.as_str())) {
        TomlTableStatus::Table => {},
        _ => {
            return Err(Error::InvalidConfigEntry(k.clone()));
        },
    }
    let method = match toml_lookup_str(doc, &path3(g, k.as_str(), "method")) {
        TomlLookup::Missing => {
            match &d.method {
                Some(m) => *m,
                None => {
                    return Err(Error::MissingMethod(k.clone()));
                },
            }
        },
        TomlLookup::Found(v) => {
            if str_eq(v.as_str(), "ansible") {
                DeployMethod::Ansible
            } else if str_eq(v.as_str(), "makefile") || str_eq(v.as_str(), "make") {
                DeployMethod::Makefile
            } else {
                return Err(Error::InvalidMethod(k.clone()));
            }
        },
        _ => {
            return Err(Error::InvalidMethod(k.clone()));
        },
    };
    let (playbook, pb_new) = match entry_str(
        doc,
        g,
        k.as_str(),
        "playbook",
        &d.playbook,
        Error::InvalidPlaybook(k.clone()),
    ) {
        Ok(x) => x,
        Err(e) => {
            return Err(e);
        },
    };
    let (inventory, inv_new) = match entry_str(
        doc,
        g,
        k.as_str(),
        "inventory",
        &d.inventory,
        Error::InvalidInventory(k.clone()),
    ) {
        Ok(x) => x,
        Err(e) => {
            return Err(e);
        },
    };
    let notifiers: Option<Vec<String>> = match toml_lookup_strs(
        doc,
        &path3(g, k.as_str(), "notifiers"),
    ) {
        TomlStrsLookup::Missing => {
            match &d.notify {
                Some(u) => {
                    let mut v: Vec<String> = Vec::new();
                    v.push(u.clone());
                    proof {
                        assert(views_of(v@) =~= seq![u@]);
                    }
                    Some(v)
                },
                None => None,
            }
        },
        TomlStrsLookup::Found(l) => Some(l),
        _ => {
            return Err(Error::InvalidNotifyUrl(k.clone()));
        },
    };
    let ghost notif_val: Option<Seq<Seq<char>>> = match &notifiers {
        Some(v) => Some(views_of(v@)),
        None => None,
    };
    proof {
        assert(spec_notifiers(doc@, g@, k@, d.model()) == Ok::<
            Option<Seq<Seq<char>>>,
            ErrorModel,
        >(notif_val));
    }
    let none_default: Option<String> = None;
    let (task, task_new) = match entry_str(
        doc,
        g,
        k.as_str(),
        "task",
        &none_default,
        Error::InvalidMakeTask(k.clone()),
    ) {
        Ok(x) => x,
        Err(e) => {
            return Err(e);
        },
    };
    let ghost pb_spec = (opt_str_view(playbook), pb_new);
    let ghost inv_spec = (opt_str_view(inventory), inv_new);
    let ghost tk_spec = (opt_str_view(task), task_new);
    let mut checks: Vec<Check> = Vec::new();
    if pb_new {
        match &playbook {
            Some(p) => checks.push(
                Check { what: FileCheck::FileExists(p.clone()), fail: Error::InvalidPlaybook(k.clone()) },
            ),
            None => {
                proof {
                    assert(false);
                }
                return Err(Error::Parse);
            },
        }
    }
    if inv_new {
        match &inventory {
            Some(p) => checks.push(
                Check {
                    what: FileCheck::FileExists(p.clone()),
                    fail: Error::InvalidInventory(k.clone()),
                },
            ),
            None => {
                proof {
                    assert(false);
                }
                return Err(Error::Parse);
            },
        }
    }
    if task_new {
        match &task {
            Some(t) => checks.push(
                Check {
                    what: FileCheck::TargetExists(t.clone()),
                    fail: Error::InvalidMakeTask(k.clone()),
                },
            ),
            None => {
                proof {
                    assert(false);
                }
                return Err(Error::Parse);
            },
        }
    }
    proof {
        assert(checks_model(checks@) =~= spec_entry_checks(k@, pb_spec, inv_spec, tk_spec));
    }
    if method == DeployMethod::Ansible && !(playbook.is_some() && inventory.is_some()) {
        return Err(Error::InvalidAnsibleConfig);
    }
    let ansible_task: Option<AnsibleTask> = if method == DeployMethod::Ansible {
        match (&playbook, &inventory) {
            (Some(p), Some(iv)) => Some(AnsibleTask::new(p.clone(), iv.clone(), root.to_owned())),
            _ => {
                proof {
                    assert(false);
                }
                return Err(Error::Parse);
            },
        }
    } else {
        None
    };
    let make_choice: Option<String> = if method == DeployMethod::Makefile {
        match task {
            Some(t) => Some(t),
            None => {
                match &d.task {
                    Some(t) => Some(t.clone()),
                    None => {
                        return Err(Error::InvalidMakeTaskConfig);
                    },
                }
            },
        }
    } else {
        None
    };
    let make_task: Option<MakeTask> = match make_choice {
        Some(t) => Some(MakeTask { task: t, path: root.to_owned() }),
        None => None,
    };
    if make_task.is_none() && ansible_task.is_none() {
        return Err(Error::MissingTask(k.clone()));
    }
    let config = Config { pattern: k.clone(), method, notifiers, make_task, ansible_task };
    proof {
        let fin = spec_entry_finish(k@, method, pb_spec, inv_spec, notif_val, tk_spec, d.model());
        match fin {
            Ok(p) => {
                assert(p.0 =~= config.model());
                assert(p.1 == checks_model(checks@));
            },
            Err(_) => {
                assert(false);
            },
        }
        assert(spec_entry(doc@, g@, k@, d.model()) == Ok::<
            (EntryModel, Seq<CheckModel>),
            ErrorModel,
        >((config.model(), checks_model(checks@))));
    }
    Ok((config, checks))
}

fn process_group(doc: &str, g: &str, d: &Defaults, root: &str) -> (r: Result<
    Option<(Vec<Config>, Vec<Check>)>,
    Error,
>)
    requires
        toml_ok(doc@),
    ensures
        match r {
            Ok(opt) => (match opt {
                None => spec_group(doc@, g@, d.model()) == Ok::<
                    Option<(Seq<EntryModel>, Seq<CheckModel>)>,
                    ErrorModel,
                >(None),
                Some(p) => spec_group(doc@, g@, d.model()) == Ok::<
                    Option<(Seq<EntryModel>, Seq<CheckModel>)>,
                    ErrorModel,
                >(Some((entries_model(p.0@), checks_model(p.1@)))),
            }),
            Err(e) => spec_group(doc@, g@, d.model()) == Err::<
                Option<(Seq<EntryModel>, Seq<CheckModel>)>,
                ErrorModel,
            >(e.model()),
        },
{
    match toml_table_status(doc, &path1(g)) {
        TomlTableStatus::Missing => {
            return Ok(None);
        },
        TomlTableStatus::Table => {},
        _ => {
            return Err(Error::InvalidConfigGroup);
        },
    }
    let keys = match toml_keys(doc, &path1(g)) {
        Some(ks) => ks,
        None => {
            proof {
                assert(false);
            }
            return Err(Error::InvalidConfigGroup);
        },
    };
    let ghost keys_v = views_of(keys@);
    proof {
        assert(keys_v == toml_keys_at(doc@, seq![g@]));
        assert(keys_v.skip(0) =~= keys_v);
    }
    let mut entries: Vec<Config> = Vec::new();
    let mut checks: Vec<Check> = Vec::new();
    let mut i: usize = 0;
    while i < keys.len()
        invariant
            0 <= i <= keys@.len(),
            toml_ok(doc@),
            keys_v == views_of(keys@),
            keys_v == toml_keys_at(doc@, seq![g@]),
            toml_table_at(doc@, seq![g@]) == Some(true),
            spec_entries(doc@, g@, keys_v, d.model()) == spec_entries_append(
                entries_model(entries@),
                checks_model(checks@),
                spec_entries(doc@, g@, keys_v.skip(i as int), d.model()),
            ),
        decreases keys@.len() - i,
    {
        let k = &keys[i];
        proof {
            assert(keys_v[i as int] == k@);
            assert(keys_v.skip(i as int).len() > 0);
            assert(keys_v.skip(i as int)[0] == keys_v[i as int]);
            assert(keys_v.skip(i as int).skip(1) =~= keys_v.skip(i as int + 1));
        }
        let (c, cks) = match process_entry(doc, g, k, d, root) {
            Ok(x) => x,
            Err(e) => {
                return Err(e);
            },
        };
        let ghost old_entries = entries@;
        let ghost old_checks = checks@;
        let ghost cksv = cks@;
        entries.push(c);
        let mut cks2 = cks;
        checks.append(&mut cks2);
        i += 1;
        proof {
            assert(entries_model(entries@) =~= entries_model(old_entries) + seq![
                entries@[entries@.len() - 1].model(),
            ]);
            assert(checks_model(checks@) =~= checks_model(old_checks) + checks_model(cksv));
            lemma_entries_append_assoc(
                entries_model(old_entries),
                checks_model(old_checks),
                entries_model(entries@).skip(entries_model(old_entries).len() as int),
                checks_model(cksv),
                spec_entries(doc@, g@, keys_v.skip(i as int), d.model()),
            );
            assert(entries_model(entries@).skip(entries_model(old_entries).len() as int) =~= seq![
                entries@[entries@.len() - 1].model(),
            ]);
            assert(spec_entries(doc@, g@, keys_v, d.model()) == spec_entries_append(
                entries_model(entries@),
                checks_model(checks@),
                spec_entries(doc@, g@, keys_v.skip(i as int), d.model()),
            ));
        }
    }
    proof {
        assert(keys_v.skip(keys@.len() as int).len() == 0);
        assert(entries_model(entries@) + Seq::<EntryModel>::empty() =~= entries_model(entries@));
        assert(checks_model(checks@) + Seq::<CheckModel>::empty() =~= checks_model(checks@));
    }
    Ok(Some((entries, checks)))
}

impl RepoConfig {
    /// Parse the `.hookshot.conf` text. What comes back still waits
    /// for the filesystem answers its checks list names.
    pub fn from_str(string: &str, project_root: &str) -> (r: Result<PendingRepoConfig, Error>)
        ensures
            match r {
                Ok(p) => spec_repo_parse(string@, project_root@) == Ok::<PendingModel, ErrorModel>(
                    p.model(),
                ),
                Err(e) => spec_repo_parse(string@, project_root@) == Err::<
                    PendingModel,
                    ErrorModel,
                >(e.model()),
            },
    {
        let empty_path: Vec<String> = Vec::new();
        match toml_table_status(string, &empty_path) {
            TomlTableStatus::BadToml => {
                return Err(Error::Parse);
            },
            _ => {},
        }
        let d = match parse_defaults(string) {
            Ok(d) => d,
            Err(e) => {
                return Err(e);
            },
        };
        let tg = match process_group(string, "tag", &d, project_root) {
            Ok(x) => x,
            Err(e) => {
                return Err(e);
            },
        };
        let bg = match process_group(string, "branch", &d, project_root) {
            Ok(x) => x,
            Err(e) => {
                return Err(e);
            },
        };
        let tag_empty = match &tg {
            Some(p) => p.0.len() == 0,
            None => true,
        };
        let branch_empty = match &bg {
            Some(p) => p.0.len() == 0,
            None => true,
        };
        if tag_empty && branch_empty {
            return Err(Error::MissingConfiguration);
        }
        let mut checks: Vec<Check> = Vec::new();
        if let Some(t) = &d.task {
            checks.push(
                Check { what: FileCheck::TargetExists(t.clone()), fail: Error::InvalidDefaultMakeTask },
            );
        }
        if let Some(p) = &d.playbook {
            checks.push(
                Check { what: FileCheck::FileExists(p.clone()), fail: Error::InvalidDefaultPlaybook },
            );
        }
        if let Some(p) = &d.inventory {
            checks.push(
                Check {
                    what: FileCheck::FileExists(p.clone()),
                    fail: Error::InvalidDefaultInventory,
                },
            );
        }
        proof {
            assert(checks_model(checks@) =~= spec_default_checks(d.model()));
        }
        let ghost base_checks = checks@;
        let (tag, tag_checks): (Option<Vec<Config>>, Vec<Check>) = match tg {
            Some(p) => (Some(p.0), p.1),
            None => (None, Vec::new()),
        };
        let (branch, branch_checks): (Option<Vec<Config>>, Vec<Check>) = match bg {
            Some(p) => (Some(p.0), p.1),
            None => (None, Vec::new()),
        };
        let ghost tcv = tag_checks@;
        let ghost bcv = branch_checks@;
        let mut tag_checks2 = tag_checks;
        let mut branch_checks2 = branch_checks;
        checks.append(&mut tag_checks2);
        checks.append(&mut branch_checks2);
        let result = PendingRepoConfig { checks, tag, branch, project_root: project_root.to_owned() };
        proof {
            assert(checks_model(result.checks@) =~= checks_model(base_checks) + checks_model(tcv)
                + checks_model(bcv));
            let spec_r = spec_repo_parse(string@, project_root@);
            assert(spec_r matches Ok(_));
            match spec_r {
                Ok(pm) => {
                    assert(result.model() =~~= pm);
                },
                Err(_) => {},
            }
        }
        Ok(result)
    }
}

impl PendingRepoConfig {
    /// Accept the filesystem answers, one per pending check and in
    /// the same order: the first `false` answer raises that check's
    /// error, and all-true answers finish the configuration.
    pub fn finish(self, answers: &Vec<bool>) -> (r: Result<RepoConfig, Error>)
        requires
            answers@.len() == self.checks@.len(),
        ensures
            match r {
                Ok(c) => (forall|i: int| 0 <= i < answers@.len() ==> answers@[i]) && c.model()
                    == (RepoConfigModel {
                    branch: self.model().branch,
                    tag: self.model().tag,
                    project_root: self.model().project_root,
                }),
                Err(e) => exists|i: int|
                    0 <= i < answers@.len() && !answers@[i] && (forall|j: int|
                        0 <= j < i ==> answers@[j]) && e.model() == self.checks@[i].model().fail,
            },
    {
        let ghost init = self;
        let PendingRepoConfig { checks, tag, branch, project_root } = self;
        let mut checks = checks;
        let mut i: usize = 0;
        while i < answers.len()
            invariant
                0 <= i <= answers@.len(),
                init == self,
                answers@.len() == checks@.len(),
                checks@ == init.checks@,
                forall|j: int| 0 <= j < i ==> answers@[j],
            decreases answers@.len() - i,
        {
            if !answers[i] {
                let c = checks.remove(i);
                return Err(c.fail);
            }
            i += 1;
        }
        let out = RepoConfig { branch, tag, project_root };
        proof {
            assert(out.model() =~~= (RepoConfigModel {
                branch: init.model().branch,
                tag: init.model().tag,
                project_root: init.model().project_root,
            }));
        }
        Ok(out)
    }
}

} // verus!
