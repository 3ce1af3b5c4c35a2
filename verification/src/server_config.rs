//! The server's own configuration, read once at startup.
//!
//! Parsing the TOML text yields a pending configuration naming the two
//! directories it relies on; the caller looks at the filesystem and
//! finishing turns the answers into a configuration or an error. The
//! `[env]` tree stays as text and is consulted per lookup.

use vstd::prelude::*;
use vstd::string::*;
use crate::jsondoc::{path1, path2};
use crate::strutil::{pair_views, views_of};
use crate::tomldoc::{
    TomlIntLookup, TomlLookup, TomlTableStatus, toml_int_at, toml_keys, toml_keys_at,
    toml_lookup_int, toml_lookup_str, toml_ok, toml_str_at, toml_table_at, toml_table_status,
};
use crate::verified_path::VerifiedPath;

verus! {

/// An environment: keys with their values, in key order.
pub type Environment = Vec<(String, String)>;

#[derive(Debug, PartialEq, Eq, Structural)]
pub enum Error {
    ParseError,
    MissingConfigSection,
    MissingSecret,
    InvalidSecret,
    MissingPort,
    InvalidPort,
    InvalidQueueLimit,
    MissingCheckoutRoot,
    InvalidCheckoutRoot,
    MissingLogRoot,
    InvalidLogRoot,
    MissingHostname,
    InvalidHostname,
    InvalidEnvironmentTable,
    FileOpenError,
    FileReadError,
}

/// The sentence each error prints as.
pub open spec fn server_error_message(e: Error) -> Seq<char> {
    match e {
        Error::ParseError => "could not parse configuration"@,
        Error::MissingConfigSection => "missing 'config' section"@,
        Error::MissingSecret => "missing 'config.secret'"@,
        Error::InvalidSecret => "'config.secret' must be a string"@,
        Error::MissingHostname => "missing 'config.hostname'"@,
        Error::InvalidHostname => "'config.hostname' must be a string"@,
        Error::MissingPort => "missing 'config.port'"@,
        Error::InvalidPort => "'config.port' must be 16 integer"@,
        Error::MissingCheckoutRoot => "missing 'config.checkout_root'"@,
        Error::InvalidCheckoutRoot => "'config.checkout_root' must be a directory"@,
        Error::InvalidQueueLimit => "'config.queue' must be a positive integer"@,
        Error::MissingLogRoot => "missing 'config.log_root'"@,
        Error::InvalidLogRoot => "'config.log_root' must be a directory"@,
        Error::InvalidEnvironmentTable => "'env' table is invalid, check configuration"@,
        Error::FileOpenError => "could not open config file"@,
        Error::FileReadError => "could not read config file into string"@,
    }
}

impl Error {
    pub fn description(&self) -> (r: &'static str)
        ensures
            r@ == server_error_message(*self),
    {
        match *self {
            Error::ParseError => "could not parse configuration",
            Error::MissingConfigSection => "missing 'config' section",
            Error::MissingSecret => "missing 'config.secret'",
            Error::InvalidSecret => "'config.secret' must be a string",
            Error::MissingHostname => "missing 'config.hostname'",
            Error::InvalidHostname => "'config.hostname' must be a string",
            Error::MissingPort => "missing 'config.port'",
            Error::InvalidPort => "'config.port' must be 16 integer",
            Error::MissingCheckoutRoot => "missing 'config.checkout_root'",
            Error::InvalidCheckoutRoot => "'config.checkout_root' must be a directory",
            Error::InvalidQueueLimit => "'config.queue' must be a positive integer",
            Error::MissingLogRoot => "missing 'config.log_root'",
            Error::InvalidLogRoot => "'config.log_root' must be a directory",
            Error::InvalidEnvironmentTable => "'env' table is invalid, check configuration",
            Error::FileOpenError => "could not open config file",
            Error::FileReadError => "could not read config file into string",
        }
    }
}

/// Resolve the data home the way the basedir convention does: an
/// explicitly set non-empty XDG_DATA_HOME wins; an empty one falls
/// back to HOME itself; an unset one to HOME/.local/share; and with no
/// HOME there is none.
pub open spec fn spec_xdg_data_home(home: Option<Seq<char>>, xdg: Option<Seq<char>>) -> Option<
    Seq<char>,
> {
    match home {
        None => None,
        Some(h) => Some(
            match xdg {
                Some(d) => if d.len() == 0 {
                    h
                } else {
                    d
                },
                None => h + "/.local/share"@,
            },
        ),
    }
}

pub fn get_xdg_data_home(home: Option<String>, xdg: Option<String>) -> (r: Option<String>)
    ensures
        match r {
            Some(s) => spec_xdg_data_home(
                match home {
                    Some(h) => Some(h@),
                    None => None,
                },
                match xdg {
                    Some(d) => Some(d@),
                    None => None,
                },
            ) == Some(s@),
            None => home is None,
        },
{
    let h = match home {
        Some(h) => h,
        None => {
            return None;
        },
    };
    match xdg {
        Some(d) => {
            if d.as_str().is_empty() {
                Some(h)
            } else {
                Some(d)
            }
        },
        None => {
            let mut out = h;
            out.append("/.local/share");
            Some(out)
        },
    }
}

pub fn get_default_log_dir(data_home: Option<String>) -> (r: Option<String>)
    ensures
        match r {
            Some(s) => (match data_home {
                Some(d) => s@ == d@ + "/hookshot/logs"@,
                None => false,
            }),
            None => data_home is None,
        },
{
    match data_home {
        None => None,
        Some(d) => {
            let mut out = d;
            out.append("/hookshot/logs");
            Some(out)
        },
    }
}

pub fn get_default_checkout_dir(data_home: Option<String>) -> (r: Option<String>)
    ensures
        match r {
            Some(s) => (match data_home {
                Some(d) => s@ == d@ + "/hookshot/checkouts"@,
                None => false,
            }),
            None => data_home is None,
        },
{
    match data_home {
        None => None,
        Some(d) => {
            let mut out = d;
            out.append("/hookshot/checkouts");
            Some(out)
        },
    }
}

/// The server configuration once its directories were seen to exist.
#[derive(Debug, Clone)]
pub struct ServerConfig {
    pub secret: String,
    pub hostname: String,
    pub checkout_root: VerifiedPath,
    pub log_root: VerifiedPath,
    pub queue_limit: Option<u64>,
    pub port: u16,
    /// The configuration text the `[env]` tree is read from.
    pub env_source: String,
}

/// A parsed server configuration whose directories are not yet known
/// to exist.
#[derive(Debug)]
pub struct PendingServerConfig {
    pub secret: String,
    pub hostname: String,
    pub checkout_root: String,
    pub log_root: String,
    pub queue_limit: Option<u64>,
    pub port: u16,
    pub env_source: String,
}

/// The mathematical image of a pending server configuration.
#[verifier::ext_equal]
pub struct ServerModel {
    pub secret: Seq<char>,
    pub hostname: Seq<char>,
    pub checkout_root: Seq<char>,
    pub log_root: Seq<char>,
    pub queue_limit: Option<u64>,
    pub port: u16,
    pub env_source: Seq<char>,
}

impl PendingServerConfig {
    pub open spec fn model(&self) -> ServerModel {
        ServerModel {
            secret: self.secret@,
            hostname: self.hostname@,
            checkout_root: self.checkout_root@,
            log_root: self.log_root@,
            queue_limit: self.queue_limit,
            port: self.port,
            env_source: self.env_source@,
        }
    }
}

/// What the `[config]` section means, error by error in the order the
/// fields are read; the directory defaults stand in where the file
/// names none.
pub open spec fn spec_server_parse(
    doc: Seq<char>,
    default_checkout: Option<Seq<char>>,
    default_log: Option<Seq<char>>,
) -> Result<ServerModel, Error> {
    if !toml_ok(doc) {
        Err(Error::ParseError)
    } else if toml_table_at(doc, seq!["config"@]) is None {
        Err(Error::MissingConfigSection)
    } else {
        match toml_str_at(doc, seq!["config"@, "secret"@]) {
            None => Err(Error::MissingSecret),
            Some(None) => Err(Error::InvalidSecret),
            Some(Some(secret)) => {
                match (match toml_int_at(doc, seq!["config"@, "port"@]) {
                    None => Ok(1469u16),
                    Some(Some(p)) => if 0 <= p < 65535 {
                        Ok(p as u16)
                    } else {
                        Err(Error::InvalidPort)
                    },
                    Some(None) => Err(Error::InvalidPort),
                }) {
                    Err(e) => Err(e),
                    Ok(port) => {
                        match (match toml_str_at(doc, seq!["config"@, "checkout_root"@]) {
                            None => match default_checkout {
                                None => Err(Error::MissingCheckoutRoot),
                                Some(d) => Ok(d),
                            },
                            Some(None) => Err(Error::InvalidCheckoutRoot),
                            Some(Some(v)) => Ok(v),
                        }) {
                            Err(e) => Err(e),
                            Ok(checkout_root) => {
                                match (match toml_str_at(doc, seq!["config"@, "log_root"@]) {
                                    None => match default_log {
                                        None => Err(Error::MissingLogRoot),
                                        Some(d) => Ok(d),
                                    },
                                    Some(None) => Err(Error::InvalidLogRoot),
                                    Some(Some(v)) => Ok(v),
                                }) {
                                    Err(e) => Err(e),
                                    Ok(log_root) => {
                                        match toml_str_at(doc, seq!["config"@, "hostname"@]) {
                                            None => Err(Error::MissingHostname),
                                            Some(None) => Err(Error::InvalidHostname),
                                            Some(Some(hostname)) => {
                                                match (match toml_int_at(
                                                    doc,
                                                    seq!["config"@, "queue_limit"@],
                                                ) {
                                                    None => Ok(None),
                                                    Some(Some(v)) => if v > 1 {
                                                        Ok(Some(v as u64))
                                                    } else {
                                                        Err(Error::InvalidQueueLimit)
                                                    },
                                                    Some(None) => Err(Error::InvalidQueueLimit),
                                                }) {
                                                    Err(e) => Err(e),
                                                    Ok(queue_limit) => {
                                                        if toml_table_at(doc, seq!["env"@])
                                                            == Some(false) {
                                                            Err(Error::InvalidEnvironmentTable)
                                                        } else {
                                                            Ok(
                                                                ServerModel {
                                                                    secret,
                                                                    hostname,
                                                                    checkout_root,
                                                                    log_root,
                                                                    queue_limit,
                                                                    port,
                                                                    env_source: doc,
                                                                },
                                                            )
                                                        }
                                                    },
                                                }
                                            },
                                        }
                                    },
                                }
                            },
                        }
                    },
                }
            },
        }
    }
}

impl ServerConfig {
    /// Parse the configuration text. The directory defaults stand in
    /// where the file names none; what comes back still waits for the
    /// two directories to be seen on disk.
    pub fn from(
        string: &str,
        default_checkout_dir: Option<String>,
        default_log_dir: Option<String>,
    ) -> (r: Result<PendingServerConfig, Error>)
        ensures
            match r {
                Ok(p) => spec_server_parse(
                    string@,
                    match default_checkout_dir {
                        Some(d) => Some(d@),
                        None => None,
                    },
                    match default_log_dir {
                        Some(d) => Some(d@),
                        None => None,
                    },
                ) == Ok::<ServerModel, Error>(p.model()),
                Err(e) => spec_server_parse(
                    string@,
                    match default_checkout_dir {
                        Some(d) => Some(d@),
                        None => None,
                    },
                    match default_log_dir {
                        Some(d) => Some(d@),
                        None => None,
                    },
                ) == Err::<ServerModel, Error>(e),
            },
    {
        match toml_table_status(string, &path1("config")) {
            TomlTableStatus::BadToml => {
                return Err(Error::ParseError);
            },
            TomlTableStatus::Missing => {
                return Err(Error::MissingConfigSection);
            },
            _ => {},
        }
        let secret = match toml_lookup_str(string, &path2("config", "secret")) {
            TomlLookup::Missing => {
                return Err(Error::MissingSecret);
            },
            TomlLookup::Found(v) => v,
            _ => {
                return Err(Error::InvalidSecret);
            },
        };
        let port: u16 = match toml_lookup_int(string, &path2("config", "port")) {
            TomlIntLookup::Missing => 1469,
            TomlIntLookup::Found(p) => {
                if 0 <= p && p < 65535 {
                    p as u16
                } else {
                    return Err(Error::InvalidPort);
                }
            },
            _ => {
                return Err(Error::InvalidPort);
            },
        };
        let checkout_root = match toml_lookup_str(string, &path2("config", "checkout_root")) {
            TomlLookup::Missing => {
                match default_checkout_dir {
                    None => {
                        return Err(Error::MissingCheckoutRoot);
                    },
                    Some(d) => d,
                }
            },
            TomlLookup::Found(v) => v,
            _ => {
                return Err(Error::InvalidCheckoutRoot);
            },
        };
        let log_root = match toml_lookup_str(string, &path2("config", "log_root")) {
            TomlLookup::Missing => {
                match default_log_dir {
                    None => {
                        return Err(Error::MissingLogRoot);
                    },
                    Some(d) => d,
                }
            },
            TomlLookup::Found(v) => v,
            _ => {
                return Err(Error::InvalidLogRoot);
            },
        };
        let hostname = match toml_lookup_str(string, &path2("config", "hostname")) {
            TomlLookup::Missing => {
                return Err(Error::MissingHostname);
            },
            TomlLookup::Found(v) => v,
            _ => {
                return Err(Error::InvalidHostname);
            },
        };
        let queue_limit: Option<u64> = match toml_lookup_int(string, &path2("config", "queue_limit"))
            {
            TomlIntLookup::Missing => None,
            TomlIntLookup::Found(v) => {
                if v > 1 {
                    Some(v as u64)
                } else {
                    return Err(Error::InvalidQueueLimit);
                }
            },
            _ => {
                return Err(Error::InvalidQueueLimit);
            },
        };
        match toml_table_status(string, &path1("env")) {
            TomlTableStatus::NotTable => {
                return Err(Error::InvalidEnvironmentTable);
            },
            _ => {},
        }
        Ok(
            PendingServerConfig {
                secret,
                hostname,
                checkout_root,
                log_root,
                queue_limit,
                port,
                env_source: string.to_owned(),
            },
        )
    }
}

impl PendingServerConfig {
    /// Accept what the caller saw on disk: the checkout root is
    /// checked first, then the log root.
    pub fn finish(self, checkout_exists: bool, log_exists: bool) -> (r: Result<
        ServerConfig,
        Error,
    >)
        ensures
            match r {
                Ok(c) => checkout_exists && log_exists && c.secret@ == self.secret@ && c.hostname@
                    == self.hostname@ && c.checkout_root.path@ == self.checkout_root@
                    && c.log_root.path@ == self.log_root@ && c.queue_limit == self.queue_limit
                    && c.port == self.port && c.env_source@ == self.env_source@,
                Err(e) => (e == Error::InvalidCheckoutRoot && !checkout_exists) || (e
                    == Error::InvalidLogRoot && checkout_exists && !log_exists),
            },
    {
        let checkout_root = match VerifiedPath::directory(self.checkout_root, checkout_exists) {
            Ok(v) => v,
            Err(_) => {
                return Err(Error::InvalidCheckoutRoot);
            },
        };
        let log_root = match VerifiedPath::directory(self.log_root, log_exists) {
            Ok(v) => v,
            Err(_) => {
                return Err(Error::InvalidLogRoot);
            },
        };
        Ok(
            ServerConfig {
                secret: self.secret,
                hostname: self.hostname,
                checkout_root,
                log_root,
                queue_limit: self.queue_limit,
                port: self.port,
                env_source: self.env_source,
            },
        )
    }
}

/// The variables under `[env.owner.repo.refname]`, key by key.
pub open spec fn spec_env_vars(
    doc: Seq<char>,
    o: Seq<char>,
    rp: Seq<char>,
    br: Seq<char>,
    keys: Seq<Seq<char>>,
) -> Result<Seq<(Seq<char>, Seq<char>)>, ()>
    decreases keys.len(),
{
    if keys.len() == 0 {
        Ok(Seq::empty())
    } else {
        match toml_str_at(doc, seq!["env"@, o, rp, br, keys[0]]) {
            Some(Some(v)) => match spec_env_vars(doc, o, rp, br, keys.skip(1)) {
                Ok(rest) => Ok(seq![(keys[0], v)] + rest),
                Err(e) => Err(e),
            },
            _ => Err(()),
        }
    }
}

/// What the environment lookup for one (owner, repo, refname) means:
/// an absent level yields nothing, a malformed level or value is the
/// error, and a full path yields its variables in key order.
pub open spec fn spec_environment_for(
    doc: Seq<char>,
    o: Seq<char>,
    rp: Seq<char>,
    br: Seq<char>,
) -> Result<Seq<(Seq<char>, Seq<char>)>, ()> {
    match toml_table_at(doc, seq!["env"@, o]) {
        None => Ok(Seq::empty()),
        Some(false) => Err(()),
        Some(true) => match toml_table_at(doc, seq!["env"@, o, rp]) {
            None => Ok(Seq::empty()),
            Some(false) => Err(()),
            Some(true) => match toml_table_at(doc, seq!["env"@, o, rp, br]) {
                None => Ok(Seq::empty()),
                Some(false) => Err(()),
                Some(true) => spec_env_vars(
                    doc,
                    o,
                    rp,
                    br,
                    toml_keys_at(doc, seq!["env"@, o, rp, br]),
                ),
            },
        },
    }
}

/// Prepend already-read variables to a remainder.
pub open spec fn env_vars_append(
    acc: Seq<(Seq<char>, Seq<char>)>,
    rest: Result<Seq<(Seq<char>, Seq<char>)>, ()>,
) -> Result<Seq<(Seq<char>, Seq<char>)>, ()> {
    match rest {
        Ok(r) => Ok(acc + r),
        Err(e) => Err(e),
    }
}

proof fn lemma_env_append(
    acc: Seq<(Seq<char>, Seq<char>)>,
    x: (Seq<char>, Seq<char>),
    rest: Result<Seq<(Seq<char>, Seq<char>)>, ()>,
)
    ensures
        env_vars_append(
            acc,
            match rest {
                Ok(r) => Ok(seq![x] + r),
                Err(e) => Err(e),
            },
        ) == env_vars_append(acc + seq![x], rest),
{
    match rest {
        Ok(r) => {
            assert(acc + (seq![x] + r) =~= (acc + seq![x]) + r);
        },
        Err(_) => {},
    }
}

fn env_path(o: &str, rp: &str, br: &str) -> (r: Vec<String>)
    ensures
        views_of(r@) =~= seq!["env"@, o@, rp@, br@],
{
    let mut v: Vec<String> = Vec::new();
    v.push("env".to_owned());
    v.push(o.to_owned());
    v.push(rp.to_owned());
    v.push(br.to_owned());
    v
}

impl ServerConfig {
    /// The environment configured for one (owner, repo, refname).
    pub fn environment_for(&self, owner: &str, repo: &str, branch: &str) -> (r: Result<
        Environment,
        Error,
    >)
        ensures
            toml_ok(self.env_source@) ==> (match r {
                Ok(env) => spec_environment_for(self.env_source@, owner@, repo@, branch@) == Ok::<
                    Seq<(Seq<char>, Seq<char>)>,
                    (),
                >(pair_views(env@)),
                Err(e) => spec_environment_for(self.env_source@, owner@, repo@, branch@) is Err && e
                    == Error::InvalidEnvironmentTable,
            }),
            !toml_ok(self.env_source@) ==> (match r {
                Ok(_) => false,
                Err(e) => e == Error::InvalidEnvironmentTable,
            }),
    {
        let doc = self.env_source.as_str();
        let mut p1: Vec<String> = Vec::new();
        p1.push("env".to_owned());
        p1.push(owner.to_owned());
        proof {
            assert(views_of(p1@) =~= seq!["env"@, owner@]);
        }
        match toml_table_status(doc, &p1) {
            TomlTableStatus::Missing => {
                let e: Environment = Vec::new();
                proof {
                    assert(pair_views(e@) =~= Seq::<(Seq<char>, Seq<char>)>::empty());
                }
                return Ok(e);
            },
            TomlTableStatus::Table => {},
            _ => {
                return Err(Error::InvalidEnvironmentTable);
            },
        }
        let mut p2: Vec<String> = Vec::new();
        p2.push("env".to_owned());
        p2.push(owner.to_owned());
        p2.push(repo.to_owned());
        proof {
            assert(views_of(p2@) =~= seq!["env"@, owner@, repo@]);
        }
        match toml_table_status(doc, &p2) {
            TomlTableStatus::Missing => {
                let e: Environment = Vec::new();
                proof {
                    assert(pair_views(e@) =~= Seq::<(Seq<char>, Seq<char>)>::empty());
                }
                return Ok(e);
            },
            TomlTableStatus::Table => {},
            _ => {
                return Err(Error::InvalidEnvironmentTable);
            },
        }
        let p3 = env_path(owner, repo, branch);
        match toml_table_status(doc, &p3) {
            TomlTableStatus::Missing => {
                let e: Environment = Vec::new();
                proof {
                    assert(pair_views(e@) =~= Seq::<(Seq<char>, Seq<char>)>::empty());
                }
                return Ok(e);
            },
            TomlTableStatus::Table => {},
            _ => {
                return Err(Error::InvalidEnvironmentTable);
            },
        }
        let keys = match toml_keys(doc, &p3) {
            Some(ks) => ks,
            None => {
                proof {
                    assert(false);
                }
                return Err(Error::InvalidEnvironmentTable);
            },
        };
        let ghost keys_v = views_of(keys@);
        proof {
            assert(keys_v == toml_keys_at(self.env_source@, seq!["env"@, owner@, repo@, branch@]));
            assert(keys_v.skip(0) =~= keys_v);
        }
        let mut out: Environment = Vec::new();
        let mut i: usize = 0;
        while i < keys.len()
            invariant
                0 <= i <= keys@.len(),
                toml_ok(self.env_source@),
                keys_v == views_of(keys@),
                doc@ == self.env_source@,
                toml_table_at(self.env_source@, seq!["env"@, owner@]) == Some(true),
                toml_table_at(self.env_source@, seq!["env"@, owner@, repo@]) == Some(true),
                toml_table_at(self.env_source@, seq!["env"@, owner@, repo@, branch@]) == Some(true),
                keys_v == toml_keys_at(self.env_source@, seq!["env"@, owner@, repo@, branch@]),
                spec_env_vars(self.env_source@, owner@, repo@, branch@, keys_v) == env_vars_append(
                    pair_views(out@),
                    spec_env_vars(
                        self.env_source@,
                        owner@,
                        repo@,
                        branch@,
                        keys_v.skip(i as int),
                    ),
                ),
            decreases keys@.len() - i,
        {
            let k = &keys[i];
            proof {
                assert(keys_v[i as int] == k@);
                assert(keys_v.skip(i as int).len() > 0);
                assert(keys_v.skip(i as int)[0] == keys_v[i as int]);
                assert(keys_v.skip(i as int).skip(1) =~= keys_v.skip(i as int + 1));
            }
            let mut p4: Vec<String> = Vec::new();
            p4.push("env".to_owned());
            p4.push(owner.to_owned());
            p4.push(repo.to_owned());
            p4.push(branch.to_owned());
            p4.push(k.clone());
            proof {
                assert(views_of(p4@) =~= seq!["env"@, owner@, repo@, branch@, k@]);
            }
            let v = match toml_lookup_str(doc, &p4) {
                TomlLookup::Found(v) => v,
                _ => {
                    return Err(Error::InvalidEnvironmentTable);
                },
            };
            let ghost vv = v@;
            let ghost old_out = out@;
            out.push((k.clone(), v));
            i += 1;
            proof {
                assert(pair_views(out@) =~= pair_views(old_out) + seq![(keys_v[i - 1], vv)]);
                assert(spec_env_vars(self.env_source@, owner@, repo@, branch@, keys_v.skip(i - 1))
                    == (match spec_env_vars(
                    self.env_source@,
                    owner@,
                    repo@,
                    branch@,
                    keys_v.skip(i as int),
                ) {
                    Ok(r) => Ok::<Seq<(Seq<char>, Seq<char>)>, ()>(seq![(keys_v[i - 1], vv)] + r),
                    Err(e) => Err(e),
                }));
                lemma_env_append(
                    pair_views(old_out),
                    (keys_v[i - 1], vv),
                    spec_env_vars(self.env_source@, owner@, repo@, branch@, keys_v.skip(i as int)),
                );
            }
        }
        proof {
            assert(keys_v.skip(keys@.len() as int).len() == 0);
            assert(pair_views(out@) + Seq::<(Seq<char>, Seq<char>)>::empty() =~= pair_views(out@));
        }
        Ok(out)
    }
}

} // verus!
