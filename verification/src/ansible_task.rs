//! Ansible playbook invocations, with their exact argument lists.

use vstd::prelude::*;
use vstd::string::*;
use crate::jsondoc::{json_encode_str, json_quoted};
use crate::strutil::{pair_views, views_of};

verus! {

/// The `-e` flag value for one environment pair: the key, `=`, and
/// the JSON-quoted value, which keeps shell-unsafe characters inert.
pub open spec fn env_flag(k: Seq<char>, v: Seq<char>) -> Seq<char> {
    k + seq!['='] + json_quoted(v)
}

/// The `-e` argument pairs for an environment, in its order.
pub open spec fn env_args(env: Seq<(Seq<char>, Seq<char>)>) -> Seq<Seq<char>>
    decreases env.len(),
{
    if env.len() == 0 {
        Seq::empty()
    } else {
        env_args(env.drop_last()) + seq!["-e"@, env_flag(env.last().0, env.last().1)]
    }
}

/// The full ansible-playbook argument list.
pub open spec fn ansible_args(
    env: Seq<(Seq<char>, Seq<char>)>,
    inventory: Seq<char>,
    playbook: Seq<char>,
) -> Seq<Seq<char>> {
    env_args(env) + seq!["-i"@, inventory, playbook]
}

#[derive(Debug, Clone)]
pub struct AnsibleTask {
    pub playbook: String,
    pub inventory: String,
    pub project_root: String,
}

impl AnsibleTask {
    pub fn new(playbook: String, inventory: String, project_root: String) -> (r: AnsibleTask)
        ensures
            r.playbook@ == playbook@,
            r.inventory@ == inventory@,
            r.project_root@ == project_root@,
    {
        AnsibleTask { playbook, inventory, project_root }
    }

    /// The arguments handed to `ansible-playbook`, run in the project
    /// root with the same environment applied to the process.
    pub fn command_args(&self, env: &Vec<(String, String)>) -> (r: Vec<String>)
        ensures
            views_of(r@) =~= ansible_args(pair_views(env@), self.inventory@, self.playbook@),
    {
        let mut out: Vec<String> = Vec::new();
        let mut i: usize = 0;
        while i < env.len()
            invariant
                0 <= i <= env@.len(),
                views_of(out@) =~= env_args(pair_views(env@).take(i as int)),
            decreases env@.len() - i,
        {
            out.push("-e".to_owned());
            let kv = &env[i];
            let mut flag = kv.0.clone();
            flag.append("=");
            let quoted = json_encode_str(&kv.1);
            flag.append(quoted.as_str());
            proof {
                reveal_strlit("=");
                assert("="@ =~= seq!['=']);
                assert(flag@ =~= env_flag(pair_views(env@)[i as int].0, pair_views(
                    env@,
                )[i as int].1));
            }
            out.push(flag);
            i += 1;
            proof {
                assert(pair_views(env@).take(i as int).drop_last() =~= pair_views(env@).take(
                    i as int - 1,
                ));
                assert(views_of(out@) =~= env_args(pair_views(env@).take(i as int)));
            }
        }
        out.push("-i".to_owned());
        out.push(self.inventory.clone());
        out.push(self.playbook.clone());
        proof {
            assert(pair_views(env@).take(env@.len() as int) =~= pair_views(env@));
            assert(views_of(out@) =~= ansible_args(
                pair_views(env@),
                self.inventory@,
                self.playbook@,
            ));
        }
        out
    }
}

} // verus!
