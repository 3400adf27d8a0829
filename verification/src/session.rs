//! SSH sessions with a guest, and the environment that they forward.
use vstd::prelude::*;

use crate::text::same_text;

verus! {

/// Environment variables that a session hands to the guest.
#[derive(Debug)]
pub struct EnvForward {
    vars: Vec<(String, String)>,
}

/// The variables of a list of settings, of which a later one replaces an
/// earlier one of the same name.
spec fn env_map(vars: Seq<(String, String)>) -> Map<Seq<char>, Seq<char>>
    decreases vars.len(),
{
    if vars.len() == 0 {
        Map::empty()
    } else {
        env_map(vars.drop_last()).insert(vars.last().0@, vars.last().1@)
    }
}

proof fn lemma_env_map_names(vars: Seq<(String, String)>, name: Seq<char>)
    ensures
        env_map(vars).dom().contains(name) <==> exists|i: int|
            0 <= i < vars.len() && (#[trigger] vars[i]).0@ == name,
    decreases vars.len(),
{
    if vars.len() > 0 {
        let init = vars.drop_last();
        lemma_env_map_names(init, name);
        if env_map(init).dom().contains(name) {
            let i = choose|i: int| 0 <= i < init.len() && (#[trigger] init[i]).0@ == name;
            assert(vars[i].0@ == name);
        }
        if vars.last().0@ == name {
            assert(vars[vars.len() - 1].0@ == name);
        }
        if exists|i: int| 0 <= i < vars.len() && (#[trigger] vars[i]).0@ == name {
            let i = choose|i: int| 0 <= i < vars.len() && (#[trigger] vars[i]).0@ == name;
            if i < init.len() {
                assert(init[i].0@ == name);
            }
        }
    }
}

/// Replacing the last setting of a name is setting it anew.
proof fn lemma_env_map_update(vars: Seq<(String, String)>, at: int, var: (String, String))
    requires
        0 <= at < vars.len(),
        vars[at].0@ == var.0@,
        forall|j: int| at < j < vars.len() ==> (#[trigger] vars[j]).0@ != var.0@,
    ensures
        env_map(vars.update(at, var)) == env_map(vars).insert(var.0@, var.1@),
    decreases vars.len(),
{
    let changed = vars.update(at, var);
    if at == vars.len() - 1 {
        assert(changed.drop_last() =~= vars.drop_last());
        assert(env_map(changed) =~= env_map(vars).insert(var.0@, var.1@));
    } else {
        lemma_env_map_update(vars.drop_last(), at, var);
        assert(changed.drop_last() =~= vars.drop_last().update(at, var));
        assert(vars[vars.len() - 1].0@ != var.0@);
        assert(env_map(changed) =~= env_map(vars).insert(var.0@, var.1@));
    }
}

impl View for EnvForward {
    type V = Map<Seq<char>, Seq<char>>;

    closed spec fn view(&self) -> Map<Seq<char>, Seq<char>> {
        env_map(self.vars@)
    }
}

impl Default for EnvForward {
    /// No variables.
    fn default() -> (env: Self)
        ensures
            env@ == Map::<Seq<char>, Seq<char>>::empty(),
    {
        EnvForward { vars: Vec::new() }
    }
}

impl EnvForward {
    /// Sets a variable.
    pub fn set(&mut self, name: &str, value: &str)
        ensures
            final(self)@ == old(self)@.insert(name@, value@),
    {
        let mut i: usize = self.vars.len();
        while i > 0
            invariant
                *self == *old(self),
                i <= self.vars@.len(),
                forall|j: int| i <= j < self.vars@.len() ==> (#[trigger] self.vars@[j]).0@ != name@,
            decreases i,
        {
            i = i - 1;
            if same_text(self.vars[i].0.as_str(), name) {
                let var = (name.to_owned(), value.to_owned());
                proof {
                    lemma_env_map_update(self.vars@, i as int, var);
                }
                self.vars.set(i, var);
                return;
            }
        }
        self.vars.push((name.to_owned(), value.to_owned()));
        proof {
            assert(self.vars@.drop_last() =~= old(self).vars@);
        }
    }

    /// Whether a variable is set.
    pub fn contains(&self, name: &str) -> (r: bool)
        ensures
            r == self@.dom().contains(name@),
    {
        for i in 0..self.vars.len()
            invariant
                forall|j: int| 0 <= j < i ==> (#[trigger] self.vars@[j]).0@ != name@,
        {
            if same_text(self.vars[i].0.as_str(), name) {
                proof {
                    lemma_env_map_names(self.vars@, name@);
                }
                return true;
            }
        }
        proof {
            lemma_env_map_names(self.vars@, name@);
        }
        false
    }
}

/// How a guest is reached over SSH.
#[derive(Debug)]
pub struct SshTarget {
    pub host: String,
    pub port: u16,
    pub user: String,
    pub key_path: String,
}

/// A guest with the environment for the commands that are run on it.
#[derive(Debug)]
pub struct SshSession {
    pub target: SshTarget,
    pub env: EnvForward,
}

} // verus!
