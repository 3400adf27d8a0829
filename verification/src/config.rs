//! The parts of the configuration that the library reads.
use vstd::prelude::*;

use crate::text::{opt_text, same_text, texts};

verus! {

/// How agent VMs leave the host's network through the gateway VM.
#[derive(Debug)]
pub struct PrivateEgressConfig {
    /// Where the subscription URL is kept.
    pub subscription: String,
    /// Where the expected public IPv4 address is kept.
    pub expected_egress_ip: String,
    /// The selector through which traffic enters the provider's network.
    pub entry_group: String,
    /// The node of the entry selector, by its whole name.
    pub entry_choice: String,
    /// The selector through which traffic leaves the provider's network.
    pub exit_group: String,
    /// How the name of the exit node starts.
    pub exit_choice_prefix: String,
    /// How the name of the exit node ends.
    pub exit_choice_suffix: String,
}

/// A profile that the user wrote.
#[derive(Debug)]
pub struct CustomProfile {
    pub apt_packages: Vec<String>,
    pub pre_install: Option<String>,
    pub post_install: Option<String>,
    pub marketplaces: Vec<String>,
    pub plugins: Vec<String>,
}

/// What a [`CustomProfile`] says.
pub ghost struct CustomProfileText {
    pub apt_packages: Seq<Seq<char>>,
    pub pre_install: Option<Seq<char>>,
    pub post_install: Option<Seq<char>>,
    pub marketplaces: Seq<Seq<char>>,
    pub plugins: Seq<Seq<char>>,
}

impl View for CustomProfile {
    type V = CustomProfileText;

    open spec fn view(&self) -> CustomProfileText {
        CustomProfileText {
            apt_packages: texts(self.apt_packages@),
            pre_install: opt_text(self.pre_install),
            post_install: opt_text(self.post_install),
            marketplaces: texts(self.marketplaces@),
            plugins: texts(self.plugins@),
        }
    }
}

/// Whether no two profiles have the same name.
pub open spec fn distinct_names(profiles: Seq<(String, CustomProfile)>) -> bool {
    forall|i: int, j: int|
        0 <= i < j < profiles.len() ==> (#[trigger] profiles[i]).0@ != (#[trigger] profiles[j]).0@
}

/// Whether the profile at a place has a name.
pub open spec fn is_named(
    profiles: Seq<(String, CustomProfile)>,
    name: Seq<char>,
    at: int,
) -> bool {
    0 <= at < profiles.len() && profiles[at].0@ == name
}

/// The profiles by their names.
pub open spec fn profile_map(profiles: Seq<(String, CustomProfile)>) -> Map<
    Seq<char>,
    CustomProfileText,
> {
    Map::new(
        |name: Seq<char>| exists|at: int| is_named(profiles, name, at),
        |name: Seq<char>| profiles[choose|at: int| is_named(profiles, name, at)].1@,
    )
}

/// The profile of each name is the one at its only place.
pub proof fn profiles_are_found_by_name(profiles: Seq<(String, CustomProfile)>, at: int)
    requires
        distinct_names(profiles),
        0 <= at < profiles.len(),
    ensures
        profile_map(profiles).dom().contains(profiles[at].0@),
        profile_map(profiles)[profiles[at].0@] == profiles[at].1@,
{
    let name = profiles[at].0@;
    assert(is_named(profiles, name, at));
    let found = choose|i: int| is_named(profiles, name, i);
    assert(is_named(profiles, name, found));
    if found < at {
        assert(profiles[found].0@ != profiles[at].0@);
    } else if at < found {
        assert(profiles[at].0@ != profiles[found].0@);
    }
}

/// A model that is served outside the cloud.
#[derive(Debug)]
pub struct LocalModel {
    /// The URL under which the host reaches it.
    pub host_url: String,
    /// Its name.
    pub model: String,
    /// The token that it asks for, if any.
    pub token: Option<String>,
}

/// The configuration.
#[derive(Debug)]
pub struct CoopConfig {
    /// Set where agent VMs use the private gateway.
    pub private_egress: Option<PrivateEgressConfig>,
    /// The time zone of the guests, where one is managed.
    pub guest_timezone: Option<String>,
    /// The user's profiles, each under its name. No name occurs twice, and their
    /// order carries no meaning.
    pub profiles: Vec<(String, CustomProfile)>,
    /// The local model for the one agent, where one is configured.
    pub claude_local_model: Option<LocalModel>,
    /// The local model for the other agent, where one is configured.
    pub codex_local_model: Option<LocalModel>,
}

impl CoopConfig {
    /// Whether the profiles stand for a map: no name occurs twice.
    pub open spec fn is_valid(self) -> bool {
        distinct_names(self.profiles@)
    }

    /// Puts a profile under a name, in place of the one that was there, if any.
    pub fn set_profile(&mut self, name: String, profile: CustomProfile)
        requires
            old(self).is_valid(),
        ensures
            final(self).is_valid(),
            profile_map(final(self).profiles@) == profile_map(old(self).profiles@).insert(
                name@,
                profile@,
            ),
            final(self).private_egress == old(self).private_egress,
            final(self).guest_timezone == old(self).guest_timezone,
            final(self).claude_local_model == old(self).claude_local_model,
            final(self).codex_local_model == old(self).codex_local_model,
    {
        let ghost before = self.profiles@;
        let ghost key = name@;
        let ghost value = profile@;
        let n: usize = self.profiles.len();
        let mut at: usize = 0;
        while at < n && !same_text(self.profiles[at].0.as_str(), name.as_str())
            invariant
                *self == *old(self),
                n == self.profiles@.len(),
                at <= n,
                forall|i: int| 0 <= i < at ==> (#[trigger] self.profiles@[i]).0@ != name@,
            decreases n - at,
        {
            at = at + 1;
        }
        if at < n {
            self.profiles.set(at, (name, profile));
        } else {
            self.profiles.push((name, profile));
        }
        proof {
            lemma_profile_set(before, self.profiles@, at as int, key, value);
        }
    }
}

proof fn lemma_profile_set(
    before: Seq<(String, CustomProfile)>,
    after: Seq<(String, CustomProfile)>,
    at: int,
    name: Seq<char>,
    value: CustomProfileText,
)
    requires
        distinct_names(before),
        0 <= at <= before.len(),
        at < before.len() ==> before[at].0@ == name && after.len() == before.len(),
        at == before.len() ==> after.len() == before.len() + 1,
        forall|i: int| 0 <= i < at ==> (#[trigger] before[i]).0@ != name,
        after[at].0@ == name,
        after[at].1@ == value,
        forall|i: int| 0 <= i < before.len() && i != at ==> #[trigger] after[i] == before[i],
    ensures
        distinct_names(after),
        profile_map(after) == profile_map(before).insert(name, value),
{
    assert forall|i: int, j: int| 0 <= i < j < after.len() implies (#[trigger] after[i]).0@ != (
    #[trigger] after[j]).0@ by {
        if i == at {
            assert(before[i].0@ != before[j].0@);
        } else if j == at {
            assert(before[i].0@ != name);
        } else {
            assert(before[i].0@ != before[j].0@);
        }
    }
    let map = profile_map(before).insert(name, value);
    assert forall|any: Seq<char>|
        profile_map(after).dom().contains(any) == #[trigger] map.dom().contains(any) && (
        map.dom().contains(any) ==> profile_map(after)[any] == map[any]) by {
        if any == name {
            profiles_are_found_by_name(after, at);
        } else {
            if exists|i: int| is_named(after, any, i) {
                let i = choose|i: int| is_named(after, any, i);
                assert(is_named(before, any, i));
                profiles_are_found_by_name(after, i);
                profiles_are_found_by_name(before, i);
            }
            if exists|i: int| is_named(before, any, i) {
                let i = choose|i: int| is_named(before, any, i);
                assert(is_named(after, any, i));
                profiles_are_found_by_name(after, i);
                profiles_are_found_by_name(before, i);
            }
        }
    }
    assert(profile_map(after) =~= map);
}

impl Default for CoopConfig {
    /// Ordinary networking, and nothing else configured.
    fn default() -> (cfg: Self)
        ensures
            cfg.private_egress is None,
            cfg.guest_timezone is None,
            cfg.profiles@.len() == 0,
            cfg.is_valid(),
            cfg.claude_local_model is None,
            cfg.codex_local_model is None,
    {
        CoopConfig {
            private_egress: None,
            guest_timezone: None,
            profiles: Vec::new(),
            claude_local_model: None,
            codex_local_model: None,
        }
    }
}

} // verus!
