//! What holds of every hardened gateway configuration.
use vstd::prelude::*;

use crate::config::PrivateEgressConfig;
use crate::harden::{
    dns_base, dns_entries, dns_tree, dropped_dns_keys, entry_rule, exit_rule, gateway_settings,
    group_name, harden_config, harden_document, hardened, hardened_tun, is_choice, is_group, listener_keys, moved_to_front, prioritized,
    profile_tree, selection_texts, text_list_tree, text_tree, tun_tree, HardenError, HardenFault,
    HardenedConfig, NodeRule,
};
use crate::ipv4::Ipv4Address;
use crate::yaml::{
    apart, as_text, distinct_keys, first_index, has_text_key, inserted, key_index, lemma_first_index,
    lemma_inserted, lemma_inserted_well_formed, lemma_is_first_index, lemma_removed,
    lemma_removed_all, lemma_removed_all_well_formed, lemma_removed_well_formed, lemma_retagged,
    lemma_retagged_well_formed, lookup, removed, removed_all, retagged, untagged, well_formed,
    yaml_bytes, Yaml, YamlTree,
};

verus! {

/// The settings that hardening decides on.
pub open spec fn decided_keys() -> Seq<Seq<char>> {
    listener_keys() + seq![
        "mode"@,
        "ipv6"@,
        "allow-lan"@,
        "bind-address"@,
        "log-level"@,
        "external-controller"@,
        "secret"@,
        "tun"@,
        "dns"@,
        "profile"@,
        "rule-providers"@,
        "rules"@,
        "proxy-groups"@,
    ]
}

/// The place of a key in [`decided_keys`], told by its length and its first
/// characters.
spec fn decided_place(s: Seq<char>) -> int {
    if s.len() == 3 {
        if s[0] == 't' {
            20
        } else {
            21
        }
    } else if s.len() == 4 {
        if s[0] == 'p' {
            0
        } else if s[0] == 'm' {
            13
        } else {
            14
        }
    } else if s.len() == 5 {
        24
    } else if s.len() == 6 {
        19
    } else if s.len() == 7 {
        22
    } else if s.len() == 9 {
        if s[1] == 'i' {
            5
        } else if s[1] == 'l' {
            15
        } else {
            17
        }
    } else if s.len() == 10 {
        if s[0] == 's' {
            1
        } else if s[0] == 'r' {
            2
        } else {
            4
        }
    } else if s.len() == 11 {
        if s[0] == 't' {
            3
        } else {
            10
        }
    } else if s.len() == 12 {
        if s[0] == 'b' {
            16
        } else {
            25
        }
    } else if s.len() == 14 {
        if s[0] == 'a' {
            6
        } else {
            23
        }
    } else if s.len() == 15 {
        if s[0] == 'l' {
            8
        } else {
            11
        }
    } else if s.len() == 16 {
        12
    } else if s.len() == 18 {
        if s[0] == 's' {
            7
        } else {
            9
        }
    } else if s.len() == 19 {
        18
    } else {
        -1
    }
}

proof fn lemma_decided_keys_distinct()
    ensures
        decided_keys().no_duplicates(),
        decided_keys().len() == 26,
{
    reveal_strlit("port");
    reveal_strlit("socks-port");
    reveal_strlit("redir-port");
    reveal_strlit("tproxy-port");
    reveal_strlit("mixed-port");
    reveal_strlit("listeners");
    reveal_strlit("authentication");
    reveal_strlit("skip-auth-prefixes");
    reveal_strlit("lan-allowed-ips");
    reveal_strlit("lan-disallowed-ips");
    reveal_strlit("external-ui");
    reveal_strlit("external-ui-url");
    reveal_strlit("external-ui-name");
    reveal_strlit("mode");
    reveal_strlit("ipv6");
    reveal_strlit("allow-lan");
    reveal_strlit("bind-address");
    reveal_strlit("log-level");
    reveal_strlit("external-controller");
    reveal_strlit("secret");
    reveal_strlit("tun");
    reveal_strlit("dns");
    reveal_strlit("profile");
    reveal_strlit("rule-providers");
    reveal_strlit("rules");
    reveal_strlit("proxy-groups");
    let keys = decided_keys();
    assert(keys[0] == "port"@ && decided_place("port"@) == 0);
    assert(keys[1] == "socks-port"@ && decided_place("socks-port"@) == 1);
    assert(keys[2] == "redir-port"@ && decided_place("redir-port"@) == 2);
    assert(keys[3] == "tproxy-port"@ && decided_place("tproxy-port"@) == 3);
    assert(keys[4] == "mixed-port"@ && decided_place("mixed-port"@) == 4);
    assert(keys[5] == "listeners"@ && decided_place("listeners"@) == 5);
    assert(keys[6] == "authentication"@ && decided_place("authentication"@) == 6);
    assert(keys[7] == "skip-auth-prefixes"@ && decided_place("skip-auth-prefixes"@) == 7);
    assert(keys[8] == "lan-allowed-ips"@ && decided_place("lan-allowed-ips"@) == 8);
    assert(keys[9] == "lan-disallowed-ips"@ && decided_place("lan-disallowed-ips"@) == 9);
    assert(keys[10] == "external-ui"@ && decided_place("external-ui"@) == 10);
    assert(keys[11] == "external-ui-url"@ && decided_place("external-ui-url"@) == 11);
    assert(keys[12] == "external-ui-name"@ && decided_place("external-ui-name"@) == 12);
    assert(keys[13] == "mode"@ && decided_place("mode"@) == 13);
    assert(keys[14] == "ipv6"@ && decided_place("ipv6"@) == 14);
    assert(keys[15] == "allow-lan"@ && decided_place("allow-lan"@) == 15);
    assert(keys[16] == "bind-address"@ && decided_place("bind-address"@) == 16);
    assert(keys[17] == "log-level"@ && decided_place("log-level"@) == 17);
    assert(keys[18] == "external-controller"@ && decided_place("external-controller"@) == 18);
    assert(keys[19] == "secret"@ && decided_place("secret"@) == 19);
    assert(keys[20] == "tun"@ && decided_place("tun"@) == 20);
    assert(keys[21] == "dns"@ && decided_place("dns"@) == 21);
    assert(keys[22] == "profile"@ && decided_place("profile"@) == 22);
    assert(keys[23] == "rule-providers"@ && decided_place("rule-providers"@) == 23);
    assert(keys[24] == "rules"@ && decided_place("rules"@) == 24);
    assert(keys[25] == "proxy-groups"@ && decided_place("proxy-groups"@) == 25);
    assert forall|i: int| 0 <= i < keys.len() implies decided_place(#[trigger] keys[i]) == i by {
        if i == 0 {
        } else if i == 1 {
        } else if i == 2 {
        } else if i == 3 {
        } else if i == 4 {
        } else if i == 5 {
        } else if i == 6 {
        } else if i == 7 {
        } else if i == 8 {
        } else if i == 9 {
        } else if i == 10 {
        } else if i == 11 {
        } else if i == 12 {
        } else if i == 13 {
        } else if i == 14 {
        } else if i == 15 {
        } else if i == 16 {
        } else if i == 17 {
        } else if i == 18 {
        } else if i == 19 {
        } else if i == 20 {
        } else if i == 21 {
        } else if i == 22 {
        } else if i == 23 {
        } else if i == 24 {
        } else {
        }
    }
}

/// The DNS settings that hardening decides on.
pub open spec fn decided_dns_keys() -> Seq<Seq<char>> {
    dropped_dns_keys() + seq![
        "enable"@,
        "ipv6"@,
        "listen"@,
        "enhanced-mode"@,
        "use-system-hosts"@,
        "respect-rules"@,
        "default-nameserver"@,
        "nameserver"@,
        "proxy-server-nameserver"@,
    ]
}

/// The place of a key in [`decided_dns_keys`], told by its length and its first
/// characters.
spec fn dns_place(s: Seq<char>) -> int {
    if s.len() == 4 {
        7
    } else if s.len() == 6 {
        if s[0] == 'e' {
            6
        } else {
            8
        }
    } else if s.len() == 8 {
        1
    } else if s.len() == 10 {
        13
    } else if s.len() == 13 {
        if s[0] == 'e' {
            9
        } else {
            11
        }
    } else if s.len() == 15 {
        2
    } else if s.len() == 16 {
        10
    } else if s.len() == 17 {
        if s[0] == 'n' {
            0
        } else {
            3
        }
    } else if s.len() == 18 {
        12
    } else if s.len() == 23 {
        14
    } else if s.len() == 30 {
        5
    } else if s.len() == 31 {
        4
    } else {
        -1
    }
}

proof fn lemma_decided_dns_keys_distinct()
    ensures
        decided_dns_keys().no_duplicates(),
        decided_dns_keys().len() == 15,
{
    reveal_strlit("nameserver-policy");
    reveal_strlit("fallback");
    reveal_strlit("fallback-filter");
    reveal_strlit("direct-nameserver");
    reveal_strlit("direct-nameserver-follow-policy");
    reveal_strlit("proxy-server-nameserver-policy");
    reveal_strlit("enable");
    reveal_strlit("ipv6");
    reveal_strlit("listen");
    reveal_strlit("enhanced-mode");
    reveal_strlit("use-system-hosts");
    reveal_strlit("respect-rules");
    reveal_strlit("default-nameserver");
    reveal_strlit("nameserver");
    reveal_strlit("proxy-server-nameserver");
    let keys = decided_dns_keys();
    assert(keys[0] == "nameserver-policy"@ && dns_place("nameserver-policy"@) == 0);
    assert(keys[1] == "fallback"@ && dns_place("fallback"@) == 1);
    assert(keys[2] == "fallback-filter"@ && dns_place("fallback-filter"@) == 2);
    assert(keys[3] == "direct-nameserver"@ && dns_place("direct-nameserver"@) == 3);
    assert(keys[4] == "direct-nameserver-follow-policy"@ && dns_place(
        "direct-nameserver-follow-policy"@,
    ) == 4);
    assert(keys[5] == "proxy-server-nameserver-policy"@ && dns_place(
        "proxy-server-nameserver-policy"@,
    ) == 5);
    assert(keys[6] == "enable"@ && dns_place("enable"@) == 6);
    assert(keys[7] == "ipv6"@ && dns_place("ipv6"@) == 7);
    assert(keys[8] == "listen"@ && dns_place("listen"@) == 8);
    assert(keys[9] == "enhanced-mode"@ && dns_place("enhanced-mode"@) == 9);
    assert(keys[10] == "use-system-hosts"@ && dns_place("use-system-hosts"@) == 10);
    assert(keys[11] == "respect-rules"@ && dns_place("respect-rules"@) == 11);
    assert(keys[12] == "default-nameserver"@ && dns_place("default-nameserver"@) == 12);
    assert(keys[13] == "nameserver"@ && dns_place("nameserver"@) == 13);
    assert(keys[14] == "proxy-server-nameserver"@ && dns_place("proxy-server-nameserver"@) == 14);
    assert forall|i: int| 0 <= i < keys.len() implies dns_place(#[trigger] keys[i]) == i by {
        if i == 0 {
        } else if i == 1 {
        } else if i == 2 {
        } else if i == 3 {
        } else if i == 4 {
        } else if i == 5 {
        } else if i == 6 {
        } else if i == 7 {
        } else if i == 8 {
        } else if i == 9 {
        } else if i == 10 {
        } else if i == 11 {
        } else if i == 12 {
        } else if i == 13 {
        } else {
        }
    }
}

/// What stands in the settings of a hardened gateway, apart from its proxy
/// groups. `entries` are the settings that the subscription brought.
pub open spec fn is_closed(
    settings: Seq<(YamlTree, YamlTree)>,
    entries: Seq<(YamlTree, YamlTree)>,
    secret: Seq<char>,
    exit_group: Seq<char>,
    bootstrap: Seq<char>,
) -> bool {
    &&& forall|key: Seq<char>|
        listener_keys().contains(key) ==> (#[trigger] lookup(settings, key)) is None
    &&& lookup(settings, "rule-providers"@) is None
    &&& lookup(settings, "mode"@) == Some(text_tree("global"@))
    &&& lookup(settings, "ipv6"@) == Some(YamlTree::Bool(false))
    &&& lookup(settings, "allow-lan"@) == Some(YamlTree::Bool(false))
    &&& lookup(settings, "bind-address"@) == Some(text_tree("127.0.0.1"@))
    &&& lookup(settings, "log-level"@) == Some(text_tree("warning"@))
    &&& lookup(settings, "external-controller"@) == Some(text_tree("127.0.0.1:9090"@))
    &&& lookup(settings, "secret"@) == Some(text_tree(secret))
    &&& lookup(settings, "tun"@) == Some(tun_tree())
    &&& lookup(settings, "dns"@) == Some(dns_tree(entries, exit_group, bootstrap))
    &&& lookup(settings, "profile"@) == Some(profile_tree())
    &&& lookup(settings, "rules"@) == Some(text_list_tree(seq!["MATCH,DIRECT"@]))
}

proof fn lemma_settings(
    entries: Seq<(YamlTree, YamlTree)>,
    secret: Seq<char>,
    exit_group: Seq<char>,
    bootstrap: Seq<char>,
)
    requires
        distinct_keys(entries),
    ensures
        ({
            let settings = gateway_settings(entries, secret, exit_group, bootstrap);
            &&& is_closed(settings, entries, secret, exit_group, bootstrap)
            &&& distinct_keys(settings)
            &&& lookup(settings, "proxy-groups"@) == lookup(entries, "proxy-groups"@)
            &&& forall|key: Seq<char>|
                !decided_keys().contains(key) ==> #[trigger] lookup(settings, key) == lookup(
                    entries,
                    key,
                )
        }),
{
    let keys = decided_keys();
    lemma_decided_keys_distinct();
    assert(keys[13] == "mode"@);
    assert(keys[14] == "ipv6"@);
    assert(keys[15] == "allow-lan"@);
    assert(keys[16] == "bind-address"@);
    assert(keys[17] == "log-level"@);
    assert(keys[18] == "external-controller"@);
    assert(keys[19] == "secret"@);
    assert(keys[20] == "tun"@);
    assert(keys[21] == "dns"@);
    assert(keys[22] == "profile"@);
    assert(keys[23] == "rule-providers"@);
    assert(keys[24] == "rules"@);
    assert(keys[25] == "proxy-groups"@);
    assert forall|key: Seq<char>| listener_keys().contains(key) implies exists|j: int|
        0 <= j < 13 && #[trigger] keys[j] == key by {
        let j = choose|j: int| 0 <= j < listener_keys().len() && listener_keys()[j] == key;
        assert(keys[j] == key);
    }
    let e0 = removed_all(entries, listener_keys());
    lemma_removed_all(entries, listener_keys());
    let e1 = inserted(e0, "mode"@, text_tree("global"@));
    lemma_inserted(e0, "mode"@, text_tree("global"@));
    let e2 = inserted(e1, "ipv6"@, YamlTree::Bool(false));
    lemma_inserted(e1, "ipv6"@, YamlTree::Bool(false));
    let e3 = inserted(e2, "allow-lan"@, YamlTree::Bool(false));
    lemma_inserted(e2, "allow-lan"@, YamlTree::Bool(false));
    let e4 = inserted(e3, "bind-address"@, text_tree("127.0.0.1"@));
    lemma_inserted(e3, "bind-address"@, text_tree("127.0.0.1"@));
    let e5 = inserted(e4, "log-level"@, text_tree("warning"@));
    lemma_inserted(e4, "log-level"@, text_tree("warning"@));
    let e6 = inserted(e5, "external-controller"@, text_tree("127.0.0.1:9090"@));
    lemma_inserted(e5, "external-controller"@, text_tree("127.0.0.1:9090"@));
    let e7 = inserted(e6, "secret"@, text_tree(secret));
    lemma_inserted(e6, "secret"@, text_tree(secret));
    let e8 = inserted(e7, "tun"@, tun_tree());
    lemma_inserted(e7, "tun"@, tun_tree());
    let dns = dns_tree(e8, exit_group, bootstrap);
    let e9 = inserted(e8, "dns"@, dns);
    lemma_inserted(e8, "dns"@, dns);
    let e10 = inserted(e9, "profile"@, profile_tree());
    lemma_inserted(e9, "profile"@, profile_tree());
    let e11 = removed(e10, "rule-providers"@);
    lemma_removed(e10, "rule-providers"@);
    let rules = text_list_tree(seq!["MATCH,DIRECT"@]);
    let settings = inserted(e11, "rules"@, rules);
    lemma_inserted(e11, "rules"@, rules);
    assert(settings == gateway_settings(entries, secret, exit_group, bootstrap));
    assert(lookup(e8, "dns"@) == lookup(entries, "dns"@)) by {
        if listener_keys().contains("dns"@) {
            let j = choose|j: int| 0 <= j < 13 && #[trigger] keys[j] == "dns"@;
            assert(keys[j] == keys[21]);
        }
    }
    assert(lookup(settings, "proxy-groups"@) == lookup(entries, "proxy-groups"@)) by {
        if listener_keys().contains("proxy-groups"@) {
            let j = choose|j: int| 0 <= j < 13 && #[trigger] keys[j] == "proxy-groups"@;
            assert(keys[j] == keys[25]);
        }
    }
    assert forall|key: Seq<char>| listener_keys().contains(key) implies (#[trigger] lookup(
        settings,
        key,
    )) is None by {
        let j = choose|j: int| 0 <= j < 13 && #[trigger] keys[j] == key;
        assert(lookup(e0, key) is None);
    }
    assert forall|key: Seq<char>| !keys.contains(key) implies #[trigger] lookup(settings, key)
        == lookup(entries, key) by {
        if listener_keys().contains(key) {
            let j = choose|j: int| 0 <= j < 13 && #[trigger] keys[j] == key;
            assert(keys.contains(key));
        }
        assert(lookup(e0, key) == lookup(entries, key));
    }
}

/// What stands in the DNS settings of a hardened gateway.
pub open spec fn is_dns_closed(
    dns: Seq<(YamlTree, YamlTree)>,
    exit_group: Seq<char>,
    bootstrap: Seq<char>,
) -> bool {
    &&& forall|key: Seq<char>|
        dropped_dns_keys().contains(key) ==> (#[trigger] lookup(dns, key)) is None
    &&& lookup(dns, "enable"@) == Some(YamlTree::Bool(true))
    &&& lookup(dns, "ipv6"@) == Some(YamlTree::Bool(false))
    &&& lookup(dns, "listen"@) == Some(text_tree("0.0.0.0:53"@))
    &&& lookup(dns, "enhanced-mode"@) == Some(text_tree("redir-host"@))
    &&& lookup(dns, "use-system-hosts"@) == Some(YamlTree::Bool(false))
    &&& lookup(dns, "respect-rules"@) == Some(YamlTree::Bool(true))
    &&& lookup(dns, "default-nameserver"@) == Some(text_list_tree(seq![bootstrap]))
    &&& lookup(dns, "nameserver"@) == Some(text_list_tree(seq!["https://cloudflare-dns.com/dns-query#"@ + exit_group]))
    &&& lookup(dns, "proxy-server-nameserver"@) == Some(text_list_tree(seq![bootstrap + "#DIRECT"@]))
}

proof fn lemma_dns(
    entries: Seq<(YamlTree, YamlTree)>,
    exit_group: Seq<char>,
    bootstrap: Seq<char>,
)
    requires
        distinct_keys(entries),
    ensures
        ({
            let dns = dns_entries(entries, exit_group, bootstrap);
            &&& is_dns_closed(dns, exit_group, bootstrap)
            &&& forall|key: Seq<char>|
                !decided_dns_keys().contains(key) ==> #[trigger] lookup(dns, key) == lookup(
                    entries,
                    key,
                )
        }),
{
    let keys = decided_dns_keys();
    lemma_decided_dns_keys_distinct();
    assert(keys[6] == "enable"@);
    assert(keys[7] == "ipv6"@);
    assert(keys[8] == "listen"@);
    assert(keys[9] == "enhanced-mode"@);
    assert(keys[10] == "use-system-hosts"@);
    assert(keys[11] == "respect-rules"@);
    assert(keys[12] == "default-nameserver"@);
    assert(keys[13] == "nameserver"@);
    assert(keys[14] == "proxy-server-nameserver"@);
    assert forall|key: Seq<char>| dropped_dns_keys().contains(key) implies exists|j: int|
        0 <= j < 6 && #[trigger] keys[j] == key by {
        let j = choose|j: int| 0 <= j < dropped_dns_keys().len() && dropped_dns_keys()[j] == key;
        assert(keys[j] == key);
    }
    let e0 = removed_all(entries, dropped_dns_keys());
    lemma_removed_all(entries, dropped_dns_keys());
    let v1 = YamlTree::Bool(true);
    let e1 = inserted(e0, "enable"@, v1);
    lemma_inserted(e0, "enable"@, v1);
    let v2 = YamlTree::Bool(false);
    let e2 = inserted(e1, "ipv6"@, v2);
    lemma_inserted(e1, "ipv6"@, v2);
    let v3 = text_tree("0.0.0.0:53"@);
    let e3 = inserted(e2, "listen"@, v3);
    lemma_inserted(e2, "listen"@, v3);
    let v4 = text_tree("redir-host"@);
    let e4 = inserted(e3, "enhanced-mode"@, v4);
    lemma_inserted(e3, "enhanced-mode"@, v4);
    let v5 = YamlTree::Bool(false);
    let e5 = inserted(e4, "use-system-hosts"@, v5);
    lemma_inserted(e4, "use-system-hosts"@, v5);
    let v6 = YamlTree::Bool(true);
    let e6 = inserted(e5, "respect-rules"@, v6);
    lemma_inserted(e5, "respect-rules"@, v6);
    let v7 = text_list_tree(seq![bootstrap]);
    let e7 = inserted(e6, "default-nameserver"@, v7);
    lemma_inserted(e6, "default-nameserver"@, v7);
    let v8 = text_list_tree(seq!["https://cloudflare-dns.com/dns-query#"@ + exit_group]);
    let e8 = inserted(e7, "nameserver"@, v8);
    lemma_inserted(e7, "nameserver"@, v8);
    let v9 = text_list_tree(seq![bootstrap + "#DIRECT"@]);
    let e9 = inserted(e8, "proxy-server-nameserver"@, v9);
    lemma_inserted(e8, "proxy-server-nameserver"@, v9);
    assert(e9 == dns_entries(entries, exit_group, bootstrap));
    assert forall|key: Seq<char>| dropped_dns_keys().contains(key) implies (#[trigger] lookup(
        e9,
        key,
    )) is None by {
        let j = choose|j: int| 0 <= j < 6 && #[trigger] keys[j] == key;
        assert(lookup(e0, key) is None);
    }
    assert forall|key: Seq<char>| !keys.contains(key) implies #[trigger] lookup(e9, key) == lookup(
        entries,
        key,
    ) by {
        if dropped_dns_keys().contains(key) {
            let j = choose|j: int| 0 <= j < 6 && #[trigger] keys[j] == key;
            assert(keys.contains(key));
        }
        assert(lookup(e0, key) == lookup(entries, key));
    }
}

proof fn lemma_untagged_well_formed(t: YamlTree)
    requires
        well_formed(t),
    ensures
        well_formed(untagged(t)),
        !(untagged(t) is Tagged),
    decreases t,
{
    if let YamlTree::Tagged(_, inner) = t {
        lemma_untagged_well_formed(*inner);
    }
}

proof fn lemma_lookup_well_formed(entries: Seq<(YamlTree, YamlTree)>, key: Seq<char>)
    requires
        well_formed(YamlTree::Mapping(entries)),
        lookup(entries, key) is Some,
    ensures
        well_formed(lookup(entries, key)->0),
{
    lemma_first_index(entries, has_text_key(key));
    let i = key_index(entries, key);
    assert(YamlTree::Mapping(entries)->Mapping_0[i] == entries[i]);
    assert(well_formed(entries[i].1));
}

/// Whatever the subscription brings, the hardened gateway listens nowhere but
/// on its loopback address, tunnels everything strictly, and follows no rule
/// but its selectors.
pub proof fn hardened_gateway_is_closed(
    root: YamlTree,
    config: PrivateEgressConfig,
    bootstrap: Seq<char>,
    secret: Seq<char>,
)
    requires
        well_formed(root),
        hardened(root, config, bootstrap, secret) is Ok,
    ensures
        ({
            let tree = hardened(root, config, bootstrap, secret)->Ok_0.0;
            &&& untagged(root) is Mapping
            &&& untagged(tree) is Mapping
            &&& is_closed(
                untagged(tree)->Mapping_0,
                untagged(root)->Mapping_0,
                secret,
                config.exit_group@,
                bootstrap,
            )
        }),
{
    lemma_hardened_settings(root, config, bootstrap, secret);
}

/// Whatever the subscription brings, the hardened gateway resolves names
/// through the exit, and finds the provider's servers through the bootstrap
/// resolver alone.
pub proof fn hardened_dns_is_closed(
    root: YamlTree,
    config: PrivateEgressConfig,
    bootstrap: Seq<char>,
    secret: Seq<char>,
)
    requires
        well_formed(root),
        hardened(root, config, bootstrap, secret) is Ok,
    ensures
        ({
            let tree = hardened(root, config, bootstrap, secret)->Ok_0.0;
            let dns = lookup(untagged(tree)->Mapping_0, "dns"@);
            &&& dns is Some
            &&& untagged(dns->0) is Mapping
            &&& is_dns_closed(untagged(dns->0)->Mapping_0, config.exit_group@, bootstrap)
        }),
{
    lemma_hardened_settings(root, config, bootstrap, secret);
    lemma_untagged_well_formed(root);
    let entries = untagged(root)->Mapping_0;
    let base = dns_base(entries);
    match lookup(entries, "dns"@) {
        Some(dns) => {
            if untagged(dns) is Mapping {
                lemma_lookup_well_formed(entries, "dns"@);
                lemma_untagged_well_formed(dns);
            }
        },
        None => {},
    }
    assert(distinct_keys(untagged(base)->Mapping_0));
    lemma_dns(untagged(base)->Mapping_0, config.exit_group@, bootstrap);
    lemma_retagged(
        base,
        YamlTree::Mapping(
            dns_entries(untagged(base)->Mapping_0, config.exit_group@, bootstrap),
        ),
    );
}

/// Hardening leaves every setting that it does not decide on as the
/// subscription brought it.
pub proof fn other_settings_stay(
    root: YamlTree,
    config: PrivateEgressConfig,
    bootstrap: Seq<char>,
    secret: Seq<char>,
    key: Seq<char>,
)
    requires
        well_formed(root),
        hardened(root, config, bootstrap, secret) is Ok,
        !decided_keys().contains(key),
    ensures
        lookup(untagged(hardened(root, config, bootstrap, secret)->Ok_0.0)->Mapping_0, key)
            == lookup(untagged(root)->Mapping_0, key),
{
    lemma_hardened_settings(root, config, bootstrap, secret);
}

proof fn lemma_hardened_settings(
    root: YamlTree,
    config: PrivateEgressConfig,
    bootstrap: Seq<char>,
    secret: Seq<char>,
)
    requires
        well_formed(root),
        hardened(root, config, bootstrap, secret) is Ok,
    ensures
        ({
            let tree = hardened(root, config, bootstrap, secret)->Ok_0.0;
            let settings = untagged(tree)->Mapping_0;
            let entries = untagged(root)->Mapping_0;
            &&& untagged(root) is Mapping
            &&& untagged(tree) is Mapping
            &&& is_closed(settings, entries, secret, config.exit_group@, bootstrap)
            &&& forall|key: Seq<char>|
                !decided_keys().contains(key) ==> #[trigger] lookup(settings, key) == lookup(
                    entries,
                    key,
                )
        }),
{
    lemma_untagged_well_formed(root);
    let entries = untagged(root)->Mapping_0;
    lemma_settings(entries, secret, config.exit_group@, bootstrap);
    let before = gateway_settings(entries, secret, config.exit_group@, bootstrap);
    let list = lookup(before, "proxy-groups"@)->0;
    let groups = untagged(list)->Sequence_0;
    let with_entry = prioritized(groups, config.entry_group@, entry_rule(config))->Ok_0.0;
    let with_exit = prioritized(with_entry, config.exit_group@, exit_rule(config))->Ok_0.0;
    let new_list = retagged(list, YamlTree::Sequence(with_exit));
    lemma_inserted(before, "proxy-groups"@, new_list);
    let settings = inserted(before, "proxy-groups"@, new_list);
    lemma_retagged(root, YamlTree::Mapping(settings));
    let keys = decided_keys();
    lemma_decided_keys_distinct();
    assert(keys[25] == "proxy-groups"@);
    assert(keys.contains("proxy-groups"@));
    assert(keys[13] == "mode"@);
    assert(keys[14] == "ipv6"@);
    assert(keys[15] == "allow-lan"@);
    assert(keys[16] == "bind-address"@);
    assert(keys[17] == "log-level"@);
    assert(keys[18] == "external-controller"@);
    assert(keys[19] == "secret"@);
    assert(keys[20] == "tun"@);
    assert(keys[21] == "dns"@);
    assert(keys[22] == "profile"@);
    assert(keys[23] == "rule-providers"@);
    assert(keys[24] == "rules"@);
    assert forall|key: Seq<char>| listener_keys().contains(key) implies (#[trigger] lookup(
        settings,
        key,
    )) is None by {
        let j = choose|j: int| 0 <= j < listener_keys().len() && listener_keys()[j] == key;
        assert(keys[j] == key);
        assert(lookup(before, key) is None);
    }
}

/// Whether the first proxy group of this name lists this node first.
pub open spec fn leads(groups: Seq<YamlTree>, name: Seq<char>, node: Seq<char>) -> bool {
    let g = first_index(groups, is_group(name));
    &&& g < groups.len()
    &&& lookup(untagged(groups[g])->Mapping_0, "proxies"@) matches Some(list)
    &&& untagged(list) matches YamlTree::Sequence(proxies)
    &&& proxies.len() > 0
    &&& as_text(proxies[0]) == Some(node)
}

/// Where a node is brought to the front of a group, it is a requested one and
/// leads the group; the group keeps all its nodes, and every group its name;
/// every other group stays as it was.
pub proof fn prioritizing_only_reorders(groups: Seq<YamlTree>, name: Seq<char>, rule: NodeRule)
    requires
        prioritized(groups, name, rule) is Ok,
    ensures
        ({
            let (after, node) = prioritized(groups, name, rule)->Ok_0;
            let g = first_index(groups, is_group(name));
            let before_list = lookup(untagged(groups[g])->Mapping_0, "proxies"@)->0;
            let after_list = lookup(untagged(after[g])->Mapping_0, "proxies"@)->0;
            &&& rule.accepts(node)
            &&& leads(after, name, node)
            &&& after.len() == groups.len()
            &&& untagged(after_list)->Sequence_0.to_multiset() =~= untagged(
                before_list,
            )->Sequence_0.to_multiset()
            &&& forall|j: int|
                0 <= j < groups.len() ==> group_name(#[trigger] after[j]) == group_name(groups[j])
            &&& forall|j: int| 0 <= j < groups.len() && j != g ==> #[trigger] after[j] == groups[j]
        }),
{
    broadcast use vstd::seq_lib::group_to_multiset_ensures;

    let (after, node) = prioritized(groups, name, rule)->Ok_0;
    let g = first_index(groups, is_group(name));
    lemma_first_index(groups, is_group(name));
    let group = groups[g];
    let entries = untagged(group)->Mapping_0;
    let list = lookup(entries, "proxies"@)->0;
    let proxies = untagged(list)->Sequence_0;
    let i = first_index(proxies, is_choice(rule));
    lemma_first_index(proxies, is_choice(rule));
    let front = moved_to_front(proxies, i);
    let new_list = retagged(list, YamlTree::Sequence(front));
    lemma_retagged(list, YamlTree::Sequence(front));
    let new_entries = inserted(entries, "proxies"@, new_list);
    lemma_inserted(entries, "proxies"@, new_list);
    lemma_retagged(group, YamlTree::Mapping(new_entries));
    assert("name"@ != "proxies"@) by {
        reveal_strlit("name");
        reveal_strlit("proxies");
    }
    assert(group_name(after[g]) == group_name(group));
    assert forall|j: int| 0 <= j < g implies !is_group(name)(#[trigger] after[j]) by {
        assert(!is_group(name)(groups[j]));
    }
    lemma_is_first_index(after, is_group(name), g);
    assert(front[0] == proxies[i]);
    assert(front.to_multiset() =~= proxies.to_multiset()) by {
        let rest = proxies.remove(i);
        assert(front =~= rest.insert(0, proxies[i]));
        vstd::seq_lib::to_multiset_insert(rest, 0, proxies[i]);
        vstd::seq_lib::to_multiset_remove(proxies, i);
    }
}

/// The node that is selected for the entry is the configured one; the node
/// that is selected for the exit starts and ends as configured and leads its
/// group; and everything is sent to the exit's group. Where the two groups
/// differ, the entry's node leads its group as well.
pub proof fn selected_nodes_are_the_requested_ones(
    root: YamlTree,
    config: PrivateEgressConfig,
    bootstrap: Seq<char>,
    secret: Seq<char>,
)
    requires
        well_formed(root),
        hardened(root, config, bootstrap, secret) is Ok,
    ensures
        ({
            let (tree, selections) = hardened(root, config, bootstrap, secret)->Ok_0;
            let groups = lookup(untagged(tree)->Mapping_0, "proxy-groups"@);
            &&& selections.len() == 3
            &&& selections[0] == (config.entry_group@, config.entry_choice@)
            &&& selections[1].0 == config.exit_group@
            &&& config.exit_choice_prefix@.is_prefix_of(selections[1].1)
            &&& config.exit_choice_suffix@.is_suffix_of(selections[1].1)
            &&& selections[2] == ("GLOBAL"@, config.exit_group@)
            &&& groups is Some
            &&& untagged(groups->0) is Sequence
            &&& leads(untagged(groups->0)->Sequence_0, config.exit_group@, selections[1].1)
            &&& config.entry_group@ != config.exit_group@ ==> leads(
                untagged(groups->0)->Sequence_0,
                config.entry_group@,
                config.entry_choice@,
            )
        }),
{
    lemma_untagged_well_formed(root);
    let entries = untagged(root)->Mapping_0;
    let before = gateway_settings(entries, secret, config.exit_group@, bootstrap);
    let list = lookup(before, "proxy-groups"@)->0;
    let groups = untagged(list)->Sequence_0;
    let (with_entry, entry) = prioritized(groups, config.entry_group@, entry_rule(config))->Ok_0;
    let (with_exit, exit) = prioritized(with_entry, config.exit_group@, exit_rule(config))->Ok_0;
    prioritizing_only_reorders(groups, config.entry_group@, entry_rule(config));
    prioritizing_only_reorders(with_entry, config.exit_group@, exit_rule(config));
    let new_list = retagged(list, YamlTree::Sequence(with_exit));
    lemma_retagged(list, YamlTree::Sequence(with_exit));
    lemma_inserted(before, "proxy-groups"@, new_list);
    lemma_retagged(root, YamlTree::Mapping(inserted(before, "proxy-groups"@, new_list)));
    if config.entry_group@ != config.exit_group@ {
        let p = is_group(config.entry_group@);
        let g = first_index(with_entry, p);
        lemma_first_index(with_entry, p);
        lemma_first_index(with_entry, is_group(config.exit_group@));
        let h = first_index(with_entry, is_group(config.exit_group@));
        assert(p(with_entry[g]));
        assert(g != h);
        assert forall|j: int| 0 <= j < g implies !p(#[trigger] with_exit[j]) by {
            assert(!p(with_entry[j]));
        }
        assert(with_exit[g] == with_entry[g]);
        lemma_is_first_index(with_exit, p, g);
    }
}

/// Entries whose keys are strings that have different places are entries with
/// distinct keys.
proof fn lemma_distinct_by_place(
    entries: Seq<(YamlTree, YamlTree)>,
    place: spec_fn(Seq<char>) -> int,
)
    requires
        forall|i: int|
            0 <= i < entries.len() ==> (#[trigger] entries[i]).0 is Text && place(
                entries[i].0->Text_0,
            ) == i,
    ensures
        distinct_keys(entries),
{
}

proof fn lemma_texts_well_formed(items: Seq<Seq<char>>)
    ensures
        well_formed(text_list_tree(items)),
{
    reveal_with_fuel(well_formed, 2);
}

proof fn lemma_tun_well_formed()
    ensures
        well_formed(tun_tree()),
{
    reveal_strlit("enable");
    reveal_strlit("device");
    reveal_strlit("stack");
    reveal_strlit("auto-route");
    reveal_strlit("auto-redirect");
    reveal_strlit("auto-detect-interface");
    reveal_strlit("strict-route");
    reveal_strlit("dns-hijack");
    let place = |s: Seq<char>|
        if s.len() == 6 && s[0] == 'e' {
            0int
        } else if s.len() == 6 {
            1
        } else if s.len() == 5 {
            2
        } else if s.len() == 10 && s[0] == 'a' {
            3
        } else if s.len() == 13 {
            4
        } else if s.len() == 21 {
            5
        } else if s.len() == 12 {
            6
        } else {
            7
        };
    let entries = tun_tree()->Mapping_0;
    assert forall|i: int| 0 <= i < entries.len() implies (#[trigger] entries[i]).0 is Text && place(
        entries[i].0->Text_0,
    ) == i by {
        if i == 0 {
        } else if i == 1 {
        } else if i == 2 {
        } else if i == 3 {
        } else if i == 4 {
        } else if i == 5 {
        } else if i == 6 {
        } else {
        }
    }
    lemma_distinct_by_place(entries, place);
    lemma_texts_well_formed(seq!["any:53"@, "tcp://any:53"@]);
    assert forall|i: int| 0 <= i < entries.len() implies well_formed((#[trigger] entries[i]).0)
        && well_formed(entries[i].1) by {
        if i == 7 {
        } else {
            assert(entries[i].1 is Bool || entries[i].1 is Text);
        }
    }
}

proof fn lemma_profile_well_formed()
    ensures
        well_formed(profile_tree()),
{
    reveal_strlit("store-selected");
    reveal_strlit("store-fake-ip");
    reveal_with_fuel(well_formed, 2);
    let entries = profile_tree()->Mapping_0;
    assert(entries[0].0->Text_0.len() != entries[1].0->Text_0.len());
}

proof fn lemma_dns_well_formed(
    root: Seq<(YamlTree, YamlTree)>,
    exit_group: Seq<char>,
    bootstrap: Seq<char>,
)
    requires
        well_formed(YamlTree::Mapping(root)),
    ensures
        well_formed(dns_tree(root, exit_group, bootstrap)),
{
    let base = dns_base(root);
    match lookup(root, "dns"@) {
        Some(dns) => {
            if untagged(dns) is Mapping {
                lemma_lookup_well_formed(root, "dns"@);
                lemma_untagged_well_formed(dns);
            }
        },
        None => {},
    }
    let entries = untagged(base)->Mapping_0;
    assert(well_formed(YamlTree::Mapping(entries)));
    let resolver = text_list_tree(seq![bootstrap]);
    let exit = text_list_tree(seq!["https://cloudflare-dns.com/dns-query#"@ + exit_group]);
    let server = text_list_tree(seq![bootstrap + "#DIRECT"@]);
    lemma_texts_well_formed(seq![bootstrap]);
    lemma_texts_well_formed(seq!["https://cloudflare-dns.com/dns-query#"@ + exit_group]);
    lemma_texts_well_formed(seq![bootstrap + "#DIRECT"@]);
    let e0 = removed_all(entries, dropped_dns_keys());
    lemma_removed_all_well_formed(entries, dropped_dns_keys());
    let e1 = inserted(e0, "enable"@, YamlTree::Bool(true));
    lemma_inserted_well_formed(e0, "enable"@, YamlTree::Bool(true));
    let e2 = inserted(e1, "ipv6"@, YamlTree::Bool(false));
    lemma_inserted_well_formed(e1, "ipv6"@, YamlTree::Bool(false));
    let e3 = inserted(e2, "listen"@, text_tree("0.0.0.0:53"@));
    lemma_inserted_well_formed(e2, "listen"@, text_tree("0.0.0.0:53"@));
    let e4 = inserted(e3, "enhanced-mode"@, text_tree("redir-host"@));
    lemma_inserted_well_formed(e3, "enhanced-mode"@, text_tree("redir-host"@));
    let e5 = inserted(e4, "use-system-hosts"@, YamlTree::Bool(false));
    lemma_inserted_well_formed(e4, "use-system-hosts"@, YamlTree::Bool(false));
    let e6 = inserted(e5, "respect-rules"@, YamlTree::Bool(true));
    lemma_inserted_well_formed(e5, "respect-rules"@, YamlTree::Bool(true));
    let e7 = inserted(e6, "default-nameserver"@, resolver);
    lemma_inserted_well_formed(e6, "default-nameserver"@, resolver);
    let e8 = inserted(e7, "nameserver"@, exit);
    lemma_inserted_well_formed(e7, "nameserver"@, exit);
    lemma_inserted_well_formed(e8, "proxy-server-nameserver"@, server);
    lemma_retagged_well_formed(
        base,
        YamlTree::Mapping(dns_entries(entries, exit_group, bootstrap)),
    );
}

proof fn lemma_settings_well_formed(
    entries: Seq<(YamlTree, YamlTree)>,
    secret: Seq<char>,
    exit_group: Seq<char>,
    bootstrap: Seq<char>,
)
    requires
        well_formed(YamlTree::Mapping(entries)),
    ensures
        well_formed(YamlTree::Mapping(gateway_settings(entries, secret, exit_group, bootstrap))),
{
    let rules = text_list_tree(seq!["MATCH,DIRECT"@]);
    lemma_texts_well_formed(seq!["MATCH,DIRECT"@]);
    lemma_tun_well_formed();
    lemma_profile_well_formed();
    let e0 = removed_all(entries, listener_keys());
    lemma_removed_all_well_formed(entries, listener_keys());
    let e1 = inserted(e0, "mode"@, text_tree("global"@));
    lemma_inserted_well_formed(e0, "mode"@, text_tree("global"@));
    let e2 = inserted(e1, "ipv6"@, YamlTree::Bool(false));
    lemma_inserted_well_formed(e1, "ipv6"@, YamlTree::Bool(false));
    let e3 = inserted(e2, "allow-lan"@, YamlTree::Bool(false));
    lemma_inserted_well_formed(e2, "allow-lan"@, YamlTree::Bool(false));
    let e4 = inserted(e3, "bind-address"@, text_tree("127.0.0.1"@));
    lemma_inserted_well_formed(e3, "bind-address"@, text_tree("127.0.0.1"@));
    let e5 = inserted(e4, "log-level"@, text_tree("warning"@));
    lemma_inserted_well_formed(e4, "log-level"@, text_tree("warning"@));
    let e6 = inserted(e5, "external-controller"@, text_tree("127.0.0.1:9090"@));
    lemma_inserted_well_formed(e5, "external-controller"@, text_tree("127.0.0.1:9090"@));
    let e7 = inserted(e6, "secret"@, text_tree(secret));
    lemma_inserted_well_formed(e6, "secret"@, text_tree(secret));
    let e8 = inserted(e7, "tun"@, tun_tree());
    lemma_inserted_well_formed(e7, "tun"@, tun_tree());
    lemma_dns_well_formed(e8, exit_group, bootstrap);
    let dns = dns_tree(e8, exit_group, bootstrap);
    let e9 = inserted(e8, "dns"@, dns);
    lemma_inserted_well_formed(e8, "dns"@, dns);
    let e10 = inserted(e9, "profile"@, profile_tree());
    lemma_inserted_well_formed(e9, "profile"@, profile_tree());
    let e11 = removed(e10, "rule-providers"@);
    lemma_removed_well_formed(e10, "rule-providers"@);
    lemma_inserted_well_formed(e11, "rules"@, rules);
}

proof fn lemma_prioritized_well_formed(groups: Seq<YamlTree>, name: Seq<char>, rule: NodeRule)
    requires
        well_formed(YamlTree::Sequence(groups)),
        prioritized(groups, name, rule) is Ok,
    ensures
        well_formed(YamlTree::Sequence(prioritized(groups, name, rule)->Ok_0.0)),
{
    let after = prioritized(groups, name, rule)->Ok_0.0;
    let g = first_index(groups, is_group(name));
    lemma_first_index(groups, is_group(name));
    assert(YamlTree::Sequence(groups)->Sequence_0 == groups);
    assert(well_formed(groups[g]));
    lemma_untagged_well_formed(groups[g]);
    let entries = untagged(groups[g])->Mapping_0;
    assert(is_group(name)(groups[g]));
    assert(well_formed(YamlTree::Mapping(entries)));
    let list = lookup(entries, "proxies"@)->0;
    lemma_lookup_well_formed(entries, "proxies"@);
    lemma_untagged_well_formed(list);
    let proxies = untagged(list)->Sequence_0;
    let i = first_index(proxies, is_choice(rule));
    lemma_first_index(proxies, is_choice(rule));
    let front = moved_to_front(proxies, i);
    assert(YamlTree::Sequence(proxies)->Sequence_0 == proxies);
    assert forall|j: int| 0 <= j < front.len() implies well_formed(#[trigger] front[j]) by {
        assert(well_formed(proxies[i]));
        if 0 < j {
            if j - 1 < i {
                assert(front[j] == proxies[j - 1]);
            } else {
                assert(front[j] == proxies[j]);
            }
        }
    }
    assert(well_formed(YamlTree::Sequence(front)));
    lemma_retagged_well_formed(list, YamlTree::Sequence(front));
    let new_list = retagged(list, YamlTree::Sequence(front));
    lemma_inserted_well_formed(entries, "proxies"@, new_list);
    let new_entries = inserted(entries, "proxies"@, new_list);
    lemma_retagged_well_formed(groups[g], YamlTree::Mapping(new_entries));
    assert forall|j: int| 0 <= j < after.len() implies well_formed(#[trigger] after[j]) by {
        if j != g {
            assert(after[j] == groups[j]);
        }
    }
}

/// Hardening makes well-formed documents of well-formed documents: no mapping
/// gets a key twice.
pub proof fn hardening_keeps_documents_well_formed(
    root: YamlTree,
    config: PrivateEgressConfig,
    bootstrap: Seq<char>,
    secret: Seq<char>,
)
    requires
        well_formed(root),
        hardened(root, config, bootstrap, secret) is Ok,
    ensures
        well_formed(hardened(root, config, bootstrap, secret)->Ok_0.0),
{
    lemma_untagged_well_formed(root);
    let entries = untagged(root)->Mapping_0;
    lemma_settings_well_formed(entries, secret, config.exit_group@, bootstrap);
    let settings = gateway_settings(entries, secret, config.exit_group@, bootstrap);
    let list = lookup(settings, "proxy-groups"@)->0;
    lemma_lookup_well_formed(settings, "proxy-groups"@);
    lemma_untagged_well_formed(list);
    let groups = untagged(list)->Sequence_0;
    lemma_prioritized_well_formed(groups, config.entry_group@, entry_rule(config));
    let with_entry = prioritized(groups, config.entry_group@, entry_rule(config))->Ok_0.0;
    lemma_prioritized_well_formed(with_entry, config.exit_group@, exit_rule(config));
    let with_exit = prioritized(with_entry, config.exit_group@, exit_rule(config))->Ok_0.0;
    lemma_retagged_well_formed(list, YamlTree::Sequence(with_exit));
    let new_list = retagged(list, YamlTree::Sequence(with_exit));
    lemma_inserted_well_formed(settings, "proxy-groups"@, new_list);
    lemma_retagged_well_formed(
        root,
        YamlTree::Mapping(inserted(settings, "proxy-groups"@, new_list)),
    );
}

/// The value at the place of a key is what is found under it.
proof fn lemma_lookup_at(entries: Seq<(YamlTree, YamlTree)>, key: Seq<char>, i: int)
    requires
        distinct_keys(entries),
        0 <= i < entries.len(),
        entries[i].0 == YamlTree::Text(key),
    ensures
        lookup(entries, key) == Some(entries[i].1),
{
    assert forall|j: int| 0 <= j < i implies !has_text_key(key)(#[trigger] entries[j]) by {
        assert(apart(entries[i].0, entries[j].0));
    }
    lemma_is_first_index(entries, has_text_key(key), i);
}

/// Whatever the subscription brings, the hardened gateway creates its tunnel
/// device, routes all traffic into it and none beside it, and catches every DNS
/// query.
pub proof fn hardened_gateway_tunnels_everything(
    root: YamlTree,
    config: PrivateEgressConfig,
    bootstrap: Seq<char>,
    secret: Seq<char>,
)
    requires
        well_formed(root),
        hardened(root, config, bootstrap, secret) is Ok,
    ensures
        ({
            let tree = hardened(root, config, bootstrap, secret)->Ok_0.0;
            &&& lookup(untagged(tree)->Mapping_0, "tun"@) matches Some(YamlTree::Mapping(tun))
            &&& lookup(tun, "enable"@) == Some(YamlTree::Bool(true))
            &&& lookup(tun, "device"@) == Some(YamlTree::Text("coop-egress"@))
            &&& lookup(tun, "stack"@) == Some(YamlTree::Text("mixed"@))
            &&& lookup(tun, "auto-route"@) == Some(YamlTree::Bool(true))
            &&& lookup(tun, "auto-redirect"@) == Some(YamlTree::Bool(true))
            &&& lookup(tun, "auto-detect-interface"@) == Some(YamlTree::Bool(true))
            &&& lookup(tun, "strict-route"@) == Some(YamlTree::Bool(true))
            &&& lookup(tun, "dns-hijack"@) matches Some(YamlTree::Sequence(caught))
            &&& caught == seq![YamlTree::Text("any:53"@), YamlTree::Text("tcp://any:53"@)]
            &&& tun.len() == 8
        }),
{
    lemma_hardened_settings(root, config, bootstrap, secret);
    lemma_tun_well_formed();
    let tun = tun_tree()->Mapping_0;
    assert(distinct_keys(tun));
    lemma_lookup_at(tun, "enable"@, 0);
    lemma_lookup_at(tun, "device"@, 1);
    lemma_lookup_at(tun, "stack"@, 2);
    lemma_lookup_at(tun, "auto-route"@, 3);
    lemma_lookup_at(tun, "auto-redirect"@, 4);
    lemma_lookup_at(tun, "auto-detect-interface"@, 5);
    lemma_lookup_at(tun, "strict-route"@, 6);
    lemma_lookup_at(tun, "dns-hijack"@, 7);
    assert(tun[7].1->Sequence_0 =~= seq![
        YamlTree::Text("any:53"@),
        YamlTree::Text("tcp://any:53"@),
    ]);
}

/// Whatever the subscription brings, the hardened gateway opens no port to
/// others, lets nobody in, serves no page, keeps its controller on the loopback
/// address behind the given secret, and follows its selectors alone.
pub proof fn hardened_gateway_listens_to_nobody(
    root: YamlTree,
    config: PrivateEgressConfig,
    bootstrap: Seq<char>,
    secret: Seq<char>,
)
    requires
        well_formed(root),
        hardened(root, config, bootstrap, secret) is Ok,
    ensures
        ({
            let tree = hardened(root, config, bootstrap, secret)->Ok_0.0;
            let settings = untagged(tree)->Mapping_0;
            &&& untagged(tree) is Mapping
            &&& lookup(settings, "port"@) is None
            &&& lookup(settings, "socks-port"@) is None
            &&& lookup(settings, "redir-port"@) is None
            &&& lookup(settings, "tproxy-port"@) is None
            &&& lookup(settings, "mixed-port"@) is None
            &&& lookup(settings, "listeners"@) is None
            &&& lookup(settings, "authentication"@) is None
            &&& lookup(settings, "skip-auth-prefixes"@) is None
            &&& lookup(settings, "lan-allowed-ips"@) is None
            &&& lookup(settings, "lan-disallowed-ips"@) is None
            &&& lookup(settings, "external-ui"@) is None
            &&& lookup(settings, "external-ui-url"@) is None
            &&& lookup(settings, "external-ui-name"@) is None
            &&& lookup(settings, "rule-providers"@) is None
            &&& lookup(settings, "mode"@) == Some(YamlTree::Text("global"@))
            &&& lookup(settings, "ipv6"@) == Some(YamlTree::Bool(false))
            &&& lookup(settings, "allow-lan"@) == Some(YamlTree::Bool(false))
            &&& lookup(settings, "bind-address"@) == Some(YamlTree::Text("127.0.0.1"@))
            &&& lookup(settings, "log-level"@) == Some(YamlTree::Text("warning"@))
            &&& lookup(settings, "external-controller"@) == Some(
                YamlTree::Text("127.0.0.1:9090"@),
            )
            &&& lookup(settings, "secret"@) == Some(YamlTree::Text(secret))
            &&& lookup(settings, "rules"@) matches Some(YamlTree::Sequence(rules))
            &&& rules == seq![YamlTree::Text("MATCH,DIRECT"@)]
            &&& lookup(settings, "profile"@) matches Some(YamlTree::Mapping(profile))
            &&& lookup(profile, "store-selected"@) == Some(YamlTree::Bool(true))
            &&& lookup(profile, "store-fake-ip"@) == Some(YamlTree::Bool(false))
            &&& profile.len() == 2
        }),
{
    lemma_hardened_settings(root, config, bootstrap, secret);
    let settings = untagged(hardened(root, config, bootstrap, secret)->Ok_0.0)->Mapping_0;
    let keys = listener_keys();
    assert(keys[0] == "port"@ && keys.contains(keys[0]));
    assert(keys[1] == "socks-port"@ && keys.contains(keys[1]));
    assert(keys[2] == "redir-port"@ && keys.contains(keys[2]));
    assert(keys[3] == "tproxy-port"@ && keys.contains(keys[3]));
    assert(keys[4] == "mixed-port"@ && keys.contains(keys[4]));
    assert(keys[5] == "listeners"@ && keys.contains(keys[5]));
    assert(keys[6] == "authentication"@ && keys.contains(keys[6]));
    assert(keys[7] == "skip-auth-prefixes"@ && keys.contains(keys[7]));
    assert(keys[8] == "lan-allowed-ips"@ && keys.contains(keys[8]));
    assert(keys[9] == "lan-disallowed-ips"@ && keys.contains(keys[9]));
    assert(keys[10] == "external-ui"@ && keys.contains(keys[10]));
    assert(keys[11] == "external-ui-url"@ && keys.contains(keys[11]));
    assert(keys[12] == "external-ui-name"@ && keys.contains(keys[12]));
    assert(lookup(settings, "rules"@)->0->Sequence_0 =~= seq![YamlTree::Text("MATCH,DIRECT"@)]);
    lemma_profile_well_formed();
    let profile = profile_tree()->Mapping_0;
    assert(distinct_keys(profile));
    lemma_lookup_at(profile, "store-selected"@, 0);
    lemma_lookup_at(profile, "store-fake-ip"@, 1);
}

/// The DNS settings that a subscription brings: none where it brings no mapping.
pub open spec fn brought_dns(root: YamlTree) -> Seq<(YamlTree, YamlTree)> {
    match lookup(untagged(root)->Mapping_0, "dns"@) {
        Some(dns) => match untagged(dns) {
            YamlTree::Mapping(entries) => entries,
            _ => seq![],
        },
        None => seq![],
    }
}

/// Whatever the subscription brings, the hardened gateway resolves names over
/// HTTPS through the exit's group, finds the provider's servers through the
/// bootstrap resolver alone and directly, and has no other resolver. What the
/// subscription says of DNS beside that stays.
pub proof fn hardened_gateway_resolves_through_the_exit(
    root: YamlTree,
    config: PrivateEgressConfig,
    bootstrap: Seq<char>,
    secret: Seq<char>,
)
    requires
        well_formed(root),
        hardened(root, config, bootstrap, secret) is Ok,
    ensures
        ({
            let tree = hardened(root, config, bootstrap, secret)->Ok_0.0;
            &&& lookup(untagged(tree)->Mapping_0, "dns"@) matches Some(value)
            &&& untagged(value) matches YamlTree::Mapping(dns)
            &&& lookup(dns, "nameserver-policy"@) is None
            &&& lookup(dns, "fallback"@) is None
            &&& lookup(dns, "fallback-filter"@) is None
            &&& lookup(dns, "direct-nameserver"@) is None
            &&& lookup(dns, "direct-nameserver-follow-policy"@) is None
            &&& lookup(dns, "proxy-server-nameserver-policy"@) is None
            &&& lookup(dns, "enable"@) == Some(YamlTree::Bool(true))
            &&& lookup(dns, "ipv6"@) == Some(YamlTree::Bool(false))
            &&& lookup(dns, "listen"@) == Some(YamlTree::Text("0.0.0.0:53"@))
            &&& lookup(dns, "enhanced-mode"@) == Some(YamlTree::Text("redir-host"@))
            &&& lookup(dns, "use-system-hosts"@) == Some(YamlTree::Bool(false))
            &&& lookup(dns, "respect-rules"@) == Some(YamlTree::Bool(true))
            &&& lookup(dns, "default-nameserver"@) matches Some(YamlTree::Sequence(first))
            &&& first == seq![YamlTree::Text(bootstrap)]
            &&& lookup(dns, "nameserver"@) matches Some(YamlTree::Sequence(servers))
            &&& servers == seq![
                YamlTree::Text("https://cloudflare-dns.com/dns-query#"@ + config.exit_group@),
            ]
            &&& lookup(dns, "proxy-server-nameserver"@) matches Some(YamlTree::Sequence(own))
            &&& own == seq![YamlTree::Text(bootstrap + "#DIRECT"@)]
            &&& forall|key: Seq<char>|
                !is_decided_dns_key(key) ==> #[trigger] lookup(dns, key) == lookup(
                    brought_dns(root),
                    key,
                )
        }),
{
    lemma_hardened_settings(root, config, bootstrap, secret);
    hardened_dns_is_closed(root, config, bootstrap, secret);
    lemma_untagged_well_formed(root);
    let entries = untagged(root)->Mapping_0;
    let base = dns_base(entries);
    match lookup(entries, "dns"@) {
        Some(dns) => {
            if untagged(dns) is Mapping {
                lemma_lookup_well_formed(entries, "dns"@);
                lemma_untagged_well_formed(dns);
            }
        },
        None => {},
    }
    assert(brought_dns(root) == untagged(base)->Mapping_0);
    lemma_dns(brought_dns(root), config.exit_group@, bootstrap);
    let made = dns_entries(brought_dns(root), config.exit_group@, bootstrap);
    lemma_retagged(base, YamlTree::Mapping(made));
    let keys = dropped_dns_keys();
    assert(keys[0] == "nameserver-policy"@ && keys.contains(keys[0]));
    assert(keys[1] == "fallback"@ && keys.contains(keys[1]));
    assert(keys[2] == "fallback-filter"@ && keys.contains(keys[2]));
    assert(keys[3] == "direct-nameserver"@ && keys.contains(keys[3]));
    assert(keys[4] == "direct-nameserver-follow-policy"@ && keys.contains(keys[4]));
    assert(keys[5] == "proxy-server-nameserver-policy"@ && keys.contains(keys[5]));
    assert(lookup(made, "default-nameserver"@)->0->Sequence_0 =~= seq![YamlTree::Text(bootstrap)]);
    assert(lookup(made, "nameserver"@)->0->Sequence_0 =~= seq![
        YamlTree::Text("https://cloudflare-dns.com/dns-query#"@ + config.exit_group@),
    ]);
    assert(lookup(made, "proxy-server-nameserver"@)->0->Sequence_0 =~= seq![
        YamlTree::Text(bootstrap + "#DIRECT"@),
    ]);
    assert forall|key: Seq<char>| !is_decided_dns_key(key) implies #[trigger] lookup(made, key)
        == lookup(brought_dns(root), key) by {
        if decided_dns_keys().contains(key) {
            let i = choose|i: int| 0 <= i < decided_dns_keys().len() && decided_dns_keys()[i]
                == key;
            lemma_decided_dns_key(i);
        }
    }
}

/// Whether a key is one of the DNS settings of the gateway.
pub open spec fn is_decided_dns_key(key: Seq<char>) -> bool {
    ||| key == "nameserver-policy"@
    ||| key == "fallback"@
    ||| key == "fallback-filter"@
    ||| key == "direct-nameserver"@
    ||| key == "direct-nameserver-follow-policy"@
    ||| key == "proxy-server-nameserver-policy"@
    ||| key == "enable"@
    ||| key == "ipv6"@
    ||| key == "listen"@
    ||| key == "enhanced-mode"@
    ||| key == "use-system-hosts"@
    ||| key == "respect-rules"@
    ||| key == "default-nameserver"@
    ||| key == "nameserver"@
    ||| key == "proxy-server-nameserver"@
}

proof fn lemma_decided_dns_key(i: int)
    requires
        0 <= i < decided_dns_keys().len(),
    ensures
        is_decided_dns_key(decided_dns_keys()[i]),
{
    if i == 0 {
    } else if i == 1 {
    } else if i == 2 {
    } else if i == 3 {
    } else if i == 4 {
    } else if i == 5 {
    } else if i == 6 {
    } else if i == 7 {
    } else if i == 8 {
    } else if i == 9 {
    } else if i == 10 {
    } else if i == 11 {
    } else if i == 12 {
    } else if i == 13 {
    } else {
    }
}

/// Whether a key is one of the settings of the gateway.
pub open spec fn is_decided_key(key: Seq<char>) -> bool {
    ||| key == "port"@
    ||| key == "socks-port"@
    ||| key == "redir-port"@
    ||| key == "tproxy-port"@
    ||| key == "mixed-port"@
    ||| key == "listeners"@
    ||| key == "authentication"@
    ||| key == "skip-auth-prefixes"@
    ||| key == "lan-allowed-ips"@
    ||| key == "lan-disallowed-ips"@
    ||| key == "external-ui"@
    ||| key == "external-ui-url"@
    ||| key == "external-ui-name"@
    ||| key == "mode"@
    ||| key == "ipv6"@
    ||| key == "allow-lan"@
    ||| key == "bind-address"@
    ||| key == "log-level"@
    ||| key == "external-controller"@
    ||| key == "secret"@
    ||| key == "tun"@
    ||| key == "dns"@
    ||| key == "profile"@
    ||| key == "rule-providers"@
    ||| key == "rules"@
    ||| key == "proxy-groups"@
}

proof fn lemma_decided_key(i: int)
    requires
        0 <= i < decided_keys().len(),
    ensures
        is_decided_key(decided_keys()[i]),
{
    if i == 0 {
    } else if i == 1 {
    } else if i == 2 {
    } else if i == 3 {
    } else if i == 4 {
    } else if i == 5 {
    } else if i == 6 {
    } else if i == 7 {
    } else if i == 8 {
    } else if i == 9 {
    } else if i == 10 {
    } else if i == 11 {
    } else if i == 12 {
    } else if i == 13 {
    } else if i == 14 {
    } else if i == 15 {
    } else if i == 16 {
    } else if i == 17 {
    } else if i == 18 {
    } else if i == 19 {
    } else if i == 20 {
    } else if i == 21 {
    } else if i == 22 {
    } else if i == 23 {
    } else if i == 24 {
    } else {
    }
}

/// A setting under any other name, such as the provider's own servers, is the
/// one that the subscription brought.
pub proof fn hardening_touches_nothing_else(
    root: YamlTree,
    config: PrivateEgressConfig,
    bootstrap: Seq<char>,
    secret: Seq<char>,
    key: Seq<char>,
)
    requires
        well_formed(root),
        hardened(root, config, bootstrap, secret) is Ok,
        !is_decided_key(key),
    ensures
        lookup(untagged(hardened(root, config, bootstrap, secret)->Ok_0.0)->Mapping_0, key)
            == lookup(untagged(root)->Mapping_0, key),
{
    if decided_keys().contains(key) {
        let i = choose|i: int| 0 <= i < decided_keys().len() && decided_keys()[i] == key;
        lemma_decided_key(i);
    }
    other_settings_stay(root, config, bootstrap, secret, key);
}

/// The proxy groups that a document lists.
pub open spec fn groups_of(root: YamlTree) -> Option<Seq<YamlTree>> {
    match untagged(root) {
        YamlTree::Mapping(entries) => match lookup(entries, "proxy-groups"@) {
            Some(list) => match untagged(list) {
                YamlTree::Sequence(groups) => Some(groups),
                _ => None,
            },
            None => None,
        },
        _ => None,
    }
}

/// Whether a document has this text under a key.
pub open spec fn says(group: YamlTree, key: Seq<char>, value: Seq<char>) -> bool {
    &&& untagged(group) matches YamlTree::Mapping(entries)
    &&& lookup(entries, key) matches Some(found)
    &&& untagged(found) == YamlTree::Text(value)
}

/// The nodes that a proxy group lists.
pub open spec fn nodes_of(group: YamlTree) -> Option<Seq<YamlTree>> {
    match untagged(group) {
        YamlTree::Mapping(entries) => match lookup(entries, "proxies"@) {
            Some(list) => match untagged(list) {
                YamlTree::Sequence(nodes) => Some(nodes),
                _ => None,
            },
            None => None,
        },
        _ => None,
    }
}

/// Whether the first group of a name stands at a place.
pub open spec fn is_first_group(groups: Seq<YamlTree>, name: Seq<char>, g: int) -> bool {
    &&& 0 <= g < groups.len()
    &&& says(groups[g], "name"@, name)
    &&& forall|j: int| 0 <= j < g ==> !says(#[trigger] groups[j], "name"@, name)
}

/// Whether a node is one of those that are wanted.
pub open spec fn is_wanted(node: YamlTree, wanted: spec_fn(Seq<char>) -> bool) -> bool {
    untagged(node) matches YamlTree::Text(name) && wanted(name)
}

/// Whether the first wanted node of a list stands at a place.
pub open spec fn is_first_wanted(
    nodes: Seq<YamlTree>,
    wanted: spec_fn(Seq<char>) -> bool,
    i: int,
) -> bool {
    &&& 0 <= i < nodes.len()
    &&& is_wanted(nodes[i], wanted)
    &&& forall|j: int| 0 <= j < i ==> !is_wanted(#[trigger] nodes[j], wanted)
}

/// The names that the configuration wants for the entry: the one.
pub open spec fn wants_entry(config: PrivateEgressConfig) -> spec_fn(Seq<char>) -> bool {
    |name: Seq<char>| name == config.entry_choice@
}

/// The names that the configuration wants for the exit: those that start and end
/// as it says.
pub open spec fn wants_exit(config: PrivateEgressConfig) -> spec_fn(Seq<char>) -> bool {
    |name: Seq<char>|
        config.exit_choice_prefix@.is_prefix_of(name) && config.exit_choice_suffix@.is_suffix_of(
            name,
        )
}

/// Whether the first group of a name lists a wanted node.
pub open spec fn offers(
    groups: Seq<YamlTree>,
    name: Seq<char>,
    wanted: spec_fn(Seq<char>) -> bool,
) -> bool {
    exists|g: int, i: int|
        #[trigger] is_first_group(groups, name, g) && nodes_of(groups[g]) is Some
            && #[trigger] is_first_wanted(nodes_of(groups[g])->0, wanted, i)
}

/// Whether `after` are the groups `before` with the first wanted node of the first
/// group of a name at the front of that group, and nothing else moved or changed.
pub open spec fn is_pinned(
    before: Seq<YamlTree>,
    after: Seq<YamlTree>,
    name: Seq<char>,
    wanted: spec_fn(Seq<char>) -> bool,
    node: Seq<char>,
) -> bool {
    exists|g: int, i: int| #[trigger]
        is_pinned_at(before, after, name, wanted, node, g, i)
}

/// Whether that is so for the group and the node at these places.
pub open spec fn is_pinned_at(
    before: Seq<YamlTree>,
    after: Seq<YamlTree>,
    name: Seq<char>,
    wanted: spec_fn(Seq<char>) -> bool,
    node: Seq<char>,
    g: int,
    i: int,
) -> bool {
    &&& is_first_group(before, name, g)
    &&& nodes_of(before[g]) matches Some(nodes)
    &&& is_first_wanted(nodes, wanted, i)
    &&& untagged(nodes[i]) == YamlTree::Text(node)
    &&& after.len() == before.len()
    &&& forall|j: int| 0 <= j < before.len() && j != g ==> #[trigger] after[j] == before[j]
    &&& nodes_of(after[g]) matches Some(moved)
    &&& moved == seq![nodes[i]] + nodes.take(i) + nodes.skip(i + 1)
    &&& untagged(after[g]) is Mapping
    &&& forall|key: Seq<char>|
        key != "proxies"@ ==> #[trigger] lookup(untagged(after[g])->Mapping_0, key) == lookup(
            untagged(before[g])->Mapping_0,
            key,
        )
}

/// What a rule accepts is what is wanted.
spec fn same_choice(rule: NodeRule, wanted: spec_fn(Seq<char>) -> bool) -> bool {
    forall|name: Seq<char>| #[trigger] rule.accepts(name) == wanted(name)
}

proof fn lemma_first_group(groups: Seq<YamlTree>, name: Seq<char>, g: int)
    ensures
        is_first_group(groups, name, g) <==> g == first_index(groups, is_group(name)) && g
            < groups.len(),
        forall|j: int|
            0 <= j < groups.len() ==> says(#[trigger] groups[j], "name"@, name) == is_group(name)(
                groups[j],
            ),
{
    let p = is_group(name);
    assert forall|j: int| 0 <= j < groups.len() implies says(#[trigger] groups[j], "name"@, name)
        == p(groups[j]) by {}
    lemma_first_index(groups, p);
    if is_first_group(groups, name, g) {
        assert forall|j: int| 0 <= j < g implies !p(#[trigger] groups[j]) by {
            assert(!says(groups[j], "name"@, name));
        }
        assert(p(groups[g]));
        lemma_is_first_index(groups, p, g);
    }
    if g == first_index(groups, p) && g < groups.len() {
        assert(says(groups[g], "name"@, name));
    }
}

proof fn lemma_first_wanted(
    nodes: Seq<YamlTree>,
    rule: NodeRule,
    wanted: spec_fn(Seq<char>) -> bool,
    i: int,
)
    requires
        same_choice(rule, wanted),
    ensures
        is_first_wanted(nodes, wanted, i) <==> i == first_index(nodes, is_choice(rule)) && i
            < nodes.len(),
{
    let p = is_choice(rule);
    assert forall|j: int| 0 <= j < nodes.len() implies is_wanted(#[trigger] nodes[j], wanted)
        == p(nodes[j]) by {
        if let YamlTree::Text(name) = untagged(nodes[j]) {
            assert(rule.accepts(name) == wanted(name));
        }
    }
    lemma_first_index(nodes, p);
    if is_first_wanted(nodes, wanted, i) {
        assert forall|j: int| 0 <= j < i implies !p(#[trigger] nodes[j]) by {
            assert(!is_wanted(nodes[j], wanted));
        }
        assert(p(nodes[i]));
        lemma_is_first_index(nodes, p, i);
    }
    if i == first_index(nodes, p) && i < nodes.len() {
        assert(is_wanted(nodes[i], wanted));
    }
}

/// What bringing a node to the front does, and when it fails.
proof fn lemma_prioritized(
    groups: Seq<YamlTree>,
    name: Seq<char>,
    rule: NodeRule,
    wanted: spec_fn(Seq<char>) -> bool,
)
    requires
        same_choice(rule, wanted),
    ensures
        prioritized(groups, name, rule) is Ok <==> offers(groups, name, wanted),
        match prioritized(groups, name, rule) {
            Ok((after, node)) => is_pinned(groups, after, name, wanted, node) && wanted(node),
            Err(HardenFault::NoGroup(missing)) => missing == name && forall|j: int|
                0 <= j < groups.len() ==> !says(#[trigger] groups[j], "name"@, name),
            Err(HardenFault::NoProxies(bare)) => bare == name && exists|g: int|
                #[trigger] is_first_group(groups, name, g) && nodes_of(groups[g]) is None,
            Err(HardenFault::NoChoice(poor)) => poor == name && exists|g: int|
                #[trigger] is_first_group(groups, name, g) && lacks(groups[g], wanted),
            Err(_) => false,
        },
{
    let g = first_index(groups, is_group(name));
    lemma_first_index(groups, is_group(name));
    lemma_first_group(groups, name, g);
    assert forall|h: int| #[trigger] is_first_group(groups, name, h) implies h == g by {
        lemma_first_group(groups, name, h);
    }
    if g >= groups.len() {
        assert forall|j: int| 0 <= j < groups.len() implies !says(
            #[trigger] groups[j],
            "name"@,
            name,
        ) by {
            assert(!is_group(name)(groups[j]));
        }
    } else {
        assert(is_first_group(groups, name, g));
        let entries = untagged(groups[g])->Mapping_0;
        assert(untagged(groups[g]) is Mapping);
        if nodes_of(groups[g]) is Some {
            let list = lookup(entries, "proxies"@)->0;
            let nodes = untagged(list)->Sequence_0;
            assert(nodes_of(groups[g]) == Some(nodes));
            let i = first_index(nodes, is_choice(rule));
            lemma_first_index(nodes, is_choice(rule));
            lemma_first_wanted(nodes, rule, wanted, i);
            assert forall|k: int| #[trigger] is_first_wanted(nodes, wanted, k) implies k == i by {
                lemma_first_wanted(nodes, rule, wanted, k);
            }
            if i < nodes.len() {
                assert(is_first_wanted(nodes, wanted, i));
                let (after, node) = prioritized(groups, name, rule)->Ok_0;
                let front = moved_to_front(nodes, i);
                let new_list = retagged(list, YamlTree::Sequence(front));
                lemma_retagged(list, YamlTree::Sequence(front));
                lemma_inserted(entries, "proxies"@, new_list);
                lemma_retagged(
                    groups[g],
                    YamlTree::Mapping(inserted(entries, "proxies"@, new_list)),
                );
                assert(nodes_of(after[g]) == Some(front));
                assert(front =~= seq![nodes[i]] + nodes.take(i) + nodes.skip(i + 1));
                assert(rule.accepts(node));
                assert(is_pinned_at(groups, after, name, wanted, node, g, i));
            } else {
                assert forall|k: int| 0 <= k < nodes.len() implies !is_wanted(
                    #[trigger] nodes[k],
                    wanted,
                ) by {
                    assert(!is_choice(rule)(nodes[k]));
                    if let YamlTree::Text(found) = untagged(nodes[k]) {
                        assert(rule.accepts(found) == wanted(found));
                    }
                }
                assert(lacks(groups[g], wanted));
            }
        }
    }
}

/// Whether a group lists nodes, but no wanted one.
pub open spec fn lacks(group: YamlTree, wanted: spec_fn(Seq<char>) -> bool) -> bool {
    &&& nodes_of(group) matches Some(nodes)
    &&& forall|i: int| 0 <= i < nodes.len() ==> !is_wanted(#[trigger] nodes[i], wanted)
}

/// Pinning a node takes no node from any group.
proof fn lemma_pinned_offers(
    before: Seq<YamlTree>,
    after: Seq<YamlTree>,
    name: Seq<char>,
    wanted: spec_fn(Seq<char>) -> bool,
    node: Seq<char>,
    other: Seq<char>,
    rule: NodeRule,
    sought: spec_fn(Seq<char>) -> bool,
)
    requires
        is_pinned(before, after, name, wanted, node),
        same_choice(rule, sought),
    ensures
        offers(before, other, sought) <==> offers(after, other, sought),
        forall|j: int|
            0 <= j < before.len() ==> says(#[trigger] after[j], "name"@, other) == says(
                before[j],
                "name"@,
                other,
            ),
        forall|h: int|
            #[trigger] is_first_group(after, other, h) ==> {
                &&& is_first_group(before, other, h)
                &&& nodes_of(after[h]) is None ==> nodes_of(before[h]) is None
                &&& lacks(after[h], sought) ==> lacks(before[h], sought)
            },
{
    let (g, i) = choose|g: int, i: int| #[trigger]
        is_pinned_at(before, after, name, wanted, node, g, i);
    assert("name"@ != "proxies"@) by {
        reveal_strlit("name");
        reveal_strlit("proxies");
    }
    assert forall|j: int| 0 <= j < before.len() implies says(#[trigger] after[j], "name"@, other)
        == says(before[j], "name"@, other) by {
        if j == g {
            assert(lookup(untagged(after[g])->Mapping_0, "name"@) == lookup(
                untagged(before[g])->Mapping_0,
                "name"@,
            ));
        }
    }
    assert forall|h: int| is_first_group(before, other, h) == #[trigger] is_first_group(
        after,
        other,
        h,
    ) by {
        if is_first_group(before, other, h) {
            assert(says(after[h], "name"@, other));
            assert forall|j: int| 0 <= j < h implies !says(#[trigger] after[j], "name"@, other) by {
                assert(!says(before[j], "name"@, other));
            }
        }
        if is_first_group(after, other, h) {
            assert(says(before[h], "name"@, other));
            assert forall|j: int| 0 <= j < h implies !says(#[trigger] before[j], "name"@, other) by {
                assert(!says(after[j], "name"@, other));
            }
        }
    }
    let nodes = nodes_of(before[g])->0;
    let moved = nodes_of(after[g])->0;
    assert forall|h: int| #[trigger] is_first_group(after, other, h) implies {
        &&& is_first_group(before, other, h)
        &&& nodes_of(after[h]) is None ==> nodes_of(before[h]) is None
        &&& lacks(after[h], sought) ==> lacks(before[h], sought)
    } by {
        if h == g && lacks(after[h], sought) {
            assert forall|k: int| 0 <= k < nodes.len() implies !is_wanted(
                #[trigger] nodes[k],
                sought,
            ) by {
                lemma_moved_place(nodes, moved, i, k);
            }
        }
    }
    if offers(before, other, sought) {
        let (h, k) = choose|h: int, k: int|
            #[trigger] is_first_group(before, other, h) && nodes_of(before[h]) is Some
                && #[trigger] is_first_wanted(nodes_of(before[h])->0, sought, k);
        assert(is_first_group(after, other, h));
        let there = nodes_of(after[h])->0;
        let first = first_index(there, is_choice(rule));
        lemma_first_index(there, is_choice(rule));
        lemma_first_wanted(there, rule, sought, first);
        if first >= there.len() {
            if h == g {
                lemma_moved_place(nodes, moved, i, k);
            }
            let at = choose|at: int| 0 <= at < there.len() && there[at] == nodes_of(
                before[h],
            )->0[k];
            assert(!is_choice(rule)(there[at]));
            if let YamlTree::Text(found) = untagged(there[at]) {
                assert(rule.accepts(found) == sought(found));
            }
        }
        assert(is_first_wanted(there, sought, first));
    }
    if offers(after, other, sought) {
        let (h, k) = choose|h: int, k: int|
            #[trigger] is_first_group(after, other, h) && nodes_of(after[h]) is Some
                && #[trigger] is_first_wanted(nodes_of(after[h])->0, sought, k);
        assert(is_first_group(before, other, h));
        let there = nodes_of(before[h])->0;
        let first = first_index(there, is_choice(rule));
        lemma_first_index(there, is_choice(rule));
        lemma_first_wanted(there, rule, sought, first);
        if first >= there.len() {
            if h == g {
                lemma_unmoved_place(nodes, moved, i, k);
            }
            let at = choose|at: int| 0 <= at < there.len() && there[at] == nodes_of(
                after[h],
            )->0[k];
            assert(!is_choice(rule)(there[at]));
            if let YamlTree::Text(found) = untagged(there[at]) {
                assert(rule.accepts(found) == sought(found));
            }
        }
        assert(is_first_wanted(there, sought, first));
    }
}

proof fn lemma_moved_place(nodes: Seq<YamlTree>, moved: Seq<YamlTree>, i: int, k: int)
    requires
        0 <= i < nodes.len(),
        0 <= k < nodes.len(),
        moved == seq![nodes[i]] + nodes.take(i) + nodes.skip(i + 1),
    ensures
        exists|at: int| 0 <= at < moved.len() && #[trigger] moved[at] == nodes[k],
{
    let at = if k == i {
        0
    } else if k < i {
        k + 1
    } else {
        k
    };
    assert(moved[at] == nodes[k]);
}

proof fn lemma_unmoved_place(nodes: Seq<YamlTree>, moved: Seq<YamlTree>, i: int, k: int)
    requires
        0 <= i < nodes.len(),
        0 <= k < moved.len(),
        moved == seq![nodes[i]] + nodes.take(i) + nodes.skip(i + 1),
    ensures
        exists|at: int| 0 <= at < nodes.len() && #[trigger] nodes[at] == moved[k],
{
    let at = if k == 0 {
        i
    } else if k <= i {
        k - 1
    } else {
        k
    };
    assert(nodes[at] == moved[k]);
}

/// The groups that hardening starts from are those of the subscription.
proof fn lemma_groups_stay(
    root: YamlTree,
    config: PrivateEgressConfig,
    bootstrap: Seq<char>,
    secret: Seq<char>,
)
    requires
        well_formed(root),
        untagged(root) is Mapping,
    ensures
        lookup(
            gateway_settings(untagged(root)->Mapping_0, secret, config.exit_group@, bootstrap),
            "proxy-groups"@,
        ) == lookup(untagged(root)->Mapping_0, "proxy-groups"@),
{
    lemma_untagged_well_formed(root);
    lemma_settings(untagged(root)->Mapping_0, secret, config.exit_group@, bootstrap);
}

/// A subscription is hardened exactly where it offers what the configuration
/// asks for: in the first group of the entry's name a node of the configured name,
/// and in the first group of the exit's name one that starts and ends as
/// configured.
pub proof fn hardening_succeeds_where_both_nodes_are_offered(
    root: YamlTree,
    config: PrivateEgressConfig,
    bootstrap: Seq<char>,
    secret: Seq<char>,
)
    requires
        well_formed(root),
    ensures
        hardened(root, config, bootstrap, secret) is Ok <==> {
            &&& groups_of(root) matches Some(groups)
            &&& offers(groups, config.entry_group@, wants_entry(config))
            &&& offers(groups, config.exit_group@, wants_exit(config))
        },
{
    assert(same_choice(entry_rule(config), wants_entry(config)));
    assert(same_choice(exit_rule(config), wants_exit(config)));
    if untagged(root) is Mapping {
        lemma_groups_stay(root, config, bootstrap, secret);
        if groups_of(root) is Some {
            let groups = groups_of(root)->0;
            lemma_prioritized(
                groups,
                config.entry_group@,
                entry_rule(config),
                wants_entry(config),
            );
            if prioritized(groups, config.entry_group@, entry_rule(config)) is Ok {
                let (mid, entry) = prioritized(
                    groups,
                    config.entry_group@,
                    entry_rule(config),
                )->Ok_0;
                lemma_prioritized(mid, config.exit_group@, exit_rule(config), wants_exit(config));
                lemma_pinned_offers(
                    groups,
                    mid,
                    config.entry_group@,
                    wants_entry(config),
                    entry,
                    config.exit_group@,
                    exit_rule(config),
                    wants_exit(config),
                );
            }
        }
    }
}

/// The hardened groups are those of the subscription with the entry's node pinned,
/// and then the exit's: each is the first wanted one of its group, is brought to
/// its front, and is the one that is selected. Nothing else about the groups
/// changes.
pub proof fn hardening_pins_the_first_wanted_nodes(
    root: YamlTree,
    config: PrivateEgressConfig,
    bootstrap: Seq<char>,
    secret: Seq<char>,
)
    requires
        well_formed(root),
        hardened(root, config, bootstrap, secret) is Ok,
    ensures
        ({
            let (tree, selections) = hardened(root, config, bootstrap, secret)->Ok_0;
            &&& groups_of(root) matches Some(before)
            &&& groups_of(tree) matches Some(after)
            &&& selections.len() == 3
            &&& selections[0] == (config.entry_group@, config.entry_choice@)
            &&& selections[1].0 == config.exit_group@
            &&& selections[2] == ("GLOBAL"@, config.exit_group@)
            &&& exists|mid: Seq<YamlTree>|
                #[trigger] is_pinned(
                    before,
                    mid,
                    config.entry_group@,
                    wants_entry(config),
                    config.entry_choice@,
                ) && is_pinned(
                    mid,
                    after,
                    config.exit_group@,
                    wants_exit(config),
                    selections[1].1,
                )
        }),
{
    assert(same_choice(entry_rule(config), wants_entry(config)));
    assert(same_choice(exit_rule(config), wants_exit(config)));
    lemma_groups_stay(root, config, bootstrap, secret);
    selected_nodes_are_the_requested_ones(root, config, bootstrap, secret);
    let entries = untagged(root)->Mapping_0;
    let settings = gateway_settings(entries, secret, config.exit_group@, bootstrap);
    let list = lookup(settings, "proxy-groups"@)->0;
    let groups = groups_of(root)->0;
    let (mid, entry) = prioritized(groups, config.entry_group@, entry_rule(config))->Ok_0;
    let (after, exit) = prioritized(mid, config.exit_group@, exit_rule(config))->Ok_0;
    lemma_prioritized(groups, config.entry_group@, entry_rule(config), wants_entry(config));
    lemma_prioritized(mid, config.exit_group@, exit_rule(config), wants_exit(config));
    let new_list = retagged(list, YamlTree::Sequence(after));
    lemma_retagged(list, YamlTree::Sequence(after));
    lemma_inserted(settings, "proxy-groups"@, new_list);
    lemma_retagged(root, YamlTree::Mapping(inserted(settings, "proxy-groups"@, new_list)));
    assert(groups_of(hardened(root, config, bootstrap, secret)->Ok_0.0) == Some(after));
    assert(is_pinned(
        groups,
        mid,
        config.entry_group@,
        wants_entry(config),
        config.entry_choice@,
    ));
}

/// A subscription that cannot be hardened is refused for what it lacks, and the
/// refusal names the group.
pub proof fn refusals_name_what_is_missing(
    root: YamlTree,
    config: PrivateEgressConfig,
    bootstrap: Seq<char>,
    secret: Seq<char>,
)
    requires
        well_formed(root),
        hardened(root, config, bootstrap, secret) is Err,
    ensures
        match hardened(root, config, bootstrap, secret)->Err_0 {
            HardenFault::RootNotMapping => !(untagged(root) is Mapping),
            HardenFault::NoProxyGroups => untagged(root) is Mapping && groups_of(root) is None,
            HardenFault::NoGroup(name) => {
                &&& groups_of(root) matches Some(groups)
                &&& name == config.entry_group@ || name == config.exit_group@
                &&& forall|j: int|
                    0 <= j < groups.len() ==> !says(#[trigger] groups[j], "name"@, name)
            },
            HardenFault::NoProxies(name) => {
                &&& groups_of(root) matches Some(groups)
                &&& name == config.entry_group@ || name == config.exit_group@
                &&& exists|g: int|
                    #[trigger] is_first_group(groups, name, g) && nodes_of(groups[g]) is None
            },
            HardenFault::NoChoice(name) => {
                &&& groups_of(root) matches Some(groups)
                &&& exists|g: int| #[trigger]
                    is_first_group(groups, name, g) && {
                        ||| name == config.entry_group@ && lacks(groups[g], wants_entry(config))
                        ||| name == config.exit_group@ && lacks(groups[g], wants_exit(config))
                    }
            },
            HardenFault::Unwritable => false,
        },
{
    assert(same_choice(entry_rule(config), wants_entry(config)));
    assert(same_choice(exit_rule(config), wants_exit(config)));
    if untagged(root) is Mapping {
        lemma_groups_stay(root, config, bootstrap, secret);
        if groups_of(root) is Some {
            let groups = groups_of(root)->0;
            lemma_prioritized(
                groups,
                config.entry_group@,
                entry_rule(config),
                wants_entry(config),
            );
            if prioritized(groups, config.entry_group@, entry_rule(config)) is Ok {
                let (mid, entry) = prioritized(
                    groups,
                    config.entry_group@,
                    entry_rule(config),
                )->Ok_0;
                lemma_prioritized(mid, config.exit_group@, exit_rule(config), wants_exit(config));
                lemma_pinned_offers(
                    groups,
                    mid,
                    config.entry_group@,
                    wants_entry(config),
                    entry,
                    config.exit_group@,
                    exit_rule(config),
                    wants_exit(config),
                );
                let name = config.exit_group@;
                match prioritized(mid, name, exit_rule(config))->Err_0 {
                    HardenFault::NoGroup(_) => {
                        assert forall|j: int| 0 <= j < groups.len() implies !says(
                            #[trigger] groups[j],
                            "name"@,
                            name,
                        ) by {
                            assert(!says(mid[j], "name"@, name));
                        }
                    },
                    HardenFault::NoProxies(_) => {
                        let g = choose|g: int| #[trigger]
                            is_first_group(mid, name, g) && nodes_of(mid[g]) is None;
                        assert(is_first_group(groups, name, g));
                    },
                    HardenFault::NoChoice(_) => {
                        let g = choose|g: int| #[trigger]
                            is_first_group(mid, name, g) && lacks(mid[g], wants_exit(config));
                        assert(is_first_group(groups, name, g));
                    },
                    _ => {},
                }
            }
        }
    }
}

/// What the gateway VM is given is the hardened subscription, written as YAML; it goes
/// with the secret that it was made with, and with the selections in their order.
/// Where a subscription can be hardened and written, it is given.
pub proof fn written_configuration_is_the_hardened_one(
    root: Yaml,
    config: &PrivateEgressConfig,
    bootstrap: Ipv4Address,
    secret: String,
    made: Result<HardenedConfig, HardenError>,
)
    requires
        well_formed(root.tree()),
        call_ensures(harden_config, (root, config, bootstrap, secret), made),
    ensures
        match hardened(root.tree(), *config, bootstrap.text(), secret@) {
            Ok((tree, selections)) => match yaml_bytes(tree) {
                Some(bytes) => made matches Ok(given) && {
                    &&& given.yaml@ == bytes
                    &&& given.secret@ == secret@
                    &&& given.selections@.len() == selections.len()
                    &&& forall|i: int|
                        0 <= i < selections.len() ==> (#[trigger] given.selections@[i]).0@
                            == selections[i].0 && given.selections@[i].1@ == selections[i].1
                },
                None => made matches Err(error) && error is Unwritable,
            },
            Err(_) => made is Err,
        },
        made matches Err(error) ==> (hardened(
            root.tree(),
            *config,
            bootstrap.text(),
            secret@,
        ) matches Err(fault) ==> match fault {
            HardenFault::RootNotMapping => error is RootNotMapping,
            HardenFault::NoProxyGroups => error is NoProxyGroups,
            HardenFault::NoGroup(name) => error matches HardenError::NoGroup(held) && held@ == name,
            HardenFault::NoProxies(name) => error matches HardenError::NoProxies(held) && held@
                == name,
            HardenFault::NoChoice(name) => error matches HardenError::NoChoice(held) && held@
                == name,
            HardenFault::Unwritable => error is Unwritable,
        }),
{
    if let Ok((tree, selections)) = hardened(root.tree(), *config, bootstrap.text(), secret@) {
        if let Ok(given) = made {
            let texts = selection_texts(given.selections@);
            assert(texts == selections);
            assert forall|i: int| 0 <= i < selections.len() implies (
            #[trigger] given.selections@[i]).0@ == selections[i].0 && given.selections@[i].1@
                == selections[i].1 by {
                assert(texts[i] == (given.selections@[i].0@, given.selections@[i].1@));
            }
        }
    }
}

/// A document is hardened in memory as it is for writing.
pub proof fn hardened_document_is_the_hardened_one(
    root: Yaml,
    config: &PrivateEgressConfig,
    bootstrap: Ipv4Address,
    secret: &str,
    made: Result<(Yaml, Vec<(String, String)>), HardenError>,
)
    requires
        call_ensures(harden_document, (root, config, bootstrap, secret), made),
    ensures
        made is Ok <==> hardened(root.tree(), *config, bootstrap.text(), secret@) is Ok,
        made matches Ok((doc, _)) ==> doc.tree() == hardened(
            root.tree(),
            *config,
            bootstrap.text(),
            secret@,
        )->Ok_0.0,
{
}

/// The tunnel device of every gateway is created, takes all traffic and none beside
/// it, and catches every DNS query.
pub proof fn tunnel_device_takes_everything(made: Yaml)
    requires
        call_ensures(hardened_tun, (), made),
    ensures
        ({
            &&& made.tree() matches YamlTree::Mapping(tun)
            &&& lookup(tun, "enable"@) == Some(YamlTree::Bool(true))
            &&& lookup(tun, "device"@) == Some(YamlTree::Text("coop-egress"@))
            &&& lookup(tun, "stack"@) == Some(YamlTree::Text("mixed"@))
            &&& lookup(tun, "auto-route"@) == Some(YamlTree::Bool(true))
            &&& lookup(tun, "auto-redirect"@) == Some(YamlTree::Bool(true))
            &&& lookup(tun, "auto-detect-interface"@) == Some(YamlTree::Bool(true))
            &&& lookup(tun, "strict-route"@) == Some(YamlTree::Bool(true))
            &&& lookup(tun, "dns-hijack"@) matches Some(YamlTree::Sequence(caught))
            &&& caught == seq![YamlTree::Text("any:53"@), YamlTree::Text("tcp://any:53"@)]
        }),
{
    lemma_tun_well_formed();
    let tun = tun_tree()->Mapping_0;
    assert(distinct_keys(tun));
    lemma_lookup_at(tun, "enable"@, 0);
    lemma_lookup_at(tun, "device"@, 1);
    lemma_lookup_at(tun, "stack"@, 2);
    lemma_lookup_at(tun, "auto-route"@, 3);
    lemma_lookup_at(tun, "auto-redirect"@, 4);
    lemma_lookup_at(tun, "auto-detect-interface"@, 5);
    lemma_lookup_at(tun, "strict-route"@, 6);
    lemma_lookup_at(tun, "dns-hijack"@, 7);
    assert(tun[7].1->Sequence_0 =~= seq![
        YamlTree::Text("any:53"@),
        YamlTree::Text("tcp://any:53"@),
    ]);
}

/// Each refusal says what is missing, and in which group.
pub proof fn refusals_say_what_is_missing(error: &HardenError, text: String)
    requires
        call_ensures(HardenError::message, (error,), text),
    ensures
        text@ == match *error {
            HardenError::RootNotMapping => "Subscription YAML root must be a mapping"@,
            HardenError::NoProxyGroups => "Subscription has no proxy-groups list"@,
            HardenError::NoGroup(name) => "Subscription has no proxy group '"@ + name@ + "'"@,
            HardenError::NoProxies(name) => "Proxy group '"@ + name@ + "' has no proxies list"@,
            HardenError::NoChoice(name) => "Proxy group '"@ + name@ + "' has no requested choice"@,
            HardenError::Unwritable(_) => "Failed to serialize hardened Mihomo config"@,
        },
{
}

} // verus!
