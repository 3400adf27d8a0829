//! Turning a provider's subscription into a configuration for the gateway that
//! tunnels everything and listens to nobody.
use vstd::prelude::*;

use crate::config::PrivateEgressConfig;
use crate::ipv4::Ipv4Address;
use crate::text::{has_prefix, has_suffix, same_text, str_texts};
use crate::yaml::{
    as_text, entry_trees, first_index, get, get_mut, insert, inserted, item_trees,
    lemma_first_index, lemma_is_first_index, lemma_retagged, lookup, mapping_tree,
    remove, remove_all, removed, removed_all, retagged, sequence_tree, untagged, well_formed,
    write_yaml, yaml_bytes, Yaml, YamlTree,
};

verus! {

/// Why a subscription cannot be turned into a gateway configuration.
#[derive(Debug)]
pub enum HardenError {
    /// The document is not a mapping.
    RootNotMapping,
    /// There is no list of proxy groups.
    NoProxyGroups,
    /// There is no proxy group of this name.
    NoGroup(String),
    /// The proxy group of this name has no list of proxies.
    NoProxies(String),
    /// The proxy group of this name does not offer the requested node.
    NoChoice(String),
    /// The hardened document cannot be written.
    Unwritable(serde_yaml_ng::Error),
}

/// A [`HardenError`] without what only its text shows.
pub ghost enum HardenFault {
    RootNotMapping,
    NoProxyGroups,
    NoGroup(Seq<char>),
    NoProxies(Seq<char>),
    NoChoice(Seq<char>),
    Unwritable,
}

impl View for HardenError {
    type V = HardenFault;

    open spec fn view(&self) -> HardenFault {
        match self {
            HardenError::RootNotMapping => HardenFault::RootNotMapping,
            HardenError::NoProxyGroups => HardenFault::NoProxyGroups,
            HardenError::NoGroup(name) => HardenFault::NoGroup(name@),
            HardenError::NoProxies(name) => HardenFault::NoProxies(name@),
            HardenError::NoChoice(name) => HardenFault::NoChoice(name@),
            HardenError::Unwritable(_) => HardenFault::Unwritable,
        }
    }
}

/// Which node of a proxy group is requested.
#[derive(Debug, Clone, Copy)]
pub enum Choice<'a> {
    /// The node of this name.
    Named(&'a str),
    /// The first node whose name starts with the one and ends with the other.
    Framed(&'a str, &'a str),
}

/// What a [`Choice`] asks for.
pub ghost enum NodeRule {
    Named(Seq<char>),
    Framed(Seq<char>, Seq<char>),
}

impl NodeRule {
    /// Whether a node of this name is the requested one.
    pub open spec fn accepts(self, name: Seq<char>) -> bool {
        match self {
            NodeRule::Named(wanted) => name == wanted,
            NodeRule::Framed(prefix, suffix) => prefix.is_prefix_of(name) && suffix.is_suffix_of(
                name,
            ),
        }
    }
}

impl<'a> View for Choice<'a> {
    type V = NodeRule;

    open spec fn view(&self) -> NodeRule {
        match self {
            Choice::Named(wanted) => NodeRule::Named(wanted@),
            Choice::Framed(prefix, suffix) => NodeRule::Framed(prefix@, suffix@),
        }
    }
}

impl<'a> Choice<'a> {
    fn matches(&self, name: &str) -> (r: bool)
        ensures
            r == self@.accepts(name@),
    {
        match self {
            Choice::Named(wanted) => same_text(name, wanted),
            Choice::Framed(prefix, suffix) => has_prefix(name, prefix) && has_suffix(name, suffix),
        }
    }
}

/// A string as a YAML document.
pub open spec fn text_tree(s: Seq<char>) -> YamlTree {
    YamlTree::Text(s)
}

/// A list of strings as a YAML document.
pub open spec fn text_list_tree(items: Seq<Seq<char>>) -> YamlTree {
    YamlTree::Sequence(Seq::new(items.len(), |i: int| YamlTree::Text(items[i])))
}

fn text(s: &str) -> (r: Yaml)
    ensures
        r.tree() == text_tree(s@),
{
    Yaml::Text(s.to_owned())
}

fn text_list(items: &[&str]) -> (r: Yaml)
    ensures
        r.tree() == text_list_tree(str_texts(items@)),
{
    let mut list: Vec<Yaml> = Vec::new();
    for i in 0..items.len()
        invariant
            list@.len() == i,
            forall|j: int| 0 <= j < i ==> (#[trigger] list@[j]).tree() == text_tree(items@[j]@),
    {
        list.push(text(items[i]));
    }
    proof {
        sequence_tree(list);
        assert(item_trees(list@) =~= Seq::new(
            items@.len(),
            |i: int| YamlTree::Text(str_texts(items@)[i]),
        ));
    }
    Yaml::Sequence(list)
}

/// The settings of the gateway's tunnel device: everything is routed through
/// it, strictly, and every DNS query is caught.
pub open spec fn tun_tree() -> YamlTree {
    YamlTree::Mapping(
        seq![
            (text_tree("enable"@), YamlTree::Bool(true)),
            (text_tree("device"@), text_tree("coop-egress"@)),
            (text_tree("stack"@), text_tree("mixed"@)),
            (text_tree("auto-route"@), YamlTree::Bool(true)),
            (text_tree("auto-redirect"@), YamlTree::Bool(true)),
            (text_tree("auto-detect-interface"@), YamlTree::Bool(true)),
            (text_tree("strict-route"@), YamlTree::Bool(true)),
            (text_tree("dns-hijack"@), text_list_tree(seq!["any:53"@, "tcp://any:53"@])),
        ],
    )
}

/// The settings of the gateway's tunnel device.
pub fn hardened_tun() -> (r: Yaml)
    ensures
        r.tree() == tun_tree(),
{
    let hijack: [&str; 2] = ["any:53", "tcp://any:53"];
    let mut tun: Vec<(Yaml, Yaml)> = Vec::new();
    tun.push((text("enable"), Yaml::Bool(true)));
    tun.push((text("device"), text("coop-egress")));
    tun.push((text("stack"), text("mixed")));
    tun.push((text("auto-route"), Yaml::Bool(true)));
    tun.push((text("auto-redirect"), Yaml::Bool(true)));
    tun.push((text("auto-detect-interface"), Yaml::Bool(true)));
    tun.push((text("strict-route"), Yaml::Bool(true)));
    tun.push((text("dns-hijack"), text_list(&hijack)));
    proof {
        assert(str_texts(hijack@) =~= seq!["any:53"@, "tcp://any:53"@]);
        mapping_tree(tun);
        assert(entry_trees(tun@) =~= tun_tree()->Mapping_0);
    }
    Yaml::Mapping(tun)
}

/// The gateway keeps the selected nodes over a restart, and no made-up
/// addresses.
pub open spec fn profile_tree() -> YamlTree {
    YamlTree::Mapping(
        seq![
            (text_tree("store-selected"@), YamlTree::Bool(true)),
            (text_tree("store-fake-ip"@), YamlTree::Bool(false)),
        ],
    )
}

/// What the gateway keeps over a restart.
pub fn profile_config() -> (r: Yaml)
    ensures
        r.tree() == profile_tree(),
{
    let mut profile: Vec<(Yaml, Yaml)> = Vec::new();
    profile.push((text("store-selected"), Yaml::Bool(true)));
    profile.push((text("store-fake-ip"), Yaml::Bool(false)));
    proof {
        mapping_tree(profile);
        assert(entry_trees(profile@) =~= profile_tree()->Mapping_0);
    }
    Yaml::Mapping(profile)
}

/// The DNS settings that a subscription may not bring.
pub open spec fn dropped_dns_keys() -> Seq<Seq<char>> {
    seq![
        "nameserver-policy"@,
        "fallback"@,
        "fallback-filter"@,
        "direct-nameserver"@,
        "direct-nameserver-follow-policy"@,
        "proxy-server-nameserver-policy"@,
    ]
}

/// The DNS settings of the gateway, made from those of the subscription: names
/// are resolved through the exit, and the provider's own servers through the
/// bootstrap resolver alone.
pub open spec fn dns_entries(
    entries: Seq<(YamlTree, YamlTree)>,
    exit_group: Seq<char>,
    bootstrap: Seq<char>,
) -> Seq<(YamlTree, YamlTree)> {
    let e0 = removed_all(entries, dropped_dns_keys());
    let e1 = inserted(e0, "enable"@, YamlTree::Bool(true));
    let e2 = inserted(e1, "ipv6"@, YamlTree::Bool(false));
    let e3 = inserted(e2, "listen"@, text_tree("0.0.0.0:53"@));
    let e4 = inserted(e3, "enhanced-mode"@, text_tree("redir-host"@));
    let e5 = inserted(e4, "use-system-hosts"@, YamlTree::Bool(false));
    let e6 = inserted(e5, "respect-rules"@, YamlTree::Bool(true));
    let e7 = inserted(e6, "default-nameserver"@, text_list_tree(seq![bootstrap]));
    let e8 = inserted(
        e7,
        "nameserver"@,
        text_list_tree(seq!["https://cloudflare-dns.com/dns-query#"@ + exit_group]),
    );
    inserted(e8, "proxy-server-nameserver"@, text_list_tree(seq![bootstrap + "#DIRECT"@]))
}

/// What stands under `dns` before it is hardened: the subscription's mapping,
/// or an empty one where it brings none.
pub open spec fn dns_base(root: Seq<(YamlTree, YamlTree)>) -> YamlTree {
    match lookup(root, "dns"@) {
        Some(dns) => if untagged(dns) is Mapping {
            dns
        } else {
            YamlTree::Mapping(seq![])
        },
        None => YamlTree::Mapping(seq![]),
    }
}

/// The hardened value of `dns`.
pub open spec fn dns_tree(
    root: Seq<(YamlTree, YamlTree)>,
    exit_group: Seq<char>,
    bootstrap: Seq<char>,
) -> YamlTree {
    let base = dns_base(root);
    retagged(
        base,
        YamlTree::Mapping(dns_entries(untagged(base)->Mapping_0, exit_group, bootstrap)),
    )
}

/// Hardens the entries under `dns`.
fn harden_dns_entries(
    map: &mut Vec<(Yaml, Yaml)>,
    exit_group: &str,
    bootstrap_dns: Ipv4Address,
)
    ensures
        entry_trees(final(map)@) == dns_entries(
            entry_trees(old(map)@),
            exit_group@,
            bootstrap_dns.text(),
        ),
{
    let dropped: [&str; 6] = [
        "nameserver-policy",
        "fallback",
        "fallback-filter",
        "direct-nameserver",
        "direct-nameserver-follow-policy",
        "proxy-server-nameserver-policy",
    ];
    proof {
        assert(str_texts(dropped@) =~= dropped_dns_keys());
    }
    remove_all(map, &dropped);
    insert(map, "enable", Yaml::Bool(true));
    insert(map, "ipv6", Yaml::Bool(false));
    insert(map, "listen", text("0.0.0.0:53"));
    insert(map, "enhanced-mode", text("redir-host"));
    insert(map, "use-system-hosts", Yaml::Bool(false));
    insert(map, "respect-rules", Yaml::Bool(true));
    let bootstrap = bootstrap_dns.to_text();
    let plain: [&str; 1] = [bootstrap.as_str()];
    proof {
        assert(str_texts(plain@) =~= seq![bootstrap_dns.text()]);
    }
    insert(map, "default-nameserver", text_list(&plain));
    let mut through_exit = "https://cloudflare-dns.com/dns-query#".to_owned();
    through_exit.append(exit_group);
    let nameserver: [&str; 1] = [through_exit.as_str()];
    proof {
        assert(str_texts(nameserver@) =~= seq![
            "https://cloudflare-dns.com/dns-query#"@ + exit_group@,
        ]);
    }
    insert(map, "nameserver", text_list(&nameserver));
    let mut direct = bootstrap_dns.to_text();
    direct.append("#DIRECT");
    let proxy_servers: [&str; 1] = [direct.as_str()];
    proof {
        assert(str_texts(proxy_servers@) =~= seq![bootstrap_dns.text() + "#DIRECT"@]);
    }
    insert(map, "proxy-server-nameserver", text_list(&proxy_servers));
}

/// Hardens the DNS settings of a subscription.
pub fn harden_dns(root: &mut Vec<(Yaml, Yaml)>, exit_group: &str, bootstrap_dns: Ipv4Address)
    ensures
        entry_trees(final(root)@) == inserted(
            entry_trees(old(root)@),
            "dns"@,
            dns_tree(entry_trees(old(root)@), exit_group@, bootstrap_dns.text()),
        ),
{
    let has_mapping: bool = match get(root, "dns") {
        Some(dns) => dns.as_mapping().is_some(),
        None => false,
    };
    if has_mapping {
        if let Some(dns) = get_mut(root, "dns") {
            if let Some(map) = dns.as_mapping_mut() {
                harden_dns_entries(map, exit_group, bootstrap_dns);
            }
        }
        return;
    }
    let mut map: Vec<(Yaml, Yaml)> = Vec::new();
    proof {
        assert(entry_trees(map@) =~= seq![]);
    }
    harden_dns_entries(&mut map, exit_group, bootstrap_dns);
    proof {
        mapping_tree(map);
    }
    insert(root, "dns", Yaml::Mapping(map));
}

/// The name of a proxy group.
pub open spec fn group_name(group: YamlTree) -> Option<Seq<char>> {
    match untagged(group) {
        YamlTree::Mapping(entries) => match lookup(entries, "name"@) {
            Some(name) => as_text(name),
            None => None,
        },
        _ => None,
    }
}

/// Whether a proxy group has this name.
pub open spec fn is_group(name: Seq<char>) -> spec_fn(YamlTree) -> bool {
    |group: YamlTree| group_name(group) == Some(name)
}

/// Whether an item of a list of proxies is the requested node.
pub open spec fn is_choice(rule: NodeRule) -> spec_fn(YamlTree) -> bool {
    |proxy: YamlTree|
        match as_text(proxy) {
            Some(name) => rule.accepts(name),
            None => false,
        }
}

/// A list with the item at `i` moved to its front.
pub open spec fn moved_to_front<T>(s: Seq<T>, i: int) -> Seq<T> {
    seq![s[i]] + s.remove(i)
}

/// The proxy groups after the requested node was moved to the front of the
/// first group of this name, and the name of that node.
pub open spec fn prioritized(groups: Seq<YamlTree>, name: Seq<char>, rule: NodeRule) -> Result<
    (Seq<YamlTree>, Seq<char>),
    HardenFault,
> {
    let g = first_index(groups, is_group(name));
    if g >= groups.len() {
        Err(HardenFault::NoGroup(name))
    } else {
        let entries = untagged(groups[g])->Mapping_0;
        match lookup(entries, "proxies"@) {
            Some(list) => match untagged(list) {
                YamlTree::Sequence(proxies) => {
                    let i = first_index(proxies, is_choice(rule));
                    if i >= proxies.len() {
                        Err(HardenFault::NoChoice(name))
                    } else {
                        let front = retagged(list, YamlTree::Sequence(moved_to_front(proxies, i)));
                        let group = retagged(
                            groups[g],
                            YamlTree::Mapping(inserted(entries, "proxies"@, front)),
                        );
                        Ok((groups.update(g, group), as_text(proxies[i])->0))
                    }
                },
                _ => Err(HardenFault::NoProxies(name)),
            },
            None => Err(HardenFault::NoProxies(name)),
        }
    }
}

/// Finds the first proxy group of this name.
fn find_group(groups: &Vec<Yaml>, name: &str) -> (r: Option<usize>)
    ensures
        match r {
            Some(g) => g < groups@.len() && g == first_index(
                item_trees(groups@),
                is_group(name@),
            ),
            None => first_index(item_trees(groups@), is_group(name@)) == groups@.len(),
        },
{
    let ghost trees = item_trees(groups@);
    for g in 0..groups.len()
        invariant
            trees == item_trees(groups@),
            forall|j: int| 0 <= j < g ==> !is_group(name@)(#[trigger] trees[j]),
    {
        if let Some(entries) = groups[g].as_mapping() {
            if let Some(value) = get(entries, "name") {
                if let Some(found) = value.as_str() {
                    if same_text(found, name) {
                        proof {
                            lemma_is_first_index(trees, is_group(name@), g as int);
                        }
                        return Some(g);
                    }
                }
            }
        }
    }
    proof {
        lemma_is_first_index(trees, is_group(name@), groups@.len() as int);
    }
    None
}

/// Finds the requested node in a list of proxies, and its name.
fn find_choice(proxies: &Vec<Yaml>, choice: Choice) -> (r: Option<(usize, String)>)
    ensures
        match r {
            Some((i, name)) => {
                &&& i < proxies@.len()
                &&& i == first_index(item_trees(proxies@), is_choice(choice@))
                &&& as_text(item_trees(proxies@)[i as int]) == Some(name@)
            },
            None => first_index(item_trees(proxies@), is_choice(choice@)) == proxies@.len(),
        },
{
    let ghost trees = item_trees(proxies@);
    for i in 0..proxies.len()
        invariant
            trees == item_trees(proxies@),
            forall|j: int| 0 <= j < i ==> !is_choice(choice@)(#[trigger] trees[j]),
    {
        if let Some(name) = proxies[i].as_str() {
            if choice.matches(name) {
                proof {
                    lemma_is_first_index(trees, is_choice(choice@), i as int);
                }
                return Some((i, name.to_owned()));
            }
        }
    }
    proof {
        lemma_is_first_index(trees, is_choice(choice@), proxies@.len() as int);
    }
    None
}

/// Moves the requested node to the front of a list of proxies, and gives its
/// name.
fn bring_to_front(proxies: &mut Vec<Yaml>, choice: Choice) -> (r: Option<String>)
    ensures
        ({
            let before = item_trees(old(proxies)@);
            let i = first_index(before, is_choice(choice@));
            match r {
                Some(name) => {
                    &&& i < before.len()
                    &&& item_trees(final(proxies)@) == moved_to_front(before, i)
                    &&& as_text(before[i]) == Some(name@)
                },
                None => i == before.len() && *final(proxies) == *old(proxies),
            }
        }),
{
    match find_choice(proxies, choice) {
        Some((i, name)) => {
            let ghost before = item_trees(proxies@);
            let value = proxies.remove(i);
            proxies.insert(0, value);
            proof {
                assert(item_trees(proxies@) =~= moved_to_front(before, i as int));
            }
            Some(name)
        },
        None => None,
    }
}

/// Moves the requested node to the front of the first proxy group of this
/// name, and gives the name of the node. Where that fails nothing is changed.
pub fn prioritize_choice(groups: &mut Vec<Yaml>, name: &str, choice: Choice) -> (r: Result<
    String,
    HardenError,
>)
    ensures
        match (r, prioritized(item_trees(old(groups)@), name@, choice@)) {
            (Ok(selected), Ok((after, wanted))) => selected@ == wanted && item_trees(
                final(groups)@,
            ) == after,
            (Err(error), Err(fault)) => error@ == fault && item_trees(final(groups)@)
                == item_trees(old(groups)@),
            _ => false,
        },
{
    let ghost held = groups@;
    let ghost trees = item_trees(groups@);
    proof {
        lemma_first_index(trees, is_group(name@));
    }
    let g: usize = match find_group(groups, name) {
        Some(g) => g,
        None => {
            return Err(HardenError::NoGroup(name.to_owned()));
        },
    };
    let group = &mut groups[g];
    let ghost group_tree = group.tree();
    proof {
        assert(trees[g as int] == group_tree);
        assert(item_trees(held.update(g as int, *final(group))) =~= trees.update(
            g as int,
            final(group).tree(),
        ));
        assert(trees.update(g as int, group_tree) =~= trees);
        lemma_retagged(group_tree, untagged(group_tree));
    }
    if let Some(entries) = group.as_mapping_mut() {
        let ghost before = entry_trees(entries@);
        proof {
            lemma_first_index(before, crate::yaml::has_text_key("proxies"@));
        }
        if let Some(list) = get_mut(entries, "proxies") {
            let ghost list_tree = list.tree();
            proof {
                lemma_retagged(list_tree, untagged(list_tree));
                assert(inserted(before, "proxies"@, list_tree) =~= before);
            }
            if let Some(proxies) = list.as_sequence_mut() {
                return match bring_to_front(proxies, choice) {
                    Some(selected) => Ok(selected),
                    None => Err(HardenError::NoChoice(name.to_owned())),
                };
            }
        }
    }
    Err(HardenError::NoProxies(name.to_owned()))
}

/// The settings with which a subscription would make the gateway listen, let
/// others in, or serve a page: none of them may stay.
pub open spec fn listener_keys() -> Seq<Seq<char>> {
    seq![
        "port"@,
        "socks-port"@,
        "redir-port"@,
        "tproxy-port"@,
        "mixed-port"@,
        "listeners"@,
        "authentication"@,
        "skip-auth-prefixes"@,
        "lan-allowed-ips"@,
        "lan-disallowed-ips"@,
        "external-ui"@,
        "external-ui-url"@,
        "external-ui-name"@,
    ]
}

/// The settings of the gateway that do not depend on the proxy groups, made
/// from those of the subscription.
pub open spec fn gateway_settings(
    entries: Seq<(YamlTree, YamlTree)>,
    secret: Seq<char>,
    exit_group: Seq<char>,
    bootstrap: Seq<char>,
) -> Seq<(YamlTree, YamlTree)> {
    let e0 = removed_all(entries, listener_keys());
    let e1 = inserted(e0, "mode"@, text_tree("global"@));
    let e2 = inserted(e1, "ipv6"@, YamlTree::Bool(false));
    let e3 = inserted(e2, "allow-lan"@, YamlTree::Bool(false));
    let e4 = inserted(e3, "bind-address"@, text_tree("127.0.0.1"@));
    let e5 = inserted(e4, "log-level"@, text_tree("warning"@));
    let e6 = inserted(e5, "external-controller"@, text_tree("127.0.0.1:9090"@));
    let e7 = inserted(e6, "secret"@, text_tree(secret));
    let e8 = inserted(e7, "tun"@, tun_tree());
    let e9 = inserted(e8, "dns"@, dns_tree(e8, exit_group, bootstrap));
    let e10 = inserted(e9, "profile"@, profile_tree());
    let e11 = removed(e10, "rule-providers"@);
    inserted(e11, "rules"@, text_list_tree(seq!["MATCH,DIRECT"@]))
}

/// The selectors that the gateway is to set: the entry, the exit, and the
/// exit's group for everything.
pub open spec fn selections_for(
    config: PrivateEgressConfig,
    entry: Seq<char>,
    exit: Seq<char>,
) -> Seq<(Seq<char>, Seq<char>)> {
    seq![
        (config.entry_group@, entry),
        (config.exit_group@, exit),
        ("GLOBAL"@, config.exit_group@),
    ]
}

/// The views of a list of selections.
pub open spec fn selection_texts(items: Seq<(String, String)>) -> Seq<(Seq<char>, Seq<char>)> {
    Seq::new(items.len(), |i: int| (items[i].0@, items[i].1@))
}

/// The requested entry node.
pub open spec fn entry_rule(config: PrivateEgressConfig) -> NodeRule {
    NodeRule::Named(config.entry_choice@)
}

/// The requested exit node.
pub open spec fn exit_rule(config: PrivateEgressConfig) -> NodeRule {
    NodeRule::Framed(config.exit_choice_prefix@, config.exit_choice_suffix@)
}

/// The gateway configuration that a subscription is turned into, and the
/// selections that go with it.
pub open spec fn hardened(
    root: YamlTree,
    config: PrivateEgressConfig,
    bootstrap: Seq<char>,
    secret: Seq<char>,
) -> Result<(YamlTree, Seq<(Seq<char>, Seq<char>)>), HardenFault> {
    match untagged(root) {
        YamlTree::Mapping(entries) => {
            let settings = gateway_settings(entries, secret, config.exit_group@, bootstrap);
            match lookup(settings, "proxy-groups"@) {
                Some(list) => match untagged(list) {
                    YamlTree::Sequence(groups) => match prioritized(
                        groups,
                        config.entry_group@,
                        entry_rule(config),
                    ) {
                        Ok((with_entry, entry)) => match prioritized(
                            with_entry,
                            config.exit_group@,
                            exit_rule(config),
                        ) {
                            Ok((with_exit, exit)) => {
                                let new_list = retagged(list, YamlTree::Sequence(with_exit));
                                let all = inserted(settings, "proxy-groups"@, new_list);
                                Ok(
                                    (
                                        retagged(root, YamlTree::Mapping(all)),
                                        selections_for(config, entry, exit),
                                    ),
                                )
                            },
                            Err(fault) => Err(fault),
                        },
                        Err(fault) => Err(fault),
                    },
                    _ => Err(HardenFault::NoProxyGroups),
                },
                None => Err(HardenFault::NoProxyGroups),
            }
        },
        _ => Err(HardenFault::RootNotMapping),
    }
}

/// Puts the settings of the gateway in place of those of the subscription.
fn force_settings(
    map: &mut Vec<(Yaml, Yaml)>,
    secret: &str,
    exit_group: &str,
    bootstrap_dns: Ipv4Address,
)
    ensures
        entry_trees(final(map)@) == gateway_settings(
            entry_trees(old(map)@),
            secret@,
            exit_group@,
            bootstrap_dns.text(),
        ),
{
    let listeners: [&str; 13] = [
        "port",
        "socks-port",
        "redir-port",
        "tproxy-port",
        "mixed-port",
        "listeners",
        "authentication",
        "skip-auth-prefixes",
        "lan-allowed-ips",
        "lan-disallowed-ips",
        "external-ui",
        "external-ui-url",
        "external-ui-name",
    ];
    proof {
        assert(str_texts(listeners@) =~= listener_keys());
    }
    remove_all(map, &listeners);
    insert(map, "mode", text("global"));
    insert(map, "ipv6", Yaml::Bool(false));
    insert(map, "allow-lan", Yaml::Bool(false));
    insert(map, "bind-address", text("127.0.0.1"));
    insert(map, "log-level", text("warning"));
    insert(map, "external-controller", text("127.0.0.1:9090"));
    insert(map, "secret", text(secret));
    insert(map, "tun", hardened_tun());
    harden_dns(map, exit_group, bootstrap_dns);
    insert(map, "profile", profile_config());
    remove(map, "rule-providers");
    let rules: [&str; 1] = ["MATCH,DIRECT"];
    proof {
        assert(str_texts(rules@) =~= seq!["MATCH,DIRECT"@]);
    }
    insert(map, "rules", text_list(&rules));
}

/// Turns a subscription into a gateway configuration, and selects the nodes.
pub fn harden_document(
    root: Yaml,
    config: &PrivateEgressConfig,
    bootstrap_dns: Ipv4Address,
    secret: &str,
) -> (r: Result<(Yaml, Vec<(String, String)>), HardenError>)
    ensures
        match (r, hardened(root.tree(), *config, bootstrap_dns.text(), secret@)) {
            (Ok((doc, selections)), Ok((tree, wanted))) => doc.tree() == tree && selection_texts(
                selections@,
            ) == wanted,
            (Err(error), Err(fault)) => error@ == fault,
            _ => false,
        },
{
    let mut root = root;
    let map = match root.as_mapping_mut() {
        Some(map) => map,
        None => {
            return Err(HardenError::RootNotMapping);
        },
    };
    force_settings(map, secret, config.exit_group.as_str(), bootstrap_dns);
    let list = match get_mut(map, "proxy-groups") {
        Some(list) => list,
        None => {
            return Err(HardenError::NoProxyGroups);
        },
    };
    let groups = match list.as_sequence_mut() {
        Some(groups) => groups,
        None => {
            return Err(HardenError::NoProxyGroups);
        },
    };
    let entry = match prioritize_choice(
        groups,
        config.entry_group.as_str(),
        Choice::Named(config.entry_choice.as_str()),
    ) {
        Ok(entry) => entry,
        Err(error) => {
            return Err(error);
        },
    };
    let exit = match prioritize_choice(
        groups,
        config.exit_group.as_str(),
        Choice::Framed(config.exit_choice_prefix.as_str(), config.exit_choice_suffix.as_str()),
    ) {
        Ok(exit) => exit,
        Err(error) => {
            return Err(error);
        },
    };
    let mut selections: Vec<(String, String)> = Vec::new();
    selections.push((config.entry_group.clone(), entry));
    selections.push((config.exit_group.clone(), exit));
    selections.push(("GLOBAL".to_owned(), config.exit_group.clone()));
    proof {
        assert(selection_texts(selections@) =~= selections_for(*config, entry@, exit@));
    }
    Ok((root, selections))
}

/// What the gateway VM is given.
#[derive(Debug)]
pub struct HardenedConfig {
    /// The configuration, written as YAML.
    pub yaml: Vec<u8>,
    /// The secret of the gateway's controller.
    pub secret: String,
    /// The selectors to set, each with its node.
    pub selections: Vec<(String, String)>,
}

/// Turns a subscription into the configuration that the gateway VM is given.
/// Which bytes are written is stated for subscriptions that are well-formed, as
/// every parsed one is.
pub fn harden_config(
    root: Yaml,
    config: &PrivateEgressConfig,
    bootstrap_dns: Ipv4Address,
    secret: String,
) -> (r: Result<HardenedConfig, HardenError>)
    ensures
        match hardened(root.tree(), *config, bootstrap_dns.text(), secret@) {
            Ok((tree, wanted)) => {
                &&& match r {
                    Ok(made) => made.secret@ == secret@ && selection_texts(made.selections@)
                        == wanted,
                    Err(error) => error@ == HardenFault::Unwritable,
                }
                &&& well_formed(root.tree()) ==> yaml_bytes(tree) == match r {
                    Ok(made) => Some(made.yaml@),
                    Err(_) => None,
                }
            },
            Err(fault) => r matches Err(error) && error@ == fault,
        },
{
    proof {
        if well_formed(root.tree()) && hardened(
            root.tree(),
            *config,
            bootstrap_dns.text(),
            secret@,
        ) is Ok {
            crate::harden_laws::hardening_keeps_documents_well_formed(
                root.tree(),
                *config,
                bootstrap_dns.text(),
                secret@,
            );
        }
    }
    match harden_document(root, config, bootstrap_dns, secret.as_str()) {
        Ok((doc, selections)) => match write_yaml(doc) {
            Ok(yaml) => Ok(HardenedConfig { yaml, secret, selections }),
            Err(error) => Err(HardenError::Unwritable(error)),
        },
        Err(error) => Err(error),
    }
}

/// The text of an error.
pub open spec fn harden_message(fault: HardenFault) -> Seq<char> {
    match fault {
        HardenFault::RootNotMapping => "Subscription YAML root must be a mapping"@,
        HardenFault::NoProxyGroups => "Subscription has no proxy-groups list"@,
        HardenFault::NoGroup(name) => "Subscription has no proxy group '"@ + name + "'"@,
        HardenFault::NoProxies(name) => "Proxy group '"@ + name + "' has no proxies list"@,
        HardenFault::NoChoice(name) => "Proxy group '"@ + name + "' has no requested choice"@,
        HardenFault::Unwritable => "Failed to serialize hardened Mihomo config"@,
    }
}

impl HardenError {
    /// The text of the error.
    pub fn message(&self) -> (s: String)
        ensures
            s@ == harden_message(self@),
    {
        match self {
            HardenError::RootNotMapping => "Subscription YAML root must be a mapping".to_owned(),
            HardenError::NoProxyGroups => "Subscription has no proxy-groups list".to_owned(),
            HardenError::NoGroup(name) => "Subscription has no proxy group '".to_owned().concat(
                name.as_str(),
            ).concat("'"),
            HardenError::NoProxies(name) => "Proxy group '".to_owned().concat(
                name.as_str(),
            ).concat("' has no proxies list"),
            HardenError::NoChoice(name) => "Proxy group '".to_owned().concat(
                name.as_str(),
            ).concat("' has no requested choice"),
            HardenError::Unwritable(_) => "Failed to serialize hardened Mihomo config".to_owned(),
        }
    }
}

} // verus!
