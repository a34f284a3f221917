//! The firewall-based website blocker: the domains it blocks, whether it is
//! active, and the firewall rules it installs.
use vstd::prelude::*;

use crate::focus::views_of_strings;
use crate::keyed::KeyedList;
use crate::text::{
    chars_of, concat_chars, decimal, decimal_string, lit_then, split_char, split_on_char,
    strip_leading_seq, strip_leading_seq_chars, string_of, views,
};

verus! {

/// The domain a blocked address names: without a leading "http://" and
/// then "https://" (each removed as often as it repeats), up to the first
/// '/', and without a port.
pub open spec fn domain_of(url: Seq<char>) -> Seq<char> {
    let rest = strip_leading_seq(strip_leading_seq(url, "http://"@), "https://"@);
    split_char(split_char(rest, '/')[0], ':')[0]
}

/// Blocks websites by firewall rules on their addresses.
pub struct FirewallWebsiteBlocker {
    blocked_domains: KeyedList<bool>,
    blocking_active: bool,
}

impl FirewallWebsiteBlocker {
    /// The domains currently blocked.
    pub closed spec fn domains(&self) -> Set<Seq<char>> {
        self.blocked_domains.as_map().dom()
    }

    /// Whether blocking is active.
    pub closed spec fn active(&self) -> bool {
        self.blocking_active
    }

    /// A blocker with no domains, not active.
    pub fn new() -> (res: Self)
        ensures
            res.domains() == Set::<Seq<char>>::empty(),
            !res.active(),
    {
        let res = FirewallWebsiteBlocker { blocked_domains: KeyedList::new(), blocking_active: false };
        assert(res.domains() =~= Set::<Seq<char>>::empty());
        res
    }

    /// The domain that a blocked address names.
    pub fn extract_domain(&self, url: &str) -> (res: String)
        ensures
            res@ == domain_of(url@),
    {
        let u = chars_of(url);
        proof {
            reveal_strlit("http://");
            reveal_strlit("https://");
        }
        let a = strip_leading_seq_chars(&u, &chars_of("http://"));
        let b = strip_leading_seq_chars(&a, &chars_of("https://"));
        let path = split_on_char(&b, '/');
        assert(views(path@)[0] == path@[0]@);
        let host = split_on_char(&path[0], ':');
        assert(views(host@)[0] == host@[0]@);
        string_of(&host[0])
    }

    /// Starts blocking the domains of `urls`: they replace the blocked
    /// domains, and are returned in order for the firewall rules. Blocking
    /// counts as active once the rules are in place (`mark_blocking_started`).
    pub fn start_website_blocking(&mut self, urls: &Vec<String>) -> (res: Vec<String>)
        ensures
            res@.len() == urls@.len(),
            forall|i: int| 0 <= i < urls@.len() ==> (#[trigger] res@[i])@ == domain_of(urls@[i]@),
            final(self).domains() == Set::new(
                |d: Seq<char>| exists|i: int| 0 <= i < urls@.len() && domain_of(#[trigger] urls@[i]@) == d,
            ),
            final(self).active() == old(self).active(),
    {
        let mut domains: Vec<String> = Vec::new();
        let mut set: KeyedList<bool> = KeyedList::new();
        let mut i: usize = 0;
        while i < urls.len()
            invariant
                i <= urls@.len(),
                domains@.len() == i,
                forall|k: int| 0 <= k < i ==> (#[trigger] domains@[k])@ == domain_of(urls@[k]@),
                set.as_map().dom() == Set::new(
                    |d: Seq<char>| exists|k: int| 0 <= k < i && domain_of(#[trigger] urls@[k]@) == d,
                ),
            decreases urls@.len() - i,
        {
            let d = self.extract_domain(urls[i].as_str());
            let ghost before = set.as_map().dom();
            set.insert(d.clone(), true);
            domains.push(d);
            assert(set.as_map().dom() =~= Set::new(
                |x: Seq<char>| exists|k: int| 0 <= k < i + 1 && domain_of(#[trigger] urls@[k]@) == x,
            )) by {
                assert forall|x: Seq<char>| set.as_map().dom().contains(x) implies exists|k: int|
                    0 <= k < i + 1 && domain_of(#[trigger] urls@[k]@) == x by {
                    if x != d@ {
                        assert(before.contains(x));
                    }
                }
            }
            i = i + 1;
        }
        self.blocked_domains = set;
        domains
    }

    /// Records that the firewall rules are in place.
    pub fn mark_blocking_started(&mut self)
        ensures
            final(self).active(),
            final(self).domains() == old(self).domains(),
    {
        self.blocking_active = true;
    }

    /// Stops blocking, given the outcome of removing the firewall rules of
    /// the blocked domains: when removing them failed, that error is returned
    /// and the state is kept; otherwise no domain is blocked any more and
    /// blocking is inactive.
    pub fn stop_website_blocking(&mut self, removed: Result<(), String>) -> (res: Result<(), String>)
        ensures
            match removed {
                Err(e) => res == Err::<(), String>(e) && final(self).domains() == old(self).domains()
                    && final(self).active() == old(self).active(),
                Ok(_) => res is Ok && final(self).domains() == Set::<Seq<char>>::empty()
                    && !final(self).active(),
            },
    {
        match removed {
            Err(e) => Err(e),
            Ok(()) => {
                self.blocked_domains = KeyedList::new();
                self.blocking_active = false;
                Ok(())
            },
        }
    }

    /// Whether blocking is active.
    pub fn is_blocking(&self) -> (res: bool)
        ensures
            res == self.active(),
    {
        self.blocking_active
    }

    /// The packet-filter rules that block outgoing traffic to `ips`.
    pub fn generate_pfctl_rules(&self, ips: &Vec<String>) -> (res: String)
        ensures
            res@ == pfctl_rules(views_of_strings(ips@)),
    {
        let mut v = chars_of(
            "# Velosi Website Blocker Rules\n# Block outgoing connections to specified IPs\n\n",
        );
        let mut i: usize = 0;
        while i < ips.len()
            invariant
                i <= ips@.len(),
                v@ == pfctl_rules(views_of_strings(ips@).take(i as int)),
            decreases ips@.len() - i,
        {
            assert(views_of_strings(ips@).take(i + 1).drop_last() =~= views_of_strings(ips@).take(
                i as int,
            ));
            assert(views_of_strings(ips@)[i as int] == ips@[i as int]@);
            let line = lit_then("block out quick to ", &chars_of(ips[i].as_str()));
            let line = concat_chars(&line, &chars_of("\n"));
            v = concat_chars(&v, &line);
            i = i + 1;
            assert(v@ =~= pfctl_rules(views_of_strings(ips@).take(i as int)));
        }
        assert(views_of_strings(ips@).take(i as int) =~= views_of_strings(ips@));
        string_of(&v)
    }
}

/// The packet-filter rules for the given addresses: a header, then one
/// blocking line per address.
pub open spec fn pfctl_rules(ips: Seq<Seq<char>>) -> Seq<char>
    decreases ips.len(),
{
    if ips.len() == 0 {
        "# Velosi Website Blocker Rules\n# Block outgoing connections to specified IPs\n\n"@
    } else {
        pfctl_rules(ips.drop_last()) + "block out quick to "@ + ips.last() + "\n"@
    }
}

/// The `netsh` arguments of the `i`-th Windows rule, which blocks `ip`.
pub fn windows_block_rule_args(i: u64, ip: &str) -> (res: Vec<String>)
    ensures
        views_of_strings(res@) == seq![
            "advfirewall"@,
            "firewall"@,
            "add"@,
            "rule"@,
            "name=Velosi_Block_"@ + decimal(i as nat),
            "dir=out"@,
            "action=block"@,
            "remoteip="@ + ip@,
        ],
{
    let mut v: Vec<String> = Vec::new();
    v.push(String::from_str("advfirewall"));
    v.push(String::from_str("firewall"));
    v.push(String::from_str("add"));
    v.push(String::from_str("rule"));
    v.push(string_of(&lit_then("name=Velosi_Block_", &chars_of(decimal_string(i).as_str()))));
    v.push(String::from_str("dir=out"));
    v.push(String::from_str("action=block"));
    v.push(string_of(&lit_then("remoteip=", &chars_of(ip))));
    assert(views_of_strings(v@) =~= seq![
        "advfirewall"@,
        "firewall"@,
        "add"@,
        "rule"@,
        "name=Velosi_Block_"@ + decimal(i as nat),
        "dir=out"@,
        "action=block"@,
        "remoteip="@ + ip@,
    ]);
    v
}

/// The `iptables` arguments of the rule that rejects traffic to `ip`.
pub fn linux_block_rule_args(ip: &str) -> (res: Vec<String>)
    ensures
        views_of_strings(res@) == seq![
            "-A"@,
            "OUTPUT"@,
            "-d"@,
            ip@,
            "-j"@,
            "REJECT"@,
            "-m"@,
            "comment"@,
            "--comment"@,
            "Velosi website block"@,
        ],
{
    let mut v: Vec<String> = Vec::new();
    v.push(String::from_str("-A"));
    v.push(String::from_str("OUTPUT"));
    v.push(String::from_str("-d"));
    v.push(String::from_str(ip));
    v.push(String::from_str("-j"));
    v.push(String::from_str("REJECT"));
    v.push(String::from_str("-m"));
    v.push(String::from_str("comment"));
    v.push(String::from_str("--comment"));
    v.push(String::from_str("Velosi website block"));
    assert(views_of_strings(v@) =~= seq![
        "-A"@,
        "OUTPUT"@,
        "-d"@,
        ip@,
        "-j"@,
        "REJECT"@,
        "-m"@,
        "comment"@,
        "--comment"@,
        "Velosi website block"@,
    ]);
    v
}

} // verus!
