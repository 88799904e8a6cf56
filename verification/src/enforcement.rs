//! Device enforcement: which devices the policy-route mode redirects, and
//! with which addresses.

use vstd::prelude::*;
use crate::config::{AppConfig, DeviceRule, EnforcementMode};
use crate::text::str_equal;

verus! {

/// Enforcement of the device policy.
pub struct EnforcementOrchestrator;

/// The MAC address recorded for `ip` in the allowlist: that of the first
/// rule with this address, if it has one.
pub open spec fn allowlisted_mac(rules: Seq<DeviceRule>, ip: Seq<char>) -> Option<Seq<char>>
    decreases rules.len(),
{
    if rules.len() == 0 {
        None
    } else if rules[0].ip@ == ip {
        match rules[0].mac {
            Some(m) => Some(m@),
            None => None,
        }
    } else {
        allowlisted_mac(rules.drop_first(), ip)
    }
}

/// The MAC address of a rule, as text.
pub open spec fn rule_mac(r: DeviceRule) -> Option<Seq<char>> {
    match r.mac {
        Some(m) => Some(m@),
        None => None,
    }
}

proof fn lemma_first_match(rules: Seq<DeviceRule>, ip: Seq<char>, i: int)
    requires
        0 <= i < rules.len(),
        rules[i].ip@ == ip,
        forall|j: int| 0 <= j < i ==> (#[trigger] rules[j]).ip@ != ip,
    ensures
        allowlisted_mac(rules, ip) == rule_mac(rules[i]),
    decreases i,
{
    if i > 0 {
        assert(rules[0].ip@ != ip);
        let rest = rules.drop_first();
        assert forall|j: int| 0 <= j < i - 1 implies (#[trigger] rest[j]).ip@ != ip by {
            assert(rest[j] == rules[j + 1]);
        }
        lemma_first_match(rest, ip, i - 1);
    }
}

proof fn lemma_no_match(rules: Seq<DeviceRule>, ip: Seq<char>)
    requires
        forall|j: int| 0 <= j < rules.len() ==> (#[trigger] rules[j]).ip@ != ip,
    ensures
        allowlisted_mac(rules, ip) is None,
    decreases rules.len(),
{
    if rules.len() > 0 {
        assert(rules[0].ip@ != ip);
        let rest = rules.drop_first();
        assert forall|j: int| 0 <= j < rest.len() implies (#[trigger] rest[j]).ip@ != ip by {
            assert(rest[j] == rules[j + 1]);
        }
        lemma_no_match(rest, ip);
    }
}

/// Law: the MAC address found for a device is that of the first allowlist
/// rule whose address is the device's, and there is none when no rule has
/// that address; so a MAC address found always belongs to a rule for that
/// very address.
pub proof fn law_mac_of_own_rule(rules: Seq<DeviceRule>, ip: Seq<char>)
    ensures
        forall|i: int| 0 <= i < rules.len() && (#[trigger] rules[i]).ip@ == ip
            && (forall|j: int| 0 <= j < i ==> (#[trigger] rules[j]).ip@ != ip)
            ==> allowlisted_mac(rules, ip) == rule_mac(rules[i]),
        (forall|i: int| 0 <= i < rules.len() ==> (#[trigger] rules[i]).ip@ != ip) ==> allowlisted_mac(rules, ip) is None,
        forall|m: Seq<char>| #[trigger] allowlisted_mac(rules, ip) == Some(m)
            ==> exists|i: int| 0 <= i < rules.len() && (#[trigger] rules[i]).ip@ == ip && rule_mac(rules[i]) == Some(m),
{
    assert forall|i: int| 0 <= i < rules.len() && (#[trigger] rules[i]).ip@ == ip
        && (forall|j: int| 0 <= j < i ==> (#[trigger] rules[j]).ip@ != ip)
        implies allowlisted_mac(rules, ip) == rule_mac(rules[i]) by {
        lemma_first_match(rules, ip, i);
    }
    if forall|i: int| 0 <= i < rules.len() ==> (#[trigger] rules[i]).ip@ != ip {
        lemma_no_match(rules, ip);
    }
    assert forall|m: Seq<char>| #[trigger] allowlisted_mac(rules, ip) == Some(m)
        implies exists|i: int| 0 <= i < rules.len() && (#[trigger] rules[i]).ip@ == ip && rule_mac(rules[i]) == Some(m) by {
        if forall|i: int| 0 <= i < rules.len() ==> (#[trigger] rules[i]).ip@ != ip {
            lemma_no_match(rules, ip);
        } else {
            let k = choose|i: int| 0 <= i < rules.len() && (#[trigger] rules[i]).ip@ == ip;
            let first = lemma_least_match(rules, ip, k);
            lemma_first_match(rules, ip, first);
        }
    }
}

proof fn lemma_least_match(rules: Seq<DeviceRule>, ip: Seq<char>, k: int) -> (first: int)
    requires
        0 <= k < rules.len(),
        rules[k].ip@ == ip,
    ensures
        0 <= first <= k,
        rules[first].ip@ == ip,
        forall|j: int| 0 <= j < first ==> (#[trigger] rules[j]).ip@ != ip,
    decreases k,
{
    if exists|j: int| 0 <= j < k && (#[trigger] rules[j]).ip@ == ip {
        let j = choose|j: int| 0 <= j < k && (#[trigger] rules[j]).ip@ == ip;
        lemma_least_match(rules, ip, j)
    } else {
        k
    }
}

/// Looks up the MAC address recorded for `ip` in the allowlist.
pub fn mac_for(rules: &Vec<DeviceRule>, ip: &str) -> (r: Option<String>)
    ensures
        match r { Some(m) => Some(m@), None => None } == allowlisted_mac(rules@, ip@),
{
    let n = rules.len();
    let mut i: usize = 0;
    assert(rules@.subrange(0, n as int) =~= rules@);
    while i < n
        invariant
            n == rules@.len(),
            i <= n,
            allowlisted_mac(rules@, ip@) == allowlisted_mac(rules@.subrange(i as int, n as int), ip@),
        decreases n - i,
    {
        assert(rules@.subrange(i as int, n as int)[0] == rules@[i as int]);
        if str_equal(rules[i].ip.as_str(), ip) {
            return match &rules[i].mac {
                Some(m) => Some(m.clone()),
                None => None,
            };
        }
        assert(rules@.subrange(i as int, n as int).drop_first() =~= rules@.subrange(i + 1, n as int));
        i = i + 1;
    }
    None
}

/// The devices that the policy-route mode redirects: each target address,
/// with the MAC address the allowlist records for it.
pub open spec fn redirected_devices(c: AppConfig) -> Seq<(Seq<char>, Option<Seq<char>>)> {
    if c.enforcement.mode == EnforcementMode::PolicyRoute {
        c.enforcement.targets@.map_values(|t: String| (t@, allowlisted_mac(c.device_policy.allowlist@, t@)))
    } else {
        Seq::empty()
    }
}

/// Law: only the policy-route mode redirects devices; it redirects each
/// target in order, and the MAC address given for a target is that of an
/// allowlist rule for that very address (the first one), or none where no
/// rule names it.
pub proof fn law_redirected_devices(c: AppConfig)
    ensures
        c.enforcement.mode != EnforcementMode::PolicyRoute ==> redirected_devices(c).len() == 0,
        c.enforcement.mode == EnforcementMode::PolicyRoute ==> redirected_devices(c).len() == c.enforcement.targets@.len(),
        c.enforcement.mode == EnforcementMode::PolicyRoute ==> forall|i: int| 0 <= i < redirected_devices(c).len() ==> {
            let (ip, mac) = #[trigger] redirected_devices(c)[i];
            &&& ip == c.enforcement.targets@[i]@
            &&& (forall|m: Seq<char>| mac == Some(m) ==> exists|k: int| 0 <= k < c.device_policy.allowlist@.len()
                && (#[trigger] c.device_policy.allowlist@[k]).ip@ == ip && rule_mac(c.device_policy.allowlist@[k]) == Some(m))
            &&& ((forall|k: int| 0 <= k < c.device_policy.allowlist@.len() ==> (#[trigger] c.device_policy.allowlist@[k]).ip@ != ip)
                ==> mac is None)
        },
{
    if c.enforcement.mode == EnforcementMode::PolicyRoute {
        assert forall|i: int| 0 <= i < redirected_devices(c).len() implies {
            let (ip, mac) = #[trigger] redirected_devices(c)[i];
            &&& ip == c.enforcement.targets@[i]@
            &&& (forall|m: Seq<char>| mac == Some(m) ==> exists|k: int| 0 <= k < c.device_policy.allowlist@.len()
                && (#[trigger] c.device_policy.allowlist@[k]).ip@ == ip && rule_mac(c.device_policy.allowlist@[k]) == Some(m))
            &&& ((forall|k: int| 0 <= k < c.device_policy.allowlist@.len() ==> (#[trigger] c.device_policy.allowlist@[k]).ip@ != ip)
                ==> mac is None)
        } by {
            law_mac_of_own_rule(c.device_policy.allowlist@, c.enforcement.targets@[i]@);
        }
    }
}

impl EnforcementOrchestrator {
    /// The devices to redirect, in target order.
    pub fn devices(cfg: &AppConfig) -> (r: Vec<(String, Option<String>)>)
        ensures
            r@.len() == redirected_devices(*cfg).len(),
            forall|i: int| 0 <= i < r@.len() ==> {
                let (ip, mac) = #[trigger] r@[i];
                (ip@, match mac { Some(m) => Some(m@), None => None }) == redirected_devices(*cfg)[i]
            },
    {
        let mut r: Vec<(String, Option<String>)> = Vec::new();
        if cfg.enforcement.mode != EnforcementMode::PolicyRoute {
            return r;
        }
        let targets = &cfg.enforcement.targets;
        let mut i: usize = 0;
        while i < targets.len()
            invariant
                cfg.enforcement.mode == EnforcementMode::PolicyRoute,
                *targets == cfg.enforcement.targets,
                i <= targets@.len(),
                r@.len() == i,
                forall|j: int| 0 <= j < i ==> {
                    let (ip, mac) = #[trigger] r@[j];
                    (ip@, match mac { Some(m) => Some(m@), None => None }) == redirected_devices(*cfg)[j]
                },
            decreases targets@.len() - i,
        {
            let ip = targets[i].clone();
            let mac = mac_for(&cfg.device_policy.allowlist, ip.as_str());
            r.push((ip, mac));
            i = i + 1;
        }
        r
    }
}

} // verus!
