//! The macOS backend: pf anchor files. The operator side (reading the
//! default interface, writing the files, loading the anchor) runs step by
//! step; this module decides what is written and run.

use vstd::prelude::*;
use crate::command::{texts, CommandSpec};
use crate::config::AppConfig;
use crate::text::{contains, decimal, decimal_text, join_path, joined, str_equal, PathStyle};

verus! {

/// The gateway rules file, the policy rules file, and the combined anchor
/// (macOS paths).
pub fn anchor_paths(cfg: &AppConfig) -> (r: (String, String, String))
    ensures
        r.0@ == joined(cfg.runtime.work_dir@, "pf.gateway.conf"@, PathStyle::Unix),
        r.1@ == joined(cfg.runtime.work_dir@, "pf.policy.conf"@, PathStyle::Unix),
        r.2@ == joined(cfg.runtime.work_dir@, "pf.anchor.conf"@, PathStyle::Unix),
{
    let dir = cfg.runtime.work_dir.as_str();
    (join_path(dir, "pf.gateway.conf", PathStyle::Unix), join_path(dir, "pf.policy.conf", PathStyle::Unix), join_path(dir, "pf.anchor.conf", PathStyle::Unix))
}

/// The command that prints the default route's interface.
pub fn detect_interface_command() -> (c: CommandSpec)
    ensures
        c.spec_parts() == ("sh"@, seq!["-c"@, "route -n get default | awk '/interface:/{print $2}'"@]),
{
    let mut args: Vec<String> = Vec::new();
    args.push("-c".to_owned());
    args.push("route -n get default | awk '/interface:/{print $2}'".to_owned());
    let c = CommandSpec { program: "sh".to_owned(), args };
    assert(texts(c.args@) =~= seq!["-c"@, "route -n get default | awk '/interface:/{print $2}'"@]);
    c
}

/// The NAT rule of the LAN range on `iface`.
pub open spec fn pf_nat_rule(c: AppConfig, iface: Seq<char>) -> Seq<char> {
    "nat on "@ + iface + " from "@ + c.gateway.lan_cidr@ + " to any -> ("@ + iface + ")"@
}

/// The DNS redirection of `source` on `iface` to the engine's DNS port.
pub open spec fn pf_dns_rule(c: AppConfig, iface: Seq<char>, source: Seq<char>) -> Seq<char> {
    "rdr pass on "@ + iface + " inet proto { tcp udp } from "@ + source + " to any port 53 -> 127.0.0.1 port "@
        + decimal(c.inbound.dns_port as nat)
}

/// The TCP redirection of `ip` on `iface` to the engine's redirect port.
pub open spec fn pf_tcp_rule(c: AppConfig, iface: Seq<char>, ip: Seq<char>) -> Seq<char> {
    "rdr pass on "@ + iface + " inet proto tcp from "@ + ip + " to any -> 127.0.0.1 port "@
        + decimal(c.inbound.redir_port as nat)
}

/// The gateway rules file: the NAT and DNS rules when NAT is enabled, one
/// per line.
pub open spec fn gateway_rules_text(c: AppConfig, iface: Seq<char>) -> Seq<char> {
    if c.gateway.auto_nat {
        pf_nat_rule(c, iface) + "\n"@ + pf_dns_rule(c, iface, c.gateway.lan_cidr@) + "\n"@
    } else {
        "\n"@
    }
}

/// The text of the gateway rules file.
pub fn gateway_rules(cfg: &AppConfig, iface: &str) -> (r: String)
    ensures
        r@ == gateway_rules_text(*cfg, iface@),
{
    if cfg.gateway.auto_nat {
        let mut r = "nat on ".to_owned();
        r.append(iface);
        r.append(" from ");
        r.append(cfg.gateway.lan_cidr.as_str());
        r.append(" to any -> (");
        r.append(iface);
        r.append(")");
        r.append("\n");
        r.append("rdr pass on ");
        r.append(iface);
        r.append(" inet proto { tcp udp } from ");
        r.append(cfg.gateway.lan_cidr.as_str());
        r.append(" to any port 53 -> 127.0.0.1 port ");
        r.append(decimal_text(cfg.inbound.dns_port as u64).as_str());
        r.append("\n");
        assert(r@ =~= gateway_rules_text(*cfg, iface@));
        r
    } else {
        "\n".to_owned()
    }
}

/// The two redirection rules for one device.
pub fn policy_rules(cfg: &AppConfig, iface: &str, ip: &str) -> (r: Vec<String>)
    ensures
        texts(r@) == seq![pf_tcp_rule(*cfg, iface@, ip@), pf_dns_rule(*cfg, iface@, ip@)],
{
    let mut tcp = "rdr pass on ".to_owned();
    tcp.append(iface);
    tcp.append(" inet proto tcp from ");
    tcp.append(ip);
    tcp.append(" to any -> 127.0.0.1 port ");
    tcp.append(decimal_text(cfg.inbound.redir_port as u64).as_str());
    let mut dns = "rdr pass on ".to_owned();
    dns.append(iface);
    dns.append(" inet proto { tcp udp } from ");
    dns.append(ip);
    dns.append(" to any port 53 -> 127.0.0.1 port ");
    dns.append(decimal_text(cfg.inbound.dns_port as u64).as_str());
    let mut r: Vec<String> = Vec::new();
    r.push(tcp);
    r.push(dns);
    assert(texts(r@) =~= seq![pf_tcp_rule(*cfg, iface@, ip@), pf_dns_rule(*cfg, iface@, ip@)]);
    r
}

/// Whether `needle` occurs in `hay`.
pub fn text_contains(hay: &str, needle: &str) -> (r: bool)
    ensures
        r == contains(hay@, needle@),
{
    let n = hay.unicode_len();
    let m = needle.unicode_len();
    if m > n {
        assert(!contains(hay@, needle@));
        return false;
    }
    let last = n - m;
    let mut i: usize = 0;
    loop
        invariant
            n == hay@.len(),
            m == needle@.len(),
            m <= n,
            last == n - m,
            i <= last,
            forall|j: int| 0 <= j < i ==> #[trigger] hay@.subrange(j, j + needle@.len()) != needle@,
        ensures
            forall|j: int| 0 <= j <= last ==> #[trigger] hay@.subrange(j, j + needle@.len()) != needle@,
        decreases last - i,
    {
        if str_equal(hay.substring_char(i, i + m), needle) {
            assert(hay@.subrange(i as int, i + needle@.len()) == needle@);
            return true;
        }
        if i == last {
            break;
        }
        i = i + 1;
    }
    assert forall|j: int| 0 <= j && j + needle@.len() <= hay@.len() implies #[trigger] hay@.subrange(j, j + needle@.len()) != needle@ by {
        assert(j <= last);
    }
    false
}

/// `s` with every `/` written as `\/`, as a `sed` address needs.
pub open spec fn escape_slashes(s: Seq<char>) -> Seq<char>
    decreases s.len(),
{
    if s.len() == 0 {
        Seq::empty()
    } else {
        escape_slashes(s.drop_last()) + if s.last() == '/' { seq!['\\', '/'] } else { seq![s.last()] }
    }
}

/// `s` with every `/` written as `\/`.
pub fn escaped_slashes(s: &str) -> (r: String)
    ensures
        r@ == escape_slashes(s@),
{
    proof {
        reveal_strlit("\\/");
        assert("\\/"@ =~= seq!['\\', '/']);
    }
    let n = s.unicode_len();
    let mut r = String::new();
    let mut i: usize = 0;
    while i < n
        invariant
            n == s@.len(),
            i <= n,
            r@ == escape_slashes(s@.subrange(0, i as int)),
        decreases n - i,
    {
        let c = s.get_char(i);
        let ghost before = r@;
        if c == '/' {
            r.append("\\/");
            proof {
                reveal_strlit("\\/");
                assert("\\/"@ =~= seq!['\\', '/']);
            }
        } else {
            let one = s.substring_char(i, i + 1);
            assert(one@ =~= seq![c]);
            r.append(one);
        }
        assert(s@.subrange(0, i + 1).drop_last() =~= s@.subrange(0, i as int));
        assert(s@.subrange(0, i + 1).last() == c);
        i = i + 1;
    }
    assert(s@.subrange(0, n as int) =~= s@);
    r
}

/// The command that deletes a rule line from the policy rules file.
pub open spec fn sed_delete(rule: Seq<char>, path: Seq<char>) -> Seq<char> {
    "sed -i '' '/"@ + escape_slashes(rule) + "/d' "@ + path
}

/// Adding rule `r` to the policy text `e` unless it is already there: the
/// new text and the rollback command, if one is owed.
pub open spec fn merge_one(e: Seq<char>, r: Seq<char>, path: Seq<char>) -> (Seq<char>, Seq<Seq<char>>) {
    if contains(e, r) {
        (e, Seq::empty())
    } else {
        (e + r + "\n"@, seq![sed_delete(r, path)])
    }
}

/// Adding the first `k` rules in order: the policy text and the rollback
/// commands of the rules that were added.
pub open spec fn merge_upto(e: Seq<char>, rules: Seq<Seq<char>>, path: Seq<char>, k: nat) -> (Seq<char>, Seq<Seq<char>>)
    decreases k,
{
    if k == 0 {
        (e, Seq::empty())
    } else {
        let prev = merge_upto(e, rules, path, (k - 1) as nat);
        let one = merge_one(prev.0, rules[k - 1], path);
        (one.0, prev.1 + one.1)
    }
}

/// Adds the policy rules that the policy file `existing` lacks, in order;
/// returns the new text and the `sed` commands that remove what was added.
pub fn merge_policy_rules(existing: String, rules: &Vec<String>, policy_path: &str) -> (r: (String, Vec<String>))
    ensures
        (r.0@, texts(r.1@)) == merge_upto(existing@, texts(rules@), policy_path@, rules@.len()),
{
    let ghost rv = texts(rules@);
    let mut text = existing;
    let mut rollbacks: Vec<String> = Vec::new();
    let mut i: usize = 0;
    while i < rules.len()
        invariant
            i <= rules@.len(),
            rv == texts(rules@),
            (text@, texts(rollbacks@)) == merge_upto(existing@, rv, policy_path@, i as nat),
        decreases rules@.len() - i,
    {
        let rule = rules[i].as_str();
        assert(rv[i as int] == rule@);
        if !text_contains(text.as_str(), rule) {
            text.append(rule);
            text.append("\n");
            let mut cmd = "sed -i '' '/".to_owned();
            cmd.append(escaped_slashes(rule).as_str());
            cmd.append("/d' ");
            cmd.append(policy_path);
            let ghost before = texts(rollbacks@);
            rollbacks.push(cmd);
            assert(texts(rollbacks@) =~= before + seq![sed_delete(rule@, policy_path@)]);
        } else {
            assert(texts(rollbacks@) =~= texts(rollbacks@) + Seq::<Seq<char>>::empty());
        }
        i = i + 1;
    }
    (text, rollbacks)
}

proof fn lemma_contains_extend(h: Seq<char>, x: Seq<char>, n: Seq<char>)
    requires
        contains(h, n),
    ensures
        contains(h + x, n),
{
    let i = choose|i: int| 0 <= i && i + n.len() <= h.len() && #[trigger] h.subrange(i, i + n.len()) == n;
    assert((h + x).subrange(i, i + n.len()) =~= h.subrange(i, i + n.len()));
}

proof fn lemma_contains_appended(h: Seq<char>, r: Seq<char>, x: Seq<char>)
    ensures
        contains(h + r + x, r),
{
    let i = h.len() as int;
    assert((h + r + x).subrange(i, i + r.len()) =~= r);
}

proof fn lemma_merge_covers(e: Seq<char>, rules: Seq<Seq<char>>, path: Seq<char>, k: nat)
    requires
        k <= rules.len(),
    ensures
        forall|j: int| 0 <= j < k ==> contains(merge_upto(e, rules, path, k).0, #[trigger] rules[j]),
        merge_upto(e, rules, path, k).0.subrange(0, e.len() as int) == e,
        merge_upto(e, rules, path, k).0.len() >= e.len(),
    decreases k,
{
    if k > 0 {
        lemma_merge_covers(e, rules, path, (k - 1) as nat);
        let prev = merge_upto(e, rules, path, (k - 1) as nat).0;
        let r = rules[k - 1];
        if !contains(prev, r) {
            assert forall|j: int| 0 <= j < k implies contains(prev + r + "\n"@, #[trigger] rules[j]) by {
                if j < k - 1 {
                    lemma_contains_extend(prev, r + "\n"@, rules[j]);
                    assert(prev + r + "\n"@ =~= prev + (r + "\n"@));
                } else {
                    lemma_contains_appended(prev, r, "\n"@);
                }
            }
            assert((prev + r + "\n"@).subrange(0, e.len() as int) =~= prev.subrange(0, e.len() as int));
        }
    }
}

proof fn lemma_merge_present(e: Seq<char>, rules: Seq<Seq<char>>, path: Seq<char>, k: nat)
    requires
        k <= rules.len(),
        forall|j: int| 0 <= j < rules.len() ==> contains(e, #[trigger] rules[j]),
    ensures
        merge_upto(e, rules, path, k) == (e, Seq::<Seq<char>>::empty()),
    decreases k,
{
    if k > 0 {
        lemma_merge_present(e, rules, path, (k - 1) as nat);
        assert(contains(e, rules[k - 1]));
        assert(Seq::<Seq<char>>::empty() + Seq::<Seq<char>>::empty() =~= Seq::<Seq<char>>::empty());
    }
}

/// Law: after merging, the policy text holds every rule and still begins
/// with the old text; merging the same rules again changes nothing and owes
/// no rollback.
pub proof fn law_merge_idempotent(e: Seq<char>, rules: Seq<Seq<char>>, path: Seq<char>)
    ensures
        ({
            let once = merge_upto(e, rules, path, rules.len());
            &&& forall|j: int| 0 <= j < rules.len() ==> contains(once.0, #[trigger] rules[j])
            &&& once.0.subrange(0, e.len() as int) == e
            &&& merge_upto(once.0, rules, path, rules.len()) == (once.0, Seq::<Seq<char>>::empty())
        }),
{
    lemma_merge_covers(e, rules, path, rules.len());
    let once = merge_upto(e, rules, path, rules.len());
    lemma_merge_present(once.0, rules, path, rules.len());
}

/// The command that turns pf on.
pub fn pf_enable_command() -> (c: CommandSpec)
    ensures
        c.spec_parts() == ("pfctl"@, seq!["-E"@]),
{
    let mut args: Vec<String> = Vec::new();
    args.push("-E".to_owned());
    let c = CommandSpec { program: "pfctl".to_owned(), args };
    assert(texts(c.args@) =~= seq!["-E"@]);
    c
}

/// The command that loads the combined anchor.
pub fn pf_load_command(combined: &str) -> (c: CommandSpec)
    ensures
        c.spec_parts() == ("pfctl"@, seq!["-a"@, "com.omnilan"@, "-f"@, combined@]),
{
    let mut args: Vec<String> = Vec::new();
    args.push("-a".to_owned());
    args.push("com.omnilan".to_owned());
    args.push("-f".to_owned());
    args.push(combined.to_owned());
    let c = CommandSpec { program: "pfctl".to_owned(), args };
    assert(texts(c.args@) =~= seq!["-a"@, "com.omnilan"@, "-f"@, combined@]);
    c
}

/// The command that flushes the anchor, undoing the gateway.
pub fn pf_flush_rollback() -> (r: String)
    ensures
        r@ == "pfctl -a com.omnilan -F all"@,
{
    "pfctl -a com.omnilan -F all".to_owned()
}

/// The note that the anchor was loaded.
pub fn anchor_note(combined: &str, iface: &str) -> (r: String)
    ensures
        r@ == "pf anchor loaded: "@ + combined@ + " (iface="@ + iface@ + ")"@,
{
    let mut r = "pf anchor loaded: ".to_owned();
    r.append(combined);
    r.append(" (iface=");
    r.append(iface);
    r.append(")");
    r
}

/// The note that a MAC address is not matched by pf.
pub fn mac_ignored_note(ip: &str) -> (r: String)
    ensures
        r@ == "macOS pf backend ignores MAC matching for "@ + ip@ + ", using IP-based policy"@,
{
    let mut r = "macOS pf backend ignores MAC matching for ".to_owned();
    r.append(ip);
    r.append(", using IP-based policy");
    r
}

/// The note that a device's policy was applied.
pub fn policy_applied_note(ip: &str) -> (r: String)
    ensures
        r@ == "policy-route applied via pf for "@ + ip@,
{
    let mut r = "policy-route applied via pf for ".to_owned();
    r.append(ip);
    r
}

} // verus!
