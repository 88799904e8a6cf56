//! The Linux backend: `sysctl` and `iptables` NAT rules run through `sh -c`.

use vstd::prelude::*;
use crate::command::{shell, shell_parts};
use crate::config::AppConfig;
use crate::plan::{action_of, replay, start, step_views, transition, ActionView, ApplyPlan, Outcome, PlanStep, RunState, StepView};
use crate::text::{decimal, decimal_text};

verus! {

/// A NAT-table rule with the given body: checked with `-C`, added with
/// `-A`, removed with `-D`, each through `sh -c`.
pub open spec fn rule_view(body: Seq<char>) -> StepView {
    StepView::EnsureRule {
        check: shell_parts("iptables -t nat -C "@ + body),
        add: shell_parts("iptables -t nat -A "@ + body),
        rollback: "iptables -t nat -D "@ + body,
        lenient: false,
    }
}

/// Masquerading of a LAN range.
pub open spec fn nat_body(cidr: Seq<char>) -> Seq<char> {
    "POSTROUTING -s "@ + cidr + " -j MASQUERADE"@
}

/// Redirection of DNS queries over `proto` from `source` to the engine.
pub open spec fn dns_body(source: Seq<char>, proto: Seq<char>, dns_port: u16) -> Seq<char> {
    "PREROUTING "@ + source + " -p "@ + proto + " --dport 53 -j REDIRECT --to-ports "@ + decimal(dns_port as nat)
}

/// Redirection of TCP traffic from `source` to the engine.
pub open spec fn tcp_body(source: Seq<char>, redir_port: u16) -> Seq<char> {
    "PREROUTING "@ + source + " -p tcp -j REDIRECT --to-ports "@ + decimal(redir_port as nat)
}

/// A source address match.
pub open spec fn ip_source(ip: Seq<char>) -> Seq<char> {
    "-s "@ + ip
}

/// A source MAC match.
pub open spec fn mac_source(mac: Seq<char>) -> Seq<char> {
    "-m mac --mac-source "@ + mac
}

/// The three rules that send a source's TCP and DNS traffic to the engine.
pub open spec fn redirect_rules(source: Seq<char>, c: AppConfig) -> Seq<StepView> {
    seq![
        rule_view(tcp_body(source, c.inbound.redir_port)),
        rule_view(dns_body(source, "udp"@, c.inbound.dns_port)),
        rule_view(dns_body(source, "tcp"@, c.inbound.dns_port)),
    ]
}

/// The steps of the Linux gateway: forwarding, then masquerading and DNS
/// redirection of the LAN range.
pub open spec fn linux_gateway_steps(c: AppConfig) -> Seq<StepView> {
    let cidr = c.gateway.lan_cidr@;
    (if c.gateway.auto_ip_forward {
        seq![StepView::Run {
            command: shell_parts("sysctl -w net.ipv4.ip_forward=1"@),
            rollback: Some("sysctl -w net.ipv4.ip_forward=0"@),
        }]
    } else {
        Seq::empty()
    }) + (if c.gateway.auto_nat {
        seq![
            rule_view(nat_body(cidr)),
            rule_view(dns_body(ip_source(cidr), "udp"@, c.inbound.dns_port)),
            rule_view(dns_body(ip_source(cidr), "tcp"@, c.inbound.dns_port)),
        ]
    } else {
        Seq::empty()
    })
}

/// `s` runs the shell script `script` as its change.
pub open spec fn runs_script(s: StepView, script: Seq<char>) -> bool {
    match s {
        StepView::Run { command, rollback } => command == ("sh"@, seq!["-c"@, script]),
        _ => false,
    }
}

/// `s` ensures a rule by adding it with the shell script `script`.
pub open spec fn adds_with_script(s: StepView, script: Seq<char>) -> bool {
    match s {
        StepView::EnsureRule { check, add, rollback, lenient } => add == ("sh"@, seq!["-c"@, script]),
        _ => false,
    }
}

/// Law: each switch of the Linux gateway controls only its own steps: IP
/// forwarding is turned on exactly when `auto_ip_forward` is set; the LAN
/// range is masqueraded, and its DNS queries over UDP and TCP redirected to
/// the engine's DNS port, exactly when `auto_nat` is set; with `auto_nat`
/// off no rule is touched at all.
pub proof fn law_linux_gateway_switches(c: AppConfig)
    ensures
        (exists|j: int| 0 <= j < linux_gateway_steps(c).len()
            && #[trigger] runs_script(linux_gateway_steps(c)[j], "sysctl -w net.ipv4.ip_forward=1"@))
            <==> c.gateway.auto_ip_forward,
        (exists|j: int| 0 <= j < linux_gateway_steps(c).len() && #[trigger] adds_with_script(linux_gateway_steps(c)[j],
            "iptables -t nat -A POSTROUTING -s "@ + c.gateway.lan_cidr@ + " -j MASQUERADE"@))
            <==> c.gateway.auto_nat,
        (exists|j: int| 0 <= j < linux_gateway_steps(c).len() && #[trigger] adds_with_script(linux_gateway_steps(c)[j],
            "iptables -t nat -A PREROUTING -s "@ + c.gateway.lan_cidr@ + " -p udp --dport 53 -j REDIRECT --to-ports "@
                + decimal(c.inbound.dns_port as nat)))
            <==> c.gateway.auto_nat,
        (exists|j: int| 0 <= j < linux_gateway_steps(c).len() && #[trigger] adds_with_script(linux_gateway_steps(c)[j],
            "iptables -t nat -A PREROUTING -s "@ + c.gateway.lan_cidr@ + " -p tcp --dport 53 -j REDIRECT --to-ports "@
                + decimal(c.inbound.dns_port as nat)))
            <==> c.gateway.auto_nat,
        !c.gateway.auto_nat ==> forall|j: int| 0 <= j < linux_gateway_steps(c).len() ==> (#[trigger] linux_gateway_steps(c)[j]) is Run,
{
    let steps = linux_gateway_steps(c);
    let cidr = c.gateway.lan_cidr@;
    let port = c.inbound.dns_port;
    let fwd: Seq<StepView> = if c.gateway.auto_ip_forward {
        seq![StepView::Run {
            command: shell_parts("sysctl -w net.ipv4.ip_forward=1"@),
            rollback: Some("sysctl -w net.ipv4.ip_forward=0"@),
        }]
    } else {
        Seq::empty()
    };
    let rules: Seq<StepView> = if c.gateway.auto_nat {
        seq![
            rule_view(nat_body(cidr)),
            rule_view(dns_body(ip_source(cidr), "udp"@, port)),
            rule_view(dns_body(ip_source(cidr), "tcp"@, port)),
        ]
    } else {
        Seq::empty()
    };
    assert(steps == fwd + rules);
    let masq = "iptables -t nat -A POSTROUTING -s "@ + cidr + " -j MASQUERADE"@;
    let udp = "iptables -t nat -A PREROUTING -s "@ + cidr + " -p udp --dport 53 -j REDIRECT --to-ports "@ + decimal(port as nat);
    let tcp = "iptables -t nat -A PREROUTING -s "@ + cidr + " -p tcp --dport 53 -j REDIRECT --to-ports "@ + decimal(port as nat);
    reveal_strlit("iptables -t nat -A ");
    reveal_strlit("POSTROUTING -s ");
    reveal_strlit(" -j MASQUERADE");
    reveal_strlit("iptables -t nat -A POSTROUTING -s ");
    reveal_strlit("PREROUTING ");
    reveal_strlit("-s ");
    reveal_strlit(" -p ");
    reveal_strlit("udp");
    reveal_strlit("tcp");
    reveal_strlit(" --dport 53 -j REDIRECT --to-ports ");
    reveal_strlit("iptables -t nat -A PREROUTING -s ");
    reveal_strlit(" -p udp --dport 53 -j REDIRECT --to-ports ");
    reveal_strlit(" -p tcp --dport 53 -j REDIRECT --to-ports ");
    if c.gateway.auto_nat {
        let k = fwd.len() as int;
        assert(steps[k] == rule_view(nat_body(cidr)));
        assert("iptables -t nat -A "@ + nat_body(cidr) =~= masq);
        assert(adds_with_script(steps[k], masq));
        assert(steps[k + 1] == rule_view(dns_body(ip_source(cidr), "udp"@, port)));
        assert("iptables -t nat -A "@ + dns_body(ip_source(cidr), "udp"@, port) =~= udp);
        assert(adds_with_script(steps[k + 1], udp));
        assert(steps[k + 2] == rule_view(dns_body(ip_source(cidr), "tcp"@, port)));
        assert("iptables -t nat -A "@ + dns_body(ip_source(cidr), "tcp"@, port) =~= tcp);
        assert(adds_with_script(steps[k + 2], tcp));
    } else {
        assert forall|j: int| 0 <= j < steps.len() implies (#[trigger] steps[j]) is Run by {
            assert(steps[j] == fwd[j]);
        }
    }
    if c.gateway.auto_ip_forward {
        assert(runs_script(steps[0], "sysctl -w net.ipv4.ip_forward=1"@));
    } else {
        assert forall|j: int| 0 <= j < steps.len() implies !(#[trigger] runs_script(steps[j], "sysctl -w net.ipv4.ip_forward=1"@)) by {
            assert(steps[j] == rules[j]);
        }
    }
}

/// The steps that redirect one device, by address and, when given, by MAC.
pub open spec fn linux_policy_steps(c: AppConfig, ip: Seq<char>, mac: Option<Seq<char>>) -> Seq<StepView> {
    redirect_rules(ip_source(ip), c) + match mac {
        Some(m) => redirect_rules(mac_source(m), c),
        None => Seq::empty(),
    }
}

/// A step whose rollback removes exactly what it adds: a forwarding
/// switch with its reverse, or a NAT rule added with `-A` and deleted with
/// `-D`.
pub open spec fn removes_what_it_adds(s: StepView) -> bool {
    match s {
        StepView::Run { command, rollback } => rollback is Some,
        StepView::EnsureRule { check, add, rollback, lenient } => exists|body: Seq<char>| #[trigger] rule_view(body) == s,
    }
}

/// Law: every change of the Linux gateway plan and of a Linux device plan
/// is undone by its own rollback command.
pub proof fn law_linux_steps_reversible(c: AppConfig, ip: Seq<char>, mac: Option<Seq<char>>)
    ensures
        forall|j: int| 0 <= j < linux_gateway_steps(c).len() ==> removes_what_it_adds(#[trigger] linux_gateway_steps(c)[j]),
        forall|j: int| 0 <= j < linux_policy_steps(c, ip, mac).len() ==> removes_what_it_adds(#[trigger] linux_policy_steps(c, ip, mac)[j]),
{
    let g = linux_gateway_steps(c);
    let cidr = c.gateway.lan_cidr@;
    assert forall|j: int| 0 <= j < g.len() implies removes_what_it_adds(#[trigger] g[j]) by {
        let b0 = nat_body(cidr);
        let b1 = dns_body(ip_source(cidr), "udp"@, c.inbound.dns_port);
        let b2 = dns_body(ip_source(cidr), "tcp"@, c.inbound.dns_port);
        assert(rule_view(b0) == rule_view(b0));
        assert(rule_view(b1) == rule_view(b1));
        assert(rule_view(b2) == rule_view(b2));
    }
    let p = linux_policy_steps(c, ip, mac);
    assert forall|j: int| 0 <= j < p.len() implies removes_what_it_adds(#[trigger] p[j]) by {
        let s1 = ip_source(ip);
        assert(rule_view(tcp_body(s1, c.inbound.redir_port)) == rule_view(tcp_body(s1, c.inbound.redir_port)));
        assert(rule_view(dns_body(s1, "udp"@, c.inbound.dns_port)) == rule_view(dns_body(s1, "udp"@, c.inbound.dns_port)));
        assert(rule_view(dns_body(s1, "tcp"@, c.inbound.dns_port)) == rule_view(dns_body(s1, "tcp"@, c.inbound.dns_port)));
        if let Some(m) = mac {
            let s2 = mac_source(m);
            assert(rule_view(tcp_body(s2, c.inbound.redir_port)) == rule_view(tcp_body(s2, c.inbound.redir_port)));
            assert(rule_view(dns_body(s2, "udp"@, c.inbound.dns_port)) == rule_view(dns_body(s2, "udp"@, c.inbound.dns_port)));
            assert(rule_view(dns_body(s2, "tcp"@, c.inbound.dns_port)) == rule_view(dns_body(s2, "tcp"@, c.inbound.dns_port)));
        }
    }
}

/// The rule bodies that redirect one source's TCP and DNS traffic.
pub open spec fn redirect_bodies(source: Seq<char>, c: AppConfig) -> Seq<Seq<char>> {
    seq![
        tcp_body(source, c.inbound.redir_port),
        dns_body(source, "udp"@, c.inbound.dns_port),
        dns_body(source, "tcp"@, c.inbound.dns_port),
    ]
}

/// The rule bodies of one device's plan, in plan order.
pub open spec fn policy_bodies(c: AppConfig, ip: Seq<char>, mac: Option<Seq<char>>) -> Seq<Seq<char>> {
    redirect_bodies(ip_source(ip), c) + match mac {
        Some(m) => redirect_bodies(mac_source(m), c),
        None => Seq::empty(),
    }
}

/// The plan that ensures each of `bodies` in order.
pub open spec fn rule_plan(bodies: Seq<Seq<char>>) -> Seq<StepView> {
    bodies.map_values(|b: Seq<char>| rule_view(b))
}

/// What a NAT table holding the rules `table` reports for the steps of
/// `rule_plan(bodies)` when every add succeeds: a check succeeds exactly
/// when the rule is present, and an added rule is present from then on.
pub open spec fn table_outcomes(table: Set<Seq<char>>, bodies: Seq<Seq<char>>) -> Seq<Outcome>
    decreases bodies.len(),
{
    if bodies.len() == 0 {
        Seq::empty()
    } else {
        let b = bodies[0];
        (if table.contains(b) {
            seq![Outcome::Exited { success: true }]
        } else {
            seq![Outcome::Exited { success: false }, Outcome::Exited { success: true }]
        }) + table_outcomes(table.insert(b), bodies.drop_first())
    }
}

/// The rules that such a run adds, in order.
pub open spec fn added_rules(table: Set<Seq<char>>, bodies: Seq<Seq<char>>) -> Seq<Seq<char>>
    decreases bodies.len(),
{
    if bodies.len() == 0 {
        Seq::empty()
    } else {
        let b = bodies[0];
        (if table.contains(b) { Seq::empty() } else { seq![b] }) + added_rules(table.insert(b), bodies.drop_first())
    }
}

/// The `-D` commands of the given rules.
pub open spec fn deletions(bodies: Seq<Seq<char>>) -> Seq<Seq<char>> {
    bodies.map_values(|b: Seq<char>| "iptables -t nat -D "@ + b)
}

/// The table after such a run: the old rules and every rule of the plan.
pub open spec fn table_after(table: Set<Seq<char>>, bodies: Seq<Seq<char>>) -> Set<Seq<char>> {
    table.union(Set::new(|x: Seq<char>| bodies.contains(x)))
}

/// The table after the `-D` commands of `deleted` have run, in order.
pub open spec fn undo(table: Set<Seq<char>>, deleted: Seq<Seq<char>>) -> Set<Seq<char>>
    decreases deleted.len(),
{
    if deleted.len() == 0 {
        table
    } else {
        undo(table.remove(deleted[0]), deleted.drop_first())
    }
}

proof fn lemma_replay_append(s: RunState, a: Seq<Outcome>, b: Seq<Outcome>)
    ensures
        replay(s, a + b) == replay(replay(s, a), b),
    decreases a.len(),
{
    if a.len() > 0 {
        assert((a + b).drop_first() =~= a.drop_first() + b);
        assert((a + b)[0] == a[0]);
        lemma_replay_append(transition(s, a[0]), a.drop_first(), b);
    } else {
        assert(a + b =~= b);
    }
}

proof fn lemma_replay_rules(s: RunState, table: Set<Seq<char>>, bodies: Seq<Seq<char>>)
    requires
        s.failure is None,
        !s.adding,
        s.next + bodies.len() == s.steps.len(),
        forall|j: int| 0 <= j < bodies.len() ==> s.steps[s.next + j] == rule_view(#[trigger] bodies[j]),
    ensures
        replay(s, table_outcomes(table, bodies))
            == (RunState { next: s.steps.len(), rollbacks: s.rollbacks + deletions(added_rules(table, bodies)), ..s }),
    decreases bodies.len(),
{
    if bodies.len() == 0 {
        assert(s.rollbacks + deletions(added_rules(table, bodies)) =~= s.rollbacks);
    } else {
        let b = bodies[0];
        let rest = bodies.drop_first();
        let t2 = table.insert(b);
        assert(s.steps[s.next + 0int] == rule_view(bodies[0]));
        let ok = Outcome::Exited { success: true };
        let fail = Outcome::Exited { success: false };
        if table.contains(b) {
            let head = seq![ok];
            lemma_replay_append(s, head, table_outcomes(t2, rest));
            let s1 = transition(s, ok);
            assert(replay(s, head) == replay(s1, head.drop_first()));
            assert(head.drop_first() =~= Seq::<Outcome>::empty());
            assert(s1 == RunState { next: s.next + 1, ..s });
            assert forall|j: int| 0 <= j < rest.len() implies s1.steps[s1.next + j] == rule_view(#[trigger] rest[j]) by {
                assert(s.steps[s.next + (j + 1)] == rule_view(bodies[j + 1]));
            }
            lemma_replay_rules(s1, t2, rest);
            assert(t2 =~= table);
            assert(added_rules(table, bodies) =~= added_rules(t2, rest));
        } else {
            let head = seq![fail, ok];
            lemma_replay_append(s, head, table_outcomes(t2, rest));
            let s1 = transition(s, fail);
            assert(s1 == RunState { adding: true, ..s });
            let s2 = transition(s1, ok);
            let del = "iptables -t nat -D "@ + b;
            assert(s2 == RunState { next: s.next + 1, adding: false, rollbacks: s.rollbacks.push(del), ..s });
            assert(head.drop_first() == seq![ok]);
            assert(head.drop_first().drop_first() =~= Seq::<Outcome>::empty());
            assert(replay(s, head) == replay(s1, head.drop_first()));
            assert(replay(s1, head.drop_first()) == replay(s2, head.drop_first().drop_first()));
            assert(replay(s, head) == s2);
            assert forall|j: int| 0 <= j < rest.len() implies s2.steps[s2.next + j] == rule_view(#[trigger] rest[j]) by {
                assert(s.steps[s.next + (j + 1)] == rule_view(bodies[j + 1]));
            }
            lemma_replay_rules(s2, t2, rest);
            assert(added_rules(table, bodies) =~= seq![b] + added_rules(t2, rest));
            assert(deletions(seq![b] + added_rules(t2, rest)) =~= seq![del] + deletions(added_rules(t2, rest)));
            assert(s.rollbacks.push(del) + deletions(added_rules(t2, rest))
                =~= s.rollbacks + deletions(added_rules(table, bodies)));
        }
    }
}

proof fn lemma_added_members(table: Set<Seq<char>>, bodies: Seq<Seq<char>>)
    ensures
        forall|x: Seq<char>| #[trigger] added_rules(table, bodies).contains(x) <==> (bodies.contains(x) && !table.contains(x)),
    decreases bodies.len(),
{
    if bodies.len() > 0 {
        let b = bodies[0];
        let rest = bodies.drop_first();
        lemma_added_members(table.insert(b), rest);
        let head: Seq<Seq<char>> = if table.contains(b) { Seq::empty() } else { seq![b] };
        assert forall|x: Seq<char>| #[trigger] added_rules(table, bodies).contains(x) <==> (bodies.contains(x) && !table.contains(x)) by {
            assert(added_rules(table, bodies) == head + added_rules(table.insert(b), rest));
            if added_rules(table, bodies).contains(x) {
                let i = choose|i: int| 0 <= i < added_rules(table, bodies).len() && added_rules(table, bodies)[i] == x;
                if i < head.len() {
                    assert(bodies[0] == x);
                } else {
                    assert(added_rules(table.insert(b), rest)[i - head.len()] == x);
                    assert(added_rules(table.insert(b), rest).contains(x));
                    assert(rest.contains(x));
                    let k = choose|k: int| 0 <= k < rest.len() && rest[k] == x;
                    assert(bodies[k + 1] == x);
                }
            }
            if bodies.contains(x) && !table.contains(x) {
                let k = choose|k: int| 0 <= k < bodies.len() && bodies[k] == x;
                if x == b {
                    assert((head + added_rules(table.insert(b), rest))[0] == x);
                } else {
                    assert(rest[k - 1] == x);
                    assert(added_rules(table.insert(b), rest).contains(x));
                    let i = choose|i: int| 0 <= i < added_rules(table.insert(b), rest).len() && added_rules(table.insert(b), rest)[i] == x;
                    assert((head + added_rules(table.insert(b), rest))[head.len() + i] == x);
                }
            }
        }
    }
}

proof fn lemma_undo_removes(table: Set<Seq<char>>, deleted: Seq<Seq<char>>)
    ensures
        undo(table, deleted) == table.difference(Set::new(|x: Seq<char>| deleted.contains(x))),
    decreases deleted.len(),
{
    if deleted.len() == 0 {
        assert(table.difference(Set::new(|x: Seq<char>| deleted.contains(x))) =~= table);
    } else {
        let d = deleted[0];
        let rest = deleted.drop_first();
        lemma_undo_removes(table.remove(d), rest);
        assert forall|x: Seq<char>| deleted.contains(x) <==> (x == d || rest.contains(x)) by {
            if deleted.contains(x) {
                let k = choose|k: int| 0 <= k < deleted.len() && deleted[k] == x;
                if k > 0 {
                    assert(rest[k - 1] == x);
                }
            }
            if rest.contains(x) {
                let k = choose|k: int| 0 <= k < rest.len() && rest[k] == x;
                assert(deleted[k + 1] == x);
            }
            if x == d {
                assert(deleted[0] == x);
            }
        }
        assert(table.remove(d).difference(Set::new(|x: Seq<char>| rest.contains(x)))
            =~= table.difference(Set::new(|x: Seq<char>| deleted.contains(x))));
    }
}

/// Law: on a model NAT table in which a check succeeds exactly when its
/// rule is present and every add succeeds, ensuring the rules `bodies`
/// finishes and keeps the `-D` command of each rule it added, in order; the
/// added rules are exactly those of the plan that the table lacked; and
/// running those rollbacks leaves the table as it was before.
pub proof fn law_rule_plan_rollback_restores(table: Set<Seq<char>>, bodies: Seq<Seq<char>>)
    ensures
        ({
            let end = replay(start(rule_plan(bodies), Seq::empty()), table_outcomes(table, bodies));
            action_of(end) == (ActionView::Finished { rollbacks: deletions(added_rules(table, bodies)), notes: Seq::empty() })
        }),
        forall|x: Seq<char>| #[trigger] added_rules(table, bodies).contains(x) <==> (bodies.contains(x) && !table.contains(x)),
        undo(table_after(table, bodies), added_rules(table, bodies)) == table,
{
    let s0 = start(rule_plan(bodies), Seq::empty());
    lemma_replay_rules(s0, table, bodies);
    assert(Seq::<Seq<char>>::empty() + deletions(added_rules(table, bodies)) =~= deletions(added_rules(table, bodies)));
    lemma_added_members(table, bodies);
    let added = added_rules(table, bodies);
    lemma_undo_removes(table_after(table, bodies), added);
    assert(table_after(table, bodies).difference(Set::new(|x: Seq<char>| added.contains(x))) =~= table);
}

/// Law: the plan of one device ensures exactly its rule bodies, so on a
/// model NAT table the rollbacks it keeps remove exactly the rules it added,
/// none that were there before, and leave the table as it was.
pub proof fn law_policy_rollback_restores(c: AppConfig, ip: Seq<char>, mac: Option<Seq<char>>, table: Set<Seq<char>>)
    ensures
        linux_policy_steps(c, ip, mac) == rule_plan(policy_bodies(c, ip, mac)),
        ({
            let bodies = policy_bodies(c, ip, mac);
            let end = replay(start(linux_policy_steps(c, ip, mac), Seq::empty()), table_outcomes(table, bodies));
            &&& action_of(end) == (ActionView::Finished { rollbacks: deletions(added_rules(table, bodies)), notes: Seq::empty() })
            &&& forall|x: Seq<char>| #[trigger] added_rules(table, bodies).contains(x) ==> !table.contains(x)
            &&& undo(table_after(table, bodies), added_rules(table, bodies)) == table
        }),
{
    let bodies = policy_bodies(c, ip, mac);
    assert(linux_policy_steps(c, ip, mac) =~= rule_plan(bodies));
    law_rule_plan_rollback_restores(table, bodies);
}

/// Appends a step to a plan under construction.
pub fn push_step(v: &mut Vec<PlanStep>, s: PlanStep)
    ensures
        step_views(final(v)@) == step_views(old(v)@).push(s.view()),
{
    let ghost before = v@;
    v.push(s);
    assert(step_views(v@) =~= step_views(before).push(s.view()));
}

/// The step for a NAT-table rule with the given body.
pub fn rule_step(body: &str) -> (s: PlanStep)
    ensures
        s.view() == rule_view(body@),
{
    let mut check = "iptables -t nat -C ".to_owned();
    check.append(body);
    let mut add = "iptables -t nat -A ".to_owned();
    add.append(body);
    let mut rollback = "iptables -t nat -D ".to_owned();
    rollback.append(body);
    PlanStep::EnsureRule {
        check: shell(check),
        add: shell(add),
        rollback,
        absent_when_check_fails_to_start: false,
    }
}

fn dns_rule(source: &str, proto: &str, dns_port: u16) -> (s: PlanStep)
    ensures
        s.view() == rule_view(dns_body(source@, proto@, dns_port)),
{
    let mut body = "PREROUTING ".to_owned();
    body.append(source);
    body.append(" -p ");
    body.append(proto);
    body.append(" --dport 53 -j REDIRECT --to-ports ");
    body.append(decimal_text(dns_port as u64).as_str());
    rule_step(body.as_str())
}

fn tcp_rule(source: &str, redir_port: u16) -> (s: PlanStep)
    ensures
        s.view() == rule_view(tcp_body(source@, redir_port)),
{
    let mut body = "PREROUTING ".to_owned();
    body.append(source);
    body.append(" -p tcp -j REDIRECT --to-ports ");
    body.append(decimal_text(redir_port as u64).as_str());
    rule_step(body.as_str())
}

fn push_redirect_rules(v: &mut Vec<PlanStep>, source: &str, cfg: &AppConfig)
    ensures
        step_views(final(v)@) == step_views(old(v)@) + redirect_rules(source@, *cfg),
{
    let ghost before = step_views(v@);
    push_step(v, tcp_rule(source, cfg.inbound.redir_port));
    push_step(v, dns_rule(source, "udp", cfg.inbound.dns_port));
    push_step(v, dns_rule(source, "tcp", cfg.inbound.dns_port));
    assert(step_views(v@) =~= before + redirect_rules(source@, *cfg));
}

/// The Linux gateway plan of a configuration.
pub fn apply_gateway(cfg: &AppConfig) -> (p: ApplyPlan)
    ensures
        p.spec_steps() == linux_gateway_steps(*cfg),
        p.spec_notes().len() == 0,
{
    let mut steps: Vec<PlanStep> = Vec::new();
    if cfg.gateway.auto_ip_forward {
        push_step(&mut steps, PlanStep::Run {
            command: shell("sysctl -w net.ipv4.ip_forward=1".to_owned()),
            rollback: Some("sysctl -w net.ipv4.ip_forward=0".to_owned()),
        });
    }
    let ghost mid = step_views(steps@);
    if cfg.gateway.auto_nat {
        let cidr = cfg.gateway.lan_cidr.as_str();
        let mut masq = "POSTROUTING -s ".to_owned();
        masq.append(cidr);
        masq.append(" -j MASQUERADE");
        push_step(&mut steps, rule_step(masq.as_str()));
        let mut source = "-s ".to_owned();
        source.append(cidr);
        push_step(&mut steps, dns_rule(source.as_str(), "udp", cfg.inbound.dns_port));
        push_step(&mut steps, dns_rule(source.as_str(), "tcp", cfg.inbound.dns_port));
    }
    assert(step_views(steps@) =~= linux_gateway_steps(*cfg));
    let p = ApplyPlan { steps, notes: Vec::new() };
    assert(p.spec_notes() =~= Seq::<Seq<char>>::empty());
    p
}

/// The Linux plan that sends one device's traffic to the engine.
pub fn apply_policy_target(cfg: &AppConfig, ip: &str, mac: Option<&str>) -> (p: ApplyPlan)
    ensures
        p.spec_steps() == linux_policy_steps(*cfg, ip@, match mac { Some(m) => Some(m@), None => None }),
        p.spec_notes().len() == 0,
{
    let mut steps: Vec<PlanStep> = Vec::new();
    let mut by_ip = "-s ".to_owned();
    by_ip.append(ip);
    push_redirect_rules(&mut steps, by_ip.as_str(), cfg);
    match mac {
        Some(m) => {
            let mut by_mac = "-m mac --mac-source ".to_owned();
            by_mac.append(m);
            push_redirect_rules(&mut steps, by_mac.as_str(), cfg);
        },
        None => {},
    }
    assert(step_views(steps@) =~= linux_policy_steps(*cfg, ip@, match mac { Some(m) => Some(m@), None => None }));
    let p = ApplyPlan { steps, notes: Vec::new() };
    assert(p.spec_notes() =~= Seq::<Seq<char>>::empty());
    p
}

} // verus!
