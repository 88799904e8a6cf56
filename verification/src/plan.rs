//! Host changes described as a plan of commands, and the state machine that
//! applies a plan: it says which command to run next, is told how that
//! command ended, and keeps the rollback command of every change made.

use vstd::prelude::*;
use crate::command::{texts, CommandSpec};
use crate::text::str_equal;

verus! {

/// One change to the host.
#[derive(Debug, Clone)]
pub enum PlanStep {
    /// Run `command`; it must succeed. Its `rollback`, if any, undoes it.
    Run { command: CommandSpec, rollback: Option<String> },
    /// Run `check`; when it does not succeed the rule is absent, so run
    /// `add`, which must succeed, and keep `rollback`. With
    /// `absent_when_check_fails_to_start`, a `check` that cannot even be
    /// started also counts as an absent rule.
    EnsureRule {
        check: CommandSpec,
        add: CommandSpec,
        rollback: String,
        absent_when_check_fails_to_start: bool,
    },
}

/// A plan: changes in order, and notes for the operator.
#[derive(Debug, Clone)]
pub struct ApplyPlan {
    pub steps: Vec<PlanStep>,
    pub notes: Vec<String>,
}

/// What applying a plan leaves: how to undo it, and the plan's notes.
#[derive(Debug, Clone, Default)]
pub struct PlatformApplyResult {
    pub rollback_commands: Vec<String>,
    pub notes: Vec<String>,
}

/// Why applying a plan stopped.
#[derive(Debug, Clone)]
pub enum PlanError {
    StartFailed { command: CommandSpec },
    CommandFailed { command: CommandSpec },
}

/// How a command ended.
#[derive(Debug, Clone, Copy, PartialEq, Eq, Structural)]
pub enum Outcome {
    StartFailed,
    Exited { success: bool },
}

/// What the caller should do next.
#[derive(Debug, Clone)]
pub enum Action {
    Execute(CommandSpec),
    Finished(PlatformApplyResult),
    Failed(PlanError),
}

/// A command as texts.
pub type CommandView = (Seq<char>, Seq<Seq<char>>);

/// A plan step as texts.
pub enum StepView {
    Run { command: CommandView, rollback: Option<Seq<char>> },
    EnsureRule { check: CommandView, add: CommandView, rollback: Seq<char>, lenient: bool },
}

/// A plan failure as texts: whether the command could not start, and the command.
pub type FailView = (bool, CommandView);

/// An action as texts.
pub enum ActionView {
    Execute(CommandView),
    Finished { rollbacks: Seq<Seq<char>>, notes: Seq<Seq<char>> },
    Failed(FailView),
}

impl PlanStep {
    /// The step as texts.
    pub open spec fn view(&self) -> StepView {
        match *self {
            PlanStep::Run { command, rollback } => StepView::Run {
                command: command.spec_parts(),
                rollback: match rollback { Some(r) => Some(r@), None => None },
            },
            PlanStep::EnsureRule { check, add, rollback, absent_when_check_fails_to_start } => StepView::EnsureRule {
                check: check.spec_parts(),
                add: add.spec_parts(),
                rollback: rollback@,
                lenient: absent_when_check_fails_to_start,
            },
        }
    }
}

/// The texts of a sequence of steps.
pub open spec fn step_views(v: Seq<PlanStep>) -> Seq<StepView> {
    v.map_values(|s: PlanStep| s.view())
}

impl ApplyPlan {
    /// The plan's steps as texts.
    pub open spec fn spec_steps(&self) -> Seq<StepView> {
        step_views(self.steps@)
    }

    /// The plan's notes as texts.
    pub open spec fn spec_notes(&self) -> Seq<Seq<char>> {
        texts(self.notes@)
    }
}

impl PlanError {
    /// The failure as texts.
    pub open spec fn view(&self) -> FailView {
        match *self {
            PlanError::StartFailed { command } => (true, command.spec_parts()),
            PlanError::CommandFailed { command } => (false, command.spec_parts()),
        }
    }
}

impl Action {
    /// The action as texts.
    pub open spec fn view(&self) -> ActionView {
        match *self {
            Action::Execute(c) => ActionView::Execute(c.spec_parts()),
            Action::Finished(r) => ActionView::Finished {
                rollbacks: texts(r.rollback_commands@),
                notes: texts(r.notes@),
            },
            Action::Failed(e) => ActionView::Failed(e.view()),
        }
    }
}

/// The state of applying a plan.
pub struct RunState {
    pub steps: Seq<StepView>,
    pub notes: Seq<Seq<char>>,
    /// Steps before `next` are done.
    pub next: nat,
    /// The current rule was found absent and is being added.
    pub adding: bool,
    pub rollbacks: Seq<Seq<char>>,
    pub failure: Option<FailView>,
}

/// The state before any command has run.
pub open spec fn start(steps: Seq<StepView>, notes: Seq<Seq<char>>) -> RunState {
    RunState { steps, notes, next: 0, adding: false, rollbacks: Seq::empty(), failure: None }
}

/// Applying has stopped, by finishing or failing.
pub open spec fn is_over(s: RunState) -> bool {
    s.failure is Some || s.next >= s.steps.len()
}

/// The command the current step waits on.
pub open spec fn pending(s: RunState) -> CommandView {
    match s.steps[s.next as int] {
        StepView::Run { command, rollback } => command,
        StepView::EnsureRule { check, add, rollback, lenient } => if s.adding { add } else { check },
    }
}

/// What to do in state `s`.
pub open spec fn action_of(s: RunState) -> ActionView {
    if s.failure is Some {
        ActionView::Failed(s.failure->0)
    } else if s.next >= s.steps.len() {
        ActionView::Finished { rollbacks: s.rollbacks, notes: s.notes }
    } else {
        ActionView::Execute(pending(s))
    }
}

/// The optional rollback as a sequence of zero or one commands.
pub open spec fn opt_seq(o: Option<Seq<char>>) -> Seq<Seq<char>> {
    match o {
        Some(r) => seq![r],
        None => Seq::empty(),
    }
}

/// The state after the pending command ended with `o`.
pub open spec fn transition(s: RunState, o: Outcome) -> RunState {
    if is_over(s) {
        s
    } else {
        match s.steps[s.next as int] {
            StepView::Run { command, rollback } => match o {
                Outcome::StartFailed => RunState { failure: Some((true, command)), ..s },
                Outcome::Exited { success } => if success {
                    RunState { next: s.next + 1, rollbacks: s.rollbacks + opt_seq(rollback), ..s }
                } else {
                    RunState { failure: Some((false, command)), ..s }
                },
            },
            StepView::EnsureRule { check, add, rollback, lenient } => if !s.adding {
                match o {
                    Outcome::StartFailed => if lenient {
                        RunState { adding: true, ..s }
                    } else {
                        RunState { failure: Some((true, check)), ..s }
                    },
                    Outcome::Exited { success } => if success {
                        RunState { next: s.next + 1, ..s }
                    } else {
                        RunState { adding: true, ..s }
                    },
                }
            } else {
                match o {
                    Outcome::StartFailed => RunState { failure: Some((true, add)), ..s },
                    Outcome::Exited { success } => if success {
                        RunState { next: s.next + 1, adding: false, rollbacks: s.rollbacks.push(rollback), ..s }
                    } else {
                        RunState { failure: Some((false, add)), ..s }
                    },
                }
            },
        }
    }
}

/// The state after a sequence of outcomes.
pub open spec fn replay(s: RunState, outcomes: Seq<Outcome>) -> RunState
    decreases outcomes.len(),
{
    if outcomes.len() == 0 {
        s
    } else {
        replay(transition(s, outcomes[0]), outcomes.drop_first())
    }
}

/// The rollback commands of the first `k` steps, keeping step `j`'s only
/// where `applied[j]` holds.
pub open spec fn recorded(steps: Seq<StepView>, applied: Seq<bool>, k: nat) -> Seq<Seq<char>>
    decreases k,
{
    if k == 0 {
        Seq::empty()
    } else {
        let j = (k - 1) as int;
        recorded(steps, applied, (k - 1) as nat) + if applied[j] {
            match steps[j] {
                StepView::Run { command, rollback } => opt_seq(rollback),
                StepView::EnsureRule { check, add, rollback, lenient } => seq![rollback],
            }
        } else {
            Seq::<Seq<char>>::empty()
        }
    }
}

/// The rollbacks kept so far are those of the finished steps that changed
/// the host, in step order.
pub open spec fn faithful(s: RunState) -> bool {
    &&& s.next <= s.steps.len()
    &&& exists|applied: Seq<bool>| applied.len() == s.next && s.rollbacks == recorded(s.steps, applied, s.next)
}

/// How many more outcomes can still change the state.
pub open spec fn remaining_work(s: RunState) -> nat {
    if is_over(s) {
        0
    } else {
        (2 * (s.steps.len() - s.next) - if s.adding { 1int } else { 0int }) as nat
    }
}

proof fn lemma_recorded_prefix(steps: Seq<StepView>, applied: Seq<bool>, extra: bool, k: nat)
    requires
        applied.len() >= k,
    ensures
        recorded(steps, applied.push(extra), k) == recorded(steps, applied, k),
    decreases k,
{
    if k > 0 {
        lemma_recorded_prefix(steps, applied, extra, (k - 1) as nat);
    }
}

/// Law: every outcome keeps the recorded rollbacks faithful — they are
/// exactly the rollbacks of the steps that changed the host, in order.
pub proof fn law_transition_faithful(s: RunState, o: Outcome)
    requires
        faithful(s),
    ensures
        faithful(transition(s, o)),
{
    let t = transition(s, o);
    let applied = choose|applied: Seq<bool>| applied.len() == s.next && s.rollbacks == recorded(s.steps, applied, s.next);
    if !is_over(s) && t.next == s.next + 1 {
        let changed = match s.steps[s.next as int] {
            StepView::Run { command, rollback } => true,
            StepView::EnsureRule { check, add, rollback, lenient } => s.adding,
        };
        let a2 = applied.push(changed);
        lemma_recorded_prefix(s.steps, applied, changed, s.next);
        assert(t.rollbacks =~= recorded(s.steps, a2, t.next));
        assert(a2.len() == t.next && t.rollbacks == recorded(t.steps, a2, t.next));
    } else {
        assert(applied.len() == t.next && t.rollbacks == recorded(t.steps, applied, t.next));
    }
}

/// Law: whatever the commands do, the rollbacks kept after any sequence of
/// outcomes are those of the steps that changed the host, in step order;
/// in particular a finished run reports only such rollbacks.
pub proof fn law_replay_faithful(steps: Seq<StepView>, notes: Seq<Seq<char>>, outcomes: Seq<Outcome>)
    ensures
        faithful(replay(start(steps, notes), outcomes)),
{
    let s0 = start(steps, notes);
    let none = Seq::<bool>::empty();
    assert(s0.rollbacks =~= recorded(steps, none, 0));
    assert(none.len() == s0.next && s0.rollbacks == recorded(s0.steps, none, s0.next));
    lemma_replay_keeps(s0, outcomes);
}

proof fn lemma_replay_keeps(s: RunState, outcomes: Seq<Outcome>)
    requires
        faithful(s),
    ensures
        faithful(replay(s, outcomes)),
    decreases outcomes.len(),
{
    if outcomes.len() > 0 {
        law_transition_faithful(s, outcomes[0]);
        lemma_replay_keeps(transition(s, outcomes[0]), outcomes.drop_first());
    }
}

/// Law: a failed or finished run stays as it is, whatever is reported.
pub proof fn law_over_is_final(s: RunState, o: Outcome)
    requires
        is_over(s),
    ensures
        transition(s, o) == s,
{
}

/// Law: every outcome reported to a run that is not over either ends it or
/// brings it strictly closer to its end, so a plan of n steps takes at most
/// 2n commands.
pub proof fn law_progress(s: RunState, o: Outcome)
    requires
        !is_over(s),
        s.next < s.steps.len(),
        s.adding ==> s.steps[s.next as int] is EnsureRule,
    ensures
        remaining_work(transition(s, o)) < remaining_work(s),
{
}

/// `k` reports of a command that succeeded.
pub open spec fn successes(k: nat) -> Seq<Outcome> {
    Seq::new(k, |i: int| Outcome::Exited { success: true })
}

/// Every step of `steps` checks for a rule.
pub open spec fn all_rules(steps: Seq<StepView>) -> bool {
    forall|j: int| 0 <= j < steps.len() ==> steps[j] is EnsureRule
}

proof fn lemma_present_rules(s: RunState, k: nat)
    requires
        all_rules(s.steps),
        !s.adding,
        (s.failure is None),
        s.next + k == s.steps.len(),
    ensures
        replay(s, successes(k)) == (RunState { next: s.steps.len(), ..s }),
    decreases k,
{
    let outs = successes(k);
    if k > 0 {
        let t = transition(s, outs[0]);
        assert(t == RunState { next: s.next + 1, ..s });
        assert(outs.drop_first() =~= successes((k - 1) as nat));
        lemma_present_rules(t, (k - 1) as nat);
    }
}

/// Law: applying a plan of rule checks to a host that already has every
/// rule runs only the checks, finishes, and keeps no rollback — applying
/// twice changes nothing the second time.
pub proof fn law_idempotent(steps: Seq<StepView>, notes: Seq<Seq<char>>)
    requires
        all_rules(steps),
    ensures
        ({
            let end = replay(start(steps, notes), successes(steps.len()));
            action_of(end) == (ActionView::Finished { rollbacks: Seq::empty(), notes })
        }),
{
    lemma_present_rules(start(steps, notes), steps.len());
}

/// Copies a vector of strings.
pub fn copy_texts(v: &Vec<String>) -> (r: Vec<String>)
    ensures
        texts(r@) == texts(v@),
{
    let mut r: Vec<String> = Vec::new();
    let mut i: usize = 0;
    while i < v.len()
        invariant
            i <= v@.len(),
            r@.len() == i,
            forall|j: int| 0 <= j < i ==> r@[j]@ == v@[j]@,
        decreases v@.len() - i,
    {
        r.push(v[i].clone());
        i = i + 1;
    }
    assert(texts(r@) =~= texts(v@));
    r
}

impl CommandSpec {
    /// A copy of the command.
    pub fn duplicate(&self) -> (c: CommandSpec)
        ensures
            c.spec_parts() == self.spec_parts(),
    {
        CommandSpec { program: self.program.clone(), args: copy_texts(&self.args) }
    }
}

/// Applies a plan one command at a time.
pub struct PlanRunner {
    plan: ApplyPlan,
    next: usize,
    adding: bool,
    rollbacks: Vec<String>,
    failure: Option<PlanError>,
}

impl PlanRunner {
    /// The state of the run.
    pub closed spec fn view(&self) -> RunState {
        RunState {
            steps: self.plan.spec_steps(),
            notes: self.plan.spec_notes(),
            next: self.next as nat,
            adding: self.adding,
            rollbacks: texts(self.rollbacks@),
            failure: match self.failure { Some(e) => Some(e.view()), None => None },
        }
    }

    /// The internal consistency of a run: an add phase only on a rule step.
    #[verifier::type_invariant]
    closed spec fn wf(&self) -> bool {
        &&& self.next <= self.plan.steps@.len()
        &&& self.adding ==> (self.next < self.plan.steps@.len() && self.plan.steps@[self.next as int] is EnsureRule)
    }

    /// Starts applying `plan`.
    pub fn new(plan: ApplyPlan) -> (r: PlanRunner)
        ensures
            r.view() == start(plan.spec_steps(), plan.spec_notes()),
    {
        let r = PlanRunner { plan, next: 0, adding: false, rollbacks: Vec::new(), failure: None };
        assert(texts(r.rollbacks@) =~= Seq::<Seq<char>>::empty());
        r
    }

    /// What to do now.
    pub fn next_action(&self) -> (a: Action)
        ensures
            a.view() == action_of(self.view()),
    {
        proof {
            use_type_invariant(self);
        }
        match &self.failure {
            Some(PlanError::StartFailed { command }) => {
                return Action::Failed(PlanError::StartFailed { command: command.duplicate() });
            },
            Some(PlanError::CommandFailed { command }) => {
                return Action::Failed(PlanError::CommandFailed { command: command.duplicate() });
            },
            None => {},
        }
        if self.next >= self.plan.steps.len() {
            return Action::Finished(PlatformApplyResult {
                rollback_commands: copy_texts(&self.rollbacks),
                notes: copy_texts(&self.plan.notes),
            });
        }
        let ghost sv = self.plan.steps@[self.next as int].view();
        assert(self.view().steps[self.next as int] == sv);
        match &self.plan.steps[self.next] {
            PlanStep::Run { command, rollback } => Action::Execute(command.duplicate()),
            PlanStep::EnsureRule { check, add, rollback, absent_when_check_fails_to_start } => {
                if self.adding {
                    Action::Execute(add.duplicate())
                } else {
                    Action::Execute(check.duplicate())
                }
            },
        }
    }

    /// Records how the command of the last `Execute` action ended.
    pub fn on_outcome(&mut self, o: Outcome)
        ensures
            final(self).view() == transition(old(self).view(), o),
    {
        proof {
            use_type_invariant(&*self);
        }
        if self.failure.is_some() || self.next >= self.plan.steps.len() {
            return;
        }
        let ghost s = self.view();
        let ghost sv = self.plan.steps@[self.next as int].view();
        assert(s.steps[s.next as int] == sv);
        match &self.plan.steps[self.next] {
            PlanStep::Run { command, rollback } => {
                match o {
                    Outcome::StartFailed => {
                        self.failure = Some(PlanError::StartFailed { command: command.duplicate() });
                    },
                    Outcome::Exited { success } => {
                        if success {
                            match rollback {
                                Some(r) => {
                                    let mut kept: Vec<String> = Vec::new();
                                    std::mem::swap(&mut kept, &mut self.rollbacks);
                                    kept.push(r.clone());
                                    self.rollbacks = kept;
                                },
                                None => {},
                            }
                            self.next = self.next + 1;
                            assert(texts(self.rollbacks@) =~= s.rollbacks + opt_seq(match rollback { Some(r) => Some(r@), None => None }));
                        } else {
                            self.failure = Some(PlanError::CommandFailed { command: command.duplicate() });
                        }
                    },
                }
            },
            PlanStep::EnsureRule { check, add, rollback, absent_when_check_fails_to_start } => {
                if !self.adding {
                    match o {
                        Outcome::StartFailed => {
                            if *absent_when_check_fails_to_start {
                                self.adding = true;
                            } else {
                                self.failure = Some(PlanError::StartFailed { command: check.duplicate() });
                            }
                        },
                        Outcome::Exited { success } => {
                            if success {
                                self.next = self.next + 1;
                            } else {
                                self.adding = true;
                            }
                        },
                    }
                } else {
                    match o {
                        Outcome::StartFailed => {
                            self.failure = Some(PlanError::StartFailed { command: add.duplicate() });
                        },
                        Outcome::Exited { success } => {
                            if success {
                                let mut kept: Vec<String> = Vec::new();
                                std::mem::swap(&mut kept, &mut self.rollbacks);
                                kept.push(rollback.clone());
                                self.rollbacks = kept;
                                self.adding = false;
                                self.next = self.next + 1;
                                assert(texts(self.rollbacks@) =~= s.rollbacks.push(sv->EnsureRule_rollback));
                            } else {
                                self.failure = Some(PlanError::CommandFailed { command: add.duplicate() });
                            }
                        },
                    }
                }
            },
        }
    }
}

/// `c` written as `Debug` writes a character inside a quoted string.
pub open spec fn escaped_char(c: char) -> Seq<char> {
    if c == '"' { seq!['\\', '"'] }
    else if c == '\\' { seq!['\\', '\\'] }
    else if c == '\n' { seq!['\\', 'n'] }
    else if c == '\r' { seq!['\\', 'r'] }
    else if c == '\t' { seq!['\\', 't'] }
    else if c == '\0' { seq!['\\', '0'] }
    else if is_ascii_control(c) { "\\u{"@ + hex_text(c as nat) + "}"@ }
    else { seq![c] }
}

/// An ASCII control character other than those with a short escape.
pub open spec fn is_ascii_control(c: char) -> bool {
    (c as nat) < 0x20 || (c as nat) == 0x7f
}

/// The lower-case hexadecimal digit of `d`.
pub open spec fn hex_digit(d: nat) -> char {
    if d < 10 { ((d + 48) as char) } else { ((d + 87) as char) }
}

/// `n` in lower-case hexadecimal without leading zeros (for `n` below 256).
pub open spec fn hex_text(n: nat) -> Seq<char> {
    if n < 16 { seq![hex_digit(n)] } else { seq![hex_digit(n / 16), hex_digit(n % 16)] }
}

/// A text with its quotes, backslashes and ASCII control characters
/// escaped.
pub open spec fn escaped(s: Seq<char>) -> Seq<char>
    decreases s.len(),
{
    if s.len() == 0 { Seq::empty() } else { escaped(s.drop_last()) + escaped_char(s.last()) }
}

/// A text in double quotes, escaped.
pub open spec fn quoted(s: Seq<char>) -> Seq<char> {
    seq!['"'] + escaped(s) + seq!['"']
}

/// The quoted texts, separated by `, `.
pub open spec fn quoted_items(a: Seq<Seq<char>>) -> Seq<char>
    decreases a.len(),
{
    if a.len() == 0 {
        Seq::empty()
    } else if a.len() == 1 {
        quoted(a[0])
    } else {
        quoted_items(a.drop_last()) + ", "@ + quoted(a.last())
    }
}

/// An argument list as `Debug` writes a list of strings: `["-t", "nat"]`.
pub open spec fn argument_list(a: Seq<Seq<char>>) -> Seq<char> {
    "["@ + quoted_items(a) + "]"@
}

/// The command is a shell script, run as `sh -c script`.
pub open spec fn is_shell(c: CommandView) -> bool {
    c.0 == "sh"@ && c.1.len() == 2 && c.1[0] == "-c"@
}

/// How a failure names its command: a shell command by its script, any
/// other by its program and argument list.
pub open spec fn command_text(c: CommandView) -> Seq<char> {
    if is_shell(c) { c.1[1] } else { c.0 + " "@ + argument_list(c.1) }
}

/// The command adds a DNS redirection of the LAN directly:
/// `iptables -t nat -A PREROUTING -s <range> -p <proto> --dport 53 ...`.
pub open spec fn is_dns_redirect_add(c: CommandView) -> bool {
    &&& c.0 == "iptables"@
    &&& c.1.len() == 14
    &&& c.1[2] == "-A"@
    &&& c.1[3] == "PREROUTING"@
    &&& c.1[8] == "--dport"@
    &&& c.1[9] == "53"@
}

/// The text of a plan failure: a command that could not be started, or one
/// that exited without success. A failed DNS redirection of the LAN names
/// its protocol.
pub open spec fn failure_message(f: FailView) -> Seq<char> {
    let (start_failed, c) = f;
    if is_dns_redirect_add(c) {
        if start_failed {
            "failed to apply dns hijack rule"@
        } else {
            "failed to apply dns hijack rule for proto="@ + c.1[7]
        }
    } else if start_failed {
        if is_shell(c) {
            "failed to run shell command: "@ + command_text(c)
        } else {
            "failed to run command: "@ + command_text(c)
        }
    } else {
        "command failed: "@ + command_text(c)
    }
}

fn escape_piece(c: char) -> (r: Option<&'static str>)
    ensures
        r matches Some(p) ==> p@ == escaped_char(c),
        r is None ==> escaped_char(c) == (if is_ascii_control(c) {
            "\\u{"@ + hex_text(c as nat) + "}"@
        } else {
            seq![c]
        }),
{
    proof {
        reveal_strlit("\\\"");
        reveal_strlit("\\\\");
        reveal_strlit("\\n");
        reveal_strlit("\\r");
        reveal_strlit("\\t");
        reveal_strlit("\\0");
    }
    if c == '"' {
        assert("\\\""@ =~= escaped_char(c));
        Some("\\\"")
    } else if c == '\\' {
        assert("\\\\"@ =~= escaped_char(c));
        Some("\\\\")
    } else if c == '\n' {
        assert("\\n"@ =~= escaped_char(c));
        Some("\\n")
    } else if c == '\r' {
        assert("\\r"@ =~= escaped_char(c));
        Some("\\r")
    } else if c == '\t' {
        assert("\\t"@ =~= escaped_char(c));
        Some("\\t")
    } else if c == '\0' {
        assert("\\0"@ =~= escaped_char(c));
        Some("\\0")
    } else {
        None
    }
}

fn hex_digit_text(d: u32) -> (r: String)
    requires
        d < 16,
    ensures
        r@ == seq![hex_digit(d as nat)],
{
    let digits = "0123456789abcdef";
    proof {
        reveal_strlit("0123456789abcdef");
    }
    let r = digits.substring_char(d as usize, d as usize + 1);
    assert(r@ =~= seq![digits@[d as int]]);
    assert(digits@[d as int] == hex_digit(d as nat)) by {
        assert(digits@ == seq!['0', '1', '2', '3', '4', '5', '6', '7', '8', '9', 'a', 'b', 'c', 'd', 'e', 'f']);
    }
    r.to_owned()
}

fn control_escape(c: char) -> (r: String)
    requires
        is_ascii_control(c),
    ensures
        r@ == "\\u{"@ + hex_text(c as nat) + "}"@,
{
    proof {
        reveal_strlit("\\u{");
        reveal_strlit("}");
    }
    let n = c as u32;
    let mut r = "\\u{".to_owned();
    if n < 16 {
        r.append(hex_digit_text(n).as_str());
    } else {
        r.append(hex_digit_text(n / 16).as_str());
        r.append(hex_digit_text(n % 16).as_str());
    }
    r.append("}");
    r
}

fn escaped_text(s: &str) -> (r: String)
    ensures
        r@ == escaped(s@),
{
    let n = s.unicode_len();
    let mut r = String::new();
    let mut i: usize = 0;
    assert(s@.subrange(0, 0) =~= Seq::<char>::empty());
    while i < n
        invariant
            n == s@.len(),
            i <= n,
            r@ == escaped(s@.subrange(0, i as int)),
        decreases n - i,
    {
        let c = s.get_char(i);
        let ghost before = r@;
        match escape_piece(c) {
            Some(piece) => r.append(piece),
            None => {
                if (c as u32) < 0x20 || c as u32 == 0x7f {
                    r.append(control_escape(c).as_str());
                } else {
                    r.append(s.substring_char(i, i + 1));
                    assert(s@.subrange(i as int, i + 1) =~= seq![c]);
                }
            },
        }
        assert(r@ =~= before + escaped_char(c));
        let ghost next = s@.subrange(0, i + 1);
        assert(next.drop_last() =~= s@.subrange(0, i as int));
        assert(next.last() == c);
        i = i + 1;
    }
    assert(s@.subrange(0, n as int) =~= s@);
    r
}

fn quoted_text(s: &str) -> (r: String)
    ensures
        r@ == quoted(s@),
{
    proof {
        reveal_strlit("\"");
    }
    let mut r = "\"".to_owned();
    r.append(escaped_text(s).as_str());
    r.append("\"");
    r
}

fn argument_list_text(args: &Vec<String>) -> (r: String)
    ensures
        r@ == argument_list(texts(args@)),
{
    let ghost a = texts(args@);
    let n = args.len();
    let mut items = String::new();
    let mut i: usize = 0;
    assert(a.subrange(0, 0) =~= Seq::<Seq<char>>::empty());
    while i < n
        invariant
            n == args@.len(),
            a == texts(args@),
            i <= n,
            items@ == quoted_items(a.subrange(0, i as int)),
        decreases n - i,
    {
        let ghost before = items@;
        if i > 0 {
            items.append(", ");
        }
        items.append(quoted_text(args[i].as_str()).as_str());
        let ghost next = a.subrange(0, i + 1);
        assert(next.drop_last() =~= a.subrange(0, i as int));
        assert(next.last() == args@[i as int]@);
        if i == 0 {
            assert(next.len() == 1);
            assert(items@ =~= quoted_items(next));
        } else {
            assert(items@ =~= quoted_items(next));
        }
        i = i + 1;
    }
    assert(a.subrange(0, n as int) =~= a);
    let mut r = "[".to_owned();
    r.append(items.as_str());
    r.append("]");
    r
}

fn shell_script(c: &CommandSpec) -> (r: Option<&str>)
    ensures
        is_shell(c.spec_parts()) <==> r is Some,
        r matches Some(s) ==> s@ == c.spec_parts().1[1],
{
    proof {
        reveal_strlit("sh");
        reveal_strlit("-c");
    }
    if str_equal(c.program.as_str(), "sh") && c.args.len() == 2 && str_equal(c.args[0].as_str(), "-c") {
        Some(c.args[1].as_str())
    } else {
        None
    }
}

fn dns_redirect_add(c: &CommandSpec) -> (r: bool)
    ensures
        r == is_dns_redirect_add(c.spec_parts()),
{
    proof {
        reveal_strlit("iptables");
        reveal_strlit("-A");
        reveal_strlit("PREROUTING");
        reveal_strlit("--dport");
        reveal_strlit("53");
    }
    str_equal(c.program.as_str(), "iptables") && c.args.len() == 14
        && str_equal(c.args[2].as_str(), "-A") && str_equal(c.args[3].as_str(), "PREROUTING")
        && str_equal(c.args[8].as_str(), "--dport") && str_equal(c.args[9].as_str(), "53")
}

fn command_description(c: &CommandSpec) -> (r: String)
    ensures
        r@ == command_text(c.spec_parts()),
{
    match shell_script(c) {
        Some(s) => s.to_owned(),
        None => {
            let mut r = c.program.clone();
            r.append(" ");
            r.append(argument_list_text(&c.args).as_str());
            r
        },
    }
}

impl PlanError {
    /// The human-readable text of the failure.
    pub fn message(&self) -> (r: String)
        ensures
            r@ == failure_message(self.view()),
    {
        let command = match self {
            PlanError::StartFailed { command } => command,
            PlanError::CommandFailed { command } => command,
        };
        if dns_redirect_add(command) {
            return match self {
                PlanError::StartFailed { .. } => "failed to apply dns hijack rule".to_owned(),
                PlanError::CommandFailed { command } => {
                    let mut r = "failed to apply dns hijack rule for proto=".to_owned();
                    r.append(command.args[7].as_str());
                    r
                },
            };
        }
        match self {
            PlanError::StartFailed { command } => {
                let shell = shell_script(command).is_some();
                let mut r = if shell {
                    "failed to run shell command: ".to_owned()
                } else {
                    "failed to run command: ".to_owned()
                };
                r.append(command_description(command).as_str());
                r
            },
            PlanError::CommandFailed { command } => {
                let mut r = "command failed: ".to_owned();
                r.append(command_description(command).as_str());
                r
            },
        }
    }
}

} // verus!
