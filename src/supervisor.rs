//! The per-target error budget: how many failed cycles a target tolerates
//! before its monitoring stops for good.
use vstd::prelude::*;
use crate::error::MonitorError;
use crate::lookout::Lookout;

verus! {

/// The state of a budget: failures so far, and failures allowed.
pub struct BudgetView {
    pub errors: nat,
    pub allowed: nat,
}

/// What a target's task does after a cycle.
#[derive(PartialEq, Eq, Structural, Clone, Copy, Debug)]
pub enum Step {
    /// The cycle succeeded: start the next one at once.
    Again,
    /// The cycle failed: pause `secs` seconds, then start the next one.
    Backoff { secs: u64 },
    /// The cycle failed and the budget is spent: pause `secs` seconds, then
    /// stop monitoring this target.
    GiveUp { secs: u64 },
}

/// A count of failed cycles that only grows, and the count at which the
/// target stops.
pub struct ErrorBudget {
    errors: u64,
    allowed: u64,
}

/// The budget after one cycle: a failure adds one, a success changes nothing.
pub open spec fn next_budget(b: BudgetView, cycle_ok: bool) -> BudgetView {
    if cycle_ok {
        b
    } else {
        BudgetView { errors: b.errors + 1, allowed: b.allowed }
    }
}

/// The step after one cycle of a target whose budget stood at `b`.
pub open spec fn step_after(b: BudgetView, cycle_ok: bool, error_delay: u64) -> Step {
    if cycle_ok {
        Step::Again
    } else if b.errors + 1 >= b.allowed {
        Step::GiveUp { secs: error_delay }
    } else {
        Step::Backoff { secs: error_delay }
    }
}

/// Whether a target whose budget stands at `b` runs another cycle.
pub open spec fn runs(b: BudgetView) -> bool {
    b.errors < b.allowed
}

impl View for ErrorBudget {
    type V = BudgetView;

    closed spec fn view(&self) -> BudgetView {
        BudgetView { errors: self.errors as nat, allowed: self.allowed as nat }
    }
}

impl ErrorBudget {
    /// Failures never pass the number allowed.
    pub closed spec fn wf(&self) -> bool {
        self.errors <= self.allowed
    }

    /// A fresh budget that allows `allowed` failed cycles.
    pub fn new(allowed: u64) -> (r: ErrorBudget)
        ensures
            r.wf(),
            r@ == (BudgetView { errors: 0, allowed: allowed as nat }),
    {
        ErrorBudget { errors: 0, allowed }
    }

    /// Failed cycles so far.
    pub fn errors(&self) -> (r: u64)
        ensures
            r as nat == self@.errors,
    {
        self.errors
    }

    /// Failed cycles allowed.
    pub fn allowed(&self) -> (r: u64)
        ensures
            r as nat == self@.allowed,
    {
        self.allowed
    }

    /// Whether the target runs another cycle.
    pub fn should_run(&self) -> (r: bool)
        ensures
            r == runs(self@),
    {
        self.errors < self.allowed
    }

    /// Records the outcome of a cycle and says what the task does next.
    pub fn record(&mut self, cycle_ok: bool, error_delay: u64) -> (r: Step)
        requires
            old(self).wf(),
            runs(old(self)@),
        ensures
            final(self).wf(),
            final(self)@ == next_budget(old(self)@, cycle_ok),
            r == step_after(old(self)@, cycle_ok, error_delay),
            (r is GiveUp) == !runs(final(self)@),
    {
        if cycle_ok {
            Step::Again
        } else {
            self.errors = self.errors + 1;
            if self.errors >= self.allowed {
                Step::GiveUp { secs: error_delay }
            } else {
                Step::Backoff { secs: error_delay }
            }
        }
    }
}

/// A run configuration the supervisor accepts: at least one target, each
/// with a name, and room for at least one failed cycle.
pub open spec fn valid_run(targets: Seq<Lookout>, allowed_errors: u64) -> bool {
    &&& targets.len() > 0
    &&& allowed_errors > 0
    &&& forall|i: int| 0 <= i < targets.len() ==> (#[trigger] targets[i]).name@.len() > 0
}

/// Checks a run configuration before any target starts; `ConfigError`
/// exactly when it is not valid.
pub fn check_run(targets: &Vec<Lookout>, allowed_errors: u64) -> (r: Result<(), MonitorError>)
    ensures
        r is Ok <==> valid_run(targets@, allowed_errors),
        r is Err ==> r == Err::<(), MonitorError>(MonitorError::ConfigError),
{
    if targets.len() == 0 || allowed_errors == 0 {
        return Err(MonitorError::ConfigError);
    }
    let mut i: usize = 0;
    while i < targets.len()
        invariant
            i <= targets.len(),
            forall|k: int| 0 <= k < i ==> (#[trigger] targets@[k]).name@.len() > 0,
        decreases targets.len() - i,
    {
        if targets[i].name.as_str().is_empty() {
            return Err(MonitorError::ConfigError);
        }
        i = i + 1;
    }
    Ok(())
}

/// The number of failed cycles among `outcomes` (true: the cycle succeeded).
pub open spec fn failures(outcomes: Seq<bool>) -> nat
    decreases outcomes.len(),
{
    if outcomes.len() == 0 {
        0
    } else {
        failures(outcomes.drop_last()) + if outcomes.last() { 0nat } else { 1nat }
    }
}

/// The budget after the cycles `outcomes`, in order.
pub open spec fn budget_after(b: BudgetView, outcomes: Seq<bool>) -> BudgetView
    decreases outcomes.len(),
{
    if outcomes.len() == 0 {
        b
    } else {
        next_budget(budget_after(b, outcomes.drop_last()), outcomes.last())
    }
}

/// A budget counts every failed cycle and forgets no failure.
pub proof fn lemma_budget_counts_failures(b: BudgetView, outcomes: Seq<bool>)
    ensures
        budget_after(b, outcomes) == (BudgetView { errors: b.errors + failures(outcomes), allowed: b.allowed }),
    decreases outcomes.len(),
{
    if outcomes.len() > 0 {
        lemma_budget_counts_failures(b, outcomes.drop_last());
    }
}

proof fn lemma_failures_prefix(outcomes: Seq<bool>, k: int)
    requires
        0 <= k <= outcomes.len(),
    ensures
        failures(outcomes.take(k)) <= failures(outcomes),
        k < outcomes.len() && !outcomes.last() ==> failures(outcomes.take(k)) < failures(outcomes),
    decreases outcomes.len(),
{
    if k < outcomes.len() {
        assert(outcomes.take(k) =~= outcomes.drop_last().take(k));
        lemma_failures_prefix(outcomes.drop_last(), k);
    } else {
        assert(outcomes.take(k) =~= outcomes);
    }
}

/// A target whose `allowed` failures all happen, the last cycle being the
/// last of them, ran each of those cycles with budget left, and stops after
/// the last one: no further cycle is started.
pub proof fn lemma_budget_spent_stops(allowed: nat, outcomes: Seq<bool>)
    requires
        allowed > 0,
        outcomes.len() > 0,
        !outcomes.last(),
        failures(outcomes) == allowed,
    ensures
        forall|k: int|
            0 <= k < outcomes.len() ==> runs(
                #[trigger] budget_after(BudgetView { errors: 0, allowed }, outcomes.take(k)),
            ),
        !runs(budget_after(BudgetView { errors: 0, allowed }, outcomes)),
{
    let fresh = BudgetView { errors: 0, allowed };
    assert forall|k: int| 0 <= k < outcomes.len() implies runs(
        #[trigger] budget_after(fresh, outcomes.take(k)),
    ) by {
        lemma_failures_prefix(outcomes, k);
        lemma_budget_counts_failures(fresh, outcomes.take(k));
    }
    lemma_budget_counts_failures(fresh, outcomes);
}

/// A target with fewer failed cycles than allowed keeps running.
pub proof fn lemma_budget_left_runs(allowed: nat, outcomes: Seq<bool>)
    requires
        failures(outcomes) < allowed,
    ensures
        runs(budget_after(BudgetView { errors: 0, allowed }, outcomes)),
{
    lemma_budget_counts_failures(BudgetView { errors: 0, allowed }, outcomes);
}

} // verus!
