//! When the pool revalidates its transactions: the per-pool scheduling status
//! and the strategy that turns it into a maintenance action.
//!
//! Block heights are `u64`. Points in time are milliseconds on a monotonic
//! clock whose origin the caller chooses; periods are milliseconds too.
use vstd::prelude::*;

verus! {

/// Number of ready transactions revalidated on each call under
/// [`RevalidationStrategy::Always`].
pub const ALWAYS_REVALIDATE_AMOUNT: usize = 16;

/// Selects how the pool revalidates its transactions during maintenance.
pub enum RevalidationType {
    /// Periodic revalidation of everything, by block count or elapsed time;
    /// transactions of retracted blocks are not resubmitted.
    Light,
    /// A fixed number of ready transactions is revalidated on every
    /// maintenance call, and retracted transactions are resubmitted.
    Full,
}

/// Scheduling state of periodic revalidation.
#[derive(Clone, Copy, Debug, PartialEq, Eq, Structural)]
pub enum RevalidationStatus {
    /// No revalidation is scheduled.
    NotScheduled,
    /// A revalidation is due once the time (first field) or the block
    /// height (second field) is reached, whichever is set and comes first.
    Scheduled(Option<u64>, Option<u64>),
    /// A revalidation pass is running.
    InProgress,
}

/// Whether the pool revalidates on every call or on a schedule.
#[derive(Clone, Copy, Debug, PartialEq, Eq, Structural)]
pub enum RevalidationStrategy {
    Always,
    Light(RevalidationStatus),
}

/// What one maintenance call does besides pruning.
#[derive(Clone, Copy, Debug, PartialEq, Eq, Structural)]
pub struct RevalidationAction {
    /// Revalidate ready transactions.
    pub revalidate: bool,
    /// Resubmit the transactions of retracted blocks.
    pub resubmit: bool,
    /// How many ready transactions to revalidate; `None` for no bound.
    pub revalidate_amount: Option<usize>,
}

/// `base + period`, held at `u64::MAX`.
pub open spec fn saturated_sum(base: u64, period: u64) -> u64 {
    if base + period > u64::MAX {
        u64::MAX
    } else {
        (base + period) as u64
    }
}

/// The deadline `period` after `base`, if there is a period.
pub open spec fn deadline(base: u64, period: Option<u64>) -> Option<u64> {
    match period {
        Some(p) => Some(saturated_sum(base, p)),
        None => None,
    }
}

/// A scheduled revalidation is due once either deadline that is set has
/// been reached.
pub open spec fn is_due(at_time: Option<u64>, at_block: Option<u64>, now: u64, block: u64) -> bool {
    ||| (at_time matches Some(t) && now >= t)
    ||| (at_block matches Some(b) && block >= b)
}

/// The status after one query at `block` and time `now`, and whether a
/// revalidation is required.
pub open spec fn status_step(
    s: RevalidationStatus,
    block: u64,
    now: u64,
    time_period: Option<u64>,
    block_period: Option<u64>,
) -> (RevalidationStatus, bool) {
    match s {
        RevalidationStatus::NotScheduled => (
            RevalidationStatus::Scheduled(deadline(now, time_period), deadline(block, block_period)),
            false,
        ),
        RevalidationStatus::Scheduled(t, b) => if is_due(t, b, now, block) {
            (RevalidationStatus::InProgress, true)
        } else {
            (s, false)
        },
        RevalidationStatus::InProgress => (s, false),
    }
}

/// The action that the `Always` strategy returns on every call.
pub open spec fn always_action() -> RevalidationAction {
    RevalidationAction {
        revalidate: true,
        resubmit: true,
        revalidate_amount: Some(ALWAYS_REVALIDATE_AMOUNT),
    }
}

/// The strategy after one call of `next`, and the action returned.
pub open spec fn strategy_step(
    s: RevalidationStrategy,
    block: u64,
    now: u64,
    time_period: Option<u64>,
    block_period: Option<u64>,
) -> (RevalidationStrategy, RevalidationAction) {
    match s {
        RevalidationStrategy::Always => (s, always_action()),
        RevalidationStrategy::Light(st) => {
            let (st2, due) = status_step(st, block, now, time_period, block_period);
            (
                RevalidationStrategy::Light(st2),
                RevalidationAction { revalidate: due, resubmit: false, revalidate_amount: None },
            )
        },
    }
}

/// The strategy after `clear`.
pub open spec fn strategy_cleared(s: RevalidationStrategy) -> RevalidationStrategy {
    match s {
        RevalidationStrategy::Always => s,
        RevalidationStrategy::Light(_) => RevalidationStrategy::Light(RevalidationStatus::NotScheduled),
    }
}

fn deadline_from(base: u64, period: Option<u64>) -> (r: Option<u64>)
    ensures
        r == deadline(base, period),
{
    match period {
        Some(p) => Some(base.saturating_add(p)),
        None => None,
    }
}

impl RevalidationStatus {
    /// Called when revalidation is completed: nothing is scheduled any more.
    pub fn clear(&mut self)
        ensures
            *final(self) == RevalidationStatus::NotScheduled,
    {
        *self = RevalidationStatus::NotScheduled;
    }

    /// Returns whether a revalidation is required at `block` and time `now`.
    ///
    /// The first query after `clear` schedules the next revalidation
    /// `time_period` and `block_period` ahead and answers `false`. A query
    /// on a schedule whose deadline has come answers `true` and marks the
    /// revalidation in progress; until the next `clear`, every further
    /// query answers `false`.
    pub fn next_required(
        &mut self,
        block: u64,
        now: u64,
        time_period: Option<u64>,
        block_period: Option<u64>,
    ) -> (r: bool)
        ensures
            (*final(self), r) == status_step(*old(self), block, now, time_period, block_period),
    {
        match *self {
            RevalidationStatus::NotScheduled => {
                *self = RevalidationStatus::Scheduled(
                    deadline_from(now, time_period),
                    deadline_from(block, block_period),
                );
                false
            },
            RevalidationStatus::Scheduled(at_time, at_block) => {
                let by_time = match at_time {
                    Some(t) => now >= t,
                    None => false,
                };
                let by_block = match at_block {
                    Some(b) => block >= b,
                    None => false,
                };
                let required = by_time || by_block;
                if required {
                    *self = RevalidationStatus::InProgress;
                }
                required
            },
            RevalidationStatus::InProgress => false,
        }
    }
}

impl RevalidationStrategy {
    /// The strategy that a pool of the given revalidation type starts with.
    pub fn for_type(revalidation_type: RevalidationType) -> (r: Self)
        ensures
            revalidation_type is Light ==> r == RevalidationStrategy::Light(RevalidationStatus::NotScheduled),
            revalidation_type is Full ==> r == RevalidationStrategy::Always,
    {
        match revalidation_type {
            RevalidationType::Light => RevalidationStrategy::Light(RevalidationStatus::NotScheduled),
            RevalidationType::Full => RevalidationStrategy::Always,
        }
    }

    /// Ends a maintenance cycle: a light schedule starts over, `Always`
    /// is left as it is.
    pub fn clear(&mut self)
        ensures
            *final(self) == strategy_cleared(*old(self)),
    {
        match self {
            RevalidationStrategy::Light(status) => status.clear(),
            RevalidationStrategy::Always => {},
        }
    }

    /// The action for a maintenance call at `block` and time `now`.
    ///
    /// `Always` revalidates a fixed number of transactions and resubmits on
    /// every call. `Light` never resubmits and revalidates, without bound,
    /// only when its status says a pass is required.
    pub fn next(
        &mut self,
        block: u64,
        now: u64,
        time_period: Option<u64>,
        block_period: Option<u64>,
    ) -> (r: RevalidationAction)
        ensures
            (*final(self), r) == strategy_step(*old(self), block, now, time_period, block_period),
    {
        match self {
            RevalidationStrategy::Light(status) => {
                let due = status.next_required(block, now, time_period, block_period);
                RevalidationAction { revalidate: due, resubmit: false, revalidate_amount: None }
            },
            RevalidationStrategy::Always => RevalidationAction {
                revalidate: true,
                resubmit: true,
                revalidate_amount: Some(ALWAYS_REVALIDATE_AMOUNT),
            },
        }
    }
}

/// One operation on a strategy: a call of `next`, or of `clear`.
pub ghost enum StrategyOp {
    Next { block: u64, now: u64, time_period: Option<u64>, block_period: Option<u64> },
    Clear,
}

/// The strategy after a sequence of operations, and the actions that the
/// calls of `next` among them returned, in order.
pub open spec fn run_strategy(
    s: RevalidationStrategy,
    ops: Seq<StrategyOp>,
) -> (RevalidationStrategy, Seq<RevalidationAction>)
    decreases ops.len(),
{
    if ops.len() == 0 {
        (s, Seq::empty())
    } else {
        let (before, actions) = run_strategy(s, ops.drop_last());
        match ops.last() {
            StrategyOp::Next { block, now, time_period, block_period } => {
                let (after, a) = strategy_step(before, block, now, time_period, block_period);
                (after, actions.push(a))
            },
            StrategyOp::Clear => (strategy_cleared(before), actions),
        }
    }
}

/// Under `Always`, every call of `next`, whatever the heights, times and
/// windows, asks to revalidate and to resubmit, and the strategy stays
/// `Always`.
pub proof fn lemma_always_revalidates_and_resubmits(ops: Seq<StrategyOp>)
    ensures
        run_strategy(RevalidationStrategy::Always, ops).0 == RevalidationStrategy::Always,
        forall|i: int| 0 <= i < run_strategy(RevalidationStrategy::Always, ops).1.len() ==> {
            let a = #[trigger] run_strategy(RevalidationStrategy::Always, ops).1[i];
            a.revalidate && a.resubmit
        },
    decreases ops.len(),
{
    if ops.len() > 0 {
        lemma_always_revalidates_and_resubmits(ops.drop_last());
    }
}

/// The light schedule. From a fresh status, a first query at block `b` and
/// time `now` answers `false` and sets the deadlines `b + block_period` and
/// `now + time_period`. A second query at block `b2` and time `now2` answers
/// `true` exactly when either deadline is reached, and then leaves the
/// revalidation in progress; otherwise the schedule stays. While in
/// progress, every query answers `false` until `clear`.
pub proof fn lemma_light_schedule(
    b: u64,
    now: u64,
    time_period: u64,
    block_period: u64,
    b2: u64,
    now2: u64,
    b3: u64,
    now3: u64,
)
    ensures
        ({
            let (s1, a1) = strategy_step(
                RevalidationStrategy::Light(RevalidationStatus::NotScheduled),
                b,
                now,
                Some(time_period),
                Some(block_period),
            );
            let (s2, a2) = strategy_step(s1, b2, now2, Some(time_period), Some(block_period));
            &&& !a1.revalidate
            &&& s1 == RevalidationStrategy::Light(
                RevalidationStatus::Scheduled(
                    Some(saturated_sum(now, time_period)),
                    Some(saturated_sum(b, block_period)),
                ),
            )
            &&& (b + block_period <= u64::MAX ==> saturated_sum(b, block_period) == b + block_period)
            &&& (now + time_period <= u64::MAX ==> saturated_sum(now, time_period) == now + time_period)
            &&& a2.revalidate == (b2 >= saturated_sum(b, block_period) || now2 >= saturated_sum(now, time_period))
            &&& a2.revalidate ==> s2 == RevalidationStrategy::Light(RevalidationStatus::InProgress)
            &&& !a2.revalidate ==> s2 == s1
        }),
        ({
            let p = RevalidationStrategy::Light(RevalidationStatus::InProgress);
            let (s3, a3) = strategy_step(p, b3, now3, Some(time_period), Some(block_period));
            &&& !a3.revalidate
            &&& s3 == p
            &&& strategy_cleared(p) == RevalidationStrategy::Light(RevalidationStatus::NotScheduled)
        }),
{
}

/// `clear` leaves a light strategy with nothing scheduled, whatever its
/// status was.
pub proof fn lemma_clear_resets(st: RevalidationStatus)
    ensures
        strategy_cleared(RevalidationStrategy::Light(st))
            == RevalidationStrategy::Light(RevalidationStatus::NotScheduled),
{
}

/// The light strategy never asks to resubmit and never bounds a
/// revalidation.
pub proof fn lemma_light_never_resubmits(
    st: RevalidationStatus,
    block: u64,
    now: u64,
    time_period: Option<u64>,
    block_period: Option<u64>,
)
    ensures
        ({
            let (s2, a) = strategy_step(RevalidationStrategy::Light(st), block, now, time_period, block_period);
            &&& !a.resubmit
            &&& a.revalidate_amount is None
            &&& s2 is Light
        }),
{
}

} // verus!
