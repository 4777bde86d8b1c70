//! One maintenance cycle of the pool, run when the chain's head changes.
//!
//! The cycle decides; the caller does the outside work. Each call of
//! [`MaintenanceCycle::step`] hands in what the last request produced and
//! returns the next request: fetch the new head's body, prune what it
//! includes, fetch the body of each retracted block, resubmit the signed
//! transactions found there, revalidate ready transactions, and at last
//! clear the revalidation strategy. A failed fetch counts as an empty body,
//! and the outcome of pruning, resubmitting or revalidating does not change
//! what comes next, so every cycle runs to the clearing request.
use vstd::prelude::*;
use crate::revalidation::{
    RevalidationAction, RevalidationStrategy, strategy_step,
};

verus! {

/// Revalidation time window of light maintenance: one minute.
pub const REVALIDATE_TIME_PERIOD_MS: u64 = 60_000;

/// Revalidation block window of light maintenance.
pub const REVALIDATE_BLOCK_PERIOD: u64 = 20;

/// Where a cycle stands: which answer it waits for.
#[derive(Clone, Copy, Debug, PartialEq, Eq, Structural)]
pub enum Phase {
    /// Waits for `Begin`.
    Start,
    /// Waits for the body of the new head.
    AwaitHeadBody,
    /// Waits for pruning to finish.
    AwaitPruned,
    /// Waits for the body of the retracted block at this index.
    AwaitRetracted(usize),
    /// Waits for the resubmission to finish.
    AwaitSubmitted,
    /// Waits for the revalidation to finish.
    AwaitRevalidated,
    /// The strategy is to be cleared; the cycle is over.
    Done,
}

/// What the caller hands to the cycle.
pub enum Event<T> {
    /// Starts the cycle, with whether the pool holds no transaction.
    Begin(bool),
    /// The body of the new head; `None` when it could not be fetched.
    HeadBody(Option<Vec<T>>),
    /// The body of the retracted block that was asked for, each transaction
    /// with what it says of its signature; `None` when it could not be
    /// fetched.
    RetractedBody(Option<Vec<(T, Option<bool>)>>),
    /// The last pruning, resubmission or revalidation has finished,
    /// whatever its outcome.
    Completed,
}

/// What the cycle asks the caller to do next.
pub enum Command<T> {
    /// Fetch the body of the new head.
    FetchHeadBody,
    /// Prune from the pool the transactions included in the new head.
    PruneKnown(Vec<T>),
    /// Fetch the body of the retracted block at this index.
    FetchRetractedBody(usize),
    /// Submit these transactions at the new head as resubmissions.
    Resubmit(Vec<T>),
    /// Revalidate ready transactions at the new head, at most this many.
    RevalidateReady(Option<usize>),
    /// Clear the revalidation strategy; the cycle is over.
    ClearStrategy,
}

/// The mathematical value of a [`Command`].
pub ghost enum Request<T> {
    FetchHeadBody,
    PruneKnown(Seq<T>),
    FetchRetractedBody(nat),
    Resubmit(Seq<T>),
    RevalidateReady(Option<usize>),
    ClearStrategy,
}

impl<T> View for Command<T> {
    type V = Request<T>;

    open spec fn view(&self) -> Request<T> {
        match self {
            Command::FetchHeadBody => Request::FetchHeadBody,
            Command::PruneKnown(v) => Request::PruneKnown(v@),
            Command::FetchRetractedBody(i) => Request::FetchRetractedBody(*i as nat),
            Command::Resubmit(v) => Request::Resubmit(v@),
            Command::RevalidateReady(n) => Request::RevalidateReady(*n),
            Command::ClearStrategy => Request::ClearStrategy,
        }
    }
}

/// The mathematical value of a [`MaintenanceCycle`].
pub ghost struct CycleState<T> {
    /// The action chosen for this cycle.
    pub action: RevalidationAction,
    /// How many blocks were retracted.
    pub retracted_count: nat,
    pub phase: Phase,
    /// Signed transactions of the retracted blocks fetched so far.
    pub collected: Seq<T>,
}

/// The state of one maintenance cycle.
pub struct MaintenanceCycle<T> {
    action: RevalidationAction,
    retracted_count: usize,
    phase: Phase,
    collected: Vec<T>,
}

impl<T> View for MaintenanceCycle<T> {
    type V = CycleState<T>;

    closed spec fn view(&self) -> CycleState<T> {
        CycleState {
            action: self.action,
            retracted_count: self.retracted_count as nat,
            phase: self.phase,
            collected: self.collected@,
        }
    }
}

/// A transaction that says nothing of its signature counts as signed, so
/// that resubmission keeps it rather than drops it.
pub open spec fn counts_as_signed(signed: Option<bool>) -> bool {
    match signed {
        Some(b) => b,
        None => true,
    }
}

/// The transactions of a retracted block's body that count as signed, in
/// their order.
pub open spec fn signed_txs<T>(body: Seq<(T, Option<bool>)>) -> Seq<T>
    decreases body.len(),
{
    if body.len() == 0 {
        Seq::empty()
    } else {
        let rest = signed_txs(body.drop_last());
        if counts_as_signed(body.last().1) {
            rest.push(body.last().0)
        } else {
            rest
        }
    }
}

/// A fetched body, a failed fetch counting as an empty one.
pub open spec fn body_or_empty<A>(body: Option<Vec<A>>) -> Seq<A> {
    match body {
        Some(v) => v@,
        None => Seq::empty(),
    }
}

/// The state in which a cycle with this action and number of retracted
/// blocks starts.
pub open spec fn initial_state<T>(action: RevalidationAction, retracted_count: nat) -> CycleState<T> {
    CycleState { action, retracted_count, phase: Phase::Start, collected: Seq::empty() }
}

/// `s` moved to `phase`.
pub open spec fn with_phase<T>(s: CycleState<T>, phase: Phase) -> CycleState<T> {
    CycleState { phase, ..s }
}

/// What follows the resubmission step: revalidation if the action asks for
/// it, then the clearing of the strategy.
pub open spec fn after_resubmit<T>(s: CycleState<T>) -> (CycleState<T>, Request<T>) {
    if s.action.revalidate {
        (with_phase(s, Phase::AwaitRevalidated), Request::RevalidateReady(s.action.revalidate_amount))
    } else {
        (with_phase(s, Phase::Done), Request::ClearStrategy)
    }
}

/// What follows the pruning step: resubmission if the action asks for it,
/// starting with the first retracted block's body.
pub open spec fn after_prune<T>(s: CycleState<T>) -> (CycleState<T>, Request<T>) {
    if s.action.resubmit {
        if s.retracted_count > 0 {
            (with_phase(s, Phase::AwaitRetracted(0)), Request::FetchRetractedBody(0))
        } else {
            (with_phase(s, Phase::AwaitSubmitted), Request::Resubmit(Seq::empty()))
        }
    } else {
        after_resubmit(s)
    }
}

/// Whether the cycle in state `s` waits for the event `e`.
pub open spec fn accepts<T>(s: CycleState<T>, e: Event<T>) -> bool {
    match (s.phase, e) {
        (Phase::Start, Event::Begin(_)) => true,
        (Phase::AwaitHeadBody, Event::HeadBody(_)) => true,
        (Phase::AwaitPruned, Event::Completed) => true,
        (Phase::AwaitRetracted(_), Event::RetractedBody(_)) => true,
        (Phase::AwaitSubmitted, Event::Completed) => true,
        (Phase::AwaitRevalidated, Event::Completed) => true,
        _ => false,
    }
}

/// The state after an accepted event, and the request that the cycle makes.
pub open spec fn transition<T>(s: CycleState<T>, e: Event<T>) -> (CycleState<T>, Request<T>) {
    match (s.phase, e) {
        (Phase::Start, Event::Begin(pool_is_empty)) => if pool_is_empty {
            after_prune(s)
        } else {
            (with_phase(s, Phase::AwaitHeadBody), Request::FetchHeadBody)
        },
        (Phase::AwaitHeadBody, Event::HeadBody(body)) => (
            with_phase(s, Phase::AwaitPruned),
            Request::PruneKnown(body_or_empty(body)),
        ),
        (Phase::AwaitRetracted(i), Event::RetractedBody(body)) => {
            let all = s.collected + signed_txs(body_or_empty(body));
            if i + 1 < s.retracted_count {
                (
                    CycleState { phase: Phase::AwaitRetracted((i + 1) as usize), collected: all, ..s },
                    Request::FetchRetractedBody((i + 1) as nat),
                )
            } else {
                (
                    CycleState { phase: Phase::AwaitSubmitted, collected: Seq::empty(), ..s },
                    Request::Resubmit(all),
                )
            }
        },
        (Phase::AwaitPruned, Event::Completed) => after_prune(s),
        (Phase::AwaitSubmitted, Event::Completed) => after_resubmit(s),
        _ => (with_phase(s, Phase::Done), Request::ClearStrategy),
    }
}

/// The states that a cycle can be in.
pub open spec fn cycle_wf<T>(s: CycleState<T>) -> bool {
    &&& s.retracted_count <= usize::MAX
    &&& match s.phase {
        Phase::AwaitRetracted(i) => s.action.resubmit && i < s.retracted_count,
        _ => s.collected.len() == 0,
    }
    &&& (s.phase is AwaitSubmitted ==> s.action.resubmit)
    &&& (s.phase is AwaitRevalidated ==> s.action.revalidate)
}

impl<T> MaintenanceCycle<T> {
    /// The cycle's invariant.
    pub closed spec fn wf(&self) -> bool {
        cycle_wf(self@)
    }

    /// Starts a cycle for a new head whose height lookup gave `head_number`.
    ///
    /// Without a height nothing is done: the strategy is left as it was and
    /// no cycle is returned. With one, the strategy chooses the action at
    /// that height and time `now`, over the light windows of one minute and
    /// twenty blocks.
    pub fn begin(
        strategy: &mut RevalidationStrategy,
        head_number: Option<u64>,
        now: u64,
        retracted_count: usize,
    ) -> (r: Option<Self>)
        ensures
            head_number is None ==> r is None && *final(strategy) == *old(strategy),
            head_number matches Some(n) ==> {
                let (s2, action) = strategy_step(
                    *old(strategy),
                    n,
                    now,
                    Some(REVALIDATE_TIME_PERIOD_MS),
                    Some(REVALIDATE_BLOCK_PERIOD),
                );
                &&& *final(strategy) == s2
                &&& r matches Some(c) && c.wf() && c@ == initial_state::<T>(action, retracted_count as nat)
            },
    {
        match head_number {
            None => None,
            Some(n) => {
                let action = strategy.next(
                    n,
                    now,
                    Some(REVALIDATE_TIME_PERIOD_MS),
                    Some(REVALIDATE_BLOCK_PERIOD),
                );
                Some(MaintenanceCycle::new(action, retracted_count))
            },
        }
    }

    /// A cycle that carries out `action` after a change of head that
    /// retracted `retracted_count` blocks.
    pub fn new(action: RevalidationAction, retracted_count: usize) -> (r: Self)
        ensures
            r.wf(),
            r@ == initial_state::<T>(action, retracted_count as nat),
    {
        MaintenanceCycle { action, retracted_count, phase: Phase::Start, collected: Vec::new() }
    }

    /// Where the cycle stands.
    pub fn phase(&self) -> (r: Phase)
        ensures
            r == self@.phase,
    {
        self.phase
    }

    /// Whether the cycle waits for `e`.
    pub fn accepts(&self, e: &Event<T>) -> (r: bool)
        ensures
            r == accepts(self@, *e),
    {
        match (self.phase, e) {
            (Phase::Start, Event::Begin(_)) => true,
            (Phase::AwaitHeadBody, Event::HeadBody(_)) => true,
            (Phase::AwaitPruned, Event::Completed) => true,
            (Phase::AwaitRetracted(_), Event::RetractedBody(_)) => true,
            (Phase::AwaitSubmitted, Event::Completed) => true,
            (Phase::AwaitRevalidated, Event::Completed) => true,
            _ => false,
        }
    }

    fn finish_resubmit(&mut self) -> (r: Command<T>)
        requires
            cycle_wf(old(self)@),
            old(self)@.collected.len() == 0,
        ensures
            (final(self)@, r@) == after_resubmit(old(self)@),
    {
        if self.action.revalidate {
            self.phase = Phase::AwaitRevalidated;
            Command::RevalidateReady(self.action.revalidate_amount)
        } else {
            self.phase = Phase::Done;
            Command::ClearStrategy
        }
    }

    fn finish_prune(&mut self) -> (r: Command<T>)
        requires
            cycle_wf(old(self)@),
            old(self)@.collected.len() == 0,
        ensures
            (final(self)@, r@) == after_prune(old(self)@),
    {
        if self.action.resubmit {
            if self.retracted_count > 0 {
                self.phase = Phase::AwaitRetracted(0);
                Command::FetchRetractedBody(0)
            } else {
                self.phase = Phase::AwaitSubmitted;
                Command::Resubmit(Vec::new())
            }
        } else {
            self.finish_resubmit()
        }
    }

    /// Hands the cycle the event it waits for and returns its next request.
    pub fn step(&mut self, e: Event<T>) -> (r: Command<T>)
        requires
            old(self).wf(),
            accepts(old(self)@, e),
        ensures
            final(self).wf(),
            (final(self)@, r@) == transition(old(self)@, e),
    {
        match e {
            Event::Begin(pool_is_empty) => {
                if pool_is_empty {
                    self.finish_prune()
                } else {
                    self.phase = Phase::AwaitHeadBody;
                    Command::FetchHeadBody
                }
            },
            Event::HeadBody(body) => {
                self.phase = Phase::AwaitPruned;
                match body {
                    Some(txs) => Command::PruneKnown(txs),
                    None => Command::PruneKnown(Vec::new()),
                }
            },
            Event::RetractedBody(body) => {
                let i = match self.phase {
                    Phase::AwaitRetracted(i) => i,
                    _ => 0,
                };
                self.append_signed(body);
                if i + 1 < self.retracted_count {
                    self.phase = Phase::AwaitRetracted(i + 1);
                    Command::FetchRetractedBody(i + 1)
                } else {
                    let mut all: Vec<T> = Vec::new();
                    std::mem::swap(&mut all, &mut self.collected);
                    self.phase = Phase::AwaitSubmitted;
                    Command::Resubmit(all)
                }
            },
            Event::Completed => {
                match self.phase {
                    Phase::AwaitPruned => self.finish_prune(),
                    Phase::AwaitSubmitted => self.finish_resubmit(),
                    _ => {
                        self.phase = Phase::Done;
                        Command::ClearStrategy
                    },
                }
            },
        }
    }

    /// Appends the signed transactions of a fetched body to those collected.
    fn append_signed(&mut self, body: Option<Vec<(T, Option<bool>)>>)
        ensures
            final(self)@ == (CycleState {
                collected: old(self)@.collected + signed_txs(body_or_empty(body)),
                ..old(self)@
            }),
    {
        let txs = match body {
            Some(v) => v,
            None => Vec::new(),
        };
        let ghost all = txs@;
        let ghost start = self.collected@;
        for pair in it: txs.into_iter()
            invariant
                it.seq() == all,
                self.collected@ == start + signed_txs(all.take(it.index() as int)),
                self.action == old(self).action,
                self.phase == old(self).phase,
                self.retracted_count == old(self).retracted_count,
        {
            let (tx, signed) = pair;
            proof {
                assert(all.take(it.index() + 1).drop_last() == all.take(it.index() as int));
            }
            let keep = match signed {
                Some(b) => b,
                None => true,
            };
            if keep {
                self.collected.push(tx);
            }
        }
        proof {
            assert(all.take(all.len() as int) == all);
        }
    }
}

/// How many more steps a cycle in state `s` takes at most before it ends.
pub open spec fn steps_left<T>(s: CycleState<T>) -> nat {
    match s.phase {
        Phase::Start => s.retracted_count + 6,
        Phase::AwaitHeadBody => s.retracted_count + 5,
        Phase::AwaitPruned => s.retracted_count + 4,
        Phase::AwaitRetracted(i) => (s.retracted_count - i) as nat + 3,
        Phase::AwaitSubmitted => 3,
        Phase::AwaitRevalidated => 2,
        Phase::Done => 0,
    }
}

/// Every cycle runs to its end, whatever the fetches and pool operations
/// gave: a cycle that is not over waits for some event, each accepted event
/// keeps the invariant and brings the end nearer, and the cycle is over
/// exactly when its request is to clear the strategy.
pub proof fn lemma_cycle_runs_to_clear<T>(s: CycleState<T>, e: Event<T>)
    requires
        cycle_wf(s),
    ensures
        s.phase !is Done ==> exists|e2: Event<T>| accepts(s, e2),
        accepts(s, e) ==> {
            let (s2, r) = transition(s, e);
            &&& cycle_wf(s2)
            &&& steps_left(s2) < steps_left(s)
            &&& (s2.phase is Done <==> r is ClearStrategy)
        },
{
    match s.phase {
        Phase::Start => assert(accepts(s, Event::<T>::Begin(true))),
        Phase::AwaitHeadBody => assert(accepts(s, Event::<T>::HeadBody(None))),
        Phase::AwaitRetracted(_) => assert(accepts(s, Event::<T>::RetractedBody(None))),
        Phase::Done => {},
        _ => assert(accepts(s, Event::<T>::Completed)),
    }
}

/// When the new head's body cannot be fetched, nothing is pruned and the
/// cycle goes on as after any pruning.
pub proof fn lemma_failed_head_fetch_prunes_nothing<T>(s: CycleState<T>)
    requires
        cycle_wf(s),
        s.phase is AwaitHeadBody,
    ensures
        transition(s, Event::HeadBody(None)) == (
            with_phase(s, Phase::AwaitPruned),
            Request::<T>::PruneKnown(Seq::empty()),
        ),
        cycle_wf(with_phase(s, Phase::AwaitPruned)),
{
}

/// The prune request names exactly the transactions of the new head's body.
pub proof fn lemma_prunes_head_body<T>(s: CycleState<T>, body: Vec<T>)
    requires
        cycle_wf(s),
        s.phase is AwaitHeadBody,
    ensures
        transition(s, Event::HeadBody(Some(body))).1 == Request::<T>::PruneKnown(body@),
{
}

/// A cycle whose action does not resubmit never asks for a retracted body
/// nor submits anything.
pub proof fn lemma_no_resubmission_without_action<T>(s: CycleState<T>, e: Event<T>)
    requires
        cycle_wf(s),
        !s.action.resubmit,
        accepts(s, e),
    ensures
        !(transition(s, e).0.phase is AwaitRetracted),
        !(transition(s, e).0.phase is AwaitSubmitted),
        !(transition(s, e).1 is Resubmit),
        !(transition(s, e).1 is FetchRetractedBody),
{
}

/// Once the last retracted body has come, the resubmission holds the signed
/// transactions collected from the earlier bodies followed by those of the
/// last one.
pub proof fn lemma_resubmits_collected<T>(s: CycleState<T>, body: Option<Vec<(T, Option<bool>)>>)
    requires
        cycle_wf(s),
        s.phase matches Phase::AwaitRetracted(i) && i + 1 == s.retracted_count,
    ensures
        transition(s, Event::RetractedBody(body)).1 == Request::Resubmit(
            s.collected + signed_txs(body_or_empty(body)),
        ),
{
}

/// Every transaction of a retracted body that counts as signed, a missing
/// signature included, is among those resubmitted from it.
pub proof fn lemma_signed_txs_kept<T>(body: Seq<(T, Option<bool>)>, k: int)
    requires
        0 <= k < body.len(),
        counts_as_signed(body[k].1),
    ensures
        signed_txs(body).contains(body[k].0),
    decreases body.len(),
{
    let rest = body.drop_last();
    if k == body.len() - 1 {
        assert(signed_txs(body).last() == body[k].0);
    } else {
        assert(rest[k] == body[k]);
        lemma_signed_txs_kept(rest, k);
        let j = choose|j: int| 0 <= j < signed_txs(rest).len() && signed_txs(rest)[j] == body[k].0;
        if counts_as_signed(body.last().1) {
            assert(signed_txs(body)[j] == body[k].0);
        }
    }
}

/// Only transactions that count as signed are resubmitted from a body.
pub proof fn lemma_signed_txs_only_signed<T>(body: Seq<(T, Option<bool>)>, tx: T)
    requires
        signed_txs(body).contains(tx),
    ensures
        exists|k: int| 0 <= k < body.len() && body[k].0 == tx && counts_as_signed(body[k].1),
    decreases body.len(),
{
    let rest = body.drop_last();
    let j = choose|j: int| 0 <= j < signed_txs(body).len() && signed_txs(body)[j] == tx;
    if counts_as_signed(body.last().1) && j == signed_txs(body).len() - 1 {
        assert(body[body.len() - 1].0 == tx);
    } else {
        assert(signed_txs(rest)[j] == tx);
        lemma_signed_txs_only_signed(rest, tx);
        let k = choose|k: int| 0 <= k < rest.len() && rest[k].0 == tx && counts_as_signed(rest[k].1);
        assert(body[k] == rest[k]);
    }
}

} // verus!
