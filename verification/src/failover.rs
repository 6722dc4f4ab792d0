//! Endpoint failover as a state machine.
//!
//! A failover holds an ordered list of candidate endpoints and the
//! position of the one that is being tried. The caller performs the
//! attempt and reports how it ended; the machine answers with the final
//! result or with the next endpoint to try. A failed attempt that is
//! followed by another leaves no trace, and when every candidate has
//! failed the error of the last attempt is the one that surfaces.

use vstd::prelude::*;
use crate::region::RegionEndpoint;

verus! {

/// What the machine answers when an attempt has ended.
pub enum Verdict<T, E> {
    /// The call is over, with this result.
    Finished(Result<T, E>),
    /// The failed attempt is forgotten; this endpoint is tried next.
    Retry(RegionEndpoint),
}

/// A failover in progress.
pub struct Failover {
    candidates: Vec<RegionEndpoint>,
    position: usize,
}

/// A failover as mathematics: the candidates in order, and the position
/// of the one being tried, which equals their number once the call is over.
pub struct FailoverView {
    pub candidates: Seq<RegionEndpoint>,
    pub position: nat,
}

impl View for Failover {
    type V = FailoverView;

    closed spec fn view(&self) -> FailoverView {
        FailoverView { candidates: self.candidates@, position: self.position as nat }
    }
}

/// `list` without the entries that repeat an earlier one.
pub open spec fn skip_repeats(list: Seq<RegionEndpoint>) -> Seq<RegionEndpoint>
    decreases list.len(),
{
    if list.len() == 0 {
        Seq::empty()
    } else {
        let head = skip_repeats(list.drop_last());
        if head.contains(list.last()) {
            head
        } else {
            head.push(list.last())
        }
    }
}

/// The candidates of a two-way swap: the current endpoint, then the other one.
pub open spec fn swap_candidates(current: RegionEndpoint) -> Seq<RegionEndpoint> {
    seq![current, current.other_spec()]
}

/// The candidates of an ordered sweep: the current endpoint, Singapore and
/// US East in this order, an endpoint that was listed before being skipped.
pub open spec fn sweep_candidates(current: RegionEndpoint) -> Seq<RegionEndpoint> {
    skip_repeats(seq![current, RegionEndpoint::Sg, RegionEndpoint::Us])
}

/// A failover over `candidates` that has tried nothing yet.
pub open spec fn fresh(candidates: Seq<RegionEndpoint>) -> FailoverView {
    FailoverView { candidates, position: 0 }
}

impl FailoverView {
    /// The endpoint that is being tried, if the call is not over.
    pub open spec fn target(self) -> Option<RegionEndpoint> {
        if self.position < self.candidates.len() {
            Some(self.candidates[self.position as int])
        } else {
            None
        }
    }

    /// The failover once the attempt at its target has ended as `outcome`
    /// says, and the verdict on that attempt: a success ends the call, a
    /// failure ends it only when no candidate is left.
    pub open spec fn settle<T, E>(self, outcome: Result<T, E>) -> (FailoverView, Verdict<T, E>) {
        if outcome is Ok || self.position + 1 >= self.candidates.len() {
            (
                FailoverView { candidates: self.candidates, position: self.candidates.len() },
                Verdict::Finished(outcome),
            )
        } else {
            (
                FailoverView { candidates: self.candidates, position: self.position + 1 },
                Verdict::Retry(self.candidates[self.position + 1 as int]),
            )
        }
    }

    /// The result of the call when its attempts end, in order, as
    /// `outcomes` says; `None` while the call is not over.
    pub open spec fn run<T, E>(self, outcomes: Seq<Result<T, E>>) -> Option<Result<T, E>>
        decreases outcomes.len(),
    {
        if outcomes.len() == 0 {
            None
        } else {
            match self.settle(outcomes[0]) {
                (_, Verdict::Finished(result)) => Some(result),
                (next, Verdict::Retry(_)) => next.run(outcomes.drop_first()),
            }
        }
    }
}

/// Whether `wanted` is among `list`.
fn listed(list: &Vec<RegionEndpoint>, wanted: RegionEndpoint) -> (found: bool)
    ensures
        found == list@.contains(wanted),
{
    let mut at: usize = 0;
    while at < list.len()
        invariant
            at <= list@.len(),
            forall|i: int| 0 <= i < at ==> list@[i] != wanted,
        decreases list@.len() - at,
    {
        if list[at] == wanted {
            return true;
        }
        at = at + 1;
    }
    false
}

impl Failover {
    /// A failover over the given candidates, in their order.
    pub fn over(candidates: Vec<RegionEndpoint>) -> (machine: Failover)
        ensures
            machine@ == fresh(candidates@),
    {
        Failover { candidates, position: 0 }
    }

    /// The failover for a call that is bound to a resolved endpoint: that
    /// endpoint first, the other member of the pair once.
    pub fn two_way_swap(current: RegionEndpoint) -> (machine: Failover)
        ensures
            machine@ == fresh(swap_candidates(current)),
    {
        let mut candidates: Vec<RegionEndpoint> = Vec::new();
        candidates.push(current);
        candidates.push(current.other());
        proof {
            assert(candidates@ =~= swap_candidates(current));
        }
        Failover { candidates, position: 0 }
    }

    /// The failover for a call that may run before the region is known.
    pub fn ordered_sweep(current: RegionEndpoint) -> (machine: Failover)
        ensures
            machine@ == fresh(sweep_candidates(current)),
    {
        let mut order: Vec<RegionEndpoint> = Vec::new();
        order.push(current);
        order.push(RegionEndpoint::Sg);
        order.push(RegionEndpoint::Us);
        let mut candidates: Vec<RegionEndpoint> = Vec::new();
        let mut at: usize = 0;
        while at < order.len()
            invariant
                at <= order@.len(),
                candidates@ == skip_repeats(order@.take(at as int)),
            decreases order@.len() - at,
        {
            proof {
                assert(order@.take(at + 1).drop_last() =~= order@.take(at as int));
            }
            let entry = order[at];
            if !listed(&candidates, entry) {
                candidates.push(entry);
            }
            at = at + 1;
        }
        proof {
            assert(order@.take(order@.len() as int) =~= order@);
            assert(order@ =~= seq![current, RegionEndpoint::Sg, RegionEndpoint::Us]);
        }
        Failover { candidates, position: 0 }
    }

    /// The endpoint to try now; `None` once the call is over.
    pub fn target(&self) -> (endpoint: Option<RegionEndpoint>)
        ensures
            endpoint == self@.target(),
    {
        if self.position < self.candidates.len() {
            Some(self.candidates[self.position])
        } else {
            None
        }
    }

    /// Takes the outcome of the attempt at the target and says how the
    /// call goes on.
    pub fn settle<T, E>(&mut self, outcome: Result<T, E>) -> (verdict: Verdict<T, E>)
        ensures
            (final(self)@, verdict) == old(self)@.settle(outcome),
    {
        let count: usize = self.candidates.len();
        if outcome.is_ok() || self.position >= count || self.position + 1 >= count {
            self.position = count;
            Verdict::Finished(outcome)
        } else {
            self.position = self.position + 1;
            Verdict::Retry(self.candidates[self.position])
        }
    }
}

/// The ordered sweep from Singapore tries Singapore, then US East; the
/// one from US East tries US East, then Singapore.
pub proof fn lemma_sweep_candidates(current: RegionEndpoint)
    ensures
        sweep_candidates(current) == swap_candidates(current),
{
    let order = seq![current, RegionEndpoint::Sg, RegionEndpoint::Us];
    let two = order.drop_last();
    let one = two.drop_last();
    assert(one.drop_last() =~= Seq::<RegionEndpoint>::empty());
    assert(skip_repeats(one.drop_last()) =~= Seq::<RegionEndpoint>::empty());
    assert(one.last() == current);
    assert(skip_repeats(one) =~= seq![current]);
    assert(two.last() == RegionEndpoint::Sg);
    assert(order.last() == RegionEndpoint::Us);
    match current {
        RegionEndpoint::Sg => {
            assert(seq![current][0] == RegionEndpoint::Sg);
            assert(skip_repeats(two) =~= seq![RegionEndpoint::Sg]);
            assert(skip_repeats(order) =~= seq![RegionEndpoint::Sg, RegionEndpoint::Us]);
        },
        RegionEndpoint::Us => {
            assert(skip_repeats(two) =~= seq![RegionEndpoint::Us, RegionEndpoint::Sg]);
            assert(skip_repeats(two)[0] == RegionEndpoint::Us);
            assert(skip_repeats(order) =~= seq![RegionEndpoint::Us, RegionEndpoint::Sg]);
        },
    }
    assert(sweep_candidates(current) =~= swap_candidates(current));
}

/// When the attempt at the current endpoint fails and the attempt at the
/// other endpoint succeeds, a two-way swap tries the other endpoint and
/// ends with what it gave; the error of the first attempt shows nowhere.
pub proof fn lemma_swap_recovers<T, E>(current: RegionEndpoint, error: E, data: T)
    ensures
        fresh(swap_candidates(current)).target() == Some(current),
        fresh(swap_candidates(current)).settle(Err::<T, E>(error)).1 == Verdict::<T, E>::Retry(
            current.other_spec(),
        ),
        fresh(swap_candidates(current)).settle(Err::<T, E>(error)).0.settle(Ok::<T, E>(data)).1
            == Verdict::Finished(Ok::<T, E>(data)),
        fresh(swap_candidates(current)).run(seq![Err::<T, E>(error), Ok::<T, E>(data)]) == Some(
            Ok::<T, E>(data),
        ),
{
    let outcomes = seq![Err::<T, E>(error), Ok::<T, E>(data)];
    let start = fresh(swap_candidates(current));
    let next = start.settle(outcomes[0]).0;
    assert(outcomes.drop_first() =~= seq![Ok::<T, E>(data)]);
    assert(outcomes.drop_first()[0] == Ok::<T, E>(data));
    assert(next.run(outcomes.drop_first()) == Some(Ok::<T, E>(data)));
}

/// A two-way swap makes two attempts at most: when both fail it ends with
/// the error of the second.
pub proof fn lemma_swap_fails_with_second<T, E>(current: RegionEndpoint, first: E, second: E)
    ensures
        fresh(swap_candidates(current)).run(seq![Err::<T, E>(first), Err::<T, E>(second)]) == Some(
            Err::<T, E>(second),
        ),
{
    let outcomes = seq![Err::<T, E>(first), Err::<T, E>(second)];
    let start = fresh(swap_candidates(current));
    let next = start.settle(outcomes[0]).0;
    assert(outcomes.drop_first() =~= seq![Err::<T, E>(second)]);
    assert(outcomes.drop_first()[0] == Err::<T, E>(second));
    assert(next.run(outcomes.drop_first()) == Some(Err::<T, E>(second)));
}

/// When every candidate that is left fails, the call ends with the error
/// of the last attempt, not with an earlier one.
pub proof fn lemma_all_fail_surfaces_last<T, E>(state: FailoverView, outcomes: Seq<Result<T, E>>)
    requires
        state.position < state.candidates.len(),
        outcomes.len() == state.candidates.len() - state.position,
        forall|i: int| 0 <= i < outcomes.len() ==> outcomes[i] is Err,
    ensures
        state.run(outcomes) == Some(outcomes.last()),
    decreases outcomes.len(),
{
    if state.position + 1 < state.candidates.len() {
        let next = state.settle(outcomes[0]).0;
        let rest = outcomes.drop_first();
        assert forall|i: int| 0 <= i < rest.len() implies rest[i] is Err by {
            assert(rest[i] == outcomes[i + 1]);
        }
        lemma_all_fail_surfaces_last(next, rest);
        assert(rest.last() == outcomes.last());
    } else {
        assert(outcomes.len() == 1);
        assert(outcomes.last() == outcomes[0]);
    }
}

/// The first attempt that succeeds ends the call with what it gave; the
/// failures before it are swallowed and no later candidate is tried.
pub proof fn lemma_first_success_wins<T, E>(
    state: FailoverView,
    outcomes: Seq<Result<T, E>>,
    at: int,
)
    requires
        0 <= at < outcomes.len(),
        state.position + at < state.candidates.len(),
        outcomes[at] is Ok,
        forall|i: int| 0 <= i < at ==> outcomes[i] is Err,
    ensures
        state.run(outcomes) == Some(outcomes[at]),
    decreases at,
{
    if at > 0 {
        let next = state.settle(outcomes[0]).0;
        let rest = outcomes.drop_first();
        assert forall|i: int| 0 <= i < at - 1 implies rest[i] is Err by {
            assert(rest[i] == outcomes[i + 1]);
        }
        assert(rest[at - 1] == outcomes[at]);
        lemma_first_success_wins(next, rest, at - 1);
    }
}

} // verus!
