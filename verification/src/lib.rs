//! A state-tracking wrapper around a single deferred computation.
//!
//! [`MaybeDone`] drives a computation to completion exactly once and then
//! lets its owner decide, independently, whether and when to extract the
//! produced value.  It is the building block for combinators that poll
//! several computations while some have already finished and must not be
//! polled again.

use vstd::prelude::*;

verus! {

/// What one advancement step of a computation reports: either the
/// computation suspended, awaiting an external event, or it finished and
/// produced its value.
pub enum Step<T> {
    /// The computation is not yet finished; it must be advanced again later.
    Suspended,
    /// The computation finished and produced this value.
    Finished(T),
}

/// What advancing a [`MaybeDone`] slot reports: whether the wrapped
/// computation is now complete.
pub enum Progress {
    /// The wrapped computation has not finished yet.
    Suspended,
    /// The wrapped computation has finished; its value is held by the slot.
    Finished,
}

/// A unit of deferred work: advancing it one step with a scheduling context
/// either suspends or finishes with a value.  An implementation must
/// tolerate being advanced repeatedly until it finishes; [`MaybeDone`] never
/// advances it again after it has reported [`Step::Finished`].
pub trait Computation {
    /// The scheduling context a scheduler hands to each advancement step,
    /// forwarded unmodified by [`MaybeDone::poll`].
    type Context;

    /// The type of the value the computation eventually produces.
    type Output;

    /// Advance the computation one step.
    fn step(&mut self, cx: &mut Self::Context) -> Step<Self::Output>;
}

/// A computation that may have completed.
pub enum MaybeDone<C: Computation> {
    /// A not-yet-completed computation.
    Future(C),
    /// The output of the completed computation.
    Done(C::Output),
    /// The empty variant after the result of a [`MaybeDone`] has been
    /// taken using the [`take`](MaybeDone::take) method.
    Gone,
}

/// The slot and report that settling a pending computation with a given
/// step outcome produces: a suspended computation stays in the slot, a
/// finished one is replaced by its value.
pub open spec fn resolve_spec<C: Computation>(computation: C, step: Step<C::Output>) -> (
    MaybeDone<C>,
    Progress,
) {
    match step {
        Step::Suspended => (MaybeDone::Future(computation), Progress::Suspended),
        Step::Finished(v) => (MaybeDone::Done(v), Progress::Finished),
    }
}

/// The slot and report after one advancement of a slot, given the step
/// outcome its computation would report.  A completed slot is left as it is;
/// advancing an extracted slot is a protocol violation and never happens in
/// verified code, so that branch is left unconstrained.
pub open spec fn advance_spec<C: Computation>(slot: MaybeDone<C>, step: Step<C::Output>) -> (
    MaybeDone<C>,
    Progress,
) {
    match slot {
        MaybeDone::Future(c) => resolve_spec(c, step),
        MaybeDone::Done(v) => (MaybeDone::Done(v), Progress::Finished),
        MaybeDone::Gone => vstd::pervasive::arbitrary(),
    }
}

/// The value extraction leaves behind and hands out: a completed slot
/// becomes extracted and yields its value; any other slot is unchanged and
/// yields nothing.
pub open spec fn take_spec<C: Computation>(slot: MaybeDone<C>) -> (MaybeDone<C>, Option<
    C::Output,
>) {
    match slot {
        MaybeDone::Done(v) => (MaybeDone::Gone, Some(v)),
        _ => (slot, None),
    }
}

/// The value a peek observes: the output of a completed slot, nothing
/// otherwise.
pub open spec fn output_spec<C: Computation>(slot: MaybeDone<C>) -> Option<C::Output> {
    match slot {
        MaybeDone::Done(v) => Some(v),
        _ => None,
    }
}

/// The slot that a run of advancements leaves behind, starting from `slot`,
/// where the computation would report the outcomes in `steps`, one per
/// advancement, in order.
pub open spec fn run_from<C: Computation>(
    slot: MaybeDone<C>,
    steps: Seq<Step<C::Output>>,
) -> MaybeDone<C>
    decreases steps.len(),
{
    if steps.len() == 0 {
        slot
    } else {
        advance_spec(run_from(slot, steps.drop_last()), steps.last()).0
    }
}

/// The report of the advancement at position `i` in a run of advancements
/// starting from `slot` with the step outcomes in `steps`.
pub open spec fn report_at<C: Computation>(
    slot: MaybeDone<C>,
    steps: Seq<Step<C::Output>>,
    i: int,
) -> Progress {
    advance_spec(run_from(slot, steps.take(i)), steps[i]).1
}

/// A pending slot stays pending, with its computation untouched by the
/// slot itself, through any run of advancements on which the computation
/// only suspends.
proof fn lemma_pending_run<C: Computation>(
    computation: C,
    steps: Seq<Step<C::Output>>,
    j: int,
)
    requires
        0 <= j <= steps.len(),
        forall|i: int| 0 <= i < j ==> steps[i] is Suspended,
    ensures
        run_from(MaybeDone::Future(computation), steps.take(j)) == MaybeDone::Future(computation),
    decreases j,
{
    if j == 0 {
        assert(steps.take(0).len() == 0);
    } else {
        lemma_pending_run(computation, steps, j - 1);
        assert(steps.take(j).drop_last() =~= steps.take(j - 1));
        assert(steps.take(j).last() == steps[j - 1]);
    }
}

/// A completed slot is left exactly as it is by any run of advancements.
proof fn lemma_done_run<C: Computation>(slot: MaybeDone<C>, steps: Seq<Step<C::Output>>)
    requires
        slot is Done,
    ensures
        run_from(slot, steps) == slot,
    decreases steps.len(),
{
    if steps.len() > 0 {
        lemma_done_run(slot, steps.drop_last());
    }
}

/// Single completion: if the wrapped computation suspends on every
/// advancement but the last and finishes on the last one with value `v`,
/// then the slot stays pending through each of the earlier advancements,
/// each of which reports "suspended", and the final advancement alone
/// moves it, once, from pending to completed with `v`, reporting
/// "finished".
pub proof fn lemma_single_completion<C: Computation>(
    computation: C,
    steps: Seq<Step<C::Output>>,
    v: C::Output,
)
    requires
        steps.len() >= 1,
        forall|i: int| 0 <= i < steps.len() - 1 ==> steps[i] is Suspended,
        steps.last() == Step::Finished(v),
    ensures
        forall|j: int|
            0 <= j < steps.len() ==> run_from(
                MaybeDone::Future(computation),
                #[trigger] steps.take(j),
            ) == MaybeDone::Future(computation),
        forall|i: int|
            0 <= i < steps.len() - 1 ==> #[trigger] report_at(
                MaybeDone::Future(computation),
                steps,
                i,
            ) is Suspended,
        run_from(MaybeDone::Future(computation), steps) == MaybeDone::<C>::Done(v),
        report_at(MaybeDone::Future(computation), steps, steps.len() - 1) is Finished,
{
    assert forall|j: int| 0 <= j < steps.len() implies run_from(
        MaybeDone::Future(computation),
        #[trigger] steps.take(j),
    ) == MaybeDone::Future(computation) by {
        lemma_pending_run(computation, steps, j);
    }
    assert forall|i: int| 0 <= i < steps.len() - 1 implies #[trigger] report_at(
        MaybeDone::Future(computation),
        steps,
        i,
    ) is Suspended by {
        lemma_pending_run(computation, steps, i);
    }
    lemma_pending_run(computation, steps, steps.len() - 1);
    assert(steps.drop_last() =~= steps.take(steps.len() - 1));
}

/// Idempotent completed advance: once a slot is completed, any number of
/// further advancements leave it exactly as it is and every single one of
/// them reports "finished".
pub proof fn lemma_completed_advance_idempotent<C: Computation>(
    slot: MaybeDone<C>,
    steps: Seq<Step<C::Output>>,
)
    requires
        slot is Done,
    ensures
        run_from(slot, steps) == slot,
        forall|i: int| 0 <= i < steps.len() ==> #[trigger] report_at(slot, steps, i) is Finished,
{
    lemma_done_run(slot, steps);
    assert forall|i: int| 0 <= i < steps.len() implies #[trigger] report_at(
        slot,
        steps,
        i,
    ) is Finished by {
        lemma_done_run(slot, steps.take(i));
    }
}

/// Exactly-once extraction: taking from a completed slot yields the value
/// and leaves the slot extracted; taking again yields nothing and changes
/// nothing, so the value is handed out exactly once.  A peek between the
/// two takes needs only a shared borrow and so cannot alter this.
pub proof fn lemma_take_exactly_once<C: Computation>(slot: MaybeDone<C>, v: C::Output)
    requires
        slot == MaybeDone::<C>::Done(v),
    ensures
        take_spec(slot) == (MaybeDone::<C>::Gone, Some(v)),
        take_spec(take_spec(slot).0) == (MaybeDone::<C>::Gone, Option::<C::Output>::None),
{
}

/// Peeking is non-destructive: what a peek observes is a pure function of
/// the slot alone — the unchanged completed value while the slot is
/// completed — so any number of peeks observe the same value, and a peek
/// itself, needing only a shared borrow, never transitions the slot.
pub proof fn lemma_peek_non_destructive<C: Computation>(slot: MaybeDone<C>, v: C::Output)
    requires
        slot == MaybeDone::<C>::Done(v),
    ensures
        output_spec(slot) == Some(v),
{
}

/// No premature extraction: taking from a pending slot yields nothing and
/// leaves the slot — and the computation it owns — exactly as it was; in
/// particular it never advances the computation.
pub proof fn lemma_no_premature_extraction<C: Computation>(computation: C)
    ensures
        take_spec(MaybeDone::Future(computation)) == (
            MaybeDone::Future(computation),
            Option::<C::Output>::None,
        ),
{
}

impl<C: Computation> MaybeDone<C> {
    /// Create a new instance of `MaybeDone`, holding the given not-yet-run
    /// computation.
    pub fn new(future: C) -> (r: MaybeDone<C>)
        ensures
            r == MaybeDone::Future(future),
    {
        MaybeDone::Future(future)
    }

    /// Returns an `Option` containing a reference to the output of the
    /// computation.  The output of this method will be `Some` if and only if
    /// the inner computation has been completed and
    /// [`take`](MaybeDone::take) has not yet been called.  Read-only: a
    /// shared borrow cannot change the slot, so peeking any number of times
    /// observes the same unchanged value.
    pub fn output(&self) -> (r: Option<&C::Output>)
        ensures
            r is Some <==> self is Done,
            r matches Some(v) ==> Some(*v) == output_spec(*self),
    {
        match self {
            MaybeDone::Done(res) => Some(res),
            _ => None,
        }
    }

    /// Attempt to take the output of a `MaybeDone` without driving it
    /// towards completion.  If the computation has completed, the slot
    /// becomes permanently empty and the value is handed to the caller,
    /// exactly once; otherwise the slot is left exactly as it was, and in
    /// particular a pending computation is never advanced by this method.
    pub fn take(&mut self) -> (r: Option<C::Output>)
        ensures
            (*final(self), r) == take_spec(*old(self)),
    {
        let mut prev = MaybeDone::Gone;
        core::mem::swap(self, &mut prev);
        match prev {
            MaybeDone::Done(output) => Some(output),
            MaybeDone::Future(computation) => {
                *self = MaybeDone::Future(computation);
                None
            },
            MaybeDone::Gone => None,
        }
    }

    /// Settle a pending computation from the outcome of one advancement
    /// step: the slot and report that [`poll`](MaybeDone::poll) installs and
    /// returns for that outcome.
    pub fn resolve(computation: C, step: Step<C::Output>) -> (r: (MaybeDone<C>, Progress))
        ensures
            r == resolve_spec(computation, step),
    {
        match step {
            Step::Suspended => (MaybeDone::Future(computation), Progress::Suspended),
            Step::Finished(v) => (MaybeDone::Done(v), Progress::Finished),
        }
    }

    /// Drive the contained computation one step forward, forwarding the
    /// scheduling context unmodified.  Reports [`Progress::Finished`] if and
    /// only if the slot holds the completed value on return; while the
    /// computation merely suspends, the slot remains pending.  Advancing a
    /// slot whose value was already taken is a protocol violation: the
    /// precondition rules it out, and an unverified caller that breaks it is
    /// stopped by a fatal runtime error, never answered silently.
    pub fn poll(&mut self, cx: &mut C::Context) -> (r: Progress)
        requires
            !(*old(self) is Gone),
        ensures
            r is Finished <==> *final(self) is Done,
            *old(self) is Done ==> *final(self) == *old(self),
            *old(self) is Future && r is Suspended ==> *final(self) is Future,
            !(*final(self) is Gone),
    {
        match self {
            MaybeDone::Done(_) => {
                return Progress::Finished;
            },
            _ => {},
        }
        let mut prev = MaybeDone::Gone;
        core::mem::swap(self, &mut prev);
        match prev {
            MaybeDone::Future(mut computation) => {
                let step = computation.step(cx);
                let (next, report) = Self::resolve(computation, step);
                *self = next;
                report
            },
            _ => vstd::pervasive::unreached(),
        }
    }

    /// Whether the value of this slot has already been taken.  An extracted
    /// slot is permanently inert: advancing it again is a protocol
    /// violation, and a caller that cannot prove otherwise must check this
    /// first.
    pub fn is_gone(&self) -> (r: bool)
        ensures
            r <==> self is Gone,
    {
        match self {
            MaybeDone::Gone => true,
            _ => false,
        }
    }
}

} // verus!

