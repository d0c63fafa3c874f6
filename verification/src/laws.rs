//! What holds of every tracker, stated over its model and proved.

use crate::promise::{consume, resolve, ArgsModel, TrackerModel};
use crate::tree::{and_of_calls, call_leaf, with_callback, SimplePromise};
use aurora_engine_types::parameters::{PromiseBatchAction, PromiseCreateArgs};
use aurora_engine_types::types::PromiseResult;
use vstd::prelude::*;

verus! {

/// One scheduling call, as data.
pub enum Request {
    /// `promise_create_call`
    Call(PromiseCreateArgs),
    /// `promise_create_and_combine`
    Combine(Seq<PromiseCreateArgs>),
    /// `promise_attach_callback`
    Callback { base: u64, callback: PromiseCreateArgs },
    /// `promise_create_batch`
    Batch(PromiseBatchAction),
    /// `promise_attach_batch_callback`
    BatchCallback { base: u64, batch: PromiseBatchAction },
}

impl TrackerModel {
    /// The tracker after `request`.
    pub open spec fn apply(self, request: Request) -> TrackerModel {
        match request {
            Request::Call(call) => self.schedule(ArgsModel::Create(call)),
            Request::Combine(calls) => self.schedule(ArgsModel::Recursive(and_of_calls(calls))),
            Request::Callback { base, callback } => self.schedule(
                ArgsModel::Callback { base, callback },
            ),
            Request::Batch(batch) => self.schedule(ArgsModel::Batch(batch)),
            Request::BatchCallback { base, batch } => self.attach_batch(base, batch),
        }
    }

    /// The handle that `request` returns: the next one, unless the request
    /// attaches a batch to a base that stands for no tree.
    pub open spec fn answer(self, request: Request) -> Option<u64> {
        match request {
            Request::BatchCallback { base, batch } => match resolve(self.scheduled, base) {
                Some(_) => Some(self.next),
                None => None,
            },
            _ => Some(self.next),
        }
    }

    /// The tracker after `requests`, one after the other.
    pub open spec fn run(self, requests: Seq<Request>) -> TrackerModel
        decreases requests.len(),
    {
        if requests.len() == 0 {
            self
        } else {
            self.run(requests.drop_last()).apply(requests.last())
        }
    }

    /// The handle that the call at position `i` of `requests` returns.
    pub open spec fn answer_at(self, requests: Seq<Request>, i: int) -> Option<u64> {
        self.run(requests.take(i)).answer(requests[i])
    }
}

/// Every scheduling call uses up one handle and leaves the results and the
/// return mark alone.
pub proof fn run_counts_requests(tracker: TrackerModel, requests: Seq<Request>)
    requires
        tracker.next + requests.len() <= u64::MAX,
    ensures
        tracker.run(requests).next == tracker.next + requests.len(),
        tracker.run(requests).results == tracker.results,
        tracker.run(requests).returned == tracker.returned,
    decreases requests.len(),
{
    if requests.len() > 0 {
        run_counts_requests(tracker, requests.drop_last());
    }
}

/// Handles are never handed out twice: the call at position `i` of a run
/// returns the tracker's first free handle plus `i`, if it returns one at
/// all. On a fresh tracker that is `i` itself, so the handles returned are
/// distinct and grow with the calls.
pub proof fn handles_are_positions(tracker: TrackerModel, requests: Seq<Request>, i: int, j: int)
    requires
        tracker.next + requests.len() <= u64::MAX,
        0 <= i < j < requests.len(),
    ensures
        tracker.answer_at(requests, i) matches Some(h) ==> h == tracker.next + i,
        tracker.answer_at(requests, j) matches Some(h) ==> h == tracker.next + j,
        tracker.answer_at(requests, i) is Some && tracker.answer_at(requests, j) is Some
            ==> tracker.answer_at(requests, i)->0 < tracker.answer_at(requests, j)->0,
{
    run_counts_requests(tracker, requests.take(i));
    run_counts_requests(tracker, requests.take(j));
}

/// A call that was just scheduled stands for its own leaf, with the call as
/// it was given.
pub proof fn call_resolves_to_its_leaf(tracker: TrackerModel, call: PromiseCreateArgs)
    requires
        tracker.scheduled.dom().finite(),
    ensures
        resolve(tracker.schedule(ArgsModel::Create(call)).scheduled, tracker.next) == Some(
            call_leaf(call),
        ),
{
}

/// Calls that were joined stand for one `And` whose children are their
/// leaves, in the order given.
pub proof fn combined_calls_keep_their_order(tracker: TrackerModel, calls: Seq<PromiseCreateArgs>)
    requires
        tracker.scheduled.dom().finite(),
    ensures
        resolve(
            tracker.schedule(ArgsModel::Recursive(and_of_calls(calls))).scheduled,
            tracker.next,
        ) == Some(and_of_calls(calls)),
        and_of_calls(calls) is And,
        and_of_calls(calls)->And_0.len() == calls.len(),
        forall|i: int|
            0 <= i < calls.len() ==> #[trigger] and_of_calls(calls)->And_0[i] == call_leaf(
                calls[i],
            ),
{
}

/// Taking a tree out takes its handle out: the map only shrinks, the handle
/// is gone, and a second look-up finds nothing.
pub proof fn resolved_handle_is_gone(scheduled: Map<u64, ArgsModel>, id: u64)
    requires
        scheduled.dom().finite(),
    ensures
        consume(scheduled, id).dom().finite(),
        consume(scheduled, id).submap_of(scheduled),
        !consume(scheduled, id).contains_key(id),
        resolve(consume(scheduled, id), id) is None,
    decreases scheduled.dom().len(),
{
    if scheduled.contains_key(id) {
        match scheduled[id] {
            ArgsModel::Callback { base, callback } => {
                resolved_handle_is_gone(scheduled.remove(id), base);
            },
            _ => {},
        }
    }
}

/// A handle that is not in the tracker stands for no tree, so a batch cannot
/// be attached to it. On a fresh tracker that is every handle.
pub proof fn absent_base_is_unknown(tracker: TrackerModel, base: u64, batch: PromiseBatchAction)
    requires
        tracker.scheduled.dom().finite(),
        !tracker.scheduled.contains_key(base),
    ensures
        resolve(tracker.scheduled, base) is None,
        tracker.answer(Request::BatchCallback { base, batch }) is None,
        tracker.attach_batch(base, batch) == tracker.take_id(),
        resolve(TrackerModel::fresh(tracker.results).scheduled, base) is None,
{
    assert(tracker.remove(base) =~= tracker);
}

/// On a fresh tracker the handles returned are the positions of their
/// calls, counted from zero.
pub proof fn fresh_handles_count_from_zero(
    results: Seq<PromiseResult>,
    requests: Seq<Request>,
    i: int,
)
    requires
        requests.len() <= u64::MAX,
        0 <= i < requests.len(),
    ensures
        TrackerModel::fresh(results).answer_at(requests, i) matches Some(h) ==> h == i,
{
    run_counts_requests(TrackerModel::fresh(results), requests.take(i));
}

/// A batch attached to a call that was just scheduled: the new handle stands
/// for the call followed by the batch, and the handle of the call stands for
/// nothing any more, before and after the new tree is taken out.
pub proof fn batch_after_call(
    tracker: TrackerModel,
    call: PromiseCreateArgs,
    batch: PromiseBatchAction,
)
    requires
        tracker.scheduled.dom().finite(),
        tracker.next + 2 <= u64::MAX,
    ensures
        ({
            let first = tracker.next;
            let second = (tracker.next + 1) as u64;
            let scheduled = tracker.schedule(ArgsModel::Create(call));
            let attached = scheduled.attach_batch(first, batch);
            &&& scheduled.answer(Request::BatchCallback { base: first, batch }) == Some(second)
            &&& attached.scheduled.dom().finite()
            &&& resolve(attached.scheduled, second) == Some(
                with_callback(call_leaf(call), SimplePromise::Batch(batch)),
            )
            &&& resolve(attached.scheduled, first) is None
            &&& resolve(attached.remove(second).scheduled, first) is None
        }),
{
    let first = tracker.next;
    let second = (tracker.next + 1) as u64;
    let scheduled = tracker.schedule(ArgsModel::Create(call));
    assert(consume(scheduled.scheduled, first) =~= scheduled.scheduled.remove(first));
    let attached = scheduled.attach_batch(first, batch);
    assert(!attached.scheduled.contains_key(first));
    assert(consume(attached.scheduled, second) =~= attached.scheduled.remove(second));
}

/// Two batches attached one after the other to a call: the last handle
/// stands for the call, then the first batch, then the second.
pub proof fn batches_after_call(
    tracker: TrackerModel,
    call: PromiseCreateArgs,
    inner: PromiseBatchAction,
    outer: PromiseBatchAction,
)
    requires
        tracker.scheduled.dom().finite(),
        tracker.next + 3 <= u64::MAX,
    ensures
        ({
            let first = tracker.next;
            let second = (tracker.next + 1) as u64;
            let third = (tracker.next + 2) as u64;
            let attached = tracker.schedule(ArgsModel::Create(call)).attach_batch(first, inner);
            let nested = attached.attach_batch(second, outer);
            &&& attached.answer(Request::BatchCallback { base: second, batch: outer }) == Some(
                third,
            )
            &&& resolve(nested.scheduled, third) == Some(
                with_callback(
                    with_callback(call_leaf(call), SimplePromise::Batch(inner)),
                    SimplePromise::Batch(outer),
                ),
            )
            &&& resolve(nested.scheduled, second) is None
            &&& resolve(nested.scheduled, first) is None
        }),
{
    batch_after_call(tracker, call, inner);
    let first = tracker.next;
    let second = (tracker.next + 1) as u64;
    let attached = tracker.schedule(ArgsModel::Create(call)).attach_batch(first, inner);
    assert(consume(attached.scheduled, second) =~= attached.scheduled.remove(second));
    let nested = attached.attach_batch(second, outer);
    assert(!nested.scheduled.contains_key(second));
    assert(!nested.scheduled.contains_key(first));
}

/// Of two return marks the later one counts.
pub proof fn last_return_mark_counts(tracker: TrackerModel, first: u64, second: u64)
    ensures
        tracker.mark_returned(first).mark_returned(second) == tracker.mark_returned(second),
        tracker.mark_returned(first).mark_returned(second).returned == Some(second),
{
}

/// A nested tracker starts over: nothing is scheduled in it and its handles
/// count from zero, while it sees the results of the tracker it was made
/// from, before and after any scheduling through it.
pub proof fn nested_tracker_starts_over(tracker: TrackerModel, requests: Seq<Request>)
    requires
        requests.len() <= u64::MAX,
    ensures
        ({
            let nested = TrackerModel::fresh(tracker.results);
            &&& nested.scheduled == Map::<u64, ArgsModel>::empty()
            &&& nested.next == 0
            &&& nested.returned is None
            &&& nested.results == tracker.results
            &&& nested.run(requests).results == tracker.results
        }),
{
    run_counts_requests(TrackerModel::fresh(tracker.results), requests);
}

} // verus!
