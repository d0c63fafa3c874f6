//! A promise handler that schedules nothing: it records what was asked for
//! and can put the records of one handle together into a tree.

use crate::tree::{and_of_calls, batch_leaf, call_leaf, option_model, with_callback};
use crate::tree::{PromiseTree, SimplePromise, TreeModel};
use aurora_engine_types::parameters::{PromiseBatchAction, PromiseCreateArgs};
use aurora_engine_types::types::PromiseResult;
use std::collections::HashMap;
use vstd::prelude::*;

verus! {

/// What a tracker keeps under one handle.
#[derive(Debug, PartialEq, Eq)]
pub enum PromiseArgs {
    /// A single call.
    Create(PromiseCreateArgs),
    /// A call that runs after the promise under `base`. The base is looked
    /// up only when the tree is put together.
    Callback { base: u64, callback: PromiseCreateArgs },
    /// A batch of actions.
    Batch(PromiseBatchAction),
    /// A tree that has been put together already.
    Recursive(PromiseTree),
}

/// The model of a `PromiseArgs`.
#[verifier::ext_equal]
pub enum ArgsModel {
    Create(PromiseCreateArgs),
    Callback { base: u64, callback: PromiseCreateArgs },
    Batch(PromiseBatchAction),
    Recursive(TreeModel),
}

impl View for PromiseArgs {
    type V = ArgsModel;

    open spec fn view(&self) -> ArgsModel {
        match *self {
            PromiseArgs::Create(call) => ArgsModel::Create(call),
            PromiseArgs::Callback { base, callback } => ArgsModel::Callback { base, callback },
            PromiseArgs::Batch(batch) => ArgsModel::Batch(batch),
            PromiseArgs::Recursive(tree) => ArgsModel::Recursive(tree@),
        }
    }
}

/// The tree that stands under `id` in `scheduled`.
///
/// A call or a batch is a leaf and a stored tree is itself. A callback is
/// put after the tree of its base, which is looked up with `id` already taken
/// out. There is no tree where `id` is absent, or where the chain of bases
/// ends in an absent handle.
pub open spec fn resolve(scheduled: Map<u64, ArgsModel>, id: u64) -> Option<TreeModel>
    decreases scheduled.dom().len(),
    when scheduled.dom().finite()
{
    if !scheduled.contains_key(id) {
        None
    } else {
        match scheduled[id] {
            ArgsModel::Create(call) => Some(call_leaf(call)),
            ArgsModel::Batch(batch) => Some(batch_leaf(batch)),
            ArgsModel::Recursive(tree) => Some(tree),
            ArgsModel::Callback { base, callback } => match resolve(scheduled.remove(id), base) {
                Some(tree) => Some(with_callback(tree, SimplePromise::Create(callback))),
                None => None,
            },
        }
    }
}

/// What is left of `scheduled` once the tree under `id` has been looked up:
/// `id` is gone, and so is every handle on its chain of bases, as far as the
/// chain was followed.
pub open spec fn consume(scheduled: Map<u64, ArgsModel>, id: u64) -> Map<u64, ArgsModel>
    decreases scheduled.dom().len(),
    when scheduled.dom().finite()
{
    if !scheduled.contains_key(id) {
        scheduled
    } else {
        match scheduled[id] {
            ArgsModel::Callback { base, callback } => consume(scheduled.remove(id), base),
            _ => scheduled.remove(id),
        }
    }
}

/// The model of a tracker.
#[verifier::ext_equal]
pub struct TrackerModel {
    /// The handle that the next scheduling call returns.
    pub next: u64,
    /// The results of earlier promises, as callbacks see them.
    pub results: Seq<PromiseResult>,
    /// What is kept under each handle.
    pub scheduled: Map<u64, ArgsModel>,
    /// The handle last marked as the value to return, if any.
    pub returned: Option<u64>,
}

impl TrackerModel {
    /// A tracker on which nothing was scheduled, with the given results.
    pub open spec fn fresh(results: Seq<PromiseResult>) -> TrackerModel {
        TrackerModel { next: 0, results, scheduled: Map::empty(), returned: None }
    }

    /// The tracker with its next handle used up and nothing stored under it.
    pub open spec fn take_id(self) -> TrackerModel {
        TrackerModel { next: (self.next + 1) as u64, ..self }
    }

    /// The tracker after `args` was stored under its next handle.
    pub open spec fn schedule(self, args: ArgsModel) -> TrackerModel {
        TrackerModel { scheduled: self.scheduled.insert(self.next, args), ..self.take_id() }
    }

    /// The tracker after the tree under `id` was taken out of it.
    pub open spec fn remove(self, id: u64) -> TrackerModel {
        TrackerModel { scheduled: consume(self.scheduled, id), ..self }
    }

    /// The tracker after a batch was attached to the promise under `base`:
    /// the tree under `base` is taken out; where there is one, the batch is
    /// put after it and the whole stored under the next handle. The handle
    /// is used up either way.
    pub open spec fn attach_batch(self, base: u64, batch: PromiseBatchAction) -> TrackerModel {
        match resolve(self.scheduled, base) {
            Some(tree) => self.remove(base).schedule(
                ArgsModel::Recursive(with_callback(tree, SimplePromise::Batch(batch))),
            ),
            None => self.remove(base).take_id(),
        }
    }

    /// The tracker after `id` was marked as the value to return.
    pub open spec fn mark_returned(self, id: u64) -> TrackerModel {
        TrackerModel { returned: Some(id), ..self }
    }

    /// The result at `index`, if there is one.
    pub open spec fn result_at(self, index: u64) -> Option<PromiseResult> {
        if index < self.results.len() {
            Some(self.results[index as int])
        } else {
            None
        }
    }
}

/// The base of a batch callback did not stand for a tree: the handle was
/// never issued, or was folded into another tree before.
#[derive(Debug, Clone, Copy, PartialEq, Eq)]
pub struct UnknownPromise {
    /// The handle that was looked up.
    pub base: u64,
}

/// Doesn't actually schedule any promises, only tracks what promises should
/// be scheduled.
pub struct PromiseTracker {
    internal_index: u64,
    pub promise_results: Vec<PromiseResult>,
    pub scheduled_promises: HashMap<u64, PromiseArgs>,
    pub returned_promise: Option<u64>,
}

impl View for PromiseTracker {
    type V = TrackerModel;

    closed spec fn view(&self) -> TrackerModel {
        TrackerModel {
            next: self.internal_index,
            results: self.promise_results@,
            scheduled: self.scheduled_promises@.map_values(|args: PromiseArgs| args@),
            returned: self.returned_promise,
        }
    }
}

impl Default for PromiseTracker {
    fn default() -> (tracker: Self)
        ensures
            tracker@ == TrackerModel::fresh(Seq::empty()),
    {
        let tracker = PromiseTracker {
            internal_index: 0,
            promise_results: Vec::new(),
            scheduled_promises: HashMap::new(),
            returned_promise: None,
        };
        assert(tracker@.scheduled =~= Map::empty());
        tracker
    }
}

impl PromiseTracker {
    /// A tracker holds finitely many handles, so every look-up in it ends.
    pub proof fn scheduled_is_finite(&self)
        ensures
            self@.scheduled.dom().finite(),
    {
        assert(self@.scheduled.dom() =~= self.scheduled_promises@.dom());
    }

    /// The handle that the next scheduling call returns.
    pub fn next_id(&self) -> (id: u64)
        ensures
            id == self@.next,
    {
        self.internal_index
    }

    fn take_id(&mut self) -> (id: u64)
        requires
            old(self)@.next < u64::MAX,
        ensures
            id == old(self)@.next,
            final(self)@ == old(self)@.take_id(),
    {
        let id = self.internal_index;
        self.internal_index += 1;
        id
    }

    fn store(&mut self, id: u64, args: PromiseArgs)
        ensures
            final(self)@ == (TrackerModel {
                scheduled: old(self)@.scheduled.insert(id, args@),
                ..old(self)@
            }),
    {
        self.scheduled_promises.insert(id, args);
        assert(final(self)@.scheduled =~= old(self)@.scheduled.insert(id, args@));
    }

    /// How many results of earlier promises there are.
    pub fn promise_results_count(&self) -> (count: u64)
        ensures
            count == self@.results.len(),
    {
        self.promise_results.len() as u64
    }

    /// The result at `index`, or `None` where `index` is past the last one.
    pub fn promise_result(&self, index: u64) -> (result: Option<PromiseResult>)
        ensures
            result == self@.result_at(index),
    {
        if index < self.promise_results.len() as u64 {
            Some(self.promise_results[index as usize].clone())
        } else {
            None
        }
    }

    /// Records a single call and returns its handle.
    pub fn promise_create_call(&mut self, args: &PromiseCreateArgs) -> (id: u64)
        requires
            old(self)@.next < u64::MAX,
        ensures
            id == old(self)@.next,
            final(self)@ == old(self)@.schedule(ArgsModel::Create(*args)),
    {
        let id = self.take_id();
        self.store(id, PromiseArgs::Create(args.clone()));
        id
    }

    /// Records the calls of `args`, joined into one promise in their order,
    /// and returns its handle.
    pub fn promise_create_and_combine(&mut self, args: &[PromiseCreateArgs]) -> (id: u64)
        requires
            old(self)@.next < u64::MAX,
        ensures
            id == old(self)@.next,
            final(self)@ == old(self)@.schedule(ArgsModel::Recursive(and_of_calls(args@))),
    {
        let id = self.take_id();
        self.store(id, PromiseArgs::Recursive(PromiseTree::and_of_calls(args)));
        id
    }

    /// Records a call that runs after the promise under `base` and returns
    /// its handle. `base` is not looked up here: it may stand for nothing
    /// yet, or never.
    pub fn promise_attach_callback(&mut self, base: u64, callback: &PromiseCreateArgs) -> (id: u64)
        requires
            old(self)@.next < u64::MAX,
        ensures
            id == old(self)@.next,
            final(self)@ == old(self)@.schedule(
                ArgsModel::Callback { base, callback: *callback },
            ),
    {
        let id = self.take_id();
        self.store(id, PromiseArgs::Callback { base, callback: callback.clone() });
        id
    }

    /// Records a batch of actions and returns its handle.
    pub fn promise_create_batch(&mut self, args: &PromiseBatchAction) -> (id: u64)
        requires
            old(self)@.next < u64::MAX,
        ensures
            id == old(self)@.next,
            final(self)@ == old(self)@.schedule(ArgsModel::Batch(*args)),
    {
        let id = self.take_id();
        self.store(id, PromiseArgs::Batch(args.clone()));
        id
    }

    /// Records a batch that runs after the promise under `base`.
    ///
    /// The tree under `base` is taken out of the tracker at once, and the
    /// batch is stored together with it under the handle returned. Where
    /// `base` stands for no tree the call fails; the handle it would have
    /// returned is used up, and what was taken out on the way stays out.
    pub fn promise_attach_batch_callback(&mut self, base: u64, args: &PromiseBatchAction) -> (id:
        Result<u64, UnknownPromise>)
        requires
            old(self)@.next < u64::MAX,
        ensures
            final(self)@ == old(self)@.attach_batch(base, *args),
            id == (match resolve(old(self)@.scheduled, base) {
                Some(_) => Ok::<u64, UnknownPromise>(old(self)@.next),
                None => Err::<u64, UnknownPromise>(UnknownPromise { base }),
            }),
    {
        let id = self.take_id();
        match self.remove_as_near_promise(base) {
            Some(tree) => {
                let batch = SimplePromise::Batch(args.clone());
                self.store(id, PromiseArgs::Recursive(PromiseTree::with_callback(tree, batch)));
                Ok(id)
            },
            None => Err(UnknownPromise { base }),
        }
    }

    /// Marks `promise` as the value that the whole call returns. The last
    /// mark counts; the handle is not looked up.
    pub fn promise_return(&mut self, promise: u64)
        ensures
            final(self)@ == old(self)@.mark_returned(promise),
    {
        self.returned_promise = Some(promise);
    }

    /// A tracker for a nested, read-only run: it sees the same results, and
    /// nothing that was scheduled here.
    pub fn read_only(&self) -> (nested: PromiseTracker)
        ensures
            nested@ == TrackerModel::fresh(self@.results),
    {
        let nested = PromiseTracker {
            internal_index: 0,
            promise_results: self.promise_results.clone(),
            scheduled_promises: HashMap::new(),
            returned_promise: None,
        };
        assert(nested@.scheduled =~= Map::empty());
        assert(nested@.results =~= self@.results);
        nested
    }

    /// Takes the tree under `id` out of the tracker.
    ///
    /// Every handle that the tree was put together from is gone afterwards,
    /// so no handle is handed out twice. Where the chain of bases ends in a
    /// handle that is absent, there is no tree, and the handles followed up
    /// to there are gone all the same.
    pub fn remove_as_near_promise(&mut self, id: u64) -> (tree: Option<PromiseTree>)
        ensures
            option_model(tree) == resolve(old(self)@.scheduled, id),
            final(self)@ == old(self)@.remove(id),
        decreases old(self)@.scheduled.dom().len(),
    {
        let ghost before = self@.scheduled;
        let removed = self.scheduled_promises.remove(&id);
        proof {
            assert(before.dom() =~= old(self).scheduled_promises@.dom());
            assert(self@.scheduled =~= before.remove(id));
        }
        match removed {
            None => None,
            Some(PromiseArgs::Batch(batch)) => Some(PromiseTree::batch(batch)),
            Some(PromiseArgs::Create(call)) => Some(PromiseTree::call(call)),
            Some(PromiseArgs::Recursive(tree)) => Some(tree),
            Some(PromiseArgs::Callback { base, callback }) => {
                match self.remove_as_near_promise(base) {
                    Some(tree) => Some(PromiseTree::with_callback(tree, SimplePromise::Create(callback))),
                    None => None,
                }
            },
        }
    }
}

} // verus!
