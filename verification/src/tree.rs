//! The tree of promise combinators that a tracker hands back.
//!
//! The shapes are those of NEAR's promise API: a simple promise, a promise
//! with a callback that runs after it, and several promises joined into one.

use aurora_engine_types::parameters::{PromiseBatchAction, PromiseCreateArgs};
use vstd::prelude::*;

verus! {

/// A promise without structure: one call, or one batch of actions.
#[derive(Debug, PartialEq, Eq)]
pub enum SimplePromise {
    Create(PromiseCreateArgs),
    Batch(PromiseBatchAction),
}

/// A promise with its structure: what a handle of a tracker stands for once
/// every handle below it has been folded in.
#[derive(Debug, PartialEq, Eq)]
pub enum PromiseTree {
    /// One call or one batch.
    Simple(SimplePromise),
    /// `callback` runs once `base` has resolved. NEAR takes only a simple
    /// promise as a callback.
    Then { base: Box<PromiseTree>, callback: SimplePromise },
    /// The promises run independently of each other; their order is kept.
    And(Vec<PromiseTree>),
}

/// The mathematical tree behind a `PromiseTree`: the children of `And` are a
/// sequence.
#[verifier::ext_equal]
pub enum TreeModel {
    Simple(SimplePromise),
    Then { base: Box<TreeModel>, callback: SimplePromise },
    And(Seq<TreeModel>),
}

/// The tree of one call.
pub open spec fn call_leaf(call: PromiseCreateArgs) -> TreeModel {
    TreeModel::Simple(SimplePromise::Create(call))
}

/// The tree of one batch.
pub open spec fn batch_leaf(batch: PromiseBatchAction) -> TreeModel {
    TreeModel::Simple(SimplePromise::Batch(batch))
}

/// `callback` after `base`.
pub open spec fn with_callback(base: TreeModel, callback: SimplePromise) -> TreeModel {
    TreeModel::Then { base: Box::new(base), callback }
}

/// The leaves of `calls`, joined in the order of `calls`.
pub open spec fn and_of_calls(calls: Seq<PromiseCreateArgs>) -> TreeModel {
    TreeModel::And(Seq::new(calls.len(), |i: int| call_leaf(calls[i])))
}

/// The model of `tree`.
pub open spec fn tree_model(tree: PromiseTree) -> TreeModel
    decreases tree,
{
    match tree {
        PromiseTree::Simple(simple) => TreeModel::Simple(simple),
        PromiseTree::Then { base, callback } => with_callback(tree_model(*base), callback),
        PromiseTree::And(children) => TreeModel::And(
            Seq::new(
                children@.len(),
                |i: int|
                    if 0 <= i < children@.len() {
                        tree_model(children@[i])
                    } else {
                        arbitrary()
                    },
            ),
        ),
    }
}

impl View for PromiseTree {
    type V = TreeModel;

    open spec fn view(&self) -> TreeModel {
        tree_model(*self)
    }
}

/// The model of a tree that may be absent.
pub open spec fn option_model(tree: Option<PromiseTree>) -> Option<TreeModel> {
    match tree {
        Some(t) => Some(t@),
        None => None,
    }
}

impl PromiseTree {
    /// The tree of one call.
    pub fn call(call: PromiseCreateArgs) -> (tree: PromiseTree)
        ensures
            tree@ == call_leaf(call),
    {
        PromiseTree::Simple(SimplePromise::Create(call))
    }

    /// The tree of one batch.
    pub fn batch(batch: PromiseBatchAction) -> (tree: PromiseTree)
        ensures
            tree@ == batch_leaf(batch),
    {
        PromiseTree::Simple(SimplePromise::Batch(batch))
    }

    /// `callback` after `base`.
    pub fn with_callback(base: PromiseTree, callback: SimplePromise) -> (tree: PromiseTree)
        ensures
            tree@ == with_callback(base@, callback),
    {
        PromiseTree::Then { base: Box::new(base), callback }
    }

    /// The leaves of `calls`, joined in the order of `calls`.
    pub fn and_of_calls(calls: &[PromiseCreateArgs]) -> (tree: PromiseTree)
        ensures
            tree@ == and_of_calls(calls@),
    {
        let mut leaves: Vec<PromiseTree> = Vec::new();
        let mut i: usize = 0;
        while i < calls.len()
            invariant
                i <= calls.len(),
                leaves@.len() == i,
                forall|j: int| 0 <= j < i ==> (#[trigger] leaves@[j])@ == call_leaf(calls@[j]),
            decreases calls.len() - i,
        {
            leaves.push(PromiseTree::call(calls[i].clone()));
            i += 1;
        }
        let tree = PromiseTree::And(leaves);
        assert(tree@ == and_of_calls(calls@)) by {
            assert(tree@->And_0 =~= and_of_calls(calls@)->And_0);
        }
        tree
    }
}

} // verus!
