use aurora_engine_types::parameters::{PromiseAction, PromiseBatchAction, PromiseCreateArgs};
use aurora_engine_types::types::{NearGas, PromiseResult, Yocto};
use engine_test_doubles::promise::{PromiseArgs, PromiseTracker, UnknownPromise};
use engine_test_doubles::tree::{PromiseTree, SimplePromise};

fn call(method: &str, args: Vec<u8>) -> PromiseCreateArgs {
    PromiseCreateArgs {
        target_account_id: "target.near".parse().unwrap(),
        method: method.to_string(),
        args,
        attached_balance: Yocto::new(7),
        attached_gas: NearGas::new(5_000_000_000_000),
    }
}

fn batch(amount: u128) -> PromiseBatchAction {
    PromiseBatchAction {
        target_account_id: "batch.near".parse().unwrap(),
        actions: vec![
            PromiseAction::CreateAccount,
            PromiseAction::Transfer { amount: Yocto::new(amount) },
        ],
    }
}

fn leaf(c: PromiseCreateArgs) -> PromiseTree {
    PromiseTree::Simple(SimplePromise::Create(c))
}

fn with_results() -> PromiseTracker {
    let mut tracker = PromiseTracker::default();
    tracker.promise_results = vec![
        PromiseResult::Successful(vec![1, 2, 3]),
        PromiseResult::Failed,
        PromiseResult::NotReady,
    ];
    tracker
}

#[test]
fn default_tracker_is_empty() {
    let tracker = PromiseTracker::default();
    assert_eq!(tracker.next_id(), 0);
    assert_eq!(tracker.promise_results_count(), 0);
    assert!(tracker.scheduled_promises.is_empty());
    assert_eq!(tracker.returned_promise, None);
}

#[test]
fn handles_count_up_from_zero() {
    let mut tracker = PromiseTracker::default();
    let c = call("a", vec![1]);
    let b = batch(1);
    assert_eq!(tracker.promise_create_call(&c), 0);
    assert_eq!(tracker.promise_create_and_combine(&[c.clone(), c.clone()]), 1);
    assert_eq!(tracker.promise_attach_callback(0, &c), 2);
    assert_eq!(tracker.promise_create_batch(&b), 3);
    assert_eq!(tracker.promise_attach_batch_callback(3, &b), Ok(4));
    assert_eq!(tracker.promise_create_call(&c), 5);
    assert_eq!(tracker.next_id(), 6);
}

#[test]
fn handle_is_not_reused_after_removal() {
    let mut tracker = PromiseTracker::default();
    let c = call("a", vec![]);
    assert_eq!(tracker.promise_create_call(&c), 0);
    assert!(tracker.remove_as_near_promise(0).is_some());
    assert_eq!(tracker.promise_create_call(&c), 1);
    assert!(!tracker.scheduled_promises.contains_key(&0));
}

#[test]
fn single_call_comes_back_unchanged() {
    let mut tracker = PromiseTracker::default();
    let c = call("transfer", vec![0, 255, 16, 32]);
    let id = tracker.promise_create_call(&c);
    assert_eq!(tracker.scheduled_promises.get(&id), Some(&PromiseArgs::Create(c.clone())));
    assert_eq!(tracker.remove_as_near_promise(id), Some(leaf(c)));
    assert!(tracker.scheduled_promises.is_empty());
}

#[test]
fn batch_comes_back_as_leaf() {
    let mut tracker = PromiseTracker::default();
    let b = batch(42);
    let id = tracker.promise_create_batch(&b);
    assert_eq!(tracker.scheduled_promises.get(&id), Some(&PromiseArgs::Batch(b.clone())));
    assert_eq!(
        tracker.remove_as_near_promise(id),
        Some(PromiseTree::Simple(SimplePromise::Batch(b)))
    );
}

#[test]
fn combined_calls_keep_their_order() {
    let mut tracker = PromiseTracker::default();
    let c1 = call("zzz", vec![3]);
    let c2 = call("aaa", vec![1]);
    let c3 = call("mmm", vec![2]);
    let id = tracker.promise_create_and_combine(&[c1.clone(), c2.clone(), c3.clone()]);
    assert_eq!(
        tracker.remove_as_near_promise(id),
        Some(PromiseTree::And(vec![leaf(c1), leaf(c2), leaf(c3)]))
    );
}

#[test]
fn combining_nothing_gives_an_empty_and() {
    let mut tracker = PromiseTracker::default();
    let id = tracker.promise_create_and_combine(&[]);
    assert_eq!(id, 0);
    assert_eq!(tracker.remove_as_near_promise(id), Some(PromiseTree::And(vec![])));
}

#[test]
fn batch_callback_chains_onto_its_base() {
    let mut tracker = PromiseTracker::default();
    let c1 = call("first", vec![1]);
    let b1 = batch(10);
    let h1 = tracker.promise_create_call(&c1);
    let h2 = tracker.promise_attach_batch_callback(h1, &b1).unwrap();
    assert_eq!(h2, 1);
    assert!(!tracker.scheduled_promises.contains_key(&h1));
    let expected = PromiseTree::Then {
        base: Box::new(leaf(c1.clone())),
        callback: SimplePromise::Batch(b1.clone()),
    };
    assert_eq!(
        tracker.scheduled_promises.get(&h2),
        Some(&PromiseArgs::Recursive(PromiseTree::Then {
            base: Box::new(leaf(c1)),
            callback: SimplePromise::Batch(b1),
        }))
    );
    assert_eq!(tracker.remove_as_near_promise(h2), Some(expected));
    assert_eq!(tracker.remove_as_near_promise(h1), None);
    assert_eq!(tracker.remove_as_near_promise(h2), None);
}

#[test]
fn batch_callbacks_nest() {
    let mut tracker = PromiseTracker::default();
    let c1 = call("first", vec![1]);
    let b1 = batch(10);
    let b2 = batch(20);
    let h1 = tracker.promise_create_call(&c1);
    let h2 = tracker.promise_attach_batch_callback(h1, &b1).unwrap();
    let h3 = tracker.promise_attach_batch_callback(h2, &b2).unwrap();
    assert_eq!((h1, h2, h3), (0, 1, 2));
    let expected = PromiseTree::Then {
        base: Box::new(PromiseTree::Then {
            base: Box::new(leaf(c1)),
            callback: SimplePromise::Batch(b1),
        }),
        callback: SimplePromise::Batch(b2),
    };
    assert_eq!(tracker.remove_as_near_promise(h3), Some(expected));
    assert!(tracker.scheduled_promises.is_empty());
}

#[test]
fn batch_callback_on_unknown_base_fails() {
    let mut tracker = PromiseTracker::default();
    let b1 = batch(10);
    assert_eq!(
        tracker.promise_attach_batch_callback(999, &b1),
        Err(UnknownPromise { base: 999 })
    );
    assert!(tracker.scheduled_promises.is_empty());
    assert_eq!(tracker.next_id(), 1);
}

#[test]
fn batch_callback_on_consumed_base_fails() {
    let mut tracker = PromiseTracker::default();
    let c1 = call("first", vec![]);
    let b1 = batch(1);
    let h1 = tracker.promise_create_call(&c1);
    assert_eq!(tracker.promise_attach_batch_callback(h1, &b1), Ok(1));
    assert_eq!(
        tracker.promise_attach_batch_callback(h1, &b1),
        Err(UnknownPromise { base: h1 })
    );
    assert_eq!(tracker.scheduled_promises.len(), 1);
    assert!(tracker.scheduled_promises.contains_key(&1));
}

#[test]
fn callback_is_stored_without_lookup() {
    let mut tracker = PromiseTracker::default();
    let c = call("later", vec![9]);
    let id = tracker.promise_attach_callback(77, &c);
    assert_eq!(id, 0);
    assert_eq!(
        tracker.scheduled_promises.get(&id),
        Some(&PromiseArgs::Callback { base: 77, callback: c })
    );
}

#[test]
fn callback_resolves_after_its_base() {
    let mut tracker = PromiseTracker::default();
    let c1 = call("base", vec![1]);
    let c2 = call("callback", vec![2]);
    let h1 = tracker.promise_create_call(&c1);
    let h2 = tracker.promise_attach_callback(h1, &c2);
    assert_eq!(tracker.scheduled_promises.len(), 2);
    assert_eq!(
        tracker.remove_as_near_promise(h2),
        Some(PromiseTree::Then { base: Box::new(leaf(c1)), callback: SimplePromise::Create(c2) })
    );
    assert!(tracker.scheduled_promises.is_empty());
}

#[test]
fn callback_may_name_a_later_handle() {
    let mut tracker = PromiseTracker::default();
    let c1 = call("callback", vec![1]);
    let c2 = call("base", vec![2]);
    let h1 = tracker.promise_attach_callback(1, &c1);
    let h2 = tracker.promise_create_call(&c2);
    assert_eq!((h1, h2), (0, 1));
    assert_eq!(
        tracker.remove_as_near_promise(h1),
        Some(PromiseTree::Then { base: Box::new(leaf(c2)), callback: SimplePromise::Create(c1) })
    );
}

#[test]
fn callback_on_missing_base_is_unknown_and_consumed() {
    let mut tracker = PromiseTracker::default();
    let c1 = call("base", vec![1]);
    let c2 = call("callback", vec![2]);
    let keep = tracker.promise_create_call(&c1);
    let h = tracker.promise_attach_callback(500, &c2);
    assert_eq!(tracker.remove_as_near_promise(h), None);
    assert!(!tracker.scheduled_promises.contains_key(&h));
    assert!(tracker.scheduled_promises.contains_key(&keep));
}

#[test]
fn callback_on_itself_is_unknown() {
    let mut tracker = PromiseTracker::default();
    let c = call("loop", vec![]);
    let h = tracker.promise_attach_callback(0, &c);
    assert_eq!(h, 0);
    assert_eq!(tracker.remove_as_near_promise(h), None);
    assert!(tracker.scheduled_promises.is_empty());
}

#[test]
fn callback_chain_is_consumed_up_to_the_gap() {
    let mut tracker = PromiseTracker::default();
    let c = call("step", vec![]);
    let h0 = tracker.promise_attach_callback(100, &c);
    let h1 = tracker.promise_attach_callback(h0, &c);
    let h2 = tracker.promise_attach_callback(h1, &c);
    let other = tracker.promise_create_call(&c);
    assert_eq!(
        tracker.promise_attach_batch_callback(h2, &batch(1)),
        Err(UnknownPromise { base: h2 })
    );
    assert_eq!(tracker.scheduled_promises.len(), 1);
    assert!(tracker.scheduled_promises.contains_key(&other));
    assert_eq!(tracker.next_id(), 5);
}

#[test]
fn batch_callback_folds_a_callback_chain() {
    let mut tracker = PromiseTracker::default();
    let c1 = call("base", vec![1]);
    let c2 = call("callback", vec![2]);
    let b = batch(3);
    let h1 = tracker.promise_create_call(&c1);
    let h2 = tracker.promise_attach_callback(h1, &c2);
    let h3 = tracker.promise_attach_batch_callback(h2, &b).unwrap();
    assert_eq!(tracker.scheduled_promises.len(), 1);
    assert_eq!(
        tracker.remove_as_near_promise(h3),
        Some(PromiseTree::Then {
            base: Box::new(PromiseTree::Then {
                base: Box::new(leaf(c1)),
                callback: SimplePromise::Create(c2),
            }),
            callback: SimplePromise::Batch(b),
        })
    );
}

#[test]
fn removing_unknown_handle_changes_nothing() {
    let mut tracker = PromiseTracker::default();
    let c = call("a", vec![]);
    tracker.promise_create_call(&c);
    assert_eq!(tracker.remove_as_near_promise(5), None);
    assert_eq!(tracker.scheduled_promises.len(), 1);
    assert_eq!(tracker.next_id(), 1);
}

#[test]
fn results_are_read_by_index() {
    let tracker = with_results();
    assert_eq!(tracker.promise_results_count(), 3);
    assert_eq!(tracker.promise_result(0), Some(PromiseResult::Successful(vec![1, 2, 3])));
    assert_eq!(tracker.promise_result(1), Some(PromiseResult::Failed));
    assert_eq!(tracker.promise_result(2), Some(PromiseResult::NotReady));
    assert_eq!(tracker.promise_result(3), None);
    assert_eq!(tracker.promise_result(4), None);
    assert_eq!(tracker.promise_result(u64::MAX), None);
}

#[test]
fn results_of_empty_tracker() {
    let tracker = PromiseTracker::default();
    assert_eq!(tracker.promise_results_count(), 0);
    assert_eq!(tracker.promise_result(0), None);
}

#[test]
fn scheduling_leaves_results_alone() {
    let mut tracker = with_results();
    tracker.promise_create_call(&call("a", vec![]));
    tracker.promise_create_batch(&batch(1));
    tracker.promise_return(0);
    assert_eq!(tracker.promise_results_count(), 3);
    assert_eq!(tracker.promise_result(0), Some(PromiseResult::Successful(vec![1, 2, 3])));
}

#[test]
fn last_return_mark_counts() {
    let mut tracker = PromiseTracker::default();
    let h1 = tracker.promise_create_call(&call("a", vec![]));
    let h2 = tracker.promise_create_call(&call("b", vec![]));
    tracker.promise_return(h1);
    assert_eq!(tracker.returned_promise, Some(h1));
    tracker.promise_return(h2);
    assert_eq!(tracker.returned_promise, Some(h2));
}

#[test]
fn return_mark_is_not_checked() {
    let mut tracker = PromiseTracker::default();
    tracker.promise_return(12345);
    assert_eq!(tracker.returned_promise, Some(12345));
    assert!(tracker.scheduled_promises.is_empty());
}

#[test]
fn read_only_tracker_starts_over() {
    let mut tracker = with_results();
    let c = call("outer", vec![]);
    tracker.promise_create_call(&c);
    tracker.promise_create_call(&c);
    tracker.promise_return(1);

    let mut nested = tracker.read_only();
    assert_eq!(nested.next_id(), 0);
    assert!(nested.scheduled_promises.is_empty());
    assert_eq!(nested.returned_promise, None);
    assert_eq!(nested.promise_results, tracker.promise_results);
    assert_eq!(nested.promise_results_count(), 3);

    let inner = call("inner", vec![1]);
    assert_eq!(nested.promise_create_call(&inner), 0);
    nested.promise_return(0);
    assert_eq!(nested.remove_as_near_promise(0), Some(leaf(inner)));

    assert_eq!(tracker.next_id(), 2);
    assert_eq!(tracker.scheduled_promises.len(), 2);
    assert_eq!(tracker.scheduled_promises.get(&0), Some(&PromiseArgs::Create(c)));
    assert_eq!(tracker.returned_promise, Some(1));
}

#[test]
fn tree_builders_agree_with_the_variants() {
    let c = call("a", vec![1]);
    let b = batch(2);
    assert_eq!(PromiseTree::call(c.clone()), leaf(c.clone()));
    assert_eq!(
        PromiseTree::batch(b.clone()),
        PromiseTree::Simple(SimplePromise::Batch(b.clone()))
    );
    assert_eq!(
        PromiseTree::with_callback(leaf(c.clone()), SimplePromise::Batch(b.clone())),
        PromiseTree::Then { base: Box::new(leaf(c.clone())), callback: SimplePromise::Batch(b) }
    );
    assert_eq!(
        PromiseTree::and_of_calls(&[c.clone(), c.clone()]),
        PromiseTree::And(vec![leaf(c.clone()), leaf(c)])
    );
}
