//! The values a tracker stores without looking inside them.
//!
//! Call descriptions, batch actions and promise results are types of
//! `aurora_engine_types`. The tracker only copies and stores them, so they are
//! declared here as opaque types, together with what is assumed of their
//! `Clone` impls.

use aurora_engine_types::parameters::{PromiseBatchAction, PromiseCreateArgs};
use aurora_engine_types::types::PromiseResult;
use vstd::prelude::*;

verus! {

/// A single cross-contract call: target, method, arguments, attached balance
/// and gas. Opaque to the verifier.
#[verifier::external_type_specification]
#[verifier::external_body]
pub struct ExPromiseCreateArgs(aurora_engine_types::parameters::PromiseCreateArgs);

/// A batch of account-level actions on one target account. Opaque to the
/// verifier.
#[verifier::external_type_specification]
#[verifier::external_body]
pub struct ExPromiseBatchAction(aurora_engine_types::parameters::PromiseBatchAction);

/// The outcome of an earlier promise: not ready, successful with bytes, or
/// failed. Opaque to the verifier.
#[verifier::external_type_specification]
#[verifier::external_body]
pub struct ExPromiseResult(aurora_engine_types::types::PromiseResult);

/// `Clone` for `PromiseCreateArgs` is derived, field by field: the copy is
/// assumed equal to the value copied.
pub assume_specification[ <PromiseCreateArgs as Clone>::clone ](
    args: &PromiseCreateArgs,
) -> (copy: PromiseCreateArgs)
    ensures
        copy == *args,
;

/// `Clone` for `PromiseBatchAction` is derived, field by field: the copy is
/// assumed equal to the value copied.
pub assume_specification[ <PromiseBatchAction as Clone>::clone ](
    batch: &PromiseBatchAction,
) -> (copy: PromiseBatchAction)
    ensures
        copy == *batch,
;

/// `Clone` for `PromiseResult` is derived, variant by variant: the copy is
/// assumed equal to the value copied.
pub assume_specification[ <PromiseResult as Clone>::clone ](result: &PromiseResult) -> (copy:
    PromiseResult)
    ensures
        copy == *result,
;

} // verus!
