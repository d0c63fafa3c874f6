//! Test doubles for code that talks to the NEAR runtime through the Aurora
//! engine's interfaces: a promise tracker that records what would have been
//! scheduled, and helpers that drive the self-destruct test contracts.

pub mod payload;
pub mod tree;
pub mod promise;
pub mod laws;
pub mod solidity;
pub mod self_destruct;
