//! The two contracts of the self-destruct tests: a contract that counts and
//! can destroy itself, and the factory that deploys it.
//!
//! Each request is built here and each answer is read here; signing and
//! submitting lie with the caller.

use crate::solidity::{ContractConstructor, DeployedContract, EngineCall, LegacyTransaction};
use crate::solidity::{call_data, deploy_data, hands_over, sends};
use vstd::prelude::*;
use vstd::std_specs::convert::FromSpecImpl;

verus! {

/// Where the compiled factory lies, seen from the test crate.
pub const FACTORY_ARTIFACT: &'static str =
    "../etc/eth-contracts/artifacts/contracts/test/StateTest.sol/SelfDestructFactory.json";

/// Where the compiled self-destruct contract lies, seen from the test crate.
pub const SELF_DESTRUCT_ARTIFACT: &'static str =
    "../etc/eth-contracts/artifacts/contracts/test/StateTest.sol/SelfDestruct.json";

/// The compiled factory.
pub struct SelfDestructFactoryConstructor(pub ContractConstructor);

impl SelfDestructFactoryConstructor {
    /// The factory as compiled: `compiled` is what was read from
    /// `FACTORY_ARTIFACT`.
    pub fn load(compiled: ContractConstructor) -> (constructor: Self)
        ensures
            constructor.0 == compiled,
    {
        SelfDestructFactoryConstructor(compiled)
    }

    /// The transaction that deploys the factory: it has no receiver and
    /// carries the code. There is one exactly where the constructor of the
    /// ABI takes no arguments.
    pub fn deploy(&self, nonce: u64) -> (tx: Option<LegacyTransaction>)
        ensures
            sends(tx, nonce, None, deploy_data(self.0.abi, self.0.code@)),
    {
        self.0.deploy_without_args(nonce)
    }
}

impl From<SelfDestructFactoryConstructor> for ContractConstructor {
    fn from(c: SelfDestructFactoryConstructor) -> (compiled: ContractConstructor)
        ensures
            compiled == c.0,
    {
        c.0
    }
}

impl FromSpecImpl<SelfDestructFactoryConstructor> for ContractConstructor {
    open spec fn obeys_from_spec() -> bool {
        true
    }

    open spec fn from_spec(c: SelfDestructFactoryConstructor) -> ContractConstructor {
        c.0
    }
}

/// The factory at its address.
pub struct SelfDestructFactory {
    contract: DeployedContract,
}

impl From<DeployedContract> for SelfDestructFactory {
    fn from(contract: DeployedContract) -> (factory: SelfDestructFactory)
        ensures
            factory.contract() == contract,
    {
        SelfDestructFactory { contract }
    }
}

impl FromSpecImpl<DeployedContract> for SelfDestructFactory {
    open spec fn obeys_from_spec() -> bool {
        true
    }

    closed spec fn from_spec(contract: DeployedContract) -> SelfDestructFactory {
        SelfDestructFactory { contract }
    }
}

/// The address in the answer to a `deploy` call: an answer is one word of
/// 32 bytes, and the address is its last 20.
pub open spec fn address_of(output: Seq<u8>) -> Option<Seq<u8>> {
    if output.len() == 32 {
        Some(output.subrange(12, 32))
    } else {
        None
    }
}

impl SelfDestructFactory {
    /// The contract behind the factory.
    pub closed spec fn contract(&self) -> DeployedContract {
        self.contract
    }

    /// The transaction that has the factory deploy a self-destruct contract.
    /// There is one exactly where the ABI lists a `deploy` without arguments.
    pub fn deploy(&self, nonce: u64) -> (tx: Option<LegacyTransaction>)
        ensures
            sends(
                tx,
                nonce,
                Some(self.contract().address),
                call_data(self.contract().abi, "deploy"@),
            ),
            tx matches Some(t) ==> t.data@.len() == 4,
    {
        self.contract.call_without_args("deploy", nonce)
    }

    /// The address of the contract deployed, read from the answer to
    /// `deploy`. `None` where the answer is not one word.
    pub fn deployed_address(output: &[u8]) -> (address: Option<[u8; 20]>)
        ensures
            match address {
                Some(a) => address_of(output@) == Some(a@),
                None => address_of(output@) is None,
            },
    {
        if output.len() != 32 {
            return None;
        }
        let mut address = [0u8; 20];
        let mut i: usize = 0;
        while i < 20
            invariant
                i <= 20,
                output@.len() == 32,
                forall|k: int| 0 <= k < i ==> address@[k] == output@[12 + k],
            decreases 20 - i,
        {
            address[i] = output[12 + i];
            i += 1;
        }
        assert(address@ =~= output@.subrange(12, 32));
        Some(address)
    }
}

/// The compiled self-destruct contract.
pub struct SelfDestructConstructor(pub ContractConstructor);

impl SelfDestructConstructor {
    /// The contract as compiled: `compiled` is what was read from
    /// `SELF_DESTRUCT_ARTIFACT`.
    pub fn load(compiled: ContractConstructor) -> (constructor: Self)
        ensures
            constructor.0 == compiled,
    {
        SelfDestructConstructor(compiled)
    }
}

/// A self-destruct contract at its address.
pub struct SelfDestruct {
    contract: DeployedContract,
}

impl From<DeployedContract> for SelfDestruct {
    fn from(contract: DeployedContract) -> (deployed: SelfDestruct)
        ensures
            deployed.contract() == contract,
    {
        SelfDestruct { contract }
    }
}

impl FromSpecImpl<DeployedContract> for SelfDestruct {
    open spec fn obeys_from_spec() -> bool {
        true
    }

    closed spec fn from_spec(contract: DeployedContract) -> SelfDestruct {
        SelfDestruct { contract }
    }
}

/// The number that `bytes` spell, the highest byte first.
pub open spec fn be_value(bytes: Seq<u8>) -> nat
    decreases bytes.len(),
{
    if bytes.len() == 0 {
        0
    } else {
        be_value(bytes.drop_last()) * 256 + bytes.last() as nat
    }
}

/// The counter in the answer to a `counter` call: an answer is one word of
/// 32 bytes, and the counter is the number in its last 16.
pub open spec fn counter_of(output: Seq<u8>) -> Option<u128> {
    if output.len() == 32 {
        Some(be_value(output.subrange(16, 32)) as u128)
    } else {
        None
    }
}

spec fn pow256(n: nat) -> nat
    decreases n,
{
    if n == 0 {
        1
    } else {
        256 * pow256((n - 1) as nat)
    }
}

proof fn be_value_is_bounded(bytes: Seq<u8>)
    ensures
        be_value(bytes) < pow256(bytes.len()),
    decreases bytes.len(),
{
    if bytes.len() > 0 {
        be_value_is_bounded(bytes.drop_last());
    }
}

proof fn pow256_grows(low: nat, high: nat)
    requires
        low <= high,
    ensures
        pow256(low) <= pow256(high),
    decreases high,
{
    if low < high {
        pow256_grows(low, (high - 1) as nat);
    }
}

/// Sixteen bytes spell a number below `2^128`.
pub proof fn sixteen_bytes_fit(bytes: Seq<u8>)
    requires
        bytes.len() <= 16,
    ensures
        be_value(bytes) <= u128::MAX,
{
    be_value_is_bounded(bytes);
    pow256_grows(bytes.len(), 16);
    assert(pow256(16) == 0x1_0000_0000_0000_0000_0000_0000_0000_0000) by {
        reveal_with_fuel(pow256, 17);
    }
}

impl SelfDestruct {
    /// The contract itself.
    pub closed spec fn contract(&self) -> DeployedContract {
        self.contract
    }

    /// The transaction that asks for the counter. There is one exactly
    /// where the ABI lists a `counter` without arguments.
    pub fn counter(&self, nonce: u64) -> (tx: Option<LegacyTransaction>)
        ensures
            sends(
                tx,
                nonce,
                Some(self.contract().address),
                call_data(self.contract().abi, "counter"@),
            ),
            tx matches Some(t) ==> t.data@.len() == 4,
    {
        self.contract.call_without_args("counter", nonce)
    }

    /// The counter, read from the answer to `counter`. `None` where the
    /// answer is not one word, as after the contract has destroyed itself.
    pub fn decode_counter(output: &[u8]) -> (counter: Option<u128>)
        ensures
            counter == counter_of(output@),
    {
        if output.len() != 32 {
            return None;
        }
        let mut value: u128 = 0;
        let mut i: usize = 16;
        while i < 32
            invariant
                16 <= i <= 32,
                output@.len() == 32,
                value == be_value(output@.subrange(16, i as int)),
            decreases 32 - i,
        {
            proof {
                let next = output@.subrange(16, i + 1);
                assert(next.drop_last() =~= output@.subrange(16, i as int));
                sixteen_bytes_fit(next);
            }
            value = value * 256 + output[i] as u128;
            i += 1;
        }
        Some(value)
    }

    /// The transaction that raises the counter by one. There is one
    /// exactly where the ABI lists an `increase` without arguments.
    pub fn increase(&self, nonce: u64) -> (tx: Option<LegacyTransaction>)
        ensures
            sends(
                tx,
                nonce,
                Some(self.contract().address),
                call_data(self.contract().abi, "increase"@),
            ),
            tx matches Some(t) ==> t.data@.len() == 4,
    {
        self.contract.call_without_args("increase", nonce)
    }

    /// The transaction that has the contract destroy itself. There is
    /// one exactly where the ABI lists a `finish` without arguments.
    pub fn finish_using_submit(&self, nonce: u64) -> (tx: Option<LegacyTransaction>)
        ensures
            sends(
                tx,
                nonce,
                Some(self.contract().address),
                call_data(self.contract().abi, "finish"@),
            ),
            tx matches Some(t) ==> t.data@.len() == 4,
    {
        self.contract.call_without_args("finish", nonce)
    }

    /// The call of the engine's `call` method, made by `anyone`, that has
    /// the contract destroy itself. There is one exactly where the ABI lists
    /// a `finish` without arguments.
    pub fn finish(&self) -> (call: Option<EngineCall>)
        ensures
            hands_over(
                call,
                self.contract().address@,
                call_data(self.contract().abi, "finish"@),
            ),
            call matches Some(c) ==> c.input@.len() == 61,
    {
        self.contract.engine_call_without_args("finish")
    }
}

} // verus!
