//! Compiled Solidity contracts as the tests handle them, and the requests
//! that are made of them.
//!
//! The ABI of a contract is an `ethabi::Contract`, which encodes the calls.
//! What is sent to the engine is described in plain values, for the caller
//! to sign and submit.

use aurora_engine_types::parameters::engine::{CallArgs, FunctionCallArgsV2};
use aurora_engine_types::types::Address;
use vstd::prelude::*;

verus! {

/// The description of a contract's interface. Opaque to the verifier.
#[verifier::external_type_specification]
#[verifier::external_body]
pub struct ExContract(ethabi::Contract);

/// The gas limit of every transaction made here.
pub const DEFAULT_GAS: u64 = 1_000_000_000;

/// A compiled contract that has not been deployed.
pub struct ContractConstructor {
    pub abi: ethabi::Contract,
    pub code: Vec<u8>,
}

/// A contract at its address.
pub struct DeployedContract {
    pub abi: ethabi::Contract,
    pub address: [u8; 20],
}

/// A legacy Ethereum transaction before it is signed. Gas price and value
/// are small numbers here, so they are kept as `u64`.
#[derive(Debug, PartialEq, Eq)]
pub struct LegacyTransaction {
    pub nonce: u64,
    pub gas_price: u64,
    pub gas_limit: u64,
    /// The contract called, or `None` to deploy one.
    pub to: Option<[u8; 20]>,
    pub value: u64,
    pub data: Vec<u8>,
}

impl LegacyTransaction {
    /// The transaction has the given nonce, receiver and data, pays nothing
    /// for gas, may use `DEFAULT_GAS`, and transfers nothing.
    pub open spec fn is_call(self, nonce: u64, to: Option<[u8; 20]>, data: Seq<u8>) -> bool {
        &&& self.nonce == nonce
        &&& self.gas_price == 0
        &&& self.gas_limit == DEFAULT_GAS
        &&& self.to == to
        &&& self.value == 0
        &&& self.data@ == data
    }

    /// The transaction that sends `data` to `to` with the defaults of these
    /// tests.
    pub fn call(nonce: u64, to: Option<[u8; 20]>, data: Vec<u8>) -> (tx: LegacyTransaction)
        ensures
            tx.is_call(nonce, to, data@),
    {
        LegacyTransaction { nonce, gas_price: 0, gas_limit: DEFAULT_GAS, to, value: 0, data }
    }

    /// The transaction that sends what an encoder gave back: there is one
    /// exactly where the encoder gave data.
    pub fn call_encoded(nonce: u64, to: Option<[u8; 20]>, encoded: Option<Vec<u8>>) -> (tx: Option<
        LegacyTransaction,
    >)
        ensures
            sends(tx, nonce, to, bytes_of(encoded)),
    {
        match encoded {
            Some(data) => Some(LegacyTransaction::call(nonce, to, data)),
            None => None,
        }
    }
}

/// The bytes of data that may be absent.
pub open spec fn bytes_of(data: Option<Vec<u8>>) -> Option<Seq<u8>> {
    match data {
        Some(d) => Some(d@),
        None => None,
    }
}

/// `tx` is the call that sends `data`, and there is none where there is no
/// data.
pub open spec fn sends(
    tx: Option<LegacyTransaction>,
    nonce: u64,
    to: Option<[u8; 20]>,
    data: Option<Seq<u8>>,
) -> bool {
    match data {
        Some(d) => tx matches Some(t) && t.is_call(nonce, to, d),
        None => tx is None,
    }
}

/// A call of a method of the engine contract itself, made in the name of a
/// NEAR account.
#[derive(Debug, PartialEq, Eq)]
pub struct EngineCall {
    pub method: &'static str,
    pub caller: &'static str,
    pub input: Vec<u8>,
}

/// A length as Borsh writes it: four bytes, the lowest first.
pub open spec fn length_prefix(len: nat) -> Seq<u8> {
    seq![
        (len % 256) as u8,
        (len / 256 % 256) as u8,
        (len / 65536 % 256) as u8,
        (len / 16777216 % 256) as u8,
    ]
}

/// The Borsh encoding of the arguments of the engine's `call` method, in
/// their second version, with nothing attached: the tag of the version, the
/// contract's address, a value of 32 zero bytes, and the input behind its
/// length.
pub open spec fn call_args_encoding(contract: Seq<u8>, input: Seq<u8>) -> Seq<u8> {
    seq![0u8] + contract + Seq::new(32, |i: int| 0u8) + length_prefix(input.len()) + input
}

/// `borsh::to_vec` on a `CallArgs::V2` of `aurora_engine_types`, whose
/// encoding is derived. Assumed: the bytes are `call_args_encoding`. Borsh
/// refuses an input longer than `u32::MAX`, which the precondition excludes.
#[verifier::external_body]
fn encode_call_args(contract: &[u8; 20], input: Vec<u8>) -> (bytes: Vec<u8>)
    requires
        input@.len() <= u32::MAX,
    ensures
        bytes@ == call_args_encoding(contract@, input@),
{
    let contract = Address::from_array(*contract);
    borsh::to_vec(&CallArgs::V2(FunctionCallArgsV2 { contract, value: [0u8; 32], input })).unwrap()
}

/// What an ABI holds of calls without arguments: under the name by which
/// the ABI lists it, the call data of each function that takes none. Where
/// several functions share a name, the first counts. This is what
/// `ethabi::Contract::function` and `ethabi::Function::encode_input` give
/// together; the data is the function's selector, a hash.
pub uninterp spec fn abi_calls(abi: ethabi::Contract) -> Map<Seq<char>, Seq<u8>>;

/// How many arguments the constructor of an ABI takes; `None` where the ABI
/// has no constructor.
pub uninterp spec fn abi_constructor_inputs(abi: ethabi::Contract) -> Option<nat>;

/// The data that calls the function `name` of `abi` without arguments, if
/// there is such a function.
pub open spec fn call_data(abi: ethabi::Contract, name: Seq<char>) -> Option<Seq<u8>> {
    if abi_calls(abi).contains_key(name) {
        Some(abi_calls(abi)[name])
    } else {
        None
    }
}

/// The data that deploys `code` through the constructor of `abi` without
/// arguments, if the constructor takes none: the code itself.
pub open spec fn deploy_data(abi: ethabi::Contract, code: Seq<u8>) -> Option<Seq<u8>> {
    if abi_constructor_inputs(abi) == Some(0nat) {
        Some(code)
    } else {
        None
    }
}

/// `ethabi::Contract::constructor` and `ethabi::Constructor::encode_input`
/// without arguments. Assumed: it succeeds exactly where `abi` has a
/// constructor that takes no arguments, and the data is then `code`, since
/// the encoding of no arguments is empty.
#[verifier::external_body]
fn encode_constructor(abi: &ethabi::Contract, code: Vec<u8>) -> (data: Option<Vec<u8>>)
    ensures
        match data {
            Some(d) => abi_constructor_inputs(*abi) == Some(0nat) && d@ == code@,
            None => abi_constructor_inputs(*abi) != Some(0nat),
        },
{
    abi.constructor()?.encode_input(code, &[]).ok()
}

/// `ethabi::Contract::function` and `ethabi::Function::encode_input`
/// without arguments. Assumed: it succeeds exactly where `abi` lists a
/// function under `name` that takes no arguments; the data is then what
/// `abi_calls` holds under `name`, and it is four bytes long.
#[verifier::external_body]
fn encode_function(abi: &ethabi::Contract, name: &str) -> (data: Option<Vec<u8>>)
    ensures
        match data {
            Some(d) => abi_calls(*abi).contains_key(name@) && d@ == abi_calls(*abi)[name@]
                && d@.len() == 4,
            None => !abi_calls(*abi).contains_key(name@),
        },
{
    abi.function(name).ok()?.encode_input(&[]).ok()
}

impl ContractConstructor {
    /// The transaction that deploys the contract: it has no receiver and
    /// carries the code. There is one exactly where the constructor takes no
    /// arguments.
    pub fn deploy_without_args(&self, nonce: u64) -> (tx: Option<LegacyTransaction>)
        ensures
            sends(tx, nonce, None, deploy_data(self.abi, self.code@)),
    {
        let encoded = encode_constructor(&self.abi, self.code.clone());
        LegacyTransaction::call_encoded(nonce, None, encoded)
    }
}

impl DeployedContract {
    /// The transaction that calls the function `name` without arguments: it
    /// goes to the contract and carries the function's selector, four
    /// bytes. There is one exactly where the ABI lists such a function.
    pub fn call_without_args(&self, name: &str, nonce: u64) -> (tx: Option<LegacyTransaction>)
        ensures
            sends(tx, nonce, Some(self.address), call_data(self.abi, name@)),
            tx matches Some(t) ==> t.data@.len() == 4,
    {
        let encoded = encode_function(&self.abi, name);
        LegacyTransaction::call_encoded(nonce, Some(self.address), encoded)
    }

    /// The call of the engine's `call` method, made by `anyone`, that calls
    /// the function `name` without arguments. There is one exactly where the
    /// ABI lists such a function.
    pub fn engine_call_without_args(&self, name: &str) -> (call: Option<EngineCall>)
        ensures
            hands_over(call, self.address@, call_data(self.abi, name@)),
            call matches Some(c) ==> c.input@.len() == 61,
    {
        let encoded = encode_function(&self.abi, name);
        engine_call_encoded(&self.address, encoded)
    }
}

/// `call` is the call of the engine's `call` method by `anyone` that hands
/// `data` to `contract`.
pub open spec fn is_engine_call(call: EngineCall, contract: Seq<u8>, data: Seq<u8>) -> bool {
    &&& call.method@ == "call"@
    &&& call.caller@ == "anyone"@
    &&& call.input@ == call_args_encoding(contract, data)
}

/// `call` is the engine call that hands `data` to `contract`, and there is
/// none where there is no data.
pub open spec fn hands_over(call: Option<EngineCall>, contract: Seq<u8>, data: Option<Seq<u8>>) -> bool {
    match data {
        Some(d) => call matches Some(c) && is_engine_call(c, contract, d),
        None => call is None,
    }
}

/// The call of the engine's `call` method by `anyone` that hands `data` to
/// `contract`.
pub fn engine_call(contract: &[u8; 20], data: Vec<u8>) -> (call: EngineCall)
    requires
        data@.len() <= u32::MAX,
    ensures
        is_engine_call(call, contract@, data@),
{
    EngineCall { method: "call", caller: "anyone", input: encode_call_args(contract, data) }
}

/// The engine call that hands over what an encoder gave back: there is one
/// exactly where the encoder gave data.
pub fn engine_call_encoded(contract: &[u8; 20], encoded: Option<Vec<u8>>) -> (call: Option<
    EngineCall,
>)
    requires
        encoded matches Some(d) ==> d@.len() <= u32::MAX,
    ensures
        hands_over(call, contract@, bytes_of(encoded)),
        call matches Some(c) ==> c.input@.len() == 57 + encoded->0@.len(),
{
    match encoded {
        Some(data) => Some(engine_call(contract, data)),
        None => None,
    }
}

} // verus!
