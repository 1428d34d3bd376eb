//! The run-time side of a wrapper, over plain values.
//!
//! A generated method assigns two fields of the transaction it is given, the
//! payload and the destination, and has the engine's answer processed.
//! `prepare_transaction` models those two assignments: the emitted text makes
//! them itself and does not call it. `process_transact_result` is the reading
//! of the engine's answer that the emitted text calls by name.
//!
//! The engine, its database and the codec of the call types are not part of
//! this crate. They appear here as type parameters, for what is carried
//! through untouched, and as a closure, for decoding.

use vstd::prelude::*;

verus! {

/// The address of an account.
#[derive(Clone, Copy, Debug, PartialEq, Eq)]
pub struct Address {
    pub bytes: [u8; 20],
}

/// Where a transaction goes.
#[derive(Clone, Copy, Debug, PartialEq, Eq)]
pub enum TxKind {
    /// It creates a contract.
    Create,
    /// It calls the account at this address.
    Call(Address),
}

/// A transaction: its payload, its destination, and everything else about
/// it, which a generated method leaves as it finds it.
#[derive(Debug)]
pub struct Transaction<X> {
    pub data: Vec<u8>,
    pub transact_to: TxKind,
    pub rest: X,
}

/// How one execution ended. `H` is the engine's own account of a halt.
#[derive(Debug)]
pub enum ExecutionResult<H> {
    /// It ran to its end and returned these bytes.
    Success { output: Vec<u8> },
    /// It reverted after using this much gas, with these bytes as its
    /// explanation.
    Revert { output: Vec<u8>, gas_used: u64 },
    /// It was stopped after using this much gas.
    Halt { reason: H, gas_used: u64 },
}

/// What the engine hands back for one transaction: how it ended, and the
/// state changes it made, in the engine's own form `S`.
#[derive(Debug)]
pub struct ResultAndState<H, S> {
    pub result: ExecutionResult<H>,
    pub state: S,
}

/// Why a call has no value. A failure of the execution keeps what the engine
/// said of it; bytes that do not decode are an error of their own, with the
/// codec's error `D`.
#[derive(Debug)]
pub enum CallError<D, H> {
    Revert { output: Vec<u8>, gas_used: u64 },
    Halt { reason: H, gas_used: u64 },
    Decode(D),
}

/// The outcome of one call: the value it returned, of the type `R` that the
/// call type declares, and the state changes of the execution.
#[derive(Debug)]
pub struct CallOutput<R, D, H, S> {
    pub output: Result<R, CallError<D, H>>,
    pub state: S,
}

/// The transaction that a method of the wrapper at `address` makes of a
/// template for an encoded call.
pub open spec fn prepared<X>(template: Transaction<X>, payload: Vec<u8>, address: Address)
    -> Transaction<X> {
    Transaction { data: payload, transact_to: TxKind::Call(address), rest: template.rest }
}

/// Puts the encoded call and the wrapper's address into a transaction, as
/// the two assignments of a generated method do. The destination that the
/// template came with is overwritten, so that a caller cannot send the call
/// anywhere else; nothing but payload and destination changes.
pub fn prepare_transaction<X>(template: Transaction<X>, payload: Vec<u8>, address: Address) -> (tx:
    Transaction<X>)
    ensures
        tx == prepared(template, payload, address),
        tx.transact_to == TxKind::Call(address),
        tx.data == payload,
        tx.rest == template.rest,
{
    let mut tx = template;
    tx.data = payload;
    tx.transact_to = TxKind::Call(address);
    tx
}

/// The outcome of a call for what the engine handed back and, where the
/// execution succeeded, for what decoding its bytes gave.
pub open spec fn processed<R, D, H, S>(outcome: ResultAndState<H, S>, decoded: Result<R, D>)
    -> CallOutput<R, D, H, S> {
    CallOutput {
        output: match outcome.result {
            ExecutionResult::Success { output } => match decoded {
                Ok(value) => Ok(value),
                Err(error) => Err(CallError::Decode(error)),
            },
            ExecutionResult::Revert { output, gas_used } => Err(
                CallError::Revert { output, gas_used },
            ),
            ExecutionResult::Halt { reason, gas_used } => Err(CallError::Halt { reason, gas_used }),
        },
        state: outcome.state,
    }
}

/// Reads what the engine handed back. After a successful execution the
/// returned bytes are decoded, and what decoding gives is the output, its
/// error under `CallError::Decode`. After a revert or a halt nothing is
/// decoded and the output is the engine's own account. The state changes are
/// passed on as they are in every case.
pub fn process_transact_result<R, D, H, S, F: FnOnce(Vec<u8>) -> Result<R, D>>(
    outcome: ResultAndState<H, S>,
    decode: F,
) -> (call: CallOutput<R, D, H, S>)
    requires
        outcome.result matches ExecutionResult::Success { output } ==> decode.requires((output,)),
    ensures
        call.state == outcome.state,
        match outcome.result {
            ExecutionResult::Success { output } => exists|decoded: Result<R, D>|
                decode.ensures((output,), decoded) && call == processed(outcome, decoded),
            ExecutionResult::Revert { output, gas_used } => call.output == Err::<
                R,
                CallError<D, H>,
            >(CallError::Revert { output, gas_used }),
            ExecutionResult::Halt { reason, gas_used } => call.output == Err::<R, CallError<D, H>>(
                CallError::Halt { reason, gas_used },
            ),
        },
{
    let ResultAndState { result, state } = outcome;
    match result {
        ExecutionResult::Success { output } => {
            let decoded = decode(output);
            let ghost given = decoded;
            let call = match decoded {
                Ok(value) => CallOutput { output: Ok(value), state },
                Err(error) => CallOutput { output: Err(CallError::Decode(error)), state },
            };
            assert(decode.ensures((output,), given) && call == processed(outcome, given));
            call
        },
        ExecutionResult::Revert { output, gas_used } => CallOutput {
            output: Err(CallError::Revert { output, gas_used }),
            state,
        },
        ExecutionResult::Halt { reason, gas_used } => CallOutput {
            output: Err(CallError::Halt { reason, gas_used }),
            state,
        },
    }
}

/// Whatever destination two templates name, the transactions prepared from
/// them for one wrapper go to that wrapper's address.
pub proof fn lemma_destination_is_the_wrappers<X>(
    first: Transaction<X>,
    second: Transaction<X>,
    payload: Vec<u8>,
    address: Address,
)
    ensures
        prepared(first, payload, address).transact_to == TxKind::Call(address),
        prepared(second, payload, address).transact_to == prepared(
            first,
            payload,
            address,
        ).transact_to,
{
}

/// A call comes back as it went out where the engine returns the payload it
/// was given and decoding undoes encoding.
pub proof fn lemma_echo_round_trip<T, D, H, S, X>(
    encode: spec_fn(T) -> Seq<u8>,
    decode: spec_fn(Seq<u8>) -> Result<T, D>,
    value: T,
    template: Transaction<X>,
    payload: Vec<u8>,
    address: Address,
    outcome: ResultAndState<H, S>,
)
    requires
        forall|x: T| decode(#[trigger] encode(x)) == Ok::<T, D>(x),
        payload@ == encode(value),
        outcome.result matches ExecutionResult::Success { output } && output@ == prepared(
            template,
            payload,
            address,
        ).data@,
    ensures
        outcome.result matches ExecutionResult::Success { output } && processed(
            outcome,
            decode(output@),
        ).output == Ok::<T, CallError<D, H>>(value),
{
}

/// The state changes of an execution reach the caller whatever the execution
/// and the decoding came to.
pub proof fn lemma_state_is_carried_through<R, D, H, S>(
    outcome: ResultAndState<H, S>,
    decoded: Result<R, D>,
)
    ensures
        processed(outcome, decoded).state == outcome.state,
{
}

} // verus!
