//! The node-facing operations without their transport: what each composite
//! operation asks of the node, and what it makes of the answer.
//!
//! Whoever performs the round trips hands the answers over as plain values;
//! a transport failure arrives as the message it carried.

use crate::columns::clone_bytes;
use crate::error::CollectError;
use crate::traces::{BlockTrace, TraceResponse, TraceType};
use vstd::prelude::*;
use vstd::string::StringExecFns;

verus! {

/// A log that a transaction emitted.
#[derive(Clone, Debug, PartialEq, Eq)]
pub struct Log {
    /// The address of the contract that emitted the log.
    pub address: Vec<u8>,
    /// The topics of the log.
    pub topics: Vec<Vec<u8>>,
    /// The data of the log.
    pub data: Vec<u8>,
}

/// The receipt of a transaction.
#[derive(Clone, Debug, PartialEq, Eq)]
pub struct TransactionReceipt {
    /// The gas that the transaction used, where the node reports it.
    pub gas_used: Option<u32>,
    /// The logs that the transaction emitted.
    pub logs: Vec<Log>,
}

/// A transaction.
#[derive(Clone, Debug, PartialEq, Eq)]
pub struct Transaction {
    /// The hash of the transaction.
    pub hash: Vec<u8>,
    /// The number of the block that holds the transaction, once it is mined.
    pub block_number: Option<u64>,
}

/// A block with its transactions in block order.
#[derive(Clone, Debug, PartialEq, Eq)]
pub struct Block {
    /// The number of the block, where it has one.
    pub number: Option<u64>,
    /// The transactions of the block.
    pub transactions: Vec<Transaction>,
}

/// A read-only call of a contract, pinned at a block.
#[derive(Clone, Debug, PartialEq, Eq)]
pub struct CallRequest {
    /// The address of the contract.
    pub to: Vec<u8>,
    /// The call data.
    pub data: Vec<u8>,
    /// The number of the block at which the call is made.
    pub block_number: u64,
}

/// Turns a transport failure into the error kind that stands for all of
/// them, with the message that the failure carried.
pub fn map_err<T>(res: Result<T, String>) -> (mapped: Result<T, CollectError>)
    ensures
        match res {
            Ok(value) => mapped == Ok::<T, CollectError>(value),
            Err(message) => mapped == Err::<T, CollectError>(CollectError::RpcError(message)),
        },
{
    match res {
        Ok(value) => Ok(value),
        Err(message) => Err(CollectError::RpcError(message)),
    }
}

/// The trace kinds that a replay is asked for when state diffs are wanted.
pub fn state_diff_trace_types() -> (trace_types: Vec<TraceType>)
    ensures
        trace_types@ == seq![TraceType::StateDiff],
{
    let mut trace_types: Vec<TraceType> = Vec::new();
    trace_types.push(TraceType::StateDiff);
    trace_types
}

/// The trace kinds that a replay is asked for when VM traces are wanted.
pub fn vm_trace_types() -> (trace_types: Vec<TraceType>)
    ensures
        trace_types@ == seq![TraceType::VmTrace],
{
    let mut trace_types: Vec<TraceType> = Vec::new();
    trace_types.push(TraceType::VmTrace);
    trace_types
}

/// What a replay of the block `block` comes to: the traces of its
/// transactions under the block number, or the failure of the round trip.
pub fn block_trace_response(block: u32, reply: Result<Vec<BlockTrace>, CollectError>) -> (result:
    Result<TraceResponse, CollectError>)
    ensures
        match reply {
            Ok(traces) => result == Ok::<TraceResponse, CollectError>((Some(block), None, traces)),
            Err(error) => result == Err::<TraceResponse, CollectError>(error),
        },
{
    match reply {
        Ok(traces) => Ok((Some(block), None, traces)),
        Err(error) => Err(error),
    }
}

/// What a replay of the transaction with hash `transaction_hash` comes to:
/// its one trace under the hash, or the failure of the round trip.
pub fn transaction_trace_response(
    transaction_hash: Vec<u8>,
    reply: Result<BlockTrace, CollectError>,
) -> (result: Result<TraceResponse, CollectError>)
    ensures
        match reply {
            Ok(trace) => result matches Ok(response) && response.0 is None && response.1 == Some(
                transaction_hash,
            ) && response.2@ == seq![trace],
            Err(error) => result == Err::<TraceResponse, CollectError>(error),
        },
{
    match reply {
        Ok(trace) => {
            let mut traces: Vec<BlockTrace> = Vec::new();
            traces.push(trace);
            Ok((None, Some(transaction_hash), traces))
        },
        Err(error) => Err(error),
    }
}

/// The read-only call of the contract at `address` with `call_data`, pinned
/// at the block `block_number`.
pub fn call2_request(address: Vec<u8>, call_data: Vec<u8>, block_number: u64) -> (request:
    CallRequest)
    ensures
        request.to == address,
        request.data == call_data,
        request.block_number == block_number,
{
    CallRequest { to: address, data: call_data, block_number }
}

/// The number of the block that holds a transaction, from what the node
/// answered when asked for the transaction. Fails where the transaction is
/// absent or not mined yet.
pub fn transaction_block_number(transaction: Option<Transaction>) -> (result: Result<
    u32,
    CollectError,
>)
    requires
        transaction matches Some(found) && found.block_number matches Some(number) ==> number
            <= u32::MAX,
    ensures
        match transaction {
            Some(found) => match found.block_number {
                Some(number) => result == Ok::<u32, CollectError>(number as u32),
                None => result matches Err(CollectError::NotFound(message)) && message@
                    == "could not get block number"@,
            },
            None => result matches Err(CollectError::NotFound(message)) && message@
                == "could not get block"@,
        },
{
    match transaction {
        Some(found) => match found.block_number {
            Some(number) => Ok(number as u32),
            None => Err(CollectError::NotFound(String::from_str("could not get block number"))),
        },
        None => Err(CollectError::NotFound(String::from_str("could not get block"))),
    }
}

/// The receipt of a transaction, from what the node answered when asked for
/// it. Fails where the receipt is absent.
pub fn transaction_receipt<T>(receipt: Option<T>) -> (result: Result<T, CollectError>)
    ensures
        match receipt {
            Some(found) => result == Ok::<T, CollectError>(found),
            None => result matches Err(CollectError::NotFound(message)) && message@
                == "transaction receipt not found"@,
        },
{
    match receipt {
        Some(found) => Ok(found),
        None => Err(CollectError::NotFound(String::from_str("transaction receipt not found"))),
    }
}

/// The logs of a transaction, from what the node answered when asked for its
/// receipt. Fails where the receipt is absent.
pub fn transaction_logs(receipt: Option<TransactionReceipt>) -> (result: Result<
    Vec<Log>,
    CollectError,
>)
    ensures
        match receipt {
            Some(found) => result == Ok::<Vec<Log>, CollectError>(found.logs),
            None => result matches Err(CollectError::NotFound(message)) && message@
                == "transaction receipt not found"@,
        },
{
    match transaction_receipt(receipt) {
        Ok(found) => Ok(found.logs),
        Err(error) => Err(error),
    }
}

/// Whether every receipt reports the gas that its transaction used.
pub open spec fn all_report_gas(receipts: Seq<TransactionReceipt>) -> bool {
    forall|i: int| 0 <= i < receipts.len() ==> (#[trigger] receipts[i]).gas_used is Some
}

/// The gas used that the receipts report, in their order.
pub open spec fn gas_of_receipts(receipts: Seq<TransactionReceipt>) -> Seq<u32> {
    Seq::new(receipts.len(), |i: int| receipts[i].gas_used.unwrap())
}

/// The gas used by each transaction, from the receipts of a whole block.
/// Fails where any receipt lacks the value: nothing of the batch is used
/// then.
pub fn gas_used_of_receipts(receipts: &Vec<TransactionReceipt>) -> (result: Result<
    Vec<u32>,
    CollectError,
>)
    ensures
        match result {
            Ok(gas_used) => all_report_gas(receipts@) && gas_used@ == gas_of_receipts(receipts@),
            Err(error) => !all_report_gas(receipts@) && (error matches CollectError::CollectError(
                message,
            ) && message@ == "no gas_used for tx"@),
        },
{
    let mut gas_used: Vec<u32> = Vec::new();
    let mut i: usize = 0;
    while i < receipts.len()
        invariant
            i <= receipts.len(),
            all_report_gas(receipts@.take(i as int)),
            gas_used@ == gas_of_receipts(receipts@.take(i as int)),
        decreases receipts.len() - i,
    {
        match receipts[i].gas_used {
            Some(value) => {
                gas_used.push(value);
                assert(gas_used@ =~= gas_of_receipts(receipts@.take(i + 1)));
            },
            None => {
                return Err(CollectError::CollectError(String::from_str("no gas_used for tx")));
            },
        }
        i += 1;
    }
    assert(receipts@.take(i as int) =~= receipts@);
    Ok(gas_used)
}

/// What the fetch of one transaction's receipt came to.
pub type ReceiptOutcome = Result<Option<TransactionReceipt>, CollectError>;

/// Whether one outcome holds a receipt that reports the gas used.
pub open spec fn reports_gas(outcome: ReceiptOutcome) -> bool {
    outcome matches Ok(Some(receipt)) && receipt.gas_used is Some
}

/// Whether every outcome holds a receipt that reports the gas used.
pub open spec fn all_outcomes_report_gas(outcomes: Seq<ReceiptOutcome>) -> bool {
    forall|i: int| 0 <= i < outcomes.len() ==> reports_gas(#[trigger] outcomes[i])
}

/// The gas used that the outcomes report, in their order.
pub open spec fn gas_of_outcomes(outcomes: Seq<ReceiptOutcome>) -> Seq<u32> {
    Seq::new(outcomes.len(), |i: int| outcomes[i].unwrap().unwrap().gas_used.unwrap())
}

/// The gas used by each transaction, from the outcomes of fetching the
/// receipts one by one, given in the order of the transactions. Fails where
/// any fetch failed, any receipt is missing, or any lacks the value: no part
/// of the result is returned then.
pub fn gas_used_of_outcomes(outcomes: &Vec<ReceiptOutcome>) -> (result: Result<
    Vec<u32>,
    CollectError,
>)
    ensures
        match result {
            Ok(gas_used) => all_outcomes_report_gas(outcomes@) && gas_used@ == gas_of_outcomes(
                outcomes@,
            ),
            Err(error) => !all_outcomes_report_gas(outcomes@) && (error matches
                CollectError::CollectError(message) && message@
                == "gas_used not available from node"@),
        },
{
    let mut gas_used: Vec<u32> = Vec::new();
    let mut i: usize = 0;
    while i < outcomes.len()
        invariant
            i <= outcomes.len(),
            all_outcomes_report_gas(outcomes@.take(i as int)),
            gas_used@ == gas_of_outcomes(outcomes@.take(i as int)),
        decreases outcomes.len() - i,
    {
        let value = match &outcomes[i] {
            Ok(Some(receipt)) => receipt.gas_used,
            _ => None,
        };
        match value {
            Some(value) => {
                gas_used.push(value);
                assert(gas_used@ =~= gas_of_outcomes(outcomes@.take(i + 1)));
            },
            None => {
                assert(!reports_gas(outcomes@[i as int]));
                return Err(
                    CollectError::CollectError(
                        String::from_str("gas_used not available from node"),
                    ),
                );
            },
        }
        i += 1;
    }
    assert(outcomes@.take(i as int) =~= outcomes@);
    Ok(gas_used)
}

/// What the resolver of gas usage does next.
#[derive(Debug, PartialEq, Eq)]
pub enum GasUsedStep {
    /// Ask for the receipts of the whole block with this number.
    FetchBlockReceipts(u64),
    /// Ask for the receipt of each of these transactions, all at once, and
    /// hand the outcomes back in this order.
    FetchTransactionReceipts(Vec<Vec<u8>>),
    /// The gas used by each transaction, in block order.
    Done(Vec<u32>),
}

/// The hashes of the transactions of `block`, in block order.
fn transaction_hashes(block: &Block) -> (hashes: Vec<Vec<u8>>)
    ensures
        hashes@.len() == block.transactions@.len(),
        forall|i: int|
            0 <= i < hashes@.len() ==> (#[trigger] hashes@[i])@ == block.transactions@[i].hash@,
{
    let mut hashes: Vec<Vec<u8>> = Vec::new();
    let mut i: usize = 0;
    while i < block.transactions.len()
        invariant
            i <= block.transactions.len(),
            hashes@.len() == i,
            forall|j: int| 0 <= j < i ==> (#[trigger] hashes@[j])@ == block.transactions@[j].hash@,
        decreases block.transactions.len() - i,
    {
        hashes.push(clone_bytes(&block.transactions[i].hash));
        i += 1;
    }
    hashes
}

/// Whether `step` asks for the receipt of each transaction of `block`, in
/// block order.
pub open spec fn asks_for_each_transaction(step: GasUsedStep, block: Block) -> bool {
    &&& step matches GasUsedStep::FetchTransactionReceipts(hashes)
    &&& hashes@.len() == block.transactions@.len()
    &&& forall|i: int|
        0 <= i < hashes@.len() ==> (#[trigger] hashes@[i])@ == block.transactions@[i].hash@
}

/// The first step of resolving the gas used by the transactions of
/// `block`: the batched path where the block has a number, and the path of
/// single receipts where it has none.
pub fn get_txs_gas_used(block: &Block) -> (step: GasUsedStep)
    ensures
        match block.number {
            Some(number) => step == GasUsedStep::FetchBlockReceipts(number),
            None => asks_for_each_transaction(step, *block),
        },
{
    match block.number {
        Some(number) => GasUsedStep::FetchBlockReceipts(number),
        None => GasUsedStep::FetchTransactionReceipts(transaction_hashes(block)),
    }
}

/// The step after the batched path: done where the batch came back and
/// every receipt reports the gas used; else the whole batch is dropped and
/// the receipts are asked for one by one.
pub fn get_txs_gas_used_per_block(
    block: &Block,
    reply: &Result<Vec<TransactionReceipt>, CollectError>,
) -> (step: GasUsedStep)
    ensures
        match *reply {
            Ok(receipts) if all_report_gas(receipts@) => step matches GasUsedStep::Done(gas_used)
                && gas_used@ == gas_of_receipts(receipts@),
            _ => asks_for_each_transaction(step, *block),
        },
{
    let batch = match reply {
        Ok(receipts) => gas_used_of_receipts(receipts),
        Err(_) => Err(CollectError::CollectError(String::new())),
    };
    match batch {
        Ok(gas_used) => GasUsedStep::Done(gas_used),
        Err(_) => GasUsedStep::FetchTransactionReceipts(transaction_hashes(block)),
    }
}

/// The result of the path of single receipts, from the outcomes of the
/// fetches in the order of the block's transactions: the gas used by each
/// transaction in block order, or a failure where any is missing.
pub fn get_txs_gas_used_per_tx(block: &Block, outcomes: &Vec<ReceiptOutcome>) -> (result: Result<
    Vec<u32>,
    CollectError,
>)
    requires
        outcomes@.len() == block.transactions@.len(),
    ensures
        match result {
            Ok(gas_used) => all_outcomes_report_gas(outcomes@) && gas_used@ == gas_of_outcomes(
                outcomes@,
            ) && gas_used@.len() == block.transactions@.len(),
            Err(error) => !all_outcomes_report_gas(outcomes@) && (error matches
                CollectError::CollectError(message) && message@
                == "gas_used not available from node"@),
        },
{
    gas_used_of_outcomes(outcomes)
}

} // verus!
