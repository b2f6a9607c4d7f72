use freeze::sources::{
    block_trace_response, call2_request, gas_used_of_outcomes, gas_used_of_receipts,
    get_txs_gas_used, get_txs_gas_used_per_block, get_txs_gas_used_per_tx, map_err,
    state_diff_trace_types, transaction_block_number, transaction_logs, transaction_receipt,
    transaction_trace_response, vm_trace_types, Block, GasUsedStep, Log, ReceiptOutcome,
    Transaction, TransactionReceipt,
};
use freeze::{BlockTrace, CollectError, TraceType};

fn receipt(gas_used: Option<u32>) -> TransactionReceipt {
    TransactionReceipt { gas_used, logs: vec![] }
}

fn block_of(number: Option<u64>, hashes: &[u8]) -> Block {
    Block {
        number,
        transactions: hashes
            .iter()
            .map(|byte| Transaction { hash: vec![*byte; 32], block_number: number })
            .collect(),
    }
}

fn unavailable() -> CollectError {
    CollectError::CollectError("gas_used not available from node".to_string())
}

#[test]
fn a_complete_batch_never_reaches_the_fallback() {
    let block = block_of(Some(19), &[1, 2, 3]);
    assert_eq!(get_txs_gas_used(&block), GasUsedStep::FetchBlockReceipts(19));
    let reply = Ok(vec![receipt(Some(21000)), receipt(Some(50000)), receipt(Some(7))]);
    assert_eq!(
        get_txs_gas_used_per_block(&block, &reply),
        GasUsedStep::Done(vec![21000, 50000, 7])
    );
}

#[test]
fn a_batch_with_a_gap_is_dropped_whole() {
    let block = block_of(Some(19), &[1, 2, 3]);
    let reply = Ok(vec![receipt(Some(21000)), receipt(None), receipt(Some(7))]);
    assert_eq!(
        get_txs_gas_used_per_block(&block, &reply),
        GasUsedStep::FetchTransactionReceipts(vec![vec![1; 32], vec![2; 32], vec![3; 32]])
    );
}

#[test]
fn a_failed_batch_falls_back_to_single_receipts() {
    let block = block_of(Some(19), &[9, 8]);
    let reply = Err(CollectError::RpcError("method not found".to_string()));
    assert_eq!(
        get_txs_gas_used_per_block(&block, &reply),
        GasUsedStep::FetchTransactionReceipts(vec![vec![9; 32], vec![8; 32]])
    );
}

#[test]
fn a_block_without_a_number_starts_with_single_receipts() {
    let block = block_of(None, &[4, 5]);
    assert_eq!(
        get_txs_gas_used(&block),
        GasUsedStep::FetchTransactionReceipts(vec![vec![4; 32], vec![5; 32]])
    );
}

#[test]
fn the_fallback_keeps_block_order_and_length() {
    let block = block_of(Some(19), &[1, 2, 3, 4]);
    let outcomes: Vec<ReceiptOutcome> = vec![
        Ok(Some(receipt(Some(40)))),
        Ok(Some(receipt(Some(10)))),
        Ok(Some(receipt(Some(30)))),
        Ok(Some(receipt(Some(20)))),
    ];
    let gas_used = get_txs_gas_used_per_tx(&block, &outcomes).unwrap();
    assert_eq!(gas_used.len(), block.transactions.len());
    assert_eq!(gas_used, vec![40, 10, 30, 20]);
}

#[test]
fn the_fallback_returns_no_partial_result() {
    let block = block_of(Some(19), &[1, 2, 3]);
    let missing: Vec<ReceiptOutcome> =
        vec![Ok(Some(receipt(Some(1)))), Ok(None), Ok(Some(receipt(Some(3))))];
    assert_eq!(get_txs_gas_used_per_tx(&block, &missing), Err(unavailable()));
    let without_gas: Vec<ReceiptOutcome> =
        vec![Ok(Some(receipt(Some(1)))), Ok(Some(receipt(Some(2)))), Ok(Some(receipt(None)))];
    assert_eq!(get_txs_gas_used_per_tx(&block, &without_gas), Err(unavailable()));
    let failed: Vec<ReceiptOutcome> = vec![
        Err(CollectError::RpcError("timeout".to_string())),
        Ok(Some(receipt(Some(2)))),
        Ok(Some(receipt(Some(3)))),
    ];
    assert_eq!(gas_used_of_outcomes(&failed), Err(unavailable()));
}

#[test]
fn a_block_without_transactions_uses_no_gas() {
    let block = block_of(Some(19), &[]);
    assert_eq!(get_txs_gas_used_per_block(&block, &Ok(vec![])), GasUsedStep::Done(vec![]));
    assert_eq!(get_txs_gas_used_per_tx(&block, &vec![]), Ok(vec![]));
}

#[test]
fn receipts_report_gas_in_their_order() {
    assert_eq!(gas_used_of_receipts(&vec![receipt(Some(3)), receipt(Some(1))]), Ok(vec![3, 1]));
    assert_eq!(
        gas_used_of_receipts(&vec![receipt(None), receipt(Some(1))]),
        Err(CollectError::CollectError("no gas_used for tx".to_string()))
    );
}

#[test]
fn a_transport_failure_becomes_an_rpc_error_with_its_message() {
    assert_eq!(map_err::<u8>(Ok(7)), Ok(7));
    assert_eq!(
        map_err::<u8>(Err("connection refused".to_string())),
        Err(CollectError::RpcError("connection refused".to_string()))
    );
}

#[test]
fn replays_ask_for_one_trace_kind() {
    assert_eq!(state_diff_trace_types(), vec![TraceType::StateDiff]);
    assert_eq!(vm_trace_types(), vec![TraceType::VmTrace]);
}

#[test]
fn a_block_replay_is_filed_under_its_number() {
    let traces = || vec![BlockTrace { vm_trace: None, state_diff: None }];
    assert_eq!(block_trace_response(44, Ok(traces())), Ok((Some(44), None, traces())));
    let failure = CollectError::RpcError("boom".to_string());
    assert_eq!(block_trace_response(44, Err(failure.clone())), Err(failure));
}

#[test]
fn a_transaction_replay_is_filed_under_its_hash() {
    let trace = || BlockTrace { vm_trace: None, state_diff: None };
    assert_eq!(
        transaction_trace_response(vec![0xab; 32], Ok(trace())),
        Ok((None, Some(vec![0xab; 32]), vec![trace()]))
    );
    let failure = CollectError::RpcError("boom".to_string());
    assert_eq!(transaction_trace_response(vec![0xab; 32], Err(failure.clone())), Err(failure));
}

#[test]
fn a_contract_call_is_pinned_at_its_block() {
    let request = call2_request(vec![0xcc; 20], vec![1, 2, 3, 4], 1_000_000);
    assert_eq!(request.to, vec![0xcc; 20]);
    assert_eq!(request.data, vec![1, 2, 3, 4]);
    assert_eq!(request.block_number, 1_000_000);
}

#[test]
fn an_absent_or_unmined_transaction_has_no_block_number() {
    let mined = Transaction { hash: vec![1; 32], block_number: Some(123) };
    assert_eq!(transaction_block_number(Some(mined)), Ok(123));
    let pending = Transaction { hash: vec![1; 32], block_number: None };
    assert_eq!(
        transaction_block_number(Some(pending)),
        Err(CollectError::NotFound("could not get block number".to_string()))
    );
    assert_eq!(
        transaction_block_number(None),
        Err(CollectError::NotFound("could not get block".to_string()))
    );
}

#[test]
fn an_absent_receipt_has_no_logs() {
    let log = Log { address: vec![2; 20], topics: vec![vec![3; 32]], data: vec![4] };
    let found = TransactionReceipt { gas_used: None, logs: vec![log.clone()] };
    assert_eq!(transaction_logs(Some(found.clone())), Ok(vec![log]));
    assert_eq!(transaction_receipt(Some(found.clone())), Ok(found));
    assert_eq!(
        transaction_receipt::<u8>(None),
        Err(CollectError::NotFound("transaction receipt not found".to_string()))
    );
    assert_eq!(
        transaction_logs(None),
        Err(CollectError::NotFound("transaction receipt not found".to_string()))
    );
}

#[test]
fn an_error_gives_its_message() {
    assert_eq!(CollectError::RpcError("a".to_string()).to_message(), "a");
    assert_eq!(CollectError::DecodeError("b".to_string()).to_message(), "b");
    assert_eq!(CollectError::NotFound("c".to_string()).to_message(), "c");
    assert_eq!(CollectError::SchemaError("d".to_string()).to_message(), "d");
    assert_eq!(CollectError::CollectError("e".to_string()).to_message(), "e");
}
