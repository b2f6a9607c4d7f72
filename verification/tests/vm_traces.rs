use freeze::{
    BlockTrace, CollectByBlock, CollectByTransaction, CollectError, Datatype, ExecutedInstruction,
    KnownOpcode, MemoryDiff, Schemas, StorageDiff, Table, VmExecutedOperation, VmOperation,
    VmTrace, VmTraceColumns, VmTraces, VmWrite,
};
use freeze::vm_traces::{add_ops, process_vm_traces};

const ALL_COLUMNS: [&str; 12] = [
    "block_number",
    "transaction_hash",
    "transaction_position",
    "pc",
    "cost",
    "used",
    "push",
    "mem_off",
    "mem_data",
    "storage_key",
    "storage_val",
    "op",
];

fn table(columns: &[&str]) -> Table {
    Table::new(Datatype::VmTraces, columns.iter().map(|name| name.to_string()).collect())
}

fn schemas(columns: &[&str]) -> Schemas {
    let mut schemas = Schemas::new();
    schemas.insert(table(columns));
    schemas
}

fn known(code: u8) -> ExecutedInstruction {
    ExecutedInstruction::Known(KnownOpcode::new(code).unwrap())
}

fn step(pc: u64, cost: u64, code: u8) -> VmOperation {
    VmOperation {
        pc,
        cost,
        ex: Some(VmExecutedOperation { used: 1000 - pc, push: vec![pc as u8], write: None }),
        sub: None,
        op: known(code),
    }
}

fn reverted_call_tree() -> VmTrace {
    let child = VmOperation { pc: 7, cost: 40, ex: None, sub: None, op: known(0xf1) };
    let root = VmOperation {
        pc: 0,
        cost: 3,
        ex: Some(VmExecutedOperation { used: 99, push: vec![0x80], write: None }),
        sub: Some(VmTrace { ops: vec![child] }),
        op: known(0x60),
    };
    VmTrace { ops: vec![root] }
}

#[test]
fn reverted_child_without_outcome_keeps_pc_and_cost() {
    let mut columns = VmTraceColumns::new();
    add_ops(&reverted_call_tree(), &table(&ALL_COLUMNS), &mut columns, Some(17), &None, 0);
    assert_eq!(columns.n_rows(), 2);
    assert_eq!(columns.pc(), &vec![0, 7]);
    assert_eq!(columns.cost(), &vec![3, 40]);
    assert_eq!(columns.used(), &vec![Some(99), None]);
    assert_eq!(columns.push(), &vec![Some(vec![0x80]), None]);
    assert_eq!(columns.mem_off(), &vec![None, None]);
    assert_eq!(columns.mem_data(), &vec![None, None]);
    assert_eq!(columns.storage_key(), &vec![None, None]);
    assert_eq!(columns.storage_val(), &vec![None, None]);
    assert_eq!(columns.op(), &vec!["PUSH1".to_string(), "CALL".to_string()]);
    assert_eq!(columns.block_number(), &vec![Some(17), Some(17)]);
    assert_eq!(columns.transaction_hash(), &vec![None, None]);
    assert_eq!(columns.transaction_position(), &vec![0, 0]);
}

#[test]
fn flattening_walks_depth_first_in_execution_order() {
    let inner = VmTrace { ops: vec![step(20, 1, 0x01), step(21, 1, 0x02)] };
    let mut call = step(11, 700, 0xf1);
    call.sub = Some(VmTrace {
        ops: vec![
            step(0, 2, 0x60),
            VmOperation { sub: Some(inner), ..step(1, 9, 0xf4) },
            step(2, 2, 0x00),
        ],
    });
    let trace = VmTrace { ops: vec![step(10, 3, 0x60), call, step(12, 3, 0x50)] };
    let mut columns = VmTraceColumns::new();
    add_ops(&trace, &table(&["pc", "op"]), &mut columns, None, &Some(vec![0xaa; 32]), 3);
    assert_eq!(columns.n_rows(), 8);
    assert_eq!(columns.pc(), &vec![10, 11, 0, 1, 20, 21, 2, 12]);
    let ops: Vec<&str> = columns.op().iter().map(|name| name.as_str()).collect();
    assert_eq!(ops, ["PUSH1", "CALL", "PUSH1", "DELEGATECALL", "ADD", "MUL", "STOP", "POP"]);
}

#[test]
fn one_row_for_each_node_of_the_tree() {
    let mut trace = VmTrace { ops: vec![step(0, 1, 0x00)] };
    for depth in 1..6u64 {
        let mut parent = step(depth, 1, 0xf1);
        parent.sub = Some(trace);
        trace = VmTrace { ops: vec![step(100 + depth, 1, 0x5b), parent] };
    }
    let mut columns = VmTraceColumns::new();
    add_ops(&trace, &table(&["cost"]), &mut columns, None, &None, 0);
    assert_eq!(columns.n_rows(), 11);
    assert_eq!(columns.cost().len(), 11);
}

#[test]
fn columns_outside_the_schema_stay_empty() {
    let mut columns = VmTraceColumns::new();
    add_ops(&reverted_call_tree(), &table(&["pc", "used"]), &mut columns, Some(1), &None, 0);
    assert_eq!(columns.n_rows(), 2);
    assert_eq!(columns.pc().len(), 2);
    assert_eq!(columns.used().len(), 2);
    assert!(columns.cost().is_empty());
    assert!(columns.push().is_empty());
    assert!(columns.op().is_empty());
    assert!(columns.block_number().is_empty());
    assert!(columns.transaction_hash().is_empty());
    assert!(columns.transaction_position().is_empty());
    assert!(columns.mem_off().is_empty());
    assert!(columns.mem_data().is_empty());
    assert!(columns.storage_key().is_empty());
    assert!(columns.storage_val().is_empty());
}

#[test]
fn an_empty_schema_still_counts_rows() {
    let mut columns = VmTraceColumns::new();
    add_ops(&reverted_call_tree(), &table(&[]), &mut columns, None, &None, 0);
    assert_eq!(columns.n_rows(), 2);
    assert!(columns.pc().is_empty());
}

#[test]
fn a_write_is_memory_or_storage_and_the_other_is_absent() {
    let memory = VmOperation {
        pc: 1,
        cost: 6,
        ex: Some(VmExecutedOperation {
            used: 500,
            push: vec![],
            write: Some(VmWrite::Memory(MemoryDiff { off: 64, data: vec![1, 2, 3] })),
        }),
        sub: None,
        op: known(0x52),
    };
    let storage = VmOperation {
        pc: 2,
        cost: 20000,
        ex: Some(VmExecutedOperation {
            used: 400,
            push: vec![],
            write: Some(VmWrite::Storage(StorageDiff { key: vec![9; 32], val: vec![7; 32] })),
        }),
        sub: None,
        op: known(0x55),
    };
    let mut columns = VmTraceColumns::new();
    let trace = VmTrace { ops: vec![memory, storage] };
    add_ops(&trace, &table(&ALL_COLUMNS), &mut columns, None, &None, 0);
    assert_eq!(columns.mem_off(), &vec![Some(64), None]);
    assert_eq!(columns.mem_data(), &vec![Some(vec![1, 2, 3]), None]);
    assert_eq!(columns.storage_key(), &vec![None, Some(vec![9; 32])]);
    assert_eq!(columns.storage_val(), &vec![None, Some(vec![7; 32])]);
    assert_eq!(columns.push(), &vec![Some(vec![]), Some(vec![])]);
    assert_eq!(columns.op(), &vec!["MSTORE".to_string(), "SSTORE".to_string()]);
}

#[test]
fn a_memory_offset_keeps_its_low_32_bits() {
    let operation = VmOperation {
        pc: 0,
        cost: 0,
        ex: Some(VmExecutedOperation {
            used: 0,
            push: vec![],
            write: Some(VmWrite::Memory(MemoryDiff { off: (1u64 << 32) + 5, data: vec![] })),
        }),
        sub: None,
        op: known(0x52),
    };
    let mut columns = VmTraceColumns::new();
    add_ops(&VmTrace { ops: vec![operation] }, &table(&["mem_off"]), &mut columns, None, &None, 0);
    assert_eq!(columns.mem_off(), &vec![Some(5)]);
}

#[test]
fn an_unknown_instruction_passes_through_verbatim() {
    let operation = VmOperation {
        pc: 0,
        cost: 0,
        ex: None,
        sub: None,
        op: ExecutedInstruction::Unknown("opcode 0xfe not defined".to_string()),
    };
    let mut columns = VmTraceColumns::new();
    add_ops(&VmTrace { ops: vec![operation] }, &table(&["op"]), &mut columns, None, &None, 0);
    assert_eq!(columns.op(), &vec!["opcode 0xfe not defined".to_string()]);
}

#[test]
fn the_opcode_table_names_known_bytes_only() {
    assert_eq!(KnownOpcode::new(0x00).unwrap().mnemonic(), "STOP");
    assert_eq!(KnownOpcode::new(0x60).unwrap().mnemonic(), "PUSH1");
    assert_eq!(KnownOpcode::new(0xf1).unwrap().mnemonic(), "CALL");
    assert_eq!(KnownOpcode::new(0xf1).unwrap().code(), 0xf1);
    assert_eq!(KnownOpcode::new(0x0c), None);
    assert_eq!(known(0x54).to_text(), "SLOAD");
}

#[test]
fn a_block_response_numbers_its_transactions() {
    let response = (
        Some(12u32),
        None,
        vec![
            BlockTrace {
                vm_trace: Some(VmTrace { ops: vec![step(1, 1, 0x00)] }),
                state_diff: None,
            },
            BlockTrace { vm_trace: None, state_diff: None },
            BlockTrace { vm_trace: Some(reverted_call_tree()), state_diff: None },
        ],
    );
    let mut columns = VmTraceColumns::new();
    let result = process_vm_traces(response, &mut columns, &schemas(&ALL_COLUMNS));
    assert_eq!(result, Ok(()));
    assert_eq!(columns.n_rows(), 3);
    assert_eq!(columns.transaction_position(), &vec![0, 2, 2]);
    assert_eq!(columns.block_number(), &vec![Some(12), Some(12), Some(12)]);
    assert_eq!(columns.pc(), &vec![1, 0, 7]);
}

#[test]
fn a_transaction_response_carries_its_hash() {
    let hash = vec![0x5a; 32];
    let response = (
        None,
        Some(hash.clone()),
        vec![BlockTrace { vm_trace: Some(reverted_call_tree()), state_diff: None }],
    );
    let mut columns = VmTraceColumns::default();
    let result = <VmTraces as CollectByTransaction>::transform(
        response,
        &mut columns,
        &schemas(&["transaction_hash", "block_number"]),
    );
    assert_eq!(result, Ok(()));
    assert_eq!(columns.transaction_hash(), &vec![Some(hash.clone()), Some(hash)]);
    assert_eq!(columns.block_number(), &vec![None, None]);
}

#[test]
fn without_a_schema_nothing_is_written() {
    let response = (
        Some(1u32),
        None,
        vec![BlockTrace { vm_trace: Some(reverted_call_tree()), state_diff: None }],
    );
    let mut columns = VmTraceColumns::new();
    let result = <VmTraces as CollectByBlock>::transform(response, &mut columns, &Schemas::new());
    assert_eq!(result, Err(CollectError::SchemaError("missing schema".to_string())));
    assert_eq!(columns, VmTraceColumns::new());
}

#[test]
fn transforming_twice_gives_the_same_store() {
    let response = || {
        (
            Some(5u32),
            None,
            vec![BlockTrace { vm_trace: Some(reverted_call_tree()), state_diff: None }],
        )
    };
    let schemas = schemas(&ALL_COLUMNS);
    let mut first = VmTraceColumns::new();
    let mut second = VmTraceColumns::new();
    assert_eq!(process_vm_traces(response(), &mut first, &schemas), Ok(()));
    assert_eq!(process_vm_traces(response(), &mut second, &schemas), Ok(()));
    assert_eq!(first, second);
    assert_eq!(first.n_rows(), 2);
}

#[test]
fn an_outcome_holds_one_write_at_most() {
    let memory = MemoryDiff { off: 1, data: vec![2] };
    let slot = StorageDiff { key: vec![3], val: vec![4] };
    assert_eq!(
        VmExecutedOperation::new(9, vec![5], None, None),
        Ok(VmExecutedOperation { used: 9, push: vec![5], write: None })
    );
    assert_eq!(
        VmExecutedOperation::new(9, vec![5], Some(memory.clone()), None),
        Ok(VmExecutedOperation {
            used: 9,
            push: vec![5],
            write: Some(VmWrite::Memory(memory.clone())),
        })
    );
    assert_eq!(
        VmExecutedOperation::new(9, vec![], None, Some(slot.clone())),
        Ok(VmExecutedOperation {
            used: 9,
            push: vec![],
            write: Some(VmWrite::Storage(slot.clone())),
        })
    );
    assert_eq!(
        VmExecutedOperation::new(9, vec![], Some(memory), Some(slot)),
        Err(CollectError::DecodeError("operation writes both memory and storage".to_string()))
    );
}
