use freeze::{
    AccountDiff, BlockTrace, ChangedType, CodeDiffs, CollectByBlock, CollectByTransaction,
    CollectError, Dataset, Datatype, Diff, Schemas, StateDiff, Table,
};
use freeze::code_diffs::{process_code_diff, process_code_diffs};

const DIFF_COLUMNS: [&str; 6] =
    ["block_number", "transaction_index", "transaction_hash", "address", "from_value", "to_value"];

fn diff_table(columns: &[&str]) -> Table {
    Table::new(Datatype::CodeDiffs, columns.iter().map(|name| name.to_string()).collect())
}

fn diff_schemas(columns: &[&str]) -> Schemas {
    let mut schemas = Schemas::new();
    schemas.insert(diff_table(columns));
    schemas
}

fn account(address: u8, code: Diff) -> AccountDiff {
    AccountDiff { address: vec![address; 20], code }
}

fn changed(from: &[u8], to: &[u8]) -> Diff {
    Diff::Changed(ChangedType { from: from.to_vec(), to: to.to_vec() })
}

#[test]
fn a_changed_diff_yields_one_row_with_both_values() {
    let address = vec![0xa1; 20];
    let mut columns = CodeDiffs::new();
    process_code_diff(
        &address,
        &changed(&[0x01], &[0x02]),
        &Some(100),
        &None,
        4,
        &mut columns,
        &diff_table(&DIFF_COLUMNS),
    );
    assert_eq!(columns.n_rows(), 1);
    assert_eq!(columns.address(), &vec![address]);
    assert_eq!(columns.from_value(), &vec![vec![0x01]]);
    assert_eq!(columns.to_value(), &vec![vec![0x02]]);
    assert_eq!(columns.block_number(), &vec![Some(100)]);
    assert_eq!(columns.transaction_index(), &vec![Some(4)]);
    assert_eq!(columns.transaction_hash(), &vec![None]);
}

#[test]
fn every_diff_normalizes_to_one_pair() {
    let zero = vec![0u8; 32];
    assert_eq!(Diff::Same.normalize(), (zero.clone(), zero.clone()));
    assert_eq!(Diff::Born(vec![1, 2]).normalize(), (zero.clone(), vec![1, 2]));
    assert_eq!(Diff::Died(vec![3]).normalize(), (vec![3], zero.clone()));
    assert_eq!(changed(&[4], &[5, 6]).normalize(), (vec![4], vec![5, 6]));
    assert_eq!(Diff::Born(vec![]).normalize(), (zero, vec![]));
}

#[test]
fn an_unchanged_value_is_zero_on_both_sides() {
    let (from, to) = Diff::Same.normalize();
    assert_eq!(from.len(), 32);
    assert!(from.iter().all(|byte| *byte == 0));
    assert_eq!(from, to);
}

#[test]
fn each_account_of_each_trace_gives_a_row() {
    let response = (
        Some(8u32),
        None,
        vec![
            BlockTrace {
                vm_trace: None,
                state_diff: Some(StateDiff {
                    accounts: vec![
                        account(1, Diff::Same),
                        account(2, Diff::Born(vec![0x60, 0x80])),
                    ],
                }),
            },
            BlockTrace { vm_trace: None, state_diff: None },
            BlockTrace {
                vm_trace: None,
                state_diff: Some(StateDiff { accounts: vec![account(3, Diff::Died(vec![0xfe]))] }),
            },
        ],
    );
    let mut columns = CodeDiffs::new();
    let result = process_code_diffs(&response, &mut columns, &diff_schemas(&DIFF_COLUMNS));
    assert_eq!(result, Ok(()));
    assert_eq!(columns.n_rows(), 3);
    assert_eq!(columns.address(), &vec![vec![1; 20], vec![2; 20], vec![3; 20]]);
    assert_eq!(columns.transaction_index(), &vec![Some(0), Some(0), Some(2)]);
    assert_eq!(columns.block_number(), &vec![Some(8), Some(8), Some(8)]);
    assert_eq!(columns.from_value(), &vec![vec![0; 32], vec![0; 32], vec![0xfe]]);
    assert_eq!(columns.to_value(), &vec![vec![0; 32], vec![0x60, 0x80], vec![0; 32]]);
}

#[test]
fn code_diff_columns_outside_the_schema_stay_empty() {
    let response = (
        None,
        Some(vec![0x11; 32]),
        vec![BlockTrace {
            vm_trace: None,
            state_diff: Some(StateDiff { accounts: vec![account(1, changed(&[1], &[2]))] }),
        }],
    );
    let mut columns = CodeDiffs::default();
    let result = <CodeDiffs as CollectByTransaction>::transform(
        response,
        &mut columns,
        &diff_schemas(&["transaction_hash", "to_value"]),
    );
    assert_eq!(result, Ok(()));
    assert_eq!(columns.n_rows(), 1);
    assert_eq!(columns.transaction_hash(), &vec![Some(vec![0x11; 32])]);
    assert_eq!(columns.to_value(), &vec![vec![2]]);
    assert!(columns.address().is_empty());
    assert!(columns.from_value().is_empty());
    assert!(columns.block_number().is_empty());
    assert!(columns.transaction_index().is_empty());
}

#[test]
fn code_diffs_need_their_schema() {
    let response = (
        Some(1u32),
        None,
        vec![BlockTrace {
            vm_trace: None,
            state_diff: Some(StateDiff { accounts: vec![account(1, Diff::Same)] }),
        }],
    );
    let mut other = Schemas::new();
    other.insert(Table::new(Datatype::VmTraces, vec!["address".to_string()]));
    let mut columns = CodeDiffs::new();
    let result = <CodeDiffs as CollectByBlock>::transform(response, &mut columns, &other);
    assert_eq!(result, Err(CollectError::SchemaError("schema not provided".to_string())));
    assert_eq!(columns, CodeDiffs::new());
}

#[test]
fn code_diffs_transform_twice_gives_the_same_store() {
    let response = (
        Some(8u32),
        None,
        vec![BlockTrace {
            vm_trace: None,
            state_diff: Some(StateDiff {
                accounts: vec![account(1, Diff::Same), account(2, changed(&[1], &[2]))],
            }),
        }],
    );
    let schemas = diff_schemas(&DIFF_COLUMNS);
    let mut first = CodeDiffs::new();
    let mut second = CodeDiffs::new();
    assert_eq!(process_code_diffs(&response, &mut first, &schemas), Ok(()));
    assert_eq!(process_code_diffs(&response, &mut second, &schemas), Ok(()));
    assert_eq!(first, second);
    assert_eq!(first.n_rows(), 2);
}

#[test]
fn the_dataset_is_named_after_its_kind() {
    assert_eq!(<CodeDiffs as Dataset>::name(), "code_diffs");
    assert_eq!(Datatype::CodeDiffs.name(), "code_diffs");
    assert_eq!(
        <CodeDiffs as Dataset>::default_sort(),
        vec!["block_number".to_string(), "transaction_index".to_string()]
    );
}
