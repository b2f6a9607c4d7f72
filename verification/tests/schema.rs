use freeze::{CollectError, Datatype, Params, Schemas, Table};

fn names(columns: &[&str]) -> Vec<String> {
    columns.iter().map(|name| name.to_string()).collect()
}

#[test]
fn a_table_knows_the_columns_it_asks_for() {
    let table = Table::new(Datatype::VmTraces, names(&["pc", "cost", "op"]));
    assert_eq!(table.datatype(), Datatype::VmTraces);
    assert_eq!(table.columns(), &names(&["pc", "cost", "op"]));
    assert!(table.has_column("pc"));
    assert!(table.has_column("op"));
    assert!(!table.has_column("used"));
    assert!(!table.has_column("p"));
    assert!(!table.has_column(""));
    assert!(!Table::new(Datatype::VmTraces, vec![]).has_column("pc"));
}

#[test]
fn a_registry_holds_one_table_for_each_dataset() {
    let mut schemas = Schemas::new();
    assert_eq!(schemas.get(Datatype::CodeDiffs), None);
    let first = Table::new(Datatype::CodeDiffs, names(&["address"]));
    let other = Table::new(Datatype::VmTraces, names(&["pc"]));
    let second = Table::new(Datatype::CodeDiffs, names(&["to_value"]));
    schemas.insert(first.clone());
    schemas.insert(other.clone());
    assert_eq!(schemas.get(Datatype::CodeDiffs), Some(&first));
    assert_eq!(schemas.get(Datatype::VmTraces), Some(&other));
    assert_eq!(schemas.get(Datatype::BalanceDiffs), None);
    schemas.insert(second.clone());
    assert_eq!(schemas.get(Datatype::CodeDiffs), Some(&second));
    assert_eq!(schemas.get(Datatype::VmTraces), Some(&other));
}

#[test]
fn every_dataset_has_its_name() {
    assert_eq!(Datatype::BalanceDiffs.name(), "balance_diffs");
    assert_eq!(Datatype::CodeDiffs.name(), "code_diffs");
    assert_eq!(Datatype::Erc721Metadata.name(), "erc721_metadata");
    assert_eq!(Datatype::NonceDiffs.name(), "nonce_diffs");
    assert_eq!(Datatype::StorageDiffs.name(), "storage_diffs");
    assert_eq!(Datatype::Transactions.name(), "transactions");
    assert_eq!(Datatype::VmTraces.name(), "vm_traces");
}

#[test]
fn a_unit_of_work_gives_what_it_was_given() {
    let block = Params::block(12);
    assert_eq!(block.block_number(), Ok(12));
    assert_eq!(
        block.transaction_hash(),
        Err(CollectError::CollectError("transaction hash not given".to_string()))
    );
    assert_eq!(
        block.address(),
        Err(CollectError::CollectError("address not given".to_string()))
    );
    let transaction = Params::transaction(vec![7; 32]);
    assert_eq!(transaction.transaction_hash(), Ok(vec![7; 32]));
    assert_eq!(
        transaction.block_number(),
        Err(CollectError::CollectError("block number not given".to_string()))
    );
    let contract = Params::contract(3, vec![9; 20]);
    assert_eq!(contract.block_number(), Ok(3));
    assert_eq!(contract.address(), Ok(vec![9; 20]));
    let both = Params { block_number: Some(1), transaction_hash: Some(vec![2]), address: None };
    assert_eq!(both.block_number(), Ok(1));
    assert_eq!(both.transaction_hash(), Ok(vec![2]));
}
