use freeze::{
    CollectByBlock, CollectError, Datatype, Erc721Metadata, Erc721MetadataColumns, Params,
    Schemas, Table,
};

fn metadata_schemas(columns: &[&str]) -> Schemas {
    let mut schemas = Schemas::new();
    schemas.insert(Table::new(
        Datatype::Erc721Metadata,
        columns.iter().map(|name| name.to_string()).collect(),
    ));
    schemas
}

#[test]
fn the_selectors_are_decoded_from_their_hex_text() {
    assert_eq!(Erc721Metadata::name_call_data(), vec![0x06, 0xfd, 0xde, 0x03]);
    assert_eq!(Erc721Metadata::symbol_call_data(), vec![0x95, 0xd8, 0x9b, 0x41]);
}

#[test]
fn the_two_calls_go_to_the_contract_at_the_block() {
    let request = Params::contract(15_000_000, vec![0xee; 20]);
    let name = Erc721Metadata::name_call(&request).unwrap();
    assert_eq!(name.to, vec![0xee; 20]);
    assert_eq!(name.data, vec![0x06, 0xfd, 0xde, 0x03]);
    assert_eq!(name.block_number, 15_000_000);
    let symbol = Erc721Metadata::symbol_call(&request).unwrap();
    assert_eq!(symbol.to, vec![0xee; 20]);
    assert_eq!(symbol.data, vec![0x95, 0xd8, 0x9b, 0x41]);
    assert_eq!(symbol.block_number, 15_000_000);
}

#[test]
fn a_lookup_needs_a_block_and_an_address() {
    let no_address = Params::block(5);
    assert_eq!(
        Erc721Metadata::name_call(&no_address),
        Err(CollectError::CollectError("address not given".to_string()))
    );
    let no_block = Params::transaction(vec![1; 32]);
    assert_eq!(
        Erc721Metadata::symbol_call(&no_block),
        Err(CollectError::CollectError("block number not given".to_string()))
    );
    assert_eq!(
        Erc721Metadata::response(&no_block, vec![], vec![]),
        Err(CollectError::CollectError("block number not given".to_string()))
    );
}

#[test]
fn outputs_are_read_as_text_where_they_are_utf8() {
    let request = Params::contract(77, vec![0xee; 20]);
    let response =
        Erc721Metadata::response(&request, "Bored Ape".as_bytes().to_vec(), vec![0xff, 0xfe]);
    assert_eq!(response, Ok((77, vec![0xee; 20], Some("Bored Ape".to_string()), None)));
    let accented = Erc721Metadata::response(&request, vec![], "caf\u{e9}".as_bytes().to_vec());
    assert_eq!(
        accented,
        Ok((77, vec![0xee; 20], Some(String::new()), Some("caf\u{e9}".to_string())))
    );
}

#[test]
fn the_block_number_of_a_lookup_keeps_its_low_32_bits() {
    let request = Params::contract((1u64 << 32) + 9, vec![0xee; 20]);
    let response = Erc721Metadata::response(&request, vec![], vec![]).unwrap();
    assert_eq!(response.0, 9);
}

#[test]
fn a_lookup_gives_one_row() {
    let mut columns = Erc721MetadataColumns::new();
    let schemas = metadata_schemas(&["block_number", "erc721", "name", "symbol"]);
    let first = (77, vec![0xee; 20], Some("Apes".to_string()), None);
    let second = (78, vec![0xdd; 20], None, Some("PNK".to_string()));
    assert_eq!(Erc721Metadata::transform(first, &mut columns, &schemas), Ok(()));
    assert_eq!(Erc721Metadata::transform(second, &mut columns, &schemas), Ok(()));
    assert_eq!(columns.n_rows(), 2);
    assert_eq!(columns.block_number(), &vec![77, 78]);
    assert_eq!(columns.erc721(), &vec![vec![0xee; 20], vec![0xdd; 20]]);
    assert_eq!(columns.name(), &vec![Some("Apes".to_string()), None]);
    assert_eq!(columns.symbol(), &vec![None, Some("PNK".to_string())]);
}

#[test]
fn metadata_columns_outside_the_schema_stay_empty() {
    let mut columns = Erc721MetadataColumns::default();
    let response = (77, vec![0xee; 20], Some("Apes".to_string()), None);
    let schemas = metadata_schemas(&["name"]);
    assert_eq!(Erc721Metadata::transform(response, &mut columns, &schemas), Ok(()));
    assert_eq!(columns.n_rows(), 1);
    assert_eq!(columns.name(), &vec![Some("Apes".to_string())]);
    assert!(columns.block_number().is_empty());
    assert!(columns.erc721().is_empty());
    assert!(columns.symbol().is_empty());
}

#[test]
fn metadata_needs_its_schema() {
    let mut columns = Erc721MetadataColumns::new();
    let response = (77, vec![0xee; 20], None, None);
    assert_eq!(
        Erc721Metadata::transform(response, &mut columns, &Schemas::new()),
        Err(CollectError::SchemaError("missing schema".to_string()))
    );
    assert_eq!(columns, Erc721MetadataColumns::new());
}
