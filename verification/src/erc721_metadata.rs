//! Metadata of ERC-721 contracts: the name and the symbol that a contract
//! reports, one row per lookup.

use crate::columns::{
    byte_strings, in_step, optional_texts, store, store_byte_string, store_text, stored, text_of,
};
use crate::datasets::CollectByBlock;
use crate::error::CollectError;
use crate::params::Params;
use crate::schema::{Datatype, Schemas, Table};
use crate::sources::{call2_request, CallRequest};
use vstd::prelude::*;
use vstd::string::StringExecFns;
use vstd::utf8::{decode_utf8, valid_utf8};

verus! {

/// The value of a hexadecimal digit.
pub open spec fn hex_value(digit: char) -> Option<u8> {
    let code = digit as int;
    if 48 <= code <= 57 {
        Some((code - 48) as u8)
    } else if 97 <= code <= 102 {
        Some((code - 87) as u8)
    } else if 65 <= code <= 70 {
        Some((code - 55) as u8)
    } else {
        None
    }
}

/// The bytes that a text of hexadecimal digits behind the prefix `0x`
/// stands for: two digits a byte, the high digit first. Any other text
/// stands for nothing.
pub open spec fn prefixed_hex(text: Seq<char>) -> Option<Seq<u8>> {
    if text.len() >= 2 && text[0] == '0' && text[1] == 'x' && (text.len() - 2) % 2 == 0 && (
    forall|i: int| 2 <= i < text.len() ==> hex_value(#[trigger] text[i]) is Some) {
        Some(
            Seq::new(
                ((text.len() - 2) / 2) as nat,
                |i: int|
                    (16 * hex_value(text[2 + 2 * i]).unwrap() + hex_value(
                        text[3 + 2 * i],
                    ).unwrap()) as u8,
            ),
        )
    } else {
        None
    }
}

/// Decodes `text` with `prefix_hex::decode` into a vector of bytes. Trusted:
/// on a text of two characters or more, the call succeeds exactly where the
/// text is the prefix `0x` and an even number of hexadecimal digits of either
/// case, and gives the bytes that the digits stand for.
#[verifier::external_body]
fn decode_prefixed_hex(text: &str) -> (bytes: Option<Vec<u8>>)
    requires
        text@.len() >= 2,
    ensures
        match bytes {
            Some(decoded) => prefixed_hex(text@) == Some(decoded@),
            None => prefixed_hex(text@) is None,
        },
{
    prefix_hex::decode::<Vec<u8>>(text).ok()
}

/// Reads `bytes` as UTF-8 with `String::from_utf8`. Trusted: the call
/// succeeds exactly on well-formed UTF-8, and gives the text that the bytes
/// encode.
#[verifier::external_body]
fn text_of_utf8(bytes: Vec<u8>) -> (text: Option<String>)
    ensures
        match text {
            Some(decoded) => valid_utf8(bytes@) && decoded@ == decode_utf8(bytes@),
            None => !valid_utf8(bytes@),
        },
{
    String::from_utf8(bytes).ok()
}

/// The text that the output of a call holds, where it is well-formed UTF-8.
pub open spec fn text_of_output(output: Seq<u8>) -> Option<Seq<char>> {
    if valid_utf8(output) {
        Some(decode_utf8(output))
    } else {
        None
    }
}

/// The call data that asks a contract for its name.
pub open spec fn name_selector() -> Seq<u8> {
    seq![0x06u8, 0xfdu8, 0xdeu8, 0x03u8]
}

/// The call data that asks a contract for its symbol.
pub open spec fn symbol_selector() -> Seq<u8> {
    seq![0x95u8, 0xd8u8, 0x9bu8, 0x41u8]
}

/// Whether `result` is the failure of a lookup whose unit of work lacks the
/// block number or the address: the block number is missed first.
pub open spec fn lacks_target<T>(request: Params, result: Result<T, CollectError>) -> bool {
    result matches Err(CollectError::CollectError(message)) && message@ == if request.block_number
        is None {
        "block number not given"@
    } else {
        "address not given"@
    }
}

/// The raw response of a lookup: the block number, the address of the
/// contract, and the name and the symbol where the contract gave them.
pub type BlockAddressNameSymbol = (u32, Vec<u8>, Option<String>, Option<String>);

/// One row of the dataset, as plain values.
pub struct Erc721MetadataRow {
    pub block_number: u32,
    pub erc721: Seq<u8>,
    pub name: Option<Seq<char>>,
    pub symbol: Option<Seq<char>>,
}

/// The row of a response.
pub open spec fn row_of_response(response: BlockAddressNameSymbol) -> Erc721MetadataRow {
    Erc721MetadataRow {
        block_number: response.0,
        erc721: response.1@,
        name: text_of(response.2),
        symbol: text_of(response.3),
    }
}

/// The column store of the dataset, as plain values: the row counter and
/// what each column holds.
#[verifier::ext_equal]
pub struct Erc721MetadataTable {
    pub n_rows: nat,
    pub block_number: Seq<u32>,
    pub erc721: Seq<Seq<u8>>,
    pub name: Seq<Option<Seq<char>>>,
    pub symbol: Seq<Option<Seq<char>>>,
}

impl Erc721MetadataTable {
    /// The store without any row.
    pub open spec fn empty() -> Erc721MetadataTable {
        Erc721MetadataTable {
            n_rows: 0,
            block_number: Seq::empty(),
            erc721: Seq::empty(),
            name: Seq::empty(),
            symbol: Seq::empty(),
        }
    }

    /// The store after `rows` were emitted under `schema`: the row counter
    /// has grown by their number, and each column that the schema asks for
    /// has grown by their values in order.
    pub open spec fn with_rows(self, schema: Table, rows: Seq<Erc721MetadataRow>)
        -> Erc721MetadataTable {
        Erc721MetadataTable {
            n_rows: self.n_rows + rows.len(),
            block_number: stored(
                self.block_number,
                schema,
                "block_number"@,
                Seq::new(rows.len(), |i: int| rows[i].block_number),
            ),
            erc721: stored(
                self.erc721,
                schema,
                "erc721"@,
                Seq::new(rows.len(), |i: int| rows[i].erc721),
            ),
            name: stored(self.name, schema, "name"@, Seq::new(rows.len(), |i: int| rows[i].name)),
            symbol: stored(
                self.symbol,
                schema,
                "symbol"@,
                Seq::new(rows.len(), |i: int| rows[i].symbol),
            ),
        }
    }

    /// Whether every column is in step with `schema`: as long as the row
    /// counter where the schema asks for it, and empty where it does not.
    pub open spec fn fits(self, schema: Table) -> bool {
        &&& in_step(self.block_number, schema, "block_number"@, self.n_rows)
        &&& in_step(self.erc721, schema, "erc721"@, self.n_rows)
        &&& in_step(self.name, schema, "name"@, self.n_rows)
        &&& in_step(self.symbol, schema, "symbol"@, self.n_rows)
    }
}

/// The store without any row is in step with every schema.
pub proof fn lemma_empty_fits(schema: Table)
    ensures
        Erc721MetadataTable::empty().fits(schema),
{
}

/// A store that is in step with a schema stays so when rows are emitted
/// under that schema.
pub proof fn lemma_with_rows_fits(
    table: Erc721MetadataTable,
    schema: Table,
    rows: Seq<Erc721MetadataRow>,
)
    requires
        table.fits(schema),
    ensures
        table.with_rows(schema, rows).fits(schema),
{
}

/// The columns of the metadata lookups.
#[derive(Debug, PartialEq, Eq)]
pub struct Erc721MetadataColumns {
    n_rows: u64,
    block_number: Vec<u32>,
    erc721: Vec<Vec<u8>>,
    name: Vec<Option<String>>,
    symbol: Vec<Option<String>>,
}

impl View for Erc721MetadataColumns {
    type V = Erc721MetadataTable;

    closed spec fn view(&self) -> Erc721MetadataTable {
        Erc721MetadataTable {
            n_rows: self.n_rows as nat,
            block_number: self.block_number@,
            erc721: byte_strings(self.erc721@),
            name: optional_texts(self.name@),
            symbol: optional_texts(self.symbol@),
        }
    }
}

impl Erc721MetadataColumns {
    /// A store without any row.
    pub fn new() -> (columns: Erc721MetadataColumns)
        ensures
            columns@ == Erc721MetadataTable::empty(),
    {
        let columns = Erc721MetadataColumns {
            n_rows: 0,
            block_number: Vec::new(),
            erc721: Vec::new(),
            name: Vec::new(),
            symbol: Vec::new(),
        };
        assert(columns@ =~= Erc721MetadataTable::empty());
        columns
    }

    /// The number of rows emitted.
    pub fn n_rows(&self) -> (n_rows: u64)
        ensures
            n_rows == self@.n_rows,
    {
        self.n_rows
    }

    /// The column of block numbers.
    pub fn block_number(&self) -> (column: &Vec<u32>)
        ensures
            column@ == self@.block_number,
    {
        &self.block_number
    }

    /// The column of contract addresses.
    pub fn erc721(&self) -> (column: &Vec<Vec<u8>>)
        ensures
            byte_strings(column@) == self@.erc721,
    {
        &self.erc721
    }

    /// The column of names.
    pub fn name(&self) -> (column: &Vec<Option<String>>)
        ensures
            optional_texts(column@) == self@.name,
    {
        &self.name
    }

    /// The column of symbols.
    pub fn symbol(&self) -> (column: &Vec<Option<String>>)
        ensures
            optional_texts(column@) == self@.symbol,
    {
        &self.symbol
    }
}

impl Default for Erc721MetadataColumns {
    fn default() -> (columns: Erc721MetadataColumns)
        ensures
            columns@ == Erc721MetadataTable::empty(),
    {
        Erc721MetadataColumns::new()
    }
}

/// The dataset of ERC-721 metadata.
pub struct Erc721Metadata;

impl Erc721Metadata {
    /// The call data that asks a contract for its name.
    pub fn name_call_data() -> (call_data: Vec<u8>)
        ensures
            call_data@ == name_selector(),
    {
        proof {
            reveal_strlit("0x06fdde03");
            let text = "0x06fdde03"@;
            assert(prefixed_hex(text) is Some);
            assert(prefixed_hex(text).unwrap() =~= name_selector());
        }
        match decode_prefixed_hex("0x06fdde03") {
            Some(call_data) => call_data,
            None => Vec::new(),
        }
    }

    /// The call data that asks a contract for its symbol.
    pub fn symbol_call_data() -> (call_data: Vec<u8>)
        ensures
            call_data@ == symbol_selector(),
    {
        proof {
            reveal_strlit("0x95d89b41");
            let text = "0x95d89b41"@;
            assert(prefixed_hex(text) is Some);
            assert(prefixed_hex(text).unwrap() =~= symbol_selector());
        }
        match decode_prefixed_hex("0x95d89b41") {
            Some(call_data) => call_data,
            None => Vec::new(),
        }
    }

    /// The call that asks the contract of `request` for its name, as of the
    /// block of `request`. Fails where `request` lacks the block number or
    /// the address.
    pub fn name_call(request: &Params) -> (result: Result<CallRequest, CollectError>)
        ensures
            match (request.block_number, request.address) {
                (Some(number), Some(address)) => result matches Ok(call) && call.to@ == address@
                    && call.data@ == name_selector() && call.block_number == number,
                _ => lacks_target(*request, result),
            },
    {
        let block_number = match request.block_number() {
            Ok(number) => number,
            Err(error) => {
                return Err(error);
            },
        };
        let address = match request.address() {
            Ok(address) => address,
            Err(error) => {
                return Err(error);
            },
        };
        Ok(call2_request(address, Erc721Metadata::name_call_data(), block_number))
    }

    /// The call that asks the contract of `request` for its symbol, as of
    /// the block of `request`. Fails where `request` lacks the block number
    /// or the address.
    pub fn symbol_call(request: &Params) -> (result: Result<CallRequest, CollectError>)
        ensures
            match (request.block_number, request.address) {
                (Some(number), Some(address)) => result matches Ok(call) && call.to@ == address@
                    && call.data@ == symbol_selector() && call.block_number == number,
                _ => lacks_target(*request, result),
            },
    {
        let block_number = match request.block_number() {
            Ok(number) => number,
            Err(error) => {
                return Err(error);
            },
        };
        let address = match request.address() {
            Ok(address) => address,
            Err(error) => {
                return Err(error);
            },
        };
        Ok(call2_request(address, Erc721Metadata::symbol_call_data(), block_number))
    }

    /// The raw response of a lookup, from the outputs of the two calls: each
    /// output is the name or the symbol where it is well-formed UTF-8, and
    /// stands for none where it is not. Fails where `request` lacks the
    /// block number or the address.
    pub fn response(request: &Params, name_output: Vec<u8>, symbol_output: Vec<u8>) -> (result:
        Result<BlockAddressNameSymbol, CollectError>)
        ensures
            match (request.block_number, request.address) {
                (Some(number), Some(address)) => result matches Ok(response) && response.0
                    == number as u32 && response.1@ == address@ && text_of(response.2)
                    == text_of_output(name_output@) && text_of(response.3) == text_of_output(
                    symbol_output@,
                ),
                _ => lacks_target(*request, result),
            },
    {
        let block_number = match request.block_number() {
            Ok(number) => number,
            Err(error) => {
                return Err(error);
            },
        };
        let address = match request.address() {
            Ok(address) => address,
            Err(error) => {
                return Err(error);
            },
        };
        let name = text_of_utf8(name_output);
        let symbol = text_of_utf8(symbol_output);
        Ok((#[verifier::truncate] (block_number as u32), address, name, symbol))
    }
}

impl CollectByBlock for Erc721Metadata {
    type Response = BlockAddressNameSymbol;

    type Columns = Erc721MetadataColumns;

    open spec fn kind() -> Datatype {
        Datatype::Erc721Metadata
    }

    open spec fn has_room(response: &BlockAddressNameSymbol, before: Erc721MetadataTable) -> bool {
        before.n_rows < u64::MAX
    }

    open spec fn emitted(
        response: &BlockAddressNameSymbol,
        schema: Table,
        before: Erc721MetadataTable,
    ) -> Erc721MetadataTable {
        before.with_rows(schema, seq![row_of_response(*response)])
    }

    open spec fn in_step(contents: Erc721MetadataTable, schema: Table) -> bool {
        contents.fits(schema)
    }

    fn fits(response: &BlockAddressNameSymbol, columns: &Erc721MetadataColumns) -> (fits: bool) {
        columns.n_rows < u64::MAX
    }

    fn transform(
        response: BlockAddressNameSymbol,
        columns: &mut Erc721MetadataColumns,
        schemas: &Schemas,
    ) -> (result: Result<(), CollectError>) {
        let schema = match schemas.get(Datatype::Erc721Metadata) {
            Some(schema) => schema,
            None => {
                return Err(CollectError::SchemaError(String::from_str("missing schema")));
            },
        };
        let ghost row = row_of_response(response);
        let (block, address, name, symbol) = response;
        columns.n_rows += 1;
        store(&mut columns.block_number, schema, "block_number", block);
        store_byte_string(&mut columns.erc721, schema, "erc721", address);
        store_text(&mut columns.name, schema, "name", name);
        store_text(&mut columns.symbol, schema, "symbol", symbol);
        assert(columns@ =~= old(columns)@.with_rows(*schema, seq![row]));
        Ok(())
    }
}

} // verus!
