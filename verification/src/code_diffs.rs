//! Code diffs: the state difference of a replayed transaction, and its
//! normalization into one row per touched address.

use crate::columns::{
    byte_strings, bytes_of, clone_bytes, in_step, optional_byte_strings, store, store_byte_string,
    store_bytes, stored,
};
use crate::datasets::{CollectByBlock, CollectByTransaction, Dataset};
use crate::error::CollectError;
use crate::schema::{Datatype, Schemas, Table};
use crate::traces::{BlockTrace, TraceResponse};
use ethers_core::types::H256;
use vstd::prelude::*;
use vstd::string::StringExecFns;

verus! {

/// The value before and after a change.
#[derive(Clone, Debug, PartialEq, Eq)]
pub struct ChangedType {
    /// The previous value.
    pub from: Vec<u8>,
    /// The current value.
    pub to: Vec<u8>,
}

/// What became of one piece of state.
#[derive(Clone, Debug, PartialEq, Eq)]
pub enum Diff {
    /// Nothing changed.
    Same,
    /// A value was set where there was none.
    Born(Vec<u8>),
    /// A value was removed.
    Died(Vec<u8>),
    /// A value changed.
    Changed(ChangedType),
}

/// What became of one account.
#[derive(Clone, Debug, PartialEq, Eq)]
pub struct AccountDiff {
    /// The address of the account.
    pub address: Vec<u8>,
    /// What became of its code.
    pub code: Diff,
}

/// The accounts that a transaction touched, in the order in which the node
/// lists them.
#[derive(Clone, Debug, PartialEq, Eq)]
pub struct StateDiff {
    pub accounts: Vec<AccountDiff>,
}

/// The value that stands for "no value" in a row: a word of 32 zero bytes.
pub open spec fn zero_value() -> Seq<u8> {
    Seq::new(32, |i: int| 0u8)
}

/// The bytes of `H256::zero()` of `ethers_core` (a `fixed-hash` type of 32
/// bytes). Trusted: they are 32 bytes, each of them zero.
#[verifier::external_body]
fn zero_word() -> (word: Vec<u8>)
    ensures
        word@ == zero_value(),
{
    H256::zero().as_bytes().to_vec()
}

impl Diff {
    /// The pair (from, to) that the diff normalizes to.
    pub open spec fn normalized(self) -> (Seq<u8>, Seq<u8>) {
        match self {
            Diff::Same => (zero_value(), zero_value()),
            Diff::Born(value) => (zero_value(), value@),
            Diff::Died(value) => (value@, zero_value()),
            Diff::Changed(change) => (change.from@, change.to@),
        }
    }

    /// Normalizes the diff to its pair (from, to): the zero value stands in
    /// for the side that has no value.
    pub fn normalize(&self) -> (pair: (Vec<u8>, Vec<u8>))
        ensures
            (pair.0@, pair.1@) == self.normalized(),
    {
        match self {
            Diff::Same => (zero_word(), zero_word()),
            Diff::Born(value) => (zero_word(), clone_bytes(value)),
            Diff::Died(value) => (clone_bytes(value), zero_word()),
            Diff::Changed(change) => (clone_bytes(&change.from), clone_bytes(&change.to)),
        }
    }
}

/// An unchanged value normalizes to the zero value on both sides; it never
/// pairs the zero value with another one.
pub proof fn lemma_same_pairs_zero_with_zero(diff: Diff)
    requires
        diff is Same,
    ensures
        diff.normalized().0 == zero_value(),
        diff.normalized().1 == zero_value(),
        diff.normalized().0 == diff.normalized().1,
{
}

/// One row of the dataset, as plain values.
pub struct CodeDiffRow {
    pub block_number: Option<u32>,
    pub transaction_index: Option<u64>,
    pub transaction_hash: Option<Seq<u8>>,
    pub address: Seq<u8>,
    pub from_value: Seq<u8>,
    pub to_value: Seq<u8>,
}

/// The row for the code diff `diff` of the account at `address`, touched by
/// the transaction at position `transaction_index` of its response.
pub open spec fn code_diff_row(
    address: Seq<u8>,
    diff: Diff,
    block_number: Option<u32>,
    transaction_hash: Option<Seq<u8>>,
    transaction_index: usize,
) -> CodeDiffRow {
    CodeDiffRow {
        block_number,
        transaction_index: Some(transaction_index as u64),
        transaction_hash,
        address,
        from_value: diff.normalized().0,
        to_value: diff.normalized().1,
    }
}

/// The rows of one state difference: one for each account, in order.
pub open spec fn rows_of_accounts(
    accounts: Seq<AccountDiff>,
    block_number: Option<u32>,
    transaction_hash: Option<Seq<u8>>,
    transaction_index: usize,
) -> Seq<CodeDiffRow> {
    Seq::new(
        accounts.len(),
        |i: int|
            code_diff_row(
                accounts[i].address@,
                accounts[i].code,
                block_number,
                transaction_hash,
                transaction_index,
            ),
    )
}

/// The rows of one trace: those of its state difference, where it has one.
pub open spec fn rows_of_trace(
    trace: BlockTrace,
    block_number: Option<u32>,
    transaction_hash: Option<Seq<u8>>,
    transaction_index: usize,
) -> Seq<CodeDiffRow> {
    match trace.state_diff {
        Some(state_diff) => rows_of_accounts(
            state_diff.accounts@,
            block_number,
            transaction_hash,
            transaction_index,
        ),
        None => Seq::empty(),
    }
}

/// The rows of a list of traces: those of each trace in order, the position
/// of the trace in the list being its transaction index.
pub open spec fn rows_of_traces(
    traces: Seq<BlockTrace>,
    block_number: Option<u32>,
    transaction_hash: Option<Seq<u8>>,
) -> Seq<CodeDiffRow>
    decreases traces.len(),
{
    if traces.len() == 0 {
        Seq::empty()
    } else {
        rows_of_traces(traces.drop_last(), block_number, transaction_hash) + rows_of_trace(
            traces.last(),
            block_number,
            transaction_hash,
            (traces.len() - 1) as usize,
        )
    }
}

/// The rows of a response.
pub open spec fn rows_of_response(response: TraceResponse) -> Seq<CodeDiffRow> {
    rows_of_traces(response.2@, response.0, bytes_of(response.1))
}

/// The column store of the dataset, as plain values: the row counter and
/// what each column holds.
#[verifier::ext_equal]
pub struct CodeDiffTable {
    pub n_rows: nat,
    pub block_number: Seq<Option<u32>>,
    pub transaction_index: Seq<Option<u64>>,
    pub transaction_hash: Seq<Option<Seq<u8>>>,
    pub address: Seq<Seq<u8>>,
    pub from_value: Seq<Seq<u8>>,
    pub to_value: Seq<Seq<u8>>,
}

impl CodeDiffTable {
    /// The store without any row.
    pub open spec fn empty() -> CodeDiffTable {
        CodeDiffTable {
            n_rows: 0,
            block_number: Seq::empty(),
            transaction_index: Seq::empty(),
            transaction_hash: Seq::empty(),
            address: Seq::empty(),
            from_value: Seq::empty(),
            to_value: Seq::empty(),
        }
    }

    /// The store after `rows` were emitted under `schema`: the row counter
    /// has grown by their number, and each column that the schema asks for
    /// has grown by their values in order.
    pub open spec fn with_rows(self, schema: Table, rows: Seq<CodeDiffRow>) -> CodeDiffTable {
        CodeDiffTable {
            n_rows: self.n_rows + rows.len(),
            block_number: stored(
                self.block_number,
                schema,
                "block_number"@,
                Seq::new(rows.len(), |i: int| rows[i].block_number),
            ),
            transaction_index: stored(
                self.transaction_index,
                schema,
                "transaction_index"@,
                Seq::new(rows.len(), |i: int| rows[i].transaction_index),
            ),
            transaction_hash: stored(
                self.transaction_hash,
                schema,
                "transaction_hash"@,
                Seq::new(rows.len(), |i: int| rows[i].transaction_hash),
            ),
            address: stored(
                self.address,
                schema,
                "address"@,
                Seq::new(rows.len(), |i: int| rows[i].address),
            ),
            from_value: stored(
                self.from_value,
                schema,
                "from_value"@,
                Seq::new(rows.len(), |i: int| rows[i].from_value),
            ),
            to_value: stored(
                self.to_value,
                schema,
                "to_value"@,
                Seq::new(rows.len(), |i: int| rows[i].to_value),
            ),
        }
    }

    /// Whether every column is in step with `schema`: as long as the row
    /// counter where the schema asks for it, and empty where it does not.
    pub open spec fn fits(self, schema: Table) -> bool {
        &&& in_step(self.block_number, schema, "block_number"@, self.n_rows)
        &&& in_step(self.transaction_index, schema, "transaction_index"@, self.n_rows)
        &&& in_step(self.transaction_hash, schema, "transaction_hash"@, self.n_rows)
        &&& in_step(self.address, schema, "address"@, self.n_rows)
        &&& in_step(self.from_value, schema, "from_value"@, self.n_rows)
        &&& in_step(self.to_value, schema, "to_value"@, self.n_rows)
    }
}

/// Emitting no row leaves a store as it is.
pub proof fn lemma_with_no_rows(table: CodeDiffTable, schema: Table)
    ensures
        table.with_rows(schema, Seq::empty()) == table,
{
    assert(table.with_rows(schema, Seq::empty()) =~= table);
}

/// Emitting `first` and then `second` is emitting `first + second`.
pub proof fn lemma_with_rows_twice(
    table: CodeDiffTable,
    schema: Table,
    first: Seq<CodeDiffRow>,
    second: Seq<CodeDiffRow>,
)
    ensures
        table.with_rows(schema, first).with_rows(schema, second) == table.with_rows(
            schema,
            first + second,
        ),
{
    assert(table.with_rows(schema, first).with_rows(schema, second) =~= table.with_rows(
        schema,
        first + second,
    ));
}

/// The store without any row is in step with every schema.
pub proof fn lemma_empty_fits(schema: Table)
    ensures
        CodeDiffTable::empty().fits(schema),
{
}

/// A store that is in step with a schema stays so when rows are emitted
/// under that schema.
pub proof fn lemma_with_rows_fits(table: CodeDiffTable, schema: Table, rows: Seq<CodeDiffRow>)
    requires
        table.fits(schema),
    ensures
        table.with_rows(schema, rows).fits(schema),
{
}

/// The number of rows that a list of traces gives: one for each account of
/// each state difference.
pub open spec fn count_of_traces(traces: Seq<BlockTrace>) -> nat
    decreases traces.len(),
{
    if traces.len() == 0 {
        0
    } else {
        count_of_traces(traces.drop_last()) + match traces.last().state_diff {
            Some(state_diff) => state_diff.accounts@.len(),
            None => 0,
        }
    }
}

/// A list of traces gives as many rows as its state differences hold
/// accounts.
pub proof fn lemma_rows_count(
    traces: Seq<BlockTrace>,
    block_number: Option<u32>,
    transaction_hash: Option<Seq<u8>>,
)
    ensures
        rows_of_traces(traces, block_number, transaction_hash).len() == count_of_traces(traces),
    decreases traces.len(),
{
    if traces.len() > 0 {
        lemma_rows_count(traces.drop_last(), block_number, transaction_hash);
    }
}

/// A prefix of a list of traces gives no more rows than the whole.
proof fn lemma_count_of_prefix(traces: Seq<BlockTrace>, n: int)
    requires
        0 <= n <= traces.len(),
    ensures
        count_of_traces(traces.take(n)) <= count_of_traces(traces),
    decreases traces.len(),
{
    if n == traces.len() {
        assert(traces.take(n) =~= traces);
    } else {
        lemma_count_of_prefix(traces.drop_last(), n);
        assert(traces.drop_last().take(n) =~= traces.take(n));
    }
}

/// The code diffs dataset: its column store.
#[derive(Debug, PartialEq, Eq)]
pub struct CodeDiffs {
    n_rows: u64,
    block_number: Vec<Option<u32>>,
    transaction_index: Vec<Option<u64>>,
    transaction_hash: Vec<Option<Vec<u8>>>,
    address: Vec<Vec<u8>>,
    from_value: Vec<Vec<u8>>,
    to_value: Vec<Vec<u8>>,
}

impl View for CodeDiffs {
    type V = CodeDiffTable;

    closed spec fn view(&self) -> CodeDiffTable {
        CodeDiffTable {
            n_rows: self.n_rows as nat,
            block_number: self.block_number@,
            transaction_index: self.transaction_index@,
            transaction_hash: optional_byte_strings(self.transaction_hash@),
            address: byte_strings(self.address@),
            from_value: byte_strings(self.from_value@),
            to_value: byte_strings(self.to_value@),
        }
    }
}

impl CodeDiffs {
    /// A store without any row.
    pub fn new() -> (columns: CodeDiffs)
        ensures
            columns@ == CodeDiffTable::empty(),
    {
        let columns = CodeDiffs {
            n_rows: 0,
            block_number: Vec::new(),
            transaction_index: Vec::new(),
            transaction_hash: Vec::new(),
            address: Vec::new(),
            from_value: Vec::new(),
            to_value: Vec::new(),
        };
        assert(columns@ =~= CodeDiffTable::empty());
        columns
    }

    /// The number of rows emitted.
    pub fn n_rows(&self) -> (n_rows: u64)
        ensures
            n_rows == self@.n_rows,
    {
        self.n_rows
    }

    /// The column of block numbers.
    pub fn block_number(&self) -> (column: &Vec<Option<u32>>)
        ensures
            column@ == self@.block_number,
    {
        &self.block_number
    }

    /// The column of transaction indices.
    pub fn transaction_index(&self) -> (column: &Vec<Option<u64>>)
        ensures
            column@ == self@.transaction_index,
    {
        &self.transaction_index
    }

    /// The column of transaction hashes.
    pub fn transaction_hash(&self) -> (column: &Vec<Option<Vec<u8>>>)
        ensures
            optional_byte_strings(column@) == self@.transaction_hash,
    {
        &self.transaction_hash
    }

    /// The column of addresses.
    pub fn address(&self) -> (column: &Vec<Vec<u8>>)
        ensures
            byte_strings(column@) == self@.address,
    {
        &self.address
    }

    /// The column of values before the change.
    pub fn from_value(&self) -> (column: &Vec<Vec<u8>>)
        ensures
            byte_strings(column@) == self@.from_value,
    {
        &self.from_value
    }

    /// The column of values after the change.
    pub fn to_value(&self) -> (column: &Vec<Vec<u8>>)
        ensures
            byte_strings(column@) == self@.to_value,
    {
        &self.to_value
    }
}

impl Default for CodeDiffs {
    fn default() -> (columns: CodeDiffs)
        ensures
            columns@ == CodeDiffTable::empty(),
    {
        CodeDiffs::new()
    }
}

/// Emits the row for one code diff: counts it, normalizes the diff to its
/// pair (from, to), and writes a value to each column that `schema` asks for.
pub fn process_code_diff(
    addr: &Vec<u8>,
    diff: &Diff,
    block_number: &Option<u32>,
    transaction_hash: &Option<Vec<u8>>,
    transaction_index: usize,
    columns: &mut CodeDiffs,
    schema: &Table,
)
    requires
        old(columns)@.n_rows < u64::MAX,
    ensures
        final(columns)@ == old(columns)@.with_rows(
            *schema,
            seq![
                code_diff_row(
                    addr@,
                    *diff,
                    *block_number,
                    bytes_of(*transaction_hash),
                    transaction_index,
                ),
            ],
        ),
        final(columns)@.n_rows == old(columns)@.n_rows + 1,
        old(columns)@.fits(*schema) ==> final(columns)@.fits(*schema),
{
    columns.n_rows += 1;
    let (from, to) = diff.normalize();
    store(&mut columns.block_number, schema, "block_number", *block_number);
    store(
        &mut columns.transaction_index,
        schema,
        "transaction_index",
        Some(transaction_index as u64),
    );
    store_bytes(
        &mut columns.transaction_hash,
        schema,
        "transaction_hash",
        transaction_hash.as_ref(),
    );
    if schema.has_column("address") {
        store_byte_string(&mut columns.address, schema, "address", clone_bytes(addr));
    }
    store_byte_string(&mut columns.from_value, schema, "from_value", from);
    store_byte_string(&mut columns.to_value, schema, "to_value", to);
    assert(columns@ =~= old(columns)@.with_rows(
        *schema,
        seq![
            code_diff_row(
                addr@,
                *diff,
                *block_number,
                bytes_of(*transaction_hash),
                transaction_index,
            ),
        ],
    ));
}

/// Emits the rows of one state difference: one for each account, in order.
fn process_accounts(
    accounts: &Vec<AccountDiff>,
    block_number: &Option<u32>,
    transaction_hash: &Option<Vec<u8>>,
    transaction_index: usize,
    columns: &mut CodeDiffs,
    schema: &Table,
)
    requires
        old(columns)@.n_rows + accounts@.len() <= u64::MAX,
    ensures
        final(columns)@ == old(columns)@.with_rows(
            *schema,
            rows_of_accounts(
                accounts@,
                *block_number,
                bytes_of(*transaction_hash),
                transaction_index,
            ),
        ),
{
    let ghost hash = bytes_of(*transaction_hash);
    let mut i: usize = 0;
    proof {
        lemma_with_no_rows(columns@, *schema);
        assert(rows_of_accounts(accounts@.take(0), *block_number, hash, transaction_index)
            =~= Seq::empty());
    }
    while i < accounts.len()
        invariant
            i <= accounts.len(),
            hash == bytes_of(*transaction_hash),
            old(columns)@.n_rows + accounts@.len() <= u64::MAX,
            columns@ == old(columns)@.with_rows(
                *schema,
                rows_of_accounts(accounts@.take(i as int), *block_number, hash, transaction_index),
            ),
        decreases accounts.len() - i,
    {
        let account = &accounts[i];
        let ghost done = rows_of_accounts(
            accounts@.take(i as int),
            *block_number,
            hash,
            transaction_index,
        );
        let ghost row = code_diff_row(
            account.address@,
            account.code,
            *block_number,
            hash,
            transaction_index,
        );
        process_code_diff(
            &account.address,
            &account.code,
            block_number,
            transaction_hash,
            transaction_index,
            columns,
            schema,
        );
        proof {
            lemma_with_rows_twice(old(columns)@, *schema, done, seq![row]);
            assert(done + seq![row] =~= rows_of_accounts(
                accounts@.take(i + 1),
                *block_number,
                hash,
                transaction_index,
            ));
        }
        i += 1;
    }
    proof {
        assert(accounts@.take(i as int) =~= accounts@);
    }
}

/// Whether the row counter of `columns` can take the rows of `response`.
pub fn has_room_for(response: &TraceResponse, columns: &CodeDiffs) -> (fits: bool)
    ensures
        fits == (columns@.n_rows + count_of_traces(response.2@) <= u64::MAX),
{
    let traces = &response.2;
    let mut left: u64 = u64::MAX - columns.n_rows;
    let mut i: usize = 0;
    proof {
        assert(traces@.take(0) =~= Seq::<BlockTrace>::empty());
    }
    while i < traces.len()
        invariant
            i <= traces.len(),
            traces == &response.2,
            left + count_of_traces(traces@.take(i as int)) + columns@.n_rows == u64::MAX,
        decreases traces.len() - i,
    {
        proof {
            assert(traces@.take(i + 1).drop_last() =~= traces@.take(i as int));
            assert(traces@.take(i + 1).last() == traces@[i as int]);
            lemma_count_of_prefix(traces@, i + 1);
        }
        match &traces[i].state_diff {
            Some(state_diff) => {
                let rows = state_diff.accounts.len() as u64;
                if rows > left {
                    return false;
                }
                left -= rows;
            },
            None => {},
        }
        i += 1;
    }
    proof {
        assert(traces@.take(i as int) =~= traces@);
    }
    true
}

/// Emits the rows of a response: for each trace that carries a state
/// difference, one row per account, the position of the trace in the
/// response being its transaction index. Fails, and writes nothing, where no
/// schema is registered for code diffs.
pub fn process_code_diffs(
    response: &TraceResponse,
    columns: &mut CodeDiffs,
    schemas: &Schemas,
) -> (result: Result<(), CollectError>)
    requires
        old(columns)@.n_rows + count_of_traces(response.2@) <= u64::MAX,
    ensures
        match schemas.lookup(Datatype::CodeDiffs) {
            Some(schema) => result is Ok && final(columns)@ == old(columns)@.with_rows(
                schema,
                rows_of_response(*response),
            ) && (old(columns)@.fits(schema) ==> final(columns)@.fits(schema)),
            None => final(columns)@ == old(columns)@ && (result matches Err(
                CollectError::SchemaError(message),
            ) && message@ == "schema not provided"@),
        },
{
    let schema = match schemas.get(Datatype::CodeDiffs) {
        Some(schema) => schema,
        None => {
            return Err(CollectError::SchemaError(String::from_str("schema not provided")));
        },
    };
    proof {
        if columns@.fits(*schema) {
            lemma_with_rows_fits(columns@, *schema, rows_of_response(*response));
        }
    }
    let traces = &response.2;
    let ghost hash = bytes_of(response.1);
    let mut index: usize = 0;
    proof {
        lemma_with_no_rows(columns@, *schema);
        assert(traces@.take(0) =~= Seq::<BlockTrace>::empty());
    }
    while index < traces.len()
        invariant
            index <= traces.len(),
            traces == &response.2,
            hash == bytes_of(response.1),
            old(columns)@.n_rows + count_of_traces(traces@) <= u64::MAX,
            columns@ == old(columns)@.with_rows(
                *schema,
                rows_of_traces(traces@.take(index as int), response.0, hash),
            ),
        decreases traces.len() - index,
    {
        let trace = &traces[index];
        let ghost before = traces@.take(index as int);
        let ghost done = rows_of_traces(before, response.0, hash);
        proof {
            assert(traces@.take(index + 1).drop_last() =~= before);
            assert(traces@.take(index + 1).last() == *trace);
            lemma_rows_count(before, response.0, hash);
            lemma_count_of_prefix(traces@, index + 1);
        }
        match &trace.state_diff {
            Some(state_diff) => {
                process_accounts(
                    &state_diff.accounts,
                    &response.0,
                    &response.1,
                    index,
                    columns,
                    schema,
                );
                proof {
                    lemma_with_rows_twice(
                        old(columns)@,
                        *schema,
                        done,
                        rows_of_trace(*trace, response.0, hash, index),
                    );
                }
            },
            None => {
                assert(done + rows_of_trace(*trace, response.0, hash, index) =~= done);
            },
        }
        index += 1;
    }
    proof {
        assert(traces@.take(index as int) =~= traces@);
    }
    Ok(())
}

impl Dataset for CodeDiffs {
    open spec fn datatype() -> Datatype {
        Datatype::CodeDiffs
    }

    fn name() -> (name: &'static str) {
        "code_diffs"
    }

    open spec fn sort_columns() -> Seq<Seq<char>> {
        seq!["block_number"@, "transaction_index"@]
    }

    fn default_sort() -> (columns: Vec<String>) {
        let mut columns: Vec<String> = Vec::new();
        columns.push(String::from_str("block_number"));
        columns.push(String::from_str("transaction_index"));
        columns
    }
}

impl CollectByBlock for CodeDiffs {
    type Response = TraceResponse;

    type Columns = CodeDiffs;

    open spec fn kind() -> Datatype {
        Datatype::CodeDiffs
    }

    open spec fn has_room(response: &TraceResponse, before: CodeDiffTable) -> bool {
        before.n_rows + count_of_traces(response.2@) <= u64::MAX
    }

    open spec fn emitted(response: &TraceResponse, schema: Table, before: CodeDiffTable)
        -> CodeDiffTable {
        before.with_rows(schema, rows_of_response(*response))
    }

    open spec fn in_step(contents: CodeDiffTable, schema: Table) -> bool {
        contents.fits(schema)
    }

    fn fits(response: &TraceResponse, columns: &CodeDiffs) -> (fits: bool) {
        has_room_for(response, columns)
    }

    fn transform(
        response: TraceResponse,
        columns: &mut CodeDiffs,
        schemas: &Schemas,
    ) -> (result: Result<(), CollectError>) {
        process_code_diffs(&response, columns, schemas)
    }
}

impl CollectByTransaction for CodeDiffs {
    type Response = TraceResponse;

    type Columns = CodeDiffs;

    open spec fn kind() -> Datatype {
        Datatype::CodeDiffs
    }

    open spec fn has_room(response: &TraceResponse, before: CodeDiffTable) -> bool {
        before.n_rows + count_of_traces(response.2@) <= u64::MAX
    }

    open spec fn emitted(response: &TraceResponse, schema: Table, before: CodeDiffTable)
        -> CodeDiffTable {
        before.with_rows(schema, rows_of_response(*response))
    }

    open spec fn in_step(contents: CodeDiffTable, schema: Table) -> bool {
        contents.fits(schema)
    }

    fn fits(response: &TraceResponse, columns: &CodeDiffs) -> (fits: bool) {
        has_room_for(response, columns)
    }

    fn transform(
        response: TraceResponse,
        columns: &mut CodeDiffs,
        schemas: &Schemas,
    ) -> (result: Result<(), CollectError>) {
        process_code_diffs(&response, columns, schemas)
    }
}

} // verus!
