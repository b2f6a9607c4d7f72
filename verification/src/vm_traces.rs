//! Execution traces of the virtual machine: the trace tree that a replay call
//! returns, and its flattening into one row per executed operation.

use crate::columns::{bytes_of, in_step, optional_byte_strings, store, store_bytes, stored, texts};
use crate::datasets::{CollectByBlock, CollectByTransaction};
use crate::error::CollectError;
use crate::opcode::ExecutedInstruction;
use crate::schema::{Datatype, Schemas, Table};
use crate::traces::{BlockTrace, TraceResponse};
use vstd::prelude::*;
use vstd::string::StringExecFns;

verus! {

/// A change to a chunk of memory.
#[derive(Clone, Debug, PartialEq, Eq)]
pub struct MemoryDiff {
    /// The offset at which the change begins.
    pub off: u64,
    /// The data written there.
    pub data: Vec<u8>,
}

/// A change to one storage slot.
#[derive(Clone, Debug, PartialEq, Eq)]
pub struct StorageDiff {
    /// The key of the slot.
    pub key: Vec<u8>,
    /// The value written to it.
    pub val: Vec<u8>,
}

/// What an executed operation wrote: memory or storage, never both.
#[derive(Clone, Debug, PartialEq, Eq)]
pub enum VmWrite {
    Memory(MemoryDiff),
    Storage(StorageDiff),
}

/// The outcome of an operation that executed.
#[derive(Clone, Debug, PartialEq, Eq)]
pub struct VmExecutedOperation {
    /// The gas used in total.
    pub used: u64,
    /// The bytes of what was pushed on the stack.
    pub push: Vec<u8>,
    /// What was written, if anything.
    pub write: Option<VmWrite>,
}

/// One operation of a trace.
#[derive(Debug, PartialEq, Eq)]
pub struct VmOperation {
    /// The program counter.
    pub pc: u64,
    /// The gas cost of the instruction.
    pub cost: u64,
    /// The outcome, where the operation executed.
    pub ex: Option<VmExecutedOperation>,
    /// The trace of the nested call or create, where there is one.
    pub sub: Option<VmTrace>,
    /// The instruction.
    pub op: ExecutedInstruction,
}

/// The trace of one call or create: its operations in the order of execution.
#[derive(Debug, PartialEq, Eq)]
pub struct VmTrace {
    pub ops: Vec<VmOperation>,
}

/// One row of the flattened trace, as plain values.
pub struct VmTraceRow {
    pub block_number: Option<u32>,
    pub transaction_hash: Option<Seq<u8>>,
    pub transaction_position: u32,
    pub pc: u64,
    pub cost: u64,
    pub used: Option<u64>,
    pub push: Option<Seq<u8>>,
    pub mem_off: Option<u32>,
    pub mem_data: Option<Seq<u8>>,
    pub storage_key: Option<Seq<u8>>,
    pub storage_val: Option<Seq<u8>>,
    pub op: Seq<char>,
}

impl VmExecutedOperation {
    /// The outcome with the given parts, as a node reports them. Fails where
    /// both a memory write and a storage write are reported: an operation
    /// writes one or the other, never both.
    pub fn new(
        used: u64,
        push: Vec<u8>,
        mem: Option<MemoryDiff>,
        store: Option<StorageDiff>,
    ) -> (result: Result<VmExecutedOperation, CollectError>)
        ensures
            match (mem, store) {
                (Some(_), Some(_)) => result matches Err(CollectError::DecodeError(message))
                    && message@ == "operation writes both memory and storage"@,
                (Some(memory), None) => result == Ok::<VmExecutedOperation, CollectError>(
                    VmExecutedOperation { used, push, write: Some(VmWrite::Memory(memory)) },
                ),
                (None, Some(slot)) => result == Ok::<VmExecutedOperation, CollectError>(
                    VmExecutedOperation { used, push, write: Some(VmWrite::Storage(slot)) },
                ),
                (None, None) => result == Ok::<VmExecutedOperation, CollectError>(
                    VmExecutedOperation { used, push, write: None },
                ),
            },
    {
        let write = match (mem, store) {
            (Some(_), Some(_)) => {
                return Err(
                    CollectError::DecodeError(
                        String::from_str("operation writes both memory and storage"),
                    ),
                );
            },
            (Some(memory), None) => Some(VmWrite::Memory(memory)),
            (None, Some(slot)) => Some(VmWrite::Storage(slot)),
            (None, None) => None,
        };
        Ok(VmExecutedOperation { used, push, write })
    }

    /// The memory offset that a row records for the outcome.
    pub open spec fn mem_off(self) -> Option<u32> {
        match self.write {
            Some(VmWrite::Memory(mem)) => Some(mem.off as u32),
            _ => None,
        }
    }

    /// The memory data that a row records for the outcome.
    pub open spec fn mem_data(self) -> Option<Seq<u8>> {
        match self.write {
            Some(VmWrite::Memory(mem)) => Some(mem.data@),
            _ => None,
        }
    }

    /// The storage key that a row records for the outcome.
    pub open spec fn storage_key(self) -> Option<Seq<u8>> {
        match self.write {
            Some(VmWrite::Storage(store)) => Some(store.key@),
            _ => None,
        }
    }

    /// The storage value that a row records for the outcome.
    pub open spec fn storage_val(self) -> Option<Seq<u8>> {
        match self.write {
            Some(VmWrite::Storage(store)) => Some(store.val@),
            _ => None,
        }
    }
}

impl VmOperation {
    /// The row of the operation itself, within the transaction at position
    /// `tx_pos` of the block `number` or under the hash `tx_hash`.
    pub open spec fn row(
        self,
        number: Option<u32>,
        tx_hash: Option<Seq<u8>>,
        tx_pos: usize,
    ) -> VmTraceRow {
        VmTraceRow {
            block_number: number,
            transaction_hash: tx_hash,
            transaction_position: tx_pos as u32,
            pc: self.pc,
            cost: self.cost,
            used: match self.ex {
                Some(ex) => Some(ex.used),
                None => None,
            },
            push: match self.ex {
                Some(ex) => Some(ex.push@),
                None => None,
            },
            mem_off: match self.ex {
                Some(ex) => ex.mem_off(),
                None => None,
            },
            mem_data: match self.ex {
                Some(ex) => ex.mem_data(),
                None => None,
            },
            storage_key: match self.ex {
                Some(ex) => ex.storage_key(),
                None => None,
            },
            storage_val: match self.ex {
                Some(ex) => ex.storage_val(),
                None => None,
            },
            op: self.op.text(),
        }
    }

    /// The rows of the operation and of all that is nested in it: its own
    /// row first, then the rows of its nested trace.
    pub open spec fn rows(
        self,
        number: Option<u32>,
        tx_hash: Option<Seq<u8>>,
        tx_pos: usize,
    ) -> Seq<VmTraceRow>
        decreases self,
    {
        seq![self.row(number, tx_hash, tx_pos)] + match self.sub {
            Some(sub) => sub.rows(number, tx_hash, tx_pos),
            None => Seq::empty(),
        }
    }

    /// The number of operations in the operation and all that is nested in it.
    pub open spec fn node_count(self) -> nat
        decreases self,
    {
        1 + match self.sub {
            Some(sub) => sub.node_count(),
            None => 0,
        }
    }
}

/// The rows of `ops`, each operation followed by what is nested in it.
pub open spec fn rows_of_ops(
    ops: Seq<VmOperation>,
    number: Option<u32>,
    tx_hash: Option<Seq<u8>>,
    tx_pos: usize,
) -> Seq<VmTraceRow>
    decreases ops,
{
    if ops.len() == 0 {
        Seq::empty()
    } else {
        rows_of_ops(ops.drop_last(), number, tx_hash, tx_pos) + ops.last().rows(
            number,
            tx_hash,
            tx_pos,
        )
    }
}

/// The number of operations in `ops` and all that is nested in them.
pub open spec fn count_of_ops(ops: Seq<VmOperation>) -> nat
    decreases ops,
{
    if ops.len() == 0 {
        0
    } else {
        count_of_ops(ops.drop_last()) + ops.last().node_count()
    }
}

impl VmTrace {
    /// The rows of the trace: a depth-first walk in the order of execution.
    pub open spec fn rows(
        self,
        number: Option<u32>,
        tx_hash: Option<Seq<u8>>,
        tx_pos: usize,
    ) -> Seq<VmTraceRow>
        decreases self,
    {
        rows_of_ops(self.ops@, number, tx_hash, tx_pos)
    }

    /// The number of operations in the trace, nested ones included.
    pub open spec fn node_count(self) -> nat
        decreases self,
    {
        count_of_ops(self.ops@)
    }
}

/// The column store of the dataset, as plain values: the row counter and
/// what each column holds.
#[verifier::ext_equal]
pub struct VmTraceTable {
    pub n_rows: nat,
    pub block_number: Seq<Option<u32>>,
    pub transaction_hash: Seq<Option<Seq<u8>>>,
    pub transaction_position: Seq<u32>,
    pub pc: Seq<u64>,
    pub cost: Seq<u64>,
    pub used: Seq<Option<u64>>,
    pub push: Seq<Option<Seq<u8>>>,
    pub mem_off: Seq<Option<u32>>,
    pub mem_data: Seq<Option<Seq<u8>>>,
    pub storage_key: Seq<Option<Seq<u8>>>,
    pub storage_val: Seq<Option<Seq<u8>>>,
    pub op: Seq<Seq<char>>,
}

impl VmTraceTable {
    /// The store without any row.
    pub open spec fn empty() -> VmTraceTable {
        VmTraceTable {
            n_rows: 0,
            block_number: Seq::empty(),
            transaction_hash: Seq::empty(),
            transaction_position: Seq::empty(),
            pc: Seq::empty(),
            cost: Seq::empty(),
            used: Seq::empty(),
            push: Seq::empty(),
            mem_off: Seq::empty(),
            mem_data: Seq::empty(),
            storage_key: Seq::empty(),
            storage_val: Seq::empty(),
            op: Seq::empty(),
        }
    }

    /// The store after `rows` were emitted under `schema`: the row counter
    /// has grown by their number, and each column that the schema asks for
    /// has grown by their values in order.
    pub open spec fn with_rows(self, schema: Table, rows: Seq<VmTraceRow>) -> VmTraceTable {
        VmTraceTable {
            n_rows: self.n_rows + rows.len(),
            block_number: stored(
                self.block_number,
                schema,
                "block_number"@,
                Seq::new(rows.len(), |i: int| rows[i].block_number),
            ),
            transaction_hash: stored(
                self.transaction_hash,
                schema,
                "transaction_hash"@,
                Seq::new(rows.len(), |i: int| rows[i].transaction_hash),
            ),
            transaction_position: stored(
                self.transaction_position,
                schema,
                "transaction_position"@,
                Seq::new(rows.len(), |i: int| rows[i].transaction_position),
            ),
            pc: stored(self.pc, schema, "pc"@, Seq::new(rows.len(), |i: int| rows[i].pc)),
            cost: stored(self.cost, schema, "cost"@, Seq::new(rows.len(), |i: int| rows[i].cost)),
            used: stored(self.used, schema, "used"@, Seq::new(rows.len(), |i: int| rows[i].used)),
            push: stored(self.push, schema, "push"@, Seq::new(rows.len(), |i: int| rows[i].push)),
            mem_off: stored(
                self.mem_off,
                schema,
                "mem_off"@,
                Seq::new(rows.len(), |i: int| rows[i].mem_off),
            ),
            mem_data: stored(
                self.mem_data,
                schema,
                "mem_data"@,
                Seq::new(rows.len(), |i: int| rows[i].mem_data),
            ),
            storage_key: stored(
                self.storage_key,
                schema,
                "storage_key"@,
                Seq::new(rows.len(), |i: int| rows[i].storage_key),
            ),
            storage_val: stored(
                self.storage_val,
                schema,
                "storage_val"@,
                Seq::new(rows.len(), |i: int| rows[i].storage_val),
            ),
            op: stored(self.op, schema, "op"@, Seq::new(rows.len(), |i: int| rows[i].op)),
        }
    }

    /// Whether every column is in step with `schema`: as long as the row
    /// counter where the schema asks for it, and empty where it does not.
    pub open spec fn fits(self, schema: Table) -> bool {
        &&& in_step(self.block_number, schema, "block_number"@, self.n_rows)
        &&& in_step(self.transaction_hash, schema, "transaction_hash"@, self.n_rows)
        &&& in_step(self.transaction_position, schema, "transaction_position"@, self.n_rows)
        &&& in_step(self.pc, schema, "pc"@, self.n_rows)
        &&& in_step(self.cost, schema, "cost"@, self.n_rows)
        &&& in_step(self.used, schema, "used"@, self.n_rows)
        &&& in_step(self.push, schema, "push"@, self.n_rows)
        &&& in_step(self.mem_off, schema, "mem_off"@, self.n_rows)
        &&& in_step(self.mem_data, schema, "mem_data"@, self.n_rows)
        &&& in_step(self.storage_key, schema, "storage_key"@, self.n_rows)
        &&& in_step(self.storage_val, schema, "storage_val"@, self.n_rows)
        &&& in_step(self.op, schema, "op"@, self.n_rows)
    }
}

/// Emitting no row leaves a store as it is.
pub proof fn lemma_with_no_rows(table: VmTraceTable, schema: Table)
    ensures
        table.with_rows(schema, Seq::empty()) == table,
{
    assert(table.with_rows(schema, Seq::empty()) =~= table);
}

/// Emitting `first` and then `second` is emitting `first + second`.
pub proof fn lemma_with_rows_twice(
    table: VmTraceTable,
    schema: Table,
    first: Seq<VmTraceRow>,
    second: Seq<VmTraceRow>,
)
    ensures
        table.with_rows(schema, first).with_rows(schema, second) == table.with_rows(
            schema,
            first + second,
        ),
{
    assert(table.with_rows(schema, first).with_rows(schema, second) =~= table.with_rows(
        schema,
        first + second,
    ));
}

/// The store without any row is in step with every schema.
pub proof fn lemma_empty_fits(schema: Table)
    ensures
        VmTraceTable::empty().fits(schema),
{
}

/// A store that is in step with a schema stays so when rows are emitted
/// under that schema.
pub proof fn lemma_with_rows_fits(table: VmTraceTable, schema: Table, rows: Seq<VmTraceRow>)
    requires
        table.fits(schema),
    ensures
        table.with_rows(schema, rows).fits(schema),
{
}

/// The columns of the flattened traces.
#[derive(Debug, PartialEq, Eq)]
pub struct VmTraceColumns {
    block_number: Vec<Option<u32>>,
    transaction_hash: Vec<Option<Vec<u8>>>,
    transaction_position: Vec<u32>,
    pc: Vec<u64>,
    cost: Vec<u64>,
    used: Vec<Option<u64>>,
    push: Vec<Option<Vec<u8>>>,
    mem_off: Vec<Option<u32>>,
    mem_data: Vec<Option<Vec<u8>>>,
    storage_key: Vec<Option<Vec<u8>>>,
    storage_val: Vec<Option<Vec<u8>>>,
    op: Vec<String>,
    n_rows: usize,
}

impl View for VmTraceColumns {
    type V = VmTraceTable;

    closed spec fn view(&self) -> VmTraceTable {
        VmTraceTable {
            n_rows: self.n_rows as nat,
            block_number: self.block_number@,
            transaction_hash: optional_byte_strings(self.transaction_hash@),
            transaction_position: self.transaction_position@,
            pc: self.pc@,
            cost: self.cost@,
            used: self.used@,
            push: optional_byte_strings(self.push@),
            mem_off: self.mem_off@,
            mem_data: optional_byte_strings(self.mem_data@),
            storage_key: optional_byte_strings(self.storage_key@),
            storage_val: optional_byte_strings(self.storage_val@),
            op: texts(self.op@),
        }
    }
}

impl Default for VmTraceColumns {
    fn default() -> (columns: VmTraceColumns)
        ensures
            columns@ == VmTraceTable::empty(),
    {
        VmTraceColumns::new()
    }
}

impl VmTraceColumns {
    /// A store without any row.
    pub fn new() -> (columns: VmTraceColumns)
        ensures
            columns@ == VmTraceTable::empty(),
    {
        let columns = VmTraceColumns {
            block_number: Vec::new(),
            transaction_hash: Vec::new(),
            transaction_position: Vec::new(),
            pc: Vec::new(),
            cost: Vec::new(),
            used: Vec::new(),
            push: Vec::new(),
            mem_off: Vec::new(),
            mem_data: Vec::new(),
            storage_key: Vec::new(),
            storage_val: Vec::new(),
            op: Vec::new(),
            n_rows: 0,
        };
        assert(columns@ =~= VmTraceTable::empty());
        columns
    }

    /// The number of rows emitted.
    pub fn n_rows(&self) -> (n_rows: usize)
        ensures
            n_rows == self@.n_rows,
    {
        self.n_rows
    }

    /// The column of block numbers.
    pub fn block_number(&self) -> (column: &Vec<Option<u32>>)
        ensures
            column@ == self@.block_number,
    {
        &self.block_number
    }

    /// The column of transaction hashes.
    pub fn transaction_hash(&self) -> (column: &Vec<Option<Vec<u8>>>)
        ensures
            optional_byte_strings(column@) == self@.transaction_hash,
    {
        &self.transaction_hash
    }

    /// The column of transaction positions.
    pub fn transaction_position(&self) -> (column: &Vec<u32>)
        ensures
            column@ == self@.transaction_position,
    {
        &self.transaction_position
    }

    /// The column of program counters.
    pub fn pc(&self) -> (column: &Vec<u64>)
        ensures
            column@ == self@.pc,
    {
        &self.pc
    }

    /// The column of gas costs.
    pub fn cost(&self) -> (column: &Vec<u64>)
        ensures
            column@ == self@.cost,
    {
        &self.cost
    }

    /// The column of gas used.
    pub fn used(&self) -> (column: &Vec<Option<u64>>)
        ensures
            column@ == self@.used,
    {
        &self.used
    }

    /// The column of pushed values.
    pub fn push(&self) -> (column: &Vec<Option<Vec<u8>>>)
        ensures
            optional_byte_strings(column@) == self@.push,
    {
        &self.push
    }

    /// The column of memory offsets.
    pub fn mem_off(&self) -> (column: &Vec<Option<u32>>)
        ensures
            column@ == self@.mem_off,
    {
        &self.mem_off
    }

    /// The column of memory data.
    pub fn mem_data(&self) -> (column: &Vec<Option<Vec<u8>>>)
        ensures
            optional_byte_strings(column@) == self@.mem_data,
    {
        &self.mem_data
    }

    /// The column of storage keys.
    pub fn storage_key(&self) -> (column: &Vec<Option<Vec<u8>>>)
        ensures
            optional_byte_strings(column@) == self@.storage_key,
    {
        &self.storage_key
    }

    /// The column of storage values.
    pub fn storage_val(&self) -> (column: &Vec<Option<Vec<u8>>>)
        ensures
            optional_byte_strings(column@) == self@.storage_val,
    {
        &self.storage_val
    }

    /// The column of instructions.
    pub fn op(&self) -> (column: &Vec<String>)
        ensures
            texts(column@) == self@.op,
    {
        &self.op
    }

    /// Emits the row of `operation` itself: counts it, and writes its value
    /// to each column that `schema` asks for.
    fn store_row(
        &mut self,
        schema: &Table,
        operation: &VmOperation,
        number: Option<u32>,
        tx_hash: &Option<Vec<u8>>,
        tx_pos: usize,
    )
        requires
            old(self)@.n_rows < usize::MAX,
        ensures
            final(self)@ == old(self)@.with_rows(
                *schema,
                seq![operation.row(number, bytes_of(*tx_hash), tx_pos)],
            ),
    {
        let ghost row = operation.row(number, bytes_of(*tx_hash), tx_pos);
        self.n_rows += 1;
        store(&mut self.block_number, schema, "block_number", number);
        store_bytes(&mut self.transaction_hash, schema, "transaction_hash", tx_hash.as_ref());
        store(
            &mut self.transaction_position,
            schema,
            "transaction_position",
            #[verifier::truncate] (tx_pos as u32),
        );
        store(&mut self.pc, schema, "pc", operation.pc);
        store(&mut self.cost, schema, "cost", operation.cost);
        match &operation.ex {
            Some(ex) => {
                store(&mut self.used, schema, "used", Some(ex.used));
                store_bytes(&mut self.push, schema, "push", Some(&ex.push));
                match &ex.write {
                    Some(VmWrite::Memory(mem)) => {
                        store(
                            &mut self.mem_off,
                            schema,
                            "mem_off",
                            Some(#[verifier::truncate] (mem.off as u32)),
                        );
                        store_bytes(&mut self.mem_data, schema, "mem_data", Some(&mem.data));
                        store_bytes(&mut self.storage_key, schema, "storage_key", None);
                        store_bytes(&mut self.storage_val, schema, "storage_val", None);
                    },
                    Some(VmWrite::Storage(slot)) => {
                        store(&mut self.mem_off, schema, "mem_off", None);
                        store_bytes(&mut self.mem_data, schema, "mem_data", None);
                        store_bytes(&mut self.storage_key, schema, "storage_key", Some(&slot.key));
                        store_bytes(&mut self.storage_val, schema, "storage_val", Some(&slot.val));
                    },
                    None => {
                        store(&mut self.mem_off, schema, "mem_off", None);
                        store_bytes(&mut self.mem_data, schema, "mem_data", None);
                        store_bytes(&mut self.storage_key, schema, "storage_key", None);
                        store_bytes(&mut self.storage_val, schema, "storage_val", None);
                    },
                }
            },
            None => {
                store(&mut self.used, schema, "used", None);
                store_bytes(&mut self.push, schema, "push", None);
                store(&mut self.mem_off, schema, "mem_off", None);
                store_bytes(&mut self.mem_data, schema, "mem_data", None);
                store_bytes(&mut self.storage_key, schema, "storage_key", None);
                store_bytes(&mut self.storage_val, schema, "storage_val", None);
            },
        }
        if schema.has_column("op") {
            self.op.push(operation.op.to_text());
            assert(texts(self.op@) =~= texts(old(self).op@) + seq![row.op]);
        }
        assert(self@ =~= old(self)@.with_rows(*schema, seq![row]));
    }
}

/// Flattening emits one row for each operation of the trace, nested ones
/// included.
pub proof fn lemma_rows_count(
    trace: VmTrace,
    number: Option<u32>,
    tx_hash: Option<Seq<u8>>,
    tx_pos: usize,
)
    ensures
        trace.rows(number, tx_hash, tx_pos).len() == trace.node_count(),
    decreases trace,
{
    lemma_rows_of_ops_count(trace.ops@, number, tx_hash, tx_pos);
}

/// The rows of a sequence of operations are as many as its operations,
/// nested ones included.
pub proof fn lemma_rows_of_ops_count(
    ops: Seq<VmOperation>,
    number: Option<u32>,
    tx_hash: Option<Seq<u8>>,
    tx_pos: usize,
)
    ensures
        rows_of_ops(ops, number, tx_hash, tx_pos).len() == count_of_ops(ops),
    decreases ops,
{
    reveal_with_fuel(rows_of_ops, 2);
    reveal_with_fuel(count_of_ops, 2);
    if ops.len() > 0 {
        lemma_rows_of_ops_count(ops.drop_last(), number, tx_hash, tx_pos);
        match ops.last().sub {
            Some(sub) => lemma_rows_count(sub, number, tx_hash, tx_pos),
            None => {},
        }
    }
}

/// A prefix of a sequence of operations holds no more operations than the
/// whole.
proof fn lemma_count_of_prefix(ops: Seq<VmOperation>, n: int)
    requires
        0 <= n <= ops.len(),
    ensures
        count_of_ops(ops.take(n)) <= count_of_ops(ops),
    decreases ops.len(),
{
    if n == ops.len() {
        assert(ops.take(n) =~= ops);
    } else {
        lemma_count_of_prefix(ops.drop_last(), n);
        assert(ops.drop_last().take(n) =~= ops.take(n));
    }
}

/// Flattens `vm_trace` into `columns`: a depth-first walk that emits the row
/// of each operation and then, before it goes on to the next operation, the
/// rows of the trace nested in it.
pub fn add_ops(
    vm_trace: &VmTrace,
    schema: &Table,
    columns: &mut VmTraceColumns,
    number: Option<u32>,
    tx_hash: &Option<Vec<u8>>,
    tx_pos: usize,
)
    requires
        old(columns)@.n_rows + vm_trace.node_count() <= usize::MAX,
    ensures
        final(columns)@ == old(columns)@.with_rows(
            *schema,
            vm_trace.rows(number, bytes_of(*tx_hash), tx_pos),
        ),
        final(columns)@.n_rows == old(columns)@.n_rows + vm_trace.node_count(),
        old(columns)@.fits(*schema) ==> final(columns)@.fits(*schema),
    decreases vm_trace,
{
    let ghost hash = bytes_of(*tx_hash);
    let mut i: usize = 0;
    proof {
        lemma_rows_count(*vm_trace, number, hash, tx_pos);
        if columns@.fits(*schema) {
            lemma_with_rows_fits(columns@, *schema, vm_trace.rows(number, hash, tx_pos));
        }
        lemma_with_no_rows(columns@, *schema);
        assert(vm_trace.ops@.take(0) =~= Seq::<VmOperation>::empty());
    }
    while i < vm_trace.ops.len()
        invariant
            i <= vm_trace.ops.len(),
            hash == bytes_of(*tx_hash),
            old(columns)@.n_rows + vm_trace.node_count() <= usize::MAX,
            columns@ == old(columns)@.with_rows(
                *schema,
                rows_of_ops(vm_trace.ops@.take(i as int), number, hash, tx_pos),
            ),
        decreases vm_trace.ops.len() - i,
    {
        let operation = &vm_trace.ops[i];
        let ghost before = vm_trace.ops@.take(i as int);
        let ghost done = rows_of_ops(before, number, hash, tx_pos);
        proof {
            assert(vm_trace.ops@.take(i + 1).drop_last() =~= before);
            assert(vm_trace.ops@.take(i + 1).last() == *operation);
            lemma_rows_of_ops_count(before, number, hash, tx_pos);
            lemma_count_of_prefix(vm_trace.ops@, i + 1);
            reveal_with_fuel(count_of_ops, 2);
            reveal_with_fuel(rows_of_ops, 2);
            assert(count_of_ops(vm_trace.ops@.take(i + 1)) == count_of_ops(before)
                + operation.node_count());
            assert(rows_of_ops(vm_trace.ops@.take(i + 1), number, hash, tx_pos) == done
                + operation.rows(number, hash, tx_pos));
        }
        columns.store_row(schema, operation, number, tx_hash, tx_pos);
        proof {
            lemma_with_rows_twice(
                old(columns)@,
                *schema,
                done,
                seq![operation.row(number, hash, tx_pos)],
            );
        }
        match &operation.sub {
            Some(sub) => {
                let ghost own = done + seq![operation.row(number, hash, tx_pos)];
                add_ops(sub, schema, columns, number, tx_hash, tx_pos);
                proof {
                    lemma_with_rows_twice(
                        old(columns)@,
                        *schema,
                        own,
                        sub.rows(number, hash, tx_pos),
                    );
                    assert(own + sub.rows(number, hash, tx_pos) =~= done + operation.rows(
                        number,
                        hash,
                        tx_pos,
                    ));
                }
            },
            None => {
                assert(done + seq![operation.row(number, hash, tx_pos)] =~= done + operation.rows(
                    number,
                    hash,
                    tx_pos,
                ));
            },
        }
        i += 1;
    }
    proof {
        assert(vm_trace.ops@.take(i as int) =~= vm_trace.ops@);
    }
}

/// The rows of the traces of one transaction: those of its execution trace,
/// where it has one.
pub open spec fn rows_of_block_trace(
    trace: BlockTrace,
    number: Option<u32>,
    tx_hash: Option<Seq<u8>>,
    tx_pos: usize,
) -> Seq<VmTraceRow> {
    match trace.vm_trace {
        Some(vm_trace) => vm_trace.rows(number, tx_hash, tx_pos),
        None => Seq::empty(),
    }
}

/// The rows of a list of traces: those of each in order, the position of a
/// trace in the list being its transaction position.
pub open spec fn rows_of_traces(
    traces: Seq<BlockTrace>,
    number: Option<u32>,
    tx_hash: Option<Seq<u8>>,
) -> Seq<VmTraceRow>
    decreases traces.len(),
{
    if traces.len() == 0 {
        Seq::empty()
    } else {
        rows_of_traces(traces.drop_last(), number, tx_hash) + rows_of_block_trace(
            traces.last(),
            number,
            tx_hash,
            (traces.len() - 1) as usize,
        )
    }
}

/// The rows of a response.
pub open spec fn rows_of_response(response: TraceResponse) -> Seq<VmTraceRow> {
    rows_of_traces(response.2@, response.0, bytes_of(response.1))
}

/// The number of operations in the execution traces of a list of traces.
pub open spec fn count_of_traces(traces: Seq<BlockTrace>) -> nat
    decreases traces.len(),
{
    if traces.len() == 0 {
        0
    } else {
        count_of_traces(traces.drop_last()) + match traces.last().vm_trace {
            Some(vm_trace) => vm_trace.node_count(),
            None => 0,
        }
    }
}

/// A list of traces gives as many rows as its execution traces hold
/// operations.
pub proof fn lemma_rows_of_traces_count(
    traces: Seq<BlockTrace>,
    number: Option<u32>,
    tx_hash: Option<Seq<u8>>,
)
    ensures
        rows_of_traces(traces, number, tx_hash).len() == count_of_traces(traces),
    decreases traces.len(),
{
    if traces.len() > 0 {
        lemma_rows_of_traces_count(traces.drop_last(), number, tx_hash);
        match traces.last().vm_trace {
            Some(vm_trace) => lemma_rows_count(
                vm_trace,
                number,
                tx_hash,
                (traces.len() - 1) as usize,
            ),
            None => {},
        }
    }
}

/// A prefix of a list of traces holds no more operations than the whole.
proof fn lemma_count_of_traces_prefix(traces: Seq<BlockTrace>, n: int)
    requires
        0 <= n <= traces.len(),
    ensures
        count_of_traces(traces.take(n)) <= count_of_traces(traces),
    decreases traces.len(),
{
    if n == traces.len() {
        assert(traces.take(n) =~= traces);
    } else {
        lemma_count_of_traces_prefix(traces.drop_last(), n);
        assert(traces.drop_last().take(n) =~= traces.take(n));
    }
}

/// What is left of a budget of `room` rows after the rows of `vm_trace`;
/// nothing where the rows do not fit.
pub fn room_after(vm_trace: &VmTrace, room: usize) -> (left: Option<usize>)
    ensures
        match left {
            Some(rest) => rest + vm_trace.node_count() == room,
            None => vm_trace.node_count() > room,
        },
    decreases vm_trace,
{
    let mut left = room;
    let mut i: usize = 0;
    proof {
        assert(vm_trace.ops@.take(0) =~= Seq::<VmOperation>::empty());
    }
    while i < vm_trace.ops.len()
        invariant
            i <= vm_trace.ops.len(),
            left + count_of_ops(vm_trace.ops@.take(i as int)) == room,
        decreases vm_trace.ops.len() - i,
    {
        let operation = &vm_trace.ops[i];
        proof {
            assert(vm_trace.ops@.take(i + 1).drop_last() =~= vm_trace.ops@.take(i as int));
            assert(vm_trace.ops@.take(i + 1).last() == *operation);
            lemma_count_of_prefix(vm_trace.ops@, i + 1);
            reveal_with_fuel(count_of_ops, 2);
            assert(count_of_ops(vm_trace.ops@.take(i + 1)) == count_of_ops(
                vm_trace.ops@.take(i as int),
            ) + operation.node_count());
        }
        if left == 0 {
            return None;
        }
        left -= 1;
        match &operation.sub {
            Some(sub) => {
                match room_after(sub, left) {
                    Some(rest) => {
                        left = rest;
                    },
                    None => {
                        return None;
                    },
                }
            },
            None => {},
        }
        i += 1;
    }
    proof {
        assert(vm_trace.ops@.take(i as int) =~= vm_trace.ops@);
    }
    Some(left)
}

/// Whether the row counter of `columns` can take the rows of `response`.
pub fn has_room_for(response: &TraceResponse, columns: &VmTraceColumns) -> (fits: bool)
    ensures
        fits == (columns@.n_rows + count_of_traces(response.2@) <= usize::MAX),
{
    let block_traces = &response.2;
    let mut left: usize = usize::MAX - columns.n_rows;
    let mut i: usize = 0;
    proof {
        assert(block_traces@.take(0) =~= Seq::<BlockTrace>::empty());
    }
    while i < block_traces.len()
        invariant
            i <= block_traces.len(),
            block_traces == &response.2,
            left + count_of_traces(block_traces@.take(i as int)) + columns@.n_rows == usize::MAX,
        decreases block_traces.len() - i,
    {
        proof {
            assert(block_traces@.take(i + 1).drop_last() =~= block_traces@.take(i as int));
            assert(block_traces@.take(i + 1).last() == block_traces@[i as int]);
            lemma_count_of_traces_prefix(block_traces@, i + 1);
        }
        match &block_traces[i].vm_trace {
            Some(vm_trace) => {
                match room_after(vm_trace, left) {
                    Some(rest) => {
                        left = rest;
                    },
                    None => {
                        return false;
                    },
                }
            },
            None => {},
        }
        i += 1;
    }
    proof {
        assert(block_traces@.take(i as int) =~= block_traces@);
    }
    true
}

/// Emits the rows of a response: each execution trace is flattened in turn,
/// the position of its transaction in the response being its transaction
/// position. Fails, and writes nothing, where no schema is registered for VM
/// traces.
pub fn process_vm_traces(
    response: TraceResponse,
    columns: &mut VmTraceColumns,
    schemas: &Schemas,
) -> (result: Result<(), CollectError>)
    requires
        old(columns)@.n_rows + count_of_traces(response.2@) <= usize::MAX,
    ensures
        match schemas.lookup(Datatype::VmTraces) {
            Some(schema) => result is Ok && final(columns)@ == old(columns)@.with_rows(
                schema,
                rows_of_response(response),
            ) && (old(columns)@.fits(schema) ==> final(columns)@.fits(schema)),
            None => final(columns)@ == old(columns)@ && (result matches Err(
                CollectError::SchemaError(message),
            ) && message@ == "missing schema"@),
        },
{
    let schema = match schemas.get(Datatype::VmTraces) {
        Some(schema) => schema,
        None => {
            return Err(CollectError::SchemaError(String::from_str("missing schema")));
        },
    };
    proof {
        if columns@.fits(*schema) {
            lemma_with_rows_fits(columns@, *schema, rows_of_response(response));
        }
    }
    let block_traces = &response.2;
    let ghost hash = bytes_of(response.1);
    let mut tx_pos: usize = 0;
    proof {
        lemma_with_no_rows(columns@, *schema);
        assert(block_traces@.take(0) =~= Seq::<BlockTrace>::empty());
    }
    while tx_pos < block_traces.len()
        invariant
            tx_pos <= block_traces.len(),
            block_traces == &response.2,
            hash == bytes_of(response.1),
            old(columns)@.n_rows + count_of_traces(block_traces@) <= usize::MAX,
            columns@ == old(columns)@.with_rows(
                *schema,
                rows_of_traces(block_traces@.take(tx_pos as int), response.0, hash),
            ),
        decreases block_traces.len() - tx_pos,
    {
        let block_trace = &block_traces[tx_pos];
        let ghost before = block_traces@.take(tx_pos as int);
        let ghost done = rows_of_traces(before, response.0, hash);
        proof {
            assert(block_traces@.take(tx_pos + 1).drop_last() =~= before);
            assert(block_traces@.take(tx_pos + 1).last() == *block_trace);
            lemma_rows_of_traces_count(before, response.0, hash);
            lemma_count_of_traces_prefix(block_traces@, tx_pos + 1);
        }
        match &block_trace.vm_trace {
            Some(vm_trace) => {
                add_ops(vm_trace, schema, columns, response.0, &response.1, tx_pos);
                proof {
                    lemma_with_rows_twice(
                        old(columns)@,
                        *schema,
                        done,
                        vm_trace.rows(response.0, hash, tx_pos),
                    );
                }
            },
            None => {
                assert(done + rows_of_block_trace(*block_trace, response.0, hash, tx_pos) =~= done);
            },
        }
        tx_pos += 1;
    }
    proof {
        assert(block_traces@.take(tx_pos as int) =~= block_traces@);
    }
    Ok(())
}

/// The dataset of execution traces of the virtual machine.
pub struct VmTraces;

impl CollectByBlock for VmTraces {
    type Response = TraceResponse;

    type Columns = VmTraceColumns;

    open spec fn kind() -> Datatype {
        Datatype::VmTraces
    }

    open spec fn has_room(response: &TraceResponse, before: VmTraceTable) -> bool {
        before.n_rows + count_of_traces(response.2@) <= usize::MAX
    }

    open spec fn emitted(response: &TraceResponse, schema: Table, before: VmTraceTable)
        -> VmTraceTable {
        before.with_rows(schema, rows_of_response(*response))
    }

    open spec fn in_step(contents: VmTraceTable, schema: Table) -> bool {
        contents.fits(schema)
    }

    fn fits(response: &TraceResponse, columns: &VmTraceColumns) -> (fits: bool) {
        has_room_for(response, columns)
    }

    fn transform(
        response: TraceResponse,
        columns: &mut VmTraceColumns,
        schemas: &Schemas,
    ) -> (result: Result<(), CollectError>) {
        process_vm_traces(response, columns, schemas)
    }
}

impl CollectByTransaction for VmTraces {
    type Response = TraceResponse;

    type Columns = VmTraceColumns;

    open spec fn kind() -> Datatype {
        Datatype::VmTraces
    }

    open spec fn has_room(response: &TraceResponse, before: VmTraceTable) -> bool {
        before.n_rows + count_of_traces(response.2@) <= usize::MAX
    }

    open spec fn emitted(response: &TraceResponse, schema: Table, before: VmTraceTable)
        -> VmTraceTable {
        before.with_rows(schema, rows_of_response(*response))
    }

    open spec fn in_step(contents: VmTraceTable, schema: Table) -> bool {
        contents.fits(schema)
    }

    fn fits(response: &TraceResponse, columns: &VmTraceColumns) -> (fits: bool) {
        has_room_for(response, columns)
    }

    fn transform(
        response: TraceResponse,
        columns: &mut VmTraceColumns,
        schemas: &Schemas,
    ) -> (result: Result<(), CollectError>) {
        process_vm_traces(response, columns, schemas)
    }
}

} // verus!
