//! Which datasets exist and which named columns each of them is asked to emit.

use vstd::prelude::*;
use vstd::string::StringExecFns;

verus! {

/// The kinds of dataset that can be collected.
#[derive(Clone, Copy, Debug, PartialEq, Eq, Hash, Structural)]
pub enum Datatype {
    BalanceDiffs,
    CodeDiffs,
    Erc721Metadata,
    NonceDiffs,
    StorageDiffs,
    Transactions,
    VmTraces,
}

impl Datatype {
    /// The name under which the dataset is known.
    pub open spec fn dataset_name(self) -> Seq<char> {
        match self {
            Datatype::BalanceDiffs => "balance_diffs"@,
            Datatype::CodeDiffs => "code_diffs"@,
            Datatype::Erc721Metadata => "erc721_metadata"@,
            Datatype::NonceDiffs => "nonce_diffs"@,
            Datatype::StorageDiffs => "storage_diffs"@,
            Datatype::Transactions => "transactions"@,
            Datatype::VmTraces => "vm_traces"@,
        }
    }

    /// The name under which the dataset is known.
    pub fn name(&self) -> (name: &'static str)
        ensures
            name@ == self.dataset_name(),
    {
        match self {
            Datatype::BalanceDiffs => "balance_diffs",
            Datatype::CodeDiffs => "code_diffs",
            Datatype::Erc721Metadata => "erc721_metadata",
            Datatype::NonceDiffs => "nonce_diffs",
            Datatype::StorageDiffs => "storage_diffs",
            Datatype::Transactions => "transactions",
            Datatype::VmTraces => "vm_traces",
        }
    }
}

/// The columns that one dataset is asked to emit, in order.
#[derive(Clone, Debug, PartialEq, Eq)]
pub struct Table {
    datatype: Datatype,
    columns: Vec<String>,
}

/// Whether `name` is one of `names`.
pub open spec fn names_hold(names: Seq<String>, name: Seq<char>) -> bool {
    exists|i: int| 0 <= i < names.len() && (#[trigger] names[i])@ == name
}

impl Table {
    /// The dataset that the table belongs to.
    pub closed spec fn kind(self) -> Datatype {
        self.datatype
    }

    /// The wanted column names, in order.
    pub closed spec fn names(self) -> Seq<String> {
        self.columns@
    }

    /// Whether the table asks for the column `name`.
    pub open spec fn wants(self, name: Seq<char>) -> bool {
        names_hold(self.names(), name)
    }

    /// A table for `datatype` that asks for `columns`.
    pub fn new(datatype: Datatype, columns: Vec<String>) -> (table: Table)
        ensures
            table.kind() == datatype,
            table.names() == columns@,
    {
        Table { datatype, columns }
    }

    /// The dataset that the table belongs to.
    pub fn datatype(&self) -> (datatype: Datatype)
        ensures
            datatype == self.kind(),
    {
        self.datatype
    }

    /// The wanted column names, in order.
    pub fn columns(&self) -> (columns: &Vec<String>)
        ensures
            columns@ == self.names(),
    {
        &self.columns
    }

    /// Whether the table asks for the column `name`.
    pub fn has_column(&self, name: &str) -> (wanted: bool)
        ensures
            wanted == self.wants(name@),
    {
        let sought = String::from_str(name);
        let mut i: usize = 0;
        while i < self.columns.len()
            invariant
                i <= self.columns.len(),
                sought@ == name@,
                forall|j: int| 0 <= j < i ==> (#[trigger] self.columns@[j])@ != name@,
            decreases self.columns.len() - i,
        {
            if self.columns[i] == sought {
                assert(self.names()[i as int]@ == name@);
                return true;
            }
            i += 1;
        }
        false
    }
}

/// The first table of `tables` that belongs to `datatype`.
pub open spec fn first_table(tables: Seq<Table>, datatype: Datatype) -> Option<Table>
    decreases tables.len(),
{
    if tables.len() == 0 {
        None
    } else if tables[0].kind() == datatype {
        Some(tables[0])
    } else {
        first_table(tables.skip(1), datatype)
    }
}

/// The registry of schemas: at most one table counts per dataset.
#[derive(Clone, Debug, PartialEq, Eq)]
pub struct Schemas {
    tables: Vec<Table>,
}

impl Schemas {
    /// The table registered for `datatype`, if any.
    pub closed spec fn lookup(self, datatype: Datatype) -> Option<Table> {
        first_table(self.tables@, datatype)
    }

    /// A registry without any table.
    pub fn new() -> (schemas: Schemas)
        ensures
            forall|datatype: Datatype| schemas.lookup(datatype) is None,
    {
        Schemas { tables: Vec::new() }
    }

    /// Registers `table` for its dataset, in place of an earlier one.
    pub fn insert(&mut self, table: Table)
        ensures
            forall|datatype: Datatype|
                #[trigger] final(self).lookup(datatype) == if datatype == table.kind() {
                    Some(table)
                } else {
                    old(self).lookup(datatype)
                },
    {
        self.tables.insert(0, table);
        proof {
            assert(self.tables@.skip(1) =~= old(self).tables@);
        }
    }

    /// The table registered for `datatype`, if any.
    pub fn get(&self, datatype: Datatype) -> (found: Option<&Table>)
        ensures
            match found {
                Some(table) => self.lookup(datatype) == Some(*table),
                None => self.lookup(datatype) is None,
            },
    {
        let mut i: usize = 0;
        assert(self.tables@.skip(0) =~= self.tables@);
        while i < self.tables.len()
            invariant
                i <= self.tables.len(),
                first_table(self.tables@, datatype) == first_table(
                    self.tables@.skip(i as int),
                    datatype,
                ),
            decreases self.tables.len() - i,
        {
            if self.tables[i].datatype == datatype {
                return Some(&self.tables[i]);
            }
            proof {
                assert(self.tables@.skip(i as int).skip(1) =~= self.tables@.skip(i + 1));
            }
            i += 1;
        }
        None
    }
}

} // verus!
