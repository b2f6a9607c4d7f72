//! What a replay call returns for one transaction.

use crate::code_diffs::StateDiff;
use crate::vm_traces::VmTrace;
use vstd::prelude::*;

verus! {

/// The kinds of trace that a replay call can be asked for.
#[derive(Clone, Copy, Debug, PartialEq, Eq, Structural)]
pub enum TraceType {
    /// The transaction trace.
    Trace,
    /// The execution trace of the virtual machine.
    VmTrace,
    /// The state difference.
    StateDiff,
}

/// The traces of one transaction, each present where it was asked for.
#[derive(Debug, PartialEq, Eq)]
pub struct BlockTrace {
    /// The execution trace of the virtual machine.
    pub vm_trace: Option<VmTrace>,
    /// The state difference.
    pub state_diff: Option<StateDiff>,
}

/// The traces of one unit of work with what identifies it: the block number
/// where a block was replayed, the transaction hash where a transaction was.
pub type TraceResponse = (Option<u32>, Option<Vec<u8>>, Vec<BlockTrace>);

} // verus!
