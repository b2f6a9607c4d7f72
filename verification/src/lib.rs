//! Extraction of column-oriented datasets from an Ethereum-compatible node:
//! the rules that turn raw node responses into rows, and the admission and
//! fallback decisions around the calls that fetch them.

pub mod code_diffs;
pub mod columns;
pub mod datasets;
pub mod erc721_metadata;
pub mod error;
pub mod etherscan_client;
pub mod event;
pub mod event_selector;
pub mod gate;
pub mod json;
pub mod opcode;
pub mod params;
pub mod schema;
pub mod sources;
pub mod traces;
pub mod vm_traces;

pub use code_diffs::{AccountDiff, ChangedType, CodeDiffs, Diff, StateDiff};
pub use datasets::{
    transform_by_block, transform_by_transaction, CollectByBlock, CollectByTransaction, Dataset,
};
pub use erc721_metadata::{BlockAddressNameSymbol, Erc721Metadata, Erc721MetadataColumns};
pub use error::CollectError;
pub use etherscan_client::{AbiError, EtherscanClient};
pub use event::{Event, EventParam};
pub use event_selector::EventSelector;
pub use gate::{Admission, RequestGate};
pub use json::{Json, JsonField};
pub use opcode::{ExecutedInstruction, KnownOpcode};
pub use params::Params;
pub use schema::{Datatype, Schemas, Table};
pub use traces::{BlockTrace, TraceResponse, TraceType};
pub use vm_traces::{
    MemoryDiff, StorageDiff, VmExecutedOperation, VmOperation, VmTrace, VmTraceColumns, VmTraces,
    VmWrite,
};
