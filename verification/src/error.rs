//! The error kinds that extraction and transformation report.

use vstd::prelude::*;

verus! {

/// A failure of one unit of work.
#[derive(Clone, Debug, PartialEq, Eq)]
pub enum CollectError {
    /// The node could not be reached or answered with a protocol error.
    RpcError(String),
    /// The body of a response could not be decoded.
    DecodeError(String),
    /// A transaction, receipt or block that was asked for does not exist.
    NotFound(String),
    /// No schema is registered for the dataset that was asked for.
    SchemaError(String),
    /// Any other failure, such as a batch that is only partly filled.
    CollectError(String),
}

impl CollectError {
    /// The message that the error carries.
    pub open spec fn message(self) -> Seq<char> {
        match self {
            CollectError::RpcError(m) => m@,
            CollectError::DecodeError(m) => m@,
            CollectError::NotFound(m) => m@,
            CollectError::SchemaError(m) => m@,
            CollectError::CollectError(m) => m@,
        }
    }

    /// The message that the error carries, as text.
    pub fn to_message(&self) -> (text: String)
        ensures
            text@ == self.message(),
    {
        match self {
            CollectError::RpcError(m) => m.clone(),
            CollectError::DecodeError(m) => m.clone(),
            CollectError::NotFound(m) => m.clone(),
            CollectError::SchemaError(m) => m.clone(),
            CollectError::CollectError(m) => m.clone(),
        }
    }
}

} // verus!
