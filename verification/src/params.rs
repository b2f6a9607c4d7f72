//! What identifies one unit of work.

use crate::columns::clone_bytes;
use crate::error::CollectError;
use vstd::prelude::*;
use vstd::string::StringExecFns;

verus! {

/// One unit of work: a block, a transaction or both, with the address of a
/// contract where the work is about one.
#[derive(Clone, Debug, PartialEq, Eq)]
pub struct Params {
    /// The number of the block.
    pub block_number: Option<u64>,
    /// The hash of the transaction.
    pub transaction_hash: Option<Vec<u8>>,
    /// The address of the contract.
    pub address: Option<Vec<u8>>,
}

impl Params {
    /// The unit of work that is the block `number`.
    pub fn block(number: u64) -> (params: Params)
        ensures
            params.block_number == Some(number),
            params.transaction_hash is None,
            params.address is None,
    {
        Params { block_number: Some(number), transaction_hash: None, address: None }
    }

    /// The unit of work that is the transaction with hash `hash`.
    pub fn transaction(hash: Vec<u8>) -> (params: Params)
        ensures
            params.block_number is None,
            params.transaction_hash == Some(hash),
            params.address is None,
    {
        Params { block_number: None, transaction_hash: Some(hash), address: None }
    }

    /// The unit of work that is the contract at `address` as of the block
    /// `number`.
    pub fn contract(number: u64, address: Vec<u8>) -> (params: Params)
        ensures
            params.block_number == Some(number),
            params.transaction_hash is None,
            params.address == Some(address),
    {
        Params { block_number: Some(number), transaction_hash: None, address: Some(address) }
    }

    /// The block number of the unit of work. Fails where none was supplied.
    pub fn block_number(&self) -> (result: Result<u64, CollectError>)
        ensures
            match self.block_number {
                Some(number) => result == Ok::<u64, CollectError>(number),
                None => result matches Err(CollectError::CollectError(message)) && message@
                    == "block number not given"@,
            },
    {
        match self.block_number {
            Some(number) => Ok(number),
            None => Err(CollectError::CollectError(String::from_str("block number not given"))),
        }
    }

    /// The transaction hash of the unit of work. Fails where none was
    /// supplied.
    pub fn transaction_hash(&self) -> (result: Result<Vec<u8>, CollectError>)
        ensures
            match self.transaction_hash {
                Some(hash) => result matches Ok(bytes) && bytes@ == hash@,
                None => result matches Err(CollectError::CollectError(message)) && message@
                    == "transaction hash not given"@,
            },
    {
        match &self.transaction_hash {
            Some(hash) => Ok(clone_bytes(hash)),
            None => Err(
                CollectError::CollectError(String::from_str("transaction hash not given")),
            ),
        }
    }

    /// The contract address of the unit of work. Fails where none was
    /// supplied.
    pub fn address(&self) -> (result: Result<Vec<u8>, CollectError>)
        ensures
            match self.address {
                Some(address) => result matches Ok(bytes) && bytes@ == address@,
                None => result matches Err(CollectError::CollectError(message)) && message@
                    == "address not given"@,
            },
    {
        match &self.address {
            Some(address) => Ok(clone_bytes(address)),
            None => Err(CollectError::CollectError(String::from_str("address not given"))),
        }
    }
}

} // verus!
