use vstd::prelude::*;
use crate::address::Address;

verus! {

/// A ledger account as one transaction sees it.
///
/// The value is borrowed from the transaction for the length of one call:
/// an operation reads it, and only [`close`](crate::close::close) writes
/// to it.
#[derive(Debug, PartialEq, Eq)]
pub struct Account {
    /// Where the account lives.
    pub key: Address,
    /// Its balance, in lamports.
    pub lamports: u64,
    /// Its data buffer.
    pub data: Vec<u8>,
    /// The program that owns it.
    pub owner: Address,
    /// Whether the transaction may write to it.
    pub is_writable: bool,
}

} // verus!
