use vstd::prelude::*;
use crate::pubkey::{pubkey_eq, Pubkey};

verus! {

/// What a handler may know of a ledger account: its address, the program
/// that controls it, whether it signed the transaction, its balance of
/// lamports and its bytes.
#[derive(Clone, Debug, PartialEq, Eq)]
pub struct AccountInfo {
    pub key: Pubkey,
    pub owner: Pubkey,
    pub is_signer: bool,
    pub lamports: u64,
    pub data: Vec<u8>,
}

impl AccountInfo {
    /// The account's address.
    pub fn key(&self) -> (key: &Pubkey)
        ensures
            *key == self.key,
    {
        &self.key
    }

    /// Whether the account is controlled by `program`.
    pub fn is_owned_by(&self, program: &Pubkey) -> (owned: bool)
        ensures
            owned == (self.owner == *program),
    {
        pubkey_eq(&self.owner, program)
    }

    /// Number of bytes the account holds.
    pub fn data_len(&self) -> (len: usize)
        ensures
            len == self.data@.len(),
    {
        self.data.len()
    }
}

} // verus!
