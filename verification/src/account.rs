//! A record handle as an operation sees it.

use vstd::prelude::*;
use crate::codec::{same_key, Pubkey};

verus! {

/// What the ledger shows of one account for the length of an operation:
/// its address, the program that owns it, whether its holder signed the
/// call, and the bytes stored in it.
#[derive(Debug, PartialEq, Eq)]
pub struct AccountInfo {
    pub key: Pubkey,
    pub owner: Pubkey,
    pub is_signer: bool,
    pub data: Vec<u8>,
}

impl Clone for AccountInfo {
    /// A copy that shows the same address, owner, signature and bytes.
    fn clone(&self) -> (copy: AccountInfo)
        ensures
            copy.key == self.key,
            copy.owner == self.owner,
            copy.is_signer == self.is_signer,
            copy.data@ == self.data@,
    {
        AccountInfo {
            key: self.key,
            owner: self.owner,
            is_signer: self.is_signer,
            data: self.data.clone(),
        }
    }
}

impl AccountInfo {
    /// Whether `program` owns this account.
    pub fn is_owned_by(&self, program: &Pubkey) -> (owned: bool)
        ensures
            owned == (self.owner == *program),
    {
        same_key(&self.owner, program)
    }
}

} // verus!
