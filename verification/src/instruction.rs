//! Instructions and the account lists they carry.

use vstd::prelude::*;
use crate::address::Address;

verus! {

/// What an account entry says, over the bytes of its address.
pub struct AccountMetaView {
    pub pubkey: Seq<u8>,
    pub is_signer: bool,
    pub is_writable: bool,
}

/// One entry of an instruction's account list.
#[derive(Clone, Copy, Debug, PartialEq, Eq)]
pub struct AccountMeta {
    pub pubkey: Address,
    pub is_signer: bool,
    pub is_writable: bool,
}

impl View for AccountMeta {
    type V = AccountMetaView;

    open spec fn view(&self) -> AccountMetaView {
        AccountMetaView {
            pubkey: self.pubkey@,
            is_signer: self.is_signer,
            is_writable: self.is_writable,
        }
    }
}

/// The entry for an account that the program may change.
pub open spec fn writable(pubkey: Seq<u8>, is_signer: bool) -> AccountMetaView {
    AccountMetaView { pubkey, is_signer, is_writable: true }
}

/// The entry for an account that the program only reads.
pub open spec fn readonly(pubkey: Seq<u8>, is_signer: bool) -> AccountMetaView {
    AccountMetaView { pubkey, is_signer, is_writable: false }
}

impl AccountMeta {
    /// An entry for a writable account.
    pub fn new(pubkey: Address, is_signer: bool) -> (meta: Self)
        ensures
            meta@ == writable(pubkey@, is_signer),
    {
        AccountMeta { pubkey, is_signer, is_writable: true }
    }

    /// An entry for a read-only account.
    pub fn new_readonly(pubkey: Address, is_signer: bool) -> (meta: Self)
        ensures
            meta@ == readonly(pubkey@, is_signer),
    {
        AccountMeta { pubkey, is_signer, is_writable: false }
    }
}

/// What an instruction says: the program, the accounts in order, the data.
pub struct InstructionView {
    pub program_id: Seq<u8>,
    pub accounts: Seq<AccountMetaView>,
    pub data: Seq<u8>,
}

/// One instruction of a transaction.
#[derive(Clone, Debug, PartialEq, Eq)]
pub struct Instruction {
    pub program_id: Address,
    pub accounts: Vec<AccountMeta>,
    pub data: Vec<u8>,
}

impl View for Instruction {
    type V = InstructionView;

    open spec fn view(&self) -> InstructionView {
        InstructionView {
            program_id: self.program_id@,
            accounts: Seq::new(self.accounts@.len(), |i: int| self.accounts@[i]@),
            data: self.data@,
        }
    }
}

impl Instruction {
    /// An instruction for `program_id` with the given data and accounts.
    pub fn new_with_bytes(program_id: Address, data: Vec<u8>, accounts: Vec<AccountMeta>) -> (ix: Self)
        ensures
            ix.program_id@ == program_id@,
            ix.accounts@ == accounts@,
            ix.data@ == data@,
    {
        Instruction { program_id, accounts, data }
    }
}

/// Whether some entry of the instruction asks for the signature of `key`.
pub open spec fn asks_signature(ix: InstructionView, key: Seq<u8>) -> bool {
    exists|j: int| 0 <= j < ix.accounts.len() && ix.accounts[j].is_signer && ix.accounts[j].pubkey == key
}

} // verus!
