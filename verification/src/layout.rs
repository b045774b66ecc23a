//! The instructions that the fixture sends, as the programs expect them.

use vstd::prelude::*;
use vstd::bytes::{spec_u64_from_le_bytes, spec_u64_to_le_bytes, lemma_auto_spec_u64_to_from_le_bytes};
use crate::address::{
    ata_program_bytes, legacy_token_program_bytes, rent_sysvar_bytes, system_program_bytes,
    token_program_bytes,
};
use crate::instruction::{readonly, writable, AccountMetaView, InstructionView};

verus! {

/// The size in bytes of a mint account.
pub const MINT_ACCOUNT_LEN: u64 = 82;

/// The data byte that selects the "create" operation of the
/// associated-token-account program.
pub const ATA_CREATE: u8 = 0;

/// Whether `program` is one of the two token programs.
pub open spec fn is_token_program(program: Seq<u8>) -> bool {
    program == token_program_bytes() || program == legacy_token_program_bytes()
}

/// The data of the system program's "create account": the operation's
/// number in four bytes, then the balance, the size and the new owner.
pub open spec fn create_account_data(lamports: u64, space: u64, owner: Seq<u8>) -> Seq<u8> {
    seq![0u8, 0u8, 0u8, 0u8] + spec_u64_to_le_bytes(lamports) + spec_u64_to_le_bytes(space) + owner
}

/// The system program's "create account": `from` pays for the new account
/// `to`, and both sign.
pub open spec fn create_account_instruction(
    from: Seq<u8>,
    to: Seq<u8>,
    lamports: u64,
    space: u64,
    owner: Seq<u8>,
) -> InstructionView {
    InstructionView {
        program_id: system_program_bytes(),
        accounts: seq![writable(from, true), writable(to, true)],
        data: create_account_data(lamports, space, owner),
    }
}

/// How an optional address is written: a flag byte, then the address if
/// there is one.
pub open spec fn optional_address_data(address: Option<Seq<u8>>) -> Seq<u8> {
    match address {
        Some(a) => seq![1u8] + a,
        None => seq![0u8],
    }
}

/// The data of the token program's "initialize mint".
pub open spec fn initialize_mint_data(
    decimals: u8,
    mint_authority: Seq<u8>,
    freeze_authority: Option<Seq<u8>>,
) -> Seq<u8> {
    seq![0u8, decimals] + mint_authority + optional_address_data(freeze_authority)
}

/// The token program's "initialize mint" on the account `mint`.
pub open spec fn initialize_mint_instruction(
    program: Seq<u8>,
    mint: Seq<u8>,
    mint_authority: Seq<u8>,
    freeze_authority: Option<Seq<u8>>,
    decimals: u8,
) -> InstructionView {
    InstructionView {
        program_id: program,
        accounts: seq![writable(mint, false), readonly(rent_sysvar_bytes(), false)],
        data: initialize_mint_data(decimals, mint_authority, freeze_authority),
    }
}

/// The data of the token program's "mint to".
pub open spec fn mint_to_data(amount: u64) -> Seq<u8> {
    seq![7u8] + spec_u64_to_le_bytes(amount)
}

/// The token program's "mint to": the mint, the receiving account, the mint
/// authority, then each co-signer. The authority signs itself only where
/// there is no co-signer.
pub open spec fn mint_to_instruction(
    program: Seq<u8>,
    mint: Seq<u8>,
    account: Seq<u8>,
    authority: Seq<u8>,
    signers: Seq<Seq<u8>>,
    amount: u64,
) -> InstructionView {
    InstructionView {
        program_id: program,
        accounts: seq![
            writable(mint, false),
            writable(account, false),
            readonly(authority, signers.len() == 0),
        ] + Seq::new(signers.len(), |i: int| readonly(signers[i], true)),
        data: mint_to_data(amount),
    }
}

/// The "create" instruction of the associated-token-account program: the
/// payer, the new account, its owner, the mint, the system program and the
/// token program, in this order.
pub open spec fn create_ata_instruction(payer: Seq<u8>, ata: Seq<u8>, mint: Seq<u8>) -> InstructionView {
    InstructionView {
        program_id: ata_program_bytes(),
        accounts: seq![
            writable(payer, true),
            writable(ata, false),
            readonly(payer, false),
            readonly(mint, false),
            readonly(system_program_bytes(), false),
            readonly(token_program_bytes(), false),
        ],
        data: seq![ATA_CREATE],
    }
}

/// The decimals that "initialize mint" data asks for.
pub open spec fn initialize_mint_decimals(data: Seq<u8>) -> u8 {
    data[1]
}

/// The mint authority that "initialize mint" data asks for.
pub open spec fn initialize_mint_authority(data: Seq<u8>) -> Seq<u8> {
    data.subrange(2, 34)
}

/// The freeze authority that "initialize mint" data asks for, if any.
pub open spec fn initialize_mint_freeze_authority(data: Seq<u8>) -> Option<Seq<u8>> {
    if data[34] == 1u8 {
        Some(data.subrange(35, 67))
    } else {
        None
    }
}

/// The amount that "mint to" data asks for.
pub open spec fn mint_to_amount(data: Seq<u8>) -> u64 {
    spec_u64_from_le_bytes(data.subrange(1, 9))
}

/// The data of "initialize mint" gives back the decimals and the two
/// authorities it was made from.
pub proof fn lemma_initialize_mint_data_reads_back(
    decimals: u8,
    mint_authority: Seq<u8>,
    freeze_authority: Option<Seq<u8>>,
)
    requires
        mint_authority.len() == 32,
        freeze_authority matches Some(f) ==> f.len() == 32,
    ensures
        ({
            let data = initialize_mint_data(decimals, mint_authority, freeze_authority);
            &&& initialize_mint_decimals(data) == decimals
            &&& initialize_mint_authority(data) == mint_authority
            &&& initialize_mint_freeze_authority(data) == freeze_authority
        }),
{
    let data = initialize_mint_data(decimals, mint_authority, freeze_authority);
    assert(data.subrange(2, 34) =~= mint_authority);
    match freeze_authority {
        Some(f) => {
            assert(data[34] == 1u8);
            assert(data.subrange(35, 67) =~= f);
        },
        None => {
            assert(data[34] == 0u8);
        },
    }
}

/// The data of "mint to" gives back the amount it was made from.
pub proof fn lemma_mint_to_data_reads_back(amount: u64)
    ensures
        mint_to_data(amount).len() == 9,
        mint_to_data(amount)[0] == 7u8,
        mint_to_amount(mint_to_data(amount)) == amount,
{
    lemma_auto_spec_u64_to_from_le_bytes();
    assert(mint_to_data(amount).subrange(1, 9) =~= spec_u64_to_le_bytes(amount));
}

/// The data of "create account" has 52 bytes and gives back the balance,
/// the size and the owner it was made from.
pub proof fn lemma_create_account_data_reads_back(lamports: u64, space: u64, owner: Seq<u8>)
    requires
        owner.len() == 32,
    ensures
        ({
            let data = create_account_data(lamports, space, owner);
            &&& data.len() == 52
            &&& spec_u64_from_le_bytes(data.subrange(4, 12)) == lamports
            &&& spec_u64_from_le_bytes(data.subrange(12, 20)) == space
            &&& data.subrange(20, 52) == owner
        }),
{
    lemma_auto_spec_u64_to_from_le_bytes();
    let data = create_account_data(lamports, space, owner);
    assert(data.subrange(4, 12) =~= spec_u64_to_le_bytes(lamports));
    assert(data.subrange(12, 20) =~= spec_u64_to_le_bytes(space));
    assert(data.subrange(20, 52) =~= owner);
}

} // verus!
