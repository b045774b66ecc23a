//! The calls into the Solana SDK and the token program's client library.
//!
//! Nothing in this file is proved: each contract states what the called
//! function does, as its source shows it.

use vstd::prelude::*;
use solana_sdk::program_error::ProgramError;
use solana_sdk::pubkey::Pubkey;
use solana_sdk::signer::keypair::Keypair;
use solana_sdk::signer::Signer;
use crate::address::Address;
use crate::instruction::{AccountMeta, Instruction};
use crate::layout::{
    create_account_instruction, initialize_mint_instruction, is_token_program,
    mint_to_instruction,
};

verus! {

/// The reason an instruction could not be built, as the SDK reports it.
#[verifier::external_type_specification]
#[verifier::external_body]
pub struct ExProgramError(ProgramError);

/// A key pair: an address and the secret that signs for it.
#[verifier::external_type_specification]
#[verifier::external_body]
pub struct ExKeypair(Keypair);

/// The bytes of each address, in order.
pub open spec fn address_bytes(addresses: Seq<Address>) -> Seq<Seq<u8>> {
    Seq::new(addresses.len(), |i: int| addresses[i]@)
}

/// The bytes of an optional address.
pub open spec fn optional_bytes(address: Option<&Address>) -> Option<Seq<u8>> {
    match address {
        Some(a) => Some(a@),
        None => None,
    }
}

/// What `Pubkey::try_find_program_address` returns for these seeds and this
/// program: the derived address and its bump seed, or nothing where no bump
/// seed gives an address off the curve.
pub uninterp spec fn program_address(seeds: Seq<Seq<u8>>, program: Seq<u8>) -> Option<(Seq<u8>, u8)>;

/// `solana_sdk::system_instruction::create_account`: an instruction of the
/// system program with `from` and `to` as writable signers, whose data is
/// the bincode form of `SystemInstruction::CreateAccount` (variant 0 as a
/// little-endian `u32`, both integers as little-endian `u64`, the owner's 32
/// bytes).
#[allow(deprecated)]
#[verifier::external_body]
pub(crate) fn create_account(from: &Address, to: &Address, lamports: u64, space: u64, owner: &Address) -> (ix: Instruction)
    ensures
        ix@ == create_account_instruction(from@, to@, lamports, space, owner@),
{
    let (from, to, owner) = (&from.bytes.into(), &to.bytes.into(), &owner.bytes.into());
    let ix = solana_sdk::system_instruction::create_account(from, to, lamports, space, owner);
    let accounts = ix.accounts.iter().map(|m| AccountMeta {
        pubkey: m.pubkey.to_bytes().into(),
        is_signer: m.is_signer,
        is_writable: m.is_writable,
    });
    Instruction { program_id: ix.program_id.to_bytes().into(), accounts: accounts.collect(), data: ix.data }
}

/// `spl_token_2022::instruction::initialize_mint`: fails unless `program` is
/// one of the two token programs; else an instruction of `program` on the
/// writable mint and the read-only rent sysvar, whose data is the packed
/// `InitializeMint` (tag 0, the decimals, the mint authority, the optional
/// freeze authority).
#[verifier::external_body]
pub(crate) fn initialize_mint(
    program: &Address,
    mint: &Address,
    mint_authority: &Address,
    freeze_authority: Option<&Address>,
    decimals: u8,
) -> (r: Result<Instruction, ProgramError>)
    ensures
        r is Ok <==> is_token_program(program@),
        r matches Ok(ix) ==> ix@ == initialize_mint_instruction(
            program@,
            mint@,
            mint_authority@,
            optional_bytes(freeze_authority),
            decimals,
        ),
{
    let (program, mint, authority) = (&program.bytes.into(), &mint.bytes.into(), &mint_authority.bytes.into());
    let freeze: Option<Pubkey> = freeze_authority.map(|f| f.bytes.into());
    let ix = spl_token_2022::instruction::initialize_mint(program, mint, authority, freeze.as_ref(), decimals)?;
    let accounts = ix.accounts.iter().map(|m| AccountMeta {
        pubkey: m.pubkey.to_bytes().into(),
        is_signer: m.is_signer,
        is_writable: m.is_writable,
    });
    Ok(Instruction { program_id: ix.program_id.to_bytes().into(), accounts: accounts.collect(), data: ix.data })
}

/// `spl_token_2022::instruction::mint_to`: fails unless `program` is one of
/// the two token programs; else an instruction of `program` on the writable
/// mint and account, the read-only authority (a signer where `signers` is
/// empty) and each of `signers` as a read-only signer, whose data is the
/// packed `MintTo` (tag 7, the amount as a little-endian `u64`).
#[verifier::external_body]
pub(crate) fn mint_to(
    program: &Address,
    mint: &Address,
    account: &Address,
    authority: &Address,
    signers: &Vec<Address>,
    amount: u64,
) -> (r: Result<Instruction, ProgramError>)
    ensures
        r is Ok <==> is_token_program(program@),
        r matches Ok(ix) ==> ix@ == mint_to_instruction(
            program@,
            mint@,
            account@,
            authority@,
            address_bytes(signers@),
            amount,
        ),
{
    let keys: Vec<Pubkey> = signers.iter().map(|s| s.bytes.into()).collect();
    let signers: Vec<_> = keys.iter().collect();
    let (program, mint, account) = (&program.bytes.into(), &mint.bytes.into(), &account.bytes.into());
    let ix = spl_token_2022::instruction::mint_to(program, mint, account, &authority.bytes.into(), &signers, amount)?;
    let accounts = ix.accounts.iter().map(|m| AccountMeta {
        pubkey: m.pubkey.to_bytes().into(),
        is_signer: m.is_signer,
        is_writable: m.is_writable,
    });
    Ok(Instruction { program_id: ix.program_id.to_bytes().into(), accounts: accounts.collect(), data: ix.data })
}

/// `Pubkey::try_find_program_address`: the address that `program` derives
/// from `seeds`, with the bump seed that gave it.
#[verifier::external_body]
pub(crate) fn try_find_program_address(seeds: &Vec<Address>, program: &Address) -> (r: Option<(Address, u8)>)
    ensures
        match r {
            Some((address, bump)) => program_address(address_bytes(seeds@), program@) == Some((address@, bump)),
            None => program_address(address_bytes(seeds@), program@) is None,
        },
{
    let parts: Vec<&[u8]> = seeds.iter().map(|s| s.bytes.as_slice()).collect();
    let found = Pubkey::try_find_program_address(&parts, &program.bytes.into());
    found.map(|(key, bump)| (key.to_bytes().into(), bump))
}

/// `Keypair::new`, with `Signer::pubkey` on what it made: a key pair from the
/// system's source of randomness, and its address. Nothing is known of
/// either before the call.
#[verifier::external_body]
pub(crate) fn new_keypair() -> (r: (Keypair, Address)) {
    let keypair = Keypair::new();
    let address = keypair.pubkey().to_bytes().into();
    (keypair, address)
}

/// `ProgramError`'s `Display`: the error in words.
#[verifier::external_body]
pub(crate) fn program_error_text(error: &ProgramError) -> (text: String) {
    error.to_string()
}

} // verus!
