//! What holds of every plan that the fixture makes.

use vstd::prelude::*;
use vstd::bytes::spec_u64_from_le_bytes;
use crate::address::{token_program_bytes, Address, Blockhash};
use crate::error::MintFixtureError;
use crate::fixture::{
    ata_address, ata_plan, mint_plan, mint_to_plan, submission_result, MintFixture,
    MintFixtureClient,
};
use crate::instruction::{asks_signature, readonly, writable};
use crate::layout::{
    initialize_mint_authority, initialize_mint_decimals, initialize_mint_freeze_authority,
    lemma_create_account_data_reads_back, lemma_initialize_mint_data_reads_back,
    lemma_mint_to_data_reads_back, mint_to_amount, MINT_ACCOUNT_LEN,
};
use crate::plan::fully_signed;

verus! {

/// The plan for a new mint asks the token program to initialize the account
/// `mint` with exactly the decimals and the freeze authority given and with
/// the payer as mint authority, after an account of the size of a mint,
/// funded with `rent` and owned by the token program, was asked for.
pub proof fn lemma_mint_plan_carries_inputs(
    payer: Seq<u8>,
    rent: u64,
    mint: Seq<u8>,
    decimals: u8,
    freeze_authority: Option<Seq<u8>>,
    blockhash: Seq<u8>,
)
    requires
        payer.len() == 32,
        freeze_authority matches Some(f) ==> f.len() == 32,
    ensures
        ({
            let plan = mint_plan(payer, rent, mint, decimals, freeze_authority, blockhash);
            let create = plan.instructions[0];
            let initialize = plan.instructions[1];
            &&& plan.instructions.len() == 2
            &&& create.accounts[1].pubkey == mint
            &&& spec_u64_from_le_bytes(create.data.subrange(4, 12)) == rent
            &&& spec_u64_from_le_bytes(create.data.subrange(12, 20)) == MINT_ACCOUNT_LEN
            &&& create.data.subrange(20, 52) == token_program_bytes()
            &&& initialize.program_id == token_program_bytes()
            &&& initialize.accounts[0] == writable(mint, false)
            &&& initialize_mint_decimals(initialize.data) == decimals
            &&& initialize_mint_authority(initialize.data) == payer
            &&& initialize_mint_freeze_authority(initialize.data) == freeze_authority
        }),
{
    lemma_initialize_mint_data_reads_back(decimals, payer, freeze_authority);
    lemma_create_account_data_reads_back(rent, MINT_ACCOUNT_LEN, token_program_bytes());
}

/// The address of an associated token account depends on the fee payer and
/// the mint alone: two fixtures with the same fee payer, whatever their
/// backends, derive the same address for the same mint, and plan the same
/// transaction for it at the same checkpoint.
pub proof fn lemma_ata_address_is_determined(
    first: MintFixture,
    second: MintFixture,
    first_mint: Address,
    second_mint: Address,
    blockhash: Blockhash,
)
    requires
        first.payer() == second.payer(),
        first_mint@ == second_mint@,
    ensures
        ata_address(first.payer(), first_mint@) == ata_address(second.payer(), second_mint@),
        forall|ata: Seq<u8>|
            ata_plan(first.payer(), ata, first_mint@, blockhash@) == ata_plan(
                second.payer(),
                ata,
                second_mint@,
                blockhash@,
            ),
{
}

/// The plan for minting asks the token program for exactly `amount` raw
/// units, out of `mint` and into `ata`, on the signature of the payer, and
/// for nothing else.
pub proof fn lemma_mint_to_plan_carries_amount(
    payer: Seq<u8>,
    mint: Seq<u8>,
    ata: Seq<u8>,
    amount: u64,
    blockhash: Seq<u8>,
)
    ensures
        ({
            let plan = mint_to_plan(payer, mint, ata, amount, blockhash);
            let ix = plan.instructions[0];
            &&& plan.instructions.len() == 1
            &&& ix.program_id == token_program_bytes()
            &&& ix.accounts == seq![writable(mint, false), writable(ata, false), readonly(payer, true)]
            &&& ix.data.len() == 9
            &&& mint_to_amount(ix.data) == amount
        }),
{
    lemma_mint_to_data_reads_back(amount);
    let ix = mint_to_plan(payer, mint, ata, amount, blockhash).instructions[0];
    assert(ix.accounts =~= seq![writable(mint, false), writable(ata, false), readonly(payer, true)]);
}

/// A mint without a freeze authority is planned as a mint whose freeze
/// authority is absent, and a different choice of freeze authority gives a
/// different plan.
pub proof fn lemma_without_freeze_is_absent_freeze(
    payer: Seq<u8>,
    rent: u64,
    mint: Seq<u8>,
    decimals: u8,
    freeze_authority: Option<Seq<u8>>,
    blockhash: Seq<u8>,
)
    requires
        payer.len() == 32,
        freeze_authority matches Some(f) ==> f.len() == 32,
    ensures
        mint_plan(payer, rent, mint, decimals, freeze_authority, blockhash) == mint_plan(
            payer,
            rent,
            mint,
            decimals,
            None,
            blockhash,
        ) <==> freeze_authority is None,
{
    lemma_initialize_mint_data_reads_back(decimals, payer, freeze_authority);
    lemma_initialize_mint_data_reads_back(decimals, payer, None);
}

/// A failure that the backend reports always reaches the caller, under the
/// name of that backend and with the backend's own words; a success stays a
/// success.
pub proof fn lemma_failures_are_surfaced(client: MintFixtureClient, outcome: Result<(), String>)
    ensures
        submission_result(client, outcome) is Ok <==> outcome is Ok,
        outcome matches Err(report) ==> (match client {
            MintFixtureClient::Rpc => submission_result(client, outcome) == Err::<(), _>(
                MintFixtureError::Client(report),
            ),
            MintFixtureClient::Banks => submission_result(client, outcome) == Err::<(), _>(
                MintFixtureError::Banks(report),
            ),
        }),
{
}

/// The plan for a new mint is signed by the payer and the new account, who
/// are all that its instructions ask to sign.
pub proof fn lemma_mint_plan_fully_signed(
    payer: Seq<u8>,
    rent: u64,
    mint: Seq<u8>,
    decimals: u8,
    freeze_authority: Option<Seq<u8>>,
    blockhash: Seq<u8>,
)
    ensures
        fully_signed(mint_plan(payer, rent, mint, decimals, freeze_authority, blockhash)),
{
    let plan = mint_plan(payer, rent, mint, decimals, freeze_authority, blockhash);
    assert forall|key: Seq<u8>|
        #[trigger] plan.signers.contains(key) <==> (key == plan.fee_payer || exists|i: int|
            0 <= i < plan.instructions.len() && asks_signature(#[trigger] plan.instructions[i], key)) by {
        if key == payer {
            assert(plan.signers[0] == key);
        }
        if key == mint {
            assert(plan.signers[1] == key);
            assert(plan.instructions[0].accounts[1].is_signer);
            assert(asks_signature(plan.instructions[0], key));
        }
    }
}

/// The plan for an associated token account is signed by the payer alone,
/// who is all that its instruction asks to sign.
pub proof fn lemma_ata_plan_fully_signed(payer: Seq<u8>, ata: Seq<u8>, mint: Seq<u8>, blockhash: Seq<u8>)
    ensures
        fully_signed(ata_plan(payer, ata, mint, blockhash)),
{
    let plan = ata_plan(payer, ata, mint, blockhash);
    assert forall|key: Seq<u8>|
        #[trigger] plan.signers.contains(key) <==> (key == plan.fee_payer || exists|i: int|
            0 <= i < plan.instructions.len() && asks_signature(#[trigger] plan.instructions[i], key)) by {
        if key == payer {
            assert(plan.signers[0] == key);
        }
    }
}

/// The plan for minting is signed by the payer alone, who is all that its
/// instruction asks to sign.
pub proof fn lemma_mint_to_plan_fully_signed(
    payer: Seq<u8>,
    mint: Seq<u8>,
    ata: Seq<u8>,
    amount: u64,
    blockhash: Seq<u8>,
)
    ensures
        fully_signed(mint_to_plan(payer, mint, ata, amount, blockhash)),
{
    let plan = mint_to_plan(payer, mint, ata, amount, blockhash);
    assert(plan.instructions[0].accounts =~= seq![
        writable(mint, false),
        writable(ata, false),
        readonly(payer, true),
    ]);
    assert forall|key: Seq<u8>|
        #[trigger] plan.signers.contains(key) <==> (key == plan.fee_payer || exists|i: int|
            0 <= i < plan.instructions.len() && asks_signature(#[trigger] plan.instructions[i], key)) by {
        if key == payer {
            assert(plan.signers[0] == key);
        }
    }
}

} // verus!
