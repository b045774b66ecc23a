use mint_fixture::address::{ata_program_id, system_program_id, token_program_id};
use mint_fixture::layout::MINT_ACCOUNT_LEN;
use mint_fixture::{Address, Blockhash, Instruction, MintFixture, MintFixtureClient, TransactionPlan};
use solana_sdk::instruction::AccountMeta as SdkAccountMeta;
use solana_sdk::instruction::Instruction as SdkInstruction;
use solana_sdk::message::Message;
use solana_sdk::program_pack::Pack;
use solana_sdk::pubkey::Pubkey;
use solana_sdk::signer::keypair::Keypair;
use solana_sdk::signer::Signer;
use solana_sdk::transaction::Transaction;
use spl_token_2022::state::Mint;

fn key(a: &Address) -> Pubkey {
    Pubkey::new_from_array(a.bytes)
}

fn sdk_instruction(ix: &Instruction) -> SdkInstruction {
    SdkInstruction {
        program_id: key(&ix.program_id),
        accounts: ix
            .accounts
            .iter()
            .map(|m| SdkAccountMeta {
                pubkey: key(&m.pubkey),
                is_signer: m.is_signer,
                is_writable: m.is_writable,
            })
            .collect(),
        data: ix.data.clone(),
    }
}

fn sdk_instructions(plan: &TransactionPlan) -> Vec<SdkInstruction> {
    plan.instructions.iter().map(sdk_instruction).collect()
}

fn signed(plan: &TransactionPlan, keys: &[&Keypair]) -> Transaction {
    let message = Message::new(&sdk_instructions(plan), Some(&key(&plan.fee_payer)));
    let mut tx = Transaction::new_unsigned(message);
    tx.try_sign(keys, solana_sdk::hash::Hash::new_from_array(plan.recent_blockhash.bytes)).unwrap();
    tx
}

#[test]
fn fixed_addresses_are_those_of_the_programs() {
    assert_eq!(key(&token_program_id()), spl_token_2022::ID);
    assert_eq!(key(&system_program_id()), solana_sdk::system_program::ID);
    assert_eq!(
        key(&ata_program_id()),
        Pubkey::from_str_const("ATokenGPvbdGVxr1b2hvZbsiqW5xWH25efTNsLJA8knL")
    );
    assert_eq!(key(&token_program_id()).to_string(), "TokenzQdBNbLqP5VEhdkAS6EPFLC1PHnBqCXEpPxuEb");
}

#[test]
fn mint_account_len_is_that_of_the_token_program() {
    assert_eq!(MINT_ACCOUNT_LEN, Mint::LEN as u64);
}

#[test]
#[allow(deprecated)]
fn plan_mint_holds_the_instructions_of_the_builders() {
    let payer = Keypair::new();
    let mint = Keypair::new();
    let freeze = Keypair::new().pubkey();
    let f = MintFixture::new(MintFixtureClient::Rpc, Address { bytes: payer.pubkey().to_bytes() }, 1_461_600);
    let plan = f
        .plan_mint(
            &Address { bytes: mint.pubkey().to_bytes() },
            9,
            Some(&Address { bytes: freeze.to_bytes() }),
            &Blockhash { bytes: [3; 32] },
        )
        .unwrap();
    let create = solana_sdk::system_instruction::create_account(
        &payer.pubkey(),
        &mint.pubkey(),
        1_461_600,
        Mint::LEN as u64,
        &spl_token_2022::ID,
    );
    let initialize = spl_token_2022::instruction::initialize_mint(
        &spl_token_2022::ID,
        &mint.pubkey(),
        &payer.pubkey(),
        Some(&freeze),
        9,
    )
    .unwrap();
    assert_eq!(sdk_instructions(&plan), vec![create, initialize]);
}

#[test]
fn mint_to_ata_holds_the_instruction_of_the_builder() {
    let payer = Keypair::new().pubkey();
    let mint = Keypair::new().pubkey();
    let ata = Keypair::new().pubkey();
    let f = MintFixture::new(MintFixtureClient::Rpc, Address { bytes: payer.to_bytes() }, 0);
    let plan = f
        .mint_to_ata(
            &Address { bytes: mint.to_bytes() },
            &Address { bytes: ata.to_bytes() },
            77,
            &Blockhash { bytes: [3; 32] },
        )
        .unwrap();
    let mint_to =
        spl_token_2022::instruction::mint_to(&spl_token_2022::ID, &mint, &ata, &payer, &[], 77).unwrap();
    assert_eq!(sdk_instructions(&plan), vec![mint_to]);
}

#[test]
fn derive_ata_is_the_program_derived_address() {
    let payer = Keypair::new().pubkey();
    let mint = Keypair::new().pubkey();
    let f = MintFixture::new(MintFixtureClient::Banks, Address { bytes: payer.to_bytes() }, 0);
    let ata = f.derive_ata(&Address { bytes: mint.to_bytes() }).unwrap();
    let expected = Pubkey::find_program_address(
        &[payer.as_ref(), spl_token_2022::ID.as_ref(), mint.as_ref()],
        &key(&ata_program_id()),
    )
    .0;
    assert_eq!(key(&ata), expected);
    assert!(!key(&ata).is_on_curve());
}

#[test]
fn derive_ata_of_fixed_addresses() {
    let f = MintFixture::new(MintFixtureClient::Rpc, Address { bytes: [1; 32] }, 0);
    let ata = f.derive_ata(&Address { bytes: [2; 32] }).unwrap();
    let expected = Pubkey::find_program_address(
        &[&[1u8; 32], spl_token_2022::ID.as_ref(), &[2u8; 32]],
        &key(&ata_program_id()),
    )
    .0;
    assert_eq!(key(&ata), expected);
}

#[test]
fn new_mint_key_pair_owns_the_planned_address() {
    let payer = Keypair::new();
    let f = MintFixture::new(MintFixtureClient::Rpc, Address { bytes: payer.pubkey().to_bytes() }, 1_461_600);
    let (mint_keypair, plan) = f
        .create_and_initialize_mint(9, None, &Blockhash { bytes: [3; 32] })
        .unwrap();
    assert_eq!(mint_keypair.pubkey().to_bytes(), plan.signers[1].bytes);
    assert_eq!(plan.instructions[0].accounts[1].pubkey.bytes, mint_keypair.pubkey().to_bytes());
}

#[test]
fn planned_signers_are_those_the_message_requires() {
    let payer = Keypair::new();
    let f = MintFixture::new(MintFixtureClient::Rpc, Address { bytes: payer.pubkey().to_bytes() }, 1_461_600);
    let blockhash = Blockhash { bytes: [3; 32] };

    let (mint_keypair, plan) = f.create_and_initialize_mint(9, None, &blockhash).unwrap();
    let message = Message::new(&sdk_instructions(&plan), Some(&key(&plan.fee_payer)));
    let required: Vec<Pubkey> = message.signer_keys().into_iter().copied().collect();
    let planned: Vec<Pubkey> = plan.signers.iter().map(key).collect();
    assert_eq!(required, planned);
    assert!(signed(&plan, &[&payer, &mint_keypair]).is_signed());

    let mint = plan.signers[1];
    let (ata, plan) = f.create_and_initialize_ata(&mint, &blockhash).unwrap();
    let message = Message::new(&sdk_instructions(&plan), Some(&key(&plan.fee_payer)));
    let required: Vec<Pubkey> = message.signer_keys().into_iter().copied().collect();
    assert_eq!(required, vec![payer.pubkey()]);
    assert!(signed(&plan, &[&payer]).is_signed());

    let plan = f.mint_to_ata(&mint, &ata, 5, &blockhash).unwrap();
    let message = Message::new(&sdk_instructions(&plan), Some(&key(&plan.fee_payer)));
    let required: Vec<Pubkey> = message.signer_keys().into_iter().copied().collect();
    assert_eq!(required, vec![payer.pubkey()]);
    assert!(signed(&plan, &[&payer]).is_signed());
}

#[test]
fn test_all_methods() {
    let payer: Keypair = Keypair::new();
    let payer_pkey: Pubkey = payer.pubkey();
    let rent = solana_sdk::rent::Rent::default();
    let mint_fixture = MintFixture::new(
        MintFixtureClient::Rpc,
        Address { bytes: payer_pkey.to_bytes() },
        rent.minimum_balance(Mint::LEN),
    );

    let decimals: u8 = 9;
    let latest_blockhash = Blockhash { bytes: solana_sdk::hash::Hash::new_unique().to_bytes() };

    let (mint_keypair, plan) = mint_fixture
        .create_and_initialize_mint_without_freeze(decimals, &latest_blockhash)
        .unwrap();
    let mint = plan.signers[1];
    let tx = signed(&plan, &[&payer, &mint_keypair]);
    assert!(tx.verify().is_ok());
    assert_eq!(tx.message.recent_blockhash.to_bytes(), latest_blockhash.bytes);
    assert_eq!(mint_fixture.process_transaction(Ok(())), Ok(()));
    println!("Create & Init Mint Account - success. Pubkey: {}", key(&mint));

    let (ata, plan) = mint_fixture.create_and_initialize_ata(&mint, &latest_blockhash).unwrap();
    let tx = signed(&plan, &[&payer]);
    assert!(tx.verify().is_ok());
    println!("Create & Init ATA - success. Pubkey: {}", key(&ata));

    let amount = 1_000_000_000 * 10u64.pow(decimals as u32);
    let plan = mint_fixture.mint_to_ata(&mint, &ata, amount, &latest_blockhash).unwrap();
    let tx = signed(&plan, &[&payer]);
    assert!(tx.verify().is_ok());
    assert_eq!(amount, 1_000_000_000_000_000_000);
    assert_eq!(&plan.instructions[0].data[1..], &amount.to_le_bytes());
    println!("Mint to ATA - success");
}

#[test]
fn both_token_programs_are_accepted_and_no_other() {
    let legacy: [u8; 32] = [
        6, 221, 246, 225, 215, 101, 161, 147, 217, 203, 225, 70, 206, 235, 121, 172, 28, 180, 133,
        237, 95, 91, 55, 145, 58, 140, 245, 133, 126, 255, 0, 169,
    ];
    assert_eq!(
        Pubkey::new_from_array(legacy).to_string(),
        "TokenkegQfeZyiNwAJbNbGKPFXCWuBvf9Ss623VQ5DA"
    );
    assert!(spl_token_2022::check_spl_token_program_account(&Pubkey::new_from_array(legacy)).is_ok());
    assert!(spl_token_2022::check_spl_token_program_account(&key(&token_program_id())).is_ok());
    assert!(spl_token_2022::check_spl_token_program_account(&key(&system_program_id())).is_err());
    assert!(spl_token_2022::check_spl_token_program_account(&key(&ata_program_id())).is_err());
}
