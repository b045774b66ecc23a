//! The fixture: a fee payer, a backend and the price of a mint account.

use vstd::prelude::*;
use crate::address::{ata_program_bytes, ata_program_id, system_program_id, token_program_bytes, token_program_id, Address, Blockhash};
use crate::error::MintFixtureError;
use crate::instruction::{AccountMeta, Instruction};
use crate::layout::{
    create_account_instruction, create_ata_instruction, initialize_mint_instruction,
    mint_to_instruction, ATA_CREATE, MINT_ACCOUNT_LEN,
};
use crate::laws::{
    lemma_ata_plan_fully_signed, lemma_mint_plan_fully_signed, lemma_mint_to_plan_fully_signed,
};
use crate::plan::{fully_signed, TransactionPlan, TransactionPlanView};
use crate::sdk::{
    address_bytes, create_account, initialize_mint, mint_to, new_keypair, optional_bytes,
    program_address, try_find_program_address,
};
use solana_sdk::signer::keypair::Keypair;

verus! {

/// The backend that submits and confirms the fixture's transactions.
#[derive(Clone, Copy, Debug, PartialEq, Eq, Structural)]
pub enum MintFixtureClient {
    /// A client that talks to a node over the network.
    Rpc,
    /// The client of an in-process test validator.
    Banks,
}

/// The configuration that every operation works from. It is never changed
/// after construction.
#[derive(Clone, Copy, Debug)]
pub struct MintFixture {
    client: MintFixtureClient,
    payer_pkey: Address,
    mint_rent: u64,
}

/// The transaction that creates a mint account and initializes it, as one
/// atomic unit: the account is allocated with the size of a mint, funded
/// with `rent` and owned by the token program; `payer` becomes its mint
/// authority. The payer and the new account sign.
pub open spec fn mint_plan(
    payer: Seq<u8>,
    rent: u64,
    mint: Seq<u8>,
    decimals: u8,
    freeze_authority: Option<Seq<u8>>,
    blockhash: Seq<u8>,
) -> TransactionPlanView {
    TransactionPlanView {
        instructions: seq![
            create_account_instruction(payer, mint, rent, MINT_ACCOUNT_LEN, token_program_bytes()),
            initialize_mint_instruction(token_program_bytes(), mint, payer, freeze_authority, decimals),
        ],
        fee_payer: payer,
        signers: seq![payer, mint],
        recent_blockhash: blockhash,
    }
}

/// Whether `plan` is the plan for a new mint at some address, which is then
/// its second signer.
pub open spec fn plans_new_mint(
    plan: TransactionPlanView,
    payer: Seq<u8>,
    rent: u64,
    decimals: u8,
    freeze_authority: Option<Seq<u8>>,
    blockhash: Seq<u8>,
) -> bool {
    plan.signers.len() == 2 && plan == mint_plan(
        payer,
        rent,
        plan.signers[1],
        decimals,
        freeze_authority,
        blockhash,
    )
}

/// The seeds from which the address of an associated token account is
/// derived: the owner, the token program, the mint.
pub open spec fn ata_seeds(owner: Seq<u8>, mint: Seq<u8>) -> Seq<Seq<u8>> {
    seq![owner, token_program_bytes(), mint]
}

/// The address of the token account associated with `owner` and `mint`, if
/// one can be derived.
pub open spec fn ata_address(owner: Seq<u8>, mint: Seq<u8>) -> Option<Seq<u8>> {
    match program_address(ata_seeds(owner, mint), ata_program_bytes()) {
        Some((address, _)) => Some(address),
        None => None,
    }
}

/// The transaction that creates the token account `ata` for `payer` and
/// `mint`. Only the payer signs.
pub open spec fn ata_plan(payer: Seq<u8>, ata: Seq<u8>, mint: Seq<u8>, blockhash: Seq<u8>) -> TransactionPlanView {
    TransactionPlanView {
        instructions: seq![create_ata_instruction(payer, ata, mint)],
        fee_payer: payer,
        signers: seq![payer],
        recent_blockhash: blockhash,
    }
}

/// The transaction that mints `amount` raw units of `mint` into `ata` on the
/// authority of `payer` alone. Only the payer signs.
pub open spec fn mint_to_plan(
    payer: Seq<u8>,
    mint: Seq<u8>,
    ata: Seq<u8>,
    amount: u64,
    blockhash: Seq<u8>,
) -> TransactionPlanView {
    TransactionPlanView {
        instructions: seq![mint_to_instruction(token_program_bytes(), mint, ata, payer, Seq::empty(), amount)],
        fee_payer: payer,
        signers: seq![payer],
        recent_blockhash: blockhash,
    }
}

/// What the caller gets after a submission that the backend `client`
/// answered with `outcome`.
pub open spec fn submission_result(client: MintFixtureClient, outcome: Result<(), String>) -> Result<(), MintFixtureError> {
    match outcome {
        Ok(()) => Ok(()),
        Err(report) => match client {
            MintFixtureClient::Rpc => Err(MintFixtureError::Client(report)),
            MintFixtureClient::Banks => Err(MintFixtureError::Banks(report)),
        },
    }
}

/// The "create" instruction of the associated-token-account program for the
/// account `ata` of `payer` and `mint`.
pub fn create_ata(payer: &Address, ata: &Address, mint: &Address) -> (ix: Instruction)
    ensures
        ix@ == create_ata_instruction(payer@, ata@, mint@),
{
    let mut accounts: Vec<AccountMeta> = Vec::new();
    accounts.push(AccountMeta::new(*payer, true));
    accounts.push(AccountMeta::new(*ata, false));
    accounts.push(AccountMeta::new_readonly(*payer, false));
    accounts.push(AccountMeta::new_readonly(*mint, false));
    accounts.push(AccountMeta::new_readonly(system_program_id(), false));
    accounts.push(AccountMeta::new_readonly(token_program_id(), false));
    let mut data: Vec<u8> = Vec::new();
    data.push(ATA_CREATE);
    let ix = Instruction::new_with_bytes(ata_program_id(), data, accounts);
    assert(ix@.accounts =~= create_ata_instruction(payer@, ata@, mint@).accounts);
    assert(ix@.data =~= create_ata_instruction(payer@, ata@, mint@).data);
    ix
}

impl MintFixture {
    /// The backend in use.
    pub closed spec fn client(&self) -> MintFixtureClient {
        self.client
    }

    /// The bytes of the fee payer's address.
    pub closed spec fn payer(&self) -> Seq<u8> {
        self.payer_pkey@
    }

    /// The balance that keeps a mint account exempt from rent.
    pub closed spec fn mint_rent(&self) -> u64 {
        self.mint_rent
    }

    /// A fixture for the fee payer `payer_pkey` on the backend `client`,
    /// where `mint_rent` is the rent-exempt minimum of an account of
    /// `MINT_ACCOUNT_LEN` bytes.
    pub fn new(client: MintFixtureClient, payer_pkey: Address, mint_rent: u64) -> (fixture: Self)
        ensures
            fixture.client() == client,
            fixture.payer() == payer_pkey@,
            fixture.mint_rent() == mint_rent,
    {
        MintFixture { client, payer_pkey, mint_rent }
    }

    /// The fee payer's address.
    pub fn payer_pkey(&self) -> (payer: Address)
        ensures
            payer@ == self.payer(),
    {
        self.payer_pkey
    }

    /// Plans the creation of the mint account `mint_pkey`, whose key the
    /// caller holds, with the given decimals and freeze authority and the
    /// fee payer as mint authority.
    pub fn plan_mint(
        &self,
        mint_pkey: &Address,
        mint_decimals: u8,
        freeze_authority: Option<&Address>,
        latest_blockhash: &Blockhash,
    ) -> (r: Result<TransactionPlan, MintFixtureError>)
        ensures
            r is Ok,
            r->Ok_0@ == mint_plan(
                self.payer(),
                self.mint_rent(),
                mint_pkey@,
                mint_decimals,
                optional_bytes(freeze_authority),
                latest_blockhash@,
            ),
            fully_signed(r->Ok_0@),
    {
        let token_program = token_program_id();
        let create_mint_ix = create_account(
            &self.payer_pkey,
            mint_pkey,
            self.mint_rent,
            MINT_ACCOUNT_LEN,
            &token_program,
        );
        let initialize_mint_ix = match initialize_mint(
            &token_program,
            mint_pkey,
            &self.payer_pkey,
            freeze_authority,
            mint_decimals,
        ) {
            Ok(ix) => ix,
            Err(e) => {
                return Err(MintFixtureError::from(e));
            },
        };
        let mut instructions: Vec<Instruction> = Vec::new();
        instructions.push(create_mint_ix);
        instructions.push(initialize_mint_ix);
        let mut signers: Vec<Address> = Vec::new();
        signers.push(self.payer_pkey);
        signers.push(*mint_pkey);
        let plan = TransactionPlan {
            instructions,
            fee_payer: self.payer_pkey,
            signers,
            recent_blockhash: *latest_blockhash,
        };
        proof {
            let want = mint_plan(
                self.payer(),
                self.mint_rent(),
                mint_pkey@,
                mint_decimals,
                optional_bytes(freeze_authority),
                latest_blockhash@,
            );
            assert(plan@.instructions =~= want.instructions);
            assert(plan@.signers =~= want.signers);
            lemma_mint_plan_fully_signed(
                self.payer(),
                self.mint_rent(),
                mint_pkey@,
                mint_decimals,
                optional_bytes(freeze_authority),
                latest_blockhash@,
            );
        }
        Ok(plan)
    }

    /// Makes a key pair for a new mint and plans the creation of the mint
    /// account at its address. Returns the key pair, which must sign the
    /// transaction beside the fee payer, with the plan; the mint's address
    /// is the plan's second signer.
    pub fn create_and_initialize_mint(
        &self,
        mint_decimals: u8,
        freeze_authority: Option<&Address>,
        latest_blockhash: &Blockhash,
    ) -> (r: Result<(Keypair, TransactionPlan), MintFixtureError>)
        ensures
            r is Ok,
            plans_new_mint(
                r->Ok_0.1@,
                self.payer(),
                self.mint_rent(),
                mint_decimals,
                optional_bytes(freeze_authority),
                latest_blockhash@,
            ),
            fully_signed(r->Ok_0.1@),
    {
        let (mint_keypair, mint_pkey) = new_keypair();
        match self.plan_mint(&mint_pkey, mint_decimals, freeze_authority, latest_blockhash) {
            Ok(plan) => Ok((mint_keypair, plan)),
            Err(e) => Err(e),
        }
    }

    /// The same as `create_and_initialize_mint` with the freeze authority
    /// absent.
    pub fn create_and_initialize_mint_without_freeze(
        &self,
        mint_decimals: u8,
        latest_blockhash: &Blockhash,
    ) -> (r: Result<(Keypair, TransactionPlan), MintFixtureError>)
        ensures
            r is Ok,
            plans_new_mint(
                r->Ok_0.1@,
                self.payer(),
                self.mint_rent(),
                mint_decimals,
                optional_bytes(None),
                latest_blockhash@,
            ),
            fully_signed(r->Ok_0.1@),
    {
        self.create_and_initialize_mint(mint_decimals, None, latest_blockhash)
    }

    /// The address of the fee payer's token account for `mint_pkey`, or
    /// nothing where none can be derived.
    pub fn derive_ata(&self, mint_pkey: &Address) -> (ata: Option<Address>)
        ensures
            match ata {
                Some(address) => ata_address(self.payer(), mint_pkey@) == Some(address@),
                None => ata_address(self.payer(), mint_pkey@) is None,
            },
    {
        let mut seeds: Vec<Address> = Vec::new();
        seeds.push(self.payer_pkey);
        seeds.push(token_program_id());
        seeds.push(*mint_pkey);
        let ata_program = ata_program_id();
        proof {
            assert(address_bytes(seeds@) =~= ata_seeds(self.payer(), mint_pkey@));
        }
        match try_find_program_address(&seeds, &ata_program) {
            Some((address, _)) => Some(address),
            None => None,
        }
    }

    /// Plans the creation of the token account `ata_pda` of the fee payer
    /// for `mint_pkey`.
    pub fn create_ata_at(&self, ata_pda: &Address, mint_pkey: &Address, latest_blockhash: &Blockhash) -> (plan: TransactionPlan)
        ensures
            plan@ == ata_plan(self.payer(), ata_pda@, mint_pkey@, latest_blockhash@),
            fully_signed(plan@),
    {
        let create_ata_ix = create_ata(&self.payer_pkey, ata_pda, mint_pkey);
        let mut instructions: Vec<Instruction> = Vec::new();
        instructions.push(create_ata_ix);
        let mut signers: Vec<Address> = Vec::new();
        signers.push(self.payer_pkey);
        let plan = TransactionPlan {
            instructions,
            fee_payer: self.payer_pkey,
            signers,
            recent_blockhash: *latest_blockhash,
        };
        proof {
            let want = ata_plan(self.payer(), ata_pda@, mint_pkey@, latest_blockhash@);
            assert(plan@.instructions =~= want.instructions);
            assert(plan@.signers =~= want.signers);
            lemma_ata_plan_fully_signed(self.payer(), ata_pda@, mint_pkey@, latest_blockhash@);
        }
        plan
    }

    /// Derives the address of the fee payer's token account for `mint_pkey`
    /// and plans its creation. Returns the address with the plan, or nothing
    /// where no address can be derived.
    pub fn create_and_initialize_ata(&self, mint_pkey: &Address, latest_blockhash: &Blockhash) -> (r: Option<(Address, TransactionPlan)>)
        ensures
            match r {
                Some((ata, plan)) => {
                    &&& ata_address(self.payer(), mint_pkey@) == Some(ata@)
                    &&& plan@ == ata_plan(self.payer(), ata@, mint_pkey@, latest_blockhash@)
                    &&& fully_signed(plan@)
                },
                None => ata_address(self.payer(), mint_pkey@) is None,
            },
    {
        match self.derive_ata(mint_pkey) {
            Some(ata_pda) => {
                let plan = self.create_ata_at(&ata_pda, mint_pkey, latest_blockhash);
                Some((ata_pda, plan))
            },
            None => None,
        }
    }

    /// Plans the minting of `mint_amount` raw units of `mint_pkey` into
    /// `ata_pda`, with the fee payer as the only mint authority.
    pub fn mint_to_ata(
        &self,
        mint_pkey: &Address,
        ata_pda: &Address,
        mint_amount: u64,
        latest_blockhash: &Blockhash,
    ) -> (r: Result<TransactionPlan, MintFixtureError>)
        ensures
            r is Ok,
            r->Ok_0@ == mint_to_plan(self.payer(), mint_pkey@, ata_pda@, mint_amount, latest_blockhash@),
            fully_signed(r->Ok_0@),
    {
        let token_program = token_program_id();
        let no_signers: Vec<Address> = Vec::new();
        let mint_to_ix = match mint_to(
            &token_program,
            mint_pkey,
            ata_pda,
            &self.payer_pkey,
            &no_signers,
            mint_amount,
        ) {
            Ok(ix) => ix,
            Err(e) => {
                return Err(MintFixtureError::from(e));
            },
        };
        let mut instructions: Vec<Instruction> = Vec::new();
        instructions.push(mint_to_ix);
        let mut signers: Vec<Address> = Vec::new();
        signers.push(self.payer_pkey);
        let plan = TransactionPlan {
            instructions,
            fee_payer: self.payer_pkey,
            signers,
            recent_blockhash: *latest_blockhash,
        };
        proof {
            let want = mint_to_plan(self.payer(), mint_pkey@, ata_pda@, mint_amount, latest_blockhash@);
            assert(address_bytes(no_signers@) =~= Seq::<Seq<u8>>::empty());
            assert(plan@.instructions =~= want.instructions);
            assert(plan@.signers =~= want.signers);
            lemma_mint_to_plan_fully_signed(self.payer(), mint_pkey@, ata_pda@, mint_amount, latest_blockhash@);
        }
        Ok(plan)
    }

    /// Concludes a submission: `outcome` is what the backend answered after
    /// it was handed the signed transaction, a failure in its own words. A
    /// failure is handed on under the name of the backend in use, never
    /// dropped.
    pub fn process_transaction(&self, outcome: Result<(), String>) -> (r: Result<(), MintFixtureError>)
        ensures
            r == submission_result(self.client(), outcome),
    {
        match outcome {
            Ok(()) => Ok(()),
            Err(report) => match self.client {
                MintFixtureClient::Rpc => Err(MintFixtureError::Client(report)),
                MintFixtureClient::Banks => Err(MintFixtureError::Banks(report)),
            },
        }
    }
}

} // verus!
