//! A transaction before it is signed.

use vstd::prelude::*;
use crate::address::{Address, Blockhash};
use crate::instruction::{asks_signature, Instruction, InstructionView};

verus! {

/// What a plan says, over the bytes of its addresses.
pub struct TransactionPlanView {
    pub instructions: Seq<InstructionView>,
    pub fee_payer: Seq<u8>,
    pub signers: Seq<Seq<u8>>,
    pub recent_blockhash: Seq<u8>,
}

/// The instructions of one atomic transaction, in order, with the account
/// that pays its fee, the accounts whose keys sign it, and the checkpoint
/// after which it expires.
#[derive(Clone, Debug, PartialEq, Eq)]
pub struct TransactionPlan {
    pub instructions: Vec<Instruction>,
    pub fee_payer: Address,
    pub signers: Vec<Address>,
    pub recent_blockhash: Blockhash,
}

impl View for TransactionPlan {
    type V = TransactionPlanView;

    open spec fn view(&self) -> TransactionPlanView {
        TransactionPlanView {
            instructions: Seq::new(self.instructions@.len(), |i: int| self.instructions@[i]@),
            fee_payer: self.fee_payer@,
            signers: Seq::new(self.signers@.len(), |i: int| self.signers@[i]@),
            recent_blockhash: self.recent_blockhash@,
        }
    }
}

/// Whether the plan's signers are the fee payer and every account whose
/// signature one of its instructions asks for, and no other.
pub open spec fn fully_signed(plan: TransactionPlanView) -> bool {
    forall|key: Seq<u8>|
        #[trigger] plan.signers.contains(key) <==> (key == plan.fee_payer || exists|i: int|
            0 <= i < plan.instructions.len() && asks_signature(#[trigger] plan.instructions[i], key))
}

} // verus!
