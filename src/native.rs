use vstd::prelude::*;

use anchor_lang::solana_program::pubkey::Pubkey;
use anchor_lang::solana_program::system_instruction;

use crate::account::{
    le_bytes, system_program_bytes, system_program_id, Account, AccountMeta, Address,
    Instruction, InstructionView, MetaView, TransferError,
};

verus! {

/// The accounts of a native-currency transfer: the paying signer, the
/// receiving account, and the native transfer module.
#[derive(Clone, Copy, Debug)]
pub struct TransferSOL {
    pub from: Account,
    pub to: Account,
    pub system_program: Address,
}

/// The native transfer module's instruction that moves `lamports` from
/// `from` to `to`: `from` signs and both are written; the arguments are the
/// variant tag 2 as a little-endian `u32`, then the amount as a
/// little-endian `u64`.
pub open spec fn native_transfer_instruction(
    from: Seq<u8>,
    to: Seq<u8>,
    lamports: u64,
) -> InstructionView {
    InstructionView {
        program_id: system_program_bytes(),
        accounts: seq![
            MetaView { pubkey: from, is_signer: true, is_writable: true },
            MetaView { pubkey: to, is_signer: false, is_writable: true },
        ],
        data: seq![2u8, 0u8, 0u8, 0u8] + le_bytes(lamports),
    }
}

/// Relies on solana_program::system_instruction::transfer to build the
/// native transfer module's instruction.
#[verifier::external_body]
fn system_transfer(from: &Address, to: &Address, lamports: u64) -> (r: Instruction)
    ensures
        r@ == native_transfer_instruction(from@, to@, lamports),
{
    let ix = system_instruction::transfer(
        &Pubkey::new_from_array(from.bytes),
        &Pubkey::new_from_array(to.bytes),
        lamports,
    );
    let accounts = ix.accounts.iter().map(|m| AccountMeta {
        pubkey: Address { bytes: m.pubkey.to_bytes() },
        is_signer: m.is_signer,
        is_writable: m.is_writable,
    }).collect();
    Instruction { program_id: Address { bytes: ix.program_id.to_bytes() }, accounts, data: ix.data }
}

/// What the native transfer handler decides: an authorization error when
/// `from` has not signed, an account-state error when either account is
/// read-only or the module is not the native transfer module, else the
/// instruction to delegate.
pub open spec fn transfer_sol_result(ctx: TransferSOL, amount: u64) -> Result<
    InstructionView,
    TransferError,
> {
    if !ctx.from.is_signer {
        Err(TransferError::Authorization)
    } else if !ctx.from.is_writable || !ctx.to.is_writable || ctx.system_program@
        != system_program_bytes() {
        Err(TransferError::AccountState)
    } else {
        Ok(native_transfer_instruction(ctx.from.key@, ctx.to.key@, amount))
    }
}

/// Checks the accounts of a native-currency transfer and builds the
/// instruction that the native transfer module is to carry out.
pub fn transfer_sol(ctx: &TransferSOL, amount: u64) -> (r: Result<Instruction, TransferError>)
    ensures
        match r {
            Ok(ix) => transfer_sol_result(*ctx, amount) == Ok::<InstructionView, TransferError>(ix@),
            Err(e) => transfer_sol_result(*ctx, amount) == Err::<InstructionView, TransferError>(e),
        },
{
    if !ctx.from.is_signer {
        return Err(TransferError::Authorization);
    }
    if !ctx.from.is_writable || !ctx.to.is_writable {
        return Err(TransferError::AccountState);
    }
    let system = system_program_id();
    if ctx.system_program != system {
        return Err(TransferError::AccountState);
    }
    Ok(system_transfer(&ctx.from.key, &ctx.to.key, amount))
}

} // verus!
