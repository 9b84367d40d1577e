use vstd::prelude::*;

use crate::account::{system_program_bytes, token_program_bytes, InstructionView, TransferError};
use crate::ledger::{native_outcome, token_outcome};
use crate::native::{transfer_sol_result, TransferSOL};
use crate::token::{transfer_spl_result, TransferSPL};

verus! {

/// A native-currency transfer from an authorized, writable payer with enough
/// balance, to a writable account with room for the amount, succeeds: the
/// payer loses the amount, the receiver gains it, and their total is kept.
pub proof fn native_transfer_moves_balance(ctx: TransferSOL, amount: u64)
    requires
        ctx.from.is_signer,
        ctx.from.is_writable,
        ctx.to.is_writable,
        ctx.system_program@ == system_program_bytes(),
        ctx.from.lamports >= amount,
        ctx.to.lamports + amount <= u64::MAX,
    ensures
        native_outcome(ctx, amount) is Ok,
        native_outcome(ctx, amount)->Ok_0.from.lamports == ctx.from.lamports - amount,
        native_outcome(ctx, amount)->Ok_0.to.lamports == ctx.to.lamports + amount,
        native_outcome(ctx, amount)->Ok_0.from.lamports + native_outcome(ctx, amount)->Ok_0.to.lamports
            == ctx.from.lamports + ctx.to.lamports,
{
}

/// A native-currency transfer whose payer has not signed fails with an
/// authorization error, whatever the amount.
pub proof fn native_transfer_needs_signer(ctx: TransferSOL, amount: u64)
    requires
        !ctx.from.is_signer,
    ensures
        transfer_sol_result(ctx, amount) == Err::<InstructionView, TransferError>(TransferError::Authorization),
        native_outcome(ctx, amount) == Err::<TransferSOL, TransferError>(TransferError::Authorization),
{
}

/// A native-currency transfer of nothing, between accounts that pass the
/// handler's checks, succeeds and leaves every balance as it was.
pub proof fn native_zero_transfer_keeps_balances(ctx: TransferSOL)
    requires
        ctx.from.is_signer,
        ctx.from.is_writable,
        ctx.to.is_writable,
        ctx.system_program@ == system_program_bytes(),
    ensures
        native_outcome(ctx, 0) == Ok::<TransferSOL, TransferError>(ctx),
{
}

/// A token transfer between writable token accounts of one token type,
/// authorized by the source's signing owner, from a source with enough
/// units to a destination with room, succeeds: the source loses the amount
/// and the destination gains it.
pub proof fn token_transfer_moves_balance(ctx: TransferSPL, amount: u64)
    requires
        ctx.from.is_signer,
        ctx.from_ata.is_writable,
        ctx.to_ata.is_writable,
        ctx.token_program@ == token_program_bytes(),
        ctx.from_ata.mint@ == ctx.to_ata.mint@,
        ctx.from_ata.owner@ == ctx.from.key@,
        ctx.from_ata.amount >= amount,
        ctx.to_ata.amount + amount <= u64::MAX,
    ensures
        token_outcome(ctx, amount) is Ok,
        token_outcome(ctx, amount)->Ok_0.from_ata.amount == ctx.from_ata.amount - amount,
        token_outcome(ctx, amount)->Ok_0.to_ata.amount == ctx.to_ata.amount + amount,
{
}

/// A token transfer whose authority is not the source's recorded owner fails.
pub proof fn token_transfer_needs_owner(ctx: TransferSPL, amount: u64)
    requires
        ctx.from_ata.owner@ != ctx.from.key@,
    ensures
        token_outcome(ctx, amount) is Err,
{
}

/// A token transfer of more units than the source holds fails.
pub proof fn token_transfer_needs_balance(ctx: TransferSPL, amount: u64)
    requires
        ctx.from_ata.amount < amount,
    ensures
        token_outcome(ctx, amount) is Err,
{
}

} // verus!
