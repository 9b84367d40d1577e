use vstd::prelude::*;

use crate::account::{Account, TokenAccount, TransferError};
use crate::native::{transfer_sol, transfer_sol_result, TransferSOL};
use crate::token::{transfer_spl, transfer_spl_result, TransferSPL};

verus! {

/// How the native transfer module settles a transfer of `lamports`: `from`
/// must sign, both accounts must be writable, `from` must hold the amount
/// and `to` must have room for it. On success the two new accounts.
pub open spec fn native_settlement(from: Account, to: Account, lamports: u64) -> Result<
    (Account, Account),
    TransferError,
> {
    if !from.is_signer {
        Err(TransferError::Authorization)
    } else if !from.is_writable || !to.is_writable {
        Err(TransferError::AccountState)
    } else if from.lamports < lamports || to.lamports + lamports > u64::MAX {
        Err(TransferError::Delegation)
    } else {
        Ok(
            (
                Account { lamports: (from.lamports - lamports) as u64, ..from },
                Account { lamports: (to.lamports + lamports) as u64, ..to },
            ),
        )
    }
}

/// How the token module settles a transfer of `amount` units on the word of
/// `authority`: the source must hold the amount, both accounts must hold the
/// same token type, the authority must own the source and have signed, and
/// the destination must have room. On success the two new token accounts.
pub open spec fn token_settlement(
    authority: Account,
    source: TokenAccount,
    destination: TokenAccount,
    amount: u64,
) -> Result<(TokenAccount, TokenAccount), TransferError> {
    if !source.is_writable || !destination.is_writable {
        Err(TransferError::AccountState)
    } else if source.amount < amount {
        Err(TransferError::Delegation)
    } else if source.mint@ != destination.mint@ {
        Err(TransferError::AccountState)
    } else if source.owner@ != authority.key@ || !authority.is_signer {
        Err(TransferError::Authorization)
    } else if destination.amount + amount > u64::MAX {
        Err(TransferError::Delegation)
    } else {
        Ok(
            (
                TokenAccount { amount: (source.amount - amount) as u64, ..source },
                TokenAccount { amount: (destination.amount + amount) as u64, ..destination },
            ),
        )
    }
}

/// Settles a native-currency transfer on accounts held in memory, as the
/// native transfer module does; on failure nothing changes.
pub fn settle_native(from: &mut Account, to: &mut Account, lamports: u64) -> (r: Result<
    (),
    TransferError,
>)
    ensures
        match native_settlement(*old(from), *old(to), lamports) {
            Ok((f, t)) => r is Ok && *final(from) == f && *final(to) == t,
            Err(e) => r == Err::<(), TransferError>(e) && *final(from) == *old(from)
                && *final(to) == *old(to),
        },
{
    if !from.is_signer {
        return Err(TransferError::Authorization);
    }
    if !from.is_writable || !to.is_writable {
        return Err(TransferError::AccountState);
    }
    if from.lamports < lamports || to.lamports > u64::MAX - lamports {
        return Err(TransferError::Delegation);
    }
    from.lamports = from.lamports - lamports;
    to.lamports = to.lamports + lamports;
    Ok(())
}

/// Settles a token transfer on token accounts held in memory, as the token
/// module does; on failure nothing changes.
pub fn settle_token(
    authority: &Account,
    source: &mut TokenAccount,
    destination: &mut TokenAccount,
    amount: u64,
) -> (r: Result<(), TransferError>)
    ensures
        match token_settlement(*authority, *old(source), *old(destination), amount) {
            Ok((s, d)) => r is Ok && *final(source) == s && *final(destination) == d,
            Err(e) => r == Err::<(), TransferError>(e) && *final(source) == *old(source)
                && *final(destination) == *old(destination),
        },
{
    if !source.is_writable || !destination.is_writable {
        return Err(TransferError::AccountState);
    }
    if source.amount < amount {
        return Err(TransferError::Delegation);
    }
    if source.mint != destination.mint {
        return Err(TransferError::AccountState);
    }
    if source.owner != authority.key || !authority.is_signer {
        return Err(TransferError::Authorization);
    }
    if destination.amount > u64::MAX - amount {
        return Err(TransferError::Delegation);
    }
    source.amount = source.amount - amount;
    destination.amount = destination.amount + amount;
    Ok(())
}

/// The accounts after a native-currency transfer that the handler accepts
/// and the native transfer module then settles, or the first error.
pub open spec fn native_outcome(ctx: TransferSOL, amount: u64) -> Result<TransferSOL, TransferError> {
    match transfer_sol_result(ctx, amount) {
        Err(e) => Err(e),
        Ok(_) => match native_settlement(ctx.from, ctx.to, amount) {
            Err(e) => Err(e),
            Ok((f, t)) => Ok(TransferSOL { from: f, to: t, ..ctx }),
        },
    }
}

/// The token accounts after a token transfer that the handler accepts and
/// the token module then settles, or the first error.
pub open spec fn token_outcome(ctx: TransferSPL, amount: u64) -> Result<TransferSPL, TransferError> {
    match transfer_spl_result(ctx, amount) {
        Err(e) => Err(e),
        Ok(_) => match token_settlement(ctx.from, ctx.from_ata, ctx.to_ata, amount) {
            Err(e) => Err(e),
            Ok((s, d)) => Ok(TransferSPL { from_ata: s, to_ata: d, ..ctx }),
        },
    }
}

/// Runs a native-currency transfer from end to end on accounts held in
/// memory: the handler's checks, then the delegated settlement. It either
/// completes or leaves every account as it was.
pub fn run_transfer_sol(ctx: &mut TransferSOL, amount: u64) -> (r: Result<(), TransferError>)
    ensures
        match native_outcome(*old(ctx), amount) {
            Ok(c) => r is Ok && *final(ctx) == c,
            Err(e) => r == Err::<(), TransferError>(e) && *final(ctx) == *old(ctx),
        },
{
    match transfer_sol(ctx, amount) {
        Err(e) => Err(e),
        Ok(_) => settle_native(&mut ctx.from, &mut ctx.to, amount),
    }
}

/// Runs a token transfer from end to end on token accounts held in memory:
/// the handler's checks, then the delegated settlement. It either completes
/// or leaves every account as it was.
pub fn run_transfer_spl(ctx: &mut TransferSPL, amount: u64) -> (r: Result<(), TransferError>)
    ensures
        match token_outcome(*old(ctx), amount) {
            Ok(c) => r is Ok && *final(ctx) == c,
            Err(e) => r == Err::<(), TransferError>(e) && *final(ctx) == *old(ctx),
        },
{
    match transfer_spl(ctx, amount) {
        Err(e) => Err(e),
        Ok(_) => settle_token(&ctx.from, &mut ctx.from_ata, &mut ctx.to_ata, amount),
    }
}

} // verus!
