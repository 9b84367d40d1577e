use vstd::prelude::*;

use anchor_lang::solana_program::program_error::ProgramError;
use anchor_lang::solana_program::pubkey::Pubkey;
use anchor_spl::token::spl_token;

use crate::account::{
    le_bytes, token_program_bytes, Account, AccountMeta, Address, Instruction,
    InstructionView, MetaView, TokenAccount, TransferError,
};

verus! {

#[verifier::external_type_specification]
#[verifier::external_body]
pub struct ExProgramError(ProgramError);

/// The accounts of a token transfer: the signing authority, the source and
/// destination token accounts, and the token module.
#[derive(Clone, Copy, Debug)]
pub struct TransferSPL {
    pub from: Account,
    pub from_ata: TokenAccount,
    pub to_ata: TokenAccount,
    pub token_program: Address,
}

/// The token module's instruction that moves `amount` units from `source`
/// to `destination` on the word of `authority`: both token accounts are
/// written, the authority signs; the arguments are the tag 3, then the
/// amount as a little-endian `u64`.
pub open spec fn token_transfer_instruction(
    source: Seq<u8>,
    destination: Seq<u8>,
    authority: Seq<u8>,
    amount: u64,
) -> InstructionView {
    InstructionView {
        program_id: token_program_bytes(),
        accounts: seq![
            MetaView { pubkey: source, is_signer: false, is_writable: true },
            MetaView { pubkey: destination, is_signer: false, is_writable: true },
            MetaView { pubkey: authority, is_signer: true, is_writable: false },
        ],
        data: seq![3u8] + le_bytes(amount),
    }
}

/// Relies on spl_token::instruction::transfer, with no multisignature
/// signers, to build the token module's instruction; it refuses any module
/// address but the token module's.
#[verifier::external_body]
fn token_transfer(
    program: &Address,
    source: &Address,
    destination: &Address,
    authority: &Address,
    amount: u64,
) -> (r: Result<Instruction, ProgramError>)
    ensures
        r is Ok <==> program@ == token_program_bytes(),
        r matches Ok(ix) ==> ix@ == token_transfer_instruction(source@, destination@, authority@, amount),
{
    let key = |a: &Address| Pubkey::new_from_array(a.bytes);
    let ix = spl_token::instruction::transfer(&key(program), &key(source), &key(destination), &key(authority), &[], amount)?;
    let accounts = ix.accounts.iter().map(|m| AccountMeta {
        pubkey: Address { bytes: m.pubkey.to_bytes() },
        is_signer: m.is_signer,
        is_writable: m.is_writable,
    }).collect();
    Ok(Instruction { program_id: Address { bytes: ix.program_id.to_bytes() }, accounts, data: ix.data })
}

/// What the token transfer handler decides: an authorization error when
/// the authority has not signed, an account-state error when either token
/// account is read-only or the module is not the token module, else the
/// instruction to delegate. Owner and token type are left to the token
/// module.
pub open spec fn transfer_spl_result(ctx: TransferSPL, amount: u64) -> Result<
    InstructionView,
    TransferError,
> {
    if !ctx.from.is_signer {
        Err(TransferError::Authorization)
    } else if !ctx.from_ata.is_writable || !ctx.to_ata.is_writable || ctx.token_program@
        != token_program_bytes() {
        Err(TransferError::AccountState)
    } else {
        Ok(token_transfer_instruction(ctx.from_ata.key@, ctx.to_ata.key@, ctx.from.key@, amount))
    }
}

/// Checks the accounts of a token transfer and builds the instruction that
/// the token module is to carry out with `from` as the authority.
pub fn transfer_spl(ctx: &TransferSPL, amount: u64) -> (r: Result<Instruction, TransferError>)
    ensures
        match r {
            Ok(ix) => transfer_spl_result(*ctx, amount) == Ok::<InstructionView, TransferError>(ix@),
            Err(e) => transfer_spl_result(*ctx, amount) == Err::<InstructionView, TransferError>(e),
        },
{
    if !ctx.from.is_signer {
        return Err(TransferError::Authorization);
    }
    if !ctx.from_ata.is_writable || !ctx.to_ata.is_writable {
        return Err(TransferError::AccountState);
    }
    match token_transfer(&ctx.token_program, &ctx.from_ata.key, &ctx.to_ata.key, &ctx.from.key, amount) {
        Ok(ix) => Ok(ix),
        Err(_) => Err(TransferError::AccountState),
    }
}

} // verus!
