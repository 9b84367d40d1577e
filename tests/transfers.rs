use transfer::account::{system_program_id, token_program_id, Account, Address, TokenAccount, TransferError};
use transfer::ledger::{run_transfer_sol, run_transfer_spl, settle_native, settle_token};
use transfer::native::{transfer_sol, TransferSOL};
use transfer::token::{transfer_spl, TransferSPL};

fn addr(b: u8) -> Address {
    Address { bytes: [b; 32] }
}

fn account(b: u8, lamports: u64, is_signer: bool) -> Account {
    Account { key: addr(b), lamports, is_signer, is_writable: true }
}

fn native_ctx(from: u64, to: u64) -> TransferSOL {
    TransferSOL {
        from: account(1, from, true),
        to: account(2, to, false),
        system_program: system_program_id(),
    }
}

fn token_account(b: u8, owner: u8, mint: u8, amount: u64) -> TokenAccount {
    TokenAccount { key: addr(b), mint: addr(mint), owner: addr(owner), amount, is_writable: true }
}

fn token_ctx(from_ata: u64, to_ata: u64) -> TransferSPL {
    TransferSPL {
        from: account(1, 0, true),
        from_ata: token_account(10, 1, 7, from_ata),
        to_ata: token_account(11, 2, 7, to_ata),
        token_program: token_program_id(),
    }
}

#[test]
fn native_scenario_moves_thirty() {
    let mut ctx = native_ctx(100, 0);
    assert_eq!(run_transfer_sol(&mut ctx, 30), Ok(()));
    assert_eq!(ctx.from.lamports, 70);
    assert_eq!(ctx.to.lamports, 30);
}

#[test]
fn native_total_is_kept() {
    let mut ctx = native_ctx(1_000, 234);
    assert_eq!(run_transfer_sol(&mut ctx, 999), Ok(()));
    assert_eq!(ctx.from.lamports, 1);
    assert_eq!(ctx.to.lamports, 1_233);
    assert_eq!(ctx.from.lamports + ctx.to.lamports, 1_234);
}

#[test]
fn native_whole_balance_moves() {
    let mut ctx = native_ctx(u64::MAX, 0);
    assert_eq!(run_transfer_sol(&mut ctx, u64::MAX), Ok(()));
    assert_eq!(ctx.from.lamports, 0);
    assert_eq!(ctx.to.lamports, u64::MAX);
}

#[test]
fn native_unsigned_payer_is_refused() {
    for amount in [0u64, 1, 50, u64::MAX] {
        let mut ctx = native_ctx(100, 0);
        ctx.from.is_signer = false;
        assert_eq!(transfer_sol(&ctx, amount).err(), Some(TransferError::Authorization));
        assert_eq!(run_transfer_sol(&mut ctx, amount), Err(TransferError::Authorization));
        assert_eq!(ctx.from.lamports, 100);
        assert_eq!(ctx.to.lamports, 0);
    }
}

#[test]
fn native_zero_amount_changes_nothing() {
    let mut ctx = native_ctx(100, 5);
    assert_eq!(run_transfer_sol(&mut ctx, 0), Ok(()));
    assert_eq!(ctx.from.lamports, 100);
    assert_eq!(ctx.to.lamports, 5);
}

#[test]
fn native_read_only_account_is_refused() {
    let mut ctx = native_ctx(100, 0);
    ctx.to.is_writable = false;
    assert_eq!(transfer_sol(&ctx, 1).err(), Some(TransferError::AccountState));
    let mut ctx = native_ctx(100, 0);
    ctx.from.is_writable = false;
    assert_eq!(transfer_sol(&ctx, 1).err(), Some(TransferError::AccountState));
}

#[test]
fn native_wrong_module_is_refused() {
    let mut ctx = native_ctx(100, 0);
    ctx.system_program = token_program_id();
    assert_eq!(run_transfer_sol(&mut ctx, 1), Err(TransferError::AccountState));
    assert_eq!(ctx.from.lamports, 100);
}

#[test]
fn native_insufficient_balance_is_delegation_error() {
    let mut ctx = native_ctx(10, 3);
    assert!(transfer_sol(&ctx, 11).is_ok());
    assert_eq!(run_transfer_sol(&mut ctx, 11), Err(TransferError::Delegation));
    assert_eq!(ctx.from.lamports, 10);
    assert_eq!(ctx.to.lamports, 3);
}

#[test]
fn native_receiver_overflow_is_delegation_error() {
    let mut from = account(1, 5, true);
    let mut to = account(2, u64::MAX, false);
    assert_eq!(settle_native(&mut from, &mut to, 1), Err(TransferError::Delegation));
    assert_eq!(from.lamports, 5);
    assert_eq!(to.lamports, u64::MAX);
}

#[test]
fn native_instruction_is_encoded() {
    let ctx = native_ctx(100, 0);
    let ix = transfer_sol(&ctx, 0x0102_0304_0506_0708).unwrap();
    assert_eq!(ix.program_id, system_program_id());
    assert_eq!(ix.data, vec![2, 0, 0, 0, 8, 7, 6, 5, 4, 3, 2, 1]);
    assert_eq!(ix.accounts.len(), 2);
    assert_eq!(ix.accounts[0].pubkey, addr(1));
    assert!(ix.accounts[0].is_signer && ix.accounts[0].is_writable);
    assert_eq!(ix.accounts[1].pubkey, addr(2));
    assert!(!ix.accounts[1].is_signer && ix.accounts[1].is_writable);
}

#[test]
fn token_scenario_moves_balance() {
    let mut ctx = token_ctx(50, 8);
    assert_eq!(run_transfer_spl(&mut ctx, 20), Ok(()));
    assert_eq!(ctx.from_ata.amount, 30);
    assert_eq!(ctx.to_ata.amount, 28);
}

#[test]
fn token_insufficient_balance_keeps_both() {
    let mut ctx = token_ctx(5, 0);
    assert_eq!(run_transfer_spl(&mut ctx, 10), Err(TransferError::Delegation));
    assert_eq!(ctx.from_ata.amount, 5);
    assert_eq!(ctx.to_ata.amount, 0);
}

#[test]
fn token_foreign_authority_is_refused() {
    let mut ctx = token_ctx(50, 0);
    ctx.from = account(3, 0, true);
    assert!(transfer_spl(&ctx, 1).is_ok());
    assert_eq!(run_transfer_spl(&mut ctx, 1), Err(TransferError::Authorization));
    assert_eq!(ctx.from_ata.amount, 50);
    assert_eq!(ctx.to_ata.amount, 0);
}

#[test]
fn token_unsigned_authority_is_refused() {
    let mut ctx = token_ctx(50, 0);
    ctx.from.is_signer = false;
    assert_eq!(transfer_spl(&ctx, 1).err(), Some(TransferError::Authorization));
    let mut source = ctx.from_ata;
    let mut destination = ctx.to_ata;
    assert_eq!(settle_token(&ctx.from, &mut source, &mut destination, 1), Err(TransferError::Authorization));
}

#[test]
fn token_mint_mismatch_is_refused() {
    let mut ctx = token_ctx(50, 0);
    ctx.to_ata.mint = addr(9);
    assert_eq!(run_transfer_spl(&mut ctx, 1), Err(TransferError::AccountState));
    assert_eq!(ctx.from_ata.amount, 50);
}

#[test]
fn token_wrong_module_is_refused() {
    let mut ctx = token_ctx(50, 0);
    ctx.token_program = system_program_id();
    assert_eq!(transfer_spl(&ctx, 1).err(), Some(TransferError::AccountState));
}

#[test]
fn token_read_only_account_is_refused() {
    let mut ctx = token_ctx(50, 0);
    ctx.to_ata.is_writable = false;
    assert_eq!(transfer_spl(&ctx, 1).err(), Some(TransferError::AccountState));
}

#[test]
fn token_destination_overflow_is_refused() {
    let mut ctx = token_ctx(50, u64::MAX);
    assert_eq!(run_transfer_spl(&mut ctx, 1), Err(TransferError::Delegation));
    assert_eq!(ctx.from_ata.amount, 50);
    assert_eq!(ctx.to_ata.amount, u64::MAX);
}

#[test]
fn token_instruction_is_encoded() {
    let ctx = token_ctx(50, 0);
    let ix = transfer_spl(&ctx, 0x0102_0304_0506_0708).unwrap();
    assert_eq!(ix.program_id, token_program_id());
    assert_eq!(ix.data, vec![3, 8, 7, 6, 5, 4, 3, 2, 1]);
    assert_eq!(ix.accounts.len(), 3);
    assert_eq!(ix.accounts[0].pubkey, addr(10));
    assert!(!ix.accounts[0].is_signer && ix.accounts[0].is_writable);
    assert_eq!(ix.accounts[1].pubkey, addr(11));
    assert!(!ix.accounts[1].is_signer && ix.accounts[1].is_writable);
    assert_eq!(ix.accounts[2].pubkey, addr(1));
    assert!(ix.accounts[2].is_signer && !ix.accounts[2].is_writable);
}

#[test]
fn addresses_compare_by_every_byte() {
    let a = addr(4);
    let mut b = addr(4);
    assert_eq!(a, b);
    b.bytes[31] = 5;
    assert_ne!(a, b);
}
