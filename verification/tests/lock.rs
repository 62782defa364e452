use anchor_lang::prelude::Pubkey;
use token_mint_lock::{
    calc_days_since_unix_epoch, check_derived, create_lock, create_mint_authority, mint_to,
    set_lock_admin, toggle_mint_authority, Address, CreateLock, CreateMintAuthority, ErrorCode,
    MintAuthority, MintLock, MintTo, SetLockAdmin, ToggleMintAuthority,
};

fn addr(n: u8) -> Address {
    Address { bytes: [n; 32] }
}

fn pda(seed: &Address, program: &Address) -> (Address, u8) {
    let (pk, bump) = Pubkey::find_program_address(
        &[&seed.bytes],
        &Pubkey::new_from_array(program.bytes),
    );
    (Address { bytes: pk.to_bytes() }, bump)
}

fn lock_setup() -> (Address, Address, Address, u8, MintLock) {
    let program = addr(9);
    let mint = addr(1);
    let (lock_key, bump) = pda(&mint, &program);
    let lock = MintLock { mint, admin: addr(3), bump };
    (program, mint, lock_key, bump, lock)
}

fn mint_ctx(program: Address, mint: Address, lock_key: Address, lock: MintLock) -> MintTo {
    MintTo {
        lock,
        lock_key,
        mint_authority: addr(5),
        to_token_acc: addr(6),
        to_token_acc_mint: mint,
        mint,
        program_id: program,
    }
}

fn authority(lock_key: Address, minted_today: u64, day: u32) -> MintAuthority {
    MintAuthority {
        lock: lock_key,
        authority: addr(5),
        max_mint_per_day: 1000,
        is_enabled: true,
        minted_today,
        last_days_since_unix_epoch: day,
    }
}

#[test]
fn create_lock_succeeds() {
    let (program, mint, lock_key, bump, _) = lock_setup();
    let ctx = CreateLock {
        lock_key,
        mint,
        mint_supply_controller: addr(2),
        mint_authority: addr(2),
        bump,
        program_id: program,
    };
    let (lock, act) = create_lock(&ctx, addr(3)).unwrap();
    assert_eq!(lock.mint.bytes, mint.bytes);
    assert_eq!(lock.admin.bytes, addr(3).bytes);
    assert_eq!(lock.bump, bump);
    assert_eq!(act.account_or_mint.bytes, mint.bytes);
    assert_eq!(act.current_authority.bytes, addr(2).bytes);
    assert_eq!(act.new_authority.bytes, lock_key.bytes);
}

#[test]
fn create_lock_rejects_wrong_controller() {
    let (program, mint, lock_key, bump, _) = lock_setup();
    let ctx = CreateLock {
        lock_key,
        mint,
        mint_supply_controller: addr(2),
        mint_authority: addr(4),
        bump,
        program_id: program,
    };
    assert!(matches!(
        create_lock(&ctx, addr(3)),
        Err(ErrorCode::InvalidSupplyController)
    ));
}

#[test]
fn create_lock_rejects_wrong_bump() {
    let (program, mint, lock_key, bump, _) = lock_setup();
    let ctx = CreateLock {
        lock_key,
        mint,
        mint_supply_controller: addr(2),
        mint_authority: addr(2),
        bump: bump.wrapping_add(1),
        program_id: program,
    };
    assert!(matches!(
        create_lock(&ctx, addr(3)),
        Err(ErrorCode::InvalidDerivation)
    ));
}

#[test]
fn create_mint_authority_succeeds() {
    let (_, _, lock_key, _, lock) = lock_setup();
    let ctx = CreateMintAuthority { lock, lock_key, lock_admin: addr(3) };
    let a = create_mint_authority(&ctx, addr(5), 1000, true, 10).unwrap();
    assert_eq!(a.lock.bytes, lock_key.bytes);
    assert_eq!(a.authority.bytes, addr(5).bytes);
    assert_eq!(a.max_mint_per_day, 1000);
    assert!(a.is_enabled);
    assert_eq!(a.minted_today, 0);
    assert_eq!(a.last_days_since_unix_epoch, 10);
}

#[test]
fn create_mint_authority_rejects_non_admin() {
    let (_, _, lock_key, _, lock) = lock_setup();
    let ctx = CreateMintAuthority { lock, lock_key, lock_admin: addr(4) };
    assert!(matches!(
        create_mint_authority(&ctx, addr(5), 1000, true, 10),
        Err(ErrorCode::Unauthorized)
    ));
}

#[test]
fn toggle_twice_is_idempotent() {
    let (_, _, lock_key, _, lock) = lock_setup();
    let ctx = ToggleMintAuthority { lock, lock_key, lock_admin: addr(3) };
    let mut a = authority(lock_key, 900, 10);
    a.is_enabled = false;
    assert!(toggle_mint_authority(&ctx, &mut a, true).is_ok());
    assert!(a.is_enabled);
    assert!(toggle_mint_authority(&ctx, &mut a, true).is_ok());
    assert!(a.is_enabled);
    assert_eq!(a.minted_today, 900);
    assert_eq!(a.last_days_since_unix_epoch, 10);
    assert_eq!(a.max_mint_per_day, 1000);
    assert_eq!(a.lock.bytes, lock_key.bytes);
    assert_eq!(a.authority.bytes, addr(5).bytes);
}

#[test]
fn toggle_rejects_non_admin() {
    let (_, _, lock_key, _, lock) = lock_setup();
    let ctx = ToggleMintAuthority { lock, lock_key, lock_admin: addr(4) };
    let mut a = authority(lock_key, 0, 10);
    assert!(matches!(
        toggle_mint_authority(&ctx, &mut a, false),
        Err(ErrorCode::Unauthorized)
    ));
    assert!(a.is_enabled);
}

#[test]
fn toggle_rejects_foreign_record() {
    let (_, _, lock_key, _, lock) = lock_setup();
    let ctx = ToggleMintAuthority { lock, lock_key, lock_admin: addr(3) };
    let mut a = authority(addr(8), 0, 10);
    assert!(matches!(
        toggle_mint_authority(&ctx, &mut a, false),
        Err(ErrorCode::RecordMismatch)
    ));
    assert!(a.is_enabled);
}

#[test]
fn set_lock_admin_succeeds() {
    let (_, _, _, _, mut lock) = lock_setup();
    let ctx = SetLockAdmin { lock_admin: addr(3) };
    assert!(set_lock_admin(&ctx, &mut lock, addr(7)).is_ok());
    assert_eq!(lock.admin.bytes, addr(7).bytes);
    assert_eq!(lock.mint.bytes, addr(1).bytes);
}

#[test]
fn set_lock_admin_rejects_non_admin() {
    let (_, _, _, _, mut lock) = lock_setup();
    let ctx = SetLockAdmin { lock_admin: addr(4) };
    assert!(matches!(
        set_lock_admin(&ctx, &mut lock, addr(7)),
        Err(ErrorCode::Unauthorized)
    ));
    assert_eq!(lock.admin.bytes, addr(3).bytes);
}

#[test]
fn mint_quota_boundary() {
    let (program, mint, lock_key, _, lock) = lock_setup();
    let ctx = mint_ctx(program, mint, lock_key, lock);
    let mut a = authority(lock_key, 900, 10);
    assert!(matches!(
        mint_to(&ctx, &mut a, 150, 10),
        Err(ErrorCode::QuotaExceeded)
    ));
    assert_eq!(a.minted_today, 900);
    assert_eq!(a.last_days_since_unix_epoch, 10);
    let act = mint_to(&ctx, &mut a, 100, 10).unwrap_or_else(|_| panic!("mint failed"));
    assert_eq!(a.minted_today, 1000);
    assert_eq!(act.amount, 100);
    assert_eq!(act.mint.bytes, mint.bytes);
    assert_eq!(act.to.bytes, addr(6).bytes);
    assert_eq!(act.signer_seed.bytes, mint.bytes);
    assert_eq!(act.signer_bump, lock.bump);
}

#[test]
fn mint_disabled_leaves_counters() {
    let (program, mint, lock_key, _, lock) = lock_setup();
    let ctx = mint_ctx(program, mint, lock_key, lock);
    let mut a = authority(lock_key, 900, 10);
    a.is_enabled = false;
    assert!(matches!(
        mint_to(&ctx, &mut a, 1, 10),
        Err(ErrorCode::AuthorityDisabled)
    ));
    assert_eq!(a.minted_today, 900);
    assert_eq!(a.last_days_since_unix_epoch, 10);
}

#[test]
fn mint_day_rollover_resets_counter() {
    let (program, mint, lock_key, _, lock) = lock_setup();
    let ctx = mint_ctx(program, mint, lock_key, lock);
    let mut a = authority(lock_key, 900, 10);
    assert!(matches!(
        mint_to(&ctx, &mut a, 150, 10),
        Err(ErrorCode::QuotaExceeded)
    ));
    assert!(mint_to(&ctx, &mut a, 1000, 11).is_ok());
    assert_eq!(a.minted_today, 1000);
    assert_eq!(a.last_days_since_unix_epoch, 11);
}

#[test]
fn mint_failed_rollover_keeps_old_day() {
    let (program, mint, lock_key, _, lock) = lock_setup();
    let ctx = mint_ctx(program, mint, lock_key, lock);
    let mut a = authority(lock_key, 900, 10);
    assert!(matches!(
        mint_to(&ctx, &mut a, 1001, 11),
        Err(ErrorCode::QuotaExceeded)
    ));
    assert_eq!(a.minted_today, 900);
    assert_eq!(a.last_days_since_unix_epoch, 10);
}

#[test]
fn mint_zero_amount_is_noop() {
    let (program, mint, lock_key, _, lock) = lock_setup();
    let ctx = mint_ctx(program, mint, lock_key, lock);
    let mut a = authority(lock_key, 1000, 10);
    assert!(mint_to(&ctx, &mut a, 0, 10).is_ok());
    assert_eq!(a.minted_today, 1000);
}

#[test]
fn mint_sum_overflow_is_quota_exceeded() {
    let (program, mint, lock_key, _, lock) = lock_setup();
    let ctx = mint_ctx(program, mint, lock_key, lock);
    let mut a = authority(lock_key, 1, 10);
    a.max_mint_per_day = u64::MAX;
    assert!(matches!(
        mint_to(&ctx, &mut a, u64::MAX, 10),
        Err(ErrorCode::QuotaExceeded)
    ));
    assert_eq!(a.minted_today, 1);
}

#[test]
fn mint_rejects_foreign_record() {
    let (program, mint, lock_key, _, lock) = lock_setup();
    let ctx = mint_ctx(program, mint, lock_key, lock);
    let mut a = authority(addr(8), 0, 10);
    assert!(matches!(
        mint_to(&ctx, &mut a, 1, 10),
        Err(ErrorCode::RecordMismatch)
    ));
}

#[test]
fn mint_rejects_wrong_signer() {
    let (program, mint, lock_key, _, lock) = lock_setup();
    let mut ctx = mint_ctx(program, mint, lock_key, lock);
    ctx.mint_authority = addr(7);
    let mut a = authority(lock_key, 0, 10);
    assert!(matches!(
        mint_to(&ctx, &mut a, 1, 10),
        Err(ErrorCode::Unauthorized)
    ));
}

#[test]
fn mint_rejects_wrong_destination_asset() {
    let (program, mint, lock_key, _, lock) = lock_setup();
    let mut ctx = mint_ctx(program, mint, lock_key, lock);
    ctx.to_token_acc_mint = addr(8);
    let mut a = authority(lock_key, 0, 10);
    assert!(matches!(
        mint_to(&ctx, &mut a, 1, 10),
        Err(ErrorCode::RecordMismatch)
    ));
}

#[test]
fn mint_rejects_wrong_lock_derivation() {
    let (program, mint, _, _, lock) = lock_setup();
    let wrong_key = addr(8);
    let mut ctx = mint_ctx(program, mint, wrong_key, lock);
    ctx.lock_key = wrong_key;
    let mut a = authority(wrong_key, 0, 10);
    assert!(matches!(
        mint_to(&ctx, &mut a, 1, 10),
        Err(ErrorCode::InvalidDerivation)
    ));
    assert_eq!(a.minted_today, 0);
}

#[test]
fn day_index_from_timestamp() {
    assert_eq!(calc_days_since_unix_epoch(0), 0);
    assert_eq!(calc_days_since_unix_epoch(86399), 0);
    assert_eq!(calc_days_since_unix_epoch(86400), 1);
    assert_eq!(calc_days_since_unix_epoch(1_700_000_000), 19675);
}

#[test]
fn derivation_is_deterministic() {
    let program = addr(9);
    let seed = addr(1);
    let (first, bump) = pda(&seed, &program);
    let (second, bump_again) = pda(&seed, &program);
    assert_eq!(first.bytes, second.bytes);
    assert_eq!(bump, bump_again);
    assert!(check_derived(&seed, bump, &program, &first));
    assert!(check_derived(&seed, bump, &program, &first));
    assert!(!check_derived(&seed, bump, &program, &addr(8)));
}

#[test]
fn error_messages() {
    assert_eq!(
        ErrorCode::AuthorityDisabled.message(),
        "Mint authority is disabled"
    );
    assert_eq!(ErrorCode::QuotaExceeded.message(), "Daily mint limit exceeded");
    assert_eq!(
        ErrorCode::InvalidDerivation.message(),
        "Offset does not derive the expected address"
    );
}
