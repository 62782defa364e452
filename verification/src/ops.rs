use vstd::prelude::*;
use crate::addr::{Address, addr_eq, check_derived, derived_address};
use crate::error::ErrorCode;
use crate::records::{MintLock, MintAuthority, quota_minted, quota_accepts, quota_step};

verus! {

/// The accounts presented to `create_lock`: the address the lock record is
/// created at, the asset, the asset's recorded supply controller, and the
/// signing caller.
#[derive(Clone, Copy)]
pub struct CreateLock {
    /// Address at which the lock record is created.
    pub lock_key: Address,
    /// The asset identifier.
    pub mint: Address,
    /// The asset's current supply controller, as the asset ledger records it.
    pub mint_supply_controller: Address,
    /// The signing caller, who must be the supply controller.
    pub mint_authority: Address,
    /// Derivation offset for `lock_key`.
    pub bump: u8,
    /// Identity of the program that owns lock records.
    pub program_id: Address,
}

/// The supply-control transfer a successful `create_lock` instructs the
/// asset ledger to perform: supply control over the asset moves from the
/// caller to the lock's derived address.
#[derive(Clone, Copy)]
pub struct SetAuthorityAction {
    /// The asset whose supply control is transferred.
    pub account_or_mint: Address,
    /// The controller giving up the rights.
    pub current_authority: Address,
    /// The lock address receiving them.
    pub new_authority: Address,
}

/// The precondition checks of `create_lock`, in the order they are applied:
/// the offset must reproduce the lock's address, and the caller must hold
/// the asset's supply-control rights.
pub open spec fn create_lock_checks(ctx: CreateLock) -> Result<(), ErrorCode> {
    if derived_address(ctx.mint@, ctx.bump, ctx.program_id@) != Some(ctx.lock_key@) {
        Err(ErrorCode::InvalidDerivation)
    } else if ctx.mint_authority@ != ctx.mint_supply_controller@ {
        Err(ErrorCode::InvalidSupplyController)
    } else {
        Ok(())
    }
}

/// What `create_lock` returns: the new record and the supply transfer, or
/// the first failing check's error.
pub open spec fn create_lock_spec(ctx: CreateLock, lock_admin: Address) -> Result<
    (MintLock, SetAuthorityAction),
    ErrorCode,
> {
    match create_lock_checks(ctx) {
        Err(e) => Err(e),
        Ok(()) => Ok(
            (
                MintLock { mint: ctx.mint, admin: lock_admin, bump: ctx.bump },
                SetAuthorityAction {
                    account_or_mint: ctx.mint,
                    current_authority: ctx.mint_supply_controller,
                    new_authority: ctx.lock_key,
                },
            ),
        ),
    }
}

/// Creates the lock over an asset, transferring the asset's supply control
/// to the lock's derived address in the same operation.
pub fn create_lock(ctx: &CreateLock, lock_admin: Address) -> (r: Result<
    (MintLock, SetAuthorityAction),
    ErrorCode,
>)
    ensures
        r == create_lock_spec(*ctx, lock_admin),
        r is Ok <==> create_lock_checks(*ctx) is Ok,
        r matches Ok((lock, act)) ==> lock.mint@ == ctx.mint@ && lock.admin@ == lock_admin@
            && lock.bump == ctx.bump && act.new_authority@ == ctx.lock_key@,
{
    if !check_derived(&ctx.mint, ctx.bump, &ctx.program_id, &ctx.lock_key) {
        return Err(ErrorCode::InvalidDerivation);
    }
    if !addr_eq(&ctx.mint_authority, &ctx.mint_supply_controller) {
        return Err(ErrorCode::InvalidSupplyController);
    }
    Ok(
        (
            MintLock { mint: ctx.mint, admin: lock_admin, bump: ctx.bump },
            SetAuthorityAction {
                account_or_mint: ctx.mint,
                current_authority: ctx.mint_supply_controller,
                new_authority: ctx.lock_key,
            },
        ),
    )
}

/// The accounts presented to `create_mint_authority`: the owning lock, its
/// address, and the signing caller.
#[derive(Clone, Copy)]
pub struct CreateMintAuthority {
    /// The owning lock record.
    pub lock: MintLock,
    /// The lock record's address, recorded as the new capability's
    /// back-reference.
    pub lock_key: Address,
    /// The signing caller, who must be the lock's admin.
    pub lock_admin: Address,
}

/// What `create_mint_authority` returns: a fresh capability with zeroed
/// counters whose tracked day is the current one, or `Unauthorized`.
pub open spec fn create_mint_authority_spec(
    ctx: CreateMintAuthority,
    authority: Address,
    max_mint_per_day: u64,
    is_enabled: bool,
    current_day: u32,
) -> Result<MintAuthority, ErrorCode> {
    if ctx.lock_admin@ != ctx.lock.admin@ {
        Err(ErrorCode::Unauthorized)
    } else {
        Ok(
            MintAuthority {
                lock: ctx.lock_key,
                authority,
                max_mint_per_day,
                is_enabled,
                minted_today: 0,
                last_days_since_unix_epoch: current_day,
            },
        )
    }
}

/// Creates a mint authority under the lock. Only the lock's admin may do so;
/// the new record starts with nothing minted on the current day.
pub fn create_mint_authority(
    ctx: &CreateMintAuthority,
    authority: Address,
    max_mint_per_day: u64,
    is_enabled: bool,
    current_day: u32,
) -> (r: Result<MintAuthority, ErrorCode>)
    ensures
        r == create_mint_authority_spec(*ctx, authority, max_mint_per_day, is_enabled, current_day),
        r is Ok <==> ctx.lock_admin@ == ctx.lock.admin@,
        r matches Ok(a) ==> a.quota_invariant(current_day) && quota_minted(a, current_day) == 0,
{
    if !addr_eq(&ctx.lock_admin, &ctx.lock.admin) {
        return Err(ErrorCode::Unauthorized);
    }
    Ok(
        MintAuthority {
            lock: ctx.lock_key,
            authority,
            max_mint_per_day,
            is_enabled,
            minted_today: 0,
            last_days_since_unix_epoch: current_day,
        },
    )
}

/// The accounts presented to `toggle_mint_authority`: the owning lock, its
/// address, and the signing caller.
#[derive(Clone, Copy)]
pub struct ToggleMintAuthority {
    /// The owning lock record.
    pub lock: MintLock,
    /// The lock record's address, which the capability's back-reference
    /// must match.
    pub lock_key: Address,
    /// The signing caller, who must be the lock's admin.
    pub lock_admin: Address,
}

/// The precondition checks of `toggle_mint_authority`, in order: the caller
/// must be the lock's admin, and the capability must belong to the lock
/// presented.
pub open spec fn toggle_checks(ctx: ToggleMintAuthority, a: MintAuthority) -> Result<
    (),
    ErrorCode,
> {
    if ctx.lock_admin@ != ctx.lock.admin@ {
        Err(ErrorCode::Unauthorized)
    } else if a.lock@ != ctx.lock_key@ {
        Err(ErrorCode::RecordMismatch)
    } else {
        Ok(())
    }
}

/// The capability with its enable flag overwritten; counters and every
/// other field are untouched.
pub open spec fn toggle_result(a: MintAuthority, is_enabled: bool) -> MintAuthority {
    MintAuthority { is_enabled, ..a }
}

/// Enables or disables a mint authority. Only the lock's admin may do so;
/// counters are unaffected.
pub fn toggle_mint_authority(
    ctx: &ToggleMintAuthority,
    mint_authority_acc: &mut MintAuthority,
    is_enabled: bool,
) -> (r: Result<(), ErrorCode>)
    ensures
        r == toggle_checks(*ctx, *old(mint_authority_acc)),
        r is Ok ==> *final(mint_authority_acc) == toggle_result(
            *old(mint_authority_acc),
            is_enabled,
        ),
        r is Err ==> *final(mint_authority_acc) == *old(mint_authority_acc),
{
    if !addr_eq(&ctx.lock_admin, &ctx.lock.admin) {
        return Err(ErrorCode::Unauthorized);
    }
    if !addr_eq(&mint_authority_acc.lock, &ctx.lock_key) {
        return Err(ErrorCode::RecordMismatch);
    }
    mint_authority_acc.is_enabled = is_enabled;
    Ok(())
}

/// The signer presented to `set_lock_admin`.
#[derive(Clone, Copy)]
pub struct SetLockAdmin {
    /// The signing caller, who must be the lock's current admin.
    pub lock_admin: Address,
}

/// Reassigns the lock's admin. Only the current admin may do so; no quota or
/// enablement side effects.
pub fn set_lock_admin(ctx: &SetLockAdmin, lock: &mut MintLock, new_admin: Address) -> (r: Result<
    (),
    ErrorCode,
>)
    ensures
        r is Ok <==> ctx.lock_admin@ == old(lock).admin@,
        r is Ok ==> *final(lock) == (MintLock { admin: new_admin, ..*old(lock) }),
        r is Err ==> *final(lock) == *old(lock) && r == Err::<(), ErrorCode>(
            ErrorCode::Unauthorized,
        ),
{
    if !addr_eq(&ctx.lock_admin, &lock.admin) {
        return Err(ErrorCode::Unauthorized);
    }
    lock.admin = new_admin;
    Ok(())
}

/// The accounts presented to `mint_to`: the lock, its address, the signer
/// presenting as the capability's authority, the destination, and the asset.
#[derive(Clone, Copy)]
pub struct MintTo {
    /// The lock record.
    pub lock: MintLock,
    /// The lock record's address.
    pub lock_key: Address,
    /// The signer requesting the mint, who must be the capability's
    /// authority principal.
    pub mint_authority: Address,
    /// Address of the destination asset account.
    pub to_token_acc: Address,
    /// The asset that destination account holds, which must be the lock's.
    pub to_token_acc_mint: Address,
    /// Address of the asset account presented, which must be the lock's.
    pub mint: Address,
    /// Identity of the program that owns lock records.
    pub program_id: Address,
}

/// The supply-increase call a successful mint instructs the asset ledger to
/// perform. The lock acts as signer: the action carries the seed and offset
/// from which the runtime synthesizes the lock's signature, in place of any
/// stored secret.
#[derive(Clone, Copy)]
pub struct MintAction {
    /// The asset whose supply grows.
    pub mint: Address,
    /// The credited asset account.
    pub to: Address,
    /// Base units credited.
    pub amount: u64,
    /// Seed of the lock's derived address.
    pub signer_seed: Address,
    /// Offset of the lock's derived address.
    pub signer_bump: u8,
}

/// The account checks of `mint_to`, in the order they are applied: the
/// capability must belong to the lock, the signer must be its authority,
/// destination and asset must match the lock's asset, and the lock's offset
/// must reproduce its address before it may sign.
pub open spec fn mint_to_checks(ctx: MintTo, a: MintAuthority) -> Result<(), ErrorCode> {
    if a.lock@ != ctx.lock_key@ {
        Err(ErrorCode::RecordMismatch)
    } else if ctx.mint_authority@ != a.authority@ {
        Err(ErrorCode::Unauthorized)
    } else if ctx.to_token_acc_mint@ != ctx.lock.mint@ {
        Err(ErrorCode::RecordMismatch)
    } else if ctx.mint@ != ctx.lock.mint@ {
        Err(ErrorCode::RecordMismatch)
    } else if derived_address(ctx.lock.mint@, ctx.lock.bump, ctx.program_id@) != Some(
        ctx.lock_key@,
    ) {
        Err(ErrorCode::InvalidDerivation)
    } else {
        Ok(())
    }
}

/// The ledger action of a successful mint.
pub open spec fn mint_action(ctx: MintTo, amount: u64) -> MintAction {
    MintAction {
        mint: ctx.lock.mint,
        to: ctx.to_token_acc,
        amount,
        signer_seed: ctx.lock.mint,
        signer_bump: ctx.lock.bump,
    }
}

/// What `mint_to` returns: after the account checks, the record must be
/// enabled, and the amount must fit in the daily allowance that remains
/// after the lazy day rollover.
pub open spec fn mint_to_result(ctx: MintTo, a: MintAuthority, amount: u64, current_day: u32) -> Result<
    MintAction,
    ErrorCode,
> {
    match mint_to_checks(ctx, a) {
        Err(e) => Err(e),
        Ok(()) => if !a.is_enabled {
            Err(ErrorCode::AuthorityDisabled)
        } else if quota_minted(a, current_day) + amount > a.max_mint_per_day {
            Err(ErrorCode::QuotaExceeded)
        } else {
            Ok(mint_action(ctx, amount))
        },
    }
}

/// The capability after a `mint_to` call: advanced by the quota step on
/// success, untouched on any failure.
pub open spec fn mint_to_state(ctx: MintTo, a: MintAuthority, amount: u64, current_day: u32) -> MintAuthority {
    if mint_to_result(ctx, a, amount, current_day) is Ok {
        quota_step(a, amount, current_day)
    } else {
        a
    }
}

/// Mints `amount` base units to the destination under a capability,
/// enforcing enablement and the daily quota. The day rollover is lazy: a
/// stale tracked day resets the accumulator before the quota check, and the
/// reset is retained only if the mint succeeds.
pub fn mint_to(
    ctx: &MintTo,
    mint_authority_acc: &mut MintAuthority,
    amount: u64,
    current_day: u32,
) -> (r: Result<MintAction, ErrorCode>)
    ensures
        r == mint_to_result(*ctx, *old(mint_authority_acc), amount, current_day),
        *final(mint_authority_acc) == mint_to_state(
            *ctx,
            *old(mint_authority_acc),
            amount,
            current_day,
        ),
        r is Err ==> *final(mint_authority_acc) == *old(mint_authority_acc),
        r is Ok ==> quota_accepts(*old(mint_authority_acc), amount, current_day),
        r is Ok ==> final(mint_authority_acc).minted_today == quota_minted(
            *old(mint_authority_acc),
            current_day,
        ) + amount,
        r is Ok ==> final(mint_authority_acc).quota_invariant(current_day),
{
    if !addr_eq(&mint_authority_acc.lock, &ctx.lock_key) {
        return Err(ErrorCode::RecordMismatch);
    }
    if !addr_eq(&ctx.mint_authority, &mint_authority_acc.authority) {
        return Err(ErrorCode::Unauthorized);
    }
    if !addr_eq(&ctx.to_token_acc_mint, &ctx.lock.mint) {
        return Err(ErrorCode::RecordMismatch);
    }
    if !addr_eq(&ctx.mint, &ctx.lock.mint) {
        return Err(ErrorCode::RecordMismatch);
    }
    if !check_derived(&ctx.lock.mint, ctx.lock.bump, &ctx.program_id, &ctx.lock_key) {
        return Err(ErrorCode::InvalidDerivation);
    }
    if !mint_authority_acc.is_enabled {
        return Err(ErrorCode::AuthorityDisabled);
    }
    let minted: u64 = if mint_authority_acc.last_days_since_unix_epoch == current_day {
        mint_authority_acc.minted_today
    } else {
        0
    };
    match amount.checked_add(minted) {
        None => Err(ErrorCode::QuotaExceeded),
        Some(total) => {
            if total > mint_authority_acc.max_mint_per_day {
                return Err(ErrorCode::QuotaExceeded);
            }
            mint_authority_acc.minted_today = total;
            mint_authority_acc.last_days_since_unix_epoch = current_day;
            Ok(
                MintAction {
                    mint: ctx.lock.mint,
                    to: ctx.to_token_acc,
                    amount,
                    signer_seed: ctx.lock.mint,
                    signer_bump: ctx.lock.bump,
                },
            )
        },
    }
}

/// The day index of a ledger timestamp: whole days since the fixed epoch.
pub fn calc_days_since_unix_epoch(unix_timestamp: i64) -> (r: u32)
    requires
        0 <= unix_timestamp,
        unix_timestamp / 86400 <= u32::MAX,
    ensures
        r == unix_timestamp / 86400,
{
    (unix_timestamp / 86400) as u32
}

} // verus!
