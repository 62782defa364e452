use vstd::prelude::*;
use crate::addr::{Address, addr_eq, check_derived, derived_address};
use crate::error::ErrorCode;
use crate::ops::{MintAction, MintTo, mint_to, mint_to_result, mint_to_state};
use crate::records::{MintAuthority, MintLock};

verus! {

/// The accounts a forwarding caller presents to invoke `mint_to` on behalf
/// of an authority holder. The forwarder holds no state: its right to mint
/// is that the capability's authority principal is an address derived under
/// the forwarder's own identity, for which it can synthesize a signature.
#[derive(Clone, Copy)]
pub struct MintCtx {
    /// The lock record, passed through to the lock program.
    pub lock: MintLock,
    /// The lock record's address.
    pub lock_key: Address,
    /// Address of the capability record: the seed of the forwarded signer.
    pub mint_authority_acc_key: Address,
    /// The account presented as the capability's authority principal.
    pub mint_authority: Address,
    /// Address of the destination asset account.
    pub to_token_acc: Address,
    /// The asset that destination account holds.
    pub to_token_acc_mint: Address,
    /// Address of the asset account presented.
    pub mint: Address,
    /// Identity of the program that owns lock records.
    pub mint_lock_program: Address,
    /// Identity of this forwarding program.
    pub program_id: Address,
}

/// The forwarder's own checks, in the order they are applied: the capability
/// must belong to the lock presented, the offset must derive the presented
/// signer from the capability's address under the forwarder's identity, and
/// that signer must be the capability's authority principal.
pub open spec fn faucet_checks(ctx: MintCtx, a: MintAuthority, authority_bump: u8) -> Result<
    (),
    ErrorCode,
> {
    if a.lock@ != ctx.lock_key@ {
        Err(ErrorCode::RecordMismatch)
    } else if derived_address(ctx.mint_authority_acc_key@, authority_bump, ctx.program_id@)
        != Some(ctx.mint_authority@) {
        Err(ErrorCode::InvalidDerivation)
    } else if ctx.mint_authority@ != a.authority@ {
        Err(ErrorCode::Unauthorized)
    } else {
        Ok(())
    }
}

/// The account set the forwarder hands to the lock program, unchanged but
/// for presenting its derived signer as the requesting authority.
pub open spec fn forwarded(ctx: MintCtx) -> MintTo {
    MintTo {
        lock: ctx.lock,
        lock_key: ctx.lock_key,
        mint_authority: ctx.mint_authority,
        to_token_acc: ctx.to_token_acc,
        to_token_acc_mint: ctx.to_token_acc_mint,
        mint: ctx.mint,
        program_id: ctx.mint_lock_program,
    }
}

/// Forwards a mint request to the lock program, re-presenting the lock's
/// derived signature. The forwarder applies no quota logic of its own: all
/// enforcement is the lock program's.
pub fn mint(
    ctx: &MintCtx,
    mint_authority_acc: &mut MintAuthority,
    amount: u64,
    authority_bump: u8,
    current_day: u32,
) -> (r: Result<MintAction, ErrorCode>)
    ensures
        faucet_checks(*ctx, *old(mint_authority_acc), authority_bump) matches Err(e) ==> r
            == Err::<MintAction, ErrorCode>(e) && *final(mint_authority_acc) == *old(
            mint_authority_acc,
        ),
        faucet_checks(*ctx, *old(mint_authority_acc), authority_bump) is Ok ==> r
            == mint_to_result(forwarded(*ctx), *old(mint_authority_acc), amount, current_day)
            && *final(mint_authority_acc) == mint_to_state(
            forwarded(*ctx),
            *old(mint_authority_acc),
            amount,
            current_day,
        ),
        r is Err ==> *final(mint_authority_acc) == *old(mint_authority_acc),
{
    if !addr_eq(&mint_authority_acc.lock, &ctx.lock_key) {
        return Err(ErrorCode::RecordMismatch);
    }
    if !check_derived(
        &ctx.mint_authority_acc_key,
        authority_bump,
        &ctx.program_id,
        &ctx.mint_authority,
    ) {
        return Err(ErrorCode::InvalidDerivation);
    }
    if !addr_eq(&ctx.mint_authority, &mint_authority_acc.authority) {
        return Err(ErrorCode::Unauthorized);
    }
    let fwd = MintTo {
        lock: ctx.lock,
        lock_key: ctx.lock_key,
        mint_authority: ctx.mint_authority,
        to_token_acc: ctx.to_token_acc,
        to_token_acc_mint: ctx.to_token_acc_mint,
        mint: ctx.mint,
        program_id: ctx.mint_lock_program,
    };
    mint_to(&fwd, mint_authority_acc, amount, current_day)
}

} // verus!
