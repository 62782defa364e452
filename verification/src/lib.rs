//! A delegated, rate-limited minting-authority protocol.
//!
//! A `MintLock` record holds exclusive supply control over one asset and is
//! addressed by deterministic derivation from the asset identifier, so it can
//! sign without holding key material. It grants revocable, quota-bounded
//! `MintAuthority` capabilities to distinct principals; a daily quota state
//! machine gates every mint.

mod addr;
mod error;
mod faucet;
mod laws;
mod ops;
mod records;

pub use addr::{addr_eq, check_derived, derived_address, Address};
pub use error::ErrorCode;
pub use ops::{
    calc_days_since_unix_epoch, create_lock, create_lock_checks, create_lock_spec,
    create_mint_authority, create_mint_authority_spec, mint_action, mint_to, mint_to_checks,
    mint_to_result, mint_to_state, set_lock_admin, toggle_checks, toggle_mint_authority,
    toggle_result, CreateLock, CreateMintAuthority, MintAction, MintTo, SetAuthorityAction,
    SetLockAdmin, ToggleMintAuthority,
};
pub use faucet::{faucet_checks, forwarded, mint, MintCtx};
pub use laws::{
    accepted_total, lemma_day_rollover, lemma_derivation_deterministic, lemma_quota_monotonic,
    lemma_toggle_idempotent, run_mints,
};
pub use records::{quota_accepts, quota_minted, quota_step, MintAuthority, MintLock};
