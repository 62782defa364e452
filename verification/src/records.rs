use vstd::prelude::*;
use crate::addr::Address;

verus! {

/// The record holding exclusive supply control over one asset.
///
/// Its address is derived from `mint` and `bump` under the owning program's
/// identity, so it can act as a signer without holding key material.
#[derive(Clone, Copy)]
pub struct MintLock {
    /// Identifier of the asset whose supply this lock controls.
    pub mint: Address,
    /// Principal allowed to create and alter mint authorities and to
    /// reassign itself.
    pub admin: Address,
    /// The derivation offset that, combined with `mint`, reproduces the
    /// lock's own address.
    pub bump: u8,
}

/// A delegated, quota-bounded, revocable capability to request mints,
/// scoped to one lock.
#[derive(Clone, Copy)]
pub struct MintAuthority {
    /// Address of the owning lock record.
    pub lock: Address,
    /// External principal permitted to request mints under this record.
    pub authority: Address,
    /// Daily quota ceiling, in asset base units.
    pub max_mint_per_day: u64,
    /// When false, every mint request fails regardless of quota.
    pub is_enabled: bool,
    /// Base units minted since the start of the tracked day.
    pub minted_today: u64,
    /// The day index at which `minted_today` was last valid.
    pub last_days_since_unix_epoch: u32,
}

impl MintAuthority {
    /// The record's invariant: whenever the tracked day is the current one,
    /// the accumulator is within the quota. Freshly created records satisfy
    /// it, and every successful mint preserves it.
    pub open spec fn quota_invariant(self, current_day: u32) -> bool {
        self.last_days_since_unix_epoch == current_day ==> self.minted_today
            <= self.max_mint_per_day
    }
}

/// The accumulator as the quota check sees it: day rollover is lazy, so a
/// record whose tracked day is stale counts as having minted nothing yet.
pub open spec fn quota_minted(a: MintAuthority, current_day: u32) -> u64 {
    if a.last_days_since_unix_epoch == current_day {
        a.minted_today
    } else {
        0
    }
}

/// Whether the quota state machine accepts a mint of `amount` on
/// `current_day`: the record is enabled and the amount fits in the
/// remaining daily allowance.
pub open spec fn quota_accepts(a: MintAuthority, amount: u64, current_day: u32) -> bool {
    a.is_enabled && quota_minted(a, current_day) + amount <= a.max_mint_per_day
}

/// The record after a successful mint of `amount` on `current_day`: the
/// accumulator advances past the lazy rollover, and the tracked day is
/// brought current. No other field changes.
pub open spec fn quota_step(a: MintAuthority, amount: u64, current_day: u32) -> MintAuthority {
    MintAuthority {
        minted_today: (quota_minted(a, current_day) + amount) as u64,
        last_days_since_unix_epoch: current_day,
        ..a
    }
}

} // verus!
