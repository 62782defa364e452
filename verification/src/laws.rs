use vstd::prelude::*;
use crate::addr::derived_address;
use crate::ops::{MintTo, mint_to_checks, mint_to_result, mint_to_state, toggle_result};
use crate::records::{MintAuthority, quota_minted};

verus! {

/// The capability record after a sequence of mint calls against one account
/// set on one day: each call either succeeds and advances the record, or
/// fails and leaves it unchanged.
pub open spec fn run_mints(
    ctx: MintTo,
    a: MintAuthority,
    amounts: Seq<u64>,
    current_day: u32,
) -> MintAuthority
    decreases amounts.len(),
{
    if amounts.len() == 0 {
        a
    } else {
        let prev = run_mints(ctx, a, amounts.drop_last(), current_day);
        mint_to_state(ctx, prev, amounts.last(), current_day)
    }
}

/// The total of the amounts in `amounts` whose mint call succeeds.
pub open spec fn accepted_total(
    ctx: MintTo,
    a: MintAuthority,
    amounts: Seq<u64>,
    current_day: u32,
) -> int
    decreases amounts.len(),
{
    if amounts.len() == 0 {
        0
    } else {
        let prev = run_mints(ctx, a, amounts.drop_last(), current_day);
        accepted_total(ctx, a, amounts.drop_last(), current_day) + if mint_to_result(
            ctx,
            prev,
            amounts.last(),
            current_day,
        ) is Ok {
            amounts.last() as int
        } else {
            0
        }
    }
}

/// Quota monotonicity: over any sequence of same-day mint calls against one
/// authority, the accumulator tracks exactly the total of the successful
/// amounts, and that total never exceeds the daily ceiling.
pub proof fn lemma_quota_monotonic(
    ctx: MintTo,
    a: MintAuthority,
    amounts: Seq<u64>,
    current_day: u32,
)
    requires
        a.quota_invariant(current_day),
    ensures
        run_mints(ctx, a, amounts, current_day).max_mint_per_day == a.max_mint_per_day,
        run_mints(ctx, a, amounts, current_day).quota_invariant(current_day),
        quota_minted(run_mints(ctx, a, amounts, current_day), current_day) == quota_minted(
            a,
            current_day,
        ) + accepted_total(ctx, a, amounts, current_day),
        quota_minted(a, current_day) + accepted_total(ctx, a, amounts, current_day)
            <= a.max_mint_per_day,
        accepted_total(ctx, a, amounts, current_day) <= a.max_mint_per_day,
    decreases amounts.len(),
{
    if amounts.len() > 0 {
        lemma_quota_monotonic(ctx, a, amounts.drop_last(), current_day);
    }
}

/// Day rollover correctness: the first mint call of a new day succeeds for
/// any amount within the ceiling, regardless of the prior day's accumulated
/// total, and the accumulator restarts at exactly that amount.
pub proof fn lemma_day_rollover(ctx: MintTo, a: MintAuthority, amount: u64, current_day: u32)
    requires
        mint_to_checks(ctx, a) is Ok,
        a.is_enabled,
        a.last_days_since_unix_epoch != current_day,
        amount <= a.max_mint_per_day,
    ensures
        mint_to_result(ctx, a, amount, current_day) is Ok,
        mint_to_state(ctx, a, amount, current_day).minted_today == amount,
        mint_to_state(ctx, a, amount, current_day).last_days_since_unix_epoch == current_day,
{
}

/// Idempotent toggling: enabling an authority twice in a row is the same as
/// enabling it once; the flag ends up set and no other field changes.
pub proof fn lemma_toggle_idempotent(a: MintAuthority)
    ensures
        toggle_result(toggle_result(a, true), true) == toggle_result(a, true),
        toggle_result(a, true).is_enabled,
        toggle_result(a, true) == (MintAuthority { is_enabled: true, ..a }),
{
}

/// Derivation determinism: the address derived from one seed, offset and
/// program identity is the same in every computation of it.
pub proof fn lemma_derivation_deterministic(
    seed: Seq<u8>,
    bump: u8,
    program: Seq<u8>,
    r1: Option<Seq<u8>>,
    r2: Option<Seq<u8>>,
)
    requires
        r1 == derived_address(seed, bump, program),
        r2 == derived_address(seed, bump, program),
    ensures
        r1 == r2,
{
}

} // verus!
