use vstd::prelude::*;

verus! {

/// Scale of the reward rate: rates carry six decimal places.
pub const DECIMAL_REWARD: u32 = 6;

/// `10^DECIMAL_REWARD`.
pub const REWARD_RATE_SCALE: u64 = 1_000_000;

/// The 1-based index of the epoch that contains `now`.
pub open spec fn epoch_index(now: int, reward_period: int, start_at: int) -> int {
    (now - start_at) / reward_period + 1
}

/// Whether `get_current_payroll_index` can be evaluated without leaving `u64`.
pub open spec fn epoch_index_defined(now: u64, reward_period: u64, start_at: u64) -> bool {
    &&& reward_period > 0
    &&& start_at <= now
    &&& (now - start_at) / (reward_period as int) < u64::MAX
}

/// The time after which rewards of epoch `index` may be claimed.
pub open spec fn claimable_after(start_at: int, index: int, reward_period: int) -> int {
    start_at + index * reward_period
}

/// The reward rate of an epoch, scaled by `10^DECIMAL_REWARD`.
pub open spec fn reward_rate(total_deposited_power: int, total_reward_amount: int) -> int {
    if total_deposited_power == 0 {
        0
    } else {
        total_reward_amount * REWARD_RATE_SCALE / total_deposited_power
    }
}

/// The index of the epoch that contains `current_at`, counting from 1 at `start_at`.
pub fn get_current_payroll_index(current_at: u64, reward_period: u64, start_at: u64) -> (r: u64)
    requires
        epoch_index_defined(current_at, reward_period, start_at),
    ensures
        r == epoch_index(current_at as int, reward_period as int, start_at as int),
        r >= 1,
{
    ((current_at - start_at) / reward_period) + 1
}

/// `get_current_payroll_index` that reports, instead of failing, the inputs on which
/// the index is not defined (a zero period, a time before the start, an index past `u64`).
pub fn checked_payroll_index(current_at: u64, reward_period: u64, start_at: u64) -> (r: Option<u64>)
    ensures
        r is Some <==> epoch_index_defined(current_at, reward_period, start_at),
        r is Some ==> r->0 == epoch_index(current_at as int, reward_period as int, start_at as int),
{
    if reward_period == 0 || current_at < start_at {
        return None;
    }
    let q = (current_at - start_at) / reward_period;
    if q == u64::MAX {
        return None;
    }
    Some(get_current_payroll_index(current_at, reward_period, start_at))
}

/// The epoch after the one that contains `current_at`: the first epoch a deposit made
/// at `current_at` takes part in.
pub fn checked_next_payroll_index(current_at: u64, reward_period: u64, start_at: u64) -> (r: Option<u64>)
    ensures
        r is Some <==> epoch_index_defined(current_at, reward_period, start_at)
            && epoch_index(current_at as int, reward_period as int, start_at as int) < u64::MAX,
        r is Some ==> r->0 == epoch_index(current_at as int, reward_period as int, start_at as int) + 1,
{
    match checked_payroll_index(current_at, reward_period, start_at) {
        Some(i) => {
            if i == u64::MAX {
                None
            } else {
                Some(i + 1)
            }
        },
        None => None,
    }
}

/// `start_at + index * reward_period`, or `None` where it does not fit in `u64`.
pub fn checked_claimable_after(start_at: u64, index: u64, reward_period: u64) -> (r: Option<u64>)
    ensures
        r is Some <==> claimable_after(start_at as int, index as int, reward_period as int) <= u64::MAX,
        r is Some ==> r->0 == claimable_after(start_at as int, index as int, reward_period as int),
{
    proof {
        lemma_u64_product_fits(index, reward_period);
    }
    let p = (index as u128) * (reward_period as u128);
    let s = p + start_at as u128;
    if s > u64::MAX as u128 {
        None
    } else {
        Some(s as u64)
    }
}

/// The reward rate of an epoch: `floor(total_reward_amount * 10^6 / total_deposited_power)`,
/// and 0 for an epoch without deposited power.
pub fn recalculate_reward_rate(total_deposited_power: u64, total_reward_amount: u64) -> (r: u64)
    requires
        total_deposited_power == 0 || total_reward_amount * REWARD_RATE_SCALE <= u64::MAX,
    ensures
        r == reward_rate(total_deposited_power as int, total_reward_amount as int),
{
    if total_deposited_power == 0 {
        0
    } else {
        total_reward_amount * REWARD_RATE_SCALE / total_deposited_power
    }
}

/// The amount a position owes its holder for one epoch and reward token:
/// `floor(deposited_power * reward / scale)` less what was already paid, never below 0.
pub open spec fn owed_reward(deposited_power: int, reward: int, scale: int, already_paid: int) -> int {
    let share = if scale == 0 { 0 } else { deposited_power * reward / scale };
    if share > already_paid {
        share - already_paid
    } else {
        0
    }
}

/// The product of two `u64` values fits in `u128`.
proof fn lemma_u64_product_fits(a: u64, b: u64)
    ensures
        (a as int) * (b as int) <= u64::MAX as int * u64::MAX as int,
        u64::MAX as int * u64::MAX as int + u64::MAX as int <= u128::MAX as int,
{
    assert((a as int) * (b as int) <= u64::MAX as int * u64::MAX as int) by (nonlinear_arith)
        requires a <= u64::MAX, b <= u64::MAX, a >= 0, b >= 0;
}

/// The amount still owed on a share `floor(deposited_power * reward / scale)` of which
/// `already_paid` was paid, or `None` where that amount does not fit in `u64`.
/// A scale of 0 (an epoch without power) owes nothing.
pub fn compute_owed_reward(deposited_power: u64, reward: u64, scale: u64, already_paid: u64) -> (r: Option<u64>)
    ensures
        r is Some <==> owed_reward(deposited_power as int, reward as int, scale as int, already_paid as int) <= u64::MAX,
        r is Some ==> r->0 == owed_reward(deposited_power as int, reward as int, scale as int, already_paid as int),
{
    if scale == 0 {
        return Some(0);
    }
    proof {
        lemma_u64_product_fits(deposited_power, reward);
    }
    let prod = (deposited_power as u128) * (reward as u128);
    let share = prod / (scale as u128);
    if share > already_paid as u128 {
        let d = share - already_paid as u128;
        if d > u64::MAX as u128 {
            None
        } else {
            Some(d as u64)
        }
    } else {
        Some(0)
    }
}

/// The epoch index never decreases as time goes on, and it is at least 1.
pub proof fn lemma_epoch_index_monotonic(now1: u64, now2: u64, reward_period: u64, start_at: u64)
    requires
        reward_period > 0,
        start_at <= now1 <= now2,
    ensures
        1 <= epoch_index(now1 as int, reward_period as int, start_at as int),
        epoch_index(now1 as int, reward_period as int, start_at as int) <= epoch_index(
            now2 as int,
            reward_period as int,
            start_at as int,
        ),
{
    let a = now1 - start_at;
    let b = now2 - start_at;
    assert(0 <= (a as int) / (reward_period as int) <= (b as int) / (reward_period as int)) by (nonlinear_arith)
        requires 0 <= a <= b, reward_period > 0;
}

/// An epoch without deposited power has rate 0, and so has an epoch without reward.
pub proof fn lemma_reward_rate_zero(total_deposited_power: u64, total_reward_amount: u64)
    ensures
        reward_rate(0, total_reward_amount as int) == 0,
        reward_rate(total_deposited_power as int, 0) == 0,
{
}

} // verus!
