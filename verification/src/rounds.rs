//! The game's fixed economy: entry bond, the five rounds' timing and pulse
//! costs, and the activity bonus earned by on-time pulse streaks.
use vstd::prelude::*;

verus! {

/// Entry bond: 50 XLM in stroops.
pub const ENTRY_BOND: i128 = 500000000;

/// Round durations, in ledgers (about 5 s per ledger).
pub const ROUND_1_DURATION: u32 = 51840;
pub const ROUND_2_DURATION: u32 = 34560;
pub const ROUND_3_DURATION: u32 = 17280;
pub const ROUND_4_DURATION: u32 = 8640;
pub const ROUND_5_DURATION: u32 = 4320;

/// Pulse periods, in ledgers.
pub const ROUND_1_PULSE_PERIOD: u32 = 4320;
pub const ROUND_2_PULSE_PERIOD: u32 = 2160;
pub const ROUND_3_PULSE_PERIOD: u32 = 720;
pub const ROUND_4_PULSE_PERIOD: u32 = 360;
pub const ROUND_5_PULSE_PERIOD: u32 = 180;

/// Grace periods, in ledgers.
pub const ROUND_1_GRACE: u32 = 720;
pub const ROUND_2_GRACE: u32 = 360;
pub const ROUND_3_GRACE: u32 = 180;
pub const ROUND_4_GRACE: u32 = 120;
pub const ROUND_5_GRACE: u32 = 60;

/// Pulse costs, in stroops.
pub const ROUND_1_COST: i128 = 5000000;
pub const ROUND_2_COST: i128 = 10000000;
pub const ROUND_3_COST: i128 = 20000000;
pub const ROUND_4_COST: i128 = 30000000;
pub const ROUND_5_COST: i128 = 50000000;

/// Activity points earned by an on-time pulse that brings the streak to
/// `streak`.
pub open spec fn streak_bonus_spec(streak: u32) -> u64 {
    if streak <= 9 {
        10
    } else if streak <= 24 {
        11
    } else if streak <= 49 {
        12
    } else if streak <= 99 {
        15
    } else {
        20
    }
}

/// Activity points for a streak: 10 up to 9, 11 up to 24, 12 up to 49,
/// 15 up to 99, 20 from 100 on.
pub fn streak_bonus(streak: u32) -> (bonus: u64)
    ensures
        bonus == streak_bonus_spec(streak),
{
    if streak <= 9 {
        10
    } else if streak <= 24 {
        11
    } else if streak <= 49 {
        12
    } else if streak <= 99 {
        15
    } else {
        20
    }
}

/// A longer streak never earns fewer points, and every on-time pulse earns
/// between 10 and 20.
pub proof fn law_streak_bonus_monotone(a: u32, b: u32)
    requires
        a <= b,
    ensures
        streak_bonus_spec(a) <= streak_bonus_spec(b),
        10 <= streak_bonus_spec(a) <= 20,
{
}

/// Rust's `/` on signed integers by a positive divisor: rounds toward zero.
pub open spec fn trunc_div(x: int, d: int) -> int {
    if x >= 0 {
        x / d
    } else {
        -((-x) / d)
    }
}

/// `x` fits in an `i128`.
pub open spec fn fits_i128(x: int) -> bool {
    i128::MIN <= x <= i128::MAX
}

/// `amount * num / den` as the contracts compute it with checked
/// multiplication followed by truncating division; `None` when the
/// product overflows.
pub open spec fn scaled_share(amount: int, num: int, den: int) -> Option<int> {
    if fits_i128(amount * num) {
        Some(trunc_div(amount * num, den))
    } else {
        None
    }
}

/// `amount * num / den` with overflow checking, as both contracts write it:
/// `checked_mul` then `checked_div`.
pub fn checked_scale(amount: i128, num: i128, den: i128) -> (r: Option<i128>)
    requires
        den > 0,
        num > 0,
    ensures
        match scaled_share(amount as int, num as int, den as int) {
            Some(v) => r == Some(v as i128),
            None => r is None,
        },
        r matches Some(v) ==> v as int == trunc_div(amount * num, den as int),
{
    match amount.checked_mul(num) {
        None => None,
        Some(p) => {
            assert(fits_i128(trunc_div(p as int, den as int))) by (nonlinear_arith)
                requires
                    fits_i128(p as int),
                    den > 0,
            {
                let x = p as int;
                let d = den as int;
                if x >= 0 {
                    assert(x / d <= x);
                } else {
                    assert((-x) / d <= -x);
                }
            }
            p.checked_div(den)
        },
    }
}

} // verus!

verus! {

/// Withdrawal split: the 80% refund is four fifths and the 20% contribution
/// one fifth of the balance (rounded down); together they give the balance
/// back whole when it is a multiple of 5, one stroop short otherwise.
pub proof fn law_withdrawal_split(balance: int)
    requires
        0 <= balance,
    ensures
        trunc_div(balance * 80, 100) == balance * 4 / 5,
        trunc_div(balance * 20, 100) == balance / 5,
        trunc_div(balance * 80, 100) + trunc_div(balance * 20, 100) == balance - if balance % 5
            == 0 {
            0int
        } else {
            1int
        },
{
}

/// Pulse split: the protocol fee and the prize contribution are each 5% of
/// the cost and the rent 90% (rounded down); the three parts fall short of
/// the cost by at most 2 stroops, and by none when the cost is a multiple
/// of 20.
pub proof fn law_pulse_split(cost: int)
    requires
        0 <= cost,
    ensures
        trunc_div(cost * 5, 100) == cost / 20,
        cost - 2 <= trunc_div(cost * 5, 100) + trunc_div(cost * 5, 100) + trunc_div(cost * 90, 100)
            <= cost,
        cost % 20 == 0 ==> trunc_div(cost * 5, 100) + trunc_div(cost * 5, 100) + trunc_div(
            cost * 90,
            100,
        ) == cost,
{
}

/// The registry's 500 basis points of a pulse are the agent's 5%, for every
/// amount, negative ones included.
pub proof fn law_basis_points_match_percent(amount: int)
    ensures
        trunc_div(amount * 500, 10000) == trunc_div(amount * 5, 100),
{
}

} // verus!
