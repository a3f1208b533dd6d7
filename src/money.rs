use vstd::prelude::*;

verus! {

/// An amount of money as a signed number of minor currency units (cents).
pub type Money = i64;

/// Basis points in one whole: a percentage rate is held in hundredths of a
/// percent, so 2.9% is 290.
pub const BASIS_POINTS_PER_WHOLE: u32 = 10000;

/// `amount * bps / 10000`, rounded to the nearest cent with halves rounded up.
pub open spec fn percent_round_half_up(amount: int, bps: int) -> int {
    (amount * bps + 5000) / 10000
}

/// Whether an integer fits the range of `Money`.
pub open spec fn fits_money(v: int) -> bool {
    i64::MIN <= v <= i64::MAX
}

/// The percentage `bps` (in basis points) of a non-negative amount, rounded
/// half up to a whole cent; `None` when that does not fit in `Money`.
pub fn apply_percent(amount: Money, bps: u32) -> (r: Option<Money>)
    requires
        amount >= 0,
    ensures
        r is Some <==> fits_money(percent_round_half_up(amount as int, bps as int)),
        r matches Some(v) ==> v == percent_round_half_up(amount as int, bps as int) && v >= 0,
{
    proof {
        assert(0 <= amount as int * bps as int <= i64::MAX as int * u32::MAX as int)
            by (nonlinear_arith)
            requires
                0 <= amount <= i64::MAX,
                0 <= bps <= u32::MAX,
        ;
    }
    let product: i128 = (amount as i128) * (bps as i128);
    let rounded: i128 = (product + 5000) / 10000;
    if rounded <= i64::MAX as i128 {
        Some(rounded as i64)
    } else {
        None
    }
}

} // verus!
