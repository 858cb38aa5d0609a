use vstd::prelude::*;
use crate::errors::MochiError;

verus! {

/// Basis-point denominator: 10000 basis points are the whole.
pub const BPS_DENOMINATOR: u64 = 10000;

/// Truncating basis-point share of an amount.
pub open spec fn spec_bps_apply(amount: int, bps: int) -> int {
    (amount * bps) / (BPS_DENOMINATOR as int)
}

/// Sum of a price list.
pub open spec fn spec_sum(s: Seq<u64>) -> int
    decreases s.len(),
{
    if s.len() == 0 {
        0
    } else {
        spec_sum(s.drop_last()) + s.last()
    }
}

/// A prefix of a price list never sums to more than the whole list.
pub proof fn lemma_sum_take_le(s: Seq<u64>, i: int)
    requires
        0 <= i <= s.len(),
    ensures
        spec_sum(s.take(i)) <= spec_sum(s),
    decreases s.len() - i,
{
    if i < s.len() {
        lemma_sum_take_le(s, i + 1);
        assert(s.take(i + 1).drop_last() =~= s.take(i));
        assert(spec_sum(s.take(i + 1)) == spec_sum(s.take(i)) + s[i]);
    } else {
        assert(s.take(i) =~= s);
    }
}

/// Truncating basis-point share of `amount`, with the same overflow rule as
/// a checked widening multiply into the 64-bit range: the product
/// `amount * bps` must itself fit in a `u64`.
pub fn apply_bps(amount: u64, bps: u16) -> (r: Result<u64, MochiError>)
    ensures
        r matches Ok(p) ==> p == spec_bps_apply(amount as int, bps as int)
            && amount as int * bps as int <= u64::MAX,
        r is Err <==> amount as int * bps as int > u64::MAX,
        r is Err ==> r == Err::<u64, MochiError>(MochiError::MathOverflow),
{
    proof {
        assert(amount as int * bps as int <= u64::MAX as int * u16::MAX as int)
            by (nonlinear_arith)
            requires
                amount <= u64::MAX,
                bps <= u16::MAX,
        ;
    }
    let product: u128 = (amount as u128) * (bps as u128);
    if product > u64::MAX as u128 {
        Err(MochiError::MathOverflow)
    } else {
        let payout: u128 = product / (BPS_DENOMINATOR as u128);
        Ok(payout as u64)
    }
}

/// Checked sum of a price list: overflows exactly when the mathematical sum
/// leaves the 64-bit range.
pub fn sum_prices(prices: &Vec<u64>) -> (r: Result<u64, MochiError>)
    ensures
        r matches Ok(t) ==> t == spec_sum(prices@),
        r is Err <==> spec_sum(prices@) > u64::MAX,
        r is Err ==> r == Err::<u64, MochiError>(MochiError::MathOverflow),
{
    let mut total: u64 = 0;
    let mut i: usize = 0;
    while i < prices.len()
        invariant
            0 <= i <= prices@.len(),
            total == spec_sum(prices@.take(i as int)),
        decreases prices@.len() - i,
    {
        proof {
            assert(prices@.take(i + 1).drop_last() =~= prices@.take(i as int));
            assert(spec_sum(prices@.take(i + 1)) == total + prices@[i as int]);
        }
        let p = prices[i];
        if total > u64::MAX - p {
            proof {
                lemma_sum_take_le(prices@, i + 1);
            }
            return Err(MochiError::MathOverflow);
        }
        total = total + p;
        i = i + 1;
    }
    proof {
        assert(prices@.take(prices@.len() as int) =~= prices@);
    }
    Ok(total)
}

/// Checked signed addition, used to place the end of a decision window.
pub fn checked_add_i64(a: i64, b: i64) -> (r: Result<i64, MochiError>)
    ensures
        r matches Ok(t) ==> t == a + b,
        r is Err <==> !(i64::MIN <= a + b <= i64::MAX),
        r is Err ==> r == Err::<i64, MochiError>(MochiError::MathOverflow),
{
    if b >= 0 {
        if a > i64::MAX - b {
            Err(MochiError::MathOverflow)
        } else {
            Ok(a + b)
        }
    } else {
        if a < i64::MIN - b {
            Err(MochiError::MathOverflow)
        } else {
            Ok(a + b)
        }
    }
}

} // verus!
