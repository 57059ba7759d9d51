//! Numeric policy: decimal scaling and the proved transfer range.
//!
//! All user-facing amounts are scaled by the mint's decimal exponent before
//! any encryption or proof generation, so the rest of the protocol works on
//! base units only.  Transferred amounts are proved to lie below `2^48`:
//! a transfer ciphertext splits its amount into a 16-bit low part and a
//! 32-bit high part, so larger amounts cannot be proved in range.

use vstd::prelude::*;

verus! {

/// Amounts moved by a confidential transfer must lie strictly below this
/// bound (`2^48`), the largest value the split transfer ciphertext can carry.
pub const TRANSFER_AMOUNT_BOUND: u64 = 0x1_0000_0000_0000;

/// `10^e`, the factor a mint with `e` decimals scales user amounts by.
pub open spec fn pow10(e: nat) -> nat
    decreases e,
{
    if e == 0 {
        1
    } else {
        10 * pow10((e - 1) as nat)
    }
}

proof fn lemma_pow10_monotonic(a: nat, b: nat)
    requires
        a <= b,
    ensures
        pow10(a) <= pow10(b),
    decreases b,
{
    if a < b {
        lemma_pow10_monotonic(a, (b - 1) as nat);
        assert(pow10(b) == 10 * pow10((b - 1) as nat));
    }
}

/// Scale a user-facing amount to base units: `amount * 10^decimals`.
///
/// Returns `None` exactly when the scaled amount does not fit in 64 bits,
/// in which case no ciphertext or proof could carry it anyway.
pub fn scale_to_base_units(amount: u64, decimals: u8) -> (r: Option<u64>)
    ensures
        r is Some <==> amount * pow10(decimals as nat) <= u64::MAX,
        r is Some ==> r->0 == amount * pow10(decimals as nat),
{
    let mut scaled: u64 = amount;
    let mut i: u8 = 0;
    proof {
        assert(pow10(0) == 1);
        assert(amount * pow10(0) == amount) by (nonlinear_arith)
            requires
                pow10(0) == 1,
        ;
    }
    while i < decimals
        invariant
            i <= decimals,
            scaled == amount * pow10(i as nat),
        decreases decimals - i,
    {
        let next = scaled.checked_mul(10);
        match next {
            Some(v) => {
                proof {
                    assert(v == amount * pow10(i as nat) * 10);
                    assert(amount * pow10(i as nat) * 10 == amount * (pow10(i as nat) * 10))
                        by (nonlinear_arith);
                    assert(pow10((i + 1) as nat) == 10 * pow10(i as nat));
                }
                scaled = v;
            },
            None => {
                proof {
                    assert(amount * pow10(i as nat) * 10 > u64::MAX);
                    assert(amount * pow10(i as nat) * 10 == amount * (10 * pow10(i as nat)))
                        by (nonlinear_arith);
                    assert(amount * pow10((i + 1) as nat) > u64::MAX);
                    lemma_pow10_monotonic((i + 1) as nat, decimals as nat);
                    assert(amount * pow10((i + 1) as nat) <= amount * pow10(decimals as nat))
                        by (nonlinear_arith)
                        requires
                            pow10((i + 1) as nat) <= pow10(decimals as nat),
                            amount >= 0,
                    ;
                }
                return None;
            },
        }
        i = i + 1;
    }
    Some(scaled)
}

/// Whether `amount` (in base units) can be carried by a transfer ciphertext
/// and proved in range.
pub fn fits_transfer_range(amount: u64) -> (r: bool)
    ensures
        r <==> amount < TRANSFER_AMOUNT_BOUND,
{
    amount < TRANSFER_AMOUNT_BOUND
}

} // verus!
