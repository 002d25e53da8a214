//! Decimal rendering of unsigned values, as the C unsigned conversion
//! writes them: most significant digit first, no sign, no padding.
//!
//! The panic diagnostic uses this to print a source line number without
//! touching any formatting machinery.

use vstd::prelude::*;

verus! {

/// The ASCII decimal digits of `n`, most significant first.
pub open spec fn dec_bytes(n: nat) -> Seq<u8>
    decreases n,
{
    if n < 10 {
        seq![(48 + n) as u8]
    } else {
        dec_bytes(n / 10) + seq![(48 + n % 10) as u8]
    }
}

/// Ten raised to `k`, for digit-count bounds.
pub open spec fn pow10(k: nat) -> nat
    decreases k,
{
    if k == 0 {
        1
    } else {
        10 * pow10((k - 1) as nat)
    }
}

/// A value below ten to the `k` renders in at most `k` digits.
pub proof fn lemma_dec_bytes_len(n: nat, k: nat)
    requires
        k >= 1,
        n < pow10(k),
    ensures
        1 <= dec_bytes(n).len() <= k,
    decreases n,
{
    if n >= 10 {
        assert(k >= 2) by {
            if k == 1 {
                assert(pow10(1) == 10);
            }
        }
        assert(n / 10 < pow10((k - 1) as nat)) by {
            assert(pow10(k) == 10 * pow10((k - 1) as nat));
            assert(n < 10 * pow10((k - 1) as nat));
            assert(n / 10 < pow10((k - 1) as nat)) by (nonlinear_arith)
                requires
                    n < 10 * pow10((k - 1) as nat),
            ;
        }
        lemma_dec_bytes_len(n / 10, (k - 1) as nat);
    }
}

/// Renders `n` in decimal; at most ten digits for a 32-bit value.
pub fn u32_decimal(n: u32) -> (v: Vec<u8>)
    ensures
        v@ == dec_bytes(n as nat),
        1 <= v@.len() <= 10,
    decreases n,
{
    proof {
        assert(pow10(10) == 10000000000) by {
            reveal_with_fuel(pow10, 11);
        }
        lemma_dec_bytes_len(n as nat, 10);
    }
    if n < 10 {
        let mut v: Vec<u8> = Vec::new();
        v.push(48 + n as u8);
        proof {
            assert(v@ =~= dec_bytes(n as nat));
        }
        v
    } else {
        let mut v = u32_decimal(n / 10);
        v.push(48 + (n % 10) as u8);
        proof {
            assert(v@ =~= dec_bytes(n as nat));
        }
        v
    }
}

} // verus!
