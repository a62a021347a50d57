//! Small verified arithmetic helpers: the integer square root used for the
//! pressure-to-brightness curve.

use vstd::prelude::*;

verus! {

/// `r` is the integer square root of `n`.
pub open spec fn is_isqrt(r: int, n: int) -> bool {
    r * r <= n < (r + 1) * (r + 1)
}

/// The integer square root, largest `r` with `r * r <= n`.
pub open spec fn spec_isqrt(n: nat) -> nat
    decreases n,
{
    if n == 0 {
        0
    } else {
        let r = spec_isqrt((n - 1) as nat);
        if (r + 1) * (r + 1) <= n {
            r + 1
        } else {
            r
        }
    }
}

/// `spec_isqrt` meets its characterisation.
pub proof fn lemma_isqrt_is_isqrt(n: nat)
    ensures
        is_isqrt(spec_isqrt(n) as int, n as int),
    decreases n,
{
    if n > 0 {
        lemma_isqrt_is_isqrt((n - 1) as nat);
        let r = spec_isqrt((n - 1) as nat);
        if (r + 1) * (r + 1) <= n {
            assert(n - 1 < (r + 1) * (r + 1));
            assert((r + 2) * (r + 2) > (r + 1) * (r + 1)) by (nonlinear_arith);
        }
    }
}

/// The characterisation pins the root down.
pub proof fn lemma_isqrt_unique(a: int, b: int, n: int)
    requires
        a >= 0,
        b >= 0,
        is_isqrt(a, n),
        is_isqrt(b, n),
    ensures
        a == b,
{
    if a < b {
        assert((a + 1) * (a + 1) <= b * b) by (nonlinear_arith)
            requires
                0 <= a,
                a + 1 <= b,
        ;
    }
    if b < a {
        assert((b + 1) * (b + 1) <= a * a) by (nonlinear_arith)
            requires
                0 <= b,
                b + 1 <= a,
        ;
    }
}

/// Integer square root by upward search.
pub fn isqrt(n: u64) -> (r: u64)
    requires
        n <= 0xFFFF_FFFF,
    ensures
        r == spec_isqrt(n as nat),
        is_isqrt(r as int, n as int),
{
    let mut r: u64 = 0;
    loop
        invariant
            n <= 0xFFFF_FFFF,
            r <= 0x1_0000,
            r <= n,
            r * r <= n,
        ensures
            r * r <= n < (r + 1) * (r + 1),
        decreases n - r,
    {
        proof {
            assert((r + 1) * (r + 1) <= 0x1_0001 * 0x1_0001) by (nonlinear_arith)
                requires
                    r <= 0x1_0000u64,
            ;
        }
        let next = (r + 1) * (r + 1);
        if next > n {
            break;
        }
        proof {
            assert(r + 1 <= 0x1_0000 && r + 1 <= n) by (nonlinear_arith)
                requires
                    (r + 1) * (r + 1) <= n,
                    n <= 0xFFFF_FFFFu64,
            ;
        }
        r = r + 1;
    }
    proof {
        lemma_isqrt_is_isqrt(n as nat);
        lemma_isqrt_unique(r as int, spec_isqrt(n as nat) as int, n as int);
    }
    r
}

} // verus!
