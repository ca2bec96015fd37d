//! The 50/30/20 split of a vault's balance.

use vstd::prelude::*;

verus! {

/// The shares of a balance, each rounded down, and what rounding left over.
#[derive(Clone, Copy, Debug, PartialEq, Eq, Structural)]
pub struct Shares {
    pub w1: u64,
    pub w2: u64,
    pub w3: u64,
    pub remainder: u64,
}

/// `total * percent / 100`, rounded down.
pub open spec fn share(total: nat, percent: nat) -> nat {
    total * percent / 100
}

/// `total * percent / 100` rounded down, without forming `total * percent`.
fn percent_of(total: u64, percent: u64) -> (r: u64)
    requires
        percent <= 100,
    ensures
        r == share(total as nat, percent as nat),
{
    let q: u64 = total / 100;
    let m: u64 = total % 100;
    proof {
        assert(q * percent <= total) by (nonlinear_arith)
            requires
                q == total / 100,
                percent <= 100,
        ;
        assert(m * percent < 10000) by (nonlinear_arith)
            requires
                m < 100,
                percent <= 100,
        ;
        assert(q * percent + m * percent / 100 == total * percent / 100) by (nonlinear_arith)
            requires
                q == total / 100,
                m == total % 100,
        ;
        assert(total * percent / 100 <= total) by (nonlinear_arith)
            requires
                percent <= 100,
        ;
    }
    q * percent + m * percent / 100
}

/// Splits `total` 50/30/20 with floor division; the shares and the remainder
/// add up to `total`, and the remainder is at most 2.
pub fn split(total: u64) -> (r: Shares)
    ensures
        r.w1 == share(total as nat, 50),
        r.w2 == share(total as nat, 30),
        r.w3 == share(total as nat, 20),
        r.w1 + r.w2 + r.w3 + r.remainder == total,
        r.remainder <= 2,
{
    let w1 = percent_of(total, 50);
    let w2 = percent_of(total, 30);
    let w3 = percent_of(total, 20);
    assert(w1 + w2 + w3 <= total && total - (w1 + w2 + w3) <= 2) by (nonlinear_arith)
        requires
            w1 == total * 50 / 100,
            w2 == total * 30 / 100,
            w3 == total * 20 / 100,
    ;
    Shares { w1, w2, w3, remainder: total - w1 - w2 - w3 }
}

} // verus!
