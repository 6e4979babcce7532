//! Integer square roots: what the floor of a square root is, and the call
//! that computes it.

use num_integer::Roots;
use vstd::prelude::*;

verus! {

/// `root` is the largest number whose square does not exceed `n`.
pub open spec fn is_sqrt_floor(n: nat, root: nat) -> bool {
    root * root <= n < (root + 1) * (root + 1)
}

/// The floor of the square root of `n`.
pub open spec fn sqrt_floor(n: nat) -> nat {
    choose|root: nat| is_sqrt_floor(n, root)
}

proof fn lemma_square_grows(a: nat, b: nat)
    requires
        a <= b,
    ensures
        a * a <= b * b,
{
    assert(a * a <= b * b) by (nonlinear_arith)
        requires
            a <= b,
    ;
}

proof fn lemma_sqrt_floor_exists(n: nat)
    ensures
        exists|root: nat| is_sqrt_floor(n, root),
    decreases n,
{
    if n == 0 {
        assert(0nat * 0nat <= 0 < (0nat + 1) * (0nat + 1)) by (nonlinear_arith);
        assert(is_sqrt_floor(0, 0));
    } else {
        let before: nat = (n - 1) as nat;
        lemma_sqrt_floor_exists(before);
        let below: nat = choose|root: nat| is_sqrt_floor(before, root);
        if (below + 1) * (below + 1) <= n {
            assert((below + 1) * (below + 1) < (below + 2) * (below + 2)) by (nonlinear_arith);
            assert(is_sqrt_floor(n, below + 1));
        } else {
            assert(is_sqrt_floor(n, below));
        }
    }
}

/// Every number has a square root floor, and `sqrt_floor` is it.
pub proof fn lemma_sqrt_floor(n: nat)
    ensures
        is_sqrt_floor(n, sqrt_floor(n)),
{
    lemma_sqrt_floor_exists(n);
}

/// A number has one square root floor only.
pub proof fn lemma_sqrt_floor_unique(n: nat, root: nat)
    requires
        is_sqrt_floor(n, root),
    ensures
        root == sqrt_floor(n),
{
    lemma_sqrt_floor(n);
    let other = sqrt_floor(n);
    if root < other {
        lemma_square_grows(root + 1, other);
    }
    if other < root {
        lemma_square_grows(other + 1, root);
    }
}

/// A larger number has no smaller square root floor.
pub proof fn lemma_sqrt_floor_monotone(small: nat, large: nat)
    requires
        small <= large,
    ensures
        sqrt_floor(small) <= sqrt_floor(large),
{
    lemma_sqrt_floor(small);
    lemma_sqrt_floor(large);
    if sqrt_floor(large) < sqrt_floor(small) {
        lemma_square_grows(sqrt_floor(large) + 1, sqrt_floor(small));
    }
}

/// `num_integer::Roots::sqrt` on `u64`: the truncated square root, which the
/// crate documents as the `r` with `r * r <= x < (r + 1) * (r + 1)`.
#[verifier::external_body]
fn sqrt_u64(x: u64) -> (root: u64)
    ensures
        is_sqrt_floor(x as nat, root as nat),
{
    Roots::sqrt(&x)
}

/// The floor of the square root of `x`.
pub fn isqrt(x: u64) -> (root: u64)
    ensures
        root == sqrt_floor(x as nat),
        is_sqrt_floor(x as nat, root as nat),
{
    let root = sqrt_u64(x);
    proof {
        lemma_sqrt_floor_unique(x as nat, root as nat);
    }
    root
}

} // verus!
