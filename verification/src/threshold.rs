//! Threshold rules over two counts: the tolerated share of faulty nodes and
//! the quorum of a vote.
//!
//! A bound is a fraction between zero and one, held exactly as a numerator
//! over a denominator, and every comparison is made on whole numbers. The
//! two rules answer differently when the total is zero, on purpose: with no
//! nodes no fault is out of bounds, and with no votes cast no quorum is met.
//! They are kept as two operations so that neither answer can leak into the
//! other.

use vstd::prelude::*;
use vstd::arithmetic::div_mod::lemma_fundamental_div_mod;

verus! {

/// Whether `numerator / denominator` is a fraction between zero and one.
pub open spec fn is_bound(numerator: nat, denominator: nat) -> bool {
    denominator > 0 && numerator <= denominator
}

/// Whether `faulty` out of `total` nodes stays within the bound
/// `numerator / denominator`: `faulty <= bound * total`, and always so with
/// no nodes at all.
pub open spec fn fault_tolerated(numerator: nat, denominator: nat, faulty: nat, total: nat) -> bool {
    total == 0 || faulty * denominator <= numerator * total
}

/// The largest whole number of faults within the bound: `bound * total`,
/// rounded down.
pub open spec fn fault_limit(numerator: nat, denominator: nat, total: nat) -> nat
    recommends
        denominator > 0,
{
    (numerator * total) / denominator
}

/// Whether `votes` out of `total` reach the bound `numerator / denominator`:
/// `votes / total >= bound`, and never so with no votes cast.
pub open spec fn quorum_met(numerator: nat, denominator: nat, votes: nat, total: nat) -> bool {
    total != 0 && votes * denominator >= numerator * total
}

/// Verifies whether the number of faulty nodes is within the tolerated
/// fraction of all nodes.
pub struct FaultToleranceChecker {
    numerator: u64,
    denominator: u64,
}

impl FaultToleranceChecker {
    #[verifier::type_invariant]
    spec fn well_formed(&self) -> bool {
        is_bound(self.numerator as nat, self.denominator as nat)
    }

    /// The numerator of the tolerated fraction.
    pub closed spec fn numerator(&self) -> nat {
        self.numerator as nat
    }

    /// The denominator of the tolerated fraction.
    pub closed spec fn denominator(&self) -> nat {
        self.denominator as nat
    }

    /// Creates a checker that tolerates the fraction
    /// `numerator / denominator` of faulty nodes. The fraction must lie
    /// between zero and one: no checker exists for any other.
    pub fn new(numerator: u64, denominator: u64) -> (r: Self)
        requires
            is_bound(numerator as nat, denominator as nat),
        ensures
            r.numerator() == numerator,
            r.denominator() == denominator,
    {
        FaultToleranceChecker { numerator, denominator }
    }

    /// Returns `true` if `faulty_nodes` is within the tolerated fraction of
    /// `total_nodes`. With no nodes at all the answer is `true`.
    pub fn is_tolerated(&self, faulty_nodes: usize, total_nodes: usize) -> (r: bool)
        ensures
            r == fault_tolerated(
                self.numerator(),
                self.denominator(),
                faulty_nodes as nat,
                total_nodes as nat,
            ),
            total_nodes == 0 ==> r,
    {
        if total_nodes == 0 {
            return true;
        }
        proof {
            use_type_invariant(self);
            lemma_product_fits(faulty_nodes as nat, self.denominator as nat);
            lemma_product_fits(self.numerator as nat, total_nodes as nat);
        }
        (faulty_nodes as u128) * (self.denominator as u128) <= (self.numerator as u128) * (
        total_nodes as u128)
    }
}

/// Determines whether a vote meets a required quorum.
pub struct GovQuorum {
    numerator: u64,
    denominator: u64,
}

impl GovQuorum {
    #[verifier::type_invariant]
    spec fn well_formed(&self) -> bool {
        is_bound(self.numerator as nat, self.denominator as nat)
    }

    /// The numerator of the required fraction.
    pub closed spec fn numerator(&self) -> nat {
        self.numerator as nat
    }

    /// The denominator of the required fraction.
    pub closed spec fn denominator(&self) -> nat {
        self.denominator as nat
    }

    /// Creates a quorum that requires the fraction `numerator / denominator`
    /// of the votes. The fraction must lie between zero and one: no quorum
    /// exists for any other.
    pub fn new(numerator: u64, denominator: u64) -> (r: Self)
        requires
            is_bound(numerator as nat, denominator as nat),
        ensures
            r.numerator() == numerator,
            r.denominator() == denominator,
    {
        GovQuorum { numerator, denominator }
    }

    /// Returns `true` if the ratio of `votes_for` to `total_votes` meets the
    /// requirement. With no votes cast the answer is `false`.
    pub fn has_quorum(&self, votes_for: u64, total_votes: u64) -> (r: bool)
        ensures
            r == quorum_met(
                self.numerator(),
                self.denominator(),
                votes_for as nat,
                total_votes as nat,
            ),
            total_votes == 0 ==> !r,
    {
        if total_votes == 0 {
            return false;
        }
        proof {
            use_type_invariant(self);
            lemma_product_fits(votes_for as nat, self.denominator as nat);
            lemma_product_fits(self.numerator as nat, total_votes as nat);
        }
        (votes_for as u128) * (self.denominator as u128) >= (self.numerator as u128) * (
        total_votes as u128)
    }
}

/// The product of two 64-bit numbers fits in 128 bits.
proof fn lemma_product_fits(a: nat, b: nat)
    requires
        a <= u64::MAX,
        b <= u64::MAX,
    ensures
        a * b <= u128::MAX,
{
    assert(a * b <= 0xffff_ffff_ffff_ffff * 0xffff_ffff_ffff_ffff) by (nonlinear_arith)
        requires
            a <= 0xffff_ffff_ffff_ffff,
            b <= 0xffff_ffff_ffff_ffff,
    ;
}

/// With at least one node, the tolerated numbers of faults are exactly those
/// up to the bound times the total, rounded down.
pub proof fn lemma_tolerated_iff_within_limit(
    numerator: nat,
    denominator: nat,
    faulty: nat,
    total: nat,
)
    requires
        is_bound(numerator, denominator),
        total > 0,
    ensures
        fault_tolerated(numerator, denominator, faulty, total) <==> faulty <= fault_limit(
            numerator,
            denominator,
            total,
        ),
{
    let product = numerator * total;
    let limit = fault_limit(numerator, denominator, total);
    lemma_fundamental_div_mod(product as int, denominator as int);
    if faulty <= limit {
        assert(faulty * denominator <= denominator * limit) by (nonlinear_arith)
            requires
                faulty <= limit,
        ;
    } else {
        assert(faulty * denominator >= denominator * limit + denominator) by (nonlinear_arith)
            requires
                faulty >= limit + 1,
        ;
    }
}

/// For every total: the bound times the total, rounded down, is a tolerated
/// number of faults, and one more than that, where so many nodes exist, is
/// not.
pub proof fn lemma_fault_limit_is_sharp(numerator: nat, denominator: nat, total: nat)
    requires
        is_bound(numerator, denominator),
    ensures
        fault_tolerated(
            numerator,
            denominator,
            fault_limit(numerator, denominator, total),
            total,
        ),
        fault_limit(numerator, denominator, total) + 1 <= total ==> !fault_tolerated(
            numerator,
            denominator,
            fault_limit(numerator, denominator, total) + 1,
            total,
        ),
{
    if total > 0 {
        let limit = fault_limit(numerator, denominator, total);
        lemma_tolerated_iff_within_limit(numerator, denominator, limit, total);
        lemma_tolerated_iff_within_limit(numerator, denominator, limit + 1, total);
    }
}

/// With no votes cast no quorum is met, whatever the votes in favour and
/// whatever the bound.
pub proof fn lemma_no_quorum_without_votes(numerator: nat, denominator: nat, votes: nat)
    ensures
        !quorum_met(numerator, denominator, votes, 0),
{
}

/// With no nodes every number of faults is tolerated, whatever the bound.
pub proof fn lemma_no_nodes_no_fault(numerator: nat, denominator: nat, faulty: nat)
    ensures
        fault_tolerated(numerator, denominator, faulty, 0),
{
}

} // verus!
