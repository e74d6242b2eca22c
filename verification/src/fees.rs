//! Fee distribution ledger.
//!
//! At ride-request time the engine snapshots each party's payout share, in
//! basis points, into the job's distribution list. At settlement time each
//! party receives `floor(total_fee * basis_points / 10000)`; integer division
//! rounds down, so the parties together can never claim more than the escrowed
//! fee, and any rounding dust stays in escrow.

use vstd::prelude::*;
use crate::errors::ErrorCode;

verus! {

/// Basis points in one whole: 10_000 basis points are 100 per cent.
pub const BASIS_POINT_WHOLE: u16 = 10_000;

/// One party's share of a job's fee, fixed at ride-request time.
#[derive(Clone, Copy, Debug, PartialEq, Eq, Structural)]
pub struct Distribution {
    /// Identity of the infra account that receives this share.
    pub provider: u64,
    /// The share, in basis points of the job's total fee.
    pub basis_point_payout: u16,
}

/// What a party with `basis_point` basis points receives of `total_fee_cent`:
/// integer floor division, rounding in favour of the escrow.
pub open spec fn spec_payout(total_fee_cent: int, basis_point: int) -> int {
    total_fee_cent * basis_point / (BASIS_POINT_WHOLE as int)
}

/// Amount owed to a party holding `basis_point_payout` of `total_fee_cent`.
pub fn payout(total_fee_cent: u64, basis_point_payout: u16) -> (amount: u64)
    requires
        basis_point_payout <= BASIS_POINT_WHOLE,
    ensures
        amount == spec_payout(total_fee_cent as int, basis_point_payout as int),
        amount <= total_fee_cent,
{
    proof {
        lemma_payout_le_total(total_fee_cent as int, basis_point_payout as int);
    }
    let wide: u128 = (total_fee_cent as u128) * (basis_point_payout as u128);
    (wide / (BASIS_POINT_WHOLE as u128)) as u64
}

/// A share within one whole pays out at most the whole fee.
pub proof fn lemma_payout_le_total(total_fee_cent: int, basis_point: int)
    requires
        0 <= total_fee_cent,
        0 <= basis_point <= BASIS_POINT_WHOLE,
    ensures
        0 <= spec_payout(total_fee_cent, basis_point) <= total_fee_cent,
{
    let prod = total_fee_cent * basis_point;
    vstd::arithmetic::mul::lemma_mul_nonnegative(total_fee_cent, basis_point);
    vstd::arithmetic::mul::lemma_mul_inequality(basis_point, 10000, total_fee_cent);
    vstd::arithmetic::mul::lemma_mul_is_commutative(total_fee_cent, basis_point);
    vstd::arithmetic::mul::lemma_mul_is_commutative(total_fee_cent, 10000);
    assert(0 <= prod && prod <= total_fee_cent * 10000);
    assert(prod / 10000 <= (total_fee_cent * 10000) / 10000) by {
        vstd::arithmetic::div_mod::lemma_div_is_ordered(prod, total_fee_cent * 10000, 10000);
    }
    assert((total_fee_cent * 10000) / 10000 == total_fee_cent) by {
        vstd::arithmetic::div_mod::lemma_div_multiples_vanish(total_fee_cent, 10000);
    }
}

/// Two shares that together stay within one whole can together claim at most
/// the whole fee: the rounding dust is never negative, and the escrow is
/// never overclaimed.
pub proof fn lemma_payout_pair_conservation(total_fee_cent: int, bp_a: int, bp_b: int)
    requires
        0 <= total_fee_cent,
        0 <= bp_a,
        0 <= bp_b,
        bp_a + bp_b <= BASIS_POINT_WHOLE,
    ensures
        spec_payout(total_fee_cent, bp_a) + spec_payout(total_fee_cent, bp_b) <= total_fee_cent,
        0 <= spec_payout(total_fee_cent, bp_a),
        0 <= spec_payout(total_fee_cent, bp_b),
{
    let a = total_fee_cent * bp_a;
    let b = total_fee_cent * bp_b;
    vstd::arithmetic::mul::lemma_mul_nonnegative(total_fee_cent, bp_a);
    vstd::arithmetic::mul::lemma_mul_nonnegative(total_fee_cent, bp_b);
    vstd::arithmetic::mul::lemma_mul_is_distributive_add(total_fee_cent, bp_a, bp_b);
    vstd::arithmetic::mul::lemma_mul_inequality(bp_a + bp_b, 10000, total_fee_cent);
    vstd::arithmetic::mul::lemma_mul_is_commutative(total_fee_cent, bp_a + bp_b);
    vstd::arithmetic::mul::lemma_mul_is_commutative(total_fee_cent, 10000);
    assert(0 <= a && 0 <= b && a + b <= total_fee_cent * 10000);
    assert(a / 10000 + b / 10000 <= (a + b) / 10000);
    assert((a + b) / 10000 <= (total_fee_cent * 10000) / 10000) by {
        vstd::arithmetic::div_mod::lemma_div_is_ordered(a + b, total_fee_cent * 10000, 10000);
    }
    assert((total_fee_cent * 10000) / 10000 == total_fee_cent) by {
        vstd::arithmetic::div_mod::lemma_div_multiples_vanish(total_fee_cent, 10000);
    }
    lemma_payout_le_total(total_fee_cent, bp_a);
    lemma_payout_le_total(total_fee_cent, bp_b);
}

/// The share recorded for `provider`: the first matching entry, if any.
pub open spec fn spec_find_basis_points(entries: Seq<Distribution>, provider: u64) -> Option<u16>
    decreases entries.len(),
{
    if entries.len() == 0 {
        None
    } else if entries[0].provider == provider {
        Some(entries[0].basis_point_payout)
    } else {
        spec_find_basis_points(entries.drop_first(), provider)
    }
}

/// Looks up the share recorded for `provider` in a job's distribution list.
///
/// A missing entry signals a provider/job mismatch: a serious integrity
/// fault, not a user error.
pub fn find_basis_points(entries: &Vec<Distribution>, provider: u64) -> (r: Result<u16, ErrorCode>)
    ensures
        match r {
            Ok(bp) => spec_find_basis_points(entries@, provider) == Some(bp),
            Err(e) => e == ErrorCode::IntegrityFault
                && spec_find_basis_points(entries@, provider) is None,
        },
{
    let n = entries.len();
    proof {
        assert(entries@.skip(0) =~= entries@);
    }
    for i in 0..n
        invariant
            n == entries@.len(),
            spec_find_basis_points(entries@, provider) == spec_find_basis_points(
                entries@.skip(i as int),
                provider,
            ),
    {
        proof {
            assert(entries@.skip(i as int).drop_first() =~= entries@.skip(i + 1));
        }
        if entries[i].provider == provider {
            return Ok(entries[i].basis_point_payout);
        }
    }
    Err(ErrorCode::IntegrityFault)
}

/// Whether some entry records exactly this provider with exactly this share.
pub open spec fn spec_distribution_matches(
    entries: Seq<Distribution>,
    provider: u64,
    basis_point_payout: u16,
) -> bool {
    exists|i: int|
        0 <= i < entries.len() && entries[i].provider == provider
            && entries[i].basis_point_payout == basis_point_payout
}

/// Re-validates a snapshotted share against a live rate: true only when some
/// entry carries exactly this provider and exactly this share.
pub fn distribution_matches(
    entries: &Vec<Distribution>,
    provider: u64,
    basis_point_payout: u16,
) -> (r: bool)
    ensures
        r == spec_distribution_matches(entries@, provider, basis_point_payout),
{
    let n = entries.len();
    for i in 0..n
        invariant
            n == entries@.len(),
            forall|k: int|
                0 <= k < i ==> !(entries@[k].provider == provider
                    && entries@[k].basis_point_payout == basis_point_payout),
    {
        if entries[i].provider == provider && entries[i].basis_point_payout == basis_point_payout {
            return true;
        }
    }
    false
}

/// The two-party snapshot taken at ride-request time: the driver infra's
/// share first, the customer infra's share second.
pub open spec fn spec_snapshot(
    driver_provider: u64,
    driver_bp: u16,
    customer_provider: u64,
    customer_bp: u16,
) -> Seq<Distribution> {
    seq![
        Distribution { provider: driver_provider, basis_point_payout: driver_bp },
        Distribution { provider: customer_provider, basis_point_payout: customer_bp },
    ]
}

/// Snapshots both parties' current rates into a fresh distribution list.
pub fn snapshot(
    driver_provider: u64,
    driver_bp: u16,
    customer_provider: u64,
    customer_bp: u16,
) -> (d: Vec<Distribution>)
    ensures
        d@ =~= spec_snapshot(driver_provider, driver_bp, customer_provider, customer_bp),
{
    let mut d: Vec<Distribution> = Vec::new();
    d.push(Distribution { provider: driver_provider, basis_point_payout: driver_bp });
    d.push(Distribution { provider: customer_provider, basis_point_payout: customer_bp });
    d
}

} // verus!
