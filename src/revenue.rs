//! Splitting an install payment between the plugin's creator and the burn.

use crate::economy::{install_cost, valid_tier};
use vstd::prelude::*;

verus! {

/// The creator's part of a payment of `cost` at `creator_share_bps` basis
/// points, rounded down.
pub open spec fn creator_amount(cost: int, creator_share_bps: int) -> int {
    cost * creator_share_bps / 10000
}

/// The part of a payment of `cost` that is burned: all that the creator does
/// not receive.
pub open spec fn burn_amount(cost: int, creator_share_bps: int) -> int {
    cost - creator_amount(cost, creator_share_bps)
}

/// Splits a payment of `cost` into the creator's amount and the burned amount.
pub fn split_install_payment(cost: u64, creator_share_bps: u16) -> (r: (u64, u64))
    requires
        creator_share_bps <= 10000,
    ensures
        r.0 == creator_amount(cost as int, creator_share_bps as int),
        r.1 == burn_amount(cost as int, creator_share_bps as int),
        r.0 + r.1 == cost,
{
    let wide_cost = cost as u128;
    let wide_share = creator_share_bps as u128;
    assert(wide_cost * wide_share <= 0xffff_ffff_ffff_ffffu128 * 10000) by (nonlinear_arith)
        requires
            wide_cost <= 0xffff_ffff_ffff_ffffu128,
            wide_share <= 10000,
    ;
    proof {
        lemma_split_parts_bounded(cost as int, creator_share_bps as int);
    }
    let creator = (wide_cost * wide_share / 10000) as u64;
    let burn = cost - creator;
    (creator, burn)
}

/// Both parts of a split are between zero and the whole payment.
pub proof fn lemma_split_parts_bounded(cost: int, creator_share_bps: int)
    requires
        cost >= 0,
        0 <= creator_share_bps <= 10000,
    ensures
        0 <= creator_amount(cost, creator_share_bps) <= cost,
        0 <= burn_amount(cost, creator_share_bps) <= cost,
{
    assert(0 <= cost * creator_share_bps <= cost * 10000) by (nonlinear_arith)
        requires
            cost >= 0,
            0 <= creator_share_bps <= 10000,
    ;
    assert(cost * creator_share_bps / 10000 <= cost) by (nonlinear_arith)
        requires
            0 <= cost * creator_share_bps <= cost * 10000,
    ;
    assert(cost * creator_share_bps / 10000 >= 0) by (nonlinear_arith)
        requires
            0 <= cost * creator_share_bps,
    ;
}

/// Every install payment is split with nothing lost: for any tier and any
/// creator share from 0 to 10000 basis points, the creator's amount and the
/// burned amount add up to exactly the tier's install cost, and neither is
/// negative.
pub proof fn lemma_revenue_split_exact(tier: int, creator_share_bps: int)
    requires
        valid_tier(tier),
        0 <= creator_share_bps <= 10000,
    ensures
        creator_amount(install_cost(tier), creator_share_bps) + burn_amount(install_cost(tier), creator_share_bps)
            == install_cost(tier),
        creator_amount(install_cost(tier), creator_share_bps) >= 0,
        burn_amount(install_cost(tier), creator_share_bps) >= 0,
{
    lemma_split_parts_bounded(install_cost(tier), creator_share_bps);
}

} // verus!
