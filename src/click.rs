//! Clicking: spending energy for a fixed mint of cookies.

use crate::errors::GameErrorCode;
use crate::state::{PlayerData, TokenOp};
use vstd::prelude::*;

verus! {

/// Energy a click spends.
pub const CLICK_ENERGY_COST: u64 = 5;

/// Cookies a click mints.
pub const CLICK_REWARD: u64 = 100;

/// The record a click touches: the clicking player's.
#[derive(Debug, Clone, PartialEq, Eq)]
pub struct OnClick {
    pub player: PlayerData,
}

/// Spends a click's energy and mints its reward to the player's wallet.
///
/// With less energy than a click costs the click is refused with
/// `NotEnoughEnergy` and nothing changes.
pub fn on_click(ctx: &mut OnClick) -> (r: Result<Vec<TokenOp>, GameErrorCode>)
    ensures
        match r {
            Ok(ops) => {
                &&& old(ctx).player.energy >= CLICK_ENERGY_COST
                &&& *final(ctx) == (OnClick {
                    player: PlayerData { energy: (old(ctx).player.energy - CLICK_ENERGY_COST) as u64, ..old(ctx).player },
                })
                &&& ops@ == seq![TokenOp::Mint { to: old(ctx).player.authority, amount: CLICK_REWARD }]
            },
            Err(e) => {
                &&& old(ctx).player.energy < CLICK_ENERGY_COST
                &&& e == GameErrorCode::NotEnoughEnergy
                &&& *final(ctx) == *old(ctx)
            },
        },
{
    if ctx.player.energy < CLICK_ENERGY_COST {
        return Err(GameErrorCode::NotEnoughEnergy);
    }
    ctx.player.energy = ctx.player.energy - CLICK_ENERGY_COST;
    let mut ops: Vec<TokenOp> = Vec::new();
    ops.push(TokenOp::Mint { to: ctx.player.authority, amount: CLICK_REWARD });
    proof {
        assert(ops@ =~= seq![TokenOp::Mint { to: old(ctx).player.authority, amount: CLICK_REWARD }]);
    }
    Ok(ops)
}

} // verus!
