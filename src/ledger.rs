//! Tier unlocking: the per-player gate on which tiers may hold plugins.

use crate::economy::{calculate_unlock_cost, unlock_cost, valid_tier};
use crate::errors::GameErrorCode;
use crate::state::{burn_if_positive, has_tier, lemma_set_tier_bit, push_burn, AccountKey, PlayerData, TokenOp};
use vstd::prelude::*;

verus! {

/// The records an unlock touches: the paying player and their record.
#[derive(Debug, Clone, PartialEq, Eq)]
pub struct UnlockTier {
    pub player: AccountKey,
    pub player_data: PlayerData,
}

/// Why unlocking `tier` is refused, if it is.
pub open spec fn unlock_error(c: UnlockTier, tier: int) -> Option<GameErrorCode> {
    if !valid_tier(tier) {
        Some(GameErrorCode::InvalidTier)
    } else if has_tier(c.player_data.unlocked_tiers, tier) {
        Some(GameErrorCode::TierAlreadyUnlocked)
    } else {
        None
    }
}

/// The records after `tier` is unlocked.
pub open spec fn unlocked(c: UnlockTier, tier: int) -> UnlockTier {
    UnlockTier {
        player_data: PlayerData {
            unlocked_tiers: c.player_data.unlocked_tiers | (1u16 << ((tier - 1) as u16)),
            ..c.player_data
        },
        ..c
    }
}

/// Unlocks `tier` for the player, burning its unlock cost from them.
///
/// On success the tier's bit is set, every other tier keeps its state, and the
/// returned list holds the burn of the unlock cost (nothing for a free tier).
/// On failure nothing changes.
pub fn unlock_tier(ctx: &mut UnlockTier, tier: u8) -> (r: Result<Vec<TokenOp>, GameErrorCode>)
    requires
        old(ctx).player_data.wf(),
    ensures
        match r {
            Ok(ops) => {
                &&& unlock_error(*old(ctx), tier as int) is None
                &&& *final(ctx) == unlocked(*old(ctx), tier as int)
                &&& ops@ == burn_if_positive(old(ctx).player, unlock_cost(tier as int))
            },
            Err(e) => {
                &&& unlock_error(*old(ctx), tier as int) == Some(e)
                &&& *final(ctx) == *old(ctx)
            },
        },
        final(ctx).player_data.wf(),
        r is Ok ==> forall|t: int|
            #[trigger] has_tier(final(ctx).player_data.unlocked_tiers, t) == (t == tier || has_tier(
                old(ctx).player_data.unlocked_tiers,
                t,
            )),
        r is Ok ==> final(ctx).player_data.unlocked_tier_set() == old(
            ctx,
        ).player_data.unlocked_tier_set().insert(tier as int),
{
    if tier < 1 || tier > 10 {
        return Err(GameErrorCode::InvalidTier);
    }
    if ctx.player_data.is_tier_unlocked(tier) {
        return Err(GameErrorCode::TierAlreadyUnlocked);
    }
    let cost = calculate_unlock_cost(tier);
    let mut ops: Vec<TokenOp> = Vec::new();
    push_burn(&mut ops, ctx.player, cost);
    let old_mask = ctx.player_data.unlocked_tiers;
    ctx.player_data.unlocked_tiers = old_mask | (1u16 << (tier - 1));
    proof {
        assert(ops@ =~= burn_if_positive(old(ctx).player, unlock_cost(tier as int)));
        lemma_set_tier_bit(old_mask, tier as int, 1);
        assert forall|t: int| has_tier(ctx.player_data.unlocked_tiers, t) == (t == tier || has_tier(old_mask, t)) by {
            lemma_set_tier_bit(old_mask, tier as int, t);
        }
        assert(ctx.player_data.unlocked_tier_set() =~= old(ctx).player_data.unlocked_tier_set().insert(tier as int));
    }
    Ok(ops)
}

} // verus!
