//! The plugin registry: creating plugin templates.

use crate::economy::{calculate_creation_cost, creation_cost, valid_tier};
use crate::errors::GameErrorCode;
use crate::state::{AccountKey, MAX_METADATA_URI_LEN, PlayerData, Plugin, TokenOp};
use vstd::prelude::*;
use vstd::string::StrSliceExecFns;

verus! {

/// The records a plugin creation touches: the creator, their record, the
/// registry entry being filled, and the time of creation.
#[derive(Debug, Clone, PartialEq, Eq)]
pub struct CreatePlugin {
    pub creator: AccountKey,
    pub player_data: PlayerData,
    pub plugin: Plugin,
    pub now: i64,
}

/// Why creating a plugin with these arguments is refused, if it is.
pub open spec fn create_error(
    c: CreatePlugin,
    tier: int,
    metadata_uri: Seq<char>,
    creator_share_bps: int,
) -> Option<GameErrorCode> {
    if !valid_tier(tier) {
        Some(GameErrorCode::InvalidTier)
    } else if metadata_uri.len() > MAX_METADATA_URI_LEN {
        Some(GameErrorCode::MetadataUriTooLong)
    } else if creator_share_bps > 10000 {
        Some(GameErrorCode::InvalidRevenueShare)
    } else if c.player_data.plugin_global_counter == u64::MAX {
        Some(GameErrorCode::Overflow)
    } else {
        None
    }
}

/// Creates a plugin template of `tier`, charging its creation cost.
///
/// On success the new entry takes its id from the creator's counter, which
/// then advances by one; its counters start at zero, its burn share is the
/// rest of the creator share, and the returned list holds the burn of the
/// creation cost from the creator. On failure nothing changes.
pub fn create_plugin(
    ctx: &mut CreatePlugin,
    tier: u8,
    metadata_uri: String,
    creator_share_bps: u16,
) -> (r: Result<Vec<TokenOp>, GameErrorCode>)
    requires
        old(ctx).player_data.wf(),
    ensures
        match r {
            Ok(ops) => {
                &&& create_error(*old(ctx), tier as int, metadata_uri@, creator_share_bps as int) is None
                &&& final(ctx).creator == old(ctx).creator
                &&& final(ctx).now == old(ctx).now
                &&& final(ctx).player_data == (PlayerData {
                    plugin_global_counter: (old(ctx).player_data.plugin_global_counter + 1) as u64,
                    ..old(ctx).player_data
                })
                &&& final(ctx).plugin.plugin_id == old(ctx).player_data.plugin_global_counter
                &&& final(ctx).plugin.creator == old(ctx).creator
                &&& final(ctx).plugin.tier == tier
                &&& final(ctx).plugin.metadata_uri@ == metadata_uri@
                &&& final(ctx).plugin.total_installs == 0
                &&& final(ctx).plugin.creator_earnings == 0
                &&& final(ctx).plugin.created_at == old(ctx).now
                &&& final(ctx).plugin.creator_share_bps == creator_share_bps
                &&& final(ctx).plugin.burn_share_bps == 10000 - creator_share_bps
                &&& final(ctx).plugin.wf()
                &&& ops@ == seq![TokenOp::Burn { from: old(ctx).creator, amount: creation_cost(tier as int) as u64 }]
            },
            Err(e) => {
                &&& create_error(*old(ctx), tier as int, metadata_uri@, creator_share_bps as int) == Some(e)
                &&& *final(ctx) == *old(ctx)
            },
        },
        final(ctx).player_data.wf(),
{
    if tier < 1 || tier > 10 {
        return Err(GameErrorCode::InvalidTier);
    }
    if metadata_uri.as_str().unicode_len() > MAX_METADATA_URI_LEN {
        return Err(GameErrorCode::MetadataUriTooLong);
    }
    let burn_share_bps = 10000u16.saturating_sub(creator_share_bps);
    if creator_share_bps > 10000 {
        return Err(GameErrorCode::InvalidRevenueShare);
    }
    let cost = calculate_creation_cost(tier);
    let plugin_id = ctx.player_data.plugin_global_counter;
    let next_id = match plugin_id.checked_add(1) {
        Some(n) => n,
        None => {
            return Err(GameErrorCode::Overflow);
        },
    };
    let mut ops: Vec<TokenOp> = Vec::new();
    ops.push(TokenOp::Burn { from: ctx.creator, amount: cost });
    ctx.player_data.plugin_global_counter = next_id;
    ctx.plugin = Plugin {
        plugin_id,
        creator: ctx.creator,
        tier,
        metadata_uri,
        total_installs: 0,
        creator_earnings: 0,
        created_at: ctx.now,
        creator_share_bps,
        burn_share_bps,
    };
    proof {
        assert(ops@ =~= seq![TokenOp::Burn { from: old(ctx).creator, amount: creation_cost(tier as int) as u64 }]);
    }
    Ok(ops)
}

} // verus!
