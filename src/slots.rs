//! A player's plugin slots: installing, claiming and uninstalling.
//!
//! A slot is empty (plugin id 0) or occupied. Installing makes it occupied,
//! settling first whatever an occupied slot had accrued; claiming keeps it
//! occupied and restarts its clock; uninstalling settles and empties it.

use crate::economy::{accrued_amount, calculate_accumulated_cookies, calculate_install_cost, install_cost};
use crate::errors::GameErrorCode;
use crate::revenue::{burn_amount, creator_amount, split_install_payment};
use crate::state::{
    burn_if_positive, has_tier, mint_if_positive, push_burn, push_mint, AccountKey, PlayerData,
    PlayerPluginSlot, Plugin, TokenOp,
};
use vstd::prelude::*;

verus! {

/// What an occupied slot has accrued by `now`; nothing for an empty slot.
pub open spec fn settled_amount(slot: PlayerPluginSlot, now: int) -> int {
    if slot.plugin_id != 0 {
        accrued_amount(slot.tier as int, slot.last_claim as int, now)
    } else {
        0
    }
}

/// The records an install touches: the installing player, their record, the
/// plugin installed, the player's slot for the plugin's tier, and the time.
#[derive(Debug, Clone, PartialEq, Eq)]
pub struct InstallPlugin {
    pub player: AccountKey,
    pub player_data: PlayerData,
    pub plugin: Plugin,
    pub player_plugin_slot: PlayerPluginSlot,
    pub now: i64,
}

/// The creator's part of the install payment for `c`.
pub open spec fn install_creator_amount(c: InstallPlugin) -> int {
    creator_amount(install_cost(c.plugin.tier as int), c.plugin.creator_share_bps as int)
}

/// The burned part of the install payment for `c`.
pub open spec fn install_burn_amount(c: InstallPlugin) -> int {
    burn_amount(install_cost(c.plugin.tier as int), c.plugin.creator_share_bps as int)
}

/// Why the install `c` is refused, if it is.
pub open spec fn install_error(c: InstallPlugin) -> Option<GameErrorCode> {
    if !has_tier(c.player_data.unlocked_tiers, c.plugin.tier as int) {
        Some(GameErrorCode::TierNotUnlocked)
    } else if c.plugin.creator_earnings + install_creator_amount(c) > u64::MAX {
        Some(GameErrorCode::Overflow)
    } else if c.plugin.total_installs == u64::MAX {
        Some(GameErrorCode::Overflow)
    } else {
        None
    }
}

/// The records after the install `c`: the plugin counts one more install and
/// the creator's earnings, and the slot holds the plugin with a fresh clock.
pub open spec fn installed(c: InstallPlugin) -> InstallPlugin {
    InstallPlugin {
        plugin: Plugin {
            total_installs: (c.plugin.total_installs + 1) as u64,
            creator_earnings: (c.plugin.creator_earnings + install_creator_amount(c)) as u64,
            ..c.plugin
        },
        player_plugin_slot: PlayerPluginSlot {
            player: c.player,
            tier: c.plugin.tier,
            plugin_id: c.plugin.plugin_id,
            installed_at: c.now,
            last_claim: c.now,
            total_claimed: 0,
        },
        ..c
    }
}

/// The payment for the install `c`: the burn from the player, then the
/// creator's share minted to the creator.
pub open spec fn install_payment_ops(c: InstallPlugin) -> Seq<TokenOp> {
    burn_if_positive(c.player, install_burn_amount(c)) + mint_if_positive(c.plugin.creator, install_creator_amount(c))
}

/// The token movements of the install `c`: what the slot had accrued is
/// minted to the player first, then the payment follows.
pub open spec fn install_ops(c: InstallPlugin) -> Seq<TokenOp> {
    mint_if_positive(c.player, settled_amount(c.player_plugin_slot, c.now as int)) + install_payment_ops(c)
}

/// Installs the plugin into the player's slot for its tier.
///
/// On success the records become `installed` and the returned list is
/// `install_ops`. On failure nothing changes.
pub fn install_plugin(ctx: &mut InstallPlugin) -> (r: Result<Vec<TokenOp>, GameErrorCode>)
    requires
        old(ctx).plugin.wf(),
        old(ctx).player_plugin_slot.wf(),
    ensures
        match r {
            Ok(ops) => {
                &&& install_error(*old(ctx)) is None
                &&& *final(ctx) == installed(*old(ctx))
                &&& ops@ == install_ops(*old(ctx))
            },
            Err(e) => {
                &&& install_error(*old(ctx)) == Some(e)
                &&& *final(ctx) == *old(ctx)
            },
        },
        final(ctx).plugin.wf(),
        final(ctx).player_plugin_slot.wf(),
{
    let tier = ctx.plugin.tier;
    if !ctx.player_data.is_tier_unlocked(tier) {
        return Err(GameErrorCode::TierNotUnlocked);
    }
    let settled: u64 = if ctx.player_plugin_slot.plugin_id != 0 {
        calculate_accumulated_cookies(
            ctx.player_plugin_slot.tier,
            ctx.player_plugin_slot.last_claim,
            ctx.now,
        )
    } else {
        0
    };
    let cost = calculate_install_cost(tier);
    let (to_creator, to_burn) = split_install_payment(cost, ctx.plugin.creator_share_bps);
    let earnings = match ctx.plugin.creator_earnings.checked_add(to_creator) {
        Some(v) => v,
        None => {
            return Err(GameErrorCode::Overflow);
        },
    };
    let installs = match ctx.plugin.total_installs.checked_add(1) {
        Some(v) => v,
        None => {
            return Err(GameErrorCode::Overflow);
        },
    };
    let mut ops: Vec<TokenOp> = Vec::new();
    push_mint(&mut ops, ctx.player, settled);
    push_burn(&mut ops, ctx.player, to_burn);
    push_mint(&mut ops, ctx.plugin.creator, to_creator);
    ctx.plugin.creator_earnings = earnings;
    ctx.plugin.total_installs = installs;
    ctx.player_plugin_slot = PlayerPluginSlot {
        player: ctx.player,
        tier,
        plugin_id: ctx.plugin.plugin_id,
        installed_at: ctx.now,
        last_claim: ctx.now,
        total_claimed: 0,
    };
    proof {
        assert(ops@ =~= install_ops(*old(ctx)));
    }
    Ok(ops)
}

/// Installing over an occupied slot settles first: given a slot whose clock
/// stands at `T0` and an install at `T1`, the install mints exactly what the
/// slot accrued from `T0` to `T1` at the slot's own tier, to the player, before
/// any payment, and only then restarts the slot's clock at `T1`.
pub proof fn lemma_install_settles_before_replacing(c: InstallPlugin)
    requires
        c.player_plugin_slot.plugin_id != 0,
        install_error(c) is None,
    ensures
        install_ops(c) == mint_if_positive(
            c.player,
            accrued_amount(c.player_plugin_slot.tier as int, c.player_plugin_slot.last_claim as int, c.now as int),
        ) + install_payment_ops(c),
        installed(c).player_plugin_slot.last_claim == c.now,
{
}

/// The records a claim touches: the player, their slot, and the time.
#[derive(Debug, Clone, PartialEq, Eq)]
pub struct ClaimPluginCookies {
    pub player: AccountKey,
    pub player_plugin_slot: PlayerPluginSlot,
    pub now: i64,
}

/// What a claim on the slot of `tier` would receive.
pub open spec fn claim_amount(c: ClaimPluginCookies, tier: int) -> int {
    accrued_amount(tier, c.player_plugin_slot.last_claim as int, c.now as int)
}

/// Why the claim `c` on the slot of `tier` is refused, if it is.
pub open spec fn claim_error(c: ClaimPluginCookies, tier: int) -> Option<GameErrorCode> {
    if c.player_plugin_slot.plugin_id == 0 {
        Some(GameErrorCode::NoPluginInstalled)
    } else if claim_amount(c, tier) == 0 {
        Some(GameErrorCode::NothingToClaim)
    } else if c.player_plugin_slot.total_claimed + claim_amount(c, tier) > u64::MAX {
        Some(GameErrorCode::Overflow)
    } else {
        None
    }
}

/// The records after the claim `c`: the clock restarts now and the lifetime
/// total grows by the amount claimed.
pub open spec fn claimed(c: ClaimPluginCookies, tier: int) -> ClaimPluginCookies {
    ClaimPluginCookies {
        player_plugin_slot: PlayerPluginSlot {
            last_claim: c.now,
            total_claimed: (c.player_plugin_slot.total_claimed + claim_amount(c, tier)) as u64,
            ..c.player_plugin_slot
        },
        ..c
    }
}

/// Mints what the slot of `tier` has accrued to the player.
///
/// On success the records become `claimed` and the returned list holds one
/// mint of `claim_amount` to the player. On failure nothing changes.
pub fn claim_plugin_cookies(ctx: &mut ClaimPluginCookies, tier: u8) -> (r: Result<Vec<TokenOp>, GameErrorCode>)
    requires
        old(ctx).player_plugin_slot.wf(),
        old(ctx).player_plugin_slot.plugin_id != 0 ==> old(ctx).player_plugin_slot.tier == tier,
    ensures
        match r {
            Ok(ops) => {
                &&& claim_error(*old(ctx), tier as int) is None
                &&& *final(ctx) == claimed(*old(ctx), tier as int)
                &&& ops@ == seq![TokenOp::Mint { to: old(ctx).player, amount: claim_amount(*old(ctx), tier as int) as u64 }]
            },
            Err(e) => {
                &&& claim_error(*old(ctx), tier as int) == Some(e)
                &&& *final(ctx) == *old(ctx)
            },
        },
        final(ctx).player_plugin_slot.wf(),
{
    if ctx.player_plugin_slot.plugin_id == 0 {
        return Err(GameErrorCode::NoPluginInstalled);
    }
    let accumulated = calculate_accumulated_cookies(tier, ctx.player_plugin_slot.last_claim, ctx.now);
    if accumulated == 0 {
        return Err(GameErrorCode::NothingToClaim);
    }
    let total = match ctx.player_plugin_slot.total_claimed.checked_add(accumulated) {
        Some(v) => v,
        None => {
            return Err(GameErrorCode::Overflow);
        },
    };
    let mut ops: Vec<TokenOp> = Vec::new();
    ops.push(TokenOp::Mint { to: ctx.player, amount: accumulated });
    ctx.player_plugin_slot.last_claim = ctx.now;
    ctx.player_plugin_slot.total_claimed = total;
    proof {
        assert(ops@ =~= seq![TokenOp::Mint { to: old(ctx).player, amount: claim_amount(*old(ctx), tier as int) as u64 }]);
    }
    Ok(ops)
}

/// The records an uninstall touches: the player, their slot, and the time.
#[derive(Debug, Clone, PartialEq, Eq)]
pub struct UninstallPlugin {
    pub player: AccountKey,
    pub player_plugin_slot: PlayerPluginSlot,
    pub now: i64,
}

/// What an uninstall from the slot of `tier` settles.
pub open spec fn uninstall_amount(c: UninstallPlugin, tier: int) -> int {
    accrued_amount(tier, c.player_plugin_slot.last_claim as int, c.now as int)
}

/// Why the uninstall `c` is refused, if it is.
pub open spec fn uninstall_error(c: UninstallPlugin) -> Option<GameErrorCode> {
    if c.player_plugin_slot.plugin_id == 0 {
        Some(GameErrorCode::NoPluginInstalled)
    } else {
        None
    }
}

/// The records after the uninstall `c`: the slot is empty and its clock
/// stands at now; the slot itself stays, for the next install.
pub open spec fn uninstalled(c: UninstallPlugin) -> UninstallPlugin {
    UninstallPlugin {
        player_plugin_slot: PlayerPluginSlot { plugin_id: 0, last_claim: c.now, ..c.player_plugin_slot },
        ..c
    }
}

/// Empties the slot of `tier`, minting to the player whatever it had
/// accrued (possibly nothing, which is no error here).
///
/// On success the records become `uninstalled` and the returned list holds
/// the mint of `uninstall_amount`, if positive. On failure nothing changes.
pub fn uninstall_plugin(ctx: &mut UninstallPlugin, tier: u8) -> (r: Result<Vec<TokenOp>, GameErrorCode>)
    requires
        old(ctx).player_plugin_slot.wf(),
        old(ctx).player_plugin_slot.plugin_id != 0 ==> old(ctx).player_plugin_slot.tier == tier,
    ensures
        match r {
            Ok(ops) => {
                &&& uninstall_error(*old(ctx)) is None
                &&& *final(ctx) == uninstalled(*old(ctx))
                &&& ops@ == mint_if_positive(old(ctx).player, uninstall_amount(*old(ctx), tier as int))
            },
            Err(e) => {
                &&& uninstall_error(*old(ctx)) == Some(e)
                &&& *final(ctx) == *old(ctx)
            },
        },
        final(ctx).player_plugin_slot.wf(),
{
    if ctx.player_plugin_slot.plugin_id == 0 {
        return Err(GameErrorCode::NoPluginInstalled);
    }
    let accumulated = calculate_accumulated_cookies(tier, ctx.player_plugin_slot.last_claim, ctx.now);
    let mut ops: Vec<TokenOp> = Vec::new();
    push_mint(&mut ops, ctx.player, accumulated);
    ctx.player_plugin_slot.plugin_id = 0;
    ctx.player_plugin_slot.last_claim = ctx.now;
    proof {
        assert(ops@ =~= mint_if_positive(old(ctx).player, uninstall_amount(*old(ctx), tier as int)));
    }
    Ok(ops)
}

/// An uninstall cannot pay twice: once it has succeeded the slot is empty,
/// and a second uninstall, or a claim, on that slot is refused with
/// `NoPluginInstalled`.
pub proof fn lemma_uninstall_then_nothing_left(c: UninstallPlugin, tier: int)
    requires
        uninstall_error(c) is None,
    ensures
        uninstalled(c).player_plugin_slot.plugin_id == 0,
        uninstall_error(uninstalled(c)) == Some(GameErrorCode::NoPluginInstalled),
        claim_error(
            ClaimPluginCookies {
                player: c.player,
                player_plugin_slot: uninstalled(c).player_plugin_slot,
                now: c.now,
            },
            tier,
        ) == Some(GameErrorCode::NoPluginInstalled),
{
}

} // verus!
