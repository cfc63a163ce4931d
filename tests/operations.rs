use cookie::click::{on_click, OnClick};
use cookie::errors::GameErrorCode;
use cookie::ledger::{unlock_tier, UnlockTier};
use cookie::registry::{create_plugin, CreatePlugin};
use cookie::slots::{
    claim_plugin_cookies, install_plugin, uninstall_plugin, ClaimPluginCookies, InstallPlugin,
    UninstallPlugin,
};
use cookie::state::{AccountKey, PlayerData, PlayerPluginSlot, Plugin, TokenOp};

fn key(b: u8) -> AccountKey {
    AccountKey { bytes: [b; 32] }
}

fn player_data(b: u8) -> PlayerData {
    PlayerData::new(key(b), String::from("player"), 0)
}

fn blank_plugin() -> Plugin {
    Plugin {
        plugin_id: 0,
        creator: key(0),
        tier: 0,
        metadata_uri: String::new(),
        total_installs: 0,
        creator_earnings: 0,
        created_at: 0,
        creator_share_bps: 0,
        burn_share_bps: 0,
    }
}

fn plugin(id: u64, creator: u8, tier: u8, bps: u16) -> Plugin {
    Plugin {
        plugin_id: id,
        creator: key(creator),
        tier,
        metadata_uri: String::from("https://example.org/p.json"),
        total_installs: 0,
        creator_earnings: 0,
        created_at: 0,
        creator_share_bps: bps,
        burn_share_bps: 10000 - bps,
    }
}

fn with_tiers(mut data: PlayerData, tiers: &[u8]) -> PlayerData {
    for &t in tiers {
        data.unlocked_tiers |= 1 << (t - 1);
    }
    data
}

fn install_ctx(p: Plugin, slot: PlayerPluginSlot, now: i64) -> InstallPlugin {
    InstallPlugin {
        player: key(1),
        player_data: with_tiers(player_data(1), &[1, 2, 3, 4, 5, 6, 7, 8, 9, 10]),
        plugin: p,
        player_plugin_slot: slot,
        now,
    }
}

#[test]
fn new_player_has_only_tier_one() {
    let data = player_data(1);
    assert!(data.is_tier_unlocked(1));
    for t in 2..=10u8 {
        assert!(!data.is_tier_unlocked(t));
    }
    assert!(!data.is_tier_unlocked(0));
    assert!(!data.is_tier_unlocked(11));
    assert_eq!(data.plugin_global_counter, 1);
    assert_eq!(data.energy, 100);
}

#[test]
fn unlock_tier_five_costs_160_then_refuses_again() {
    let mut ctx = UnlockTier { player: key(1), player_data: player_data(1) };
    let ops = unlock_tier(&mut ctx, 5).unwrap();
    assert_eq!(ops, vec![TokenOp::Burn { from: key(1), amount: 160 }]);
    assert!(ctx.player_data.is_tier_unlocked(5));
    assert_eq!(ctx.player_data.unlocked_tiers, 0b1_0001);
    let before = ctx.clone();
    assert_eq!(unlock_tier(&mut ctx, 5), Err(GameErrorCode::TierAlreadyUnlocked));
    assert_eq!(ctx, before);
}

#[test]
fn unlock_tier_one_is_already_unlocked() {
    let mut ctx = UnlockTier { player: key(1), player_data: player_data(1) };
    assert_eq!(unlock_tier(&mut ctx, 1), Err(GameErrorCode::TierAlreadyUnlocked));
}

#[test]
fn unlock_invalid_tier() {
    let mut ctx = UnlockTier { player: key(1), player_data: player_data(1) };
    let before = ctx.clone();
    assert_eq!(unlock_tier(&mut ctx, 0), Err(GameErrorCode::InvalidTier));
    assert_eq!(unlock_tier(&mut ctx, 11), Err(GameErrorCode::InvalidTier));
    assert_eq!(ctx, before);
}

fn create_ctx() -> CreatePlugin {
    CreatePlugin { creator: key(2), player_data: player_data(2), plugin: blank_plugin(), now: 1234 }
}

#[test]
fn create_plugin_fills_entry_and_burns() {
    let mut ctx = create_ctx();
    let ops = create_plugin(&mut ctx, 3, String::from("ipfs://meta"), 2000).unwrap();
    assert_eq!(ops, vec![TokenOp::Burn { from: key(2), amount: 9000 }]);
    assert_eq!(ctx.player_data.plugin_global_counter, 2);
    assert_eq!(ctx.plugin.plugin_id, 1);
    assert_eq!(ctx.plugin.creator, key(2));
    assert_eq!(ctx.plugin.tier, 3);
    assert_eq!(ctx.plugin.metadata_uri, "ipfs://meta");
    assert_eq!(ctx.plugin.created_at, 1234);
    assert_eq!(ctx.plugin.creator_share_bps, 2000);
    assert_eq!(ctx.plugin.burn_share_bps, 8000);
    assert_eq!(ctx.plugin.total_installs, 0);
    assert_eq!(ctx.plugin.creator_earnings, 0);
    let ops = create_plugin(&mut ctx, 1, String::new(), 10000).unwrap();
    assert_eq!(ops, vec![TokenOp::Burn { from: key(2), amount: 1000 }]);
    assert_eq!(ctx.plugin.plugin_id, 2);
    assert_eq!(ctx.plugin.burn_share_bps, 0);
}

#[test]
fn create_plugin_share_too_high_changes_nothing() {
    let mut ctx = create_ctx();
    let before = ctx.clone();
    assert_eq!(
        create_plugin(&mut ctx, 3, String::from("ipfs://meta"), 12000),
        Err(GameErrorCode::InvalidRevenueShare)
    );
    assert_eq!(ctx, before);
}

#[test]
fn create_plugin_invalid_tier() {
    let mut ctx = create_ctx();
    assert_eq!(create_plugin(&mut ctx, 0, String::new(), 0), Err(GameErrorCode::InvalidTier));
    assert_eq!(create_plugin(&mut ctx, 11, String::new(), 0), Err(GameErrorCode::InvalidTier));
}

#[test]
fn create_plugin_uri_length_limit() {
    let mut ctx = create_ctx();
    let long = "a".repeat(201);
    assert_eq!(create_plugin(&mut ctx, 1, long, 0), Err(GameErrorCode::MetadataUriTooLong));
    assert!(create_plugin(&mut ctx, 1, "a".repeat(200), 0).is_ok());
    assert!(create_plugin(&mut ctx, 1, "é".repeat(200), 0).is_ok());
    assert_eq!(
        create_plugin(&mut ctx, 1, "é".repeat(201), 0),
        Err(GameErrorCode::MetadataUriTooLong)
    );
}

#[test]
fn create_plugin_counter_overflow() {
    let mut ctx = create_ctx();
    ctx.player_data.plugin_global_counter = u64::MAX;
    let before = ctx.clone();
    assert_eq!(create_plugin(&mut ctx, 1, String::new(), 0), Err(GameErrorCode::Overflow));
    assert_eq!(ctx, before);
}

#[test]
fn install_into_empty_slot_splits_payment() {
    let mut ctx = install_ctx(plugin(7, 2, 3, 2000), PlayerPluginSlot::new(key(1), 3), 100);
    let ops = install_plugin(&mut ctx).unwrap();
    assert_eq!(
        ops,
        vec![
            TokenOp::Burn { from: key(1), amount: 41 },
            TokenOp::Mint { to: key(2), amount: 10 },
        ]
    );
    assert_eq!(ctx.plugin.creator_earnings, 10);
    assert_eq!(ctx.plugin.total_installs, 1);
    let slot = &ctx.player_plugin_slot;
    assert_eq!(slot.plugin_id, 7);
    assert_eq!(slot.tier, 3);
    assert_eq!(slot.installed_at, 100);
    assert_eq!(slot.last_claim, 100);
    assert_eq!(slot.total_claimed, 0);
    assert_eq!(slot.player, key(1));
}

#[test]
fn install_with_full_or_no_creator_share() {
    let mut ctx = install_ctx(plugin(7, 2, 10, 10000), PlayerPluginSlot::new(key(1), 10), 0);
    let ops = install_plugin(&mut ctx).unwrap();
    assert_eq!(ops, vec![TokenOp::Mint { to: key(2), amount: 316 }]);
    let mut ctx = install_ctx(plugin(7, 2, 10, 0), PlayerPluginSlot::new(key(1), 10), 0);
    let ops = install_plugin(&mut ctx).unwrap();
    assert_eq!(ops, vec![TokenOp::Burn { from: key(1), amount: 316 }]);
    assert_eq!(ctx.plugin.creator_earnings, 0);
}

#[test]
fn install_into_occupied_slot_settles_first() {
    let mut ctx = install_ctx(plugin(7, 2, 1, 2000), PlayerPluginSlot::new(key(1), 1), 0);
    install_plugin(&mut ctx).unwrap();
    let mut second = install_ctx(plugin(8, 3, 1, 5000), ctx.player_plugin_slot.clone(), 1800);
    let ops = install_plugin(&mut second).unwrap();
    assert_eq!(
        ops,
        vec![
            TokenOp::Mint { to: key(1), amount: 250 },
            TokenOp::Burn { from: key(1), amount: 5 },
            TokenOp::Mint { to: key(3), amount: 5 },
        ]
    );
    assert_eq!(second.player_plugin_slot.plugin_id, 8);
    assert_eq!(second.player_plugin_slot.last_claim, 1800);
    assert_eq!(second.player_plugin_slot.installed_at, 1800);
}

#[test]
fn install_into_occupied_slot_with_nothing_accrued() {
    let mut ctx = install_ctx(plugin(7, 2, 1, 2000), PlayerPluginSlot::new(key(1), 1), 50);
    install_plugin(&mut ctx).unwrap();
    let ops = install_plugin(&mut ctx).unwrap();
    assert_eq!(
        ops,
        vec![TokenOp::Burn { from: key(1), amount: 8 }, TokenOp::Mint { to: key(2), amount: 2 }]
    );
    assert_eq!(ctx.plugin.total_installs, 2);
    assert_eq!(ctx.plugin.creator_earnings, 4);
}

#[test]
fn install_requires_unlocked_tier() {
    let mut ctx = install_ctx(plugin(7, 2, 4, 2000), PlayerPluginSlot::new(key(1), 4), 0);
    ctx.player_data = player_data(1);
    let before = ctx.clone();
    assert_eq!(install_plugin(&mut ctx), Err(GameErrorCode::TierNotUnlocked));
    assert_eq!(ctx, before);
}

#[test]
fn install_overflow_of_plugin_counters() {
    let mut ctx = install_ctx(plugin(7, 2, 3, 2000), PlayerPluginSlot::new(key(1), 3), 0);
    ctx.plugin.creator_earnings = u64::MAX - 9;
    let before = ctx.clone();
    assert_eq!(install_plugin(&mut ctx), Err(GameErrorCode::Overflow));
    assert_eq!(ctx, before);
    ctx.plugin.creator_earnings = u64::MAX - 10;
    assert!(install_plugin(&mut ctx).is_ok());
    let mut ctx = install_ctx(plugin(7, 2, 3, 2000), PlayerPluginSlot::new(key(1), 3), 0);
    ctx.plugin.total_installs = u64::MAX;
    assert_eq!(install_plugin(&mut ctx), Err(GameErrorCode::Overflow));
}

fn occupied_slot(tier: u8, last_claim: i64) -> PlayerPluginSlot {
    let mut ctx = install_ctx(plugin(7, 2, tier, 2000), PlayerPluginSlot::new(key(1), tier), last_claim);
    install_plugin(&mut ctx).unwrap();
    ctx.player_plugin_slot
}

#[test]
fn claim_tier_one_after_one_hour() {
    let mut ctx = ClaimPluginCookies { player: key(1), player_plugin_slot: occupied_slot(1, 0), now: 3600 };
    let ops = claim_plugin_cookies(&mut ctx, 1).unwrap();
    assert_eq!(ops, vec![TokenOp::Mint { to: key(1), amount: 500 }]);
    assert_eq!(ctx.player_plugin_slot.last_claim, 3600);
    assert_eq!(ctx.player_plugin_slot.total_claimed, 500);
    ctx.now = 3600 + 10 * 3600;
    let ops = claim_plugin_cookies(&mut ctx, 1).unwrap();
    assert_eq!(ops, vec![TokenOp::Mint { to: key(1), amount: 500 }]);
    assert_eq!(ctx.player_plugin_slot.total_claimed, 1000);
}

#[test]
fn claim_nothing_to_claim() {
    let mut ctx = ClaimPluginCookies { player: key(1), player_plugin_slot: occupied_slot(1, 100), now: 100 };
    let before = ctx.clone();
    assert_eq!(claim_plugin_cookies(&mut ctx, 1), Err(GameErrorCode::NothingToClaim));
    assert_eq!(ctx, before);
}

#[test]
fn claim_empty_slot() {
    let mut ctx = ClaimPluginCookies { player: key(1), player_plugin_slot: PlayerPluginSlot::new(key(1), 2), now: 99999 };
    assert_eq!(claim_plugin_cookies(&mut ctx, 2), Err(GameErrorCode::NoPluginInstalled));
}

#[test]
fn claim_total_overflow() {
    let mut slot = occupied_slot(2, 0);
    slot.total_claimed = u64::MAX;
    let mut ctx = ClaimPluginCookies { player: key(1), player_plugin_slot: slot, now: 3600 };
    let before = ctx.clone();
    assert_eq!(claim_plugin_cookies(&mut ctx, 2), Err(GameErrorCode::Overflow));
    assert_eq!(ctx, before);
}

#[test]
fn uninstall_settles_and_second_uninstall_fails() {
    let mut ctx = UninstallPlugin { player: key(1), player_plugin_slot: occupied_slot(2, 0), now: 3600 };
    let ops = uninstall_plugin(&mut ctx, 2).unwrap();
    assert_eq!(ops, vec![TokenOp::Mint { to: key(1), amount: 1741 }]);
    assert_eq!(ctx.player_plugin_slot.plugin_id, 0);
    assert_eq!(ctx.player_plugin_slot.last_claim, 3600);
    assert_eq!(ctx.player_plugin_slot.tier, 2);
    let before = ctx.clone();
    assert_eq!(uninstall_plugin(&mut ctx, 2), Err(GameErrorCode::NoPluginInstalled));
    assert_eq!(ctx, before);
    let mut claim = ClaimPluginCookies { player: key(1), player_plugin_slot: ctx.player_plugin_slot.clone(), now: 99999 };
    assert_eq!(claim_plugin_cookies(&mut claim, 2), Err(GameErrorCode::NoPluginInstalled));
}

#[test]
fn uninstall_with_zero_accrual_is_fine() {
    let mut ctx = UninstallPlugin { player: key(1), player_plugin_slot: occupied_slot(5, 40), now: 40 };
    let ops = uninstall_plugin(&mut ctx, 5).unwrap();
    assert!(ops.is_empty());
    assert_eq!(ctx.player_plugin_slot.plugin_id, 0);
}

#[test]
fn click_spends_energy_and_mints() {
    let mut ctx = OnClick { player: player_data(4) };
    let ops = on_click(&mut ctx).unwrap();
    assert_eq!(ops, vec![TokenOp::Mint { to: key(4), amount: 100 }]);
    assert_eq!(ctx.player.energy, 95);
    ctx.player.energy = 4;
    let before = ctx.clone();
    assert_eq!(on_click(&mut ctx), Err(GameErrorCode::NotEnoughEnergy));
    assert_eq!(ctx, before);
}

#[test]
fn energy_refills_per_minute() {
    let mut data = player_data(1);
    data.energy = 10;
    data.last_login = 1000;
    data.update_energy(1000 + 60 * 5 + 30);
    assert_eq!(data.energy, 15);
    assert_eq!(data.last_login, 1300);
    data.update_energy(1300 + 59);
    assert_eq!(data.energy, 15);
    assert_eq!(data.last_login, 1300);
    data.update_energy(1300 + 60 * 1000);
    assert_eq!(data.energy, 100);
    assert_eq!(data.last_login, 1300 + 60 * 1000);
    data.update_energy(0);
    assert_eq!(data.energy, 100);
    assert_eq!(data.last_login, 0);
}

#[test]
fn chop_tree_adds_wood_and_spends_energy() {
    let mut data = player_data(1);
    data.energy = 3;
    data.chop_tree(1);
    assert_eq!(data.wood, 1);
    assert_eq!(data.energy, 2);
    data.chop_tree(5);
    assert_eq!(data.wood, 6);
    assert_eq!(data.energy, 0);
    data.wood = u64::MAX;
    data.chop_tree(1);
    assert_eq!(data.wood, u64::MAX);
}

#[test]
fn error_messages() {
    assert_eq!(GameErrorCode::InvalidTier.message(), "Invalid tier (must be 1-10)");
    assert_eq!(GameErrorCode::Overflow.message(), "Arithmetic overflow");
    assert_eq!(GameErrorCode::NothingToClaim.message(), "Nothing to claim yet");
}
