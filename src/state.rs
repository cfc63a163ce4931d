//! The records the operations read and write, and the token movements they
//! ask the host to perform.

use crate::economy::valid_tier;
use vstd::prelude::*;

verus! {

/// Seconds it takes to regain one point of energy.
pub const TIME_TO_REFILL_ENERGY: i64 = 60;

/// Energy a player can hold.
pub const MAX_ENERGY: u64 = 100;

pub const MAX_WOOD_PER_TREE: u64 = 100000;

/// Length limit, in characters, of a plugin's metadata reference.
pub const MAX_METADATA_URI_LEN: usize = 200;

/// Identity of an account holder: a 32-byte public key.
#[derive(Debug, Clone, Copy, PartialEq, Eq)]
pub struct AccountKey {
    pub bytes: [u8; 32],
}

/// A token movement that an operation asks the host to perform.
#[derive(Debug, Clone, Copy, PartialEq, Eq)]
pub enum TokenOp {
    /// Create `amount` new tokens in the account owned by `to`.
    Mint { to: AccountKey, amount: u64 },
    /// Destroy `amount` tokens from the account owned by `from`.
    Burn { from: AccountKey, amount: u64 },
}

/// A mint of `amount` to `to`, or nothing when the amount is zero.
pub open spec fn mint_if_positive(to: AccountKey, amount: int) -> Seq<TokenOp> {
    if amount > 0 {
        seq![TokenOp::Mint { to, amount: amount as u64 }]
    } else {
        seq![]
    }
}

/// A burn of `amount` from `from`, or nothing when the amount is zero.
pub open spec fn burn_if_positive(from: AccountKey, amount: int) -> Seq<TokenOp> {
    if amount > 0 {
        seq![TokenOp::Burn { from, amount: amount as u64 }]
    } else {
        seq![]
    }
}

pub fn push_mint(ops: &mut Vec<TokenOp>, to: AccountKey, amount: u64)
    ensures
        final(ops)@ == old(ops)@ + mint_if_positive(to, amount as int),
{
    if amount > 0 {
        ops.push(TokenOp::Mint { to, amount });
    } else {
        assert(old(ops)@ + mint_if_positive(to, amount as int) =~= old(ops)@);
    }
}

pub fn push_burn(ops: &mut Vec<TokenOp>, from: AccountKey, amount: u64)
    ensures
        final(ops)@ == old(ops)@ + burn_if_positive(from, amount as int),
{
    if amount > 0 {
        ops.push(TokenOp::Burn { from, amount });
    } else {
        assert(old(ops)@ + burn_if_positive(from, amount as int) =~= old(ops)@);
    }
}

/// Whether the bitmask `mask` marks `tier` as unlocked: bit `tier - 1` is set.
pub open spec fn has_tier(mask: u16, tier: int) -> bool {
    valid_tier(tier) && mask & (1u16 << ((tier - 1) as u16)) != 0u16
}

/// Setting the bit of one tier marks that tier and keeps every other mark.
pub proof fn lemma_set_tier_bit(mask: u16, tier: int, other: int)
    requires
        valid_tier(tier),
    ensures
        has_tier(mask | (1u16 << ((tier - 1) as u16)), other) == (other == tier || has_tier(mask, other)),
{
    if valid_tier(other) {
        let a = (tier - 1) as u16;
        let b = (other - 1) as u16;
        assert(a < 10 && b < 10 ==> ((mask | (1u16 << a)) & (1u16 << b) != 0u16 <==> (a == b || mask & (1u16 << b) != 0u16))) by (bit_vector);
    }
}

/// A player's record. Tier 1 is always unlocked, and the plugin counter
/// starts at 1 so that no plugin receives id 0, which marks an empty slot.
#[derive(Debug, Clone, PartialEq, Eq)]
pub struct PlayerData {
    pub authority: AccountKey,
    pub name: String,
    pub level: u8,
    pub xp: u64,
    pub wood: u64,
    pub energy: u64,
    pub last_login: i64,
    pub last_id: u16,
    /// Bit `i` set: tier `i + 1` is unlocked.
    pub unlocked_tiers: u16,
    /// Id that the next plugin created by this player receives.
    pub plugin_global_counter: u64,
}

/// Energy points regained by a player holding `energy` after `passed`
/// seconds: one per full refill period, never above the maximum.
pub open spec fn energy_regained(energy: int, passed: int) -> int {
    if energy >= MAX_ENERGY || passed < TIME_TO_REFILL_ENERGY {
        0
    } else if passed / TIME_TO_REFILL_ENERGY as int <= MAX_ENERGY - energy {
        passed / TIME_TO_REFILL_ENERGY as int
    } else {
        MAX_ENERGY - energy
    }
}

impl PlayerData {
    /// A new player at `now`: full energy, nothing else gathered, only tier 1
    /// unlocked, and the first plugin they create will have id 1.
    pub fn new(authority: AccountKey, name: String, now: i64) -> (r: PlayerData)
        ensures
            r.wf(),
            r.authority == authority,
            r.name@ == name@,
            r.energy == MAX_ENERGY,
            r.last_login == now,
            r.level == 0 && r.xp == 0 && r.wood == 0 && r.last_id == 0,
            r.unlocked_tier_set() == set![1int],
            r.plugin_global_counter == 1,
    {
        let r = PlayerData {
            authority,
            name,
            level: 0,
            xp: 0,
            wood: 0,
            energy: MAX_ENERGY,
            last_login: now,
            last_id: 0,
            unlocked_tiers: 1,
            plugin_global_counter: 1,
        };
        proof {
            assert forall|t: int| has_tier(1u16, t) == (t == 1) by {
                if valid_tier(t) {
                    let b = (t - 1) as u16;
                    assert(b < 10 ==> (1u16 & (1u16 << b) != 0u16 <==> b == 0)) by (bit_vector);
                }
            }
            assert(r.unlocked_tier_set() =~= set![1int]);
        }
        r
    }

    /// Refills energy for the time passed since the last login, as of `now`:
    /// one point per full refill period, up to the maximum. The login clock
    /// advances by the periods used, or to `now` once energy is full.
    pub fn update_energy(&mut self, now: i64)
        requires
            i64::MIN <= now - old(self).last_login <= i64::MAX,
        ensures
            ({
                let gained = energy_regained(old(self).energy as int, now - old(self).last_login);
                &&& final(self).energy == old(self).energy + gained
                &&& final(self).last_login == if final(self).energy >= MAX_ENERGY {
                    now as int
                } else {
                    old(self).last_login + gained * TIME_TO_REFILL_ENERGY
                }
            }),
            final(self).authority == old(self).authority,
            final(self).name == old(self).name,
            final(self).level == old(self).level,
            final(self).xp == old(self).xp,
            final(self).wood == old(self).wood,
            final(self).last_id == old(self).last_id,
            final(self).unlocked_tiers == old(self).unlocked_tiers,
            final(self).plugin_global_counter == old(self).plugin_global_counter,
    {
        let ghost start_energy = self.energy as int;
        let ghost passed = now - self.last_login;
        let mut time_passed: i64 = now - self.last_login;
        let mut time_spent: i64 = 0;
        let ghost mut k: int = 0;
        while time_passed >= TIME_TO_REFILL_ENERGY && self.energy < MAX_ENERGY
            invariant
                0 <= k,
                self.energy == start_energy + k,
                time_passed == passed - k * TIME_TO_REFILL_ENERGY,
                time_spent == k * TIME_TO_REFILL_ENERGY,
                k <= energy_regained(start_energy, passed),
                start_energy < MAX_ENERGY ==> self.energy <= MAX_ENERGY,
                start_energy >= MAX_ENERGY ==> k == 0,
                passed == now - old(self).last_login,
                start_energy == old(self).energy,
                i64::MIN <= passed <= i64::MAX,
                self.last_login == old(self).last_login,
                self.authority == old(self).authority,
                self.name == old(self).name,
                self.level == old(self).level,
                self.xp == old(self).xp,
                self.wood == old(self).wood,
                self.last_id == old(self).last_id,
                self.unlocked_tiers == old(self).unlocked_tiers,
                self.plugin_global_counter == old(self).plugin_global_counter,
            decreases time_passed,
        {
            assert(passed / 60 >= k + 1) by {
                assert(passed >= (k + 1) * 60);
                vstd::arithmetic::div_mod::lemma_div_is_ordered((k + 1) * 60, passed, 60);
                vstd::arithmetic::div_mod::lemma_div_multiples_vanish(k + 1, 60);
            }
            self.energy = self.energy + 1;
            time_passed = time_passed - TIME_TO_REFILL_ENERGY;
            time_spent = time_spent + TIME_TO_REFILL_ENERGY;
            proof {
                k = k + 1;
            }
        }
        proof {
            if self.energy < MAX_ENERGY && start_energy < MAX_ENERGY && passed >= 60 {
                assert(time_passed < 60);
                assert(passed / 60 == k) by {
                    vstd::arithmetic::div_mod::lemma_fundamental_div_mod_converse(passed, 60, k, time_passed as int);
                }
            }
        }
        if self.energy >= MAX_ENERGY {
            self.last_login = now;
        } else {
            self.last_login = self.last_login + time_spent;
        }
    }

    /// Adds `amount` wood, unless that would overflow, and spends as much
    /// energy, stopping at zero.
    pub fn chop_tree(&mut self, amount: u64)
        ensures
            final(self).wood == if old(self).wood + amount <= u64::MAX {
                old(self).wood + amount
            } else {
                old(self).wood as int
            },
            final(self).energy == if old(self).energy >= amount {
                old(self).energy - amount
            } else {
                0
            },
            final(self).authority == old(self).authority,
            final(self).name == old(self).name,
            final(self).level == old(self).level,
            final(self).xp == old(self).xp,
            final(self).last_login == old(self).last_login,
            final(self).last_id == old(self).last_id,
            final(self).unlocked_tiers == old(self).unlocked_tiers,
            final(self).plugin_global_counter == old(self).plugin_global_counter,
    {
        match self.wood.checked_add(amount) {
            Some(v) => {
                self.wood = v;
            },
            None => {},
        }
        match self.energy.checked_sub(amount) {
            Some(v) => {
                self.energy = v;
            },
            None => {
                self.energy = 0;
            },
        }
    }

    pub open spec fn wf(&self) -> bool {
        &&& has_tier(self.unlocked_tiers, 1)
        &&& self.plugin_global_counter >= 1
    }

    /// The tiers this player has unlocked.
    pub open spec fn unlocked_tier_set(&self) -> Set<int> {
        Set::new(|t: int| has_tier(self.unlocked_tiers, t))
    }

    /// Whether this player has unlocked `tier`.
    pub fn is_tier_unlocked(&self, tier: u8) -> (r: bool)
        ensures
            r == has_tier(self.unlocked_tiers, tier as int),
            r == self.unlocked_tier_set().contains(tier as int),
    {
        if tier < 1 || tier > 10 {
            return false;
        }
        self.unlocked_tiers & (1u16 << (tier - 1)) != 0
    }
}

/// A plugin template in the registry. Only `total_installs` and
/// `creator_earnings` change after creation.
#[derive(Debug, Clone, PartialEq, Eq)]
pub struct Plugin {
    pub plugin_id: u64,
    pub creator: AccountKey,
    pub tier: u8,
    pub metadata_uri: String,
    pub total_installs: u64,
    pub creator_earnings: u64,
    pub created_at: i64,
    pub creator_share_bps: u16,
    pub burn_share_bps: u16,
}

impl Plugin {
    pub open spec fn wf(&self) -> bool {
        &&& self.plugin_id != 0
        &&& valid_tier(self.tier as int)
        &&& self.metadata_uri@.len() <= MAX_METADATA_URI_LEN
        &&& self.creator_share_bps <= 10000
        &&& self.creator_share_bps + self.burn_share_bps == 10000
    }
}

/// A player's slot for one tier: which plugin it holds (0 when empty) and
/// the clock from which its accrual runs.
#[derive(Debug, Clone, PartialEq, Eq)]
pub struct PlayerPluginSlot {
    pub player: AccountKey,
    pub tier: u8,
    pub plugin_id: u64,
    pub installed_at: i64,
    pub last_claim: i64,
    pub total_claimed: u64,
}

impl PlayerPluginSlot {
    /// An occupied slot carries a valid tier.
    pub open spec fn wf(&self) -> bool {
        self.plugin_id != 0 ==> valid_tier(self.tier as int)
    }

    pub open spec fn is_occupied(&self) -> bool {
        self.plugin_id != 0
    }

    /// A fresh, empty slot of `player` for `tier`.
    pub fn new(player: AccountKey, tier: u8) -> (r: PlayerPluginSlot)
        ensures
            r.wf(),
            !r.is_occupied(),
            r.player == player,
            r.tier == tier,
            r.installed_at == 0,
            r.last_claim == 0,
            r.total_claimed == 0,
    {
        PlayerPluginSlot { player, tier, plugin_id: 0, installed_at: 0, last_claim: 0, total_claimed: 0 }
    }
}

} // verus!
