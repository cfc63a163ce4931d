//! Failure codes surfaced to callers.

use vstd::prelude::*;

verus! {

/// Why an operation was refused. A refused operation changes nothing.
#[derive(Debug, Clone, Copy, PartialEq, Eq, Structural)]
pub enum GameErrorCode {
    NotEnoughEnergy,
    WrongAuthority,
    NotEnoughHealth,
    InvalidTier,
    MetadataUriTooLong,
    InvalidRevenueShare,
    TierNotUnlocked,
    TierAlreadyUnlocked,
    NoPluginInstalled,
    NothingToClaim,
    Overflow,
}

impl GameErrorCode {
    /// Human-readable description of the failure.
    pub fn message(&self) -> &'static str {
        match self {
            GameErrorCode::NotEnoughEnergy => "Not enough energy",
            GameErrorCode::WrongAuthority => "Wrong Authority",
            GameErrorCode::NotEnoughHealth => "Not enough health",
            GameErrorCode::InvalidTier => "Invalid tier (must be 1-10)",
            GameErrorCode::MetadataUriTooLong => "Metadata URI too long (max 200 characters)",
            GameErrorCode::InvalidRevenueShare => "Invalid revenue share (must be <= 100%)",
            GameErrorCode::TierNotUnlocked => "Tier not unlocked",
            GameErrorCode::TierAlreadyUnlocked => "Tier already unlocked",
            GameErrorCode::NoPluginInstalled => "No plugin installed in this slot",
            GameErrorCode::NothingToClaim => "Nothing to claim yet",
            GameErrorCode::Overflow => "Arithmetic overflow",
        }
    }
}

} // verus!
