//! The components of the engine, leaves first.

pub mod cooldown;
pub mod escrow;
pub mod fees;
pub mod lp;
pub mod mint;
pub mod oracle;
pub mod rarity;
pub mod redeem;
pub mod swap;
pub mod traits;
