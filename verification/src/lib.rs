//! Pricing, escrow, fee and trait-generation engine of an NFT marketplace whose
//! NFTs are backed by a fungible-token liquidity pool.
//!
//! Every operation is a function from the records it touches, its arguments and
//! the current time to a result: the records are changed in place, and the token
//! movements that the ledger has to carry out are handed back in order. An
//! operation that fails leaves every record as it was.

pub mod errors;
pub mod modules;
pub mod nft_fusion_marketplace;
pub mod state;

pub use modules::fees::distribute_fees;
pub use modules::mint::mint_nft_internal;
pub use modules::oracle::{SetManualPrice, UpdateDexPrice, UpdateOraclePrice};
