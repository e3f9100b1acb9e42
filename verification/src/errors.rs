use vstd::prelude::*;

verus! {

/// Every way an operation of the marketplace can fail.
#[derive(Clone, Copy, Debug, PartialEq, Eq, Hash, Structural)]
pub enum MarketplaceError {
    /// Invalid platform fee value. Must be less than 10000.
    InvalidPlatformFee,
    /// Invalid royalty fee value. Must be less than 10000.
    InvalidRoyaltyFee,
    /// Project ID already exists.
    ProjectAlreadyExists,
    /// Project ID does not exist.
    ProjectNotFound,
    /// Project is not active.
    ProjectNotActive,
    /// Collection ID already exists for this project.
    CollectionAlreadyExists,
    /// Collection ID does not exist.
    CollectionNotFound,
    /// No token mint specified for collection.
    NoTokenMintSpecified,
    /// Oracle price feed is stale or unavailable.
    StaleOracleFeed,
    /// NFT is still in cooldown period.
    NftInCooldown,
    /// Insufficient token amount for the swap.
    InsufficientTokenAmount,
    /// Invalid discount percentage. Must be between 0 and 100.
    InvalidDiscountPercentage,
    /// Insufficient liquidity in the pool.
    InsufficientLiquidity,
    /// Invalid cooldown period. Must be greater than 0.
    InvalidCooldownPeriod,
    /// NFT redemption is locked due to oracle issues.
    RedemptionLocked,
    /// Liquidity pool already exists for this project.
    LiquidityPoolAlreadyExists,
    /// Liquidity pool does not exist for this project.
    LiquidityPoolNotFound,
    /// NFT metadata URI is invalid or empty.
    InvalidMetadataUri,
    /// Invalid traits selection for minting.
    InvalidTraitsSelection,
    /// NFT is not owned by the user.
    NotNftOwner,
    /// Liquidity pool is not inactive.
    LiquidityPoolNotInactive,
    /// Operation not permitted for the current user.
    Unauthorized,
    /// Calculation overflow occurred.
    CalculationOverflow,
    /// Invalid token mint provided.
    InvalidTokenMint,
    /// Invalid token account provided.
    InvalidTokenAccount,
    /// Invalid token amount for operation.
    InvalidTokenAmount,
    /// Token account has insufficient balance.
    InsufficientTokenBalance,
    /// Invalid NFT for fusion.
    InvalidNftForFusion,
    /// Not enough NFTs provided for fusion.
    NotEnoughNftsForFusion,
    /// NFTs must belong to the same collection for fusion.
    MixedCollections,
    /// Fusion algorithm error occurred.
    FusionAlgorithmError,
    /// Escrow account is not active.
    EscrowNotActive,
    /// Vesting period has not ended.
    VestingPeriodActive,
    /// Not authorized to redeem from this escrow.
    UnauthorizedEscrowRedemption,
    /// NFT listing is not active.
    ListingNotActive,
    /// Not authorized to manage this listing.
    UnauthorizedListingOperation,
    /// Token price is too low.
    TokenPriceTooLow,
    /// Escrow already exists for this NFT.
    EscrowAlreadyExists,
    /// Listing already exists for this NFT.
    ListingAlreadyExists,
    /// Invalid token escrow for this NFT.
    InvalidTokenEscrow,
    /// Not the owner of this token escrow.
    NotTokenEscrowOwner,
    /// Token escrow is not active.
    TokenEscrowNotActive,
    /// Fee calculation error.
    FeeCalculationError,
    /// Trait type not found in collection.
    TraitTypeNotFound,
    /// Trait value not found in trait type.
    TraitValueNotFound,
    /// Required trait type missing in provided traits.
    RequiredTraitMissing,
    /// Trait auto-generation failed.
    TraitGenerationFailed,
    /// Trait value exceeds available supply.
    TraitSupplyExceeded,
    /// Invalid trait configuration.
    InvalidTraitConfig,
    /// Auto-generation not enabled for this collection.
    AutoGenerationDisabled,
    /// Trait validation failed.
    TraitValidationFailed,
}

impl MarketplaceError {
    /// What `message` says of the error.
    pub open spec fn message_text(self) -> Seq<char> {
        match self {
            MarketplaceError::InvalidPlatformFee => "Invalid platform fee value. Must be less than 10000."@,
            MarketplaceError::InvalidRoyaltyFee => "Invalid royalty fee value. Must be less than 10000."@,
            MarketplaceError::ProjectAlreadyExists => "Project ID already exists."@,
            MarketplaceError::ProjectNotFound => "Project ID does not exist."@,
            MarketplaceError::ProjectNotActive => "Project is not active."@,
            MarketplaceError::CollectionAlreadyExists => "Collection ID already exists for this project."@,
            MarketplaceError::CollectionNotFound => "Collection ID does not exist."@,
            MarketplaceError::NoTokenMintSpecified => "No token mint specified for collection."@,
            MarketplaceError::StaleOracleFeed => "Oracle price feed is stale or unavailable."@,
            MarketplaceError::NftInCooldown => "NFT is still in cooldown period."@,
            MarketplaceError::InsufficientTokenAmount => "Insufficient token amount for the swap."@,
            MarketplaceError::InvalidDiscountPercentage => "Invalid discount percentage. Must be between 0 and 100."@,
            MarketplaceError::InsufficientLiquidity => "Insufficient liquidity in the pool."@,
            MarketplaceError::InvalidCooldownPeriod => "Invalid cooldown period. Must be greater than 0."@,
            MarketplaceError::RedemptionLocked => "NFT redemption is locked due to oracle issues."@,
            MarketplaceError::LiquidityPoolAlreadyExists => "Liquidity pool already exists for this project."@,
            MarketplaceError::LiquidityPoolNotFound => "Liquidity pool does not exist for this project."@,
            MarketplaceError::InvalidMetadataUri => "NFT metadata URI is invalid or empty."@,
            MarketplaceError::InvalidTraitsSelection => "Invalid traits selection for minting."@,
            MarketplaceError::NotNftOwner => "NFT is not owned by the user."@,
            MarketplaceError::LiquidityPoolNotInactive => "Liquidity pool is not inactive."@,
            MarketplaceError::Unauthorized => "Operation not permitted for the current user."@,
            MarketplaceError::CalculationOverflow => "Calculation overflow occurred."@,
            MarketplaceError::InvalidTokenMint => "Invalid token mint provided."@,
            MarketplaceError::InvalidTokenAccount => "Invalid token account provided."@,
            MarketplaceError::InvalidTokenAmount => "Invalid token amount for operation."@,
            MarketplaceError::InsufficientTokenBalance => "Token account has insufficient balance."@,
            MarketplaceError::InvalidNftForFusion => "Invalid NFT for fusion."@,
            MarketplaceError::NotEnoughNftsForFusion => "Not enough NFTs provided for fusion."@,
            MarketplaceError::MixedCollections => "NFTs must belong to the same collection for fusion."@,
            MarketplaceError::FusionAlgorithmError => "Fusion algorithm error occurred."@,
            MarketplaceError::EscrowNotActive => "Escrow account is not active."@,
            MarketplaceError::VestingPeriodActive => "Vesting period has not ended."@,
            MarketplaceError::UnauthorizedEscrowRedemption => "Not authorized to redeem from this escrow."@,
            MarketplaceError::ListingNotActive => "NFT listing is not active."@,
            MarketplaceError::UnauthorizedListingOperation => "Not authorized to manage this listing."@,
            MarketplaceError::TokenPriceTooLow => "Token price is too low."@,
            MarketplaceError::EscrowAlreadyExists => "Escrow already exists for this NFT."@,
            MarketplaceError::ListingAlreadyExists => "Listing already exists for this NFT."@,
            MarketplaceError::InvalidTokenEscrow => "Invalid token escrow for this NFT."@,
            MarketplaceError::NotTokenEscrowOwner => "Not the owner of this token escrow."@,
            MarketplaceError::TokenEscrowNotActive => "Token escrow is not active."@,
            MarketplaceError::FeeCalculationError => "Fee calculation error."@,
            MarketplaceError::TraitTypeNotFound => "Trait type not found in collection."@,
            MarketplaceError::TraitValueNotFound => "Trait value not found in trait type."@,
            MarketplaceError::RequiredTraitMissing => "Required trait type missing in provided traits."@,
            MarketplaceError::TraitGenerationFailed => "Trait auto-generation failed."@,
            MarketplaceError::TraitSupplyExceeded => "Trait value exceeds available supply."@,
            MarketplaceError::InvalidTraitConfig => "Invalid trait configuration."@,
            MarketplaceError::AutoGenerationDisabled => "Auto-generation not enabled for this collection."@,
            MarketplaceError::TraitValidationFailed => "Trait validation failed."@,
        }
    }

    /// The error in words.
    pub fn message(&self) -> (text: &'static str)
        ensures
            text@ == self.message_text(),
    {
        match self {
            MarketplaceError::InvalidPlatformFee => "Invalid platform fee value. Must be less than 10000.",
            MarketplaceError::InvalidRoyaltyFee => "Invalid royalty fee value. Must be less than 10000.",
            MarketplaceError::ProjectAlreadyExists => "Project ID already exists.",
            MarketplaceError::ProjectNotFound => "Project ID does not exist.",
            MarketplaceError::ProjectNotActive => "Project is not active.",
            MarketplaceError::CollectionAlreadyExists => "Collection ID already exists for this project.",
            MarketplaceError::CollectionNotFound => "Collection ID does not exist.",
            MarketplaceError::NoTokenMintSpecified => "No token mint specified for collection.",
            MarketplaceError::StaleOracleFeed => "Oracle price feed is stale or unavailable.",
            MarketplaceError::NftInCooldown => "NFT is still in cooldown period.",
            MarketplaceError::InsufficientTokenAmount => "Insufficient token amount for the swap.",
            MarketplaceError::InvalidDiscountPercentage => "Invalid discount percentage. Must be between 0 and 100.",
            MarketplaceError::InsufficientLiquidity => "Insufficient liquidity in the pool.",
            MarketplaceError::InvalidCooldownPeriod => "Invalid cooldown period. Must be greater than 0.",
            MarketplaceError::RedemptionLocked => "NFT redemption is locked due to oracle issues.",
            MarketplaceError::LiquidityPoolAlreadyExists => "Liquidity pool already exists for this project.",
            MarketplaceError::LiquidityPoolNotFound => "Liquidity pool does not exist for this project.",
            MarketplaceError::InvalidMetadataUri => "NFT metadata URI is invalid or empty.",
            MarketplaceError::InvalidTraitsSelection => "Invalid traits selection for minting.",
            MarketplaceError::NotNftOwner => "NFT is not owned by the user.",
            MarketplaceError::LiquidityPoolNotInactive => "Liquidity pool is not inactive.",
            MarketplaceError::Unauthorized => "Operation not permitted for the current user.",
            MarketplaceError::CalculationOverflow => "Calculation overflow occurred.",
            MarketplaceError::InvalidTokenMint => "Invalid token mint provided.",
            MarketplaceError::InvalidTokenAccount => "Invalid token account provided.",
            MarketplaceError::InvalidTokenAmount => "Invalid token amount for operation.",
            MarketplaceError::InsufficientTokenBalance => "Token account has insufficient balance.",
            MarketplaceError::InvalidNftForFusion => "Invalid NFT for fusion.",
            MarketplaceError::NotEnoughNftsForFusion => "Not enough NFTs provided for fusion.",
            MarketplaceError::MixedCollections => "NFTs must belong to the same collection for fusion.",
            MarketplaceError::FusionAlgorithmError => "Fusion algorithm error occurred.",
            MarketplaceError::EscrowNotActive => "Escrow account is not active.",
            MarketplaceError::VestingPeriodActive => "Vesting period has not ended.",
            MarketplaceError::UnauthorizedEscrowRedemption => "Not authorized to redeem from this escrow.",
            MarketplaceError::ListingNotActive => "NFT listing is not active.",
            MarketplaceError::UnauthorizedListingOperation => "Not authorized to manage this listing.",
            MarketplaceError::TokenPriceTooLow => "Token price is too low.",
            MarketplaceError::EscrowAlreadyExists => "Escrow already exists for this NFT.",
            MarketplaceError::ListingAlreadyExists => "Listing already exists for this NFT.",
            MarketplaceError::InvalidTokenEscrow => "Invalid token escrow for this NFT.",
            MarketplaceError::NotTokenEscrowOwner => "Not the owner of this token escrow.",
            MarketplaceError::TokenEscrowNotActive => "Token escrow is not active.",
            MarketplaceError::FeeCalculationError => "Fee calculation error.",
            MarketplaceError::TraitTypeNotFound => "Trait type not found in collection.",
            MarketplaceError::TraitValueNotFound => "Trait value not found in trait type.",
            MarketplaceError::RequiredTraitMissing => "Required trait type missing in provided traits.",
            MarketplaceError::TraitGenerationFailed => "Trait auto-generation failed.",
            MarketplaceError::TraitSupplyExceeded => "Trait value exceeds available supply.",
            MarketplaceError::InvalidTraitConfig => "Invalid trait configuration.",
            MarketplaceError::AutoGenerationDisabled => "Auto-generation not enabled for this collection.",
            MarketplaceError::TraitValidationFailed => "Trait validation failed.",
        }
    }
}

} // verus!
