use crate::modules::oracle::PriceSource;
use vstd::prelude::*;
use vstd::std_specs::cmp::PartialEqSpecImpl;

verus! {

/// The 32-byte identifier of a party, a mint, a custody account or a stored record.
#[derive(Clone, Copy, Debug, Eq, Hash)]
pub struct Address {
    pub bytes: [u8; 32],
}

impl PartialEq for Address {
    fn eq(&self, other: &Address) -> (same: bool) {
        let mut i: usize = 0;
        while i < 32
            invariant
                i <= 32,
                forall|j: int| 0 <= j < i ==> self.bytes[j] == other.bytes[j],
            decreases 32 - i,
        {
            if self.bytes[i] != other.bytes[i] {
                return false;
            }
            i += 1;
        }
        assert(self.bytes =~= other.bytes);
        true
    }
}

impl PartialEqSpecImpl for Address {
    open spec fn obeys_eq_spec() -> bool {
        true
    }

    open spec fn eq_spec(&self, other: &Address) -> bool {
        *self == *other
    }
}

/// The most that two basis-point rates may add up to: 10000 basis points are 100%.
pub const BASIS_POINTS: u16 = 10000;

/// The one configuration record of the platform.
#[derive(Clone, Copy, Debug, PartialEq, Eq)]
pub struct PlatformConfig {
    pub authority: Address,
    /// In basis points (100 = 1%).
    pub platform_fee_basis_points: u16,
    pub platform_treasury: Address,
}

impl PlatformConfig {
    /// The platform never takes the whole of an amount.
    pub open spec fn valid(&self) -> bool {
        self.platform_fee_basis_points < BASIS_POINTS
    }
}

#[derive(Clone, Debug, PartialEq, Eq)]
pub struct Project {
    pub authority: Address,
    /// Unique identifier of the project.
    pub project_id: String,
    pub project_treasury: Address,
    pub royalty_wallet: Option<Address>,
    /// Royalty fee in basis points.
    pub royalty_basis_points: u16,
    /// Time of the last operation on the project, for inactivity monitoring.
    pub last_activity_timestamp: i64,
    pub is_active: bool,
}

impl Project {
    /// Platform fee and royalty, charged against one amount, leave something over.
    pub open spec fn valid_under(&self, config: PlatformConfig) -> bool {
        config.platform_fee_basis_points + self.royalty_basis_points < BASIS_POINTS
    }

    /// The account that stands for the royalty wallet: the wallet, or the project
    /// treasury where none is bound, to which no royalty is paid.
    pub open spec fn royalty_destination(&self) -> Address {
        match self.royalty_wallet {
            Some(wallet) => wallet,
            None => self.project_treasury,
        }
    }
}

#[derive(Clone, Debug, PartialEq, Eq)]
pub struct Collection {
    /// The project this collection belongs to.
    pub project: Address,
    pub collection_id: String,
    pub metadata_uri: String,
    /// The token that NFTs of this collection are swapped for, if any.
    pub token_mint: Option<Address>,
    pub is_compressed: bool,
}

#[derive(Clone, Copy, Debug, PartialEq, Eq)]
pub struct LiquidityPool {
    /// The project this pool belongs to.
    pub project: Address,
    pub token_mint: Address,
    /// The custody account that holds the pool's reserves.
    pub lp_token_account: Address,
    pub created_at: i64,
    pub last_activity: i64,
    /// Latest price of one token in micro-USD.
    pub oracle_price_usd: Option<u64>,
    pub oracle_price_last_update: i64,
    /// Whether redemption is locked because the price could not be trusted.
    pub redemption_locked: bool,
    pub price_source: PriceSource,
}

#[derive(Clone, Debug, PartialEq, Eq)]
pub struct NftData {
    pub owner: Address,
    pub collection: Address,
    pub mint: Address,
    pub metadata_uri: String,
    pub minted_at: i64,
    /// The NFT cannot be redeemed before this time.
    pub cooldown_end_timestamp: Option<i64>,
    pub discount_percent: Option<u8>,
    /// 0 for a base NFT, higher for each fusion that led to it.
    pub fusion_level: u8,
    pub parent_nfts: Option<Vec<Address>>,
    /// Higher is rarer.
    pub rarity_score: u16,
}

#[derive(Clone, Copy, Debug, PartialEq, Eq)]
pub struct FusionConfig {
    pub project: Address,
    pub collection: Address,
    pub min_nfts_required: u8,
    pub max_nfts_allowed: u8,
    /// 0 to 100.
    pub base_success_rate: u8,
    /// Share of the input NFTs' value that is burnt, 0 to 100.
    pub token_burn_percent: u8,
    /// Seconds of cooldown after a fusion.
    pub cooldown_period: i64,
    pub is_active: bool,
}

#[derive(Clone, Copy, Debug, PartialEq, Eq)]
pub struct TokenEscrow {
    /// Who deposited the tokens.
    pub owner: Address,
    pub nft_mint: Address,
    pub token_mint: Address,
    /// Amount of tokens deposited.
    pub token_amount: u64,
    /// The custody account that holds the deposit.
    pub escrow_token_account: Address,
    pub discount_percent: Option<u8>,
    /// The deposit cannot be withdrawn before this time.
    pub vesting_end_timestamp: Option<i64>,
    pub is_active: bool,
    pub created_at: i64,
}

impl TokenEscrow {
    /// Whether the deposit is still locked at `now`.
    pub open spec fn vesting_active(&self, now: i64) -> bool {
        self.vesting_end_timestamp matches Some(end) && now < end
    }
}

#[derive(Clone, Copy, Debug, PartialEq, Eq)]
pub struct NftListing {
    pub owner: Address,
    pub nft_mint: Address,
    /// The token in which the price is paid.
    pub token_mint: Address,
    pub asking_price: u64,
    pub discount_percent: Option<u8>,
    pub cooldown_period: Option<i64>,
    pub is_active: bool,
    pub created_at: i64,
    pub collection: Address,
}

/// One category of attributes of a collection, such as "Background" or "Eyes".
#[derive(Clone, Debug, PartialEq, Eq)]
pub struct TraitType {
    pub collection: Address,
    pub name: String,
    /// Whether every NFT must carry a value of this type.
    pub is_required: bool,
    pub trait_values: Vec<TraitValue>,
}

/// One value of a trait type, such as "Blue".
#[derive(Clone, Debug, PartialEq, Eq)]
pub struct TraitValue {
    pub name: String,
    /// What the value adds to a metadata URI.
    pub uri_postfix: String,
    /// Weight in random selection: the higher, the more common.
    pub rarity_weight: u16,
    /// How many NFTs may carry the value; unlimited where absent.
    pub available_supply: Option<u32>,
    /// How many NFTs carry the value.
    pub used_supply: u32,
}

impl TraitValue {
    /// Whether one more NFT may carry the value.
    pub open spec fn has_supply(&self) -> bool {
        match self.available_supply {
            Some(cap) => self.used_supply < cap,
            None => true,
        }
    }

    /// No more NFTs carry the value than its cap allows.
    pub open spec fn within_supply(&self) -> bool {
        match self.available_supply {
            Some(cap) => self.used_supply <= cap,
            None => true,
        }
    }

    /// Whether one more NFT may carry the value.
    pub fn supply_left(&self) -> (left: bool)
        ensures
            left == self.has_supply(),
    {
        match self.available_supply {
            Some(cap) => self.used_supply < cap,
            None => true,
        }
    }
}

impl TraitType {
    /// No value of the type is used beyond its cap.
    pub open spec fn within_supply(&self) -> bool {
        forall|i: int| 0 <= i < self.trait_values@.len() ==> (#[trigger] self.trait_values@[i]).within_supply()
    }
}

#[derive(Clone, Debug, PartialEq, Eq)]
pub struct CollectionTraitConfig {
    pub collection: Address,
    /// Base URI of every NFT of the collection.
    pub base_uri: String,
    pub auto_generation_enabled: bool,
    pub metadata_format: MetadataFormat,
    /// The records of the collection's trait types, in order.
    pub trait_types: Vec<Address>,
}

#[derive(Clone, Copy, Debug, PartialEq, Eq, Structural)]
pub enum MetadataFormat {
    /// One path segment per selected value.
    StandardJson,
    /// One compact segment that names every selected value.
    CompressedJson,
    /// Left to the project.
    Custom,
}

/// The attributes of one NFT.
#[derive(Clone, Debug, PartialEq, Eq)]
pub struct NftTraits {
    pub nft_mint: Address,
    pub collection: Address,
    /// Pairs of trait type name and trait value name.
    pub trait_values: Vec<(String, String)>,
    pub is_auto_generated: bool,
    /// The seed the values were drawn from, where they were drawn.
    pub generation_seed: Option<[u8; 32]>,
}

/// What the engine reads of a custody account of the token ledger.
#[derive(Clone, Copy, Debug, PartialEq, Eq)]
pub struct TokenAccount {
    pub address: Address,
    pub mint: Address,
    pub owner: Address,
    pub amount: u64,
}

impl TokenAccount {
    /// Whether the account belongs to `owner` and holds the token `mint`.
    pub open spec fn held_by(&self, owner: Address, mint: Address) -> bool {
        self.owner == owner && self.mint == mint
    }

    /// Whether the account belongs to `owner` and holds the token `mint`.
    pub fn is_held_by(&self, owner: Address, mint: Address) -> (held: bool)
        ensures
            held == self.held_by(owner, mint),
    {
        self.owner == owner && self.mint == mint
    }
}

/// Under whose authority the ledger moves tokens out of an account.
#[derive(Clone, Copy, Debug, PartialEq, Eq)]
pub enum TransferAuthority {
    /// The party that made the call.
    Signer(Address),
    /// The liquidity pool of the given project, over its own custody account.
    LiquidityPool(Address),
    /// The escrow of the given NFT mint, over its own custody account.
    TokenEscrow(Address),
}

/// One movement of tokens that the ledger is to carry out.
#[derive(Clone, Copy, Debug, PartialEq, Eq)]
pub struct TokenTransfer {
    pub from: Address,
    pub to: Address,
    pub authority: TransferAuthority,
    pub amount: u64,
}

/// `transfers` with `transfer` added, unless it would move nothing.
pub open spec fn with_payment(transfers: Seq<TokenTransfer>, transfer: TokenTransfer) -> Seq<TokenTransfer> {
    if transfer.amount > 0 {
        transfers.push(transfer)
    } else {
        transfers
    }
}

/// The sum of the amounts that `transfers` move.
pub open spec fn total_moved(transfers: Seq<TokenTransfer>) -> int
    decreases transfers.len(),
{
    if transfers.len() == 0 {
        0
    } else {
        total_moved(transfers.drop_last()) + transfers.last().amount
    }
}

/// Adds `transfer` to `transfers` unless it would move nothing.
pub fn push_payment(transfers: &mut Vec<TokenTransfer>, transfer: TokenTransfer)
    ensures
        final(transfers)@ == with_payment(old(transfers)@, transfer),
{
    if transfer.amount > 0 {
        transfers.push(transfer);
    }
}

} // verus!
