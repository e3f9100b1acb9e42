use nft_fusion_marketplace::errors::MarketplaceError;
use nft_fusion_marketplace::modules::lp::{
    check_lp_inactivity, setup_liquidity_pool, CheckLpInactivity, SetupLiquidityPool,
};
use nft_fusion_marketplace::modules::mint::{
    create_collection, mint_nft, mint_nft_internal, CreateCollection, MintKind, MintNft,
    MintRequest,
};
use nft_fusion_marketplace::modules::oracle::{check_oracle_status, PriceSource};
use nft_fusion_marketplace::state::{
    Address, Collection, LiquidityPool, NftData, PlatformConfig, Project, TokenAccount,
    TokenTransfer, TransferAuthority,
};

const AUTHORITY: u8 = 1;
const TOKEN: u8 = 3;
const COLLECTION: u8 = 4;
const PROJECT: u8 = 5;
const RESERVES: u8 = 6;
const WALLET: u8 = 7;
const PLATFORM: u8 = 8;

fn key(byte: u8) -> Address {
    Address { bytes: [byte; 32] }
}

fn project() -> Project {
    Project {
        authority: key(AUTHORITY),
        project_id: String::from("apes"),
        project_treasury: key(9),
        royalty_wallet: None,
        royalty_basis_points: 500,
        last_activity_timestamp: 0,
        is_active: true,
    }
}

fn account(address: u8, owner: u8, amount: u64) -> TokenAccount {
    TokenAccount { address: key(address), mint: key(TOKEN), owner: key(owner), amount }
}

fn setup() -> SetupLiquidityPool {
    SetupLiquidityPool {
        authority: key(AUTHORITY),
        project_key: key(PROJECT),
        project: project(),
        liquidity_pool: None,
        token_mint_account: key(TOKEN),
        lp_token_account: account(RESERVES, PROJECT, 0),
        authority_token_account: account(WALLET, AUTHORITY, 500),
    }
}

fn pool(last_activity: i64) -> LiquidityPool {
    LiquidityPool {
        project: key(PROJECT),
        token_mint: key(TOKEN),
        lp_token_account: key(RESERVES),
        created_at: 0,
        last_activity,
        oracle_price_usd: None,
        oracle_price_last_update: 0,
        redemption_locked: false,
        price_source: PriceSource::Unset,
    }
}

fn inactivity(last_activity: i64, reserves: u64) -> CheckLpInactivity {
    CheckLpInactivity {
        authority: key(AUTHORITY),
        platform_config: PlatformConfig {
            authority: key(AUTHORITY),
            platform_fee_basis_points: 200,
            platform_treasury: key(PLATFORM),
        },
        project: project(),
        liquidity_pool: pool(last_activity),
        lp_token_account: account(RESERVES, PROJECT, reserves),
        platform_treasury: key(PLATFORM),
    }
}

fn collection_creation() -> CreateCollection {
    CreateCollection {
        authority: key(AUTHORITY),
        project_key: key(PROJECT),
        project: project(),
        collection: None,
        token_mint_account: key(TOKEN),
    }
}

fn collection(compressed: bool) -> Collection {
    Collection {
        project: key(PROJECT),
        collection_id: String::from("genesis"),
        metadata_uri: String::from("https://nft"),
        token_mint: Some(key(TOKEN)),
        is_compressed: compressed,
    }
}

fn minting(compressed: bool) -> MintNft {
    MintNft {
        user: key(20),
        collection_key: key(COLLECTION),
        collection: collection(compressed),
        project: project(),
        nft_mint: key(21),
        nft_data: None,
    }
}

#[test]
fn pool_is_set_up_without_a_price() {
    let mut ctx = setup();
    let funded = setup_liquidity_pool(&mut ctx, String::from("apes"), key(TOKEN), 300, 1_234);
    assert_eq!(
        funded,
        Ok(vec![TokenTransfer {
            from: key(WALLET),
            to: key(RESERVES),
            authority: TransferAuthority::Signer(key(AUTHORITY)),
            amount: 300,
        }])
    );
    assert_eq!(
        ctx.liquidity_pool,
        Some(LiquidityPool { created_at: 1_234, ..pool(1_234) })
    );
    assert_eq!(ctx.project.last_activity_timestamp, 1_234);
    assert_eq!(
        check_oracle_status(&ctx.liquidity_pool.unwrap(), 1_234),
        Err(MarketplaceError::StaleOracleFeed)
    );
}

#[test]
fn pool_without_first_reserves_moves_nothing() {
    let mut ctx = setup();
    assert_eq!(setup_liquidity_pool(&mut ctx, String::from("apes"), key(TOKEN), 0, 5), Ok(vec![]));
    assert!(ctx.liquidity_pool.is_some());
}

#[test]
fn pool_setup_checks_project_and_accounts() {
    let attempt = |change: &dyn Fn(&mut SetupLiquidityPool), id: &str, mint: u8| {
        let mut ctx = setup();
        change(&mut ctx);
        let before = ctx.clone();
        let result = setup_liquidity_pool(&mut ctx, String::from(id), key(mint), 1, 5);
        assert_eq!(ctx, before);
        result.unwrap_err()
    };
    assert_eq!(attempt(&|_| (), "bears", TOKEN), MarketplaceError::ProjectNotFound);
    assert_eq!(
        attempt(&|ctx| ctx.project.is_active = false, "apes", TOKEN),
        MarketplaceError::ProjectNotFound
    );
    assert_eq!(
        attempt(&|ctx| ctx.authority = key(99), "apes", TOKEN),
        MarketplaceError::Unauthorized
    );
    assert_eq!(
        attempt(&|ctx| ctx.liquidity_pool = Some(pool(0)), "apes", TOKEN),
        MarketplaceError::LiquidityPoolAlreadyExists
    );
    assert_eq!(attempt(&|_| (), "apes", 99), MarketplaceError::InvalidTokenMint);
    assert_eq!(
        attempt(&|ctx| ctx.lp_token_account.mint = key(99), "apes", TOKEN),
        MarketplaceError::InvalidTokenAccount
    );
    assert_eq!(
        attempt(&|ctx| ctx.authority_token_account.owner = key(99), "apes", TOKEN),
        MarketplaceError::InvalidTokenAccount
    );
}

#[test]
fn pool_is_reclaimed_after_six_months() {
    let mut ctx = inactivity(1_000, 77);
    assert_eq!(
        check_lp_inactivity(&mut ctx, String::from("apes"), 15_768_999),
        Err(MarketplaceError::LiquidityPoolNotInactive)
    );
    assert_eq!(ctx, inactivity(1_000, 77));
    assert_eq!(
        check_lp_inactivity(&mut ctx, String::from("apes"), 15_769_000),
        Ok(vec![TokenTransfer {
            from: key(RESERVES),
            to: key(PLATFORM),
            authority: TransferAuthority::LiquidityPool(key(PROJECT)),
            amount: 77,
        }])
    );
    assert!(!ctx.project.is_active);
    assert_eq!(ctx.project.last_activity_timestamp, 0);
    assert_eq!(ctx.liquidity_pool, pool(1_000));
}

#[test]
fn empty_pool_is_reclaimed_without_a_transfer() {
    let mut ctx = inactivity(i64::MIN, 0);
    assert_eq!(check_lp_inactivity(&mut ctx, String::from("apes"), i64::MAX), Ok(vec![]));
    assert!(!ctx.project.is_active);
}

#[test]
fn reclaiming_is_for_the_platform_authority() {
    let mut ctx = inactivity(0, 77);
    ctx.authority = key(99);
    assert_eq!(
        check_lp_inactivity(&mut ctx, String::from("apes"), i64::MAX),
        Err(MarketplaceError::Unauthorized)
    );
    let mut ctx = inactivity(0, 77);
    assert_eq!(
        check_lp_inactivity(&mut ctx, String::from("bears"), i64::MAX),
        Err(MarketplaceError::ProjectNotFound)
    );
    ctx.lp_token_account.address = key(99);
    assert_eq!(
        check_lp_inactivity(&mut ctx, String::from("apes"), i64::MAX),
        Err(MarketplaceError::InvalidTokenAccount)
    );
    let mut ctx = inactivity(0, 77);
    ctx.platform_treasury = key(99);
    assert_eq!(
        check_lp_inactivity(&mut ctx, String::from("apes"), i64::MAX),
        Err(MarketplaceError::InvalidTokenAccount)
    );
    let mut ctx = inactivity(i64::MAX, 77);
    assert_eq!(
        check_lp_inactivity(&mut ctx, String::from("apes"), i64::MIN),
        Err(MarketplaceError::LiquidityPoolNotInactive)
    );
}

#[test]
fn collection_is_created() {
    let mut ctx = collection_creation();
    let done = create_collection(
        &mut ctx,
        String::from("genesis"),
        String::from("apes"),
        String::from("https://nft"),
        Some(key(TOKEN)),
        true,
        42,
    );
    assert_eq!(done, Ok(()));
    assert_eq!(ctx.collection, Some(collection(true)));
    assert_eq!(ctx.project.last_activity_timestamp, 42);
}

#[test]
fn collection_creation_checks_its_arguments() {
    let attempt = |change: &dyn Fn(&mut CreateCollection), id: &str, uri: &str, mint: Option<u8>| {
        let mut ctx = collection_creation();
        change(&mut ctx);
        let before = ctx.clone();
        let result = create_collection(
            &mut ctx,
            String::from("genesis"),
            String::from(id),
            String::from(uri),
            mint.map(key),
            false,
            42,
        );
        assert_eq!(ctx, before);
        result
    };
    assert_eq!(attempt(&|_| (), "bears", "u", None), Err(MarketplaceError::ProjectNotFound));
    assert_eq!(
        attempt(&|ctx| ctx.project.is_active = false, "apes", "u", None),
        Err(MarketplaceError::ProjectNotFound)
    );
    assert_eq!(
        attempt(&|ctx| ctx.authority = key(99), "apes", "u", None),
        Err(MarketplaceError::Unauthorized)
    );
    assert_eq!(
        attempt(&|ctx| ctx.collection = Some(collection(false)), "apes", "u", None),
        Err(MarketplaceError::CollectionAlreadyExists)
    );
    assert_eq!(attempt(&|_| (), "apes", "u", Some(99)), Err(MarketplaceError::InvalidTokenMint));
    assert_eq!(attempt(&|_| (), "apes", "", None), Err(MarketplaceError::InvalidMetadataUri));
}

#[test]
fn collection_without_token_ignores_the_mint_account() {
    let mut ctx = collection_creation();
    ctx.token_mint_account = key(99);
    let done = create_collection(
        &mut ctx,
        String::from("genesis"),
        String::from("apes"),
        String::from("u"),
        None,
        false,
        42,
    );
    assert_eq!(done, Ok(()));
    assert_eq!(ctx.collection.unwrap().token_mint, None);
}

#[test]
fn mint_order_follows_the_collection() {
    assert_eq!(
        mint_nft_internal(key(1), key(2), String::from("u"), key(3), true),
        Ok(MintRequest {
            owner: key(1),
            nft_mint: key(2),
            metadata_uri: String::from("u"),
            collection: key(3),
            kind: MintKind::Compressed,
        })
    );
    assert_eq!(
        nft_fusion_marketplace::mint_nft_internal(key(1), key(2), String::from("u"), key(3), false)
            .unwrap()
            .kind,
        MintKind::Standard
    );
}

#[test]
fn nft_is_minted() {
    let mut ctx = minting(false);
    let order = mint_nft(
        &mut ctx,
        String::from("genesis"),
        String::from("https://nft/7"),
        Some(vec![1, 2]),
        99,
    );
    assert_eq!(
        order,
        Ok(MintRequest {
            owner: key(20),
            nft_mint: key(21),
            metadata_uri: String::from("https://nft/7"),
            collection: key(COLLECTION),
            kind: MintKind::Standard,
        })
    );
    assert_eq!(
        ctx.nft_data,
        Some(NftData {
            owner: key(20),
            collection: key(COLLECTION),
            mint: key(21),
            metadata_uri: String::from("https://nft/7"),
            minted_at: 99,
            cooldown_end_timestamp: None,
            discount_percent: None,
            fusion_level: 0,
            parent_nfts: None,
            rarity_score: 0,
        })
    );
    assert_eq!(ctx.project.last_activity_timestamp, 99);
}

#[test]
fn minting_checks_its_arguments() {
    let attempt =
        |change: &dyn Fn(&mut MintNft), id: &str, uri: &str, traits: Option<Vec<u8>>| {
            let mut ctx = minting(true);
            change(&mut ctx);
            let before = ctx.clone();
            let result = mint_nft(&mut ctx, String::from(id), String::from(uri), traits, 99);
            assert_eq!(ctx, before);
            result.unwrap_err()
        };
    assert_eq!(attempt(&|_| (), "second", "u", None), MarketplaceError::CollectionNotFound);
    assert_eq!(
        attempt(&|ctx| ctx.project.is_active = false, "genesis", "u", None),
        MarketplaceError::ProjectNotFound
    );
    assert_eq!(
        attempt(
            &|ctx| {
                let mut other = minting(true);
                mint_nft(&mut other, String::from("genesis"), String::from("u"), None, 1).unwrap();
                ctx.nft_data = other.nft_data;
            },
            "genesis",
            "u",
            None
        ),
        MarketplaceError::InvalidTokenMint
    );
    assert_eq!(attempt(&|_| (), "genesis", "", None), MarketplaceError::InvalidMetadataUri);
    assert_eq!(
        attempt(&|_| (), "genesis", "u", Some(vec![])),
        MarketplaceError::InvalidTraitsSelection
    );
}

#[test]
fn errors_say_what_went_wrong() {
    assert_eq!(
        MarketplaceError::InvalidDiscountPercentage.message(),
        "Invalid discount percentage. Must be between 0 and 100."
    );
    assert_eq!(MarketplaceError::TokenPriceTooLow.message(), "Token price is too low.");
    assert_eq!(
        MarketplaceError::StaleOracleFeed.message(),
        "Oracle price feed is stale or unavailable."
    );
    assert_eq!(MarketplaceError::TraitValidationFailed.message(), "Trait validation failed.");
    assert_ne!(
        MarketplaceError::EscrowNotActive.message(),
        MarketplaceError::TokenEscrowNotActive.message()
    );
}
