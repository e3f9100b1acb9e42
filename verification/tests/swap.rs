use nft_fusion_marketplace::errors::MarketplaceError;
use nft_fusion_marketplace::modules::cooldown::{check_cooldown_expired, get_remaining_cooldown};
use nft_fusion_marketplace::modules::mint::{MintKind, MintRequest};
use nft_fusion_marketplace::modules::oracle::PriceSource;
use nft_fusion_marketplace::modules::redeem::{redeem_nft_for_token, RedeemNftForToken};
use nft_fusion_marketplace::modules::swap::{
    apply_discount, set_cooldown, swap_token_for_nft, SwapTokenForNft,
};
use nft_fusion_marketplace::state::{
    Address, Collection, LiquidityPool, NftData, PlatformConfig, Project, TokenAccount,
    TokenTransfer, TransferAuthority,
};

const USER: u8 = 1;
const NFT: u8 = 2;
const TOKEN: u8 = 3;
const COLLECTION: u8 = 4;
const PROJECT: u8 = 5;
const RESERVES: u8 = 6;
const WALLET: u8 = 7;
const PLATFORM: u8 = 8;
const TREASURY: u8 = 9;
const ROYALTIES: u8 = 10;

fn key(byte: u8) -> Address {
    Address { bytes: [byte; 32] }
}

fn account(address: u8, owner: u8, mint: u8, amount: u64) -> TokenAccount {
    TokenAccount { address: key(address), mint: key(mint), owner: key(owner), amount }
}

fn pool(updated: i64) -> LiquidityPool {
    LiquidityPool {
        project: key(PROJECT),
        token_mint: key(TOKEN),
        lp_token_account: key(RESERVES),
        created_at: 0,
        last_activity: 0,
        oracle_price_usd: Some(200_000_000),
        oracle_price_last_update: updated,
        redemption_locked: false,
        price_source: PriceSource::DexLiquidity,
    }
}

fn project(wallet: Option<Address>) -> Project {
    Project {
        authority: key(20),
        project_id: String::from("apes"),
        project_treasury: key(TREASURY),
        royalty_wallet: wallet,
        royalty_basis_points: 500,
        last_activity_timestamp: 0,
        is_active: true,
    }
}

fn swap() -> SwapTokenForNft {
    SwapTokenForNft {
        user: key(USER),
        platform_config: PlatformConfig {
            authority: key(21),
            platform_fee_basis_points: 200,
            platform_treasury: key(PLATFORM),
        },
        collection_key: key(COLLECTION),
        collection: Collection {
            project: key(PROJECT),
            collection_id: String::from("genesis"),
            metadata_uri: String::from("https://nft"),
            token_mint: Some(key(TOKEN)),
            is_compressed: true,
        },
        project: project(Some(key(ROYALTIES))),
        liquidity_pool: pool(1_000),
        user_token_account: account(WALLET, USER, TOKEN, 2_000_000_000),
        lp_token_account: account(RESERVES, PROJECT, TOKEN, 0),
        token_mint: key(TOKEN),
        platform_treasury: key(PLATFORM),
        project_treasury: key(TREASURY),
        royalty_wallet: key(ROYALTIES),
        nft_mint: key(NFT),
        nft_data: None,
    }
}

fn from_pool(to: u8, amount: u64) -> TokenTransfer {
    TokenTransfer {
        from: key(RESERVES),
        to: key(to),
        authority: TransferAuthority::LiquidityPool(key(PROJECT)),
        amount,
    }
}

fn nft(cooldown_end: Option<i64>) -> NftData {
    NftData {
        owner: key(USER),
        collection: key(COLLECTION),
        mint: key(NFT),
        metadata_uri: String::new(),
        minted_at: 0,
        cooldown_end_timestamp: cooldown_end,
        discount_percent: None,
        fusion_level: 0,
        parent_nfts: None,
        rarity_score: 0,
    }
}

fn redeem(cooldown_end: Option<i64>) -> RedeemNftForToken {
    RedeemNftForToken {
        user: key(USER),
        user_funds: 100,
        nft_data: Some(nft(cooldown_end)),
        nft_data_deposit: 11,
        project: project(None),
        liquidity_pool: pool(1_000),
        nft_mint: key(NFT),
        user_nft_account: account(40, USER, NFT, 1),
        user_token_account: account(WALLET, USER, TOKEN, 0),
        lp_token_account: account(RESERVES, PROJECT, TOKEN, 1_000_000_000),
        token_mint: key(TOKEN),
    }
}

#[test]
fn discount_of_twenty_percent() {
    assert_eq!(apply_discount(1_000_000_000, Some(20)), Ok(800_000_000));
    assert_eq!(apply_discount(1_000_000_000, None), Ok(1_000_000_000));
    assert_eq!(apply_discount(1_000_000_000, Some(0)), Ok(1_000_000_000));
    assert_eq!(apply_discount(1_000_000_000, Some(100)), Ok(0));
    assert_eq!(apply_discount(999, Some(33)), Ok(669));
    assert_eq!(apply_discount(u64::MAX, Some(100)), Ok(0));
    assert_eq!(apply_discount(u64::MAX, None), Ok(u64::MAX));
}

#[test]
fn discount_is_rejected_or_overflows() {
    assert_eq!(apply_discount(10, Some(101)), Err(MarketplaceError::InvalidDiscountPercentage));
    assert_eq!(apply_discount(0, Some(255)), Err(MarketplaceError::InvalidDiscountPercentage));
    assert_eq!(apply_discount(u64::MAX, Some(0)), Err(MarketplaceError::CalculationOverflow));
    assert_eq!(apply_discount(u64::MAX / 2, Some(98)), Ok(u64::MAX / 2 * 2 / 100));
    assert_eq!(
        apply_discount(u64::MAX / 2 + 1, Some(98)),
        Err(MarketplaceError::CalculationOverflow)
    );
}

#[test]
fn cooldown_needs_a_discount_and_a_positive_period() {
    assert_eq!(set_cooldown(Some(20), Some(86_400), 1_000), Ok(Some(87_400)));
    assert_eq!(set_cooldown(None, Some(86_400), 1_000), Ok(None));
    assert_eq!(set_cooldown(None, Some(-1), 1_000), Ok(None));
    assert_eq!(set_cooldown(Some(20), None, 1_000), Ok(None));
    assert_eq!(
        set_cooldown(Some(20), Some(0), 1_000),
        Err(MarketplaceError::InvalidCooldownPeriod)
    );
    assert_eq!(
        set_cooldown(Some(0), Some(-7), 1_000),
        Err(MarketplaceError::InvalidCooldownPeriod)
    );
    assert_eq!(
        set_cooldown(Some(20), Some(1), i64::MAX),
        Err(MarketplaceError::CalculationOverflow)
    );
}

#[test]
fn swap_with_discount_and_cooldown() {
    let mut ctx = swap();
    let receipt = swap_token_for_nft(
        &mut ctx,
        String::from("genesis"),
        1_000_000_000,
        Some(20),
        Some(86_400),
        2_000,
    )
    .unwrap();
    assert_eq!(
        receipt.transfers,
        vec![
            TokenTransfer {
                from: key(WALLET),
                to: key(RESERVES),
                authority: TransferAuthority::Signer(key(USER)),
                amount: 800_000_000,
            },
            from_pool(PLATFORM, 16_000_000),
            from_pool(TREASURY, 744_000_000),
            from_pool(ROYALTIES, 40_000_000),
        ]
    );
    assert_eq!(
        receipt.mint,
        MintRequest {
            owner: key(USER),
            nft_mint: key(NFT),
            metadata_uri: String::from("metadata_uri_placeholder"),
            collection: key(COLLECTION),
            kind: MintKind::Compressed,
        }
    );
    assert_eq!(
        ctx.nft_data,
        Some(NftData {
            owner: key(USER),
            collection: key(COLLECTION),
            mint: key(NFT),
            metadata_uri: String::new(),
            minted_at: 2_000,
            cooldown_end_timestamp: Some(88_400),
            discount_percent: Some(20),
            fusion_level: 0,
            parent_nfts: None,
            rarity_score: 0,
        })
    );
    assert_eq!(ctx.project.last_activity_timestamp, 2_000);
    assert_eq!(ctx.liquidity_pool.last_activity, 2_000);
    assert_eq!(ctx.liquidity_pool.oracle_price_usd, Some(200_000_000));
}

#[test]
fn swap_pays_out_no_more_than_it_takes_in() {
    let mut ctx = swap();
    ctx.platform_config.platform_fee_basis_points = 3_333;
    ctx.project.royalty_basis_points = 3_333;
    let receipt =
        swap_token_for_nft(&mut ctx, String::from("genesis"), 1_000_003, None, None, 1_000)
            .unwrap();
    let paid_in = receipt.transfers[0].amount;
    let paid_out: u64 = receipt.transfers[1..].iter().map(|transfer| transfer.amount).sum();
    assert_eq!(paid_in, 1_000_003);
    assert_eq!(paid_out, 333_300 + 333_401 + 333_300);
    assert!(paid_out <= paid_in);
}

#[test]
fn swap_without_royalty_wallet_takes_no_royalty() {
    let mut ctx = swap();
    ctx.project = project(None);
    ctx.royalty_wallet = key(TREASURY);
    ctx.collection.is_compressed = false;
    let receipt =
        swap_token_for_nft(&mut ctx, String::from("genesis"), 1_000_000, None, Some(5), 1_000)
            .unwrap();
    assert_eq!(
        receipt.transfers[1..],
        [from_pool(PLATFORM, 20_000), from_pool(TREASURY, 930_000)]
    );
    assert_eq!(receipt.mint.kind, MintKind::Standard);
    // No discount, so no cooldown.
    assert_eq!(ctx.nft_data.unwrap().cooldown_end_timestamp, None);
}

#[test]
fn swap_with_royalty_wallet_pays_the_royalty_to_it() {
    let mut ctx = swap();
    let receipt =
        swap_token_for_nft(&mut ctx, String::from("genesis"), 1_000_000, None, None, 1_000)
            .unwrap();
    assert_eq!(
        receipt.transfers[1..],
        [from_pool(PLATFORM, 20_000), from_pool(TREASURY, 930_000), from_pool(ROYALTIES, 50_000)]
    );
}

#[test]
fn swap_needs_a_usable_price() {
    let mut ctx = swap();
    assert_eq!(
        swap_token_for_nft(&mut ctx, String::from("genesis"), 1, None, None, 4_601),
        Err(MarketplaceError::StaleOracleFeed)
    );
    assert_eq!(ctx, swap());
    ctx.liquidity_pool.redemption_locked = true;
    assert_eq!(
        swap_token_for_nft(&mut ctx, String::from("genesis"), 1, None, None, 1_000),
        Err(MarketplaceError::RedemptionLocked)
    );
    ctx.liquidity_pool.redemption_locked = false;
    ctx.liquidity_pool.oracle_price_usd = None;
    assert_eq!(
        swap_token_for_nft(&mut ctx, String::from("genesis"), 1, None, None, 1_000),
        Err(MarketplaceError::StaleOracleFeed)
    );
}

#[test]
fn swap_checks_accounts_and_arguments() {
    let attempt = |change: &dyn Fn(&mut SwapTokenForNft),
                   amount: u64,
                   discount: Option<u8>,
                   cooldown: Option<i64>,
                   now: i64| {
        let mut ctx = swap();
        change(&mut ctx);
        let before = ctx.clone();
        let result =
            swap_token_for_nft(&mut ctx, String::from("genesis"), amount, discount, cooldown, now);
        assert_eq!(ctx, before);
        result.unwrap_err()
    };
    assert_eq!(
        attempt(&|ctx| ctx.project.is_active = false, 1, None, None, 1_000),
        MarketplaceError::ProjectNotFound
    );
    assert_eq!(
        attempt(&|ctx| ctx.user_token_account.owner = key(99), 1, None, None, 1_000),
        MarketplaceError::InvalidTokenAccount
    );
    assert_eq!(
        attempt(&|ctx| ctx.lp_token_account.address = key(99), 1, None, None, 1_000),
        MarketplaceError::InvalidTokenAccount
    );
    assert_eq!(
        attempt(&|ctx| ctx.liquidity_pool.token_mint = key(99), 1, None, None, 1_000),
        MarketplaceError::InvalidTokenMint
    );
    assert_eq!(
        attempt(&|ctx| ctx.platform_treasury = key(99), 1, None, None, 1_000),
        MarketplaceError::InvalidTokenAccount
    );
    assert_eq!(
        attempt(&|ctx| ctx.project_treasury = key(99), 1, None, None, 1_000),
        MarketplaceError::InvalidTokenAccount
    );
    assert_eq!(
        attempt(&|ctx| ctx.royalty_wallet = key(TREASURY), 1, None, None, 1_000),
        MarketplaceError::InvalidTokenAccount
    );
    assert_eq!(
        attempt(&|ctx| ctx.nft_data = Some(nft(None)), 1, None, None, 1_000),
        MarketplaceError::InvalidTokenMint
    );
    assert_eq!(
        attempt(&|ctx| ctx.collection.collection_id = String::from("second"), 1, None, None, 1_000),
        MarketplaceError::CollectionNotFound
    );
    assert_eq!(
        attempt(&|ctx| ctx.collection.token_mint = None, 1, None, None, 1_000),
        MarketplaceError::NoTokenMintSpecified
    );
    assert_eq!(
        attempt(&|ctx| ctx.collection.token_mint = Some(key(99)), 1, None, None, 1_000),
        MarketplaceError::NoTokenMintSpecified
    );
    assert_eq!(
        attempt(&|_| (), 1, Some(101), None, 1_000),
        MarketplaceError::InvalidDiscountPercentage
    );
    assert_eq!(
        attempt(&|_| (), u64::MAX, Some(50), None, 1_000),
        MarketplaceError::CalculationOverflow
    );
    assert_eq!(
        attempt(&|_| (), 2_000_000_001, None, None, 1_000),
        MarketplaceError::InsufficientTokenAmount
    );
    assert_eq!(
        attempt(&|ctx| ctx.project.royalty_basis_points = 9_801, 1, None, None, 1_000),
        MarketplaceError::CalculationOverflow
    );
    assert_eq!(
        attempt(&|_| (), 1, Some(10), Some(0), 1_000),
        MarketplaceError::InvalidCooldownPeriod
    );
    assert_eq!(
        attempt(
            &|ctx| ctx.liquidity_pool.oracle_price_last_update = i64::MAX,
            1,
            Some(10),
            Some(1),
            i64::MAX
        ),
        MarketplaceError::CalculationOverflow
    );
}

#[test]
fn swap_at_a_discount_may_cost_less_than_the_user_holds() {
    let mut ctx = swap();
    // 4,000,000,000 at 50% is what the user holds exactly.
    assert!(swap_token_for_nft(
        &mut ctx,
        String::from("genesis"),
        4_000_000_000,
        Some(50),
        None,
        1_000
    )
    .is_ok());
}

#[test]
fn cooldown_gates_redemption() {
    assert_eq!(check_cooldown_expired(&nft(None), 0), Ok(()));
    assert_eq!(check_cooldown_expired(&nft(Some(500)), 500), Ok(()));
    assert_eq!(check_cooldown_expired(&nft(Some(500)), 499), Err(MarketplaceError::NftInCooldown));
    assert_eq!(get_remaining_cooldown(&nft(Some(500)), 499), Ok(Some(1)));
    assert_eq!(get_remaining_cooldown(&nft(Some(500)), -500), Ok(Some(1_000)));
    assert_eq!(get_remaining_cooldown(&nft(Some(500)), 500), Ok(None));
    assert_eq!(get_remaining_cooldown(&nft(None), 0), Ok(None));
    assert_eq!(
        get_remaining_cooldown(&nft(Some(i64::MAX)), -1),
        Err(MarketplaceError::CalculationOverflow)
    );
    assert_eq!(get_remaining_cooldown(&nft(Some(i64::MAX)), 0), Ok(Some(i64::MAX)));
}

#[test]
fn nft_is_redeemed_for_one_token() {
    let mut ctx = redeem(Some(900));
    assert_eq!(
        redeem_nft_for_token(&mut ctx, key(NFT), 1_200),
        Ok(from_pool(WALLET, 1_000_000_000))
    );
    assert_eq!(ctx.nft_data, None);
    assert_eq!(ctx.user_funds, 111);
    assert_eq!(ctx.nft_data_deposit, 0);
    assert_eq!(ctx.project.last_activity_timestamp, 1_200);
    assert_eq!(ctx.liquidity_pool.last_activity, 1_200);
    let after = ctx.clone();
    assert_eq!(redeem_nft_for_token(&mut ctx, key(NFT), 1_200), Err(MarketplaceError::NotNftOwner));
    assert_eq!(ctx, after);
}

#[test]
fn redemption_for_token_checks_everything() {
    let attempt = |change: &dyn Fn(&mut RedeemNftForToken), mint: u8, now: i64| {
        let mut ctx = redeem(Some(900));
        change(&mut ctx);
        let before = ctx.clone();
        let result = redeem_nft_for_token(&mut ctx, key(mint), now);
        assert_eq!(ctx, before);
        result.unwrap_err()
    };
    assert_eq!(attempt(&|ctx| ctx.nft_data = None, NFT, 1_000), MarketplaceError::NotNftOwner);
    assert_eq!(attempt(&|ctx| ctx.user = key(99), NFT, 1_000), MarketplaceError::NotNftOwner);
    assert_eq!(
        attempt(&|ctx| ctx.project.is_active = false, NFT, 1_000),
        MarketplaceError::ProjectNotFound
    );
    assert_eq!(
        attempt(&|ctx| ctx.liquidity_pool.redemption_locked = true, NFT, 1_000),
        MarketplaceError::RedemptionLocked
    );
    assert_eq!(
        attempt(&|ctx| ctx.user_nft_account.mint = key(99), NFT, 1_000),
        MarketplaceError::InvalidTokenAccount
    );
    assert_eq!(
        attempt(&|ctx| ctx.user_token_account.owner = key(99), NFT, 1_000),
        MarketplaceError::InvalidTokenAccount
    );
    assert_eq!(
        attempt(&|ctx| ctx.lp_token_account.address = key(99), NFT, 1_000),
        MarketplaceError::InvalidTokenAccount
    );
    assert_eq!(
        attempt(&|ctx| ctx.liquidity_pool.token_mint = key(99), NFT, 1_000),
        MarketplaceError::InvalidTokenMint
    );
    assert_eq!(attempt(&|_| (), 99, 1_000), MarketplaceError::NotNftOwner);
    assert_eq!(attempt(&|_| (), NFT, 4_601), MarketplaceError::StaleOracleFeed);
    assert_eq!(
        attempt(&|ctx| ctx.liquidity_pool.oracle_price_usd = None, NFT, 1_000),
        MarketplaceError::StaleOracleFeed
    );
    assert_eq!(attempt(&|_| (), NFT, 899), MarketplaceError::NftInCooldown);
    assert_eq!(
        attempt(&|ctx| ctx.lp_token_account.amount = 999_999_999, NFT, 1_000),
        MarketplaceError::InsufficientLiquidity
    );
    assert_eq!(
        attempt(&|ctx| ctx.user_funds = u64::MAX - 10, NFT, 1_000),
        MarketplaceError::CalculationOverflow
    );
}
