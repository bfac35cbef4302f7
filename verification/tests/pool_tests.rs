use amm::{
    add_liquidity, create_pool, initialize, remove_liquidity, swap, AddLiquidity, CreatePool,
    ErrorCode, Initialize, Mint, Pool, Pubkey, RemoveLiquidity, Swap, TokenAccount,
};

const TOKEN_A: u8 = 1;
const TOKEN_B: u8 = 2;
const SHARE: u8 = 3;
const USER: u8 = 9;

fn key(n: u8) -> Pubkey {
    Pubkey::new([n; 32])
}

fn account(n: u8, amount: u64) -> TokenAccount {
    TokenAccount { mint: key(n), amount }
}

fn pool() -> Pool {
    Pool { mint_a: key(TOKEN_A), mint_b: key(TOKEN_B) }
}

fn new_pool_accounts(user_a: u64, user_b: u64) -> CreatePool {
    CreatePool {
        signer: key(USER),
        mint_a: Mint { key: key(TOKEN_A), supply: 10_000_000 },
        mint_b: Mint { key: key(TOKEN_B), supply: 10_000_000 },
        user_token_account_a: account(TOKEN_A, user_a),
        user_token_account_b: account(TOKEN_B, user_b),
        pool: None,
        pool_token_account_a: account(0, 0),
        pool_token_account_b: account(0, 0),
        lp_mint: Mint { key: key(SHARE), supply: 0 },
        metadata_registered: false,
        user_lp_token_account: account(0, 0),
    }
}

fn deposit_accounts(
    user_a: u64,
    user_b: u64,
    reserve_a: u64,
    reserve_b: u64,
    supply: u64,
    user_lp: u64,
) -> AddLiquidity {
    AddLiquidity {
        signer: key(USER),
        mint_a: Mint { key: key(TOKEN_A), supply: 10_000_000 },
        mint_b: Mint { key: key(TOKEN_B), supply: 10_000_000 },
        pool: pool(),
        user_token_account_a: account(TOKEN_A, user_a),
        user_token_account_b: account(TOKEN_B, user_b),
        pool_token_account_a: account(TOKEN_A, reserve_a),
        lp_mint: Mint { key: key(SHARE), supply },
        pool_token_account_b: account(TOKEN_B, reserve_b),
        user_lp_token_account: account(SHARE, user_lp),
    }
}

fn redemption_accounts(
    user_lp: u64,
    supply: u64,
    reserve_a: u64,
    reserve_b: u64,
    user_a: u64,
    user_b: u64,
) -> RemoveLiquidity {
    RemoveLiquidity {
        signer: key(USER),
        lp_mint: Mint { key: key(SHARE), supply },
        lp_mint_token_account: account(SHARE, user_lp),
        token_a_mint: Mint { key: key(TOKEN_A), supply: 10_000_000 },
        token_b_mint: Mint { key: key(TOKEN_B), supply: 10_000_000 },
        pool: pool(),
        pool_token_account_a: account(TOKEN_A, reserve_a),
        pool_token_account_b: account(TOKEN_B, reserve_b),
        user_token_account_a: account(TOKEN_A, user_a),
        user_token_account_b: account(TOKEN_B, user_b),
    }
}

fn swap_accounts(input: u8, reserve_a: u64, reserve_b: u64, user_a: u64, user_b: u64) -> Swap {
    Swap {
        signer: key(USER),
        pool: pool(),
        input_mint: Mint { key: key(input), supply: 10_000_000 },
        pool_token_account_a: account(TOKEN_A, reserve_a),
        pool_token_account_b: account(TOKEN_B, reserve_b),
        user_token_account_a: account(TOKEN_A, user_a),
        user_token_account_b: account(TOKEN_B, user_b),
    }
}

fn swap_balances(ctx: &Swap) -> (u64, u64, u64, u64) {
    (
        ctx.pool_token_account_a.amount,
        ctx.pool_token_account_b.amount,
        ctx.user_token_account_a.amount,
        ctx.user_token_account_b.amount,
    )
}

#[test]
fn initialize_records_signer_and_fee() {
    let mut ctx = Initialize { signer: key(USER), amm: None };
    assert_eq!(initialize(&mut ctx, 30), Ok(()));
    let amm = ctx.amm.unwrap();
    assert!(amm.user.equals(&key(USER)));
    assert_eq!(amm.fee, 30);
    assert_eq!(amm.lp_mint.to_bytes(), [0u8; 32]);
}

#[test]
fn initialize_only_once() {
    let mut ctx = Initialize { signer: key(USER), amm: None };
    assert_eq!(initialize(&mut ctx, 30), Ok(()));
    ctx.signer = key(7);
    assert_eq!(initialize(&mut ctx, 99), Err(ErrorCode::AlreadyInitialized));
    let amm = ctx.amm.unwrap();
    assert!(amm.user.equals(&key(USER)));
    assert_eq!(amm.fee, 30);
}

#[test]
fn create_pool_scenario() {
    let mut ctx = new_pool_accounts(1_500_000, 4_000_000);
    assert_eq!(create_pool(&mut ctx, 1_000_000, 4_000_000), Ok(2_000_000));
    assert_eq!(ctx.pool_token_account_a.amount, 1_000_000);
    assert_eq!(ctx.pool_token_account_b.amount, 4_000_000);
    assert_eq!(ctx.user_token_account_a.amount, 500_000);
    assert_eq!(ctx.user_token_account_b.amount, 0);
    assert_eq!(ctx.lp_mint.supply, 2_000_000);
    assert_eq!(ctx.user_lp_token_account.amount, 2_000_000);
    assert!(ctx.metadata_registered);
    let created = ctx.pool.unwrap();
    assert!(created.mint_a.equals(&key(TOKEN_A)));
    assert!(created.mint_b.equals(&key(TOKEN_B)));
    assert!(ctx.pool_token_account_a.mint.equals(&key(TOKEN_A)));
    assert!(ctx.pool_token_account_b.mint.equals(&key(TOKEN_B)));
    assert!(ctx.user_lp_token_account.mint.equals(&key(SHARE)));
    assert!(ctx.lp_mint.key.equals(&key(SHARE)));
}

#[test]
fn create_pool_replaces_what_the_new_accounts_held() {
    let mut ctx = new_pool_accounts(100, 100);
    ctx.pool_token_account_a = account(0, 77);
    ctx.pool_token_account_b = account(0, 88);
    ctx.lp_mint.supply = 99;
    ctx.user_lp_token_account = account(0, 55);
    assert_eq!(create_pool(&mut ctx, 9, 4), Ok(6));
    assert_eq!(ctx.pool_token_account_a.amount, 9);
    assert_eq!(ctx.pool_token_account_b.amount, 4);
    assert_eq!(ctx.lp_mint.supply, 6);
    assert_eq!(ctx.user_lp_token_account.amount, 6);
}

#[test]
fn create_pool_insufficient_balance() {
    let mut ctx = new_pool_accounts(999_999, 4_000_000);
    assert_eq!(create_pool(&mut ctx, 1_000_000, 4_000_000), Err(ErrorCode::InsufficientBalance));
    assert!(ctx.pool.is_none());
    assert_eq!(ctx.user_token_account_a.amount, 999_999);
    assert_eq!(ctx.user_token_account_b.amount, 4_000_000);
    assert!(!ctx.metadata_registered);

    let mut ctx = new_pool_accounts(1_000_000, 3_999_999);
    assert_eq!(create_pool(&mut ctx, 1_000_000, 4_000_000), Err(ErrorCode::InsufficientBalance));
    assert!(ctx.pool.is_none());
    assert_eq!(ctx.user_token_account_a.amount, 1_000_000);
}

#[test]
fn create_pool_only_once_per_pair() {
    let mut ctx = new_pool_accounts(100, 100);
    assert_eq!(create_pool(&mut ctx, 10, 10), Ok(10));
    assert_eq!(create_pool(&mut ctx, 10, 10), Err(ErrorCode::PoolAlreadyExists));
    assert_eq!(ctx.pool_token_account_a.amount, 10);
    assert_eq!(ctx.user_token_account_a.amount, 90);
    assert_eq!(ctx.lp_mint.supply, 10);
}

#[test]
fn create_pool_metadata_already_registered() {
    let mut ctx = new_pool_accounts(100, 100);
    ctx.metadata_registered = true;
    assert_eq!(create_pool(&mut ctx, 10, 10), Err(ErrorCode::MetadataRegistrationFailed));
    assert!(ctx.pool.is_none());
    assert_eq!(ctx.user_token_account_a.amount, 100);
    assert_eq!(ctx.user_token_account_b.amount, 100);
    assert_eq!(ctx.lp_mint.supply, 0);
}

#[test]
fn create_pool_with_largest_amounts() {
    let mut ctx = new_pool_accounts(u64::MAX, u64::MAX);
    assert_eq!(create_pool(&mut ctx, u64::MAX, u64::MAX), Ok(u64::MAX));
    assert_eq!(ctx.pool_token_account_a.amount, u64::MAX);
    assert_eq!(ctx.lp_mint.supply, u64::MAX);
}

#[test]
fn add_liquidity_mints_root_of_product() {
    let mut ctx = deposit_accounts(1_000, 1_000, 1_000_000, 4_000_000, 2_000_000, 5);
    assert_eq!(add_liquidity(&mut ctx, 100, 400), Ok(200));
    assert_eq!(ctx.user_token_account_a.amount, 900);
    assert_eq!(ctx.user_token_account_b.amount, 600);
    assert_eq!(ctx.pool_token_account_a.amount, 1_000_100);
    assert_eq!(ctx.pool_token_account_b.amount, 4_000_400);
    assert_eq!(ctx.lp_mint.supply, 2_000_200);
    assert_eq!(ctx.user_lp_token_account.amount, 205);
}

#[test]
fn add_liquidity_ignores_the_existing_ratio() {
    // The same deposit mints the same shares into any pool.
    let mut small = deposit_accounts(1_000, 1_000, 10, 10, 10, 0);
    let mut large = deposit_accounts(1_000, 1_000, 1_000_000, 9, 3_000, 0);
    assert_eq!(add_liquidity(&mut small, 20, 45), Ok(30));
    assert_eq!(add_liquidity(&mut large, 20, 45), Ok(30));
}

#[test]
fn add_liquidity_insufficient_balance() {
    let mut ctx = deposit_accounts(99, 1_000, 10, 10, 10, 0);
    assert_eq!(add_liquidity(&mut ctx, 100, 400), Err(ErrorCode::InsufficientBalance));
    assert_eq!(ctx.pool_token_account_a.amount, 10);
    let mut ctx = deposit_accounts(1_000, 399, 10, 10, 10, 0);
    assert_eq!(add_liquidity(&mut ctx, 100, 400), Err(ErrorCode::InsufficientBalance));
    assert_eq!(ctx.user_token_account_a.amount, 1_000);
    assert_eq!(ctx.pool_token_account_a.amount, 10);
    assert_eq!(ctx.pool_token_account_b.amount, 10);
    assert_eq!(ctx.lp_mint.supply, 10);
}

#[test]
fn add_liquidity_overflow() {
    let mut ctx = deposit_accounts(1_000, 1_000, u64::MAX - 5, 10, 10, 0);
    assert_eq!(add_liquidity(&mut ctx, 6, 6), Err(ErrorCode::MathOverflow));
    assert_eq!(ctx.user_token_account_a.amount, 1_000);
    assert_eq!(ctx.pool_token_account_a.amount, u64::MAX - 5);
    let mut ctx = deposit_accounts(1_000, 1_000, 10, 10, u64::MAX - 5, 0);
    assert_eq!(add_liquidity(&mut ctx, 6, 6), Err(ErrorCode::MathOverflow));
    assert_eq!(ctx.user_token_account_a.amount, 1_000);
    assert_eq!(ctx.user_token_account_b.amount, 1_000);
    assert_eq!(ctx.pool_token_account_a.amount, 10);
    assert_eq!(ctx.pool_token_account_b.amount, 10);
    assert_eq!(ctx.lp_mint.supply, u64::MAX - 5);
}

#[test]
fn remove_liquidity_scenario() {
    let mut ctx = redemption_accounts(600_000, 2_000_000, 1_000_000, 4_000_000, 7, 11);
    assert_eq!(remove_liquidity(&mut ctx, 500_000), Ok((250_000, 1_000_000)));
    assert_eq!(ctx.lp_mint.supply, 1_500_000);
    assert_eq!(ctx.lp_mint_token_account.amount, 100_000);
    assert_eq!(ctx.pool_token_account_a.amount, 750_000);
    assert_eq!(ctx.pool_token_account_b.amount, 3_000_000);
    assert_eq!(ctx.user_token_account_a.amount, 250_007);
    assert_eq!(ctx.user_token_account_b.amount, 1_000_011);
}

#[test]
fn remove_liquidity_pays_token_b_from_vault_b() {
    let mut ctx = redemption_accounts(10, 10, 100, 300, 0, 0);
    assert_eq!(remove_liquidity(&mut ctx, 5), Ok((50, 150)));
    assert_eq!(ctx.pool_token_account_a.amount, 50);
    assert_eq!(ctx.user_token_account_a.amount, 50);
    assert_eq!(ctx.pool_token_account_b.amount, 150);
    assert_eq!(ctx.user_token_account_b.amount, 150);
}

#[test]
fn remove_liquidity_empty_pool() {
    let mut ctx = redemption_accounts(0, 0, 1_000_000, 4_000_000, 0, 0);
    assert_eq!(remove_liquidity(&mut ctx, 0), Err(ErrorCode::EmptyPool));
    assert_eq!(remove_liquidity(&mut ctx, 500_000), Err(ErrorCode::EmptyPool));
    assert_eq!(ctx.pool_token_account_a.amount, 1_000_000);
    assert_eq!(ctx.pool_token_account_b.amount, 4_000_000);
    let mut ctx = redemption_accounts(5, 0, 0, 0, 0, 0);
    assert_eq!(remove_liquidity(&mut ctx, 5), Err(ErrorCode::EmptyPool));
}

#[test]
fn remove_liquidity_insufficient_shares() {
    let mut ctx = redemption_accounts(499_999, 2_000_000, 1_000_000, 4_000_000, 0, 0);
    assert_eq!(remove_liquidity(&mut ctx, 500_000), Err(ErrorCode::InsufficientBalance));
    assert_eq!(ctx.lp_mint.supply, 2_000_000);
    assert_eq!(ctx.lp_mint_token_account.amount, 499_999);
    assert_eq!(ctx.pool_token_account_a.amount, 1_000_000);
    assert_eq!(ctx.user_token_account_a.amount, 0);
}

#[test]
fn remove_liquidity_overflow() {
    let mut ctx = redemption_accounts(10, 1, u64::MAX, 5, 0, 0);
    assert_eq!(remove_liquidity(&mut ctx, 2), Err(ErrorCode::MathOverflow));
    assert_eq!(ctx.lp_mint_token_account.amount, 10);
    let mut ctx = redemption_accounts(10, 10, 100, 100, u64::MAX - 9, 0);
    assert_eq!(remove_liquidity(&mut ctx, 1), Err(ErrorCode::MathOverflow));
    assert_eq!(ctx.lp_mint.supply, 10);
    assert_eq!(ctx.lp_mint_token_account.amount, 10);
    assert_eq!(ctx.pool_token_account_a.amount, 100);
    assert_eq!(ctx.pool_token_account_b.amount, 100);
    assert_eq!(ctx.user_token_account_b.amount, 0);
}

#[test]
fn remove_liquidity_rounds_down() {
    let mut ctx = redemption_accounts(3, 3, 10, 20, 0, 0);
    assert_eq!(remove_liquidity(&mut ctx, 1), Ok((3, 6)));
    assert_eq!(ctx.pool_token_account_a.amount, 7);
    assert_eq!(ctx.pool_token_account_b.amount, 14);
    assert_eq!(ctx.lp_mint.supply, 2);
}

#[test]
fn remove_then_add_restores_reserves() {
    let mut out = redemption_accounts(600_000, 2_000_000, 1_000_000, 4_000_000, 7, 11);
    let (a, b) = remove_liquidity(&mut out, 500_000).unwrap();
    let mut back = AddLiquidity {
        signer: out.signer,
        mint_a: out.token_a_mint,
        mint_b: out.token_b_mint,
        pool: out.pool,
        user_token_account_a: out.user_token_account_a,
        user_token_account_b: out.user_token_account_b,
        pool_token_account_a: out.pool_token_account_a,
        lp_mint: out.lp_mint,
        pool_token_account_b: out.pool_token_account_b,
        user_lp_token_account: out.lp_mint_token_account,
    };
    assert_eq!(add_liquidity(&mut back, a, b), Ok(500_000));
    assert_eq!(back.pool_token_account_a.amount, 1_000_000);
    assert_eq!(back.pool_token_account_b.amount, 4_000_000);
    assert_eq!(back.user_token_account_a.amount, 7);
    assert_eq!(back.user_token_account_b.amount, 11);
    assert_eq!(back.lp_mint.supply, 2_000_000);
    assert_eq!(back.user_lp_token_account.amount, 600_000);
}

#[test]
fn remove_then_add_can_miss_the_supply() {
    // A lopsided pool: the reserves come back, the share supply does not.
    let mut out = redemption_accounts(1_000_000, 1_000_000, 1_000_000_000_000, 1, 0, 0);
    let (a, b) = remove_liquidity(&mut out, 500_000).unwrap();
    assert_eq!((a, b), (500_000_000_000, 0));
    let mut back = AddLiquidity {
        signer: out.signer,
        mint_a: out.token_a_mint,
        mint_b: out.token_b_mint,
        pool: out.pool,
        user_token_account_a: out.user_token_account_a,
        user_token_account_b: out.user_token_account_b,
        pool_token_account_a: out.pool_token_account_a,
        lp_mint: out.lp_mint,
        pool_token_account_b: out.pool_token_account_b,
        user_lp_token_account: out.lp_mint_token_account,
    };
    assert_eq!(add_liquidity(&mut back, a, b), Ok(0));
    assert_eq!(back.pool_token_account_a.amount, 1_000_000_000_000);
    assert_eq!(back.pool_token_account_b.amount, 1);
    assert_eq!(back.lp_mint.supply, 500_000);
}

#[test]
fn swap_scenario_a_for_b() {
    let mut ctx = swap_accounts(TOKEN_A, 1_000_000, 4_000_000, 5_000, 10);
    assert_eq!(swap(&mut ctx, 1_000, 3_996), Ok(3_996));
    assert_eq!(swap_balances(&ctx), (1_001_000, 3_996_004, 4_000, 4_006));
}

#[test]
fn swap_b_for_a() {
    let mut ctx = swap_accounts(TOKEN_B, 4_000_000, 1_000_000, 10, 5_000);
    assert_eq!(swap(&mut ctx, 1_000, 0), Ok(3_996));
    assert_eq!(swap_balances(&ctx), (3_996_004, 1_001_000, 4_006, 4_000));
}

#[test]
fn swap_same_token_on_both_sides_sells_a() {
    let mut ctx = swap_accounts(TOKEN_A, 1_000, 1_000, 100, 0);
    ctx.pool.mint_b = key(TOKEN_A);
    assert_eq!(swap(&mut ctx, 100, 0), Ok(90));
    assert_eq!(swap_balances(&ctx), (1_100, 910, 0, 90));
}

#[test]
fn swap_direction() {
    assert_eq!(swap_accounts(TOKEN_A, 1, 1, 1, 1).direction(), Some(true));
    assert_eq!(swap_accounts(TOKEN_B, 1, 1, 1, 1).direction(), Some(false));
    assert_eq!(swap_accounts(SHARE, 1, 1, 1, 1).direction(), None);
}

#[test]
fn swap_invalid_input_token() {
    let mut ctx = swap_accounts(SHARE, 1_000_000, 4_000_000, 5_000, 5_000);
    assert_eq!(swap(&mut ctx, 1_000, 0), Err(ErrorCode::InvalidInputToken));
    assert_eq!(swap_balances(&ctx), (1_000_000, 4_000_000, 5_000, 5_000));
}

#[test]
fn swap_insufficient_balance() {
    let mut ctx = swap_accounts(TOKEN_A, 1_000_000, 4_000_000, 999, 5_000);
    assert_eq!(swap(&mut ctx, 1_000, 0), Err(ErrorCode::InsufficientBalance));
    assert_eq!(swap_balances(&ctx), (1_000_000, 4_000_000, 999, 5_000));
}

#[test]
fn swap_slippage_exceeded() {
    let mut ctx = swap_accounts(TOKEN_A, 1_000_000, 4_000_000, 5_000, 10);
    assert_eq!(swap(&mut ctx, 1_000, 3_997), Err(ErrorCode::SlippageExceeded));
    assert_eq!(swap_balances(&ctx), (1_000_000, 4_000_000, 5_000, 10));
    assert_eq!(swap(&mut ctx, 1_000, u64::MAX), Err(ErrorCode::SlippageExceeded));
    assert_eq!(swap_balances(&ctx), (1_000_000, 4_000_000, 5_000, 10));
}

#[test]
fn swap_overflow() {
    let mut ctx = swap_accounts(TOKEN_A, u64::MAX - 5, 4_000_000, 5_000, 10);
    assert_eq!(swap(&mut ctx, 6, 0), Err(ErrorCode::MathOverflow));
    assert_eq!(swap_balances(&ctx), (u64::MAX - 5, 4_000_000, 5_000, 10));
    let mut ctx = swap_accounts(TOKEN_A, 1_000_000, 4_000_000, 5_000, u64::MAX - 3_995);
    assert_eq!(swap(&mut ctx, 1_000, 0), Err(ErrorCode::MathOverflow));
    assert_eq!(swap_balances(&ctx), (1_000_000, 4_000_000, 5_000, u64::MAX - 3_995));
    let mut ctx = swap_accounts(TOKEN_A, 0, 4_000_000, 5_000, 0);
    assert_eq!(swap(&mut ctx, 0, 0), Err(ErrorCode::MathOverflow));
}

#[test]
fn swap_never_empties_a_vault() {
    let mut ctx = swap_accounts(TOKEN_A, 0, 4_000_000, 5_000, 0);
    assert_eq!(swap(&mut ctx, 1_000, 0), Err(ErrorCode::EmptyPool));
    assert_eq!(swap_balances(&ctx), (0, 4_000_000, 5_000, 0));
    let mut ctx = swap_accounts(TOKEN_A, 1_000_000, 0, 5_000, 0);
    assert_eq!(swap(&mut ctx, 1_000, 0), Err(ErrorCode::EmptyPool));
    assert_eq!(swap_balances(&ctx), (1_000_000, 0, 5_000, 0));
    let mut ctx = swap_accounts(TOKEN_A, 1, 2, u64::MAX - 1, 0);
    assert_eq!(swap(&mut ctx, u64::MAX - 1, 0), Ok(1));
    assert_eq!(swap_balances(&ctx), (u64::MAX, 1, 0, 1));
}

#[test]
fn swap_slippage_is_checked_before_the_empty_vault() {
    let mut ctx = swap_accounts(TOKEN_A, 0, 4_000_000, 5_000, 0);
    assert_eq!(swap(&mut ctx, 1_000, 4_000_001), Err(ErrorCode::SlippageExceeded));
}

#[test]
fn swap_conserves_reserves() {
    let inputs: Vec<u64> = vec![0, 1, 10, 999, 123_456];
    for amount_in in inputs {
        let mut ctx = swap_accounts(TOKEN_B, 777_777, 333_333, 4, 200_000);
        let out = swap(&mut ctx, amount_in, 0).unwrap();
        assert_eq!(ctx.pool_token_account_b.amount, 333_333 + amount_in);
        assert_eq!(ctx.pool_token_account_a.amount, 777_777 - out);
        assert_eq!(ctx.user_token_account_b.amount, 200_000 - amount_in);
        assert_eq!(ctx.user_token_account_a.amount, 4 + out);
    }
}

#[test]
fn swap_zero_input_pays_nothing() {
    let mut ctx = swap_accounts(TOKEN_A, 1_000_000, 4_000_000, 5_000, 10);
    assert_eq!(swap(&mut ctx, 0, 0), Ok(0));
    assert_eq!(swap_balances(&ctx), (1_000_000, 4_000_000, 5_000, 10));
}

#[test]
fn pool_lifecycle() {
    let mut created = new_pool_accounts(2_000_000, 5_000_000);
    assert_eq!(create_pool(&mut created, 1_000_000, 4_000_000), Ok(2_000_000));
    let mut trade = Swap {
        signer: created.signer,
        pool: created.pool.unwrap(),
        input_mint: created.mint_a,
        pool_token_account_a: created.pool_token_account_a,
        pool_token_account_b: created.pool_token_account_b,
        user_token_account_a: created.user_token_account_a,
        user_token_account_b: created.user_token_account_b,
    };
    assert_eq!(swap(&mut trade, 1_000, 3_000), Ok(3_996));
    let mut exit = RemoveLiquidity {
        signer: created.signer,
        lp_mint: created.lp_mint,
        lp_mint_token_account: created.user_lp_token_account,
        token_a_mint: created.mint_a,
        token_b_mint: created.mint_b,
        pool: trade.pool,
        pool_token_account_a: trade.pool_token_account_a,
        pool_token_account_b: trade.pool_token_account_b,
        user_token_account_a: trade.user_token_account_a,
        user_token_account_b: trade.user_token_account_b,
    };
    assert_eq!(remove_liquidity(&mut exit, 2_000_000), Ok((1_001_000, 3_996_004)));
    assert_eq!(exit.pool_token_account_a.amount, 0);
    assert_eq!(exit.pool_token_account_b.amount, 0);
    assert_eq!(exit.lp_mint.supply, 0);
    assert_eq!(exit.user_token_account_a.amount, 2_000_000);
    assert_eq!(exit.user_token_account_b.amount, 5_000_000);
    assert_eq!(remove_liquidity(&mut exit, 1), Err(ErrorCode::EmptyPool));
}
