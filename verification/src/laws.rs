//! What holds of the instructions taken together.

use vstd::prelude::*;
use crate::liquidity::{
    add_liquidity_next,
    add_liquidity_result,
    remove_liquidity_next,
    remove_liquidity_result,
    AddLiquidity,
    RemoveLiquidity,
};
use crate::math::{
    floor_sqrt,
    lemma_floor_div_bounds,
    lemma_floor_sqrt_of_square,
    lemma_shares_fit,
    lemma_swap_output_monotonic,
    lemma_swap_output_strictly_increasing,
};
use crate::registry::{create_pool_next, create_pool_result, CreatePool};
use crate::state::ErrorCode;
use crate::exchange::{swap_next, swap_result, Swap};

verus! {

/// Creating a pool succeeds whenever no pool exists for the pair, the creator holds both
/// deposits and the share token carries no metadata yet. It then issues
/// `floor(sqrt(a * b))` share tokens, all of them to the creator, and each vault holds
/// exactly what was deposited into it.
pub proof fn lemma_create_pool_issues_root_shares(
    ctx: CreatePool,
    token_amount_a: u64,
    token_amount_b: u64,
)
    requires
        ctx.pool is None,
        !ctx.metadata_registered,
        ctx.user_token_account_a.amount >= token_amount_a,
        ctx.user_token_account_b.amount >= token_amount_b,
    ensures
        floor_sqrt(token_amount_a as nat * token_amount_b as nat) <= u64::MAX,
        create_pool_result(ctx, token_amount_a, token_amount_b) == Ok::<u64, ErrorCode>(
            floor_sqrt(token_amount_a as nat * token_amount_b as nat) as u64,
        ),
        create_pool_next(ctx, token_amount_a, token_amount_b).pool_token_account_a.amount
            == token_amount_a,
        create_pool_next(ctx, token_amount_a, token_amount_b).pool_token_account_b.amount
            == token_amount_b,
        create_pool_next(ctx, token_amount_a, token_amount_b).lp_mint.supply == floor_sqrt(
            token_amount_a as nat * token_amount_b as nat,
        ),
        create_pool_next(ctx, token_amount_a, token_amount_b).user_lp_token_account.amount
            == floor_sqrt(token_amount_a as nat * token_amount_b as nat),
{
    lemma_shares_fit(token_amount_a, token_amount_b);
}

/// The accounts of a redemption, seen as the accounts of a deposit by the same caller into
/// the same pool.
pub open spec fn deposit_accounts(ctx: RemoveLiquidity) -> AddLiquidity {
    AddLiquidity {
        signer: ctx.signer,
        mint_a: ctx.token_a_mint,
        mint_b: ctx.token_b_mint,
        pool: ctx.pool,
        user_token_account_a: ctx.user_token_account_a,
        user_token_account_b: ctx.user_token_account_b,
        pool_token_account_a: ctx.pool_token_account_a,
        lp_mint: ctx.lp_mint,
        pool_token_account_b: ctx.pool_token_account_b,
        user_lp_token_account: ctx.lp_mint_token_account,
    }
}

/// The accounts after redeeming `lp_amount` share tokens and depositing the two amounts
/// received straight back.
pub open spec fn after_round_trip(ctx: RemoveLiquidity, lp_amount: u64) -> AddLiquidity {
    let amounts = remove_liquidity_result(ctx, lp_amount)->Ok_0;
    add_liquidity_next(
        deposit_accounts(remove_liquidity_next(ctx, lp_amount)),
        amounts.0,
        amounts.1,
    )
}

/// Redeeming share tokens and depositing the proceeds straight back, when both succeed,
/// puts every token balance back exactly: both vaults and both of the caller's accounts.
/// Each redeemed amount falls short of the exact proportional share by less than one unit.
/// The share supply ends at the old supply, less the shares burned, plus
/// `floor(sqrt(a * b))` for the amounts `a` and `b` paid out; so it is back within one unit
/// exactly when that root is within one unit of the shares burned.
pub proof fn lemma_remove_then_add_round_trip(ctx: RemoveLiquidity, lp_amount: u64)
    requires
        remove_liquidity_result(ctx, lp_amount) is Ok,
        add_liquidity_result(
            deposit_accounts(remove_liquidity_next(ctx, lp_amount)),
            remove_liquidity_result(ctx, lp_amount)->Ok_0.0,
            remove_liquidity_result(ctx, lp_amount)->Ok_0.1,
        ) is Ok,
    ensures
        ({
            let amounts = remove_liquidity_result(ctx, lp_amount)->Ok_0;
            let end = after_round_trip(ctx, lp_amount);
            let minted = floor_sqrt(amounts.0 as nat * amounts.1 as nat);
            &&& end.pool_token_account_a == ctx.pool_token_account_a
            &&& end.pool_token_account_b == ctx.pool_token_account_b
            &&& end.user_token_account_a == ctx.user_token_account_a
            &&& end.user_token_account_b == ctx.user_token_account_b
            &&& amounts.0 * ctx.lp_mint.supply <= ctx.pool_token_account_a.amount * lp_amount
                < (amounts.0 + 1) * ctx.lp_mint.supply
            &&& amounts.1 * ctx.lp_mint.supply <= ctx.pool_token_account_b.amount * lp_amount
                < (amounts.1 + 1) * ctx.lp_mint.supply
            &&& end.lp_mint.supply == ctx.lp_mint.supply - lp_amount + minted
            &&& end.user_lp_token_account.amount == ctx.lp_mint_token_account.amount - lp_amount
                + minted
            &&& (ctx.lp_mint.supply - 1 <= end.lp_mint.supply <= ctx.lp_mint.supply + 1 <==> lp_amount
                - 1 <= minted <= lp_amount + 1)
        }),
{
    let amounts = remove_liquidity_result(ctx, lp_amount)->Ok_0;
    lemma_shares_fit(amounts.0, amounts.1);
    lemma_floor_div_bounds(
        ctx.pool_token_account_a.amount as nat * lp_amount as nat,
        ctx.lp_mint.supply as nat,
    );
    lemma_floor_div_bounds(
        ctx.pool_token_account_b.amount as nat * lp_amount as nat,
        ctx.lp_mint.supply as nat,
    );
    crate::math::lemma_redeemable_bounded(
        ctx.pool_token_account_a.amount as nat,
        lp_amount as nat,
        ctx.lp_mint.supply as nat,
    );
    crate::math::lemma_redeemable_bounded(
        ctx.pool_token_account_b.amount as nat,
        lp_amount as nat,
        ctx.lp_mint.supply as nat,
    );
}

/// Where the share supply is the exact root of the product of the reserves and the
/// redemption divides without remainder on both sides, the round trip mints back exactly
/// the shares that were burned.
pub proof fn lemma_exact_round_trip_restores_supply(
    reserve_a: nat,
    reserve_b: nat,
    supply: nat,
    share: nat,
    amount_a: nat,
    amount_b: nat,
)
    requires
        supply > 0,
        supply * supply == reserve_a * reserve_b,
        amount_a * supply == reserve_a * share,
        amount_b * supply == reserve_b * share,
    ensures
        floor_sqrt(amount_a * amount_b) == share,
{
    assert((amount_a * amount_b) * (supply * supply) == (share * share) * (supply * supply))
        by (nonlinear_arith)
        requires
            supply * supply == reserve_a * reserve_b,
            amount_a * supply == reserve_a * share,
            amount_b * supply == reserve_b * share,
    ;
    assert(supply * supply > 0) by (nonlinear_arith)
        requires
            supply > 0,
    ;
    crate::math::lemma_cancel_factor(
        (amount_a * amount_b) as int,
        (share * share) as int,
        (supply * supply) as int,
    );
    crate::math::lemma_cancel_factor(
        (share * share) as int,
        (amount_a * amount_b) as int,
        (supply * supply) as int,
    );
    lemma_floor_sqrt_of_square(share);
}

/// A swap that succeeds adds exactly the input to the reserve it sells into and takes
/// exactly the output from the other reserve; the caller's two balances move by the same
/// amounts the other way, and the output vault is left with something in it.
pub proof fn lemma_swap_conserves_reserves(ctx: Swap, amount_in: u64, min_amount_out: u64)
    requires
        swap_result(ctx, amount_in, min_amount_out) is Ok,
    ensures
        ({
            let amount_out = swap_result(ctx, amount_in, min_amount_out)->Ok_0;
            let end = swap_next(ctx, amount_in, min_amount_out);
            &&& amount_out == ctx.quote(amount_in)
            &&& amount_out >= min_amount_out
            &&& end.sells_a() == ctx.sells_a()
            &&& end.vault_in().amount == ctx.vault_in().amount + amount_in
            &&& end.vault_out().amount == ctx.vault_out().amount - amount_out
            &&& end.vault_out().amount > 0
            &&& end.payer().amount == ctx.payer().amount - amount_in
            &&& end.receiver().amount == ctx.receiver().amount + amount_out
        }),
{
}

/// Against the same reserves, a swap of a larger input never pays out less than a swap of
/// a smaller one.
pub proof fn lemma_swap_pays_no_less_for_more(
    ctx: Swap,
    smaller_in: u64,
    larger_in: u64,
    min_amount_out: u64,
)
    requires
        smaller_in <= larger_in,
        swap_result(ctx, smaller_in, min_amount_out) is Ok,
        swap_result(ctx, larger_in, min_amount_out) is Ok,
    ensures
        swap_result(ctx, smaller_in, min_amount_out)->Ok_0 <= swap_result(
            ctx,
            larger_in,
            min_amount_out,
        )->Ok_0,
{
    lemma_swap_output_monotonic(
        smaller_in as nat,
        larger_in as nat,
        ctx.vault_in().amount as nat,
        ctx.vault_out().amount as nat,
    );
}

/// Against the same reserves, a swap of a larger input pays out strictly more whenever the
/// curve rises by at least one whole unit between the two inputs: with `x` the input
/// reserve and `y` the output reserve, whenever
/// `y * x * (larger_in - smaller_in) >= (x + smaller_in) * (x + larger_in)`.
/// Between inputs that are closer than that, rounding down can give the same output.
pub proof fn lemma_swap_pays_more_for_more(
    ctx: Swap,
    smaller_in: u64,
    larger_in: u64,
    min_amount_out: u64,
)
    requires
        smaller_in < larger_in,
        swap_result(ctx, smaller_in, min_amount_out) is Ok,
        swap_result(ctx, larger_in, min_amount_out) is Ok,
        ctx.vault_out().amount as nat * ctx.vault_in().amount as nat * (larger_in - smaller_in)
            >= (ctx.vault_in().amount as nat + smaller_in as nat) * (ctx.vault_in().amount as nat
            + larger_in as nat),
    ensures
        swap_result(ctx, smaller_in, min_amount_out)->Ok_0 < swap_result(
            ctx,
            larger_in,
            min_amount_out,
        )->Ok_0,
{
    lemma_swap_output_strictly_increasing(
        smaller_in as nat,
        larger_in as nat,
        ctx.vault_in().amount as nat,
        ctx.vault_out().amount as nat,
    );
}

/// A swap that asks for more than the curve gives is refused with `SlippageExceeded`, and
/// nothing changes: this holds whenever the input token is one of the pool's, the caller
/// holds the input, and the input reserve with the input added is positive and fits in 64
/// bits.
pub proof fn lemma_slippage_enforced(ctx: Swap, amount_in: u64, min_amount_out: u64)
    requires
        ctx.sells_a() || ctx.sells_b(),
        ctx.payer().amount >= amount_in,
        0 < ctx.vault_in().amount + amount_in <= u64::MAX,
        min_amount_out > ctx.quote(amount_in),
    ensures
        swap_result(ctx, amount_in, min_amount_out) == Err::<u64, ErrorCode>(
            ErrorCode::SlippageExceeded,
        ),
        swap_next(ctx, amount_in, min_amount_out) == ctx,
{
}

/// Every refused instruction leaves its accounts as they were.
pub proof fn lemma_refusal_changes_nothing(
    swap_ctx: Swap,
    add_ctx: AddLiquidity,
    remove_ctx: RemoveLiquidity,
    create_ctx: CreatePool,
    x: u64,
    y: u64,
)
    ensures
        swap_result(swap_ctx, x, y) is Err ==> swap_next(swap_ctx, x, y) == swap_ctx,
        add_liquidity_result(add_ctx, x, y) is Err ==> add_liquidity_next(add_ctx, x, y)
            == add_ctx,
        remove_liquidity_result(remove_ctx, x) is Err ==> remove_liquidity_next(remove_ctx, x)
            == remove_ctx,
        create_pool_result(create_ctx, x, y) is Err ==> create_pool_next(create_ctx, x, y)
            == create_ctx,
{
}

/// Redemption from a pool with no shares outstanding is refused with `EmptyPool`.
pub proof fn lemma_empty_pool_refuses_redemption(ctx: RemoveLiquidity, lp_amount: u64)
    requires
        ctx.lp_mint.supply == 0,
    ensures
        remove_liquidity_result(ctx, lp_amount) == Err::<(u64, u64), ErrorCode>(
            ErrorCode::EmptyPool,
        ),
        remove_liquidity_next(ctx, lp_amount) == ctx,
{
}

} // verus!
