//! Depositing into a pool for share tokens, and redeeming share tokens for a proportional
//! part of both vaults.

use vstd::prelude::*;
use crate::ledger::{burn, mint_to, transfer};
use crate::math::{deposit_shares, redeem_amount, redeemable, shares_for_deposit};
use crate::state::{ErrorCode, Mint, Pool, Pubkey, TokenAccount};

verus! {

/// The accounts a deposit touches.
#[derive(Clone, Copy, Debug)]
pub struct AddLiquidity {
    pub signer: Pubkey,
    pub mint_a: Mint,
    pub mint_b: Mint,
    pub pool: Pool,
    pub user_token_account_a: TokenAccount,
    pub user_token_account_b: TokenAccount,
    pub pool_token_account_a: TokenAccount,
    pub lp_mint: Mint,
    pub pool_token_account_b: TokenAccount,
    pub user_lp_token_account: TokenAccount,
}

/// The accounts a redemption touches.
#[derive(Clone, Copy, Debug)]
pub struct RemoveLiquidity {
    pub signer: Pubkey,
    pub lp_mint: Mint,
    /// The caller's share-token account.
    pub lp_mint_token_account: TokenAccount,
    pub token_a_mint: Mint,
    pub token_b_mint: Mint,
    pub pool: Pool,
    pub pool_token_account_a: TokenAccount,
    pub pool_token_account_b: TokenAccount,
    pub user_token_account_a: TokenAccount,
    pub user_token_account_b: TokenAccount,
}

impl AddLiquidity {
    /// Share tokens a deposit of these amounts is worth.
    pub open spec fn shares(token_amount_a: u64, token_amount_b: u64) -> nat {
        shares_for_deposit(token_amount_a as nat, token_amount_b as nat)
    }

    /// These accounts after both amounts went into the vaults and `shares` were minted.
    pub open spec fn settled(self, token_amount_a: u64, token_amount_b: u64, shares: u64) -> AddLiquidity {
        AddLiquidity {
            user_token_account_a: self.user_token_account_a.debited(token_amount_a as nat),
            user_token_account_b: self.user_token_account_b.debited(token_amount_b as nat),
            pool_token_account_a: self.pool_token_account_a.credited(token_amount_a as nat),
            pool_token_account_b: self.pool_token_account_b.credited(token_amount_b as nat),
            lp_mint: self.lp_mint.grown(shares as nat),
            user_lp_token_account: self.user_lp_token_account.credited(shares as nat),
            ..self
        }
    }
}

/// What a deposit returns: the share tokens minted, or the first reason to refuse, in this
/// order.
pub open spec fn add_liquidity_result(
    ctx: AddLiquidity,
    token_amount_a: u64,
    token_amount_b: u64,
) -> Result<u64, ErrorCode> {
    let shares = AddLiquidity::shares(token_amount_a, token_amount_b);
    if ctx.user_token_account_a.amount < token_amount_a {
        Err(ErrorCode::InsufficientBalance)
    } else if ctx.pool_token_account_a.amount + token_amount_a > u64::MAX {
        Err(ErrorCode::MathOverflow)
    } else if ctx.user_token_account_b.amount < token_amount_b {
        Err(ErrorCode::InsufficientBalance)
    } else if ctx.pool_token_account_b.amount + token_amount_b > u64::MAX {
        Err(ErrorCode::MathOverflow)
    } else if ctx.lp_mint.supply + shares > u64::MAX || ctx.user_lp_token_account.amount + shares
        > u64::MAX {
        Err(ErrorCode::MathOverflow)
    } else {
        Ok(shares as u64)
    }
}

/// The accounts after a deposit: settled when it succeeds, untouched when it is refused.
pub open spec fn add_liquidity_next(
    ctx: AddLiquidity,
    token_amount_a: u64,
    token_amount_b: u64,
) -> AddLiquidity {
    match add_liquidity_result(ctx, token_amount_a, token_amount_b) {
        Ok(shares) => ctx.settled(token_amount_a, token_amount_b, shares),
        Err(_) => ctx,
    }
}

/// Deposits both amounts into the pool's vaults and mints `floor(sqrt(a * b))` share tokens
/// to the caller, whatever the pool already holds. On success the result is the number of
/// share tokens minted.
pub fn add_liquidity(ctx: &mut AddLiquidity, token_amount_a: u64, token_amount_b: u64) -> (res:
    Result<u64, ErrorCode>)
    ensures
        res == add_liquidity_result(*old(ctx), token_amount_a, token_amount_b),
        *final(ctx) == add_liquidity_next(*old(ctx), token_amount_a, token_amount_b),
{
    let mut user_a = ctx.user_token_account_a;
    let mut user_b = ctx.user_token_account_b;
    let mut vault_a = ctx.pool_token_account_a;
    let mut vault_b = ctx.pool_token_account_b;
    let mut lp_mint = ctx.lp_mint;
    let mut user_lp = ctx.user_lp_token_account;

    match transfer(&mut user_a, &mut vault_a, token_amount_a) {
        Err(e) => {
            return Err(e);
        },
        Ok(()) => {},
    }
    match transfer(&mut user_b, &mut vault_b, token_amount_b) {
        Err(e) => {
            return Err(e);
        },
        Ok(()) => {},
    }
    let lp_amount: u64 = deposit_shares(token_amount_a, token_amount_b);
    match mint_to(&mut lp_mint, &mut user_lp, lp_amount) {
        Err(e) => {
            return Err(e);
        },
        Ok(()) => {},
    }
    ctx.user_token_account_a = user_a;
    ctx.user_token_account_b = user_b;
    ctx.pool_token_account_a = vault_a;
    ctx.pool_token_account_b = vault_b;
    ctx.lp_mint = lp_mint;
    ctx.user_lp_token_account = user_lp;
    Ok(lp_amount)
}

impl RemoveLiquidity {
    /// What `lp_amount` share tokens redeem from vault A.
    pub open spec fn share_of_a(self, lp_amount: u64) -> nat {
        redeemable(
            self.pool_token_account_a.amount as nat,
            lp_amount as nat,
            self.lp_mint.supply as nat,
        )
    }

    /// What `lp_amount` share tokens redeem from vault B.
    pub open spec fn share_of_b(self, lp_amount: u64) -> nat {
        redeemable(
            self.pool_token_account_b.amount as nat,
            lp_amount as nat,
            self.lp_mint.supply as nat,
        )
    }

    /// These accounts after `lp_amount` share tokens were burned and the two amounts paid out,
    /// token A from vault A to the caller's A account and token B from vault B to the
    /// caller's B account.
    pub open spec fn settled(self, lp_amount: u64, amount_a: u64, amount_b: u64) -> RemoveLiquidity {
        RemoveLiquidity {
            lp_mint: self.lp_mint.shrunk(lp_amount as nat),
            lp_mint_token_account: self.lp_mint_token_account.debited(lp_amount as nat),
            pool_token_account_a: self.pool_token_account_a.debited(amount_a as nat),
            pool_token_account_b: self.pool_token_account_b.debited(amount_b as nat),
            user_token_account_a: self.user_token_account_a.credited(amount_a as nat),
            user_token_account_b: self.user_token_account_b.credited(amount_b as nat),
            ..self
        }
    }
}

/// What a redemption returns: the amounts of token A and token B paid out, or the first
/// reason to refuse, in this order.
pub open spec fn remove_liquidity_result(ctx: RemoveLiquidity, lp_amount: u64) -> Result<
    (u64, u64),
    ErrorCode,
> {
    let amount_a = ctx.share_of_a(lp_amount);
    let amount_b = ctx.share_of_b(lp_amount);
    if ctx.lp_mint.supply == 0 {
        Err(ErrorCode::EmptyPool)
    } else if amount_a > u64::MAX || amount_b > u64::MAX {
        Err(ErrorCode::MathOverflow)
    } else if ctx.lp_mint_token_account.amount < lp_amount || ctx.lp_mint.supply < lp_amount {
        Err(ErrorCode::InsufficientBalance)
    } else if ctx.user_token_account_a.amount + amount_a > u64::MAX {
        Err(ErrorCode::MathOverflow)
    } else if ctx.user_token_account_b.amount + amount_b > u64::MAX {
        Err(ErrorCode::MathOverflow)
    } else {
        Ok((amount_a as u64, amount_b as u64))
    }
}

/// The accounts after a redemption: settled when it succeeds, untouched when it is refused.
pub open spec fn remove_liquidity_next(ctx: RemoveLiquidity, lp_amount: u64) -> RemoveLiquidity {
    match remove_liquidity_result(ctx, lp_amount) {
        Ok(amounts) => ctx.settled(lp_amount, amounts.0, amounts.1),
        Err(_) => ctx,
    }
}

/// Burns `lp_amount` share tokens and pays the caller the same fraction of each vault,
/// rounded down. The burn comes before the payouts. On success the result is the pair of
/// amounts paid out, token A first.
pub fn remove_liquidity(ctx: &mut RemoveLiquidity, lp_amount: u64) -> (res: Result<
    (u64, u64),
    ErrorCode,
>)
    ensures
        res == remove_liquidity_result(*old(ctx), lp_amount),
        *final(ctx) == remove_liquidity_next(*old(ctx), lp_amount),
{
    let total_supply: u64 = ctx.lp_mint.supply;
    let mut vault_a = ctx.pool_token_account_a;
    let mut vault_b = ctx.pool_token_account_b;
    let mut user_a = ctx.user_token_account_a;
    let mut user_b = ctx.user_token_account_b;
    let mut lp_mint = ctx.lp_mint;
    let mut user_lp = ctx.lp_mint_token_account;

    let amount_a: u64 = match redeem_amount(vault_a.amount, lp_amount, total_supply) {
        Err(e) => {
            return Err(e);
        },
        Ok(v) => v,
    };
    let amount_b: u64 = match redeem_amount(vault_b.amount, lp_amount, total_supply) {
        Err(e) => {
            return Err(e);
        },
        Ok(v) => v,
    };
    match burn(&mut lp_mint, &mut user_lp, lp_amount) {
        Err(e) => {
            return Err(e);
        },
        Ok(()) => {},
    }
    proof {
        crate::math::lemma_redeemable_bounded(
            vault_a.amount as nat,
            lp_amount as nat,
            total_supply as nat,
        );
        crate::math::lemma_redeemable_bounded(
            vault_b.amount as nat,
            lp_amount as nat,
            total_supply as nat,
        );
    }
    match transfer(&mut vault_a, &mut user_a, amount_a) {
        Err(e) => {
            return Err(e);
        },
        Ok(()) => {},
    }
    match transfer(&mut vault_b, &mut user_b, amount_b) {
        Err(e) => {
            return Err(e);
        },
        Ok(()) => {},
    }
    ctx.lp_mint = lp_mint;
    ctx.lp_mint_token_account = user_lp;
    ctx.pool_token_account_a = vault_a;
    ctx.pool_token_account_b = vault_b;
    ctx.user_token_account_a = user_a;
    ctx.user_token_account_b = user_b;
    Ok((amount_a, amount_b))
}

} // verus!
