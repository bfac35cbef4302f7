//! Trading one of a pool's tokens for the other along the constant-product curve.

use vstd::prelude::*;
use crate::ledger::transfer;
use crate::math::{calculate_amm_output, swap_output};
use crate::state::{ErrorCode, Mint, Pool, Pubkey, TokenAccount};

verus! {

/// The accounts a swap touches.
#[derive(Clone, Copy, Debug)]
pub struct Swap {
    pub signer: Pubkey,
    pub pool: Pool,
    /// The token the caller sells.
    pub input_mint: Mint,
    pub pool_token_account_a: TokenAccount,
    pub pool_token_account_b: TokenAccount,
    pub user_token_account_a: TokenAccount,
    pub user_token_account_b: TokenAccount,
}

impl Swap {
    /// The caller sells token A for token B.
    pub open spec fn sells_a(self) -> bool {
        self.input_mint.key@ == self.pool.mint_a@
    }

    /// The caller sells token B for token A.
    pub open spec fn sells_b(self) -> bool {
        !self.sells_a() && self.input_mint.key@ == self.pool.mint_b@
    }

    /// The caller's account that pays the input.
    pub open spec fn payer(self) -> TokenAccount {
        if self.sells_a() {
            self.user_token_account_a
        } else {
            self.user_token_account_b
        }
    }

    /// The caller's account that receives the output.
    pub open spec fn receiver(self) -> TokenAccount {
        if self.sells_a() {
            self.user_token_account_b
        } else {
            self.user_token_account_a
        }
    }

    /// The vault on the side being sold into.
    pub open spec fn vault_in(self) -> TokenAccount {
        if self.sells_a() {
            self.pool_token_account_a
        } else {
            self.pool_token_account_b
        }
    }

    /// The vault on the side being bought from.
    pub open spec fn vault_out(self) -> TokenAccount {
        if self.sells_a() {
            self.pool_token_account_b
        } else {
            self.pool_token_account_a
        }
    }

    /// Which way the trade goes: `Some(true)` to sell token A for token B, `Some(false)` to
    /// sell token B for token A, `None` when the input token is neither of the pool's. A
    /// pool whose two tokens are the same sells A.
    pub fn direction(&self) -> (a_to_b: Option<bool>)
        ensures
            a_to_b == Some(true) <==> self.sells_a(),
            a_to_b == Some(false) <==> self.sells_b(),
            a_to_b is None <==> !self.sells_a() && !self.sells_b(),
    {
        if self.input_mint.key.equals(&self.pool.mint_a) {
            Some(true)
        } else if self.input_mint.key.equals(&self.pool.mint_b) {
            Some(false)
        } else {
            None
        }
    }

    /// The output the curve gives for `amount_in` against the current reserves.
    pub open spec fn quote(self, amount_in: u64) -> nat {
        swap_output(amount_in as nat, self.vault_in().amount as nat, self.vault_out().amount as nat)
    }

    /// These accounts after `amount_in` went into the input side and `amount_out` came out of
    /// the other.
    pub open spec fn settled(self, amount_in: u64, amount_out: u64) -> Swap {
        if self.sells_a() {
            Swap {
                user_token_account_a: self.user_token_account_a.debited(amount_in as nat),
                pool_token_account_a: self.pool_token_account_a.credited(amount_in as nat),
                pool_token_account_b: self.pool_token_account_b.debited(amount_out as nat),
                user_token_account_b: self.user_token_account_b.credited(amount_out as nat),
                ..self
            }
        } else {
            Swap {
                user_token_account_b: self.user_token_account_b.debited(amount_in as nat),
                pool_token_account_b: self.pool_token_account_b.credited(amount_in as nat),
                pool_token_account_a: self.pool_token_account_a.debited(amount_out as nat),
                user_token_account_a: self.user_token_account_a.credited(amount_out as nat),
                ..self
            }
        }
    }
}

/// What a swap returns: the amount paid out, or the first reason to refuse, in this order.
pub open spec fn swap_result(ctx: Swap, amount_in: u64, min_amount_out: u64) -> Result<
    u64,
    ErrorCode,
> {
    if !ctx.sells_a() && !ctx.sells_b() {
        Err(ErrorCode::InvalidInputToken)
    } else if ctx.payer().amount < amount_in {
        Err(ErrorCode::InsufficientBalance)
    } else if ctx.vault_in().amount + amount_in > u64::MAX {
        Err(ErrorCode::MathOverflow)
    } else if ctx.vault_in().amount + amount_in == 0 {
        Err(ErrorCode::MathOverflow)
    } else if ctx.quote(amount_in) < min_amount_out {
        Err(ErrorCode::SlippageExceeded)
    } else if ctx.quote(amount_in) >= ctx.vault_out().amount {
        Err(ErrorCode::EmptyPool)
    } else if ctx.receiver().amount + ctx.quote(amount_in) > u64::MAX {
        Err(ErrorCode::MathOverflow)
    } else {
        Ok(ctx.quote(amount_in) as u64)
    }
}

/// The accounts after a swap: settled when it succeeds, untouched when it is refused.
pub open spec fn swap_next(ctx: Swap, amount_in: u64, min_amount_out: u64) -> Swap {
    match swap_result(ctx, amount_in, min_amount_out) {
        Ok(amount_out) => ctx.settled(amount_in, amount_out),
        Err(_) => ctx,
    }
}

/// Sells `amount_in` of `input_mint` to the pool and pays out the other token.
///
/// The input is moved in first; the price is then taken against the input reserve as it was
/// before that transfer. The swap is refused when the output is below `min_amount_out`, and
/// when it would leave the output vault empty. On success the result is the amount paid out.
pub fn swap(ctx: &mut Swap, amount_in: u64, min_amount_out: u64) -> (res: Result<u64, ErrorCode>)
    ensures
        res == swap_result(*old(ctx), amount_in, min_amount_out),
        *final(ctx) == swap_next(*old(ctx), amount_in, min_amount_out),
{
    let is_a_to_b: bool = match ctx.direction() {
        None => {
            return Err(ErrorCode::InvalidInputToken);
        },
        Some(a_to_b) => a_to_b,
    };
    let mut payer = if is_a_to_b {
        ctx.user_token_account_a
    } else {
        ctx.user_token_account_b
    };
    let mut vault_in = if is_a_to_b {
        ctx.pool_token_account_a
    } else {
        ctx.pool_token_account_b
    };
    let mut vault_out = if is_a_to_b {
        ctx.pool_token_account_b
    } else {
        ctx.pool_token_account_a
    };
    let mut receiver = if is_a_to_b {
        ctx.user_token_account_b
    } else {
        ctx.user_token_account_a
    };

    match transfer(&mut payer, &mut vault_in, amount_in) {
        Err(e) => {
            return Err(e);
        },
        Ok(()) => {},
    }
    let reserve_in_before: u64 = vault_in.amount - amount_in;
    let amount_out: u64 = match calculate_amm_output(
        amount_in,
        reserve_in_before,
        vault_out.amount,
    ) {
        None => {
            return Err(ErrorCode::MathOverflow);
        },
        Some(v) => v,
    };
    if amount_out < min_amount_out {
        return Err(ErrorCode::SlippageExceeded);
    }
    if amount_out >= vault_out.amount {
        return Err(ErrorCode::EmptyPool);
    }
    match transfer(&mut vault_out, &mut receiver, amount_out) {
        Err(e) => {
            return Err(e);
        },
        Ok(()) => {},
    }
    if is_a_to_b {
        ctx.user_token_account_a = payer;
        ctx.pool_token_account_a = vault_in;
        ctx.pool_token_account_b = vault_out;
        ctx.user_token_account_b = receiver;
    } else {
        ctx.user_token_account_b = payer;
        ctx.pool_token_account_b = vault_in;
        ctx.pool_token_account_a = vault_out;
        ctx.user_token_account_a = receiver;
    }
    Ok(amount_out)
}

} // verus!
