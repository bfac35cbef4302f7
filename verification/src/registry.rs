//! Creating the configuration record and creating a pool for a pair of tokens.

use vstd::prelude::*;
use crate::ledger::{mint_to, transfer};
use crate::math::{deposit_shares, shares_for_deposit};
use crate::state::{Amm, ErrorCode, Mint, Pool, Pubkey, TokenAccount};

verus! {

/// The accounts that creating the configuration record touches.
#[derive(Clone, Copy, Debug)]
pub struct Initialize {
    pub signer: Pubkey,
    /// The configuration record; `None` until it is created.
    pub amm: Option<Amm>,
}

/// The accounts that creating a pool touches.
///
/// The two vaults, the share-token mint and the creator's share-token account are allocated
/// by the instruction: whatever these fields hold before is replaced.
#[derive(Clone, Copy, Debug)]
pub struct CreatePool {
    pub signer: Pubkey,
    pub mint_a: Mint,
    pub mint_b: Mint,
    pub user_token_account_a: TokenAccount,
    pub user_token_account_b: TokenAccount,
    /// The pool record for this pair; `None` until it is created.
    pub pool: Option<Pool>,
    pub pool_token_account_a: TokenAccount,
    pub pool_token_account_b: TokenAccount,
    pub lp_mint: Mint,
    /// Whether the share token already carries descriptive metadata.
    pub metadata_registered: bool,
    pub user_lp_token_account: TokenAccount,
}

/// The identifier made of 32 zero bytes.
pub open spec fn zero_key() -> Pubkey {
    Pubkey { bytes: vstd::array::spec_array_fill_for_copy_type::<u8, 32>(0u8) }
}

/// What creating the configuration record returns.
pub open spec fn initialize_result(ctx: Initialize, fee: u8) -> Result<(), ErrorCode> {
    if ctx.amm is Some {
        Err(ErrorCode::AlreadyInitialized)
    } else {
        Ok(())
    }
}

/// The accounts after creating the configuration record.
pub open spec fn initialize_next(ctx: Initialize, fee: u8) -> Initialize {
    if ctx.amm is Some {
        ctx
    } else {
        Initialize {
            signer: ctx.signer,
            amm: Some(Amm { user: ctx.signer, fee: fee, lp_mint: zero_key() }),
        }
    }
}

/// Creates the configuration record, owned by the signer, with the given fee rate. It can be
/// created once; a second attempt is refused and changes nothing.
pub fn initialize(ctx: &mut Initialize, fee: u8) -> (res: Result<(), ErrorCode>)
    ensures
        res == initialize_result(*old(ctx), fee),
        *final(ctx) == initialize_next(*old(ctx), fee),
{
    if ctx.amm.is_some() {
        return Err(ErrorCode::AlreadyInitialized);
    }
    ctx.amm = Some(Amm { user: ctx.signer, fee: fee, lp_mint: Pubkey { bytes: [0u8; 32] } });
    Ok(())
}

impl CreatePool {
    /// Share tokens issued to the creator for these first deposits.
    pub open spec fn shares(token_amount_a: u64, token_amount_b: u64) -> nat {
        shares_for_deposit(token_amount_a as nat, token_amount_b as nat)
    }

    /// These accounts after the pool was created with the two deposits and `shares` share
    /// tokens were minted to the creator.
    pub open spec fn settled(self, token_amount_a: u64, token_amount_b: u64, shares: u64) -> CreatePool {
        CreatePool {
            user_token_account_a: self.user_token_account_a.debited(token_amount_a as nat),
            user_token_account_b: self.user_token_account_b.debited(token_amount_b as nat),
            pool: Some(Pool { mint_a: self.mint_a.key, mint_b: self.mint_b.key }),
            pool_token_account_a: TokenAccount { mint: self.mint_a.key, amount: token_amount_a },
            pool_token_account_b: TokenAccount { mint: self.mint_b.key, amount: token_amount_b },
            lp_mint: Mint { key: self.lp_mint.key, supply: shares },
            metadata_registered: true,
            user_lp_token_account: TokenAccount { mint: self.lp_mint.key, amount: shares },
            ..self
        }
    }
}

/// What creating a pool returns: the share tokens minted to the creator, or the first reason
/// to refuse, in this order.
pub open spec fn create_pool_result(ctx: CreatePool, token_amount_a: u64, token_amount_b: u64) -> Result<
    u64,
    ErrorCode,
> {
    if ctx.pool is Some {
        Err(ErrorCode::PoolAlreadyExists)
    } else if ctx.user_token_account_a.amount < token_amount_a || ctx.user_token_account_b.amount
        < token_amount_b {
        Err(ErrorCode::InsufficientBalance)
    } else if ctx.metadata_registered {
        Err(ErrorCode::MetadataRegistrationFailed)
    } else {
        Ok(CreatePool::shares(token_amount_a, token_amount_b) as u64)
    }
}

/// The accounts after creating a pool: settled when it succeeds, untouched when it is refused.
pub open spec fn create_pool_next(ctx: CreatePool, token_amount_a: u64, token_amount_b: u64) -> CreatePool {
    match create_pool_result(ctx, token_amount_a, token_amount_b) {
        Ok(shares) => ctx.settled(token_amount_a, token_amount_b, shares),
        Err(_) => ctx,
    }
}

/// Creates the pool for `mint_a` and `mint_b`: allocates both vaults and the share-token
/// mint, moves the two deposits into the vaults, marks the share token's metadata as
/// registered, records the pair, and mints `floor(sqrt(a * b))` share tokens to the creator.
/// On success the result is the number of share tokens minted.
pub fn create_pool(ctx: &mut CreatePool, token_amount_a: u64, token_amount_b: u64) -> (res: Result<
    u64,
    ErrorCode,
>)
    ensures
        res == create_pool_result(*old(ctx), token_amount_a, token_amount_b),
        *final(ctx) == create_pool_next(*old(ctx), token_amount_a, token_amount_b),
{
    if ctx.pool.is_some() {
        return Err(ErrorCode::PoolAlreadyExists);
    }
    if ctx.user_token_account_a.amount < token_amount_a || ctx.user_token_account_b.amount
        < token_amount_b {
        return Err(ErrorCode::InsufficientBalance);
    }
    let mut user_a = ctx.user_token_account_a;
    let mut user_b = ctx.user_token_account_b;
    let mut vault_a = TokenAccount { mint: ctx.mint_a.key, amount: 0 };
    let mut vault_b = TokenAccount { mint: ctx.mint_b.key, amount: 0 };
    let mut lp_mint = Mint { key: ctx.lp_mint.key, supply: 0 };
    let mut user_lp = TokenAccount { mint: ctx.lp_mint.key, amount: 0 };

    match transfer(&mut user_a, &mut vault_a, token_amount_a) {
        Err(e) => {
            return Err(e);
        },
        Ok(()) => {},
    }
    match transfer(&mut user_b, &mut vault_b, token_amount_b) {
        Err(e) => {
            return Err(e);
        },
        Ok(()) => {},
    }
    if ctx.metadata_registered {
        return Err(ErrorCode::MetadataRegistrationFailed);
    }
    let lp_amount: u64 = deposit_shares(token_amount_a, token_amount_b);
    match mint_to(&mut lp_mint, &mut user_lp, lp_amount) {
        Err(e) => {
            return Err(e);
        },
        Ok(()) => {},
    }
    ctx.user_token_account_a = user_a;
    ctx.user_token_account_b = user_b;
    ctx.pool = Some(Pool { mint_a: ctx.mint_a.key, mint_b: ctx.mint_b.key });
    ctx.pool_token_account_a = vault_a;
    ctx.pool_token_account_b = vault_b;
    ctx.lp_mint = lp_mint;
    ctx.metadata_registered = true;
    ctx.user_lp_token_account = user_lp;
    Ok(lp_amount)
}

} // verus!
