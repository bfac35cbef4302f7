//! The effect of the ledger's three primitives on account snapshots.

use vstd::prelude::*;
use crate::state::{ErrorCode, Mint, TokenAccount};

verus! {

/// Moves `amount` from one account to another.
///
/// Fails with `InsufficientBalance` when `from` holds less than `amount`, otherwise with
/// `MathOverflow` when the credited balance would not fit in 64 bits.
pub fn transfer(from: &mut TokenAccount, to: &mut TokenAccount, amount: u64) -> (res: Result<
    (),
    ErrorCode,
>)
    ensures
        old(from).amount < amount ==> res == Err::<(), ErrorCode>(ErrorCode::InsufficientBalance),
        old(from).amount >= amount && old(to).amount + amount > u64::MAX ==> res == Err::<
            (),
            ErrorCode,
        >(ErrorCode::MathOverflow),
        old(from).amount >= amount && old(to).amount + amount <= u64::MAX ==> res is Ok,
        res is Ok ==> *final(from) == old(from).debited(amount as nat) && *final(to) == old(
            to,
        ).credited(amount as nat),
        res is Err ==> *final(from) == *old(from) && *final(to) == *old(to),
{
    if from.amount < amount {
        return Err(ErrorCode::InsufficientBalance);
    }
    if amount > u64::MAX - to.amount {
        return Err(ErrorCode::MathOverflow);
    }
    from.amount = from.amount - amount;
    to.amount = to.amount + amount;
    Ok(())
}

/// Creates `amount` new units of a token and credits them to `to`.
///
/// Fails with `MathOverflow` when the supply or the credited balance would not fit in 64 bits.
pub fn mint_to(mint: &mut Mint, to: &mut TokenAccount, amount: u64) -> (res: Result<(), ErrorCode>)
    ensures
        res is Ok <==> old(mint).supply + amount <= u64::MAX && old(to).amount + amount
            <= u64::MAX,
        res is Err ==> res == Err::<(), ErrorCode>(ErrorCode::MathOverflow),
        res is Ok ==> *final(mint) == old(mint).grown(amount as nat) && *final(to) == old(
            to,
        ).credited(amount as nat),
        res is Err ==> *final(mint) == *old(mint) && *final(to) == *old(to),
{
    if amount > u64::MAX - mint.supply || amount > u64::MAX - to.amount {
        return Err(ErrorCode::MathOverflow);
    }
    mint.supply = mint.supply + amount;
    to.amount = to.amount + amount;
    Ok(())
}

/// Destroys `amount` units of a token held by `from`.
///
/// Fails with `InsufficientBalance` when `from`, or the supply, is less than `amount`.
pub fn burn(mint: &mut Mint, from: &mut TokenAccount, amount: u64) -> (res: Result<(), ErrorCode>)
    ensures
        res is Ok <==> old(from).amount >= amount && old(mint).supply >= amount,
        res is Err ==> res == Err::<(), ErrorCode>(ErrorCode::InsufficientBalance),
        res is Ok ==> *final(mint) == old(mint).shrunk(amount as nat) && *final(from) == old(
            from,
        ).debited(amount as nat),
        res is Err ==> *final(mint) == *old(mint) && *final(from) == *old(from),
{
    if from.amount < amount || mint.supply < amount {
        return Err(ErrorCode::InsufficientBalance);
    }
    mint.supply = mint.supply - amount;
    from.amount = from.amount - amount;
    Ok(())
}

} // verus!
