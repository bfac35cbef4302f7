//! The records the market maker reads and writes, as plain values.

use vstd::prelude::*;

verus! {

/// Why an instruction was refused. A refused instruction changes nothing.
#[derive(Clone, Copy, Debug, PartialEq, Eq, Structural)]
pub enum ErrorCode {
    /// The payer holds less than the amount a transfer or burn asks for.
    InsufficientBalance,
    /// A swap would pay out less than the minimum the caller accepts.
    SlippageExceeded,
    /// A quantity does not fit in 64 bits, or the pricing denominator is zero.
    MathOverflow,
    /// The pool has no outstanding shares, or one side of it holds nothing to trade against.
    EmptyPool,
    /// The token offered to a swap is neither of the pool's two tokens.
    InvalidInputToken,
    /// The configuration record was already created.
    AlreadyInitialized,
    /// A pool for this pair was already created.
    PoolAlreadyExists,
    /// The share token already carries descriptive metadata, so it cannot be registered again.
    MetadataRegistrationFailed,
}

impl ErrorCode {
    /// The characters of the message shown for this error.
    pub open spec fn message_text(self) -> Seq<char> {
        match self {
            ErrorCode::InsufficientBalance => "user account does not have balance"@,
            ErrorCode::SlippageExceeded => "Slippage Tolerance Exceeded"@,
            ErrorCode::MathOverflow => "Math Overflow"@,
            ErrorCode::EmptyPool => "Pool is empty"@,
            ErrorCode::InvalidInputToken => "Input token does not belong to the pool"@,
            ErrorCode::AlreadyInitialized => "Configuration already initialized"@,
            ErrorCode::PoolAlreadyExists => "Pool already exists"@,
            ErrorCode::MetadataRegistrationFailed => "Share token metadata registration failed"@,
        }
    }

    /// The message shown for this error.
    pub fn message(&self) -> (text: &'static str)
        ensures
            text@ == self.message_text(),
    {
        match self {
            ErrorCode::InsufficientBalance => "user account does not have balance",
            ErrorCode::SlippageExceeded => "Slippage Tolerance Exceeded",
            ErrorCode::MathOverflow => "Math Overflow",
            ErrorCode::EmptyPool => "Pool is empty",
            ErrorCode::InvalidInputToken => "Input token does not belong to the pool",
            ErrorCode::AlreadyInitialized => "Configuration already initialized",
            ErrorCode::PoolAlreadyExists => "Pool already exists",
            ErrorCode::MetadataRegistrationFailed => "Share token metadata registration failed",
        }
    }
}

/// A 32-byte account or token identifier.
#[derive(Clone, Copy, Debug)]
pub struct Pubkey {
    pub bytes: [u8; 32],
}

impl View for Pubkey {
    type V = Seq<u8>;

    open spec fn view(&self) -> Seq<u8> {
        self.bytes@
    }
}

impl Pubkey {
    pub fn new(bytes: [u8; 32]) -> (key: Pubkey)
        ensures
            key.bytes == bytes,
    {
        Pubkey { bytes }
    }

    pub fn to_bytes(&self) -> (bytes: [u8; 32])
        ensures
            bytes == self.bytes,
    {
        self.bytes
    }

    /// Whether two identifiers are the same 32 bytes.
    pub fn equals(&self, other: &Pubkey) -> (same: bool)
        ensures
            same == (self@ == other@),
            same == (*self == *other),
    {
        let mut i: usize = 0;
        while i < 32
            invariant
                i <= 32,
                forall|j: int| 0 <= j < i ==> self.bytes@[j] == other.bytes@[j],
            decreases 32 - i,
        {
            if self.bytes[i] != other.bytes[i] {
                return false;
            }
            i += 1;
        }
        assert(self.bytes@ =~= other.bytes@);
        assert(self.bytes == other.bytes);
        true
    }
}

/// The configuration record, created once.
#[derive(Clone, Copy, Debug)]
pub struct Amm {
    pub user: Pubkey,
    /// Fee rate. Recorded, and not applied to any price.
    pub fee: u8,
    pub lp_mint: Pubkey,
}

/// A pool's identity: the pair of tokens it trades. It holds no balances.
#[derive(Clone, Copy, Debug)]
pub struct Pool {
    pub mint_a: Pubkey,
    pub mint_b: Pubkey,
}

/// A token's mint: its identifier and the supply outstanding.
#[derive(Clone, Copy, Debug)]
pub struct Mint {
    pub key: Pubkey,
    pub supply: u64,
}

/// A ledger account holding `amount` units of the token `mint`.
#[derive(Clone, Copy, Debug)]
pub struct TokenAccount {
    pub mint: Pubkey,
    pub amount: u64,
}

impl TokenAccount {
    /// This account with `amount` more units. Meaningful when the sum fits in 64 bits.
    pub open spec fn credited(self, amount: nat) -> TokenAccount {
        TokenAccount { mint: self.mint, amount: (self.amount + amount) as u64 }
    }

    /// This account with `amount` fewer units. Meaningful when it holds that many.
    pub open spec fn debited(self, amount: nat) -> TokenAccount {
        TokenAccount { mint: self.mint, amount: (self.amount - amount) as u64 }
    }
}

impl Mint {
    /// This mint with `amount` more units outstanding. Meaningful when the sum fits in 64 bits.
    pub open spec fn grown(self, amount: nat) -> Mint {
        Mint { key: self.key, supply: (self.supply + amount) as u64 }
    }

    /// This mint with `amount` fewer units outstanding. Meaningful when it has that many.
    pub open spec fn shrunk(self, amount: nat) -> Mint {
        Mint { key: self.key, supply: (self.supply - amount) as u64 }
    }
}

} // verus!
