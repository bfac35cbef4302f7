//! Reserve accounting and pricing core of a two-asset constant-product
//! market maker.
//!
//! The ledger that really holds balances lives elsewhere. This crate works on
//! plain snapshots of the accounts an instruction touches: it decides whether
//! the instruction succeeds, which amounts move, and what every balance is
//! afterwards. The host then replays those movements on the real ledger.

pub mod math;
pub mod state;
pub mod ledger;
pub mod registry;
pub mod liquidity;
pub mod exchange;
pub mod laws;

pub use crate::exchange::{swap, Swap};
pub use crate::liquidity::{add_liquidity, remove_liquidity, AddLiquidity, RemoveLiquidity};
pub use crate::math::calculate_amm_output;
pub use crate::registry::{create_pool, initialize, CreatePool, Initialize};
pub use crate::state::{Amm, ErrorCode, Mint, Pool, Pubkey, TokenAccount};
