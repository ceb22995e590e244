//! A custodial coin-flip pool. A participant stakes units of one asset into
//! the pool's custody account; the parity of a clock reading decides the
//! wager; a win is paid out of custody with a fixed percentage on top, a loss
//! leaves the stake in custody. The library decides and accounts for each
//! step on plain values; the transfers themselves are made by its caller.

pub mod address;
pub mod authority;
pub mod error;
pub mod laws;
pub mod ledger;
pub mod payout;
pub mod pool;
pub mod settlement;

pub use crate::address::Address;
pub use crate::error::ErrorCode;
pub use crate::ledger::TokenAccount;
pub use crate::payout::{payout, Payout};
pub use crate::pool::{id, initialize, CoinFlip, Initialize};
pub use crate::settlement::{determine_outcome, flip, Flip, Outcome, Wager};
