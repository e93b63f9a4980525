//! Settlement core of a binary-outcome prediction market.
//!
//! Users stake an asset on YES or NO; once the market's creator resolves it,
//! winners withdraw a share of the whole pool proportional to their stake on
//! the winning side. Asset transfers, the clock and signature checks are the
//! host's business: the operations here take their results as plain values.

pub mod address;
pub mod error;
pub mod state;
pub mod payout;
pub mod engine;
pub mod derivation;
pub mod ledger;

pub use address::Address;
pub use error::MarketError;
pub use state::{CustodyAccount, TransferAccounts, Market, MarketBumps, MarketStatus, PositionBinding, UserPosition};
pub use engine::{claim_winnings, initialize_market, place_bet, resolve_market};
