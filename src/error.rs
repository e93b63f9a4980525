use vstd::prelude::*;

verus! {

/// Every way an operation of the settlement engine can be refused.
#[derive(Clone, Copy, Debug, PartialEq, Eq, Structural)]
pub enum MarketError {
    MarketNotActive,
    Unauthorized,
    QuestionTooLong,
    InvalidDuration,
    MarketExpired,
    InvalidAmount,
    MarketNotExpired,
    MarketNotResolved,
    AlreadyClaimed,
    NoWinnings,
    MathOverflow,
    InvalidMarketId,
    InvalidPositionOwner,
    InvalidPositionMarket,
    InvalidTokenOwner,
    InvalidTokenMint,
    InvalidVaultAuthority,
}

} // verus!
