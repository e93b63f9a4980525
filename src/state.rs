use vstd::prelude::*;
use crate::address::Address;

verus! {

/// Lifecycle of a market. `Disputed` is reserved: no operation enters or leaves it.
#[derive(Clone, Copy, Debug, PartialEq, Eq, Structural)]
pub enum MarketStatus {
    Active,
    Resolved,
    Disputed,
}

/// The cached bump seeds that re-derive a market's own address, its vault
/// and the vault's signing authority.
#[derive(Clone, Copy, Debug)]
pub struct MarketBumps {
    pub market: u8,
    pub vault: u8,
    pub vault_authority: u8,
}

/// The aggregate state of one question.
#[derive(Debug)]
pub struct Market {
    pub market_id: u64,
    pub creator: Address,
    pub question: String,
    pub end_time: i64,
    pub status: MarketStatus,
    pub total_pool: u64,
    pub yes_pool: u64,
    pub no_pool: u64,
    pub outcome: bool,
    pub usdc_mint: Address,
    pub market_bump: u8,
    pub vault_bump: u8,
    pub vault_authority_bump: u8,
}

impl Market {
    /// The pool totals agree: everything staked is on one side or the other.
    pub open spec fn pools_consistent(&self) -> bool {
        self.total_pool == self.yes_pool + self.no_pool
    }

    /// The pool of the side that `yes` names.
    pub open spec fn side_pool(&self, yes: bool) -> u64 {
        if yes { self.yes_pool } else { self.no_pool }
    }
}

/// Whether a position record has been claimed by a (user, market) pair yet.
#[derive(Clone, Copy, Debug)]
pub enum PositionBinding {
    Unbound,
    Bound { user: Address, market: Address },
}

/// One user's accumulated stake within one market.
#[derive(Clone, Copy, Debug)]
pub struct UserPosition {
    pub binding: PositionBinding,
    pub yes_amount: u64,
    pub no_amount: u64,
    pub claimed: bool,
    pub bump: u8,
}

impl UserPosition {
    /// A position that has never been bound carries no stake and no claim.
    pub open spec fn wf(&self) -> bool {
        self.binding is Unbound ==> self.yes_amount == 0 && self.no_amount == 0 && !self.claimed
    }

    /// The stake on the side that `yes` names.
    pub open spec fn side_amount(&self, yes: bool) -> u64 {
        if yes { self.yes_amount } else { self.no_amount }
    }

    /// Whether the position is bound to exactly this user and market.
    pub open spec fn bound_to(&self, user: Seq<u8>, market: Seq<u8>) -> bool {
        match self.binding {
            PositionBinding::Bound { user: u, market: m } => u@ == user && m@ == market,
            PositionBinding::Unbound => false,
        }
    }

    /// A fresh, unbound position record stored at an address found with `bump`.
    pub fn unbound(bump: u8) -> (r: UserPosition)
        ensures
            r.binding is Unbound,
            r.yes_amount == 0,
            r.no_amount == 0,
            !r.claimed,
            r.bump == bump,
            r.wf(),
    {
        UserPosition { binding: PositionBinding::Unbound, yes_amount: 0, no_amount: 0, claimed: false, bump }
    }
}

/// What the engine reads of an asset-custody account: who owns it and which
/// asset it holds.
#[derive(Clone, Copy, Debug)]
pub struct CustodyAccount {
    pub owner: Address,
    pub mint: Address,
}

} // verus!

verus! {

/// The custody accounts that a transfer of a market's asset touches: the
/// user's own account, the market's vault, and the identity that signs for
/// the vault.
#[derive(Clone, Copy, Debug)]
pub struct TransferAccounts {
    pub user_token: CustodyAccount,
    pub vault_token: CustodyAccount,
    pub vault_authority: Address,
}

} // verus!
