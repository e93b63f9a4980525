use vstd::prelude::*;
use crate::address::Address;
use crate::error::MarketError;
use crate::payout::{compute_payout, payout_result};
use crate::state::{Market, MarketBumps, MarketStatus, PositionBinding, TransferAccounts, UserPosition};

verus! {

/// The longest question a market accepts, in bytes.
pub const MAX_QUESTION_LEN: usize = 256;

/// Length of a question in bytes, as stored (what `str::len` reports).
pub open spec fn question_len(question: &String) -> usize {
    vstd::utf8::encode_utf8(question@).len() as usize
}

/// The outcome of opening a market.
pub open spec fn initialize_result(
    market_id: u64,
    question: &String,
    duration: i64,
    now: i64,
) -> Result<(), MarketError> {
    if market_id == 0 {
        Err(MarketError::InvalidMarketId)
    } else if question_len(question) > MAX_QUESTION_LEN {
        Err(MarketError::QuestionTooLong)
    } else if duration <= 0 {
        Err(MarketError::InvalidDuration)
    } else if now as int + duration as int > i64::MAX as int {
        Err(MarketError::MathOverflow)
    } else {
        Ok(())
    }
}

/// Whether the custody accounts of a transfer belong to `user` and to the
/// market's vault, and all hold the market's asset; the first mismatch otherwise.
pub open spec fn accounts_result(market: Market, user: Seq<u8>, accounts: TransferAccounts) -> Result<(), MarketError> {
    if accounts.user_token.owner@ != user {
        Err(MarketError::InvalidTokenOwner)
    } else if accounts.user_token.mint@ != market.usdc_mint@ {
        Err(MarketError::InvalidTokenMint)
    } else if accounts.vault_token.owner@ != accounts.vault_authority@ {
        Err(MarketError::InvalidVaultAuthority)
    } else if accounts.vault_token.mint@ != market.usdc_mint@ {
        Err(MarketError::InvalidTokenMint)
    } else {
        Ok(())
    }
}

/// Whether a bound position belongs to `user` in the market at `market_key`;
/// an unbound one is refused as not the user's.
pub open spec fn binding_result(position: UserPosition, user: Seq<u8>, market_key: Seq<u8>) -> Result<(), MarketError> {
    match position.binding {
        PositionBinding::Unbound => Err(MarketError::InvalidPositionOwner),
        PositionBinding::Bound { user: u, market: m } => {
            if u@ != user {
                Err(MarketError::InvalidPositionOwner)
            } else if m@ != market_key {
                Err(MarketError::InvalidPositionMarket)
            } else {
                Ok(())
            }
        },
    }
}

/// The outcome of a bet of `amount` on the side `bet_on_yes` at time `now`.
pub open spec fn bet_result(
    market: Market,
    position: UserPosition,
    user: Seq<u8>,
    market_key: Seq<u8>,
    accounts: TransferAccounts,
    amount: u64,
    bet_on_yes: bool,
    now: i64,
) -> Result<(), MarketError> {
    if accounts_result(market, user, accounts) is Err {
        accounts_result(market, user, accounts)
    } else if market.status != MarketStatus::Active {
        Err(MarketError::MarketNotActive)
    } else if now >= market.end_time {
        Err(MarketError::MarketExpired)
    } else if amount == 0 {
        Err(MarketError::InvalidAmount)
    } else if market.total_pool + amount > u64::MAX || market.side_pool(bet_on_yes) + amount > u64::MAX {
        Err(MarketError::MathOverflow)
    } else if !(position.binding is Unbound) && binding_result(position, user, market_key) is Err {
        binding_result(position, user, market_key)
    } else if !(position.binding is Unbound) && position.side_amount(bet_on_yes) + amount > u64::MAX {
        Err(MarketError::MathOverflow)
    } else {
        Ok(())
    }
}

impl Market {
    /// The market after `amount` more is staked on the side `bet_on_yes`.
    pub open spec fn with_bet(self, amount: u64, bet_on_yes: bool) -> Market {
        Market {
            total_pool: (self.total_pool + amount) as u64,
            yes_pool: if bet_on_yes { (self.yes_pool + amount) as u64 } else { self.yes_pool },
            no_pool: if bet_on_yes { self.no_pool } else { (self.no_pool + amount) as u64 },
            ..self
        }
    }

    /// The market once resolved with `outcome`.
    pub open spec fn with_outcome(self, outcome: bool) -> Market {
        Market { status: MarketStatus::Resolved, outcome, ..self }
    }
}

impl UserPosition {
    /// The position after a bet: bound on first use, starting from no stake
    /// and no claim, then the stake added on one side.
    pub open spec fn with_bet(self, user: Address, market_key: Address, amount: u64, bet_on_yes: bool) -> UserPosition {
        if self.binding is Unbound {
            UserPosition {
                binding: PositionBinding::Bound { user, market: market_key },
                yes_amount: if bet_on_yes { amount } else { 0 },
                no_amount: if bet_on_yes { 0 } else { amount },
                claimed: false,
                ..self
            }
        } else {
            UserPosition {
                yes_amount: if bet_on_yes { (self.yes_amount + amount) as u64 } else { self.yes_amount },
                no_amount: if bet_on_yes { self.no_amount } else { (self.no_amount + amount) as u64 },
                ..self
            }
        }
    }

    /// The position once its winnings have been paid.
    pub open spec fn with_claim(self) -> UserPosition {
        UserPosition { claimed: true, ..self }
    }
}

/// The outcome of a resolution attempt by `authority` at time `now`.
pub open spec fn resolve_result(market: Market, authority: Seq<u8>, now: i64) -> Result<(), MarketError> {
    if authority != market.creator@ {
        Err(MarketError::Unauthorized)
    } else if market.status != MarketStatus::Active {
        Err(MarketError::MarketNotActive)
    } else if now < market.end_time {
        Err(MarketError::MarketNotExpired)
    } else {
        Ok(())
    }
}

/// The outcome of a claim: the payout owed, or why there is none.
pub open spec fn claim_result(
    market: Market,
    position: UserPosition,
    user: Seq<u8>,
    market_key: Seq<u8>,
    accounts: TransferAccounts,
) -> Result<u64, MarketError> {
    if accounts_result(market, user, accounts) is Err {
        Err(accounts_result(market, user, accounts)->Err_0)
    } else if market.status != MarketStatus::Resolved {
        Err(MarketError::MarketNotResolved)
    } else if position.claimed {
        Err(MarketError::AlreadyClaimed)
    } else if binding_result(position, user, market_key) is Err {
        Err(binding_result(position, user, market_key)->Err_0)
    } else {
        payout_result(
            position.side_amount(market.outcome),
            market.total_pool,
            market.side_pool(market.outcome),
        )
    }
}

/// Checks the custody accounts of a transfer against the market and the user.
pub fn check_accounts(market: &Market, user: &Address, accounts: &TransferAccounts) -> (r: Result<(), MarketError>)
    ensures
        r == accounts_result(*market, user@, *accounts),
{
    if !accounts.user_token.owner.same_as(user) {
        return Err(MarketError::InvalidTokenOwner);
    }
    if !accounts.user_token.mint.same_as(&market.usdc_mint) {
        return Err(MarketError::InvalidTokenMint);
    }
    if !accounts.vault_token.owner.same_as(&accounts.vault_authority) {
        return Err(MarketError::InvalidVaultAuthority);
    }
    if !accounts.vault_token.mint.same_as(&market.usdc_mint) {
        return Err(MarketError::InvalidTokenMint);
    }
    Ok(())
}

/// Checks that a bound position belongs to `user` in the market at `market_key`.
pub fn check_binding(position: &UserPosition, user: &Address, market_key: &Address) -> (r: Result<(), MarketError>)
    ensures
        r == binding_result(*position, user@, market_key@),
{
    match &position.binding {
        PositionBinding::Unbound => Err(MarketError::InvalidPositionOwner),
        PositionBinding::Bound { user: u, market: m } => {
            if !u.same_as(user) {
                Err(MarketError::InvalidPositionOwner)
            } else if !m.same_as(market_key) {
                Err(MarketError::InvalidPositionMarket)
            } else {
                Ok(())
            }
        },
    }
}

/// Stakes `amount` of the market's asset for `user` on the side `bet_on_yes`.
///
/// On success both records carry the bet, the position bound to `user` and
/// `market_key` on first use; the caller then moves `amount` from the user's
/// account into the vault, and commits both records only if that transfer
/// succeeds. On failure neither record is changed.
pub fn place_bet(
    market: &mut Market,
    position: &mut UserPosition,
    user: &Address,
    market_key: &Address,
    accounts: &TransferAccounts,
    amount: u64,
    bet_on_yes: bool,
    now: i64,
) -> (r: Result<(), MarketError>)
    ensures
        r == bet_result(*old(market), *old(position), user@, market_key@, *accounts, amount, bet_on_yes, now),
        r is Ok ==> *final(market) == old(market).with_bet(amount, bet_on_yes),
        r is Ok ==> *final(position) == old(position).with_bet(*user, *market_key, amount, bet_on_yes),
        r is Err ==> *final(market) == *old(market) && *final(position) == *old(position),
        old(market).pools_consistent() ==> final(market).pools_consistent(),
        old(position).wf() ==> final(position).wf(),
{
    check_accounts(market, user, accounts)?;
    if market.status != MarketStatus::Active {
        return Err(MarketError::MarketNotActive);
    }
    if now >= market.end_time {
        return Err(MarketError::MarketExpired);
    }
    if amount == 0 {
        return Err(MarketError::InvalidAmount);
    }
    let total_pool = match market.total_pool.checked_add(amount) {
        Some(v) => v,
        None => return Err(MarketError::MathOverflow),
    };
    let side_pool = if bet_on_yes { market.yes_pool } else { market.no_pool };
    let side_pool = match side_pool.checked_add(amount) {
        Some(v) => v,
        None => return Err(MarketError::MathOverflow),
    };
    let unbound = match position.binding {
        PositionBinding::Unbound => true,
        PositionBinding::Bound { .. } => false,
    };
    if !unbound {
        check_binding(position, user, market_key)?;
    }
    let side_amount = if unbound {
        0
    } else if bet_on_yes {
        position.yes_amount
    } else {
        position.no_amount
    };
    let side_amount = match side_amount.checked_add(amount) {
        Some(v) => v,
        None => return Err(MarketError::MathOverflow),
    };

    market.total_pool = total_pool;
    if bet_on_yes {
        market.yes_pool = side_pool;
        position.yes_amount = side_amount;
    } else {
        market.no_pool = side_pool;
        position.no_amount = side_amount;
    }
    if unbound {
        position.binding = PositionBinding::Bound { user: *user, market: *market_key };
        position.claimed = false;
        if bet_on_yes {
            position.no_amount = 0;
        } else {
            position.yes_amount = 0;
        }
    }
    Ok(())
}

/// Settles `user`'s position in a resolved market.
///
/// On success returns the payout and marks the position claimed; the caller
/// then moves the payout from the vault to the user's account under the vault
/// authority, and commits the position only if that transfer succeeds. On
/// failure the position is unchanged.
pub fn claim_winnings(
    market: &Market,
    position: &mut UserPosition,
    user: &Address,
    market_key: &Address,
    accounts: &TransferAccounts,
) -> (r: Result<u64, MarketError>)
    ensures
        r == claim_result(*market, *old(position), user@, market_key@, *accounts),
        r is Ok ==> *final(position) == old(position).with_claim(),
        r is Err ==> *final(position) == *old(position),
        old(position).wf() ==> final(position).wf(),
{
    check_accounts(market, user, accounts)?;
    if market.status != MarketStatus::Resolved {
        return Err(MarketError::MarketNotResolved);
    }
    if position.claimed {
        return Err(MarketError::AlreadyClaimed);
    }
    check_binding(position, user, market_key)?;
    let (stake, winning_pool) = if market.outcome {
        (position.yes_amount, market.yes_pool)
    } else {
        (position.no_amount, market.no_pool)
    };
    let payout = compute_payout(stake, market.total_pool, winning_pool)?;
    position.claimed = true;
    Ok(payout)
}

/// Opens market `market_id` on `question` at time `now`, closing to bets
/// `duration` later. Only `creator` may resolve it; it accepts the asset
/// `usdc_mint`.
pub fn initialize_market(
    market_id: u64,
    creator: &Address,
    question: String,
    duration: i64,
    now: i64,
    usdc_mint: &Address,
    bumps: &MarketBumps,
) -> (r: Result<Market, MarketError>)
    ensures
        r is Ok <==> initialize_result(market_id, &question, duration, now) is Ok,
        r is Err ==> r->Err_0 == initialize_result(market_id, &question, duration, now)->Err_0,
        r matches Ok(m) ==> {
            &&& m.market_id == market_id
            &&& m.creator == *creator
            &&& m.question@ == question@
            &&& m.end_time == now + duration
            &&& m.status == MarketStatus::Active
            &&& m.total_pool == 0
            &&& m.yes_pool == 0
            &&& m.no_pool == 0
            &&& !m.outcome
            &&& m.usdc_mint == *usdc_mint
            &&& m.market_bump == bumps.market
            &&& m.vault_bump == bumps.vault
            &&& m.vault_authority_bump == bumps.vault_authority
            &&& m.pools_consistent()
        },
{
    if market_id == 0 {
        return Err(MarketError::InvalidMarketId);
    }
    if question.as_str().len() > MAX_QUESTION_LEN {
        return Err(MarketError::QuestionTooLong);
    }
    if duration <= 0 {
        return Err(MarketError::InvalidDuration);
    }
    let end_time = match now.checked_add(duration) {
        Some(t) => t,
        None => return Err(MarketError::MathOverflow),
    };
    Ok(Market {
        market_id,
        creator: *creator,
        question,
        end_time,
        status: MarketStatus::Active,
        total_pool: 0,
        yes_pool: 0,
        no_pool: 0,
        outcome: false,
        usdc_mint: *usdc_mint,
        market_bump: bumps.market,
        vault_bump: bumps.vault,
        vault_authority_bump: bumps.vault_authority,
    })
}

/// Resolves the market with `outcome`, as `authority` at time `now`.
/// On failure the market is unchanged.
pub fn resolve_market(market: &mut Market, authority: &Address, outcome: bool, now: i64) -> (r: Result<(), MarketError>)
    ensures
        r == resolve_result(*old(market), authority@, now),
        r is Ok ==> *final(market) == old(market).with_outcome(outcome),
        r is Err ==> *final(market) == *old(market),
        old(market).pools_consistent() ==> final(market).pools_consistent(),
{
    if !authority.same_as(&market.creator) {
        return Err(MarketError::Unauthorized);
    }
    if market.status != MarketStatus::Active {
        return Err(MarketError::MarketNotActive);
    }
    if now < market.end_time {
        return Err(MarketError::MarketNotExpired);
    }
    market.outcome = outcome;
    market.status = MarketStatus::Resolved;
    Ok(())
}

} // verus!
