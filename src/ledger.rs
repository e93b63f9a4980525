//! Laws that tie the market's pools to the positions staked in it.
use vstd::prelude::*;
use crate::address::Address;
use crate::engine::{accounts_result, bet_result, binding_result, claim_result, resolve_result};
use crate::error::MarketError;
use crate::payout::{lemma_payouts_proportional, share};
use crate::state::{Market, MarketStatus, PositionBinding, TransferAccounts, UserPosition};

verus! {

/// Whether a position is bound to the market at `market_key`, whoever its user.
pub open spec fn in_market(position: UserPosition, market_key: Seq<u8>) -> bool {
    match position.binding {
        PositionBinding::Bound { market, .. } => market@ == market_key,
        PositionBinding::Unbound => false,
    }
}

/// What the positions bound to the market at `market_key` stake on one side.
pub open spec fn staked_on(positions: Seq<UserPosition>, market_key: Seq<u8>, yes: bool) -> int
    decreases positions.len(),
{
    if positions.len() == 0 {
        0
    } else {
        let last = positions.last();
        staked_on(positions.drop_last(), market_key, yes) + if in_market(last, market_key) {
            last.side_amount(yes) as int
        } else {
            0
        }
    }
}

/// The market's pools are exactly what the positions bound to it stake.
pub open spec fn ledger_consistent(market: Market, market_key: Seq<u8>, positions: Seq<UserPosition>) -> bool {
    &&& market.pools_consistent()
    &&& market.yes_pool == staked_on(positions, market_key, true)
    &&& market.no_pool == staked_on(positions, market_key, false)
}

/// Replacing one position changes a side's stake by the difference of its
/// contributions.
pub proof fn lemma_staked_on_update(
    positions: Seq<UserPosition>,
    i: int,
    p: UserPosition,
    market_key: Seq<u8>,
    yes: bool,
)
    requires
        0 <= i < positions.len(),
    ensures
        staked_on(positions.update(i, p), market_key, yes) == staked_on(positions, market_key, yes)
            - (if in_market(positions[i], market_key) { positions[i].side_amount(yes) as int } else { 0 })
            + (if in_market(p, market_key) { p.side_amount(yes) as int } else { 0 }),
    decreases positions.len(),
{
    let updated = positions.update(i, p);
    if i == positions.len() - 1 {
        assert(updated.drop_last() =~= positions.drop_last());
    } else {
        lemma_staked_on_update(positions.drop_last(), i, p, market_key, yes);
        assert(updated.drop_last() =~= positions.drop_last().update(i, p));
    }
}

/// A market that nobody has staked in yet agrees with any positions that are
/// bound elsewhere.
pub proof fn lemma_fresh_market_ledger(market: Market, market_key: Seq<u8>, positions: Seq<UserPosition>)
    requires
        market.total_pool == 0,
        market.yes_pool == 0,
        market.no_pool == 0,
        forall|i: int| 0 <= i < positions.len() ==> !in_market(#[trigger] positions[i], market_key),
    ensures
        ledger_consistent(market, market_key, positions),
    decreases positions.len(),
{
    if positions.len() > 0 {
        let rest = positions.drop_last();
        assert forall|i: int| 0 <= i < rest.len() implies !in_market(#[trigger] rest[i], market_key) by {
            assert(rest[i] == positions[i]);
        }
        lemma_fresh_market_ledger(market, market_key, rest);
        assert(!in_market(positions[positions.len() - 1], market_key));
    }
}

/// Every successful bet keeps the pools equal to the sum of the stakes of the
/// positions bound to the market, and the total equal to both sides together.
pub proof fn lemma_bet_keeps_ledger(
    market: Market,
    market_key: Address,
    positions: Seq<UserPosition>,
    i: int,
    user: Address,
    accounts: TransferAccounts,
    amount: u64,
    bet_on_yes: bool,
    now: i64,
)
    requires
        ledger_consistent(market, market_key@, positions),
        0 <= i < positions.len(),
        bet_result(market, positions[i], user@, market_key@, accounts, amount, bet_on_yes, now) is Ok,
    ensures
        ledger_consistent(
            market.with_bet(amount, bet_on_yes),
            market_key@,
            positions.update(i, positions[i].with_bet(user, market_key, amount, bet_on_yes)),
        ),
{
    let p = positions[i];
    let q = p.with_bet(user, market_key, amount, bet_on_yes);
    assert(in_market(q, market_key@));
    lemma_staked_on_update(positions, i, q, market_key@, true);
    lemma_staked_on_update(positions, i, q, market_key@, false);
}

/// Resolving a market leaves its pools as they were.
pub proof fn lemma_resolve_keeps_ledger(
    market: Market,
    market_key: Seq<u8>,
    positions: Seq<UserPosition>,
    outcome: bool,
)
    requires
        ledger_consistent(market, market_key, positions),
    ensures
        ledger_consistent(market.with_outcome(outcome), market_key, positions),
{
}

/// Claiming winnings marks the position and leaves every stake as it was.
pub proof fn lemma_claim_keeps_ledger(market: Market, market_key: Seq<u8>, positions: Seq<UserPosition>, i: int)
    requires
        ledger_consistent(market, market_key, positions),
        0 <= i < positions.len(),
    ensures
        ledger_consistent(market, market_key, positions.update(i, positions[i].with_claim())),
{
    lemma_staked_on_update(positions, i, positions[i].with_claim(), market_key, true);
    lemma_staked_on_update(positions, i, positions[i].with_claim(), market_key, false);
}

/// A position only grows: a bet keeps a binding once made and never lowers a
/// stake, and neither a bet nor a claim takes back the claim mark.
pub proof fn lemma_position_monotone(
    position: UserPosition,
    user: Address,
    market_key: Address,
    amount: u64,
    bet_on_yes: bool,
)
    requires
        position.wf(),
        position.side_amount(bet_on_yes) + amount <= u64::MAX,
    ensures
        ({
            let after = position.with_bet(user, market_key, amount, bet_on_yes);
            &&& after.yes_amount >= position.yes_amount
            &&& after.no_amount >= position.no_amount
            &&& after.claimed == position.claimed
            &&& !(position.binding is Unbound) ==> after.binding == position.binding
            &&& after.bound_to(user@, market_key@) || after.binding == position.binding
        }),
        position.with_claim().claimed,
        position.with_claim().yes_amount == position.yes_amount,
        position.with_claim().no_amount == position.no_amount,
        position.with_claim().binding == position.binding,
{
}

/// Two winners of one resolved market are paid in proportion to their stakes
/// up to rounding (`-s2 < c1 * s2 - c2 * s1 < s1`), and two stakes that
/// together are at most the winning pool are paid at most the whole pool.
pub proof fn lemma_claims_proportional(
    market: Market,
    market_key: Seq<u8>,
    p1: UserPosition,
    u1: Seq<u8>,
    a1: TransferAccounts,
    p2: UserPosition,
    u2: Seq<u8>,
    a2: TransferAccounts,
)
    requires
        claim_result(market, p1, u1, market_key, a1) is Ok,
        claim_result(market, p2, u2, market_key, a2) is Ok,
    ensures
        ({
            let s1 = p1.side_amount(market.outcome) as int;
            let s2 = p2.side_amount(market.outcome) as int;
            let c1 = claim_result(market, p1, u1, market_key, a1)->Ok_0 as int;
            let c2 = claim_result(market, p2, u2, market_key, a2)->Ok_0 as int;
            &&& c1 == share(p1.side_amount(market.outcome), market.total_pool, market.side_pool(market.outcome))
            &&& c2 == share(p2.side_amount(market.outcome), market.total_pool, market.side_pool(market.outcome))
            &&& -s2 < c1 * s2 - c2 * s1
            &&& c1 * s2 - c2 * s1 < s1
            &&& s1 + s2 <= market.side_pool(market.outcome) ==> c1 + c2 <= market.total_pool
        }),
{
    lemma_payouts_proportional(
        p1.side_amount(market.outcome),
        p2.side_amount(market.outcome),
        market.total_pool,
        market.side_pool(market.outcome),
    );
}

/// What leaves the vault for a claim: the payout on success, nothing on failure.
pub open spec fn amount_paid(r: Result<u64, MarketError>) -> int {
    match r {
        Ok(p) => p as int,
        Err(_) => 0,
    }
}

/// A position that has been paid once is refused every later claim, so the
/// vault pays it exactly once over two claims in a row.
pub proof fn lemma_claim_once(
    market: Market,
    position: UserPosition,
    user: Seq<u8>,
    market_key: Seq<u8>,
    accounts: TransferAccounts,
)
    requires
        claim_result(market, position, user, market_key, accounts) is Ok,
    ensures
        claim_result(market, position.with_claim(), user, market_key, accounts) == Err::<u64, MarketError>(
            MarketError::AlreadyClaimed,
        ),
        amount_paid(claim_result(market, position, user, market_key, accounts)) + amount_paid(
            claim_result(market, position.with_claim(), user, market_key, accounts),
        ) == claim_result(market, position, user, market_key, accounts)->Ok_0,
{
}

/// Around the deadline: a bet that passes every other check is taken one
/// tick before `end_time` and refused as expired from `end_time` on; the
/// creator's resolution of an active market is refused before `end_time` and
/// taken from `end_time` on.
pub proof fn lemma_deadline_boundary(
    market: Market,
    position: UserPosition,
    user: Seq<u8>,
    market_key: Seq<u8>,
    accounts: TransferAccounts,
    amount: u64,
    bet_on_yes: bool,
    now: i64,
)
    requires
        market.status == MarketStatus::Active,
        market.end_time > i64::MIN,
        accounts_result(market, user, accounts) is Ok,
        amount > 0,
        market.total_pool + amount <= u64::MAX,
        market.side_pool(bet_on_yes) + amount <= u64::MAX,
        position.binding is Unbound || binding_result(position, user, market_key) is Ok,
        !(position.binding is Unbound) ==> position.side_amount(bet_on_yes) + amount <= u64::MAX,
    ensures
        bet_result(market, position, user, market_key, accounts, amount, bet_on_yes, (market.end_time - 1) as i64)
            is Ok,
        now >= market.end_time ==> bet_result(market, position, user, market_key, accounts, amount, bet_on_yes, now)
            == Err::<(), MarketError>(MarketError::MarketExpired),
        now < market.end_time ==> resolve_result(market, market.creator@, now) == Err::<(), MarketError>(
            MarketError::MarketNotExpired,
        ),
        now >= market.end_time ==> resolve_result(market, market.creator@, now) is Ok,
{
}

/// Only the creator can resolve a market: anyone else is refused, and the
/// market stays as it was.
pub proof fn lemma_only_creator_resolves(market: Market, authority: Seq<u8>, now: i64)
    requires
        authority != market.creator@,
    ensures
        resolve_result(market, authority, now) == Err::<(), MarketError>(MarketError::Unauthorized),
{
}

} // verus!
