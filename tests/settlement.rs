use bizfi_market::engine::{claim_winnings, initialize_market, place_bet, resolve_market};
use bizfi_market::payout::compute_payout;
use bizfi_market::{
    Address, CustodyAccount, Market, MarketBumps, MarketError, MarketStatus, PositionBinding,
    TransferAccounts, UserPosition,
};

fn addr(b: u8) -> Address {
    Address { bytes: [b; 32] }
}

const CREATOR: u8 = 1;
const MINT: u8 = 2;
const VAULT_AUTH: u8 = 3;
const MARKET_KEY: u8 = 4;
const ALICE: u8 = 10;
const BOB: u8 = 11;

fn bumps() -> MarketBumps {
    MarketBumps { market: 255, vault: 254, vault_authority: 253 }
}

fn accounts_for(user: u8) -> TransferAccounts {
    TransferAccounts {
        user_token: CustodyAccount { owner: addr(user), mint: addr(MINT) },
        vault_token: CustodyAccount { owner: addr(VAULT_AUTH), mint: addr(MINT) },
        vault_authority: addr(VAULT_AUTH),
    }
}

fn open_market(now: i64, duration: i64) -> Market {
    initialize_market(7, &addr(CREATOR), "Will it rain?".to_string(), duration, now, &addr(MINT), &bumps())
        .unwrap()
}

fn bet(m: &mut Market, p: &mut UserPosition, user: u8, amount: u64, yes: bool, now: i64) -> Result<(), MarketError> {
    place_bet(m, p, &addr(user), &addr(MARKET_KEY), &accounts_for(user), amount, yes, now)
}

fn claim(m: &Market, p: &mut UserPosition, user: u8) -> Result<u64, MarketError> {
    claim_winnings(m, p, &addr(user), &addr(MARKET_KEY), &accounts_for(user))
}

#[test]
fn initialize_sets_fields() {
    let m = open_market(1000, 100);
    assert_eq!(m.market_id, 7);
    assert_eq!(m.end_time, 1100);
    assert_eq!(m.status, MarketStatus::Active);
    assert_eq!((m.total_pool, m.yes_pool, m.no_pool), (0, 0, 0));
    assert!(!m.outcome);
    assert_eq!(m.creator.bytes, [CREATOR; 32]);
    assert_eq!(m.usdc_mint.bytes, [MINT; 32]);
    assert_eq!((m.market_bump, m.vault_bump, m.vault_authority_bump), (255, 254, 253));
    assert_eq!(m.question, "Will it rain?");
}

#[test]
fn initialize_rejects_bad_inputs() {
    let c = addr(CREATOR);
    let mint = addr(MINT);
    let e = initialize_market(0, &c, "q".to_string(), 10, 0, &mint, &bumps()).unwrap_err();
    assert_eq!(e, MarketError::InvalidMarketId);
    let long = "x".repeat(257);
    let e = initialize_market(1, &c, long, 10, 0, &mint, &bumps()).unwrap_err();
    assert_eq!(e, MarketError::QuestionTooLong);
    let exact = "x".repeat(256);
    assert!(initialize_market(1, &c, exact, 10, 0, &mint, &bumps()).is_ok());
    let e = initialize_market(1, &c, "q".to_string(), 0, 0, &mint, &bumps()).unwrap_err();
    assert_eq!(e, MarketError::InvalidDuration);
    let e = initialize_market(1, &c, "q".to_string(), -5, 0, &mint, &bumps()).unwrap_err();
    assert_eq!(e, MarketError::InvalidDuration);
    let e = initialize_market(1, &c, "q".to_string(), 10, i64::MAX - 5, &mint, &bumps()).unwrap_err();
    assert_eq!(e, MarketError::MathOverflow);
}

#[test]
fn scenario_a_two_sided_market() {
    let mut m = open_market(0, 100);
    let mut pa = UserPosition::unbound(250);
    let mut pb = UserPosition::unbound(249);
    bet(&mut m, &mut pa, ALICE, 100, true, 10).unwrap();
    bet(&mut m, &mut pb, BOB, 300, false, 20).unwrap();
    assert_eq!((m.total_pool, m.yes_pool, m.no_pool), (400, 100, 300));
    assert_eq!(resolve_market(&mut m, &addr(CREATOR), false, 100), Ok(()));
    assert_eq!(claim(&m, &mut pb, BOB), Ok(400));
    assert!(pb.claimed);
    assert_eq!(claim(&m, &mut pa, ALICE), Err(MarketError::NoWinnings));
    assert!(!pa.claimed);
}

#[test]
fn scenario_b_single_bettor_takes_whole_pool() {
    let mut m = open_market(0, 100);
    let mut p = UserPosition::unbound(1);
    bet(&mut m, &mut p, ALICE, 50, true, 0).unwrap();
    resolve_market(&mut m, &addr(CREATOR), true, 500).unwrap();
    assert_eq!(claim(&m, &mut p, ALICE), Ok(50));
}

#[test]
fn claim_is_idempotent() {
    let mut m = open_market(0, 100);
    let mut p = UserPosition::unbound(1);
    bet(&mut m, &mut p, ALICE, 70, true, 0).unwrap();
    resolve_market(&mut m, &addr(CREATOR), true, 100).unwrap();
    assert_eq!(claim(&m, &mut p, ALICE), Ok(70));
    assert_eq!(claim(&m, &mut p, ALICE), Err(MarketError::AlreadyClaimed));
    assert!(p.claimed);
    assert_eq!(p.yes_amount, 70);
}

#[test]
fn betting_deadline_boundary() {
    let mut m = open_market(1000, 100);
    let mut p = UserPosition::unbound(1);
    assert_eq!(bet(&mut m, &mut p, ALICE, 5, true, 1099), Ok(()));
    assert_eq!(bet(&mut m, &mut p, ALICE, 5, true, 1100), Err(MarketError::MarketExpired));
    assert_eq!(bet(&mut m, &mut p, ALICE, 5, true, 5000), Err(MarketError::MarketExpired));
    assert_eq!(m.total_pool, 5);
}

#[test]
fn resolution_deadline_boundary() {
    let mut m = open_market(1000, 100);
    assert_eq!(resolve_market(&mut m, &addr(CREATOR), true, 1099), Err(MarketError::MarketNotExpired));
    assert_eq!(m.status, MarketStatus::Active);
    assert_eq!(resolve_market(&mut m, &addr(CREATOR), true, 1100), Ok(()));
    assert_eq!(m.status, MarketStatus::Resolved);
    assert!(m.outcome);
    assert_eq!(resolve_market(&mut m, &addr(CREATOR), false, 1200), Err(MarketError::MarketNotActive));
    assert!(m.outcome);
}

#[test]
fn only_creator_resolves() {
    let mut m = open_market(0, 10);
    assert_eq!(resolve_market(&mut m, &addr(ALICE), true, 50), Err(MarketError::Unauthorized));
    assert_eq!(m.status, MarketStatus::Active);
}

#[test]
fn bet_overflow_leaves_ledgers_unchanged() {
    let mut m = open_market(0, 100);
    let mut pa = UserPosition::unbound(1);
    let mut pb = UserPosition::unbound(2);
    bet(&mut m, &mut pa, ALICE, u64::MAX - 10, true, 0).unwrap();
    assert_eq!(bet(&mut m, &mut pb, BOB, 11, false, 0), Err(MarketError::MathOverflow));
    assert_eq!((m.total_pool, m.yes_pool, m.no_pool), (u64::MAX - 10, u64::MAX - 10, 0));
    assert!(matches!(pb.binding, PositionBinding::Unbound));
    assert_eq!((pb.yes_amount, pb.no_amount), (0, 0));
    assert_eq!(bet(&mut m, &mut pb, BOB, 10, false, 0), Ok(()));
    assert_eq!(m.total_pool, u64::MAX);
}

#[test]
fn payout_overflow_is_refused() {
    // A stake larger than its side's pool would be owed more than a u64 holds.
    assert_eq!(compute_payout(u64::MAX, u64::MAX, 1), Err(MarketError::MathOverflow));
    let m = Market {
        market_id: 1,
        creator: addr(CREATOR),
        question: String::new(),
        end_time: 0,
        status: MarketStatus::Resolved,
        total_pool: u64::MAX,
        yes_pool: 2,
        no_pool: 0,
        outcome: true,
        usdc_mint: addr(MINT),
        market_bump: 0,
        vault_bump: 0,
        vault_authority_bump: 0,
    };
    let mut p = UserPosition {
        binding: PositionBinding::Bound { user: addr(ALICE), market: addr(MARKET_KEY) },
        yes_amount: 4,
        no_amount: 0,
        claimed: false,
        bump: 0,
    };
    assert_eq!(claim(&m, &mut p, ALICE), Err(MarketError::MathOverflow));
    assert!(!p.claimed);
}

#[test]
fn payout_values() {
    assert_eq!(compute_payout(300, 400, 300), Ok(400));
    assert_eq!(compute_payout(1, 10, 3), Ok(3));
    assert_eq!(compute_payout(2, 10, 3), Ok(6));
    assert_eq!(compute_payout(1, 1, 3), Err(MarketError::NoWinnings));
    assert_eq!(compute_payout(0, 10, 3), Err(MarketError::NoWinnings));
    assert_eq!(compute_payout(5, 10, 0), Err(MarketError::NoWinnings));
}

#[test]
fn proportional_payouts_stay_within_pool() {
    let mut m = open_market(0, 100);
    let mut p1 = UserPosition::unbound(1);
    let mut p2 = UserPosition::unbound(2);
    let mut p3 = UserPosition::unbound(3);
    bet(&mut m, &mut p1, ALICE, 1, true, 0).unwrap();
    bet(&mut m, &mut p2, BOB, 2, true, 0).unwrap();
    bet(&mut m, &mut p3, 12, 7, false, 0).unwrap();
    resolve_market(&mut m, &addr(CREATOR), true, 100).unwrap();
    let c1 = claim(&m, &mut p1, ALICE).unwrap();
    let c2 = claim(&m, &mut p2, BOB).unwrap();
    assert_eq!((c1, c2), (3, 6));
    assert!(c1 + c2 <= m.total_pool);
    assert_eq!(claim(&m, &mut p3, 12), Err(MarketError::NoWinnings));
}

#[test]
fn bet_gate_errors() {
    let mut m = open_market(0, 100);
    let mut p = UserPosition::unbound(1);
    assert_eq!(bet(&mut m, &mut p, ALICE, 0, true, 0), Err(MarketError::InvalidAmount));
    let mut wrong = accounts_for(ALICE);
    wrong.user_token.owner = addr(BOB);
    let r = place_bet(&mut m, &mut p, &addr(ALICE), &addr(MARKET_KEY), &wrong, 5, true, 0);
    assert_eq!(r, Err(MarketError::InvalidTokenOwner));
    let mut wrong = accounts_for(ALICE);
    wrong.user_token.mint = addr(99);
    let r = place_bet(&mut m, &mut p, &addr(ALICE), &addr(MARKET_KEY), &wrong, 5, true, 0);
    assert_eq!(r, Err(MarketError::InvalidTokenMint));
    let mut wrong = accounts_for(ALICE);
    wrong.vault_token.owner = addr(99);
    let r = place_bet(&mut m, &mut p, &addr(ALICE), &addr(MARKET_KEY), &wrong, 5, true, 0);
    assert_eq!(r, Err(MarketError::InvalidVaultAuthority));
    let mut wrong = accounts_for(ALICE);
    wrong.vault_token.mint = addr(99);
    let r = place_bet(&mut m, &mut p, &addr(ALICE), &addr(MARKET_KEY), &wrong, 5, true, 0);
    assert_eq!(r, Err(MarketError::InvalidTokenMint));
    assert_eq!(m.total_pool, 0);
    resolve_market(&mut m, &addr(CREATOR), true, 100).unwrap();
    assert_eq!(bet(&mut m, &mut p, ALICE, 5, true, 0), Err(MarketError::MarketNotActive));
}

#[test]
fn position_binding_is_enforced() {
    let mut m = open_market(0, 100);
    let mut p = UserPosition::unbound(1);
    bet(&mut m, &mut p, ALICE, 5, true, 0).unwrap();
    match p.binding {
        PositionBinding::Bound { user, market } => {
            assert_eq!(user.bytes, [ALICE; 32]);
            assert_eq!(market.bytes, [MARKET_KEY; 32]);
        }
        PositionBinding::Unbound => panic!("position left unbound"),
    }
    assert_eq!(bet(&mut m, &mut p, BOB, 5, true, 0), Err(MarketError::InvalidPositionOwner));
    let r = place_bet(&mut m, &mut p, &addr(ALICE), &addr(77), &accounts_for(ALICE), 5, true, 0);
    assert_eq!(r, Err(MarketError::InvalidPositionMarket));
    bet(&mut m, &mut p, ALICE, 6, false, 0).unwrap();
    assert_eq!((p.yes_amount, p.no_amount), (5, 6));
    assert_eq!((m.total_pool, m.yes_pool, m.no_pool), (11, 5, 6));
    resolve_market(&mut m, &addr(CREATOR), true, 100).unwrap();
    assert_eq!(claim(&m, &mut p, BOB), Err(MarketError::InvalidPositionOwner));
    let r = claim_winnings(&m, &mut p, &addr(ALICE), &addr(77), &accounts_for(ALICE));
    assert_eq!(r, Err(MarketError::InvalidPositionMarket));
    let mut fresh = UserPosition::unbound(3);
    assert_eq!(claim(&m, &mut fresh, BOB), Err(MarketError::InvalidPositionOwner));
}

#[test]
fn claim_before_resolution_is_refused() {
    let mut m = open_market(0, 100);
    let mut p = UserPosition::unbound(1);
    bet(&mut m, &mut p, ALICE, 5, true, 0).unwrap();
    assert_eq!(claim(&m, &mut p, ALICE), Err(MarketError::MarketNotResolved));
}

#[test]
fn pools_match_position_stakes() {
    let mut m = open_market(0, 100);
    let users = [ALICE, BOB, 12, 13];
    let mut positions: Vec<UserPosition> = (0..4).map(|i| UserPosition::unbound(i as u8)).collect();
    let stakes = [(0usize, 5u64, true), (1, 7, false), (0, 3, false), (2, 11, true), (3, 2, true), (1, 1, true)];
    for &(i, amount, yes) in stakes.iter() {
        bet(&mut m, &mut positions[i], users[i], amount, yes, 1).unwrap();
        let yes_sum: u64 = positions.iter().map(|p| p.yes_amount).sum();
        let no_sum: u64 = positions.iter().map(|p| p.no_amount).sum();
        assert_eq!(m.yes_pool, yes_sum);
        assert_eq!(m.no_pool, no_sum);
        assert_eq!(m.total_pool, m.yes_pool + m.no_pool);
    }
    assert_eq!((m.total_pool, m.yes_pool, m.no_pool), (29, 19, 10));
    resolve_market(&mut m, &addr(CREATOR), true, 100).unwrap();
    let paid: u64 = (0..4).map(|i| claim(&m, &mut positions[i], users[i]).unwrap_or(0)).sum();
    assert!(paid <= m.total_pool);
    assert_eq!(m.total_pool, m.yes_pool + m.no_pool);
}

#[test]
fn binding_starts_from_no_stake() {
    let mut m = open_market(0, 100);
    let mut p = UserPosition {
        binding: PositionBinding::Unbound,
        yes_amount: 40,
        no_amount: 9,
        claimed: true,
        bump: 5,
    };
    bet(&mut m, &mut p, ALICE, 6, true, 0).unwrap();
    assert_eq!((p.yes_amount, p.no_amount, p.claimed, p.bump), (6, 0, false, 5));
    assert_eq!((m.total_pool, m.yes_pool, m.no_pool), (6, 6, 0));
}
