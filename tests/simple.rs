use prediction_market::error::ErrorCode;
use prediction_market::simple::{
    add_to_bet, claim_own_bet, claim_winnings, create_market, initialize, place_bet, resolve_market,
    resolve_with_oracle, Bet, Market,
};
use prediction_market::types::AccountKey;

fn owner() -> AccountKey {
    AccountKey::new([1; 32])
}

fn manual_market() -> Market {
    create_market(owner(), String::from("Will it snow?"), String::new(), 100, false, None, None, None, 10).unwrap()
}

fn oracle_market(comparison: u8) -> Market {
    create_market(owner(), String::from("BTC above 100k?"), String::new(), 100, true, Some([3; 32]), Some(100_000), Some(comparison), 10).unwrap()
}

#[test]
fn global_state_starts_empty() {
    let g = initialize(owner());
    assert_eq!((g.total_markets, g.total_volume), (0, 0));
}

#[test]
fn create_market_checks_oracle_configuration() {
    let q = || String::from("BTC above 100k?");
    assert_eq!(create_market(owner(), q(), String::new(), 100, true, None, Some(1), Some(0), 10).err(), Some(ErrorCode::OracleFeedIdRequired));
    assert_eq!(create_market(owner(), q(), String::new(), 100, true, Some([0; 32]), None, Some(0), 10).err(), Some(ErrorCode::OracleThresholdRequired));
    assert_eq!(create_market(owner(), q(), String::new(), 100, true, Some([0; 32]), Some(1), None, 10).err(), Some(ErrorCode::OracleComparisonRequired));
    assert_eq!(create_market(owner(), q(), String::new(), 100, true, Some([0; 32]), Some(1), Some(3), 10).err(), Some(ErrorCode::InvalidOracleComparison));
    assert_eq!(create_market(owner(), q(), String::new(), 10, false, None, None, None, 10).err(), Some(ErrorCode::InvalidEndTime));
    assert_eq!(create_market(owner(), "q".repeat(201), String::new(), 100, false, None, None, None, 10).err(), Some(ErrorCode::QuestionTooLong));
    assert_eq!(create_market(owner(), String::from("0123456789"), String::new(), 100, false, None, None, None, 10).err(), Some(ErrorCode::InvalidQuestionLength));
    assert_eq!(create_market(owner(), String::new(), String::new(), 100, false, None, None, None, 10).err(), Some(ErrorCode::InvalidQuestionLength));
    assert_eq!(create_market(owner(), q(), "d".repeat(501), 100, false, None, None, None, 10).err(), Some(ErrorCode::InvalidDescriptionLength));
    assert!(create_market(owner(), String::from("01234567890"), "d".repeat(500), 100, false, None, None, None, 10).is_ok());
    let m = manual_market();
    assert_eq!(m.oracle_feed_id, [0; 32]);
}

fn fresh_bet() -> Bet {
    Bet { user: AccountKey::new([0; 32]), market: AccountKey::new([0; 32]), amount: 0, outcome: false, claimed: false, timestamp: 0 }
}

#[test]
fn merged_bets_and_owner_checked_claim() {
    let mut m = manual_market();
    let k = AccountKey::new([7; 32]);
    let alice = AccountKey::new([2; 32]);
    let bob = AccountKey::new([3; 32]);
    let mut a = fresh_bet();
    let mut b = fresh_bet();
    assert_eq!(add_to_bet(&mut m, &mut a, k, alice, 0, true, 20), Err(ErrorCode::InvalidAmount));
    assert_eq!(add_to_bet(&mut m, &mut a, k, alice, 1, true, 20), Ok(()));
    assert_eq!(add_to_bet(&mut m, &mut a, k, alice, 29, true, 21), Ok(()));
    assert_eq!(add_to_bet(&mut m, &mut a, k, alice, 5, false, 21), Err(ErrorCode::InvalidInputParameters));
    assert_eq!(add_to_bet(&mut m, &mut b, k, bob, 20, false, 21), Ok(()));
    assert_eq!((a.amount, a.outcome), (30, true));
    assert_eq!((m.yes_amount, m.no_amount), (30, 20));
    resolve_market(&mut m, owner(), true, 100).unwrap();
    assert_eq!(claim_own_bet(&m, &mut a, bob), Err(ErrorCode::Unauthorized));
    assert_eq!(claim_own_bet(&m, &mut b, bob), Err(ErrorCode::WrongOutcome));
    assert_eq!(claim_own_bet(&m, &mut a, alice), Ok(50));
    assert_eq!(claim_own_bet(&m, &mut a, alice), Err(ErrorCode::AlreadyClaimed));
}

#[test]
fn bets_and_pot_split_claim() {
    let mut m = manual_market();
    let k = AccountKey::new([7; 32]);
    assert_eq!(place_bet(&mut m, k, AccountKey::new([2; 32]), 9_999_999, true, 20).err(), Some(ErrorCode::BetTooSmall));
    let mut winner = place_bet(&mut m, k, AccountKey::new([2; 32]), 30_000_000, true, 20).unwrap();
    let mut loser = place_bet(&mut m, k, AccountKey::new([3; 32]), 20_000_000, false, 20).unwrap();
    assert_eq!(place_bet(&mut m, k, AccountKey::new([3; 32]), 20_000_000, false, 100).err(), Some(ErrorCode::MarketExpired));
    assert_eq!((m.yes_amount, m.no_amount), (30_000_000, 20_000_000));
    assert_eq!(claim_winnings(&m, &mut winner), Err(ErrorCode::MarketNotResolved));
    assert_eq!(resolve_market(&mut m, owner(), true, 99), Err(ErrorCode::MarketNotExpired));
    assert_eq!(resolve_market(&mut m, AccountKey::new([2; 32]), true, 100), Err(ErrorCode::Unauthorized));
    assert_eq!(resolve_market(&mut m, owner(), true, 100), Ok(()));
    assert_eq!(resolve_market(&mut m, owner(), true, 100), Err(ErrorCode::AlreadyResolved));
    assert_eq!(claim_winnings(&m, &mut loser), Err(ErrorCode::WrongOutcome));
    assert_eq!(claim_winnings(&m, &mut winner), Ok(50_000_000));
    assert_eq!(claim_winnings(&m, &mut winner), Err(ErrorCode::AlreadyClaimed));
}

#[test]
fn oracle_price_comparisons() {
    let mut above = oracle_market(0);
    assert_eq!(resolve_market(&mut above, owner(), true, 100), Err(ErrorCode::MustUseOracle));
    assert_eq!(resolve_with_oracle(&mut above, 100_001, 99), Err(ErrorCode::MarketNotExpired));
    assert_eq!(resolve_with_oracle(&mut above, 100_001, 100), Ok(true));
    let mut below = oracle_market(1);
    assert_eq!(resolve_with_oracle(&mut below, 100_001, 100), Ok(false));
    let mut equals = oracle_market(2);
    assert_eq!(resolve_with_oracle(&mut equals, 100_000, 100), Ok(true));
    assert!(equals.resolved && equals.winning_outcome);
    let mut manual = manual_market();
    assert_eq!(resolve_with_oracle(&mut manual, 1, 100), Err(ErrorCode::OracleNotEnabled));
}
