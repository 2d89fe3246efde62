use sports_prediction::address::{Address, ADDRESS_BYTES};
use sports_prediction::error::PredictionError;
use sports_prediction::market::{Market, MarketStatus, OUTCOME_A, OUTCOME_B};
use sports_prediction::payout::{compute_payout, Split, FEE_DIVISOR};

#[test]
fn payout_is_the_share_of_the_whole_pool() {
    assert_eq!(
        compute_payout(100, 400, 100),
        Some(Split { total_payout: 400, dev_fee: 40, user_payout: 360 })
    );
    assert_eq!(
        compute_payout(120, 300, 120),
        Some(Split { total_payout: 300, dev_fee: 30, user_payout: 270 })
    );
    assert_eq!(
        compute_payout(25, 400, 100),
        Some(Split { total_payout: 100, dev_fee: 10, user_payout: 90 })
    );
}

#[test]
fn payout_rounds_down_twice() {
    // 1 * 20 / 3 = 6.67, and a tenth of 6 is 0.6
    assert_eq!(
        compute_payout(1, 20, 3),
        Some(Split { total_payout: 6, dev_fee: 0, user_payout: 6 })
    );
    // 7 * 100 / 9 = 77.78, and a tenth of 77 is 7.7
    assert_eq!(
        compute_payout(7, 100, 9),
        Some(Split { total_payout: 77, dev_fee: 7, user_payout: 70 })
    );
    // 19 / 10 = 1.9
    assert_eq!(
        compute_payout(19, 19, 19),
        Some(Split { total_payout: 19, dev_fee: 1, user_payout: 18 })
    );
}

#[test]
fn payout_multiplies_before_it_divides() {
    // dividing first would give 0 * 1000
    assert_eq!(
        compute_payout(1, 1000, 3),
        Some(Split { total_payout: 333, dev_fee: 33, user_payout: 300 })
    );
}

#[test]
fn payout_of_nothing_is_nothing() {
    assert_eq!(
        compute_payout(0, 400, 100),
        Some(Split { total_payout: 0, dev_fee: 0, user_payout: 0 })
    );
    assert_eq!(
        compute_payout(100, 0, 100),
        Some(Split { total_payout: 0, dev_fee: 0, user_payout: 0 })
    );
}

#[test]
fn payout_from_an_empty_winning_pool_is_none() {
    assert_eq!(compute_payout(0, 0, 0), None);
    assert_eq!(compute_payout(5, 7, 0), None);
    assert_eq!(compute_payout(u64::MAX, u64::MAX, 0), None);
}

#[test]
fn sole_winner_takes_the_pool_less_a_tenth() {
    for total in [1u64, 9, 10, 11, 99, 1_005, 123_456_789, u64::MAX] {
        let fee = total / 10;
        assert_eq!(
            compute_payout(total, total, total),
            Some(Split { total_payout: total, dev_fee: fee, user_payout: total - fee })
        );
    }
    assert_eq!(
        compute_payout(1_005, 1_005, 1_005),
        Some(Split { total_payout: 1_005, dev_fee: 100, user_payout: 905 })
    );
}

#[test]
fn payout_of_the_widest_stakes_needs_no_more_than_128_bits() {
    let max = u64::MAX;
    assert_eq!(
        compute_payout(max, max, max),
        Some(Split {
            total_payout: max,
            dev_fee: 1_844_674_407_370_955_161,
            user_payout: max - 1_844_674_407_370_955_161
        })
    );
    // half of the winning pool earns half of the whole pool, rounded down
    assert_eq!(compute_payout(max / 2, max, max).map(|s| s.total_payout), Some(max / 2));
    assert_eq!(compute_payout(1 << 63, max, max).map(|s| s.total_payout), Some(1 << 63));
}

#[test]
fn payout_beyond_64_bits_is_none() {
    // 3 * (2^64 - 1) / 1
    assert_eq!(compute_payout(3, u64::MAX, 1), None);
    // 2^63 * 2^63 = 2^126
    assert_eq!(compute_payout(1 << 63, 1 << 63, 1), None);
    // 2^32 * 2^32 = 2^64 is one too many, and one less fits
    assert_eq!(compute_payout(1 << 32, 1 << 32, 1), None);
    assert_eq!(
        compute_payout((1 << 32) - 1, (1 << 32) + 1, 1).map(|s| s.total_payout),
        Some(u64::MAX)
    );
    assert_eq!(compute_payout(2, u64::MAX, 2).map(|s| s.total_payout), Some(u64::MAX));
    assert_eq!(compute_payout(3, u64::MAX, 2), None);
}

#[test]
fn the_fee_is_a_tenth() {
    assert_eq!(FEE_DIVISOR, 10);
    let fees: [(u64, u64); 7] =
        [(0, 0), (9, 0), (10, 1), (19, 1), (20, 2), (400, 40), (1_000_001, 100_000)];
    for (amount, fee) in fees {
        let split = compute_payout(amount, 1, 1).unwrap();
        assert_eq!(split.total_payout, amount);
        assert_eq!(split.dev_fee, fee);
        assert_eq!(split.dev_fee + split.user_payout, split.total_payout);
        assert!(split.dev_fee * 10 <= split.total_payout);
    }
}

#[test]
fn winning_pool_is_the_pool_of_the_winning_outcome() {
    let mut market = Market {
        event_id: "e".to_string(),
        oracle_feed: Address::new([0; 32]),
        dev_wallet: Address::new([0; 32]),
        pool_a: 11,
        pool_b: 22,
        total_pool: 33,
        end_time: 0,
        status: MarketStatus::Settled,
        authority: Address::new([0; 32]),
        winning_outcome: OUTCOME_A,
        vault_bump: 0,
    };
    assert_eq!(market.winning_pool_amount(), 11);
    market.winning_outcome = OUTCOME_B;
    assert_eq!(market.winning_pool_amount(), 22);
    assert_eq!((OUTCOME_A, OUTCOME_B), (0, 1));
}

#[test]
fn addresses_compare_by_their_bytes() {
    let a = Address::new([5; 32]);
    let b = Address::new([5; 32]);
    assert_eq!(a, b);
    assert_eq!(ADDRESS_BYTES, 32);
    for i in 0..32 {
        let mut bytes = [5u8; 32];
        bytes[i] = 6;
        assert_ne!(a, Address::new(bytes));
    }
    let mut counted = [0u8; 32];
    for (i, byte) in counted.iter_mut().enumerate() {
        *byte = i as u8;
    }
    assert_eq!(Address::new(counted).to_vec(), (0u8..32).collect::<Vec<u8>>());
    assert_eq!(Address::new(counted).bytes, counted);
}

#[test]
fn every_error_has_its_message() {
    let messages = [
        (PredictionError::MarketNotOpen, "Market is not open for betting"),
        (PredictionError::MarketLocked, "Market is locked"),
        (PredictionError::MarketNotSettled, "Market is not settled yet"),
        (PredictionError::MarketExpired, "Betting period has expired"),
        (PredictionError::Unauthorized, "Unauthorized action"),
        (PredictionError::InvalidOutcome, "Invalid outcome ID"),
        (PredictionError::AlreadyClaimed, "Already claimed winnings"),
        (PredictionError::LostBet, "This bet did not win"),
        (PredictionError::InconsistentState, "Internal state inconsistency"),
    ];
    for (error, text) in messages {
        assert_eq!(error.message(), text);
    }
}
