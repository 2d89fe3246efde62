use sports_prediction::address::Address;
use sports_prediction::escrow::{
    find_bet_address, find_market_address, find_vault, is_vault_of, vault_address,
    vault_signer_seeds, MAX_SEEDS, MAX_SEED_LEN,
};
use sports_prediction::market::{Market, MarketStatus};

fn program() -> Address {
    Address::new([7; 32])
}

fn market_of(event_id: &str, vault_bump: u8) -> Market {
    Market {
        event_id: event_id.to_string(),
        oracle_feed: Address::new([0; 32]),
        dev_wallet: Address::new([0; 32]),
        pool_a: 0,
        pool_b: 0,
        total_pool: 0,
        end_time: 0,
        status: MarketStatus::Open,
        authority: Address::new([0; 32]),
        winning_outcome: 0,
        vault_bump,
    }
}

const VAULT_OF_FINAL: [u8; 32] = [
    179, 60, 114, 154, 229, 101, 59, 63, 241, 249, 252, 155, 49, 249, 16, 209, 68, 15, 132, 26,
    133, 201, 95, 132, 108, 94, 79, 183, 134, 204, 156, 138,
];

const VAULT_OF_DERBY: [u8; 32] = [
    100, 46, 230, 15, 145, 95, 234, 84, 139, 31, 77, 30, 109, 150, 144, 142, 225, 62, 207, 128,
    28, 64, 144, 158, 169, 137, 127, 124, 204, 72, 32, 94,
];

const VAULT_OF_NOTHING: [u8; 32] = [
    63, 204, 154, 156, 44, 128, 245, 147, 167, 68, 46, 138, 245, 247, 248, 127, 186, 116, 98, 91,
    132, 36, 242, 186, 228, 156, 78, 10, 164, 22, 194, 236,
];

const MARKET_OF_FINAL: [u8; 32] = [
    211, 172, 247, 214, 167, 222, 105, 226, 227, 212, 219, 105, 247, 206, 226, 134, 194, 172, 3,
    13, 23, 24, 154, 114, 151, 66, 116, 90, 212, 235, 240, 238,
];

const MARKET_OF_DERBY: [u8; 32] = [
    222, 252, 126, 73, 234, 190, 165, 119, 32, 163, 142, 48, 145, 148, 240, 46, 46, 228, 15, 42,
    111, 185, 74, 30, 154, 249, 90, 81, 37, 59, 13, 107,
];

const BET_OF_ONE_AND_TWO: [u8; 32] = [
    117, 161, 11, 97, 229, 60, 234, 84, 184, 124, 210, 127, 27, 75, 120, 59, 58, 163, 174, 69, 212,
    0, 177, 32, 32, 106, 168, 220, 8, 210, 188, 74,
];

#[test]
fn limits_of_a_derivation() {
    assert_eq!(MAX_SEED_LEN, 32);
    assert_eq!(MAX_SEEDS, 16);
}

#[test]
fn find_vault_gives_the_address_and_the_highest_nonce_that_derives_one() {
    assert_eq!(find_vault(&program(), "final-2024"), Some((Address::new(VAULT_OF_FINAL), 253)));
    assert_eq!(find_vault(&program(), "derby"), Some((Address::new(VAULT_OF_DERBY), 251)));
    assert_eq!(find_vault(&program(), ""), Some((Address::new(VAULT_OF_NOTHING), 254)));
}

#[test]
fn find_vault_depends_on_the_program() {
    let other = Address::new([8; 32]);
    let here = find_vault(&program(), "final-2024").unwrap();
    let there = find_vault(&other, "final-2024").unwrap();
    assert_ne!(here.0, there.0);
    assert_ne!(here.0, program());
    assert_ne!(there.0, other);
}

#[test]
fn find_vault_is_the_same_each_time() {
    for event in ["final-2024", "derby", "a", "cup/2025/semi-1"] {
        let first = find_vault(&program(), event);
        assert!(first.is_some());
        assert_eq!(find_vault(&program(), event), first);
    }
}

#[test]
fn find_vault_has_nothing_for_a_long_identifier() {
    let just_fits = "x".repeat(32);
    let too_long = "x".repeat(33);
    assert!(find_vault(&program(), &just_fits).is_some());
    assert_eq!(find_vault(&program(), &too_long), None);
    // the limit counts bytes, not characters
    let sixteen_two_byte_chars = "é".repeat(16);
    let seventeen_two_byte_chars = "é".repeat(17);
    assert!(find_vault(&program(), &sixteen_two_byte_chars).is_some());
    assert_eq!(find_vault(&program(), &seventeen_two_byte_chars), None);
}

#[test]
fn vault_address_derives_with_the_nonce_on_record() {
    let market = market_of("final-2024", 253);
    assert_eq!(vault_address(&program(), &market), Some(Address::new(VAULT_OF_FINAL)));
    let market = market_of("derby", 251);
    assert_eq!(vault_address(&program(), &market), Some(Address::new(VAULT_OF_DERBY)));
}

#[test]
fn vault_address_has_nothing_for_a_nonce_that_derives_none() {
    // the nonces above the one that a search finds derive no address
    for bump in [255u8, 254] {
        assert_eq!(vault_address(&program(), &market_of("final-2024", bump)), None);
    }
    for bump in [255u8, 254, 253, 252] {
        assert_eq!(vault_address(&program(), &market_of("derby", bump)), None);
    }
}

#[test]
fn vault_address_has_nothing_for_a_long_identifier() {
    let too_long = "y".repeat(33);
    for bump in [0u8, 1, 128, 255] {
        assert_eq!(vault_address(&program(), &market_of(&too_long, bump)), None);
    }
}

#[test]
fn vault_address_agrees_with_find_vault() {
    for event in ["final-2024", "derby", "", "cup/2025/semi-1", "z"] {
        let (vault, bump) = find_vault(&program(), event).unwrap();
        assert!(bump >= 1);
        let market = market_of(event, bump);
        assert_eq!(vault_address(&program(), &market), Some(vault));
        assert!(is_vault_of(&program(), &market, &vault));
        let mut higher = bump;
        while higher < 255 {
            higher += 1;
            assert_eq!(vault_address(&program(), &market_of(event, higher)), None);
        }
    }
}

#[test]
fn is_vault_of_tells_the_escrow_from_other_addresses() {
    let market = market_of("final-2024", 253);
    assert!(is_vault_of(&program(), &market, &Address::new(VAULT_OF_FINAL)));
    assert!(!is_vault_of(&program(), &market, &Address::new(VAULT_OF_DERBY)));
    assert!(!is_vault_of(&program(), &market, &program()));
    let mut almost = VAULT_OF_FINAL;
    almost[31] ^= 1;
    assert!(!is_vault_of(&program(), &market, &Address::new(almost)));
    // with a nonce that derives nothing, nothing is the escrow
    let broken = market_of("final-2024", 255);
    assert!(!is_vault_of(&program(), &broken, &Address::new(VAULT_OF_FINAL)));
    // under another program the escrow is another
    assert!(!is_vault_of(&Address::new([8; 32]), &market, &Address::new(VAULT_OF_FINAL)));
}

#[test]
fn vault_signer_seeds_are_tag_identifier_and_nonce() {
    let seeds = vault_signer_seeds(&market_of("final-2024", 253));
    assert_eq!(seeds, vec![b"vault".to_vec(), b"final-2024".to_vec(), vec![253u8]]);
    let seeds = vault_signer_seeds(&market_of("", 0));
    assert_eq!(seeds, vec![b"vault".to_vec(), Vec::<u8>::new(), vec![0u8]]);
    let seeds = vault_signer_seeds(&market_of("é", 9));
    assert_eq!(seeds, vec![vec![118u8, 97, 117, 108, 116], vec![0xC3u8, 0xA9], vec![9u8]]);
}

#[test]
fn find_market_address_gives_the_address_and_its_nonce() {
    assert_eq!(
        find_market_address(&program(), "final-2024"),
        Some((Address::new(MARKET_OF_FINAL), 255))
    );
    assert_eq!(
        find_market_address(&program(), "derby"),
        Some((Address::new(MARKET_OF_DERBY), 254))
    );
    assert_eq!(find_market_address(&program(), &"m".repeat(33)), None);
}

#[test]
fn market_and_vault_of_one_event_differ() {
    for event in ["final-2024", "derby", ""] {
        let vault = find_vault(&program(), event).unwrap().0;
        let market = find_market_address(&program(), event).unwrap().0;
        assert_ne!(vault, market);
    }
}

#[test]
fn vaults_of_different_events_differ() {
    let events = ["final-2024", "final-2025", "derby", "", "a", "b"];
    for (i, first) in events.iter().enumerate() {
        for second in events.iter().skip(i + 1) {
            assert_ne!(
                find_vault(&program(), first).unwrap().0,
                find_vault(&program(), second).unwrap().0
            );
        }
    }
}

#[test]
fn find_bet_address_gives_one_record_for_each_market_and_bettor() {
    let market = Address::new([1; 32]);
    let user = Address::new([2; 32]);
    assert_eq!(
        find_bet_address(&program(), &market, &user),
        Some((Address::new(BET_OF_ONE_AND_TWO), 254))
    );
    let swapped = find_bet_address(&program(), &user, &market).unwrap();
    assert_ne!(swapped.0, Address::new(BET_OF_ONE_AND_TWO));
    let other_user = find_bet_address(&program(), &market, &Address::new([3; 32])).unwrap();
    assert_ne!(other_user.0, Address::new(BET_OF_ONE_AND_TWO));
    let other_market = find_bet_address(&program(), &Address::new([3; 32]), &user).unwrap();
    assert_ne!(other_market.0, Address::new(BET_OF_ONE_AND_TWO));
}
