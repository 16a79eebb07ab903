use anchor_lang::prelude::{Clock, Pubkey};
use pyth_solana_receiver_sdk::error::GetPriceError;
use pyth_solana_receiver_sdk::price_update as sdk;
use yield_splitter::oracle::{
    get_price_no_older_than, parse_feed_id, same_feed, Price, PriceError, PriceFeedMessage,
    PriceUpdate, VerificationLevel,
};

const SOL_USD: &str = "0xef0d8b6fda2ceba41da15d4095d1da392a0d2f8ed0c6c7bc0f4cfac8c280b56d";

const SOL_USD_ID: [u8; 32] = [
    0xef, 0x0d, 0x8b, 0x6f, 0xda, 0x2c, 0xeb, 0xa4, 0x1d, 0xa1, 0x5d, 0x40, 0x95, 0xd1, 0xda, 0x39,
    0x2a, 0x0d, 0x2f, 0x8e, 0xd0, 0xc6, 0xc7, 0xbc, 0x0f, 0x4c, 0xfa, 0xc8, 0xc2, 0x80, 0xb5, 0x6d,
];

fn update(level: VerificationLevel, feed_id: [u8; 32], publish_time: i64) -> PriceUpdate {
    PriceUpdate {
        write_authority: Pubkey::new_from_array([9; 32]),
        verification_level: level,
        price_message: PriceFeedMessage {
            feed_id,
            price: 15_012_345_678,
            conf: 4_321,
            exponent: -8,
            publish_time,
            prev_publish_time: publish_time - 1,
            ema_price: 15_000_000_000,
            ema_conf: 5_000,
        },
        posted_slot: 77,
    }
}

#[test]
fn feed_id_with_prefix() {
    assert_eq!(parse_feed_id(SOL_USD), Some(SOL_USD_ID));
}

#[test]
fn feed_id_without_prefix() {
    assert_eq!(parse_feed_id(&SOL_USD[2..]), Some(SOL_USD_ID));
}

#[test]
fn feed_id_in_upper_case() {
    assert_eq!(parse_feed_id(&SOL_USD[2..].to_uppercase()), Some(SOL_USD_ID));
}

#[test]
fn feed_id_of_zeros_and_of_effs() {
    assert_eq!(parse_feed_id(&"0".repeat(64)), Some([0u8; 32]));
    assert_eq!(parse_feed_id(&"f".repeat(64)), Some([0xffu8; 32]));
}

#[test]
fn feed_id_of_wrong_length() {
    assert_eq!(parse_feed_id(""), None);
    assert_eq!(parse_feed_id("0x"), None);
    assert_eq!(parse_feed_id(&SOL_USD[..65]), None);
    assert_eq!(parse_feed_id(&SOL_USD[3..]), None);
    assert_eq!(parse_feed_id(&format!("{}0", SOL_USD)), None);
}

#[test]
fn feed_id_with_a_character_that_is_no_digit() {
    assert_eq!(parse_feed_id(&format!("g{}", &SOL_USD[3..])), None);
    assert_eq!(parse_feed_id(&format!("0x{}", "z".repeat(64))), None);
    // 64 bytes, the first of them a character of two bytes
    assert_eq!(parse_feed_id(&format!("\u{e9}{}", "0".repeat(62))), None);
}

#[test]
fn feed_id_that_cannot_be_cut_after_its_prefix() {
    // 66 bytes; the second character spans the second and third byte
    let name = format!("0\u{e9}{}", "0".repeat(63));
    assert_eq!(name.len(), 66);
    assert!(!name.is_char_boundary(2));
    assert_eq!(parse_feed_id(&name), None);
}

#[test]
fn same_feed_compares_every_byte() {
    assert!(same_feed(&SOL_USD_ID, &SOL_USD_ID));
    for i in 0..32 {
        let mut other = SOL_USD_ID;
        other[i] ^= 1;
        assert!(!same_feed(&SOL_USD_ID, &other));
        assert!(!same_feed(&other, &SOL_USD_ID));
    }
}

#[test]
fn price_of_a_fresh_verified_update() {
    let u = update(VerificationLevel::Full, SOL_USD_ID, 1_000);
    assert_eq!(
        get_price_no_older_than(&u, 1_030, 60, &SOL_USD_ID),
        Ok(Price { price: 15_012_345_678, conf: 4_321, exponent: -8, publish_time: 1_000 })
    );
}

#[test]
fn price_is_fresh_up_to_the_last_second() {
    let u = update(VerificationLevel::Full, SOL_USD_ID, 1_000);
    assert!(get_price_no_older_than(&u, 1_060, 60, &SOL_USD_ID).is_ok());
    assert_eq!(get_price_no_older_than(&u, 1_061, 60, &SOL_USD_ID), Err(PriceError::PriceTooOld));
    // a price from the future is fresh
    assert!(get_price_no_older_than(&u, 10, 60, &SOL_USD_ID).is_ok());
    assert!(get_price_no_older_than(&u, 1_000, 0, &SOL_USD_ID).is_ok());
    assert_eq!(get_price_no_older_than(&u, 1_001, 0, &SOL_USD_ID), Err(PriceError::PriceTooOld));
}

#[test]
fn price_age_limit_stops_at_the_largest_timestamp() {
    let u = update(VerificationLevel::Full, SOL_USD_ID, i64::MAX - 10);
    assert!(get_price_no_older_than(&u, i64::MAX, 60, &SOL_USD_ID).is_ok());
    let u = update(VerificationLevel::Full, SOL_USD_ID, 5);
    assert!(get_price_no_older_than(&u, i64::MAX, i64::MAX as u64, &SOL_USD_ID).is_ok());
}

#[test]
fn price_of_another_feed_is_refused() {
    let u = update(VerificationLevel::Full, [1; 32], 1_000);
    assert_eq!(
        get_price_no_older_than(&u, 1_030, 60, &SOL_USD_ID),
        Err(PriceError::MismatchedFeedId)
    );
}

#[test]
fn price_of_a_partially_verified_update_is_refused() {
    let u = update(VerificationLevel::Partial { num_signatures: 255 }, SOL_USD_ID, 1_000);
    assert_eq!(
        get_price_no_older_than(&u, 1_030, 60, &SOL_USD_ID),
        Err(PriceError::InsufficientVerificationLevel)
    );
}

#[test]
fn price_failures_are_reported_in_order() {
    // not verified, wrong feed and stale: the verification level is reported
    let u = update(VerificationLevel::Partial { num_signatures: 3 }, [1; 32], 0);
    assert_eq!(
        get_price_no_older_than(&u, 1_000_000, 60, &SOL_USD_ID),
        Err(PriceError::InsufficientVerificationLevel)
    );
    // wrong feed and stale: the feed is reported
    let u = update(VerificationLevel::Full, [1; 32], 0);
    assert_eq!(
        get_price_no_older_than(&u, 1_000_000, 60, &SOL_USD_ID),
        Err(PriceError::MismatchedFeedId)
    );
}

fn sdk_answer(
    u: &PriceUpdate,
    now: i64,
    maximum_age: u64,
    feed_id: &[u8; 32],
) -> Result<Price, PriceError> {
    let account = sdk::PriceUpdateV2 {
        write_authority: u.write_authority,
        verification_level: match u.verification_level {
            VerificationLevel::Full => sdk::VerificationLevel::Full,
            VerificationLevel::Partial { num_signatures } => {
                sdk::VerificationLevel::Partial { num_signatures }
            }
        },
        price_message: sdk::PriceFeedMessage {
            feed_id: u.price_message.feed_id,
            price: u.price_message.price,
            conf: u.price_message.conf,
            exponent: u.price_message.exponent,
            publish_time: u.price_message.publish_time,
            prev_publish_time: u.price_message.prev_publish_time,
            ema_price: u.price_message.ema_price,
            ema_conf: u.price_message.ema_conf,
        },
        posted_slot: u.posted_slot,
    };
    let clock = Clock { unix_timestamp: now, ..Clock::default() };
    match account.get_price_no_older_than(&clock, maximum_age, feed_id) {
        Ok(p) => Ok(Price {
            price: p.price,
            conf: p.conf,
            exponent: p.exponent,
            publish_time: p.publish_time,
        }),
        Err(GetPriceError::PriceTooOld) => Err(PriceError::PriceTooOld),
        Err(GetPriceError::MismatchedFeedId) => Err(PriceError::MismatchedFeedId),
        Err(GetPriceError::InsufficientVerificationLevel) => {
            Err(PriceError::InsufficientVerificationLevel)
        }
        Err(other) => panic!("the oracle SDK answered {:?}", other),
    }
}

#[test]
fn price_reading_agrees_with_the_oracle_sdk() {
    let levels = [
        VerificationLevel::Full,
        VerificationLevel::Partial { num_signatures: 0 },
        VerificationLevel::Partial { num_signatures: 13 },
    ];
    let feeds = [SOL_USD_ID, [0u8; 32], [1u8; 32]];
    let times = [
        i64::MIN,
        -61,
        -60,
        0,
        939,
        940,
        941,
        1_000,
        1_059,
        1_060,
        1_061,
        i64::MAX - 60,
        i64::MAX,
    ];
    let ages = [0u64, 1, 60, 61, i64::MAX as u64];
    for level in levels {
        for feed in feeds {
            for publish_time in times {
                let u = update_at(level, feed, publish_time);
                for now in times {
                    for age in ages {
                        for asked in feeds {
                            assert_eq!(
                                get_price_no_older_than(&u, now, age, &asked),
                                sdk_answer(&u, now, age, &asked)
                            );
                        }
                    }
                }
            }
        }
    }
}

fn update_at(level: VerificationLevel, feed_id: [u8; 32], publish_time: i64) -> PriceUpdate {
    let mut u = update(level, feed_id, 0);
    u.price_message.publish_time = publish_time;
    u.price_message.prev_publish_time = publish_time;
    u
}
