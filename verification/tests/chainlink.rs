use gpu_vault::chainlink::{read_chainlink_price, ChainlinkFeed};
use gpu_vault::errors::{ProgramError, VaultError};

fn valid_feed_bytes() -> Vec<u8> {
    let mut data = vec![0u8; ChainlinkFeed::LEN];
    // version = 1
    data[0..8].copy_from_slice(&1u64.to_le_bytes());
    // decimals = 8
    data[8] = 8;
    // round_id = 42
    data[9..17].copy_from_slice(&42u64.to_le_bytes());
    // answer = 50_000_000_000 (=$500.00 with 8 decimals)
    data[17..33].copy_from_slice(&50_000_000_000i128.to_le_bytes());
    // timestamp = 2024-01-01 (well after 2020)
    data[33..41].copy_from_slice(&1_704_067_200i64.to_le_bytes());
    // updated_at = same
    data[41..49].copy_from_slice(&1_704_067_200i64.to_le_bytes());
    data
}

#[test]
fn deserialize_valid_feed() {
    let data = valid_feed_bytes();
    let feed = ChainlinkFeed::deserialize(&data, 0).unwrap();
    assert_eq!(feed.version, 1);
    assert_eq!(feed.decimals, 8);
    assert_eq!(feed.round_id, 42);
    assert_eq!(feed.answer, 50_000_000_000);
    assert_eq!(feed.timestamp, 1_704_067_200);
    assert_eq!(feed.updated_at, 1_704_067_200);
}

#[test]
fn deserialize_with_offset() {
    let mut data = vec![0u8; 16 + ChainlinkFeed::LEN];
    // prefix padding
    data[16..24].copy_from_slice(&1u64.to_le_bytes());
    data[24] = 8;
    data[25..33].copy_from_slice(&42u64.to_le_bytes());
    data[33..49].copy_from_slice(&50_000_000_000i128.to_le_bytes());
    data[49..57].copy_from_slice(&1_704_067_200i64.to_le_bytes());
    data[57..65].copy_from_slice(&1_704_067_200i64.to_le_bytes());

    let feed = ChainlinkFeed::deserialize(&data, 16).unwrap();
    assert_eq!(feed.answer, 50_000_000_000);
}

#[test]
fn deserialize_too_short_fails() {
    let data = vec![0u8; ChainlinkFeed::LEN - 1];
    let result = ChainlinkFeed::deserialize(&data, 0);
    assert!(result.is_err());
}

#[test]
fn deserialize_too_short_reports_account_did_not_serialize() {
    let data = valid_feed_bytes();
    let result = ChainlinkFeed::deserialize(&data, 1);
    assert_eq!(result, Err(ProgramError::AccountDidNotSerialize));
    assert_eq!(ProgramError::AccountDidNotSerialize.code(), 3004);
}

#[test]
fn deserialize_negative_answer_and_timestamps() {
    let mut data = valid_feed_bytes();
    data[17..33].copy_from_slice(&(-7i128).to_le_bytes());
    data[33..41].copy_from_slice(&(-5i64).to_le_bytes());
    let feed = ChainlinkFeed::deserialize(&data, 0).unwrap();
    assert_eq!(feed.answer, -7);
    assert_eq!(feed.timestamp, -5);
}

#[test]
fn price_usd_6_same_decimals() {
    let feed = ChainlinkFeed {
        version: 1,
        decimals: 6,
        round_id: 1,
        answer: 1_000_000,
        timestamp: 1_704_067_200,
        updated_at: 1_704_067_200,
    };
    assert_eq!(feed.price_usd_6().unwrap(), 1_000_000);
}

#[test]
fn price_usd_6_no_scale_down() {
    // 8 decimals → 6 decimals: diff = 6 - 8 = 0 (saturating_sub)
    // The function only scales UP, not down (to avoid precision loss)
    let feed = ChainlinkFeed {
        version: 1,
        decimals: 8,
        round_id: 1,
        answer: 50_000_000_000, // $500.00 @ 8 dec
        timestamp: 1_704_067_200,
        updated_at: 1_704_067_200,
    };
    assert_eq!(feed.price_usd_6().unwrap(), 50_000_000_000); // unchanged
}

#[test]
fn price_usd_6_scale_down() {
    // 4 decimals → 6 decimals: multiply by 10^2 = 100
    let feed = ChainlinkFeed {
        version: 1,
        decimals: 4,
        round_id: 1,
        answer: 50_000, // $5.00 @ 4 dec
        timestamp: 1_704_067_200,
        updated_at: 1_704_067_200,
    };
    assert_eq!(feed.price_usd_6().unwrap(), 5_000_000); // $5.00 @ 6 dec
}

#[test]
fn price_usd_6_negative_rejected() {
    let feed = ChainlinkFeed {
        version: 1,
        decimals: 6,
        round_id: 1,
        answer: -1,
        timestamp: 1_704_067_200,
        updated_at: 1_704_067_200,
    };
    assert!(feed.price_usd_6().is_err());
}

#[test]
fn price_usd_6_zero() {
    let feed = ChainlinkFeed {
        version: 1,
        decimals: 6,
        round_id: 1,
        answer: 0,
        timestamp: 1_704_067_200,
        updated_at: 1_704_067_200,
    };
    assert_eq!(feed.price_usd_6().unwrap(), 0);
}

#[test]
fn price_usd_6_zero_decimals_scales_by_a_million() {
    let feed = ChainlinkFeed { decimals: 0, answer: 7, ..ChainlinkFeed::default() };
    assert_eq!(feed.price_usd_6(), Ok(7_000_000));
}

#[test]
fn price_usd_6_overflowing_scale_rejected() {
    let feed = ChainlinkFeed { decimals: 0, answer: i128::MAX / 10, ..ChainlinkFeed::default() };
    assert_eq!(feed.price_usd_6(), Err(VaultError::MathOverflow));
}

#[test]
fn price_usd_6_beyond_u64_rejected() {
    // A price that does not fit in u64 is refused, never truncated.
    let feed = ChainlinkFeed { decimals: 6, answer: 1i128 << 64, ..ChainlinkFeed::default() };
    assert_eq!(feed.price_usd_6(), Err(VaultError::MathOverflow));
    let feed = ChainlinkFeed { decimals: 6, answer: u64::MAX as i128, ..ChainlinkFeed::default() };
    assert_eq!(feed.price_usd_6(), Ok(u64::MAX));
    let feed = ChainlinkFeed { decimals: 5, answer: (u64::MAX / 10 + 1) as i128, ..ChainlinkFeed::default() };
    assert_eq!(feed.price_usd_6(), Err(VaultError::MathOverflow));
}

#[test]
fn read_chainlink_price_valid() {
    let data = valid_feed_bytes();
    let feed = ChainlinkFeed::deserialize(&data, 0).unwrap();
    // decimals=8, target=6 → no scaling down, answer is $500.00 @ 8 dec = 50_000_000_000
    assert_eq!(feed.price_usd_6().unwrap(), 50_000_000_000);
}

#[test]
fn read_chainlink_price_stale_timestamp_fallback() {
    let mut data = valid_feed_bytes();
    // timestamp before 2020-01-01
    data[33..41].copy_from_slice(&1_000_000_000i64.to_le_bytes());
    data[41..49].copy_from_slice(&1_000_000_000i64.to_le_bytes());

    let feed = ChainlinkFeed::deserialize(&data, 0).unwrap();
    // The timestamp check happens in read_chainlink_price, not price_usd_6
    // Here we just verify the feed deserialized correctly
    assert_eq!(feed.timestamp, 1_000_000_000);
}

#[test]
fn read_chainlink_price_reads_recent_feed() {
    assert_eq!(read_chainlink_price(&valid_feed_bytes()), Ok(50_000_000_000));
}

#[test]
fn read_chainlink_price_falls_back_for_old_or_short_data() {
    let mut data = valid_feed_bytes();
    data[33..41].copy_from_slice(&1_577_836_800i64.to_le_bytes());
    assert_eq!(read_chainlink_price(&data), Ok(1_000_000));
    assert_eq!(read_chainlink_price(&[0u8; 48]), Ok(1_000_000));
    assert_eq!(read_chainlink_price(&[]), Ok(1_000_000));
}

#[test]
fn read_chainlink_price_rejects_negative_answer() {
    let mut data = valid_feed_bytes();
    data[17..33].copy_from_slice(&(-1i128).to_le_bytes());
    assert_eq!(read_chainlink_price(&data), Err(ProgramError::Vault(VaultError::MathOverflow)));
}
