use tukai::codec::decode_store;
use tukai::codec::encode_store;
use tukai::stats::Activity;
use tukai::stats::Stat;
use tukai::stats::TypingDuration;

#[test]
fn empty_store_encodes_to_exact_bytes() {
    let stats: Vec<Stat> = Vec::new();
    let activities: Vec<Activity> = Vec::new();
    let bytes = encode_store(&stats, &activities);
    // version byte, stats count (8 bytes), activities count (8 bytes)
    let expected = vec![1u8, 0, 0, 0, 0, 0, 0, 0, 0, 0, 0, 0, 0, 0, 0, 0, 0];
    assert_eq!(bytes, expected);
}

#[test]
fn one_record_encodes_little_endian() {
    let stats = vec![Stat::new(TypingDuration::Minute, 80, 5, 60)];
    let activities = vec![Activity { timestamp_secs: 258 }];
    let bytes = encode_store(&stats, &activities);

    assert_eq!(bytes.len(), 1 + 8 + 21 + 8 + 8);
    assert_eq!(bytes[0], 1); // format version
    assert_eq!(&bytes[1..9], &[1, 0, 0, 0, 0, 0, 0, 0]); // one stat
    assert_eq!(bytes[9], 1); // duration tag of Minute
    // average wpm: 1200 * 75 / 60 = 1500 = 0x05DC
    assert_eq!(&bytes[10..18], &[0xDC, 0x05, 0, 0, 0, 0, 0, 0]);
    assert_eq!(&bytes[18..22], &[5, 0, 0, 0]); // error count
    assert_eq!(&bytes[22..26], &[60, 0, 0, 0]); // elapsed seconds
    // accuracy: 10000 * 75 / 80 = 9375 = 0x249F
    assert_eq!(&bytes[26..30], &[0x9F, 0x24, 0, 0]);
    assert_eq!(&bytes[30..38], &[1, 0, 0, 0, 0, 0, 0, 0]); // one activity
    assert_eq!(&bytes[38..46], &[2, 1, 0, 0, 0, 0, 0, 0]); // timestamp 258
}

#[test]
fn decode_round_trips_every_field() {
    let stats = vec![
        Stat::new(TypingDuration::ThirtySec, 40, 0, 30),
        Stat::new(TypingDuration::ThreeMinutes, 500, 17, 180),
    ];
    let activities = vec![
        Activity { timestamp_secs: 0 },
        Activity { timestamp_secs: u64::MAX },
    ];
    let bytes = encode_store(&stats, &activities);
    let (decoded_stats, decoded_activities) = decode_store(&bytes).unwrap();
    assert_eq!(decoded_stats, stats);
    assert_eq!(decoded_activities, activities);
}

#[test]
fn decode_rejects_wrong_version() {
    let stats: Vec<Stat> = Vec::new();
    let activities: Vec<Activity> = Vec::new();
    let mut bytes = encode_store(&stats, &activities);
    bytes[0] = 2;
    assert!(decode_store(&bytes).is_none());
}

#[test]
fn decode_rejects_truncated_blob() {
    let stats = vec![Stat::new(TypingDuration::Minute, 80, 5, 60)];
    let activities: Vec<Activity> = Vec::new();
    let mut bytes = encode_store(&stats, &activities);
    bytes.pop();
    assert!(decode_store(&bytes).is_none());
}

#[test]
fn decode_rejects_trailing_bytes() {
    let stats: Vec<Stat> = Vec::new();
    let activities: Vec<Activity> = Vec::new();
    let mut bytes = encode_store(&stats, &activities);
    bytes.push(0);
    assert!(decode_store(&bytes).is_none());
}

#[test]
fn decode_rejects_unknown_duration_tag() {
    let stats = vec![Stat::new(TypingDuration::Minute, 80, 5, 60)];
    let activities: Vec<Activity> = Vec::new();
    let mut bytes = encode_store(&stats, &activities);
    bytes[9] = 3; // not a duration variant
    assert!(decode_store(&bytes).is_none());
}

#[test]
fn decode_rejects_garbage() {
    let bytes = vec![9u8, 9, 9];
    assert!(decode_store(&bytes).is_none());
}
