use teamech::bytes::{
    bytes2hex, bytes2int, copy_range, int2bytes, same_bytes, same_eight, take_eight,
};
use teamech::clock::{is_fresh, reading_millis, systime, to_millis, MSG_VALID_TIME};

#[test]
fn int2bytes_puts_most_significant_first() {
    assert_eq!(int2bytes(&0x0102030405060708), [1, 2, 3, 4, 5, 6, 7, 8]);
    assert_eq!(int2bytes(&0), [0; 8]);
    assert_eq!(int2bytes(&u64::MAX), [255; 8]);
    assert_eq!(int2bytes(&256), [0, 0, 0, 0, 0, 0, 1, 0]);
}

#[test]
fn bytes2int_reads_most_significant_first() {
    assert_eq!(bytes2int(&[1, 2, 3, 4, 5, 6, 7, 8]), 0x0102030405060708);
    assert_eq!(bytes2int(&[0; 8]), 0);
    assert_eq!(bytes2int(&[255; 8]), u64::MAX);
    assert_eq!(bytes2int(&[0, 0, 0, 0, 0, 0, 1, 0]), 256);
}

#[test]
fn integer_encoding_round_trips() {
    let samples: [u64; 6] = [0, 1, 255, 1_537_000_000_123, 0x8000_0000_0000_0000, u64::MAX];
    for n in samples.iter() {
        assert_eq!(bytes2int(&int2bytes(n)), *n);
    }
    let b: [u8; 8] = [9, 0, 200, 3, 77, 0, 1, 254];
    assert_eq!(int2bytes(&bytes2int(&b)), b);
}

#[test]
fn bytes2hex_of_nothing_is_empty() {
    assert_eq!(bytes2hex(&vec![]), "");
}

#[test]
fn bytes2hex_pads_and_separates() {
    assert_eq!(bytes2hex(&vec![0x00]), "00");
    assert_eq!(bytes2hex(&vec![0x0f]), "0f");
    assert_eq!(bytes2hex(&vec![0x00, 0x0f, 0xab, 0xff, 0x10]), "00 0f ab ff 10");
    assert_eq!(bytes2hex(&vec![0x19, 0x02]), "19 02");
}

#[test]
fn same_bytes_compares_contents() {
    assert!(same_bytes(&vec![], &vec![]));
    assert!(same_bytes(&vec![1, 2, 3], &vec![1, 2, 3]));
    assert!(!same_bytes(&vec![1, 2, 3], &vec![1, 2, 4]));
    assert!(!same_bytes(&vec![1, 2, 3], &vec![1, 2]));
}

#[test]
fn copy_range_takes_the_middle() {
    let v: Vec<u8> = vec![10, 11, 12, 13, 14];
    assert_eq!(copy_range(&v, 1, 4), vec![11, 12, 13]);
    assert_eq!(copy_range(&v, 0, 5), v);
    assert_eq!(copy_range(&v, 2, 2), Vec::<u8>::new());
}

#[test]
fn to_millis_counts_whole_milliseconds() {
    assert_eq!(to_millis(0, 0), 0);
    assert_eq!(to_millis(1, 999_999), 1_000);
    assert_eq!(to_millis(1_537_000_000, 123_456_789), 1_537_000_000_123);
    assert_eq!(to_millis(2, 999_999_999), 2_999);
}

#[test]
fn to_millis_stops_at_the_largest_value() {
    assert_eq!(to_millis(u64::MAX, 0), u64::MAX);
    assert_eq!(to_millis(u64::MAX / 1_000, 0), (u64::MAX / 1_000) * 1_000);
    assert_eq!(to_millis(u64::MAX / 1_000 + 1, 0), u64::MAX);
}

#[test]
fn systime_is_after_the_epoch() {
    let first: u64 = systime();
    assert!(first > 1_000_000_000_000);
    assert!(systime() >= first || first - systime() < 60_000);
}

#[test]
fn freshness_window_boundaries() {
    let now: u64 = 1_700_000_000_000;
    assert_eq!(MSG_VALID_TIME, 10_000);
    assert!(!is_fresh(now - 10_001, now));
    assert!(is_fresh(now - 10_000, now));
    assert!(is_fresh(now - 9_999, now));
    assert!(is_fresh(now, now));
    assert!(is_fresh(now + 9_999, now));
    assert!(is_fresh(now + 10_000, now));
    assert!(!is_fresh(now + 10_001, now));
}

#[test]
fn freshness_near_the_ends_of_the_range() {
    assert!(is_fresh(0, 10_000));
    assert!(!is_fresh(0, 10_001));
    assert!(is_fresh(5, 0));
    assert!(is_fresh(u64::MAX, u64::MAX - 10_000));
    assert!(!is_fresh(u64::MAX, u64::MAX - 10_001));
}

#[test]
fn take_eight_reads_from_the_given_place() {
    let v: Vec<u8> = vec![0, 1, 2, 3, 4, 5, 6, 7, 8, 9];
    assert_eq!(take_eight(&v, 0), [0, 1, 2, 3, 4, 5, 6, 7]);
    assert_eq!(take_eight(&v, 2), [2, 3, 4, 5, 6, 7, 8, 9]);
}

#[test]
fn same_eight_compares_every_byte() {
    let a: [u8; 8] = [1, 2, 3, 4, 5, 6, 7, 8];
    assert!(same_eight(&a, &a));
    for at in 0..8 {
        let mut b: [u8; 8] = a;
        b[at] ^= 0x80;
        assert!(!same_eight(&a, &b));
    }
}

#[test]
fn reading_millis_is_zero_without_a_reading() {
    assert_eq!(reading_millis(None), 0);
}

#[test]
fn reading_millis_counts_a_reading() {
    assert_eq!(reading_millis(Some((0, 0))), 0);
    assert_eq!(reading_millis(Some((1_537_000_000, 123_456_789))), 1_537_000_000_123);
    assert_eq!(reading_millis(Some((u64::MAX, 999_999_999))), u64::MAX);
}
