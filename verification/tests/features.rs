use tiger_delta::features::{
    extract_attributes, find_control_delimiter, generate_malicious_vector, MAX_DATAGRAM_LEN,
    MIN_DATAGRAM_LEN, SYNTH_MIX,
};
use tiger_delta::string_state::StringState;

#[test]
fn twelve_byte_datagram_extracts_exactly() {
    let payload: Vec<u8> = (1..=12u8).collect();
    let attrs = extract_attributes(&payload, 5000, "127.0.0.1".len()).unwrap();
    assert_eq!(attrs.len(), 10);
    // weight = 1 + 2 + ... + 12 = 78; partial = 1 + ... + 8 = 36.
    assert_eq!(attrs, [5000, 12, 1, 78, 78, 12 % 7, 36, 9, 0, 0]);
}

#[test]
fn same_datagram_twice_in_one_epoch_reproduces_the_scalar() {
    let payload: Vec<u8> = (1..=12u8).collect();
    let attrs = extract_attributes(&payload, 5000, 9).unwrap();
    let mut s = StringState::new(0);
    let c1 = s.compactify(&attrs, 100);
    let c2 = s.compactify(&attrs, 200);
    assert_eq!(c1, c2);
}

#[test]
fn weight_modulus_folds_large_sums() {
    let payload: Vec<u8> = vec![200; 16];
    let attrs = extract_attributes(&payload, 1, 3).unwrap();
    assert_eq!(attrs[3], 3200);
    assert_eq!(attrs[4], 3200 % 111);
    assert_eq!(attrs[6], 1600);
}

#[test]
fn undersized_datagram_is_rejected() {
    let payload: Vec<u8> = vec![1; MIN_DATAGRAM_LEN - 1];
    assert!(extract_attributes(&payload, 1, 1).is_none());
    assert!(extract_attributes(&Vec::new(), 1, 1).is_none());
}

#[test]
fn oversized_datagram_is_rejected() {
    let payload: Vec<u8> = vec![1; MAX_DATAGRAM_LEN + 1];
    assert!(extract_attributes(&payload, 1, 1).is_none());
}

#[test]
fn boundary_sizes_are_accepted() {
    let smallest: Vec<u8> = vec![9; MIN_DATAGRAM_LEN];
    let attrs = extract_attributes(&smallest, 7, 2).unwrap();
    assert_eq!(attrs[1], MIN_DATAGRAM_LEN as i64);
    assert_eq!(attrs[3], 9 * MIN_DATAGRAM_LEN as i64);

    let largest: Vec<u8> = vec![1; MAX_DATAGRAM_LEN];
    let attrs = extract_attributes(&largest, 7, 2).unwrap();
    assert_eq!(attrs[1], MAX_DATAGRAM_LEN as i64);
    assert_eq!(attrs[6], 8);
}

#[test]
fn synthetic_vector_matches_the_mix_formula() {
    let seed = 123_456_789_000u64;
    let v = generate_malicious_vector(seed);
    assert_eq!(v.len(), 10);
    for i in 0..10u64 {
        assert_eq!(v[i as usize], seed.wrapping_add(i).wrapping_mul(SYNTH_MIX));
    }
}

#[test]
fn control_delimiter_is_found_first() {
    let payload: Vec<u8> = b"TOKEN|value".to_vec();
    assert_eq!(find_control_delimiter(&payload), Some(5));

    let two: Vec<u8> = b"a|b|c".to_vec();
    assert_eq!(find_control_delimiter(&two), Some(1));
}

#[test]
fn ordinary_traffic_has_no_delimiter() {
    let payload: Vec<u8> = b"plain payload".to_vec();
    assert_eq!(find_control_delimiter(&payload), None);
    assert_eq!(find_control_delimiter(&Vec::new()), None);
}
