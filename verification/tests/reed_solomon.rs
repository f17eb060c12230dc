use acadrust::reed_solomon::{decode, encode, compute_page_buffer_params};

#[test]
fn test_decode_encode_roundtrip_factor3() {
    let data_size = 3 * 239;
    let mut data = vec![0u8; data_size];
    for i in 0..data_size {
        data[i] = (i % 256) as u8;
    }
    let encoded = encode(&data, 3, 239);
    let decoded = decode(&encoded, data_size, 3, 239);
    assert_eq!(decoded, data);
}

#[test]
fn test_decode_encode_roundtrip_factor1() {
    let data = vec![1, 2, 3, 4, 5, 6, 7, 8];
    let encoded = encode(&data, 1, 239);
    let decoded = decode(&encoded, data.len(), 1, 239);
    assert_eq!(decoded, data);
}

#[test]
fn test_decode_small() {
    let mut encoded = vec![0u8; 3 * 255];
    encoded[0] = 10;
    encoded[3] = 11;
    encoded[6] = 12;
    encoded[1] = 20;
    encoded[4] = 21;
    encoded[7] = 22;
    encoded[2] = 30;
    encoded[5] = 31;
    encoded[8] = 32;
    let decoded = decode(&encoded, 9, 3, 3);
    assert_eq!(decoded, vec![10, 11, 12, 20, 21, 22, 30, 31, 32]);
}

#[test]
fn test_compute_page_buffer_params() {
    let (factor, read_size) = compute_page_buffer_params(1000, 3, 251);
    assert_eq!(factor, 12);
    assert_eq!(read_size, 3060);
}

#[test]
fn encode_interleaves_tracks_and_pads_to_factor_blocks() {
    let encoded = encode(&[1, 2, 3, 4, 5, 6], 2, 3);
    assert_eq!(encoded.len(), 2 * 255);
    assert_eq!(&encoded[0..6], &[1, 4, 2, 5, 3, 6]);
    assert!(encoded[6..].iter().all(|b| *b == 0));
}

#[test]
fn decode_of_short_input_leaves_zeros() {
    assert_eq!(decode(&[7, 8], 4, 2, 2), vec![7, 0, 8, 0]);
    assert_eq!(decode(&[], 3, 1, 3), vec![0, 0, 0]);
}

#[test]
fn page_buffer_params_round_up_to_eight_bytes() {
    assert_eq!(compute_page_buffer_params(1, 1, 251), (1, 255));
    assert_eq!(compute_page_buffer_params(0, 5, 251), (0, 0));
    assert_eq!(compute_page_buffer_params(2008, 1, 251), (8, 2040));
}

#[test]
fn page_buffer_params_near_the_largest_size() {
    let f = (1usize << 56) - 1;
    assert_eq!(compute_page_buffer_params(u64::MAX - 262, 1, 256), (f, f * 255));
}
