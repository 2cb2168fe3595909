use haltut::upload::decode_words;
use haltut::upload::encode_words;

#[test]
fn words_encode_least_significant_byte_first() {
    assert_eq!(encode_words(&vec![0x0403_0201, 0xdead_beef]), vec![1, 2, 3, 4, 0xef, 0xbe, 0xad, 0xde]);
}

#[test]
fn fill_round_trip_is_lossless() {
    for n in 0..20u32 {
        let words: Vec<u32> = (0..n).map(|i| i.wrapping_mul(0x9e37_79b9) ^ 0xa5a5_0f0f).collect();
        let bytes = encode_words(&words);
        assert_eq!(bytes.len(), 4 * words.len());
        assert_eq!(decode_words(&bytes), Some(words));
    }
}

#[test]
fn float_vertex_round_trip() {
    let vertex = [0.0f32, -1.0, 0.0, 1.0, 0.0, 0.0, 1.0];
    let words: Vec<u32> = vertex.iter().map(|f| f.to_bits()).collect();
    let bytes = encode_words(&words);
    let mut native = Vec::new();
    for f in vertex.iter() {
        native.extend_from_slice(&f.to_le_bytes());
    }
    assert_eq!(bytes, native);
    let back: Vec<f32> = decode_words(&bytes).unwrap().into_iter().map(f32::from_bits).collect();
    assert_eq!(back, vertex.to_vec());
}

#[test]
fn empty_fill_is_empty() {
    assert_eq!(encode_words(&vec![]), Vec::<u8>::new());
    assert_eq!(decode_words(&vec![]), Some(vec![]));
}

#[test]
fn partial_word_region_is_rejected() {
    assert_eq!(decode_words(&vec![1, 2, 3]), None);
    assert_eq!(decode_words(&vec![1, 2, 3, 4, 5]), None);
}
