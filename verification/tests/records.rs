use node_cache::archive::fits_aligned_buffer;
use node_cache::models::{
    archive_fits, decode, encode, from_rows, to_rows, DecodeError, EncodeError, LiteNode,
};

fn node(id: u16, x: f32, y: f32, icon: &str) -> LiteNode {
    LiteNode { id, x: x.to_bits(), y: y.to_bits(), icon: icon.to_string() }
}

fn sample() -> Vec<LiteNode> {
    vec![
        node(1, 0.5, -3.25, "star"),
        node(2, 1.0e-40, f32::MAX, ""),
        node(2, -0.0, f32::INFINITY, "a label that is longer than eight bytes"),
        node(u16::MAX, f32::MIN_POSITIVE, 7.0, "zażółć gęślą jaźń ★"),
    ]
}

#[test]
fn empty_sequence_encodes_to_an_empty_archive() {
    let bytes = encode(&Vec::new()).unwrap();
    assert_eq!(bytes, vec![0u8; 8]);
}

#[test]
fn one_record_encodes_to_its_row_and_the_root() {
    let bytes = encode(&vec![node(7, 1.5, -2.0, "pin")]).unwrap();
    let expected: Vec<u8> = vec![
        7, 0, 0, 0, // id, padding
        0x00, 0x00, 0xc0, 0x3f, // x = 1.5
        0x00, 0x00, 0x00, 0xc0, // y = -2.0
        0x70, 0x69, 0x6e, 0xff, 0xff, 0xff, 0xff, 0xff, // "pin", inline
        0xec, 0xff, 0xff, 0xff, // the rows lie 20 bytes before the root
        1, 0, 0, 0, // one row
    ];
    assert_eq!(bytes, expected);
}

#[test]
fn round_trip_gives_the_records_back() {
    let records = sample();
    let bytes = encode(&records).unwrap();
    assert_eq!(decode(&bytes), Ok(records));
}

#[test]
fn round_trip_of_no_records() {
    let bytes = encode(&Vec::new()).unwrap();
    assert_eq!(decode(&bytes), Ok(Vec::new()));
}

#[test]
fn round_trip_keeps_every_bit_of_a_coordinate() {
    let nan = LiteNode { id: 3, x: 0x7fc0_1234, y: 0xffff_ffff, icon: "nan".to_string() };
    let subnormal = LiteNode { id: 4, x: 1, y: 0x8000_0001, icon: "tiny".to_string() };
    let records = vec![nan, subnormal];
    let back = decode(&encode(&records).unwrap()).unwrap();
    assert_eq!(back.len(), 2);
    assert_eq!(back[0].x, 0x7fc0_1234);
    assert_eq!(back[0].y, 0xffff_ffff);
    assert_eq!(back[1].x, 1);
    assert_eq!(back[1].y, 0x8000_0001);
    assert!(f32::from_bits(back[0].x).is_nan());
}

#[test]
fn round_trip_keeps_order_and_equal_ids() {
    let records = vec![node(5, 1.0, 1.0, "b"), node(5, 2.0, 2.0, "a"), node(5, 1.0, 1.0, "b")];
    let back = decode(&encode(&records).unwrap()).unwrap();
    assert_eq!(back, records);
}

#[test]
fn encoding_is_the_same_every_time() {
    let first = encode(&sample()).unwrap();
    let second = encode(&sample()).unwrap();
    assert_eq!(first, second);
}

#[test]
fn different_records_encode_differently() {
    let a = encode(&vec![node(1, 0.0, 0.0, "a")]).unwrap();
    let b = encode(&vec![node(1, 0.0, 0.0, "b")]).unwrap();
    assert_ne!(a, b);
}

#[test]
fn decode_rejects_no_bytes() {
    assert_eq!(decode(&[]), Err(DecodeError));
}

#[test]
fn decode_rejects_bytes_that_are_no_archive() {
    assert_eq!(decode(&[0xff; 12]), Err(DecodeError));
    assert_eq!(decode(b"these bytes were never encoded"), Err(DecodeError));
}

#[test]
fn decode_rejects_a_truncated_archive() {
    let bytes = encode(&sample()).unwrap();
    for cut in 1..9 {
        let short = &bytes[..bytes.len() - cut];
        assert_eq!(decode(short), Err(DecodeError));
    }
}

#[test]
fn decode_rejects_a_label_that_is_not_text() {
    let mut bytes = encode(&vec![node(7, 1.5, -2.0, "pin")]).unwrap();
    bytes[12] = 0xc3;
    bytes[13] = 0x28;
    assert_eq!(decode(&bytes), Err(DecodeError));
}

#[test]
fn decode_reads_bytes_at_any_address() {
    let bytes = encode(&sample()).unwrap();
    let mut shifted = vec![0u8; bytes.len() + 1];
    shifted[1..].copy_from_slice(&bytes);
    assert_eq!(decode(&shifted[1..]), Ok(sample()));
    let mut shifted_more = vec![0u8; bytes.len() + 3];
    shifted_more[3..].copy_from_slice(&bytes);
    assert_eq!(decode(&shifted_more[3..]), Ok(sample()));
}

#[test]
fn rows_hold_the_fields_in_order() {
    let rows = to_rows(&vec![node(9, 1.0, 2.0, "home")]);
    assert_eq!(rows, vec![(9u16, 1.0f32.to_bits(), 2.0f32.to_bits(), "home".to_string())]);
    assert_eq!(from_rows(&rows), vec![node(9, 1.0, 2.0, "home")]);
}

#[test]
fn rows_of_no_records() {
    assert_eq!(to_rows(&Vec::new()), Vec::new());
    assert_eq!(from_rows(&Vec::new()), Vec::new());
}

#[test]
fn small_sequences_fit_an_archive() {
    assert!(archive_fits(&Vec::new()));
    assert!(archive_fits(&sample()));
}

#[test]
fn records_too_large_for_an_archive_are_refused() {
    let label = String::from_utf8(vec![b'a'; 0x7fff_ffff]).unwrap();
    let records = vec![LiteNode { id: 1, x: 0, y: 0, icon: label }];
    assert!(!archive_fits(&records));
    assert_eq!(encode(&records), Err(EncodeError));
}

#[test]
fn aligned_buffer_holds_all_but_the_longest_inputs() {
    assert!(fits_aligned_buffer(0));
    assert!(fits_aligned_buffer(isize::MAX as usize - 15));
    assert!(!fits_aligned_buffer(isize::MAX as usize - 14));
    assert!(!fits_aligned_buffer(usize::MAX));
}
