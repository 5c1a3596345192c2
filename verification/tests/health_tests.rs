//! The health state and its two serialized forms.

use maintenance::health::Health;

#[test]
fn wire_encoding_is_one_tag_byte() {
    assert_eq!(Health::Healthy.encode_wire(), vec![0u8]);
    assert_eq!(Health::Ready.encode_wire(), vec![1u8]);
}

#[test]
fn wire_round_trip_healthy() {
    let bytes = Health::Healthy.encode_wire();
    assert_eq!(Health::decode_wire(&bytes), Some(Health::Healthy));
}

#[test]
fn wire_round_trip_ready() {
    let bytes = Health::Ready.encode_wire();
    assert_eq!(Health::decode_wire(&bytes), Some(Health::Ready));
}

#[test]
fn wire_rejects_malformed_input() {
    assert_eq!(Health::decode_wire(&vec![]), None);
    assert_eq!(Health::decode_wire(&vec![2u8]), None);
    assert_eq!(Health::decode_wire(&vec![0u8, 0u8]), None);
}

#[test]
fn text_encoding_is_the_variant_name() {
    assert_eq!(Health::Healthy.encode_text(), "Healthy");
    assert_eq!(Health::Ready.encode_text(), "Ready");
}

#[test]
fn text_round_trip_healthy() {
    let text = Health::Healthy.encode_text();
    assert_eq!(Health::decode_text(&text), Some(Health::Healthy));
}

#[test]
fn text_round_trip_ready() {
    let text = Health::Ready.encode_text();
    assert_eq!(Health::decode_text(&text), Some(Health::Ready));
}

#[test]
fn text_rejects_unknown_names() {
    assert_eq!(Health::decode_text(""), None);
    assert_eq!(Health::decode_text("healthy"), None);
    assert_eq!(Health::decode_text("Ready "), None);
}
