//! Tests for the inherent error report's wire form, cross-checked against
//! the codec the host encodes it with.

use cle_coin::inherent::InherentError;
use parity_scale_codec::Encode;

const ID: &[u8; 8] = b"rewards_";

/// An encoded report is a zero tag byte followed by the encoded message.
fn encoded_report(message: &str) -> Vec<u8> {
    let mut data = vec![0u8];
    data.extend(message.to_string().encode());
    data
}

#[test]
fn report_round_trips_through_the_codec_encoding() {
    let data = encoded_report("boom");
    let e = InherentError::try_from(ID, &data).expect("a well-formed report decodes");
    let InherentError::Other(message) = e;
    assert_eq!(message, b"boom".to_vec());
}

#[test]
fn long_report_uses_the_two_byte_length_and_still_decodes() {
    let text = "x".repeat(100);
    let data = encoded_report(&text);
    // a 100-byte message does not fit the single-byte length form
    assert_ne!(data[1] % 4, 0);
    let e = InherentError::try_from(ID, &data).expect("a well-formed report decodes");
    let InherentError::Other(message) = e;
    assert_eq!(message.len(), 100);
    assert!(message.iter().all(|b| *b == b'x'));
}

#[test]
fn report_under_another_identifier_is_ignored() {
    let data = encoded_report("boom");
    assert_eq!(InherentError::try_from(b"timstmp0", &data), None);
}

#[test]
fn malformed_reports_are_rejected() {
    // empty, wrong tag, truncated payload, non-canonical two-byte length
    assert_eq!(InherentError::try_from(ID, &[]), None);
    assert_eq!(InherentError::try_from(ID, &[1, 8, 104]), None);
    assert_eq!(InherentError::try_from(ID, &[0, 8, 104]), None);
    assert_eq!(InherentError::try_from(ID, &[0, 1, 0]), None);
}

#[test]
fn every_report_is_fatal() {
    let data = encoded_report("boom");
    let e = InherentError::try_from(ID, &data).unwrap();
    assert!(e.is_fatal_error());
}
