use asn1_codecs::aper::encode::encode_bool;
use s1ap_fuzz::{
    decode_buffer, encode_buffer, entropy_source, input_length, ogs_message_count,
    s1ap_arbitrary_to_structured, s1ap_msg_len, structured_lengths, Generation,
    S1AP_ERR_APER_ENCODING, S1AP_ERR_ARBITRARY_FAIL, S1AP_ERR_INVALID_ARG, S1AP_ERR_OUTPUT_TRUNC,
    S1AP_ERR_UNSPECIFIED,
};

#[test]
fn input_length_needs_a_positive_length() {
    assert_eq!(input_length(0), None);
    assert_eq!(input_length(-1), None);
    assert_eq!(input_length(9), Some(9));
}

#[test]
fn msg_len_measures_the_reencoding() {
    let input = [0x10u8, 0x20, 0x30];
    let whole = decode_buffer(&input);
    assert_eq!(s1ap_msg_len(3, Some(&whole)), 3);
    let mut bits = encode_buffer();
    assert_eq!(s1ap_msg_len(3, Some(&bits)), 0);
    for b in [true, false, true, true, false, false, true, true, true] {
        encode_bool(&mut bits, b).unwrap();
    }
    // Nine bits take two bytes.
    assert_eq!(s1ap_msg_len(3, Some(&bits)), 2);
}

#[test]
fn msg_len_failures() {
    let whole = decode_buffer(&[1, 2]);
    assert_eq!(s1ap_msg_len(0, Some(&whole)), S1AP_ERR_UNSPECIFIED);
    assert_eq!(s1ap_msg_len(-4, Some(&whole)), -1);
    assert_eq!(s1ap_msg_len(2, None), -1);
}

#[test]
fn structured_lengths_reject_negative_arguments() {
    assert_eq!(structured_lengths(-1, 5), Err(S1AP_ERR_INVALID_ARG));
    assert_eq!(structured_lengths(5, -1), Err(-2));
    assert_eq!(structured_lengths(0, 0), Ok((0, 0)));
    assert_eq!(structured_lengths(3, 4), Ok((3, 4)));
}

#[test]
fn structured_output_holds_the_encoding() {
    let mut out = [0u8; 4];
    let r = s1ap_arbitrary_to_structured(Generation::Encoded(decode_buffer(&[0xAA, 0xBB])), &mut out);
    assert_eq!(r, 2);
    assert_eq!(out, [0xAA, 0xBB, 0, 0]);

    let mut out = [7u8; 3];
    let mut bits = encode_buffer();
    for b in [true, false, true] {
        encode_bool(&mut bits, b).unwrap();
    }
    let r = s1ap_arbitrary_to_structured(Generation::Encoded(bits), &mut out);
    assert_eq!(r, 1);
    assert_eq!(out[0] & 0xE0, 0xA0);
    assert_eq!(out[1..], [7, 7]);

    let mut out = [9u8; 2];
    assert_eq!(s1ap_arbitrary_to_structured(Generation::Encoded(encode_buffer()), &mut out), 0);
    assert_eq!(out, [9, 9]);
}

#[test]
fn structured_output_failures_leave_the_buffer() {
    let mut out = [5u8; 1];
    let r = s1ap_arbitrary_to_structured(Generation::Encoded(decode_buffer(&[1, 2])), &mut out);
    assert_eq!(r, S1AP_ERR_OUTPUT_TRUNC);
    assert_eq!(out, [5]);
    assert_eq!(s1ap_arbitrary_to_structured(Generation::ArbitraryFailed, &mut out), S1AP_ERR_ARBITRARY_FAIL);
    assert_eq!(s1ap_arbitrary_to_structured(Generation::EncodingFailed, &mut out), S1AP_ERR_APER_ENCODING);
    assert_eq!(out, [5]);
}

#[test]
fn message_count_draws_from_the_next_byte() {
    let data = [10u8, 1, 13];
    let mut u = entropy_source(&data);
    assert_eq!(ogs_message_count(&mut u), 3);
    assert_eq!(ogs_message_count(&mut u), 1);
    assert_eq!(ogs_message_count(&mut u), 6);
    assert_eq!(ogs_message_count(&mut u), 0);
    assert!(u.is_empty());
}
