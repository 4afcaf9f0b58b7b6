use oxixenon::protocol::{
    decode_string, encode_string, ByteReader, DecodeError, EncodeError, Event, Packet,
    RenewAvailability,
};

fn encode_packet(p: &Packet) -> Vec<u8> {
    let mut out: Vec<u8> = Vec::new();
    p.write(&mut out).expect("encoding must succeed");
    out
}

fn decode_packet(bytes: &[u8]) -> Result<Packet, DecodeError> {
    let mut reader = ByteReader::new(bytes);
    Packet::read(&mut reader)
}

fn round_trip(p: Packet) {
    let bytes = encode_packet(&p);
    let decoded = decode_packet(&bytes).expect("decoding must succeed");
    assert_eq!(p, decoded);
}

#[test]
fn round_trip_fresh_ip_request() {
    round_trip(Packet::FreshIPRequest);
}

#[test]
fn round_trip_okay() {
    round_trip(Packet::Okay);
}

#[test]
fn round_trip_error() {
    round_trip(Packet::Error("something broke".to_string()));
}

#[test]
fn round_trip_event() {
    round_trip(Packet::Event(Event::IPRenewed));
}

#[test]
fn round_trip_set_available() {
    round_trip(Packet::SetRenewingAvailable(RenewAvailability::Available));
}

#[test]
fn round_trip_set_unavailable() {
    round_trip(Packet::SetRenewingAvailable(RenewAvailability::Unavailable(
        "maintenance".to_string(),
    )));
}

#[test]
fn round_trip_max_length_error_message() {
    let msg = "a".repeat(65535);
    round_trip(Packet::Error(msg));
}

#[test]
fn round_trip_non_ascii_error_message() {
    round_trip(Packet::Error("renouvellement échoué".to_string()));
}

#[test]
fn exact_wire_bytes() {
    assert_eq!(encode_packet(&Packet::FreshIPRequest), vec![0]);
    assert_eq!(encode_packet(&Packet::Okay), vec![1]);
    assert_eq!(
        encode_packet(&Packet::Error("hi".to_string())),
        vec![2, 0, 2, b'h', b'i']
    );
    assert_eq!(encode_packet(&Packet::Event(Event::IPRenewed)), vec![3, 0]);
    assert_eq!(
        encode_packet(&Packet::SetRenewingAvailable(RenewAvailability::Available)),
        vec![4, 0]
    );
    assert_eq!(
        encode_packet(&Packet::SetRenewingAvailable(RenewAvailability::Unavailable(
            "ab".to_string()
        ))),
        vec![4, 1, 0, 2, b'a', b'b']
    );
}

#[test]
fn length_prefix_is_big_endian() {
    let msg = "x".repeat(300);
    let bytes = encode_packet(&Packet::Error(msg));
    // 300 = 0x012c, so the prefix must be 0x01 0x2c in network order.
    assert_eq!(bytes[1], 0x01);
    assert_eq!(bytes[2], 0x2c);
    assert_eq!(bytes.len(), 3 + 300);
}

#[test]
fn tag_exhaustiveness() {
    for tag in 5..=255u8 {
        let r = decode_packet(&[tag]);
        assert_eq!(r, Err(DecodeError::UnknownVariant(tag)));
    }
}

#[test]
fn unknown_event_code_rejected() {
    assert_eq!(decode_packet(&[3, 7]), Err(DecodeError::UnknownVariant(7)));
}

#[test]
fn unknown_availability_tag_rejected() {
    assert_eq!(decode_packet(&[4, 9]), Err(DecodeError::UnknownVariant(9)));
}

#[test]
fn length_boundary_at_65535() {
    let just_fits = "a".repeat(65535);
    let mut out: Vec<u8> = Vec::new();
    assert!(encode_string(&mut out, Some(just_fits.as_str())).is_ok());
    assert_eq!(out.len(), 2 + 65535);

    let too_long = "a".repeat(65536);
    let mut out: Vec<u8> = Vec::new();
    let r = encode_string(&mut out, Some(too_long.as_str()));
    assert_eq!(r, Err(EncodeError::PayloadTooLarge));
    // Nothing may have been written on this failure.
    assert!(out.is_empty());
}

#[test]
fn oversized_packet_leaves_stream_untouched() {
    let too_long = "a".repeat(65536);
    let mut out: Vec<u8> = vec![9, 9];
    let r = Packet::Error(too_long).write(&mut out);
    assert_eq!(r, Err(EncodeError::PayloadTooLarge));
    assert_eq!(out, vec![9, 9]);
}

#[test]
fn truncated_string_content_rejected() {
    // Advertises five bytes but provides one.
    assert_eq!(decode_packet(&[2, 0, 5, b'a']), Err(DecodeError::TruncatedStream));
}

#[test]
fn truncated_length_prefix_rejected() {
    assert_eq!(decode_packet(&[2, 0]), Err(DecodeError::TruncatedStream));
}

#[test]
fn empty_stream_rejected() {
    assert_eq!(decode_packet(&[]), Err(DecodeError::TruncatedStream));
    assert_eq!(decode_packet(&[4]), Err(DecodeError::TruncatedStream));
    assert_eq!(decode_packet(&[3]), Err(DecodeError::TruncatedStream));
}

#[test]
fn empty_reason_rejected() {
    // SetRenewingAvailable + Unavailable + zero-length reason string.
    assert_eq!(
        decode_packet(&[4, 1, 0, 0]),
        Err(DecodeError::MissingField("reason"))
    );
}

#[test]
fn empty_reason_rejected_at_availability_level() {
    let bytes = [1u8, 0, 0];
    let mut reader = ByteReader::new(&bytes);
    let r = RenewAvailability::read(&mut reader);
    assert_eq!(r, Err(DecodeError::MissingField("reason")));
}

#[test]
fn absent_error_message_becomes_fallback() {
    assert_eq!(
        decode_packet(&[2, 0, 0]),
        Ok(Packet::Error("Unknown error".to_string()))
    );
}

#[test]
fn invalid_utf8_rejected() {
    assert_eq!(
        decode_packet(&[2, 0, 2, 0xff, 0xfe]),
        Err(DecodeError::InvalidUtf8)
    );
}

#[test]
fn utf8_content_is_decoded_not_copied() {
    // 0xc3 0xa9 is the two-byte UTF-8 encoding of a single character.
    let decoded = decode_packet(&[2, 0, 2, 0xc3, 0xa9]).expect("valid UTF-8 must decode");
    assert_eq!(decoded, Packet::Error("\u{e9}".to_string()));
}

#[test]
fn decoding_consumes_exactly_one_packet() {
    let bytes = [1u8, 99, 98];
    let mut reader = ByteReader::new(&bytes);
    let p = Packet::read(&mut reader).expect("valid packet");
    assert_eq!(p, Packet::Okay);
    assert_eq!(reader.remaining_len(), 2);
}

#[test]
fn encode_string_absent_writes_zero_length() {
    let mut out: Vec<u8> = Vec::new();
    encode_string(&mut out, None).expect("absent string always encodes");
    assert_eq!(out, vec![0, 0]);
}

#[test]
fn encode_string_empty_equals_absent() {
    let mut out: Vec<u8> = Vec::new();
    encode_string(&mut out, Some("")).expect("empty string always encodes");
    assert_eq!(out, vec![0, 0]);
}

#[test]
fn decode_string_zero_length_is_absent() {
    let bytes = [0u8, 0];
    let mut reader = ByteReader::new(&bytes);
    assert_eq!(decode_string(&mut reader), Ok(None));
}

#[test]
fn decode_string_reads_content() {
    let bytes = [0u8, 3, b'a', b'b', b'c'];
    let mut reader = ByteReader::new(&bytes);
    assert_eq!(decode_string(&mut reader), Ok(Some("abc".to_string())));
}

#[test]
fn packet_numbers() {
    assert_eq!(Packet::FreshIPRequest.packet_no(), 0);
    assert_eq!(Packet::Okay.packet_no(), 1);
    assert_eq!(Packet::Error("x".to_string()).packet_no(), 2);
    assert_eq!(Packet::Event(Event::IPRenewed).packet_no(), 3);
    assert_eq!(
        Packet::SetRenewingAvailable(RenewAvailability::Available).packet_no(),
        4
    );
}

#[test]
fn availability_repr() {
    assert_eq!(RenewAvailability::Available.repr(), 0);
    assert_eq!(RenewAvailability::Unavailable("x".to_string()).repr(), 1);
}

#[test]
fn event_code_and_description() {
    assert_eq!(Event::IPRenewed.code(), 0);
    assert_eq!(
        Event::IPRenewed.extended_descr(),
        "An IP renewal has been requested"
    );
}

#[test]
fn availability_describe() {
    assert_eq!(RenewAvailability::Available.describe(), "available");
    assert_eq!(
        RenewAvailability::Unavailable("maintenance".to_string()).describe(),
        "unavailable due to \"maintenance\""
    );
}
