use b15f::error::ErrorKind;
use b15f::request::{
    check_int_conv_reply, check_test_reply, encode, latin1_decode, reverse_bits, u16_from_le,
    u16_to_le, Request, MSG_OK,
};

#[test]
fn encode_concatenates_opcode_and_payload() {
    let frame = encode(Request::Test, &[0xAB]);
    assert_eq!(frame, vec![1u8, 0xAB]);
    let frame = encode(Request::SetMem8, &[0x22, 0x42]);
    assert_eq!(frame, vec![16u8, 0x22, 0x42]);
    let frame = encode(Request::Discard, &[]);
    assert_eq!(frame, vec![0u8]);
}

#[test]
fn request_codes_match_the_opcode_table() {
    assert_eq!(Request::Discard.code(), 0);
    assert_eq!(Request::Test.code(), 1);
    assert_eq!(Request::Info.code(), 2);
    assert_eq!(Request::IntTest.code(), 3);
    assert_eq!(Request::SelfTest.code(), 4);
    assert_eq!(Request::DigitalWrite0.code(), 5);
    assert_eq!(Request::DigitalWrite1.code(), 6);
    assert_eq!(Request::DigitalRead0.code(), 7);
    assert_eq!(Request::DigitalRead1.code(), 8);
    assert_eq!(Request::ReadDipSwitch.code(), 9);
    assert_eq!(Request::AnalogWrite0.code(), 10);
    assert_eq!(Request::AnalogWrite1.code(), 11);
    assert_eq!(Request::AnalogRead.code(), 12);
    assert_eq!(Request::AdcDacStroke.code(), 13);
    assert_eq!(Request::PwmSetFreq.code(), 14);
    assert_eq!(Request::PwmSetValue.code(), 15);
    assert_eq!(Request::SetMem8.code(), 16);
    assert_eq!(Request::GetMem8.code(), 17);
    assert_eq!(Request::GetMem16.code(), 18);
    assert_eq!(Request::SetMem16.code(), 19);
    assert_eq!(Request::CounterOffset.code(), 20);
    assert_eq!(Request::ServoEnable.code(), 21);
    assert_eq!(Request::ServoDisable.code(), 22);
    assert_eq!(Request::ServoSetPos.code(), 23);
}

#[test]
fn reverse_bits_swaps_the_bit_order() {
    assert_eq!(reverse_bits(0b0000_0001), 0b1000_0000);
    assert_eq!(reverse_bits(0b1000_0000), 0b0000_0001);
    assert_eq!(reverse_bits(0b1100_1010), 0b0101_0011);
    assert_eq!(reverse_bits(0x00), 0x00);
    assert_eq!(reverse_bits(0xFF), 0xFF);
}

#[test]
fn reverse_bits_twice_is_the_identity() {
    for v in 0u16..=255 {
        let v = v as u8;
        assert_eq!(reverse_bits(reverse_bits(v)), v);
        assert_eq!(reverse_bits(v), v.reverse_bits());
    }
}

#[test]
fn little_endian_round_trip() {
    assert_eq!(u16_to_le(0x1234), (0x34, 0x12));
    assert_eq!(u16_from_le(0x34, 0x12), 0x1234);
    for v in [0u16, 1, 255, 256, 0x5555, 0xFFFF] {
        let (lo, hi) = u16_to_le(v);
        assert_eq!(u16_from_le(lo, hi), v);
    }
}

#[test]
fn test_reply_accepted_exactly_on_ack_and_echo() {
    for r in 0u16..=255 {
        let r = r as u8;
        assert!(check_test_reply(r, MSG_OK, r).is_ok());
    }
    let e = check_test_reply(0x12, 0x00, 0x12).unwrap_err();
    assert_eq!(e.kind, ErrorKind::TestMismatch);
    let e = check_test_reply(0x12, MSG_OK, 0x13).unwrap_err();
    assert_eq!(e.kind, ErrorKind::TestMismatch);
    let e = check_test_reply(0x12, 0x12, MSG_OK).unwrap_err();
    assert_eq!(e.kind, ErrorKind::TestMismatch);
}

#[test]
fn int_conv_reply_accepted_exactly_on_triple() {
    for u in [0u16, 1, 2, 100, 1000, 0x5555] {
        let triple = u * 3;
        let lo = (triple & 0xFF) as u8;
        let hi = (triple >> 8) as u8;
        assert!(check_int_conv_reply(u, lo, hi).is_ok());
    }
    let e = check_int_conv_reply(100, 0x2D, 0x01).unwrap_err();
    assert_eq!(e.kind, ErrorKind::IntConversionMismatch);
    let e = check_int_conv_reply(0, 1, 0).unwrap_err();
    assert_eq!(e.kind, ErrorKind::IntConversionMismatch);
}

#[test]
fn latin1_decoding_keeps_each_byte_as_one_character() {
    assert_eq!(latin1_decode(&vec![0x31, 0x2E, 0x30]), "1.0");
    assert_eq!(latin1_decode(&vec![]), "");
    assert_eq!(latin1_decode(&vec![0xE9]), "\u{e9}");
}
