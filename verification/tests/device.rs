use b15f::atmega1284p::DataRegister;
use b15f::b15f::{select_device, verify_identity, B15F};
use b15f::error::ErrorKind;
use b15f::sim::SimTransport;

fn driver() -> B15F<SimTransport> {
    B15F { usart: SimTransport::new() }
}

#[test]
fn digital_write_succeeds_on_ack_and_reverses_the_bits() {
    let mut drv = driver();
    drv.usart.feed(&[0xFF]);
    assert!(drv.digital_write::<0>(0b1010_0001).is_ok());
    assert_eq!(drv.usart.frames_sent(), 1);
    assert_eq!(drv.usart.frame(0), vec![5u8, 0b1000_0101]);
    assert_eq!(drv.usart.pending(), 0);
}

#[test]
fn digital_write_port_one_uses_its_own_opcode() {
    let mut drv = driver();
    drv.usart.feed(&[0xFF]);
    assert!(drv.digital_write::<1>(0x0F).is_ok());
    assert_eq!(drv.usart.frame(0), vec![6u8, 0xF0]);
}

#[test]
fn digital_write_without_ack_is_a_port_write_failure() {
    let mut drv = driver();
    drv.usart.feed(&[0x00]);
    let e = drv.digital_write::<0>(0x42).unwrap_err();
    assert_eq!(e.kind, ErrorKind::PortWriteFailed);
    assert_eq!(e.message, "setting port 0 failed");

    let mut drv = driver();
    drv.usart.feed(&[0x00]);
    let e = drv.digital_write::<1>(0x42).unwrap_err();
    assert_eq!(e.kind, ErrorKind::PortWriteFailed);
    assert_eq!(e.message, "setting port 1 failed");
}

#[test]
fn digital_write_without_reply_is_a_transport_fault() {
    let mut drv = driver();
    let e = drv.digital_write::<0>(0x42).unwrap_err();
    assert_eq!(e.kind, ErrorKind::TransportIoFailed);
}

#[test]
fn digital_round_trip_returns_the_written_value() {
    // An echoing device: whatever wire byte a write carried is handed
    // back on the following read. The bit reversal cancels for every
    // value and both ports.
    for v in 0u16..=255 {
        let v = v as u8;
        let mut drv = driver();
        drv.usart.feed(&[0xFF]);
        assert!(drv.digital_write::<0>(v).is_ok());
        let wire = drv.usart.frame(0)[1];
        drv.usart.feed(&[wire]);
        assert_eq!(drv.digital_read::<0>().unwrap(), v);

        let mut drv = driver();
        drv.usart.feed(&[0xFF]);
        assert!(drv.digital_write::<1>(v).is_ok());
        let wire = drv.usart.frame(0)[1];
        drv.usart.feed(&[wire]);
        assert_eq!(drv.digital_read::<1>().unwrap(), v);
    }
}

#[test]
fn digital_read_requests_the_right_port() {
    let mut drv = driver();
    drv.usart.feed(&[0b1000_0000]);
    assert_eq!(drv.digital_read::<1>().unwrap(), 0b0000_0001);
    assert_eq!(drv.usart.frame(0), vec![8u8]);
}

#[test]
fn read_dip_switch_returns_the_byte_as_is() {
    let mut drv = driver();
    drv.usart.feed(&[0b1010_0101]);
    assert_eq!(drv.read_dip_switch().unwrap(), 0b1010_0101);
    assert_eq!(drv.usart.frame(0), vec![9u8]);
}

#[test]
fn get_register_addresses_by_variant() {
    let mut drv = driver();
    drv.usart.feed(&[0x5A]);
    assert_eq!(drv.get_register(DataRegister::PortA).unwrap(), 0x5A);
    assert_eq!(drv.usart.frame(0), vec![17u8, 0x22]);
}

#[test]
fn set_register_sends_address_and_value() {
    let mut drv = driver();
    drv.usart.feed(&[0xFF]);
    assert!(drv.set_register(DataRegister::DDRD, 0x0F).is_ok());
    assert_eq!(drv.usart.frame(0), vec![16u8, 0x2A, 0x0F]);
}

#[test]
fn set_register_without_ack_is_a_port_write_failure() {
    let mut drv = driver();
    drv.usart.feed(&[0x7F]);
    let e = drv.set_register(DataRegister::PortC, 1).unwrap_err();
    assert_eq!(e.kind, ErrorKind::PortWriteFailed);
}

#[test]
fn register_addresses_match_the_table() {
    assert_eq!(DataRegister::DDRA.address(), 0x21);
    assert_eq!(DataRegister::PortA.address(), 0x22);
    assert_eq!(DataRegister::DDRB.address(), 0x24);
    assert_eq!(DataRegister::PortB.address(), 0x25);
    assert_eq!(DataRegister::DDRC.address(), 0x27);
    assert_eq!(DataRegister::PortC.address(), 0x28);
    assert_eq!(DataRegister::DDRD.address(), 0x2A);
    assert_eq!(DataRegister::PortD.address(), 0x2B);
}

#[test]
fn test_int_conv_succeeds_only_on_the_triple() {
    let mut drv = driver();
    let triple = 3u16 * 0x1234;
    drv.usart.feed(&triple.to_le_bytes());
    assert!(drv.test_int_conv(0x1234).is_ok());
    assert_eq!(drv.usart.frame(0), vec![3u8, 0x34, 0x12]);

    let mut drv = driver();
    drv.usart.feed(&[0x01, 0x00]);
    let e = drv.test_int_conv(0x1234).unwrap_err();
    assert_eq!(e.kind, ErrorKind::IntConversionMismatch);
}

#[test]
fn test_connection_rejects_a_wrong_reply() {
    let mut drv = driver();
    drv.usart.feed(&[0x00, 0x00]);
    let e = drv.test_connection().unwrap_err();
    assert_eq!(e.kind, ErrorKind::TestMismatch);
    let frame = drv.usart.frame(0);
    assert_eq!(frame[0], 1);
    assert_eq!(frame.len(), 2);
}

#[test]
fn board_info_returns_the_three_strings() {
    let mut drv = driver();
    let mut reply: Vec<u8> = vec![3];
    for s in ["1.0", "2024-01-01", "deadbeef"] {
        reply.push(s.len() as u8);
        reply.extend_from_slice(s.as_bytes());
    }
    reply.push(0xFF);
    drv.usart.feed(&reply);
    let info = drv.get_board_info().unwrap();
    assert_eq!(info, vec!["1.0", "2024-01-01", "deadbeef"]);
    assert_eq!(drv.usart.frame(0), vec![2u8]);
    assert_eq!(drv.usart.pending(), 0);
}

#[test]
fn board_info_with_no_strings_is_empty() {
    let mut drv = driver();
    drv.usart.feed(&[0, 0xFF]);
    let info = drv.get_board_info().unwrap();
    assert!(info.is_empty());
}

#[test]
fn board_info_without_the_ack_is_malformed() {
    let mut drv = driver();
    drv.usart.feed(&[1, 2, 0x41, 0x42, 0x00]);
    let e = drv.get_board_info().unwrap_err();
    assert_eq!(e.kind, ErrorKind::BoardInfoMalformed);
}

#[test]
fn board_info_cut_short_is_a_transport_fault() {
    let mut drv = driver();
    drv.usart.feed(&[2, 5, 0x41]);
    let e = drv.get_board_info().unwrap_err();
    assert_eq!(e.kind, ErrorKind::TransportIoFailed);
}

#[test]
fn discard_sends_sixteen_frames_and_clears_both_buffers() {
    let mut drv = driver();
    drv.usart.feed(&[1, 2, 3, 4]);
    assert!(drv.discard().is_ok());
    assert_eq!(drv.usart.frames_sent(), 16);
    for i in 0..16 {
        assert_eq!(drv.usart.frame(i), vec![0u8]);
    }
    assert_eq!(drv.usart.pending(), 0);
}

#[test]
fn select_device_takes_the_first_candidate() {
    let devices = vec![String::from("/dev/ttyUSB0"), String::from("/dev/ttyUSB1")];
    assert_eq!(select_device(&devices).unwrap(), "/dev/ttyUSB0");
}

#[test]
fn select_device_fails_on_an_empty_list() {
    let e = select_device(&Vec::new()).unwrap_err();
    assert_eq!(e.kind, ErrorKind::DeviceNotFound);
}

#[test]
fn verify_identity_compares_the_strings() {
    let a = String::from("deadbeef");
    let b = String::from("deadbeef");
    let c = String::from("cafef00d");
    assert!(verify_identity(&a, &b).is_ok());
    let e = verify_identity(&a, &c).unwrap_err();
    assert_eq!(e.kind, ErrorKind::VersionIncompatible);
}

#[test]
fn error_constructors_carry_kind_and_message() {
    let e = b15f::Error::new("the line is dead");
    assert_eq!(e.kind, ErrorKind::TransportIoFailed);
    assert_eq!(e.message, "the line is dead");
    let e = b15f::Error::with_kind(ErrorKind::TransportOpenFailed, "no permission");
    assert_eq!(e.kind, ErrorKind::TransportOpenFailed);
    assert_eq!(e.message, "no permission");
}

#[test]
fn board_info_handles_a_longest_string() {
    let mut drv = driver();
    let long: Vec<u8> = (0u16..255).map(|i| ((i % 26) + 0x61) as u8).collect();
    let mut reply: Vec<u8> = vec![1, 255];
    reply.extend_from_slice(&long);
    reply.push(0xFF);
    drv.usart.feed(&reply);
    let info = drv.get_board_info().unwrap();
    assert_eq!(info.len(), 1);
    assert_eq!(info[0].len(), 255);
    assert_eq!(info[0].as_bytes(), &long[..]);
}

#[test]
fn board_info_data_bytes_may_equal_the_sentinel() {
    // A 0xFF inside a string is data, not the terminating ack.
    let mut drv = driver();
    drv.usart.feed(&[1, 2, 0xFF, 0x41, 0xFF]);
    let info = drv.get_board_info().unwrap();
    assert_eq!(info.len(), 1);
    assert_eq!(info[0], "\u{ff}A");
}
