//! The request/response codec.
//!
//! A request frame is one opcode byte followed by zero or more payload
//! bytes; there is no length prefix and no checksum. The receiver's
//! interpretation of the payload is fixed per opcode by protocol
//! convention. This module defines the opcode table, frame construction,
//! the ack sentinel, the bit-order reversal used by the digital I/O
//! operations, little-endian decoding, and the reply checks of the two
//! connection self-tests.

use vstd::prelude::*;
use crate::error::{Error, ErrorKind};

verus! {

/// The byte value signalling "operation succeeded".
pub const MSG_OK: u8 = 0xFF;

/// The request types of the wire protocol, one per opcode.
#[derive(Clone, Copy, Debug, PartialEq, Eq, Structural)]
pub enum Request {
    /// Flush a stale byte out of the board's receive buffer.
    Discard,
    /// Echo one byte back, preceded by the ack sentinel.
    Test,
    /// Return the board-info string sequence.
    Info,
    /// Multiply a 16-bit value by three and return it.
    IntTest,
    /// Run the board's self test.
    SelfTest,
    /// Set digital output port 0.
    DigitalWrite0,
    /// Set digital output port 1.
    DigitalWrite1,
    /// Read digital input port 0.
    DigitalRead0,
    /// Read digital input port 1.
    DigitalRead1,
    /// Read the DIP switch block.
    ReadDipSwitch,
    /// Set analog output 0.
    AnalogWrite0,
    /// Set analog output 1.
    AnalogWrite1,
    /// Read an analog input.
    AnalogRead,
    /// Run one ADC/DAC stroke.
    AdcDacStroke,
    /// Set the PWM base frequency.
    PwmSetFreq,
    /// Set the PWM duty value.
    PwmSetValue,
    /// Write an 8-bit microcontroller register.
    SetMem8,
    /// Read an 8-bit microcontroller register.
    GetMem8,
    /// Read a 16-bit microcontroller register.
    GetMem16,
    /// Write a 16-bit microcontroller register.
    SetMem16,
    /// Set the counter offset.
    CounterOffset,
    /// Enable the servo output.
    ServoEnable,
    /// Disable the servo output.
    ServoDisable,
    /// Set the servo position.
    ServoSetPos,
}

impl Request {
    /// The opcode byte of this request type.
    pub open spec fn code_spec(self) -> u8 {
        match self {
            Request::Discard => 0,
            Request::Test => 1,
            Request::Info => 2,
            Request::IntTest => 3,
            Request::SelfTest => 4,
            Request::DigitalWrite0 => 5,
            Request::DigitalWrite1 => 6,
            Request::DigitalRead0 => 7,
            Request::DigitalRead1 => 8,
            Request::ReadDipSwitch => 9,
            Request::AnalogWrite0 => 10,
            Request::AnalogWrite1 => 11,
            Request::AnalogRead => 12,
            Request::AdcDacStroke => 13,
            Request::PwmSetFreq => 14,
            Request::PwmSetValue => 15,
            Request::SetMem8 => 16,
            Request::GetMem8 => 17,
            Request::GetMem16 => 18,
            Request::SetMem16 => 19,
            Request::CounterOffset => 20,
            Request::ServoEnable => 21,
            Request::ServoDisable => 22,
            Request::ServoSetPos => 23,
        }
    }

    /// Returns the opcode byte of this request type.
    pub fn code(self) -> (r: u8)
        ensures
            r == self.code_spec(),
    {
        match self {
            Request::Discard => 0,
            Request::Test => 1,
            Request::Info => 2,
            Request::IntTest => 3,
            Request::SelfTest => 4,
            Request::DigitalWrite0 => 5,
            Request::DigitalWrite1 => 6,
            Request::DigitalRead0 => 7,
            Request::DigitalRead1 => 8,
            Request::ReadDipSwitch => 9,
            Request::AnalogWrite0 => 10,
            Request::AnalogWrite1 => 11,
            Request::AnalogRead => 12,
            Request::AdcDacStroke => 13,
            Request::PwmSetFreq => 14,
            Request::PwmSetValue => 15,
            Request::SetMem8 => 16,
            Request::GetMem8 => 17,
            Request::GetMem16 => 18,
            Request::SetMem16 => 19,
            Request::CounterOffset => 20,
            Request::ServoEnable => 21,
            Request::ServoDisable => 22,
            Request::ServoSetPos => 23,
        }
    }
}

/// Builds a request frame: the opcode byte followed by the payload bytes,
/// in the order given, with no transformation.
pub fn encode(op: Request, payload: &[u8]) -> (r: Vec<u8>)
    ensures
        r@ == seq![op.code_spec()] + payload@,
{
    let mut frame: Vec<u8> = Vec::new();
    frame.push(op.code());
    let mut i: usize = 0;
    while i < payload.len()
        invariant
            i <= payload.len(),
            frame@ == seq![op.code_spec()] + payload@.take(i as int),
        decreases payload.len() - i,
    {
        frame.push(payload[i]);
        i += 1;
        proof {
            assert(frame@ =~= seq![op.code_spec()] + payload@.take(i as int));
        }
    }
    proof {
        assert(frame@ =~= seq![op.code_spec()] + payload@);
    }
    frame
}

/// The byte with the bit order of `v` reversed: bit 0 becomes bit 7,
/// bit 1 becomes bit 6, and so on. The wire format of the digital I/O
/// operations carries values in the opposite bit order from the host API.
pub open spec fn rev8(v: u8) -> u8 {
    ((v & 0x01) << 7) | ((v & 0x02) << 5) | ((v & 0x04) << 3) | ((v & 0x08) << 1)
        | ((v & 0x10) >> 1) | ((v & 0x20) >> 3) | ((v & 0x40) >> 5) | ((v & 0x80) >> 7)
}

/// Reverses the bit order of a byte.
pub fn reverse_bits(v: u8) -> (r: u8)
    ensures
        r == rev8(v),
{
    ((v & 0x01) << 7) | ((v & 0x02) << 5) | ((v & 0x04) << 3) | ((v & 0x08) << 1)
        | ((v & 0x10) >> 1) | ((v & 0x20) >> 3) | ((v & 0x40) >> 5) | ((v & 0x80) >> 7)
}

/// Bit-order round-trip law: reversing the bit order of a byte twice
/// yields the byte itself. Writing a value to a digital port and reading
/// it back through an echoing device therefore returns the value unchanged.
pub proof fn lemma_rev8_involution(v: u8)
    ensures
        rev8(rev8(v)) == v,
{
    assert(rev8(rev8(v)) == v) by (bit_vector);
}

/// The value of two bytes read as a little-endian 16-bit integer.
pub open spec fn u16_le(lo: u8, hi: u8) -> int {
    lo + 256 * hi
}

/// Decodes two little-endian bytes into a 16-bit integer.
pub fn u16_from_le(lo: u8, hi: u8) -> (r: u16)
    ensures
        r == u16_le(lo, hi),
{
    proof {
        assert(((lo as u16) | ((hi as u16) << 8)) == lo + 256 * hi) by (bit_vector);
    }
    (lo as u16) | ((hi as u16) << 8)
}

/// Splits a 16-bit integer into its little-endian bytes.
pub fn u16_to_le(v: u16) -> (r: (u8, u8))
    ensures
        r.0 == u16_lo(v),
        r.1 == u16_hi(v),
        u16_le(r.0, r.1) == v,
{
    proof {
        assert((v & 0xFF) < 256 && (v >> 8) < 256 && (v & 0xFF) + 256 * (v >> 8) == v)
            by (bit_vector);
    }
    ((v & 0xFF) as u8, (v >> 8) as u8)
}

/// The little-endian low byte of a 16-bit integer.
pub open spec fn u16_lo(v: u16) -> u8 {
    (v & 0xFF) as u8
}

/// The little-endian high byte of a 16-bit integer.
pub open spec fn u16_hi(v: u16) -> u8 {
    (v >> 8) as u8
}

/// The characters of a byte sequence decoded as Latin-1: each byte is
/// one character with that code point.
pub open spec fn latin1(bs: Seq<u8>) -> Seq<char> {
    bs.map_values(|b: u8| b as char)
}

/// Relies on String::push: appending one character at the end of the
/// string's character sequence.
#[verifier::external_body]
fn push_char(s: &mut String, c: char)
    ensures
        final(s)@ == old(s)@.push(c),
{
    s.push(c);
}

/// Decodes raw bytes as Latin-1 characters.
pub fn latin1_decode(bytes: &Vec<u8>) -> (r: String)
    ensures
        r@ == latin1(bytes@),
{
    let mut s = String::new();
    let mut i: usize = 0;
    while i < bytes.len()
        invariant
            i <= bytes.len(),
            s@ == latin1(bytes@.take(i as int)),
        decreases bytes.len() - i,
    {
        let c = bytes[i] as char;
        push_char(&mut s, c);
        i += 1;
        proof {
            assert(s@ =~= latin1(bytes@.take(i as int)));
        }
    }
    proof {
        assert(s@ =~= latin1(bytes@));
    }
    s
}

/// The character sequences of a sequence of strings.
pub open spec fn string_views(ss: Seq<String>) -> Seq<Seq<char>> {
    ss.map_values(|s: String| s@)
}

/// Each byte string of a sequence decoded as Latin-1.
pub open spec fn latin1_seq(bs: Seq<Seq<u8>>) -> Seq<Seq<char>> {
    bs.map_values(|b: Seq<u8>| latin1(b))
}

/// Parses `n` length-prefixed strings from the front of `s`: each is one
/// length byte followed by that many data bytes. Returns the byte
/// strings and how many bytes they occupied, or nothing if `s` is too
/// short.
pub open spec fn parse_strings(s: Seq<u8>, n: nat) -> Option<(Seq<Seq<u8>>, int)>
    decreases n,
{
    if n == 0 {
        Some((Seq::empty(), 0))
    } else if s.len() < 1 {
        None
    } else {
        let len = s[0] as int;
        if s.len() < 1 + len {
            None
        } else {
            let item = s.subrange(1, 1 + len);
            match parse_strings(s.skip(1 + len), (n - 1) as nat) {
                None => None,
                Some(rest) => Some((seq![item] + rest.0, 1 + len + rest.1)),
            }
        }
    }
}

/// Whether `s` begins with a complete board-info reply up to its
/// terminator: the count byte, all its strings, and one byte more, in
/// whose place the ack sentinel is expected.
pub open spec fn info_reply_complete(s: Seq<u8>) -> bool {
    s.len() >= 1 && parse_strings(s.skip(1), s[0] as nat) is Some && s.len() >= 2 + parse_strings(
        s.skip(1),
        s[0] as nat,
    )->Some_0.1
}

/// Parses a full board-info reply: one count byte, that many
/// length-prefixed strings, then the ack sentinel. Returns the byte
/// strings and the total number of bytes the reply occupies, or nothing
/// if the reply is malformed.
pub open spec fn parse_info(s: Seq<u8>) -> Option<(Seq<Seq<u8>>, int)> {
    if s.len() < 1 {
        None
    } else {
        match parse_strings(s.skip(1), s[0] as nat) {
            None => None,
            Some(body) => {
                let end = 1 + body.1;
                if s.len() < end + 1 || s[end] != MSG_OK {
                    None
                } else {
                    Some((body.0, end + 1))
                }
            },
        }
    }
}

/// Checks the reply of the connection self-test: the first byte must be
/// the ack sentinel and the second must echo the byte that was sent.
/// Succeeds exactly on the pair `(MSG_OK, sent)`; any other pair is a
/// `TestMismatch`.
pub fn check_test_reply(sent: u8, b0: u8, b1: u8) -> (r: Result<(), Error>)
    ensures
        r is Ok <==> (b0 == MSG_OK && b1 == sent),
        r is Err ==> r->Err_0.kind == ErrorKind::TestMismatch,
{
    if b0 != MSG_OK || b1 != sent {
        Err(Error::with_kind(ErrorKind::TestMismatch, "Test request failed"))
    } else {
        Ok(())
    }
}

/// Checks the reply of the integer-conversion self-test: the two reply
/// bytes, read little-endian, must equal three times the value that was
/// sent. Any other reply is an `IntConversionMismatch`.
pub fn check_int_conv_reply(sent: u16, lo: u8, hi: u8) -> (r: Result<(), Error>)
    ensures
        r is Ok <==> u16_le(lo, hi) == 3 * sent,
        r is Err ==> r->Err_0.kind == ErrorKind::IntConversionMismatch,
{
    let got: u32 = u16_from_le(lo, hi) as u32;
    if got == 3 * (sent as u32) {
        Ok(())
    } else {
        Err(Error::with_kind(ErrorKind::IntConversionMismatch, "Int conversion failed"))
    }
}

} // verus!
