//! The typed command layer and the connection manager.
//!
//! A [`B15F`] exclusively owns one open transport. It is created by
//! [`B15F::new`], which runs the discard/test/retry handshake and hands
//! the caller a usable handle only when the device has proven that it
//! speaks the protocol. Every command is one synchronous request/response
//! exchange; a reply whose expected bytes cannot be fully read is always
//! an error, never a truncated value.

use vstd::prelude::*;
use rand::Rng;
use crate::bounds::assert_in_range;
use crate::atmega1284p::DataRegister;
use crate::error::{Error, ErrorKind};
use crate::handshake::{Handshake, HandshakeEvent, HandshakeState};
use crate::request::{
    check_int_conv_reply, check_test_reply, encode, info_reply_complete, latin1, latin1_decode,
    latin1_seq, parse_info, parse_strings, rev8, reverse_bits, string_views, u16_hi, u16_le,
    u16_lo, u16_to_le, Request, MSG_OK,
};
use crate::usart::{read_sized, Transport, TransportEvent};

verus! {

/// Draws one random byte for the connection self-test.
///
/// Relies on rand::Rng::gen_range over rand::thread_rng; nothing is
/// assumed of the drawn value.
#[verifier::external_body]
fn random_byte() -> u8 {
    rand::thread_rng().gen_range(0x00u8..=0xFFu8)
}

/// Draws one random value in the domain of the integer-conversion
/// self-test.
///
/// Relies on rand::Rng::gen_range over rand::thread_rng: the drawn value
/// lies in the requested range.
#[verifier::external_body]
fn random_conv_value() -> (r: u16)
    ensures
        r <= 0xFFFFint / 3,
{
    rand::thread_rng().gen_range(0x0000u16..=(0xFFFFu16 / 3))
}

/// The request type that sets the given digital output port.
pub open spec fn write_request(port: usize) -> Request {
    if port == 0 {
        Request::DigitalWrite0
    } else {
        Request::DigitalWrite1
    }
}

/// The request type that reads the given digital input port.
pub open spec fn read_request(port: usize) -> Request {
    if port == 0 {
        Request::DigitalRead0
    } else {
        Request::DigitalRead1
    }
}

/// The frames sent by one discard sequence: `n` bare Discard opcodes.
pub open spec fn discard_frames(n: int) -> Seq<Seq<u8>> {
    Seq::new(n as nat, |i: int| seq![Request::Discard.code_spec()])
}

/// The event trace of one discard sequence, in order: the outbound
/// buffer is cleared first, then sixteen Discard frames go out, then
/// the inbound buffer is cleared.
pub open spec fn discard_trace() -> Seq<TransportEvent> {
    seq![TransportEvent::ClearedOutput] + Seq::new(
        16,
        |i: int| TransportEvent::Wrote(seq![Request::Discard.code_spec()]),
    ) + seq![TransportEvent::ClearedInput]
}

/// Whether a frame opens one of the two connection self-test exchanges.
pub open spec fn is_self_test_frame(f: Seq<u8>) -> bool {
    f.len() >= 1 && (f[0] == Request::Test.code_spec() || f[0] == Request::IntTest.code_spec())
}

/// Whether the sixteen log entries before position `i` of `sent` are
/// all Discard frames recorded past `start`.
pub open spec fn discard_block_ends_at(sent: Seq<Seq<u8>>, start: int, i: int) -> bool {
    start + 16 <= i <= sent.len() && forall|j: int|
        i - 16 <= j < i ==> sent[j] == seq![Request::Discard.code_spec()]
}

/// Every self-test frame recorded past `start` went out on a freshly
/// flushed line: it stands directly after a full sixteen-frame discard
/// block, or right after the cycle's first self-test frame, which does.
pub open spec fn self_tests_flushed(sent: Seq<Seq<u8>>, start: int) -> bool {
    forall|i: int|
        start <= i < sent.len() && is_self_test_frame(#[trigger] sent[i])
            ==> discard_block_ends_at(sent, start, i) || (start < i && is_self_test_frame(
            sent[i - 1],
        ) && discard_block_ends_at(sent, start, i - 1))
}

/// The driver for the board 15: the exclusive owner of one open
/// transport, produced by a successful connect sequence.
pub struct B15F<T: Transport> {
    /// The serial line the board is reached through. The field is
    /// public so the engine can be exercised over an in-memory
    /// transport; a handle over a real line should only come from
    /// [`B15F::new`], which runs the handshake first.
    pub usart: T,
}

/// Picks the device path to use: the first candidate the port
/// enumerator returned, with no ranking beyond first match. An empty
/// candidate list is a `DeviceNotFound`.
pub fn select_device(devices: &Vec<String>) -> (r: Result<String, Error>)
    ensures
        r is Ok <==> devices@.len() > 0,
        r is Ok ==> r->Ok_0 == devices@[0],
        r is Err ==> r->Err_0.kind == ErrorKind::DeviceNotFound,
{
    if devices.len() == 0 {
        Err(Error::with_kind(ErrorKind::DeviceNotFound, "failed to find an adapter"))
    } else {
        Ok(devices[0].clone())
    }
}

/// Compares a firmware identity string obtained via board info against
/// a known-good value; a mismatch is a `VersionIncompatible`. The check
/// is an optional policy point: [`B15F::new`] does not perform it.
pub fn verify_identity(actual: &String, expected: &String) -> (r: Result<(), Error>)
    ensures
        r is Ok <==> actual@ == expected@,
        r is Err ==> r->Err_0.kind == ErrorKind::VersionIncompatible,
{
    if actual.eq(expected) {
        Ok(())
    } else {
        Err(
            Error::with_kind(
                ErrorKind::VersionIncompatible,
                "the firmware version is incompatible; please update the software",
            ),
        )
    }
}

impl<T: Transport> B15F<T> {
    /// Creates a driver over an open transport.
    ///
    /// Runs the handshake: flush stale bytes, then a connection
    /// self-test, falling back to the integer-conversion self-test
    /// within the same attempt, retrying the full discard/test cycle at
    /// most [`crate::handshake::HANDSHAKE_TRIES`] times in all. On
    /// success the board-info exchange is performed once and the handle
    /// is returned. Once the budget is spent, a `HandshakeFailed` is
    /// returned and no handle exists. A transport fault during a
    /// discard propagates; a fault during a self-test is absorbed as
    /// that attempt's failure.
    ///
    /// A returned handle carries evidence of the sequence it ran: its
    /// frame log ends with the board-info request, standing directly
    /// after the self-test exchange that verified the handshake, and
    /// every self-test of the run was preceded, within its own cycle,
    /// by a full sixteen-frame discard block.
    pub fn new(usart: T) -> (r: Result<B15F<T>, Error>)
        ensures
            r is Ok ==> ({
                let sent = r->Ok_0.usart.sent();
                &&& sent.len() >= 2
                &&& sent.last() == seq![Request::Info.code_spec()]
                &&& is_self_test_frame(sent[sent.len() - 2])
                &&& self_tests_flushed(sent, usart.sent().len() as int)
            }),
            r is Ok && usart.reliable() ==> r->Ok_0.usart.reliable(),
            r is Err ==> r->Err_0.kind == ErrorKind::HandshakeFailed || r->Err_0.kind
                == ErrorKind::TransportIoFailed || r->Err_0.kind == ErrorKind::BoardInfoMalformed,
    {
        let ghost start = usart.sent().len() as int;
        let mut drv = B15F { usart };
        let mut hs = Handshake::init();
        hs = hs.step(HandshakeEvent::Opened);
        hs = hs.step(HandshakeEvent::Begin);
        while hs.in_progress()
            invariant
                hs.wf(),
                hs.in_progress_spec() ==> hs.tries_left >= 1,
                hs.state is Verified ==> drv.usart.sent().len() >= 1 && is_self_test_frame(
                    drv.usart.sent().last(),
                ),
                usart.reliable() ==> drv.usart.reliable(),
                start == usart.sent().len() as int,
                start <= drv.usart.sent().len(),
                self_tests_flushed(drv.usart.sent(), start),
                hs.state is Testing ==> discard_block_ends_at(
                    drv.usart.sent(),
                    start,
                    drv.usart.sent().len() as int,
                ),
            decreases hs.measure(),
        {
            if hs.state == HandshakeState::Discarding {
                let ghost pre = drv.usart.sent();
                match drv.discard() {
                    Ok(()) => {
                        proof {
                            let post = drv.usart.sent();
                            assert forall|j: int| pre.len() <= j < post.len() implies post[j]
                                == seq![Request::Discard.code_spec()] by {
                                assert(post[j] == discard_frames(16)[j - pre.len()]);
                            }
                            assert forall|i2: int|
                                start <= i2 < post.len() && is_self_test_frame(
                                    #[trigger] post[i2],
                                ) implies discard_block_ends_at(post, start, i2) || (start < i2
                                && is_self_test_frame(post[i2 - 1]) && discard_block_ends_at(
                                post,
                                start,
                                i2 - 1,
                            )) by {
                                if i2 < pre.len() {
                                    assert(post[i2] == pre[i2]);
                                    assert(is_self_test_frame(pre[i2]));
                                } else {
                                    assert(post[i2] == seq![Request::Discard.code_spec()]);
                                    assert(!is_self_test_frame(post[i2]));
                                }
                            }
                            assert(self_tests_flushed(post, start));
                            assert(discard_block_ends_at(post, start, post.len() as int));
                        }
                        hs = hs.step(HandshakeEvent::Flushed);
                    },
                    Err(e) => { return Err(e); },
                }
            } else {
                let ghost pre = drv.usart.sent();
                let first_ok = drv.test_connection().is_ok();
                let ghost mid = drv.usart.sent();
                proof {
                    assert(mid.len() == pre.len() + 1 && is_self_test_frame(mid.last())) by {
                        let b = choose|b: u8|
                            mid == pre.push(seq![Request::Test.code_spec(), b]);
                        assert(mid.last() == seq![Request::Test.code_spec(), b]);
                    }
                    assert forall|i2: int|
                        start <= i2 < mid.len() && is_self_test_frame(
                            #[trigger] mid[i2],
                        ) implies discard_block_ends_at(mid, start, i2) || (start < i2
                        && is_self_test_frame(mid[i2 - 1]) && discard_block_ends_at(
                        mid,
                        start,
                        i2 - 1,
                    )) by {
                        if i2 < pre.len() {
                            assert(mid[i2] == pre[i2]);
                            assert(is_self_test_frame(pre[i2]));
                        } else {
                            assert(i2 == pre.len());
                            assert(discard_block_ends_at(pre, start, pre.len() as int));
                            assert(discard_block_ends_at(mid, start, i2));
                        }
                    }
                    assert(self_tests_flushed(mid, start));
                }
                let passed: bool = if first_ok {
                    true
                } else {
                    let value = random_conv_value();
                    let second_ok = drv.test_int_conv(value).is_ok();
                    proof {
                        let post = drv.usart.sent();
                        assert(post == mid.push(
                            seq![Request::IntTest.code_spec(), u16_lo(value), u16_hi(value)],
                        ));
                        assert forall|i2: int|
                            start <= i2 < post.len() && is_self_test_frame(
                                #[trigger] post[i2],
                            ) implies discard_block_ends_at(post, start, i2) || (start < i2
                            && is_self_test_frame(post[i2 - 1]) && discard_block_ends_at(
                            post,
                            start,
                            i2 - 1,
                        )) by {
                            if i2 < mid.len() {
                                assert(post[i2] == mid[i2]);
                                assert(is_self_test_frame(mid[i2]));
                                if discard_block_ends_at(mid, start, i2) {
                                    assert(discard_block_ends_at(post, start, i2));
                                } else {
                                    assert(discard_block_ends_at(post, start, i2 - 1));
                                }
                            } else {
                                assert(i2 == mid.len());
                                assert(is_self_test_frame(post[i2 - 1]));
                                assert(discard_block_ends_at(pre, start, pre.len() as int));
                                assert(discard_block_ends_at(post, start, i2 - 1));
                            }
                        }
                        assert(self_tests_flushed(post, start));
                    }
                    second_ok
                };
                if passed {
                    hs = hs.step(HandshakeEvent::TestPassed);
                } else {
                    hs = hs.step(HandshakeEvent::TestFailed);
                }
            }
        }
        if hs.state == HandshakeState::Verified {
            let ghost pre2 = drv.usart.sent();
            match drv.get_board_info() {
                Ok(_info) => {
                    proof {
                        let post = drv.usart.sent();
                        assert(post == pre2.push(seq![Request::Info.code_spec()]));
                        assert(!is_self_test_frame(seq![Request::Info.code_spec()]));
                        assert forall|i2: int|
                            start <= i2 < post.len() && is_self_test_frame(
                                #[trigger] post[i2],
                            ) implies discard_block_ends_at(post, start, i2) || (start < i2
                            && is_self_test_frame(post[i2 - 1]) && discard_block_ends_at(
                            post,
                            start,
                            i2 - 1,
                        )) by {
                            assert(i2 < pre2.len());
                            assert(post[i2] == pre2[i2]);
                            assert(is_self_test_frame(pre2[i2]));
                            if discard_block_ends_at(pre2, start, i2) {
                                assert(discard_block_ends_at(post, start, i2));
                            } else {
                                assert(post[i2 - 1] == pre2[i2 - 1]);
                                assert(discard_block_ends_at(post, start, i2 - 1));
                            }
                        }
                        assert(self_tests_flushed(post, start));
                    }
                    Ok(drv)
                },
                Err(e) => Err(e),
            }
        } else {
            Err(
                Error::with_kind(
                    ErrorKind::HandshakeFailed,
                    "the connection test failed; are you using the newest version?",
                ),
            )
        }
    }

    /// Clears stale bytes on both sides of the line: clears the outbound
    /// buffer, sends the Discard request sixteen times with a short pause
    /// between sends so the device keeps pace, then clears the inbound
    /// buffer. Used before every handshake attempt and whenever framing
    /// desynchronization is suspected.
    pub fn discard(&mut self) -> (r: Result<(), Error>)
        ensures
            r is Ok ==> final(self).usart.sent() == old(self).usart.sent() + discard_frames(16)
                && final(self).usart.incoming() == Seq::<u8>::empty()
                && final(self).usart.output_flushes() == old(self).usart.output_flushes() + 1
                && final(self).usart.events() == old(self).usart.events() + discard_trace(),
            r is Err ==> r->Err_0.kind == ErrorKind::TransportIoFailed,
            old(self).usart.reliable() ==> r is Ok && final(self).usart.reliable(),
    {
        match self.usart.clear_output() {
            Ok(()) => {},
            Err(e) => { return Err(e); },
        }
        let empty: Vec<u8> = Vec::new();
        let mut i: usize = 0;
        while i < 16
            invariant
                i <= 16,
                empty@ == Seq::<u8>::empty(),
                self.usart.sent() == old(self).usart.sent() + discard_frames(i as int),
                self.usart.incoming() == old(self).usart.incoming(),
                self.usart.output_flushes() == old(self).usart.output_flushes() + 1,
                self.usart.events() == old(self).usart.events() + seq![
                    TransportEvent::ClearedOutput,
                ] + Seq::new(
                    i as nat,
                    |j: int| TransportEvent::Wrote(seq![Request::Discard.code_spec()]),
                ),
                old(self).usart.reliable() ==> self.usart.reliable(),
            decreases 16 - i,
        {
            let frame = encode(Request::Discard, empty.as_slice());
            match self.usart.write_frame(frame.as_slice()) {
                Ok(()) => {},
                Err(e) => { return Err(e); },
            }
            self.usart.settle();
            i += 1;
            proof {
                assert(frame@ =~= seq![Request::Discard.code_spec()]);
                assert(self.usart.sent() =~= old(self).usart.sent() + discard_frames(i as int));
                assert(self.usart.events() =~= old(self).usart.events() + seq![
                    TransportEvent::ClearedOutput,
                ] + Seq::new(
                    i as nat,
                    |j: int| TransportEvent::Wrote(seq![Request::Discard.code_spec()]),
                ));
            }
        }
        match self.usart.clear_input() {
            Ok(()) => {},
            Err(e) => { return Err(e); },
        }
        proof {
            assert(self.usart.sent() =~= old(self).usart.sent() + discard_frames(16));
            assert(self.usart.events() =~= old(self).usart.events() + discard_trace());
        }
        Ok(())
    }

    /// Sets the value of the digital output port `PORT`.
    ///
    /// The port is restricted to 0 or 1; any other value is rejected
    /// when the caller is verified, before any byte is sent. The value
    /// travels bit-reversed on the wire; the board answers with the ack
    /// sentinel, and any other answer is a `PortWriteFailed`.
    pub fn digital_write<const PORT: usize>(&mut self, value: u8) -> (r: Result<(), Error>)
        requires
            PORT == 0 || PORT == 1,
        ensures
            final(self).usart.sent() == old(self).usart.sent().push(
                seq![write_request(PORT).code_spec(), rev8(value)],
            ),
            final(self).usart.output_flushes() == old(self).usart.output_flushes(),
            r is Ok ==> old(self).usart.incoming().len() >= 1
                && old(self).usart.incoming()[0] == MSG_OK
                && final(self).usart.incoming() == old(self).usart.incoming().skip(1),
            r is Err ==> r->Err_0.kind == ErrorKind::TransportIoFailed || r->Err_0.kind
                == ErrorKind::PortWriteFailed,
            r is Err && r->Err_0.kind == ErrorKind::PortWriteFailed ==> ({
                let inc = old(self).usart.incoming();
                &&& inc.len() >= 1
                &&& inc[0] != MSG_OK
                &&& final(self).usart.incoming() == inc.skip(1)
                &&& r->Err_0.message@ == (if PORT == 0 {
                    "setting port 0 failed"@
                } else {
                    "setting port 1 failed"@
                })
            }),
            old(self).usart.reliable() ==> final(self).usart.reliable(),
            old(self).usart.reliable() && old(self).usart.incoming().len() >= 1 ==> (r is Ok <==>
                old(self).usart.incoming()[0] == MSG_OK),
            old(self).usart.reliable() && old(self).usart.incoming().len() >= 1 && old(
                self,
            ).usart.incoming()[0] != MSG_OK ==> r is Err && r->Err_0.kind
                == ErrorKind::PortWriteFailed,
    {
        assert_in_range::<PORT, 0, 1>();
        let reversed = reverse_bits(value);
        let request = if PORT == 0 {
            Request::DigitalWrite0
        } else {
            Request::DigitalWrite1
        };
        let mut payload: Vec<u8> = Vec::new();
        payload.push(reversed);
        let frame = encode(request, payload.as_slice());
        proof {
            assert(frame@ =~= seq![write_request(PORT).code_spec(), rev8(value)]);
        }
        match self.usart.write_frame(frame.as_slice()) {
            Ok(()) => {},
            Err(e) => { return Err(e); },
        }
        let aw = match read_sized(&mut self.usart, 1) {
            Ok(v) => v,
            Err(e) => { return Err(e); },
        };
        if aw[0] != MSG_OK {
            let message = if PORT == 0 {
                "setting port 0 failed"
            } else {
                "setting port 1 failed"
            };
            return Err(Error::with_kind(ErrorKind::PortWriteFailed, message));
        }
        Ok(())
    }

    /// Reads the value of the digital input port `PORT`.
    ///
    /// The port is restricted to 0 or 1; any other value is rejected
    /// when the caller is verified, before any byte is sent. The wire
    /// carries the value bit-reversed; the returned value is restored to
    /// host bit order.
    pub fn digital_read<const PORT: usize>(&mut self) -> (r: Result<u8, Error>)
        requires
            PORT == 0 || PORT == 1,
        ensures
            final(self).usart.sent() == old(self).usart.sent().push(
                seq![read_request(PORT).code_spec()],
            ),
            final(self).usart.output_flushes() == old(self).usart.output_flushes(),
            r is Ok ==> old(self).usart.incoming().len() >= 1 && r->Ok_0 == rev8(
                old(self).usart.incoming()[0],
            ) && final(self).usart.incoming() == old(self).usart.incoming().skip(1),
            r is Err ==> r->Err_0.kind == ErrorKind::TransportIoFailed,
            old(self).usart.reliable() ==> final(self).usart.reliable(),
            old(self).usart.reliable() && old(self).usart.incoming().len() >= 1 ==> r is Ok,
    {
        assert_in_range::<PORT, 0, 1>();
        let request = if PORT == 0 {
            Request::DigitalRead0
        } else {
            Request::DigitalRead1
        };
        let empty: Vec<u8> = Vec::new();
        let frame = encode(request, empty.as_slice());
        proof {
            assert(frame@ =~= seq![read_request(PORT).code_spec()]);
        }
        match self.usart.write_frame(frame.as_slice()) {
            Ok(()) => {},
            Err(e) => { return Err(e); },
        }
        let buf = match read_sized(&mut self.usart, 1) {
            Ok(v) => v,
            Err(e) => { return Err(e); },
        };
        Ok(reverse_bits(buf[0]))
    }

    /// Reads the DIP switch block. The value is returned as the board
    /// sends it.
    pub fn read_dip_switch(&mut self) -> (r: Result<u8, Error>)
        ensures
            final(self).usart.sent() == old(self).usart.sent().push(
                seq![Request::ReadDipSwitch.code_spec()],
            ),
            final(self).usart.output_flushes() == old(self).usart.output_flushes(),
            r is Ok ==> old(self).usart.incoming().len() >= 1 && r->Ok_0 == old(
                self,
            ).usart.incoming()[0] && final(self).usart.incoming() == old(
                self,
            ).usart.incoming().skip(1),
            r is Err ==> r->Err_0.kind == ErrorKind::TransportIoFailed,
            old(self).usart.reliable() ==> final(self).usart.reliable(),
            old(self).usart.reliable() && old(self).usart.incoming().len() >= 1 ==> r is Ok,
    {
        let empty: Vec<u8> = Vec::new();
        let frame = encode(Request::ReadDipSwitch, empty.as_slice());
        proof {
            assert(frame@ =~= seq![Request::ReadDipSwitch.code_spec()]);
        }
        match self.usart.write_frame(frame.as_slice()) {
            Ok(()) => {},
            Err(e) => { return Err(e); },
        }
        let buf = match read_sized(&mut self.usart, 1) {
            Ok(v) => v,
            Err(e) => { return Err(e); },
        };
        Ok(buf[0])
    }

    /// Reads one 8-bit microcontroller register, addressed by its
    /// variant.
    pub fn get_register(&mut self, register: DataRegister) -> (r: Result<u8, Error>)
        ensures
            final(self).usart.sent() == old(self).usart.sent().push(
                seq![Request::GetMem8.code_spec(), register.address_spec()],
            ),
            final(self).usart.output_flushes() == old(self).usart.output_flushes(),
            r is Ok ==> old(self).usart.incoming().len() >= 1 && r->Ok_0 == old(
                self,
            ).usart.incoming()[0] && final(self).usart.incoming() == old(
                self,
            ).usart.incoming().skip(1),
            r is Err ==> r->Err_0.kind == ErrorKind::TransportIoFailed,
            old(self).usart.reliable() ==> final(self).usart.reliable(),
            old(self).usart.reliable() && old(self).usart.incoming().len() >= 1 ==> r is Ok,
    {
        let mut payload: Vec<u8> = Vec::new();
        payload.push(register.address());
        let frame = encode(Request::GetMem8, payload.as_slice());
        proof {
            assert(frame@ =~= seq![Request::GetMem8.code_spec(), register.address_spec()]);
        }
        match self.usart.write_frame(frame.as_slice()) {
            Ok(()) => {},
            Err(e) => { return Err(e); },
        }
        let buf = match read_sized(&mut self.usart, 1) {
            Ok(v) => v,
            Err(e) => { return Err(e); },
        };
        Ok(buf[0])
    }

    /// Writes one 8-bit microcontroller register, addressed by its
    /// variant. The board answers with the ack sentinel; any other
    /// answer is a `PortWriteFailed`.
    pub fn set_register(&mut self, register: DataRegister, value: u8) -> (r: Result<(), Error>)
        ensures
            final(self).usart.sent() == old(self).usart.sent().push(
                seq![Request::SetMem8.code_spec(), register.address_spec(), value],
            ),
            final(self).usart.output_flushes() == old(self).usart.output_flushes(),
            r is Ok ==> old(self).usart.incoming().len() >= 1
                && old(self).usart.incoming()[0] == MSG_OK
                && final(self).usart.incoming() == old(self).usart.incoming().skip(1),
            r is Err ==> r->Err_0.kind == ErrorKind::TransportIoFailed || r->Err_0.kind
                == ErrorKind::PortWriteFailed,
            r is Err && r->Err_0.kind == ErrorKind::PortWriteFailed ==> ({
                let inc = old(self).usart.incoming();
                &&& inc.len() >= 1
                &&& inc[0] != MSG_OK
                &&& final(self).usart.incoming() == inc.skip(1)
            }),
            old(self).usart.reliable() ==> final(self).usart.reliable(),
            old(self).usart.reliable() && old(self).usart.incoming().len() >= 1 ==> (r is Ok <==>
                old(self).usart.incoming()[0] == MSG_OK),
            old(self).usart.reliable() && old(self).usart.incoming().len() >= 1 && old(
                self,
            ).usart.incoming()[0] != MSG_OK ==> r is Err && r->Err_0.kind
                == ErrorKind::PortWriteFailed,
    {
        let mut payload: Vec<u8> = Vec::new();
        payload.push(register.address());
        payload.push(value);
        let frame = encode(Request::SetMem8, payload.as_slice());
        proof {
            assert(frame@ =~= seq![
                Request::SetMem8.code_spec(),
                register.address_spec(),
                value,
            ]);
        }
        match self.usart.write_frame(frame.as_slice()) {
            Ok(()) => {},
            Err(e) => { return Err(e); },
        }
        let aw = match read_sized(&mut self.usart, 1) {
            Ok(v) => v,
            Err(e) => { return Err(e); },
        };
        if aw[0] != MSG_OK {
            return Err(Error::with_kind(ErrorKind::PortWriteFailed, "setting the register failed"));
        }
        Ok(())
    }

    /// Tests the connection to the board.
    ///
    /// A Test request is sent together with a randomly drawn byte; the
    /// board must answer with the ack sentinel followed by that byte.
    /// Success therefore means the second reply byte echoed the frame's
    /// payload exactly; any other pair is a `TestMismatch`.
    pub fn test_connection(&mut self) -> (r: Result<(), Error>)
        ensures
            r is Ok ==> old(self).usart.incoming().len() >= 2
                && old(self).usart.incoming()[0] == MSG_OK
                && final(self).usart.sent() == old(self).usart.sent().push(
                seq![Request::Test.code_spec(), old(self).usart.incoming()[1]],
            )
                && final(self).usart.incoming() == old(self).usart.incoming().skip(2)
                && final(self).usart.output_flushes() == old(self).usart.output_flushes(),
            r is Err ==> r->Err_0.kind == ErrorKind::TransportIoFailed || r->Err_0.kind
                == ErrorKind::TestMismatch,
            r is Err && r->Err_0.kind == ErrorKind::TestMismatch ==> ({
                let inc = old(self).usart.incoming();
                let sent = final(self).usart.sent();
                &&& inc.len() >= 2
                &&& sent.len() == old(self).usart.sent().len() + 1
                &&& sent.last().len() == 2
                &&& sent.last()[0] == Request::Test.code_spec()
                &&& !(inc[0] == MSG_OK && inc[1] == sent.last()[1])
                &&& final(self).usart.incoming() == inc.skip(2)
                &&& final(self).usart.output_flushes() == old(self).usart.output_flushes()
            }),
            old(self).usart.reliable() ==> final(self).usart.reliable(),
            old(self).usart.reliable() && old(self).usart.incoming().len() >= 2 ==> (r is Ok || r
                is Err && r->Err_0.kind == ErrorKind::TestMismatch),
            final(self).usart.output_flushes() == old(self).usart.output_flushes(),
            exists|b: u8|
                final(self).usart.sent() == old(self).usart.sent().push(
                    seq![Request::Test.code_spec(), b],
                ),
    {
        let dummy = random_byte();
        let mut payload: Vec<u8> = Vec::new();
        payload.push(dummy);
        let frame = encode(Request::Test, payload.as_slice());
        proof {
            assert(frame@ =~= seq![Request::Test.code_spec(), dummy]);
        }
        match self.usart.write_frame(frame.as_slice()) {
            Ok(()) => {},
            Err(e) => { return Err(e); },
        }
        let buf = match read_sized(&mut self.usart, 2) {
            Ok(v) => v,
            Err(e) => { return Err(e); },
        };
        check_test_reply(dummy, buf[0], buf[1])
    }

    /// Tests the integer conversion of the connection.
    ///
    /// The value is sent as two little-endian bytes with an IntTest
    /// request; the board must answer with three times the value,
    /// little-endian. Any other reply is an `IntConversionMismatch`.
    pub fn test_int_conv(&mut self, value: u16) -> (r: Result<(), Error>)
        requires
            value <= 0xFFFFint / 3,
        ensures
            final(self).usart.sent() == old(self).usart.sent().push(
                seq![Request::IntTest.code_spec(), u16_lo(value), u16_hi(value)],
            ),
            final(self).usart.output_flushes() == old(self).usart.output_flushes(),
            r is Ok ==> old(self).usart.incoming().len() >= 2 && u16_le(
                old(self).usart.incoming()[0],
                old(self).usart.incoming()[1],
            ) == 3 * value && final(self).usart.incoming() == old(self).usart.incoming().skip(2),
            r is Err ==> r->Err_0.kind == ErrorKind::TransportIoFailed || r->Err_0.kind
                == ErrorKind::IntConversionMismatch,
            r is Err && r->Err_0.kind == ErrorKind::IntConversionMismatch ==> ({
                let inc = old(self).usart.incoming();
                &&& inc.len() >= 2
                &&& u16_le(inc[0], inc[1]) != 3 * value
                &&& final(self).usart.incoming() == inc.skip(2)
            }),
            old(self).usart.reliable() ==> final(self).usart.reliable(),
            old(self).usart.reliable() && old(self).usart.incoming().len() >= 2 ==> (r is Ok <==>
                u16_le(old(self).usart.incoming()[0], old(self).usart.incoming()[1]) == 3 * value),
            old(self).usart.reliable() && old(self).usart.incoming().len() >= 2 && u16_le(
                old(self).usart.incoming()[0],
                old(self).usart.incoming()[1],
            ) != 3 * value ==> r is Err && r->Err_0.kind == ErrorKind::IntConversionMismatch,
    {
        let (lo, hi) = u16_to_le(value);
        let mut payload: Vec<u8> = Vec::new();
        payload.push(lo);
        payload.push(hi);
        let frame = encode(Request::IntTest, payload.as_slice());
        proof {
            assert(frame@ =~= seq![Request::IntTest.code_spec(), u16_lo(value), u16_hi(value)]);
        }
        match self.usart.write_frame(frame.as_slice()) {
            Ok(()) => {},
            Err(e) => { return Err(e); },
        }
        let buf = match read_sized(&mut self.usart, 2) {
            Ok(v) => v,
            Err(e) => { return Err(e); },
        };
        check_int_conv_reply(value, buf[0], buf[1])
    }

    /// Yields the information strings stored in the board's firmware:
    /// one Info exchange returning a count-prefixed sequence of
    /// length-prefixed strings, terminated by the ack sentinel. Each
    /// string is decoded from raw bytes as Latin-1 characters. A reply
    /// not terminated by the sentinel is a `BoardInfoMalformed`.
    pub fn get_board_info(&mut self) -> (r: Result<Vec<String>, Error>)
        ensures
            final(self).usart.sent() == old(self).usart.sent().push(
                seq![Request::Info.code_spec()],
            ),
            final(self).usart.output_flushes() == old(self).usart.output_flushes(),
            r is Ok ==> ({
                let inc = old(self).usart.incoming();
                &&& parse_info(inc) is Some
                &&& string_views(r->Ok_0@) == latin1_seq(parse_info(inc)->Some_0.0)
                &&& final(self).usart.incoming() == inc.skip(parse_info(inc)->Some_0.1)
            }),
            r is Err ==> r->Err_0.kind == ErrorKind::TransportIoFailed || r->Err_0.kind
                == ErrorKind::BoardInfoMalformed,
            r is Err && r->Err_0.kind == ErrorKind::BoardInfoMalformed ==> ({
                let inc = old(self).usart.incoming();
                &&& parse_info(inc) is None
                &&& inc.len() >= 1
                &&& parse_strings(inc.skip(1), inc[0] as nat) is Some
                &&& final(self).usart.incoming() == inc.skip(
                    2 + parse_strings(inc.skip(1), inc[0] as nat)->Some_0.1,
                )
            }),
            old(self).usart.reliable() ==> final(self).usart.reliable(),
            old(self).usart.reliable() && parse_info(old(self).usart.incoming()) is Some ==> r
                is Ok,
            ({
                let inc = old(self).usart.incoming();
                old(self).usart.reliable() && info_reply_complete(inc) && inc[1 + parse_strings(
                    inc.skip(1),
                    inc[0] as nat,
                )->Some_0.1] != MSG_OK
            }) ==> r is Err && r->Err_0.kind == ErrorKind::BoardInfoMalformed,
    {
        let ghost inc0 = old(self).usart.incoming();
        let empty: Vec<u8> = Vec::new();
        let frame = encode(Request::Info, empty.as_slice());
        proof {
            assert(frame@ =~= seq![Request::Info.code_spec()]);
        }
        match self.usart.write_frame(frame.as_slice()) {
            Ok(()) => {},
            Err(e) => { return Err(e); },
        }
        let countbuf = match read_sized(&mut self.usart, 1) {
            Ok(v) => v,
            Err(e) => { return Err(e); },
        };
        let count = countbuf[0];
        let mut info: Vec<String> = Vec::new();
        let mut remaining = count;
        let ghost mut used: int = 0;
        let ghost mut done: Seq<Seq<u8>> = Seq::empty();
        proof {
            match parse_strings(inc0.skip(1), count as nat) {
                Some(t) => {
                    assert(Seq::<Seq<u8>>::empty() + t.0 =~= t.0);
                },
                None => {},
            }
        }
        while remaining > 0
            invariant
                0 <= used,
                remaining <= count,
                inc0 == old(self).usart.incoming(),
                inc0.len() >= 1,
                inc0[0] == count,
                self.usart.incoming() == inc0.skip(1 + used),
                self.usart.sent() == old(self).usart.sent().push(seq![Request::Info.code_spec()]),
                self.usart.output_flushes() == old(self).usart.output_flushes(),
                1 + used <= inc0.len(),
                old(self).usart.reliable() ==> self.usart.reliable(),
                old(self).usart.reliable() && info_reply_complete(inc0) ==> parse_strings(
                    inc0.skip(1 + used),
                    remaining as nat,
                ) is Some,
                string_views(info@) == latin1_seq(done),
                ({
                    match parse_strings(inc0.skip(1 + used), remaining as nat) {
                        None => parse_strings(inc0.skip(1), count as nat) is None,
                        Some(t) => parse_strings(inc0.skip(1), count as nat) == Some(
                            (done + t.0, used + t.1),
                        ),
                    }
                }),
            decreases remaining,
        {
            let lenbuf = match read_sized(&mut self.usart, 1) {
                Ok(v) => v,
                Err(e) => {
                    proof {
                        let cur = inc0.skip(1 + used);
                        assert(parse_info(inc0) is Some ==> info_reply_complete(inc0));
                        assert(!(old(self).usart.reliable() && info_reply_complete(inc0))) by {
                            if old(self).usart.reliable() && info_reply_complete(inc0) {
                                assert(parse_strings(cur, remaining as nat) is Some);
                                assert(cur.len() >= 1);
                                assert(false);
                            }
                        }
                    }
                    return Err(e);
                },
            };
            let len = lenbuf[0];
            let data = match read_sized(&mut self.usart, len as usize) {
                Ok(v) => v,
                Err(e) => {
                    proof {
                        let cur = inc0.skip(1 + used);
                        let l = len as int;
                        assert(parse_info(inc0) is Some ==> info_reply_complete(inc0));
                        assert(!(old(self).usart.reliable() && info_reply_complete(inc0))) by {
                            if old(self).usart.reliable() && info_reply_complete(inc0) {
                                assert(parse_strings(cur, remaining as nat) is Some);
                                assert(lenbuf@[0] == cur[0]);
                                assert(cur.len() >= 1 + l);
                                assert(false);
                            }
                        }
                    }
                    return Err(e);
                },
            };
            let s = latin1_decode(&data);
            let ghost sv = s@;
            let ghost prev_info = info@;
            info.push(s);
            self.usart.settle();
            proof {
                let cur = inc0.skip(1 + used);
                let l = len as int;
                assert(cur.len() == inc0.len() - 1 - used);
                assert(cur.len() >= 1 + l);
                assert(data@ =~= cur.subrange(1, 1 + l));
                assert(cur.skip(1).skip(l) =~= cur.skip(1 + l));
                assert(inc0.skip(1 + used).skip(1 + l) =~= inc0.skip(1 + used + 1 + l));
                match parse_strings(cur.skip(1 + l), (remaining - 1) as nat) {
                    None => {
                        assert(parse_strings(cur, remaining as nat) is None);
                    },
                    Some(t) => {
                        assert(parse_strings(cur, remaining as nat) == Some(
                            (seq![data@] + t.0, 1 + l + t.1),
                        ));
                        assert(done + (seq![data@] + t.0) =~= done.push(data@) + t.0);
                    },
                }
                assert(string_views(prev_info) == latin1_seq(done));
                assert(string_views(prev_info).len() == prev_info.len());
                assert(latin1_seq(done).len() == done.len());
                assert(prev_info.len() == done.len());
                assert forall|k: int| 0 <= k < info@.len() implies string_views(info@)[k]
                    == latin1_seq(done.push(data@))[k] by {
                    if k < prev_info.len() {
                        assert(string_views(prev_info)[k] == prev_info[k]@);
                        assert(latin1_seq(done)[k] == latin1(done[k]));
                        assert(info@[k] == prev_info[k]);
                    } else {
                        assert(info@[k]@ == sv);
                        assert(sv == latin1(data@));
                    }
                }
                assert(string_views(info@) =~= latin1_seq(done.push(data@)));
                done = done.push(data@);
                used = used + 1 + l;
            }
            remaining -= 1;
        }
        proof {
            let cur = inc0.skip(1 + used);
            assert(cur.len() == inc0.len() - 1 - used);
            assert(parse_strings(cur, 0nat) == Some((Seq::<Seq<u8>>::empty(), 0int)));
            assert(done + Seq::<Seq<u8>>::empty() =~= done);
            assert(parse_strings(inc0.skip(1), count as nat) == Some((done, used)));
        }
        let awbuf = match read_sized(&mut self.usart, 1) {
            Ok(v) => v,
            Err(e) => { return Err(e); },
        };
        proof {
            let cur = inc0.skip(1 + used);
            assert(awbuf@[0] == cur[0]);
            assert(self.usart.incoming() =~= inc0.skip(used + 2));
        }
        if awbuf[0] != MSG_OK {
            proof {
                assert(inc0[1 + used] != MSG_OK);
                assert(parse_info(inc0) is None);
            }
            return Err(
                Error::with_kind(ErrorKind::BoardInfoMalformed, "the board info reply is faulty"),
            );
        }
        proof {
            assert(inc0[1 + used] == MSG_OK);
            assert(parse_info(inc0) == Some((done, used + 2)));
        }
        Ok(info)
    }
}

} // verus!
