use std::cell::RefCell;
use std::rc::Rc;

use b15f::b15f::B15F;
use b15f::error::{Error, ErrorKind};
use b15f::handshake::{Handshake, HandshakeEvent, HandshakeState};
use b15f::usart::Transport;

/// The observable half of a simulated device: its reply queue, the
/// frames it received, its latched output ports, and how many self-test
/// exchanges it will still answer wrongly.
struct DeviceState {
    queue: Vec<u8>,
    frames: Vec<Vec<u8>>,
    ports: [u8; 2],
    failing_tests: u64,
}

impl DeviceState {
    fn discard_frames(&self) -> usize {
        self.frames.iter().filter(|f| f[0] == 0).count()
    }
}

/// A device on the other end of the line that speaks the protocol: it
/// acknowledges writes, echoes on reads, and answers the self-tests.
/// The first `failing_tests` self-test exchanges are answered wrongly,
/// to exercise the retry loop. State is shared so a test can inspect it
/// after the driver hand-over failed.
struct EchoDevice {
    state: Rc<RefCell<DeviceState>>,
}

impl EchoDevice {
    fn new(failing_tests: u64) -> (EchoDevice, Rc<RefCell<DeviceState>>) {
        let state = Rc::new(RefCell::new(DeviceState {
            queue: Vec::new(),
            frames: Vec::new(),
            ports: [0, 0],
            failing_tests,
        }));
        (EchoDevice { state: state.clone() }, state)
    }
}

impl Transport for EchoDevice {
    fn write_frame(&mut self, data: &[u8]) -> Result<(), Error> {
        let mut st = self.state.borrow_mut();
        st.frames.push(data.to_vec());
        match data[0] {
            0 => {}
            1 => {
                if st.failing_tests > 0 {
                    st.failing_tests -= 1;
                    st.queue.extend_from_slice(&[0x00, 0x00]);
                } else {
                    st.queue.extend_from_slice(&[0xFF, data[1]]);
                }
            }
            2 => st.queue.extend_from_slice(&[0x00, 0xFF]),
            3 => {
                if st.failing_tests > 0 {
                    st.failing_tests -= 1;
                    // 1 is never three times a 16-bit value.
                    st.queue.extend_from_slice(&[0x01, 0x00]);
                } else {
                    let u = u16::from_le_bytes([data[1], data[2]]);
                    let reply = u.wrapping_mul(3).to_le_bytes();
                    st.queue.extend_from_slice(&reply);
                }
            }
            5 | 6 => {
                let p = (data[0] - 5) as usize;
                st.ports[p] = data[1];
                st.queue.push(0xFF);
            }
            7 | 8 => {
                let v = st.ports[(data[0] - 7) as usize];
                st.queue.push(v);
            }
            _ => {}
        }
        Ok(())
    }

    fn read_exact(&mut self, count: usize) -> Result<Vec<u8>, Error> {
        let mut st = self.state.borrow_mut();
        if count > st.queue.len() {
            return Err(Error::new("read timed out"));
        }
        let rest = st.queue.split_off(count);
        Ok(std::mem::replace(&mut st.queue, rest))
    }

    fn clear_input(&mut self) -> Result<(), Error> {
        self.state.borrow_mut().queue.clear();
        Ok(())
    }

    fn clear_output(&mut self) -> Result<(), Error> {
        Ok(())
    }

    fn settle(&mut self) {}
}

#[test]
fn connecting_to_a_sound_device_succeeds_on_the_first_attempt() {
    let (dev, state) = EchoDevice::new(0);
    assert!(B15F::new(dev).is_ok());
    assert_eq!(state.borrow().discard_frames(), 16);
}

#[test]
fn test_connection_succeeds_against_an_echoing_device() {
    let (dev, _state) = EchoDevice::new(0);
    let mut drv = B15F { usart: dev };
    assert!(drv.test_connection().is_ok());
    assert!(drv.test_int_conv(0x1234).is_ok());
}

#[test]
fn handshake_succeeds_on_the_third_attempt() {
    // Attempts 1 and 2 fail both self-tests; attempt 3 passes.
    let (dev, state) = EchoDevice::new(4);
    assert!(B15F::new(dev).is_ok());
    assert_eq!(state.borrow().discard_frames(), 48);
}

#[test]
fn handshake_fails_after_three_spent_attempts() {
    let (dev, state) = EchoDevice::new(6);
    let e = match B15F::new(dev) {
        Err(e) => e,
        Ok(_) => panic!("the handshake should have failed"),
    };
    assert_eq!(e.kind, ErrorKind::HandshakeFailed);
    // Exactly three discard/test cycles ran, and no more.
    assert_eq!(state.borrow().discard_frames(), 48);
}

#[test]
fn handshake_never_exceeds_three_cycles() {
    // Even a device that always answers wrongly sees exactly three
    // discard/test cycles of sixteen discard frames each.
    let (dev, state) = EchoDevice::new(u64::MAX);
    let e = match B15F::new(dev) {
        Err(e) => e,
        Ok(_) => panic!("the handshake should have failed"),
    };
    assert_eq!(e.kind, ErrorKind::HandshakeFailed);
    assert_eq!(state.borrow().discard_frames(), 48);
}

#[test]
fn state_machine_walks_the_documented_path() {
    let hs = Handshake::init();
    assert_eq!(hs.state, HandshakeState::Disconnected);
    assert_eq!(hs.tries_left, 3);
    let hs = hs.step(HandshakeEvent::Opened);
    assert_eq!(hs.state, HandshakeState::PortOpened);
    let hs = hs.step(HandshakeEvent::Begin);
    assert_eq!(hs.state, HandshakeState::Discarding);
    let hs = hs.step(HandshakeEvent::Flushed);
    assert_eq!(hs.state, HandshakeState::Testing);
    let hs = hs.step(HandshakeEvent::TestPassed);
    assert_eq!(hs.state, HandshakeState::Verified);
}

#[test]
fn state_machine_verifies_on_the_third_attempt() {
    let mut hs = Handshake::init();
    hs = hs.step(HandshakeEvent::Opened);
    hs = hs.step(HandshakeEvent::Begin);
    for _ in 0..2 {
        hs = hs.step(HandshakeEvent::Flushed);
        hs = hs.step(HandshakeEvent::TestFailed);
        assert_eq!(hs.state, HandshakeState::Discarding);
    }
    hs = hs.step(HandshakeEvent::Flushed);
    hs = hs.step(HandshakeEvent::TestPassed);
    assert_eq!(hs.state, HandshakeState::Verified);
}

#[test]
fn state_machine_fails_after_three_failed_attempts() {
    let mut hs = Handshake::init();
    hs = hs.step(HandshakeEvent::Opened);
    hs = hs.step(HandshakeEvent::Begin);
    for _ in 0..3 {
        hs = hs.step(HandshakeEvent::Flushed);
        hs = hs.step(HandshakeEvent::TestFailed);
    }
    assert_eq!(hs.state, HandshakeState::Failed);
    // Failed is terminal: no event recovers it.
    let stuck = hs.step(HandshakeEvent::TestPassed);
    assert_eq!(stuck.state, HandshakeState::Failed);
}
