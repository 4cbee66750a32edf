//! The serial transport abstraction.
//!
//! The protocol engine reaches the serial line only through the
//! [`Transport`] trait. A transport is modelled by three quantities: the
//! frames handed to `write_frame` since it was opened, the bytes that are
//! queued for reading, and the number of times its outbound buffer was
//! cleared. The contracts describe one synchronous request/response
//! exchange at a time: reading consumes queued bytes from the front,
//! writing never disturbs them. An integrating application implements
//! this trait over a real serial line; [`crate::sim::SimTransport`] is a
//! verified in-memory implementation used to exercise the engine.

use vstd::prelude::*;
use crate::error::{Error, ErrorKind};

verus! {

/// One observable action of a transport, as recorded in its event log.
pub enum TransportEvent {
    /// A frame was handed to `write_frame`.
    Wrote(Seq<u8>),
    /// Bytes were taken from the front of the read queue.
    Got(Seq<u8>),
    /// The inbound buffer was emptied.
    ClearedInput,
    /// The outbound buffer was cleared.
    ClearedOutput,
}

/// A byte transport with blocking reads and writes and clearable buffers.
pub trait Transport: Sized {
    /// The bytes queued for reading, front first. An implementation
    /// that does not model its queue leaves the default, of which
    /// nothing useful holds.
    open spec fn incoming(&self) -> Seq<u8> {
        Seq::empty()
    }

    /// The ordered log of this transport's actions since it was opened.
    /// It fixes what `sent` and the flush count cannot: in which order
    /// writes and buffer clears happened.
    open spec fn events(&self) -> Seq<TransportEvent> {
        Seq::empty()
    }

    /// The frames handed to `write_frame` since the transport was
    /// opened.
    open spec fn sent(&self) -> Seq<Seq<u8>> {
        Seq::empty()
    }

    /// How many times the outbound buffer has been cleared.
    open spec fn output_flushes(&self) -> nat {
        0
    }

    /// Whether this transport never fails: writes, reads of available
    /// bytes, and clears all succeed. A real serial line cannot claim
    /// this and leaves the default; a verified in-memory transport
    /// overrides it, which makes the success halves of the protocol
    /// properties provable against it.
    open spec fn reliable(&self) -> bool {
        false
    }

    /// Writes one request frame. The frame counts as handed to the
    /// transport whether or not the write succeeded, so the frame log
    /// grows on every outcome.
    fn write_frame(&mut self, data: &[u8]) -> (r: Result<(), Error>)
        ensures
            final(self).sent() == old(self).sent().push(data@),
            final(self).incoming() == old(self).incoming(),
            final(self).output_flushes() == old(self).output_flushes(),
            final(self).events() == old(self).events().push(TransportEvent::Wrote(data@)),
            r is Err ==> r->Err_0.kind == ErrorKind::TransportIoFailed,
            old(self).reliable() ==> r is Ok && final(self).reliable(),
    ;

    /// Reads exactly `count` bytes, blocking up to the read timeout.
    /// Fewer available bytes than requested is an error, never a
    /// truncated value. Reading never hands out frames or clears the
    /// outbound buffer.
    fn read_exact(&mut self, count: usize) -> (r: Result<Vec<u8>, Error>)
        ensures
            final(self).sent() == old(self).sent(),
            final(self).output_flushes() == old(self).output_flushes(),
            r is Ok ==> count <= old(self).incoming().len()
                && r->Ok_0@ == old(self).incoming().take(count as int)
                && final(self).incoming() == old(self).incoming().skip(count as int)
                && final(self).events() == old(self).events().push(
                TransportEvent::Got(old(self).incoming().take(count as int)),
            ),
            r is Err ==> r->Err_0.kind == ErrorKind::TransportIoFailed,
            old(self).reliable() ==> final(self).reliable(),
            old(self).reliable() && count <= old(self).incoming().len() ==> r is Ok,
    ;

    /// Drops every byte queued for reading. Clearing the inbound
    /// buffer never hands out frames or clears the outbound buffer.
    fn clear_input(&mut self) -> (r: Result<(), Error>)
        ensures
            final(self).sent() == old(self).sent(),
            final(self).output_flushes() == old(self).output_flushes(),
            r is Ok ==> final(self).incoming() == Seq::<u8>::empty() && final(self).events()
                == old(self).events().push(TransportEvent::ClearedInput),
            r is Err ==> r->Err_0.kind == ErrorKind::TransportIoFailed,
            old(self).reliable() ==> r is Ok && final(self).reliable(),
    ;

    /// Clears the outbound buffer. It never hands out frames or
    /// touches the read queue.
    fn clear_output(&mut self) -> (r: Result<(), Error>)
        ensures
            final(self).sent() == old(self).sent(),
            final(self).incoming() == old(self).incoming(),
            r is Ok ==> final(self).output_flushes() == old(self).output_flushes() + 1
                && final(self).events() == old(self).events().push(TransportEvent::ClearedOutput),
            r is Err ==> r->Err_0.kind == ErrorKind::TransportIoFailed,
            old(self).reliable() ==> r is Ok && final(self).reliable(),
    ;

    /// Pauses briefly so the board can keep pace with back-to-back
    /// requests.
    fn settle(&mut self)
        ensures
            final(self).incoming() == old(self).incoming(),
            final(self).sent() == old(self).sent(),
            final(self).output_flushes() == old(self).output_flushes(),
            final(self).events() == old(self).events(),
            old(self).reliable() ==> final(self).reliable(),
    ;
}

/// Reads exactly `count` bytes from a transport.
pub fn read_sized<T: Transport>(usart: &mut T, count: usize) -> (r: Result<Vec<u8>, Error>)
    ensures
        final(usart).sent() == old(usart).sent(),
        final(usart).output_flushes() == old(usart).output_flushes(),
        r is Ok ==> count <= old(usart).incoming().len()
            && r->Ok_0@ == old(usart).incoming().take(count as int)
            && r->Ok_0@.len() == count
            && final(usart).incoming() == old(usart).incoming().skip(count as int),
        r is Err ==> r->Err_0.kind == ErrorKind::TransportIoFailed,
        old(usart).reliable() ==> final(usart).reliable(),
        old(usart).reliable() && count <= old(usart).incoming().len() ==> r is Ok,
{
    usart.read_exact(count)
}

} // verus!
