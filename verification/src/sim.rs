//! A verified in-memory transport.
//!
//! [`SimTransport`] plays the role of a device on the bench: bytes fed to
//! it are handed out by `read_exact` in order, and every frame written to
//! it is recorded. It implements [`Transport`] exactly as the trait's
//! contracts describe, so the protocol engine can be exercised end to end
//! without a serial line.

use vstd::prelude::*;
use crate::error::Error;
use crate::usart::{Transport, TransportEvent};

verus! {

/// An in-memory transport: a queue of bytes to hand out and a log of the
/// frames written to it.
pub struct SimTransport {
    script: Vec<u8>,
    frames: Vec<Vec<u8>>,
    flushes: Ghost<nat>,
    log: Ghost<Seq<TransportEvent>>,
}

impl SimTransport {
    /// Creates a transport with nothing queued and nothing recorded.
    pub fn new() -> (r: SimTransport)
        ensures
            r.incoming() == Seq::<u8>::empty(),
            r.sent() == Seq::<Seq<u8>>::empty(),
            r.output_flushes() == 0,
            r.events() == Seq::<TransportEvent>::empty(),
            r.reliable(),
    {
        let r = SimTransport {
            script: Vec::new(),
            frames: Vec::new(),
            flushes: Ghost(0),
            log: Ghost(Seq::empty()),
        };
        proof {
            assert(r.sent() =~= Seq::<Seq<u8>>::empty());
        }
        r
    }

    /// Queues bytes for the engine to read, behind what is already queued.
    pub fn feed(&mut self, bytes: &[u8])
        ensures
            final(self).incoming() == old(self).incoming() + bytes@,
            final(self).sent() == old(self).sent(),
            final(self).output_flushes() == old(self).output_flushes(),
            final(self).events() == old(self).events(),
            final(self).reliable(),
    {
        let mut j: usize = 0;
        while j < bytes.len()
            invariant
                j <= bytes.len(),
                self.script@ == old(self).script@ + bytes@.take(j as int),
                self.frames == old(self).frames,
                self.flushes == old(self).flushes,
                self.log == old(self).log,
            decreases bytes.len() - j,
        {
            let b = bytes[j];
            self.script.push(b);
            j += 1;
            proof {
                assert(self.script@ =~= old(self).script@ + bytes@.take(j as int));
            }
        }
        proof {
            assert(self.script@ =~= old(self).script@ + bytes@);
        }
    }

    /// How many bytes are still queued for reading.
    pub fn pending(&self) -> (r: usize)
        ensures
            r == self.incoming().len(),
    {
        self.script.len()
    }

    /// How many frames have been written to this transport.
    pub fn frames_sent(&self) -> (r: usize)
        ensures
            r == self.sent().len(),
    {
        self.frames.len()
    }

    /// Returns a copy of the `i`-th frame written to this transport.
    pub fn frame(&self, i: usize) -> (r: Vec<u8>)
        requires
            i < self.sent().len(),
        ensures
            r@ == self.sent()[i as int],
    {
        let f: &Vec<u8> = &self.frames[i];
        let mut out: Vec<u8> = Vec::new();
        let mut j: usize = 0;
        while j < f.len()
            invariant
                j <= f.len(),
                out@ == f@.take(j as int),
            decreases f.len() - j,
        {
            out.push(f[j]);
            j += 1;
            proof {
                assert(out@ =~= f@.take(j as int));
            }
        }
        proof {
            assert(out@ =~= f@);
        }
        out
    }
}

impl Transport for SimTransport {
    closed spec fn incoming(&self) -> Seq<u8> {
        self.script@
    }

    closed spec fn sent(&self) -> Seq<Seq<u8>> {
        self.frames@.map_values(|f: Vec<u8>| f@)
    }

    closed spec fn output_flushes(&self) -> nat {
        self.flushes@
    }

    closed spec fn reliable(&self) -> bool {
        true
    }

    closed spec fn events(&self) -> Seq<TransportEvent> {
        self.log@
    }

    fn write_frame(&mut self, data: &[u8]) -> (r: Result<(), Error>) {
        let copy = vstd::slice::slice_to_vec(data);
        self.frames.push(copy);
        self.log = Ghost(self.log@.push(TransportEvent::Wrote(data@)));
        proof {
            assert(self.sent() =~= old(self).sent().push(data@));
        }
        Ok(())
    }

    fn read_exact(&mut self, count: usize) -> (r: Result<Vec<u8>, Error>) {
        if count > self.script.len() {
            return Err(Error::new("read timed out"));
        }
        let mut out: Vec<u8> = Vec::new();
        let mut i: usize = 0;
        while i < count
            invariant
                i <= count,
                count <= self.script.len(),
                out@ == self.script@.take(i as int),
                self.script == old(self).script,
                self.frames == old(self).frames,
                self.flushes == old(self).flushes,
                self.log == old(self).log,
            decreases count - i,
        {
            out.push(self.script[i]);
            i += 1;
            proof {
                assert(out@ =~= self.script@.take(i as int));
            }
        }
        self.log = Ghost(self.log@.push(TransportEvent::Got(out@)));
        let tail = self.script.split_off(count);
        self.script = tail;
        proof {
            assert(self.incoming() =~= old(self).incoming().skip(count as int));
            assert(self.sent() =~= old(self).sent());
        }
        Ok(out)
    }

    fn clear_input(&mut self) -> (r: Result<(), Error>) {
        self.script.clear();
        self.log = Ghost(self.log@.push(TransportEvent::ClearedInput));
        proof {
            assert(self.incoming() =~= Seq::<u8>::empty());
        }
        Ok(())
    }

    fn clear_output(&mut self) -> (r: Result<(), Error>) {
        self.flushes = Ghost(self.flushes@ + 1);
        self.log = Ghost(self.log@.push(TransportEvent::ClearedOutput));
        Ok(())
    }

    fn settle(&mut self) {
    }
}

} // verus!
