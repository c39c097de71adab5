//! The byte-stream abstraction the client drives. A stream is modelled by
//! two ghost byte sequences: `incoming`, the bytes it will deliver to the
//! reader in order, and `sent`, the bytes the writer has handed to it. The
//! read and write capabilities are separate traits over that shared model,
//! so a read-only or write-only stream still gets the matching half of the
//! client's API.
use vstd::prelude::*;

verus! {

/// A failure of the underlying stream, carried to the caller unchanged as
/// an implementation-defined code.
#[derive(Clone, Copy, Debug, PartialEq, Eq, Structural)]
pub struct StreamError {
    pub code: i32,
}

/// The ghost model every stream carries: what remains to be delivered and
/// what has been handed over so far.
pub trait StreamModel {
    /// The bytes the stream will deliver to its reader, in order. A
    /// write-only stream can leave the default, an empty model.
    open spec fn incoming(&self) -> Seq<u8> {
        Seq::empty()
    }

    /// The bytes handed to the stream by its writer so far. A read-only
    /// stream can leave the default, an empty model.
    open spec fn sent(&self) -> Seq<u8> {
        Seq::empty()
    }

    /// Whether a stream of this kind, with `bs` left to deliver, may
    /// answer a read with "no data yet". The default says it always may —
    /// all a real link offers, since its bytes arrive when they arrive. A
    /// stream whose pending bytes are at hand narrows it, and a reader
    /// timing out against such a stream is then known to have drained it.
    open spec fn may_stall(bs: Seq<u8>) -> bool {
        true
    }

    /// Whether this stream promises that its operations keep succeeding.
    /// The default promises nothing; the in-memory stream is reliable
    /// while none of its fail switches is set.
    open spec fn reliable(&self) -> bool {
        false
    }
}

/// The read capability: a non-blocking single-byte read. `Ok(None)` means
/// no data is available yet and is a signal to keep waiting, never an
/// error.
pub trait ReadStream: StreamModel {
    /// Delivers the next incoming byte if one is available. Bytes arrive in
    /// order, none is invented, and neither a quiet poll nor a failure
    /// consumes or sends anything; a quiet poll is possible only where the
    /// stream may stall, and a reliable stream never fails.
    fn read_byte(&mut self) -> (r: Result<Option<u8>, StreamError>)
        ensures
            final(self).sent() == old(self).sent(),
            final(self).reliable() == old(self).reliable(),
            old(self).reliable() ==> r is Ok,
            match r {
                Ok(Some(b)) => old(self).incoming().len() > 0 && b == old(self).incoming()[0]
                    && final(self).incoming() == old(self).incoming().skip(1),
                Ok(None) => final(self).incoming() == old(self).incoming() && Self::may_stall(
                    old(self).incoming(),
                ),
                Err(_) => final(self).incoming() == old(self).incoming(),
            },
    ;
}

/// The write capability: an all-or-error write plus a flush. A failed
/// write makes no promise about what was handed over; neither operation
/// touches the incoming side.
pub trait WriteStream: StreamModel {
    fn write_bytes(&mut self, buf: &[u8]) -> (r: Result<(), StreamError>)
        ensures
            final(self).incoming() == old(self).incoming(),
            final(self).reliable() == old(self).reliable(),
            old(self).reliable() ==> r is Ok,
            r is Ok ==> final(self).sent() == old(self).sent() + buf@,
    ;

    fn flush(&mut self) -> (r: Result<(), StreamError>)
        ensures
            final(self).incoming() == old(self).incoming(),
            final(self).sent() == old(self).sent(),
            final(self).reliable() == old(self).reliable(),
            old(self).reliable() ==> r is Ok,
    ;
}

/// An in-memory stream: it delivers a fixed script of bytes and records
/// everything written to it, with switches that make any operation fail.
/// It is the library's own verified stand-in for a serial link, and what
/// the tests run the client against.
pub struct MemoryStream {
    /// The bytes this stream will deliver, in order.
    pub script: Vec<u8>,
    /// How many of them have been delivered already.
    pub delivered: usize,
    /// Everything handed to the stream by its writer.
    pub written: Vec<u8>,
    pub fail_reads: bool,
    pub fail_writes: bool,
    pub fail_flush: bool,
    /// The code every simulated failure carries.
    pub fault_code: i32,
}

impl MemoryStream {
    /// A healthy stream that will deliver `script`.
    pub fn new(script: Vec<u8>) -> (s: MemoryStream)
        ensures
            s.incoming() == script@,
            s.sent() == Seq::<u8>::empty(),
            !s.fail_reads && !s.fail_writes && !s.fail_flush,
            s.fault_code == 0,
    {
        let s = MemoryStream {
            script,
            delivered: 0,
            written: Vec::new(),
            fail_reads: false,
            fail_writes: false,
            fail_flush: false,
            fault_code: 0,
        };
        proof {
            assert(s.script@.skip(0) =~= s.script@);
        }
        s
    }
}

impl StreamModel for MemoryStream {
    open spec fn incoming(&self) -> Seq<u8> {
        if self.delivered <= self.script@.len() {
            self.script@.skip(self.delivered as int)
        } else {
            Seq::empty()
        }
    }

    open spec fn sent(&self) -> Seq<u8> {
        self.written@
    }

    /// The script is at hand: this stream stalls only once it is drained.
    open spec fn may_stall(bs: Seq<u8>) -> bool {
        bs.len() == 0
    }

    /// Every operation succeeds while no fail switch is set.
    open spec fn reliable(&self) -> bool {
        !self.fail_reads && !self.fail_writes && !self.fail_flush
    }
}

impl ReadStream for MemoryStream {
    fn read_byte(&mut self) -> (r: Result<Option<u8>, StreamError>) {
        if self.fail_reads {
            return Err(StreamError { code: self.fault_code });
        }
        if self.delivered < self.script.len() {
            let b = self.script[self.delivered];
            self.delivered = self.delivered + 1;
            proof {
                assert(old(self).incoming()[0] == b);
                assert(old(self).incoming().skip(1) =~= self.incoming());
            }
            Ok(Some(b))
        } else {
            Ok(None)
        }
    }
}

impl WriteStream for MemoryStream {
    fn write_bytes(&mut self, buf: &[u8]) -> (r: Result<(), StreamError>) {
        if self.fail_writes {
            return Err(StreamError { code: self.fault_code });
        }
        let mut i: usize = 0;
        while i < buf.len()
            invariant
                i <= buf.len(),
                self.written@ == old(self).written@ + buf@.take(i as int),
                self.script == old(self).script,
                self.delivered == old(self).delivered,
                self.fail_reads == old(self).fail_reads,
                self.fail_writes == old(self).fail_writes,
                self.fail_flush == old(self).fail_flush,
                self.fault_code == old(self).fault_code,
            decreases buf.len() - i,
        {
            self.written.push(buf[i]);
            proof {
                assert(old(self).written@ + buf@.take(i as int) + seq![buf@[i as int]]
                    =~= old(self).written@ + buf@.take(i as int + 1));
            }
            i = i + 1;
        }
        proof {
            assert(old(self).written@ + buf@.take(buf@.len() as int) =~= old(self).written@
                + buf@);
        }
        Ok(())
    }

    fn flush(&mut self) -> (r: Result<(), StreamError>) {
        if self.fail_flush {
            Err(StreamError { code: self.fault_code })
        } else {
            Ok(())
        }
    }
}

} // verus!
