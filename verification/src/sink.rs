//! The byte sink that header formatting writes into: a destination accepting
//! sequential byte writes and supporting flush.

use vstd::prelude::*;

verus! {

/// The single error kind of this library: an I/O failure reported by the
/// underlying sink on a write or a flush.
#[derive(Clone, Copy, Debug, PartialEq, Eq, Structural)]
pub struct SinkError;

/// A destination accepting sequential byte writes and supporting flush.
///
/// `buf()` is the sequence of bytes the sink has accepted so far, and is what
/// every contract of this library speaks about. `reliable()` marks sinks that
/// promise to accept every write and flush; on such a sink success is owed.
/// A write either appends the whole buffer and reports its length, or fails
/// and leaves the accepted bytes unchanged.
pub trait Sink: Sized {
    /// The bytes this sink has accepted so far. The default model is empty;
    /// a sink this library can say anything about overrides it.
    open spec fn buf(&self) -> Seq<u8> {
        Seq::empty()
    }

    /// Whether this sink promises that every write and every flush succeeds.
    /// By default no such promise is made.
    open spec fn reliable(&self) -> bool {
        false
    }

    /// Append the whole buffer, or fail leaving the accepted bytes unchanged.
    fn write(&mut self, bytes: &[u8]) -> (r: Result<usize, SinkError>)
        ensures
            final(self).reliable() == old(self).reliable(),
            match r {
                Ok(n) => {
                    &&& n == bytes@.len()
                    &&& final(self).buf() == old(self).buf() + bytes@
                },
                Err(_) => final(self).buf() == old(self).buf(),
            },
            old(self).reliable() ==> r is Ok,
    ;

    /// Push accepted bytes onward to wherever they are bound; never changes
    /// what has been accepted.
    fn flush(&mut self) -> (r: Result<(), SinkError>)
        ensures
            final(self).buf() == old(self).buf(),
            final(self).reliable() == old(self).reliable(),
            old(self).reliable() ==> r is Ok,
    ;
}

/// An in-memory sink that accepts every byte written to it.
pub struct VecSink {
    data: Vec<u8>,
}

impl VecSink {
    /// An empty in-memory sink.
    pub fn new() -> (s: VecSink)
        ensures
            s.buf() == Seq::<u8>::empty(),
            s.reliable(),
    {
        VecSink { data: Vec::new() }
    }

    /// The bytes accepted so far, surrendered as a vector.
    pub fn into_vec(self) -> (v: Vec<u8>)
        ensures
            v@ == self.buf(),
    {
        self.data
    }

    /// Read access to the bytes accepted so far.
    pub fn as_bytes(&self) -> (v: &[u8])
        ensures
            v@ == self.buf(),
    {
        self.data.as_slice()
    }
}

impl Sink for VecSink {
    closed spec fn buf(&self) -> Seq<u8> {
        self.data@
    }

    closed spec fn reliable(&self) -> bool {
        true
    }

    fn write(&mut self, bytes: &[u8]) -> (r: Result<usize, SinkError>) {
        let ghost entry: Seq<u8> = self.data@;
        let mut i: usize = 0;
        while i < bytes.len()
            invariant
                i <= bytes@.len(),
                self.data@ == entry + bytes@.take(i as int),
            decreases bytes@.len() - i,
        {
            self.data.push(bytes[i]);
            proof {
                assert(self.data@ =~= entry + bytes@.take(i + 1));
            }
            i = i + 1;
        }
        proof {
            assert(entry + bytes@.take(i as int) =~= entry + bytes@);
        }
        Ok(bytes.len())
    }

    fn flush(&mut self) -> (r: Result<(), SinkError>) {
        Ok(())
    }
}

/// A sink whose writes and flushes always fail; it never accepts a byte.
/// Useful to observe that scope teardown swallows sink failures.
pub struct FailingSink;

impl Sink for FailingSink {
    closed spec fn buf(&self) -> Seq<u8> {
        Seq::empty()
    }

    closed spec fn reliable(&self) -> bool {
        false
    }

    fn write(&mut self, _bytes: &[u8]) -> (r: Result<usize, SinkError>) {
        Err(SinkError)
    }

    fn flush(&mut self) -> (r: Result<(), SinkError>) {
        Err(SinkError)
    }
}

} // verus!
