//! The two scope types that guarantee a well-formed header section: a
//! [`HeaderLines`] block hands out one [`HeaderLine`] at a time, the line
//! appends its terminator when it ends, and the block appends the blank
//! closing line and flushes when it ends. Both scopes are entered and left by
//! moving the value, so no two lines can overlap, nothing can be terminated
//! twice, and teardown failures are swallowed rather than propagated.

use vstd::prelude::*;

use crate::sink::Sink;
use crate::sink::SinkError;
use crate::wire::crlf;
use crate::wire::header_bytes;
use crate::wire::lemma_lines_bytes_push;
use crate::wire::lines_bytes;

verus! {

/// Append the line terminator to the sink, discarding any failure: this runs
/// as scope teardown, which must return normally whatever the sink does.
fn write_terminator<W: Sink>(sink: &mut W)
    ensures
        final(sink).reliable() == old(sink).reliable(),
        old(sink).reliable() ==> final(sink).buf() == old(sink).buf() + crlf(),
        final(sink).buf() == old(sink).buf() + crlf() || final(sink).buf() == old(sink).buf(),
{
    let mut term: Vec<u8> = Vec::new();
    term.push(13u8);
    term.push(10u8);
    proof {
        assert(term@ =~= crlf());
    }
    let _ = sink.write(term.as_slice());
}

/// Writes out the lines in a response header.
///
/// A response header is made of any number of lines, each terminated by a
/// CRLF, followed by a final terminating CRLF before the response body
/// begins. Lines are begun one at a time with [`HeaderLines::line`], and
/// [`HeaderLines::finish`] ends the header and flushes the sink.
pub struct HeaderLines<W: Sink> {
    sink: W,
    start: Ghost<Seq<u8>>,
    lines: Ghost<Seq<Seq<u8>>>,
}

/// Writes out a single header line.
///
/// When the line is ended (by [`HeaderLine::end`] or [`HeaderLine::finish`])
/// the terminator is appended exactly once, after everything written into the
/// line. The bytes written into the line must not contain any CRLF; this is a
/// caller obligation and is not checked, and breaking it yields malformed
/// (but never crash-inducing) output.
pub struct HeaderLine<W: Sink> {
    sink: W,
    block_start: Ghost<Seq<u8>>,
    prior: Ghost<Seq<Seq<u8>>>,
    content: Ghost<Seq<u8>>,
}

impl<W: Sink> HeaderLines<W> {
    /// The bytes the sink had already accepted when this block began.
    pub closed spec fn start(&self) -> Seq<u8> {
        self.start@
    }

    /// The content of each line completed so far in this block, in order.
    pub closed spec fn lines(&self) -> Seq<Seq<u8>> {
        self.lines@
    }

    /// The bytes the sink has accepted so far.
    pub closed spec fn sink_buf(&self) -> Seq<u8> {
        self.sink.buf()
    }

    /// Whether the sink promises that every write and flush succeeds.
    pub closed spec fn sink_reliable(&self) -> bool {
        self.sink.reliable()
    }

    /// Validity: on a reliable sink, the accepted bytes are exactly what was
    /// there when the block began, followed by the completed lines, each
    /// terminated.
    pub open spec fn wf(&self) -> bool {
        self.sink_reliable() ==> self.sink_buf() == self.start() + lines_bytes(self.lines())
    }

    /// Begin a header block writing into the given sink.
    pub fn new(sink: W) -> (h: HeaderLines<W>)
        ensures
            h.wf(),
            h.start() == sink.buf(),
            h.lines() == Seq::<Seq<u8>>::empty(),
            h.sink_buf() == sink.buf(),
            h.sink_reliable() == sink.reliable(),
    {
        let ghost entry: Seq<u8> = sink.buf();
        let h = HeaderLines { sink, start: Ghost(entry), lines: Ghost(Seq::empty()) };
        proof {
            assert(entry + lines_bytes(Seq::<Seq<u8>>::empty()) =~= entry);
        }
        h
    }

    /// Begin the next line of the header. The block moves into the line and
    /// comes back from [`HeaderLine::end`], so no two lines of one block can
    /// ever be open at once.
    pub fn line(self) -> (l: HeaderLine<W>)
        requires
            self.wf(),
        ensures
            l.wf(),
            l.block_start() == self.start(),
            l.prior_lines() == self.lines(),
            l.content() == Seq::<u8>::empty(),
            l.sink_buf() == self.sink_buf(),
            l.sink_reliable() == self.sink_reliable(),
    {
        let ghost gstart: Seq<u8> = self.start@;
        let ghost glines: Seq<Seq<u8>> = self.lines@;
        let HeaderLines { sink, .. } = self;
        let l = HeaderLine {
            sink,
            block_start: Ghost(gstart),
            prior: Ghost(glines),
            content: Ghost(Seq::empty()),
        };
        proof {
            assert(gstart + lines_bytes(glines) + Seq::<u8>::empty()
                =~= gstart + lines_bytes(glines));
        }
        l
    }

    /// End the header block: emit the blank line that closes the header
    /// section, flush the sink, and give the sink back so the body can follow
    /// the header with no separator in between. Failures during this teardown
    /// are discarded; on a failing sink the output may be truncated, but
    /// control always returns normally.
    pub fn finish(self) -> (w: W)
        requires
            self.wf(),
        ensures
            w.reliable() == self.sink_reliable(),
            self.sink_reliable() ==> w.buf() == self.start() + header_bytes(self.lines()),
            w.buf() == self.sink_buf() + crlf() || w.buf() == self.sink_buf(),
    {
        let ghost gstart: Seq<u8> = self.start@;
        let ghost glines: Seq<Seq<u8>> = self.lines@;
        let blank = self.line();
        let h = blank.end();
        let HeaderLines { mut sink, .. } = h;
        let _ = sink.flush();
        proof {
            lemma_lines_bytes_push(glines, Seq::<u8>::empty());
            assert(gstart + lines_bytes(glines.push(Seq::<u8>::empty()))
                =~= gstart + header_bytes(glines));
        }
        sink
    }
}

impl<W: Sink> HeaderLine<W> {
    /// The bytes the sink had already accepted when the enclosing block began
    /// (or when this line began, for a line opened directly on a sink).
    pub closed spec fn block_start(&self) -> Seq<u8> {
        self.block_start@
    }

    /// The content of each line completed before this one, in order.
    pub closed spec fn prior_lines(&self) -> Seq<Seq<u8>> {
        self.prior@
    }

    /// The bytes written into this line so far.
    pub closed spec fn content(&self) -> Seq<u8> {
        self.content@
    }

    /// The bytes the sink has accepted so far.
    pub closed spec fn sink_buf(&self) -> Seq<u8> {
        self.sink.buf()
    }

    /// Whether the sink promises that every write and flush succeeds.
    pub closed spec fn sink_reliable(&self) -> bool {
        self.sink.reliable()
    }

    /// Validity: on a reliable sink, the accepted bytes are exactly what was
    /// there at the block's start, the prior terminated lines, and this
    /// line's content so far.
    pub open spec fn wf(&self) -> bool {
        self.sink_reliable() ==> self.sink_buf() == self.block_start()
            + lines_bytes(self.prior_lines()) + self.content()
    }

    /// Begin a single header line directly on a sink, outside any block: the
    /// lower-level use for one terminated line on its own.
    pub fn new(sink: W) -> (l: HeaderLine<W>)
        ensures
            l.wf(),
            l.block_start() == sink.buf(),
            l.prior_lines() == Seq::<Seq<u8>>::empty(),
            l.content() == Seq::<u8>::empty(),
            l.sink_buf() == sink.buf(),
            l.sink_reliable() == sink.reliable(),
    {
        let ghost entry: Seq<u8> = sink.buf();
        let l = HeaderLine {
            sink,
            block_start: Ghost(entry),
            prior: Ghost(Seq::empty()),
            content: Ghost(Seq::empty()),
        };
        proof {
            assert(entry + lines_bytes(Seq::<Seq<u8>>::empty()) + Seq::<u8>::empty()
                =~= entry);
        }
        l
    }

    /// Forward bytes into the current line, unmodified: either all of them
    /// are accepted and the count returned, or the sink's failure is returned
    /// to the caller and the line is unchanged. The bytes must not contain
    /// the terminator (a caller obligation, not checked here).
    pub fn write(&mut self, bytes: &[u8]) -> (r: Result<usize, SinkError>)
        requires
            old(self).wf(),
        ensures
            final(self).wf(),
            final(self).block_start() == old(self).block_start(),
            final(self).prior_lines() == old(self).prior_lines(),
            final(self).sink_reliable() == old(self).sink_reliable(),
            match r {
                Ok(n) => {
                    &&& n == bytes@.len()
                    &&& final(self).content() == old(self).content() + bytes@
                    &&& final(self).sink_buf() == old(self).sink_buf() + bytes@
                },
                Err(_) => {
                    &&& final(self).content() == old(self).content()
                    &&& final(self).sink_buf() == old(self).sink_buf()
                },
            },
            old(self).sink_reliable() ==> r is Ok,
    {
        let r = self.sink.write(bytes);
        match r {
            Ok(n) => {
                self.content = Ghost(self.content@ + bytes@);
                proof {
                    assert(old(self).block_start() + lines_bytes(old(self).prior_lines())
                        + (old(self).content() + bytes@)
                        =~= old(self).block_start() + lines_bytes(old(self).prior_lines())
                        + old(self).content() + bytes@);
                }
                Ok(n)
            },
            Err(e) => Err(e),
        }
    }

    /// Forward a flush to the underlying sink, returning its verdict to the
    /// caller; the accepted bytes are unchanged either way.
    pub fn flush(&mut self) -> (r: Result<(), SinkError>)
        requires
            old(self).wf(),
        ensures
            final(self).wf(),
            final(self).block_start() == old(self).block_start(),
            final(self).prior_lines() == old(self).prior_lines(),
            final(self).content() == old(self).content(),
            final(self).sink_buf() == old(self).sink_buf(),
            final(self).sink_reliable() == old(self).sink_reliable(),
            old(self).sink_reliable() ==> r is Ok,
    {
        self.sink.flush()
    }

    /// End this line within its block: append the terminator, discarding any
    /// failure, and give the block back with this line recorded as complete.
    pub fn end(self) -> (h: HeaderLines<W>)
        requires
            self.wf(),
        ensures
            h.wf(),
            h.start() == self.block_start(),
            h.lines() == self.prior_lines().push(self.content()),
            h.sink_reliable() == self.sink_reliable(),
            self.sink_reliable() ==> h.sink_buf() == self.sink_buf() + crlf(),
            h.sink_buf() == self.sink_buf() + crlf() || h.sink_buf() == self.sink_buf(),
    {
        let ghost gstart: Seq<u8> = self.block_start@;
        let ghost gprior: Seq<Seq<u8>> = self.prior@;
        let ghost gcontent: Seq<u8> = self.content@;
        let HeaderLine { mut sink, .. } = self;
        write_terminator(&mut sink);
        proof {
            lemma_lines_bytes_push(gprior, gcontent);
            assert(gstart + lines_bytes(gprior) + gcontent + crlf()
                =~= gstart + lines_bytes(gprior.push(gcontent)));
        }
        HeaderLines { sink, start: Ghost(gstart), lines: Ghost(gprior.push(gcontent)) }
    }

    /// End a line that was opened directly on a sink: append the terminator,
    /// discarding any failure, and give the sink back. On a reliable sink the
    /// sink has then accepted exactly the line's content followed by the
    /// terminator, after whatever preceded the line.
    pub fn finish(self) -> (w: W)
        requires
            self.wf(),
        ensures
            w.reliable() == self.sink_reliable(),
            self.sink_reliable() ==> w.buf() == self.block_start()
                + lines_bytes(self.prior_lines()) + self.content() + crlf(),
            w.buf() == self.sink_buf() + crlf() || w.buf() == self.sink_buf(),
    {
        let HeaderLine { mut sink, .. } = self;
        write_terminator(&mut sink);
        sink
    }
}

} // verus!
