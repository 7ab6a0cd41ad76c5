//! A formatter for the header section of a text-based response protocol, such
//! as an HTTP/1.x response: a sequence of CRLF-terminated lines followed by a
//! blank terminating line, written incrementally into a byte sink.
//!
//! A [`HeaderLines`] block hands out one [`HeaderLine`] at a time; the line
//! appends its terminator when it ends, and the block appends the blank line
//! and flushes when it ends. Each scope is entered and left by moving the
//! value, so no two lines can overlap, nothing is terminated twice, and the
//! only way back to the block or to the sink is the call that terminates the
//! scope. Teardown failures are discarded there, never propagated: ending a
//! scope always returns normally, whatever the sink did.

mod header;
mod sink;
mod wire;

pub use header::HeaderLine;
pub use header::HeaderLines;
pub use sink::FailingSink;
pub use sink::Sink;
pub use sink::SinkError;
pub use sink::VecSink;
pub use wire::crlf;
pub use wire::header_bytes;
pub use wire::lemma_empty_header;
pub use wire::lemma_lines_bytes_push;
pub use wire::line_bytes;
pub use wire::lines_bytes;
