//! The wire format of a header block: each line is terminated by CRLF, and a
//! final bare CRLF (a blank line) closes the block before the body begins.

use vstd::prelude::*;

verus! {

/// The two-byte line terminator (CR LF) that ends every header line.
pub open spec fn crlf() -> Seq<u8> {
    seq![13u8, 10u8]
}

/// The bytes one terminated header line occupies on the wire.
pub open spec fn line_bytes(content: Seq<u8>) -> Seq<u8> {
    content + crlf()
}

/// The bytes a sequence of terminated header lines occupies on the wire.
pub open spec fn lines_bytes(lines: Seq<Seq<u8>>) -> Seq<u8>
    decreases lines.len(),
{
    if lines.len() == 0 {
        Seq::empty()
    } else {
        lines_bytes(lines.drop_last()) + line_bytes(lines.last())
    }
}

/// The bytes of a complete header block: every line terminated, then the
/// blank line that closes the block.
pub open spec fn header_bytes(lines: Seq<Seq<u8>>) -> Seq<u8> {
    lines_bytes(lines) + crlf()
}

/// Completing one more line appends exactly that line's content followed by
/// the terminator, after everything already on the wire.
pub proof fn lemma_lines_bytes_push(lines: Seq<Seq<u8>>, content: Seq<u8>)
    ensures
        lines_bytes(lines.push(content)) == lines_bytes(lines) + line_bytes(content),
{
    assert(lines.push(content).drop_last() =~= lines);
}

/// A header block with no lines at all is exactly one bare terminator: the
/// blank line is still produced.
pub proof fn lemma_empty_header()
    ensures
        header_bytes(Seq::<Seq<u8>>::empty()) == crlf(),
{
    assert(lines_bytes(Seq::<Seq<u8>>::empty()) + crlf() =~= crlf());
}

} // verus!
