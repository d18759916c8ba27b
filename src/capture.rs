use vstd::prelude::*;
use vstd::string::*;

use crate::text::{all_ascii, ascii_chars, decode_lossy, lenient_decoding};

verus! {

/// The text captured from a sequence of writes: each write's bytes decoded
/// leniently, in order.
pub open spec fn captured(writes: Seq<Seq<u8>>) -> Seq<char>
    decreases writes.len(),
{
    if writes.len() == 0 {
        Seq::empty()
    } else {
        captured(writes.drop_last()) + lenient_decoding(writes.last())
    }
}

/// All bytes of a sequence of writes, in order.
pub open spec fn written(writes: Seq<Seq<u8>>) -> Seq<u8>
    decreases writes.len(),
{
    if writes.len() == 0 {
        Seq::empty()
    } else {
        written(writes.drop_last()) + writes.last()
    }
}

/// A program that writes only ASCII text has exactly that text captured, byte
/// for byte, however its writes are split.
pub proof fn lemma_ascii_writes_captured_verbatim(writes: Seq<Seq<u8>>)
    requires
        forall|i: int| 0 <= i < writes.len() ==> all_ascii(#[trigger] writes[i]),
    ensures
        captured(writes) == ascii_chars(written(writes)),
    decreases writes.len(),
{
    if writes.len() > 0 {
        let front = writes.drop_last();
        assert forall|i: int| 0 <= i < front.len() implies all_ascii(#[trigger] front[i]) by {
            assert(front[i] == writes[i]);
        }
        lemma_ascii_writes_captured_verbatim(front);
        assert(all_ascii(writes[writes.len() - 1]));
        assert(ascii_chars(written(front) + writes.last()) =~= ascii_chars(written(front))
            + ascii_chars(writes.last()));
    }
}

/// An in-memory output stream that stands in for a terminal inside the
/// sandbox: every write is decoded leniently and appended.
pub struct CaptureBuffer {
    text: String,
}

impl View for CaptureBuffer {
    type V = Seq<char>;

    closed spec fn view(&self) -> Seq<char> {
        self.text@
    }
}

impl CaptureBuffer {
    /// An empty buffer.
    pub fn new() -> (r: CaptureBuffer)
        ensures
            r@ == Seq::<char>::empty(),
    {
        CaptureBuffer { text: String::new() }
    }

    /// Appends the lenient decoding of `bytes`. Never blocks and never fails.
    pub fn write(&mut self, bytes: &[u8])
        ensures
            final(self)@ == old(self)@ + lenient_decoding(bytes@),
    {
        let piece = decode_lossy(bytes);
        self.text.append(piece.as_str());
    }

    /// The text captured so far.
    pub fn as_str(&self) -> (r: &str)
        ensures
            r@ == self@,
    {
        self.text.as_str()
    }

    /// Consumes the buffer and hands over its text.
    pub fn into_text(self) -> (r: String)
        ensures
            r@ == self@,
    {
        self.text
    }
}

} // verus!
