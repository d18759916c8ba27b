use vstd::prelude::*;

verus! {

/// The text that lenient UTF-8 decoding gives for a byte sequence: valid
/// sequences decode as usual, invalid ones become U+FFFD.
pub uninterp spec fn lossy_text(b: Seq<u8>) -> Seq<char>;

/// The characters of an all-ASCII byte sequence, one per byte.
pub open spec fn ascii_chars(b: Seq<u8>) -> Seq<char> {
    b.map_values(|x: u8| x as char)
}

/// Whether every byte is ASCII.
pub open spec fn all_ascii(b: Seq<u8>) -> bool {
    forall|i: int| 0 <= i < b.len() ==> b[i] < 128
}

/// Lenient decoding as `String::from_utf8_lossy` documents it: bytes that are
/// valid UTF-8, ASCII in particular, decode as themselves.
pub open spec fn lenient_decoding(b: Seq<u8>) -> Seq<char> {
    if all_ascii(b) {
        ascii_chars(b)
    } else {
        lossy_text(b)
    }
}

/// Relies on `String::from_utf8_lossy`: the result depends on the bytes alone,
/// and valid UTF-8 (in particular ASCII) comes back unchanged.
#[verifier::external_body]
pub(crate) fn decode_lossy(b: &[u8]) -> (r: String)
    ensures
        all_ascii(b@) ==> r@ == ascii_chars(b@),
        !all_ascii(b@) ==> r@ == lossy_text(b@),
{
    String::from_utf8_lossy(b).into_owned()
}

} // verus!
