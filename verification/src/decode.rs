//! Permissive text decoding for the server's output lines.
//!
//! Output arrives as raw bytes. The monitor forwards it as text, decoding
//! permissively: invalid byte sequences are replaced with a placeholder,
//! never reported as an error, so a garbled line can never abort the
//! monitor.

use vstd::prelude::*;

verus! {

/// The text that permissive decoding yields for a given byte sequence. The
/// decoding is a function of the bytes alone.
pub uninterp spec fn lossy_text_of(bytes: Seq<u8>) -> Seq<char>;

/// Relies on `String::from_utf8_lossy`: decodes any byte sequence to text,
/// replacing invalid sequences with U+FFFD; the result depends on the bytes
/// alone and the call never fails.
#[verifier::external_body]
pub(crate) fn decode_lossy(bytes: &[u8]) -> (text: String)
    ensures
        text@ == lossy_text_of(bytes@),
{
    String::from_utf8_lossy(bytes).into_owned()
}

} // verus!
