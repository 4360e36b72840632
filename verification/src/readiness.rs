//! Readiness detection: deciding whether one line of the server's output
//! announces that the server has finished initializing.
//!
//! The server prints a banner once it accepts connections. A line counts as
//! a readiness signal when its bytes contain any of a fixed set of banner
//! substrings. The substrings are plain ASCII, so matching the raw bytes of
//! a line finds exactly the lines whose decoded text shows a banner.

use vstd::prelude::*;
use vstd::slice::slice_index_get;
use vstd::string::StringSliceAdditionalSpecFns;

verus! {

/// `needle` occurs as a contiguous run somewhere in `hay`.
pub open spec fn contains_bytes(hay: Seq<u8>, needle: Seq<u8>) -> bool {
    exists|start: int|
        0 <= start && start + needle.len() <= hay.len() && #[trigger] hay.subrange(
            start,
            start + needle.len(),
        ) == needle
}

/// The fixed readiness banners, as the bytes they occupy in an output line.
pub open spec fn ready_banners() -> Seq<Seq<u8>> {
    seq![
        ("Server running").spec_bytes(),
        ("Listening on").spec_bytes(),
        ("[Server] Server running at").spec_bytes(),
    ]
}

/// A line signals readiness when it contains any of the fixed banners.
pub open spec fn is_ready_line(line: Seq<u8>) -> bool {
    exists|k: int| 0 <= k < ready_banners().len() && contains_bytes(line, ready_banners()[k])
}

/// `needle` matches `hay` exactly at position `start`.
fn matches_at(hay: &[u8], needle: &[u8], start: usize) -> (matched: bool)
    requires
        start + needle@.len() <= hay@.len(),
    ensures
        matched == (hay@.subrange(start as int, start + needle@.len()) == needle@),
{
    let hay_len = hay.len();
    let needle_len = needle.len();
    let ghost window = hay@.subrange(start as int, start + needle@.len());
    let mut j: usize = 0;
    while j < needle_len
        invariant
            start + needle@.len() <= hay@.len(),
            hay_len == hay@.len(),
            needle_len == needle@.len(),
            j <= needle_len,
            window == hay@.subrange(start as int, start + needle@.len()),
            forall|t: int| 0 <= t < j ==> hay@[start + t] == needle@[t],
        decreases needle_len - j,
    {
        let hay_byte = *slice_index_get(hay, start + j);
        let needle_byte = *slice_index_get(needle, j);
        if hay_byte != needle_byte {
            assert(window[j as int] == hay@[start + j]);
            return false;
        }
        j += 1;
    }
    assert(window =~= needle@);
    true
}

/// Byte-level substring search, the executable side of [`contains_bytes`].
pub fn contains_subslice(hay: &[u8], needle: &[u8]) -> (found: bool)
    ensures
        found == contains_bytes(hay@, needle@),
{
    let hay_len = hay.len();
    let needle_len = needle.len();
    if needle_len > hay_len {
        return false;
    }
    if needle_len == 0 {
        assert(hay@.subrange(0, 0 + needle@.len() as int) =~= needle@);
        return true;
    }
    let mut start: usize = 0;
    while start <= hay_len - needle_len
        invariant
            1 <= needle_len <= hay_len,
            hay_len == hay@.len(),
            needle_len == needle@.len(),
            start <= hay_len - needle_len + 1,
            forall|k: int|
                0 <= k < start ==> #[trigger] hay@.subrange(k, k + needle@.len()) != needle@,
        decreases hay_len - needle_len - start + 1,
    {
        if matches_at(hay, needle, start) {
            return true;
        }
        start += 1;
    }
    false
}

/// Decides whether one raw output line announces readiness.
pub fn line_signals_ready(line: &[u8]) -> (ready: bool)
    ensures
        ready == is_ready_line(line@),
{
    let running = contains_subslice(line, "Server running".as_bytes());
    let listening = contains_subslice(line, "Listening on".as_bytes());
    let banner = contains_subslice(line, "[Server] Server running at".as_bytes());
    let ready = running || listening || banner;
    proof {
        if running {
            assert(contains_bytes(line@, ready_banners()[0]));
        }
        if listening {
            assert(contains_bytes(line@, ready_banners()[1]));
        }
        if banner {
            assert(contains_bytes(line@, ready_banners()[2]));
        }
    }
    ready
}

} // verus!
