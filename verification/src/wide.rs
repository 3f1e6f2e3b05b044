//! Decoding and encoding of the OS's native wide-character strings.
//!
//! Device records hand identifiers and descriptions over as fixed-size
//! buffers of UTF-16 units, terminated by a null unit.  The logic here finds
//! the terminator; the codecs themselves are std's.

use vstd::prelude::*;

verus! {

/// Index of the first null unit in a wide-character buffer, or the buffer's
/// length when no null unit occurs.
pub open spec fn first_null(s: Seq<u16>) -> int
    decreases s.len(),
{
    if s.len() == 0 {
        0
    } else if s[0] == 0 {
        0
    } else {
        1 + first_null(s.drop_first())
    }
}

/// The units of a wide-character buffer up to, and excluding, its first null
/// unit: the part that carries the string.
pub open spec fn null_terminated_prefix(s: Seq<u16>) -> Seq<u16> {
    s.subrange(0, first_null(s))
}

/// The first null unit's index is characterised by: every unit before it is
/// non-null, and it is either a null unit's index or the buffer's length.
pub proof fn lemma_first_null_at(s: Seq<u16>, i: int)
    requires
        0 <= i <= s.len(),
        forall|k: int| 0 <= k < i ==> s[k] != 0,
        i == s.len() || s[i] == 0,
    ensures
        first_null(s) == i,
    decreases s.len(),
{
    if s.len() == 0 {
    } else if s[0] == 0 {
        assert(i == 0);
    } else {
        let t = s.drop_first();
        assert(i >= 1);
        assert(forall|k: int| 0 <= k < i - 1 ==> t[k] == s[k + 1] && s[k + 1] != 0);
        assert(i - 1 == t.len() || t[i - 1] == s[i]);
        lemma_first_null_at(t, i - 1);
    }
}

/// What `String::from_utf16_lossy` returns for a given sequence of UTF-16
/// units; the decoding is a function of the units alone.
pub uninterp spec fn utf16_decode_of(units: Seq<u16>) -> Seq<char>;

/// What `str::encode_utf16` yields, in order, for a given string; the unit
/// sequence is a function of the text alone.
pub uninterp spec fn utf16_encode_of(text: Seq<char>) -> Seq<u16>;

/// Relies on std's `String::from_utf16_lossy` to decode UTF-16 units,
/// replacing invalid sequences with the replacement character.
#[verifier::external_body]
fn decode_utf16_lossy(units: &[u16]) -> (r: String)
    ensures
        r@ == utf16_decode_of(units@),
{
    String::from_utf16_lossy(units)
}

/// Relies on std's `str::encode_utf16` to re-encode a string as UTF-16 units.
#[verifier::external_body]
fn encode_utf16_units(text: &str) -> (r: Vec<u16>)
    ensures
        r@ == utf16_encode_of(text@),
{
    text.encode_utf16().collect()
}

/// Decodes a wide-character buffer as handed over by the OS, truncating at
/// the first null unit.
pub fn wide_string_to_string(wide: &[u16]) -> (r: String)
    ensures
        r@ == utf16_decode_of(null_terminated_prefix(wide@)),
{
    let mut end: usize = 0;
    while end < wide.len() && *vstd::slice::slice_index_get(wide, end) != 0
        invariant
            0 <= end <= wide@.len(),
            forall|k: int| 0 <= k < end ==> wide@[k] != 0,
        decreases wide@.len() - end,
    {
        end += 1;
    }
    proof {
        lemma_first_null_at(wide@, end as int);
    }
    let prefix = vstd::slice::slice_subrange(wide, 0, end);
    decode_utf16_lossy(prefix)
}

/// Encodes a string for the OS boundary, appending the null terminator the
/// native calls expect.
pub fn string_to_wide(s: &str) -> (r: Vec<u16>)
    ensures
        r@ == utf16_encode_of(s@).push(0u16),
{
    let mut wide = encode_utf16_units(s);
    wide.push(0);
    wide
}

} // verus!
