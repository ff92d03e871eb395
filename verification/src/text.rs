//! Text primitives: substring containment over character sequences and the
//! lossy UTF-8 decoding of captured bytes.

use vstd::prelude::*;
use vstd::utf8::{decode_utf8, valid_utf8};

verus! {

/// `needle` stands in `hay` at offset `at`, character for character.
pub open spec fn occurs_at(needle: Seq<char>, hay: Seq<char>, at: int) -> bool {
    &&& 0 <= at
    &&& at + needle.len() <= hay.len()
    &&& hay.subrange(at, at + needle.len()) == needle
}

/// `needle` occurs somewhere in `hay` as a contiguous run of characters.
pub open spec fn is_substring(needle: Seq<char>, hay: Seq<char>) -> bool {
    exists|at: int| occurs_at(needle, hay, at)
}

/// The text that lossy UTF-8 decoding makes of `bytes`: the encoded
/// characters where the bytes are well formed, with U+FFFD standing in for
/// each malformed stretch.
pub uninterp spec fn lossy_text(bytes: Seq<u8>) -> Seq<char>;

/// What is known of `lossy_text` without running the decoder: well-formed
/// UTF-8 decodes to exactly the characters it encodes.
pub open spec fn lossy_text_keeps_valid_utf8(bytes: Seq<u8>) -> bool {
    valid_utf8(bytes) ==> lossy_text(bytes) == decode_utf8(bytes)
}

/// Calls `String::from_utf8_lossy` and takes ownership of what it returns.
///
/// Trusted: the result is the function's value on these bytes, named
/// `lossy_text`; and, as the standard library documents, bytes that already
/// are valid UTF-8 come back as the very string they encode. Nothing is
/// claimed here about where the replacement characters fall on malformed
/// input.
#[verifier::external_body]
pub(crate) fn decode_lossy(bytes: &[u8]) -> (text: String)
    ensures
        text@ == lossy_text(bytes@),
        valid_utf8(bytes@) ==> text@ == decode_utf8(bytes@),
{
    String::from_utf8_lossy(bytes).into_owned()
}

/// The characters of `s`, in order.
fn chars_of(s: &str) -> (chars: Vec<char>)
    ensures
        chars@ == s@,
{
    let mut chars: Vec<char> = Vec::new();
    for c in it: s.chars()
        invariant
            it.seq() == s@,
            chars@ == it.seq().take(it.index() as int),
    {
        chars.push(c);
    }
    chars
}

/// Whether `needle` stands in `hay` at offset `at`.
fn matches_at(hay: &Vec<char>, needle: &Vec<char>, at: usize) -> (hit: bool)
    requires
        at + needle@.len() <= hay@.len(),
    ensures
        hit == occurs_at(needle@, hay@, at as int),
{
    let hay_len: usize = hay.len();
    let mut k: usize = 0;
    while k < needle.len()
        invariant
            k <= needle@.len(),
            at + needle@.len() <= hay@.len() == hay_len,
            forall|j: int| 0 <= j < k ==> hay@[at + j] == needle@[j],
        decreases needle@.len() - k,
    {
        if hay[at + k] != needle[k] {
            proof {
                let window = hay@.subrange(at as int, at + needle@.len());
                assert(window[k as int] == hay@[at + k]);
            }
            return false;
        }
        k += 1;
    }
    proof {
        assert(hay@.subrange(at as int, at + needle@.len()) =~= needle@);
    }
    true
}

/// Substring containment: `true` exactly when `needle` occurs in `hay`.
/// The empty needle occurs in every text.
pub fn contains_text(hay: &str, needle: &str) -> (found: bool)
    ensures
        found == is_substring(needle@, hay@),
{
    let hay_chars = chars_of(hay);
    let needle_chars = chars_of(needle);
    if needle_chars.len() > hay_chars.len() {
        return false;
    }
    let last: usize = hay_chars.len() - needle_chars.len();
    let mut at: usize = 0;
    loop
        invariant
            at <= last,
            last + needle_chars@.len() == hay_chars@.len(),
            hay_chars@ == hay@,
            needle_chars@ == needle@,
            forall|i: int| 0 <= i < at ==> !occurs_at(needle@, hay@, i),
        decreases last - at,
    {
        if matches_at(&hay_chars, &needle_chars, at) {
            return true;
        }
        if at == last {
            return false;
        }
        at += 1;
    }
}

/// Whatever stands around it, the middle of a concatenation occurs in the
/// whole.
pub proof fn lemma_middle_is_substring(before: Seq<char>, middle: Seq<char>, after: Seq<char>)
    ensures
        is_substring(middle, before + middle + after),
{
    let whole = before + middle + after;
    let at = before.len() as int;
    assert(whole.subrange(at, at + middle.len()) =~= middle);
    assert(occurs_at(middle, whole, at));
}

} // verus!
