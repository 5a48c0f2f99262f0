//! Text predicates shared by the rest of the library, and the standard
//! string operations the library relies on.

use vstd::prelude::*;
use vstd::utf8::{decode_utf8, valid_utf8};

verus! {

/// `needle` stands in `hay` at offset `at`.
pub open spec fn occurs_at(hay: Seq<char>, needle: Seq<char>, at: int) -> bool {
    &&& 0 <= at
    &&& at + needle.len() <= hay.len()
    &&& hay.subrange(at, at + needle.len()) == needle
}

/// `needle` stands somewhere in `hay`.
pub open spec fn occurs(hay: Seq<char>, needle: Seq<char>) -> bool {
    exists|at: int| occurs_at(hay, needle, at)
}

/// `needle` stands in `hay` at one offset and at no other.
pub open spec fn occurs_once(hay: Seq<char>, needle: Seq<char>) -> bool {
    exists|at: int|
        {
            &&& occurs_at(hay, needle, at)
            &&& forall|other: int| occurs_at(hay, needle, other) ==> other == at
        }
}

/// The characters with the Unicode property White_Space.
pub open spec fn is_white_space(c: char) -> bool {
    let code = c as u32;
    ||| 0x09 <= code <= 0x0D
    ||| code == 0x20
    ||| code == 0x85
    ||| code == 0xA0
    ||| code == 0x1680
    ||| 0x2000 <= code <= 0x200A
    ||| code == 0x2028
    ||| code == 0x2029
    ||| code == 0x202F
    ||| code == 0x205F
    ||| code == 0x3000
}

/// `text` without its leading white space.
pub open spec fn trim_start(text: Seq<char>) -> Seq<char>
    decreases text.len(),
{
    if text.len() > 0 && is_white_space(text.first()) {
        trim_start(text.drop_first())
    } else {
        text
    }
}

/// `text` without its trailing white space.
pub open spec fn trim_end(text: Seq<char>) -> Seq<char>
    decreases text.len(),
{
    if text.len() > 0 && is_white_space(text.last()) {
        trim_end(text.drop_last())
    } else {
        text
    }
}

/// `text` without leading and trailing white space.
pub open spec fn trimmed(text: Seq<char>) -> Seq<char> {
    trim_end(trim_start(text))
}

/// Every text stands in itself.
pub proof fn lemma_occurs_in_itself(text: Seq<char>)
    ensures
        occurs(text, text),
{
    assert(text.subrange(0, text.len() as int) =~= text);
    assert(occurs_at(text, text, 0));
}

/// What stands in a text still stands in it after more text has been put
/// before and after.
pub proof fn lemma_occurs_within(before: Seq<char>, text: Seq<char>, after: Seq<char>, needle: Seq<char>)
    requires
        occurs(text, needle),
    ensures
        occurs(before + text + after, needle),
{
    let at = choose|at: int| occurs_at(text, needle, at);
    let whole = before + text + after;
    let moved = before.len() + at;
    assert(whole.subrange(moved, moved + needle.len()) =~= text.subrange(at, at + needle.len()));
    assert(occurs_at(whole, needle, moved));
}

/// What `trim_start` leaves does not start with white space, and is a tail
/// of the text.
pub proof fn lemma_trim_start_shape(text: Seq<char>)
    ensures
        trim_start(text).len() > 0 ==> !is_white_space(trim_start(text).first()),
        trim_start(text).len() <= text.len(),
        trim_start(text) == text.subrange(text.len() - trim_start(text).len(), text.len() as int),
    decreases text.len(),
{
    if text.len() > 0 && is_white_space(text.first()) {
        lemma_trim_start_shape(text.drop_first());
        let rest = trim_start(text);
        assert(rest =~= text.subrange(text.len() - rest.len(), text.len() as int));
    } else {
        assert(text =~= text.subrange(0, text.len() as int));
    }
}

/// What `trim_end` leaves does not end with white space, and is a head of
/// the text.
pub proof fn lemma_trim_end_shape(text: Seq<char>)
    ensures
        trim_end(text).len() > 0 ==> !is_white_space(trim_end(text).last()),
        trim_end(text).len() <= text.len(),
        trim_end(text) == text.subrange(0, trim_end(text).len() as int),
    decreases text.len(),
{
    if text.len() > 0 && is_white_space(text.last()) {
        lemma_trim_end_shape(text.drop_last());
        let rest = trim_end(text);
        assert(rest =~= text.subrange(0, rest.len() as int));
    } else {
        assert(text =~= text.subrange(0, text.len() as int));
    }
}

/// Trimming a trimmed text changes nothing.
pub proof fn lemma_trim_is_idempotent(text: Seq<char>)
    ensures
        trimmed(trimmed(text)) == trimmed(text),
{
    let head = trim_start(text);
    let core = trim_end(head);
    lemma_trim_start_shape(text);
    lemma_trim_end_shape(head);
    if core.len() > 0 {
        assert(core.first() == head.first());
    }
}

/// The text that lossy UTF-8 decoding makes of `bytes`: the decoded
/// characters, with U+FFFD in place of each ill-formed run.
pub uninterp spec fn utf8_lossy(bytes: Seq<u8>) -> Seq<char>;

/// `str::contains` with a string pattern: true exactly when the pattern
/// matches a sub-slice of the haystack.
#[verifier::external_body]
pub(crate) fn contains(hay: &str, needle: &str) -> (found: bool)
    ensures
        found == occurs(hay@, needle@),
{
    hay.contains(needle)
}

/// `str::trim`: the slice left after leading and trailing white space,
/// as Unicode defines it, has been removed.
#[verifier::external_body]
pub(crate) fn trim(text: &str) -> (rest: &str)
    ensures
        rest@ == trimmed(text@),
{
    text.trim()
}

/// `String::from_utf8_lossy`: the result depends on the bytes alone, and
/// well-formed UTF-8 is decoded as it stands.
#[verifier::external_body]
pub(crate) fn from_utf8_lossy(bytes: &[u8]) -> (text: String)
    ensures
        text@ == utf8_lossy(bytes@),
        valid_utf8(bytes@) ==> text@ == decode_utf8(bytes@),
{
    String::from_utf8_lossy(bytes).into_owned()
}

} // verus!
