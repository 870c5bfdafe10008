//! Text as sequences of characters: the character-level operations that the
//! service's rules need.

use vstd::prelude::*;
use vstd::string::StringExecFns;
use vstd::string::StrSliceExecFns;

verus! {

/// `needle` stands in `hay` at position `at`.
pub open spec fn occurs_at(hay: Seq<char>, needle: Seq<char>, at: int) -> bool {
    &&& 0 <= at
    &&& at + needle.len() <= hay.len()
    &&& hay.subrange(at, at + needle.len()) == needle
}

/// `needle` stands somewhere in `hay`.
pub open spec fn occurs_in(hay: Seq<char>, needle: Seq<char>) -> bool {
    exists|at: int| occurs_at(hay, needle, at)
}

/// The first `count` characters of `text`, where it has that many.
pub open spec fn leading_chars(text: Seq<char>, count: nat) -> Option<Seq<char>> {
    if count <= text.len() {
        Some(text.take(count as int))
    } else {
        None
    }
}

/// The characters of `text`, in order.
pub fn chars_of(text: &str) -> (chars: Vec<char>)
    ensures
        chars@ == text@,
{
    let mut chars: Vec<char> = Vec::new();
    for c in it: text.chars()
        invariant
            it.seq() == text@,
            chars@ == it.seq().take(it.index()),
    {
        chars.push(c);
    }
    chars
}

/// Whether `needle` stands in `hay` at position `at`.
fn matches_at(hay: &Vec<char>, needle: &Vec<char>, at: usize) -> (found: bool)
    requires
        at + needle.len() <= hay.len(),
    ensures
        found == occurs_at(hay@, needle@, at as int),
{
    let mut k: usize = 0;
    while k < needle.len()
        invariant
            k <= needle.len(),
            at + needle.len() <= hay.len(),
            forall|j: int| 0 <= j < k ==> hay@[at + j] == needle@[j],
        decreases needle.len() - k,
    {
        if hay[at + k] != needle[k] {
            assert(hay@.subrange(at as int, at + needle.len())[k as int] == hay@[at + k]);
            return false;
        }
        k += 1;
    }
    assert(hay@.subrange(at as int, at + needle.len()) =~= needle@);
    true
}

/// Whether `needle` stands somewhere in `hay`, compared character by
/// character. The empty text stands in every text.
pub fn contains(hay: &str, needle: &str) -> (found: bool)
    ensures
        found == occurs_in(hay@, needle@),
{
    let hay_chars = chars_of(hay);
    let needle_chars = chars_of(needle);
    if needle_chars.len() > hay_chars.len() {
        return false;
    }
    let last: usize = hay_chars.len() - needle_chars.len();
    let mut at: usize = 0;
    loop
        invariant
            at <= last,
            last == hay_chars.len() - needle_chars.len(),
            hay_chars@ == hay@,
            needle_chars@ == needle@,
            forall|k: int| 0 <= k < at ==> !occurs_at(hay@, needle@, k),
        decreases last - at,
    {
        if matches_at(&hay_chars, &needle_chars, at) {
            return true;
        }
        if at == last {
            return false;
        }
        at += 1;
    }
}

/// The first `count` characters of `text` as a new string, or `None` where
/// `text` is shorter than that.
pub fn leading(text: &str, count: usize) -> (head: Option<String>)
    ensures
        match head {
            Some(h) => leading_chars(text@, count as nat) == Some(h@),
            None => leading_chars(text@, count as nat) is None,
        },
{
    if text.unicode_len() < count {
        None
    } else {
        let head = text.substring_char(0, count);
        Some(String::from_str(head))
    }
}

/// `head`, `middle` and `tail` written one after the other.
pub fn framed(head: &str, middle: &str, tail: &str) -> (text: String)
    ensures
        text@ == head@ + middle@ + tail@,
{
    let mut text = String::from_str(head);
    text.append(middle);
    text.append(tail);
    text
}

} // verus!
