//! Text helpers shared by the decoders, the checkers and the search.

use vstd::prelude::*;
use vstd::utf8::*;

verus! {

/// A character that carries no visible information: a control character or the
/// replacement character that stands for undecodable bytes.
pub open spec fn is_unprintable(c: char) -> bool {
    ||| (c as u32) < 0x20
    ||| 0x7f <= (c as u32) <= 0x9f
    ||| (c as u32) == 0xfffd
}

/// Executable test for [`is_unprintable`].
pub fn char_is_unprintable(c: char) -> (r: bool)
    ensures
        r == is_unprintable(c),
{
    let n: u32 = c as u32;
    n < 0x20 || (0x7f <= n && n <= 0x9f) || n == 0xfffd
}

/// Every character of `s` is unprintable. The empty text is the trivial case.
pub open spec fn all_unprintable(s: Seq<char>) -> bool {
    forall|i: int| 0 <= i < s.len() ==> is_unprintable(#[trigger] s[i])
}

/// The text that `bytes` stand for: the decoded text where they are
/// well-formed UTF-8, nothing where they are not. Nothing is replaced.
pub open spec fn strict_decoding(bytes: Seq<u8>) -> Option<Seq<char>> {
    if valid_utf8(bytes) {
        Some(decode_utf8(bytes))
    } else {
        None
    }
}

/// Calls `String::from_utf8`, which succeeds exactly on well-formed UTF-8 and
/// then gives the decoded text.
#[verifier::external_body]
pub(crate) fn strict_text(bytes: Vec<u8>) -> (r: Option<String>)
    ensures
        r.is_some() == valid_utf8(bytes@),
        r.is_some() ==> r.unwrap()@ == decode_utf8(bytes@),
{
    String::from_utf8(bytes).ok()
}

/// Calls `String::push`, which appends the character to the text.
#[verifier::external_body]
pub(crate) fn push_char(text: &mut String, c: char)
    ensures
        final(text)@ == old(text)@.push(c),
{
    text.push(c)
}

/// The text that holds the characters `chars`, in order.
pub fn text_of(chars: &Vec<char>) -> (text: String)
    ensures
        text@ == chars@,
{
    let mut text = String::new();
    let mut i: usize = 0;
    while i < chars.len()
        invariant
            i <= chars.len(),
            text@ == chars@.take(i as int),
        decreases chars.len() - i,
    {
        push_char(&mut text, chars[i]);
        assert(chars@.take(i as int).push(chars@[i as int]) =~= chars@.take(i + 1));
        i += 1;
    }
    assert(chars@.take(chars@.len() as int) =~= chars@);
    text
}

/// The characters of `s`, in order.
pub fn chars_of(s: &str) -> (v: Vec<char>)
    ensures
        v@ == s@,
{
    let mut v: Vec<char> = Vec::new();
    for c in it: s.chars()
        invariant
            it.seq() == s@,
            v@ == it.seq().take(it.index()),
    {
        v.push(c);
    }
    v
}

/// Whether two texts hold the same characters.
pub fn str_equal(a: &str, b: &str) -> (r: bool)
    ensures
        r == (a@ == b@),
{
    let x = chars_of(a);
    let y = chars_of(b);
    if x.len() != y.len() {
        return false;
    }
    let mut i: usize = 0;
    while i < x.len()
        invariant
            x@ == a@,
            y@ == b@,
            x.len() == y.len(),
            i <= x.len(),
            forall|j: int| 0 <= j < i ==> x@[j] == y@[j],
        decreases x.len() - i,
    {
        if x[i] != y[i] {
            return false;
        }
        i += 1;
    }
    assert(x@ =~= y@);
    true
}

} // verus!
