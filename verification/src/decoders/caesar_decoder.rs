//! Undoes a Caesar cipher by trying every shift.
//! Call `crack` on the decoder; `unencrypted_text` of the record holds one
//! candidate for each shift, or the one that the checker identified.

use crate::checkers::CheckerTypes;
use crate::decoders::crack_results::CrackResult;
use crate::decoders::interface::{
    check_string_success, judge_decoded, string_success, Crack, Decoder, Descriptor,
};
use crate::text::{chars_of, text_of};
use std::marker::PhantomData;
use vstd::prelude::*;

verus! {

/// The Caesar decoder: `Decoder::<CaesarDecoder>::new()` makes one, `crack`
/// tries every shift with it.
pub struct CaesarDecoder;

/// The number of shifts that change a text: 1 to 25.
pub const SHIFTS: u8 = 25;

/// The character `shift` places further down its alphabet, around the end and
/// back to the start. Only the letters `a` to `z` and `A` to `Z` move, each
/// within its own case.
pub open spec fn shifted(c: char, shift: nat) -> char {
    let n = c as u32;
    if 97 <= n <= 122 {
        ((97 + (n - 97 + shift) % 26) as u8) as char
    } else if 65 <= n <= 90 {
        ((65 + (n - 65 + shift) % 26) as u8) as char
    } else {
        c
    }
}

/// The text with every character shifted by `shift`.
pub open spec fn shifted_text(text: Seq<char>, shift: nat) -> Seq<char> {
    Seq::new(text.len(), |i: int| shifted(text[i], shift))
}

/// Shifts one character, see [`shifted`].
pub fn shift_char(c: char, shift: u8) -> (r: char)
    requires
        shift < 26,
    ensures
        r == shifted(c, shift as nat),
{
    let n: u32 = c as u32;
    if 97 <= n && n <= 122 {
        let m: u32 = 97 + (n - 97 + shift as u32) % 26;
        let b: u8 = m as u8;
        b as char
    } else if 65 <= n && n <= 90 {
        let m: u32 = 65 + (n - 65 + shift as u32) % 26;
        let b: u8 = m as u8;
        b as char
    } else {
        c
    }
}

/// Shifts every character of `cipher` by `shift`, see [`shifted_text`].
pub fn caesar(cipher: &str, shift: u8) -> (r: String)
    requires
        shift < 26,
    ensures
        r@ == shifted_text(cipher@, shift as nat),
{
    let letters = chars_of(cipher);
    let mut moved: Vec<char> = Vec::new();
    let mut i: usize = 0;
    while i < letters.len()
        invariant
            shift < 26,
            letters@ == cipher@,
            i <= letters.len(),
            moved@.len() == i,
            forall|j: int| 0 <= j < i ==> moved@[j] == shifted(cipher@[j], shift as nat),
        decreases letters.len() - i,
    {
        moved.push(shift_char(letters[i], shift));
        i += 1;
    }
    assert(moved@ =~= shifted_text(cipher@, shift as nat));
    text_of(&moved)
}

/// The first `n` shifts of `text`: by 1, by 2, and so on.
pub open spec fn shifts_of(text: Seq<char>, n: nat) -> Seq<Seq<char>> {
    Seq::new(n, |i: int| shifted_text(text, (i + 1) as nat))
}

/// The candidates for `text`: its 25 shifts, in order, provided that each of
/// them is worth keeping; none otherwise.
pub open spec fn caesar_candidates(text: Seq<char>) -> Option<Seq<Seq<char>>> {
    if forall|i: int|
        0 <= i < SHIFTS ==> string_success(#[trigger] shifts_of(text, SHIFTS as nat)[i], text) {
        Some(shifts_of(text, SHIFTS as nat))
    } else {
        None
    }
}

/// Shifting twice is shifting once by the sum, so a shift is undone by the
/// shift that makes up the alphabet with it.
pub proof fn lemma_shift_is_undone(c: char, shift: nat)
    requires
        0 < shift < 26,
    ensures
        shifted(shifted(c, shift), (26 - shift) as nat) == c,
{
    let n = c as u32;
    if 97 <= n <= 122 {
        let m = (97 + (n - 97 + shift) % 26) as u8;
        assert((m as char) as u32 == m);
        assert((m - 97 + (26 - shift)) % 26 == n - 97) by {
            if n - 97 + shift >= 26 {
                assert((n - 97 + shift) % 26 == n - 97 + shift - 26);
            } else {
                assert((n - 97 + shift) % 26 == n - 97 + shift);
            }
        }
    } else if 65 <= n <= 90 {
        let m = (65 + (n - 65 + shift) % 26) as u8;
        assert((m as char) as u32 == m);
        assert((m - 65 + (26 - shift)) % 26 == n - 65) by {
            if n - 65 + shift >= 26 {
                assert((n - 65 + shift) % 26 == n - 65 + shift - 26);
            } else {
                assert((n - 65 + shift) % 26 == n - 65 + shift);
            }
        }
    }
}

/// The character is a letter that the cipher moves.
pub open spec fn is_letter(c: char) -> bool {
    65 <= (c as u32) <= 90 || 97 <= (c as u32) <= 122
}

/// A shift that is no multiple of the alphabet moves every letter, to a
/// letter, and leaves everything else in place.
pub proof fn lemma_shift_moves_letters(c: char, shift: nat)
    requires
        0 < shift < 26,
    ensures
        is_letter(c) ==> shifted(c, shift) != c && is_letter(shifted(c, shift)),
        !is_letter(c) ==> shifted(c, shift) == c,
{
    let n = c as u32;
    if 97 <= n <= 122 {
        let m = (97 + (n - 97 + shift) % 26) as u8;
        assert((m as char) as u32 == m);
        if n - 97 + shift >= 26 {
            assert((n - 97 + shift) % 26 == n - 97 + shift - 26);
        } else {
            assert((n - 97 + shift) % 26 == n - 97 + shift);
        }
    } else if 65 <= n <= 90 {
        let m = (65 + (n - 65 + shift) % 26) as u8;
        assert((m as char) as u32 == m);
        if n - 65 + shift >= 26 {
            assert((n - 65 + shift) % 26 == n - 65 + shift - 26);
        } else {
            assert((n - 65 + shift) % 26 == n - 65 + shift);
        }
    }
}

/// Round trip: a plaintext that was enciphered with a shift, and that the
/// shift has changed, is among the candidates for the cipher text: it is the
/// candidate of the shift that makes up the alphabet.
pub proof fn lemma_caesar_round_trip(plaintext: Seq<char>, shift: nat)
    requires
        0 < shift < 26,
        plaintext != shifted_text(plaintext, shift),
    ensures
        caesar_candidates(shifted_text(plaintext, shift)) == Some(
            shifts_of(shifted_text(plaintext, shift), SHIFTS as nat),
        ),
        shifts_of(shifted_text(plaintext, shift), SHIFTS as nat)[25 - shift] == plaintext,
        shifts_of(shifted_text(plaintext, shift), SHIFTS as nat).contains(plaintext),
{
    let cipher = shifted_text(plaintext, shift);
    let all = shifts_of(cipher, SHIFTS as nat);
    let back = all[25 - shift];
    assert(back =~= plaintext) by {
        assert forall|i: int| 0 <= i < plaintext.len() implies back[i] == plaintext[i] by {
            lemma_shift_is_undone(plaintext[i], shift);
        }
    }
    // The shift has changed a character, which is a letter therefore
    if forall|j: int| 0 <= j < plaintext.len() ==> plaintext[j] == cipher[j] {
        assert(plaintext =~= cipher);
    }
    let at = choose|j: int| 0 <= j < plaintext.len() && plaintext[j] != cipher[j];
    lemma_shift_moves_letters(plaintext[at], shift);
    assert forall|i: int| 0 <= i < SHIFTS implies string_success(#[trigger] all[i], cipher) by {
        lemma_shift_moves_letters(cipher[at], (i + 1) as nat);
        assert(all[i][at] == shifted(cipher[at], (i + 1) as nat));
        assert(!crate::text::is_unprintable(all[i][at]));
    }
}

/// The Caesar decoder as a mathematical value.
pub open spec fn caesar_descriptor() -> Descriptor {
    Descriptor {
        name: "Caesar Cipher"@,
        description: "Caesar cipher, also known as Caesar's cipher, the shift cipher, Caesar's code or Caesar shift, is one of the simplest and most widely known encryption techniques. It is a type of substitution cipher in which each letter in the plaintext is replaced by a letter some fixed number of positions down the alphabet."@,
        link: "https://en.wikipedia.org/wiki/Caesar_cipher"@,
        tags: seq!["caesar"@, "decryption"@, "classic"@, "reciprocal"@],
        popularity: 5,
    }
}

impl Crack for Decoder<CaesarDecoder> {
    open spec fn candidates(text: Seq<char>) -> Option<Seq<Seq<char>>> {
        caesar_candidates(text)
    }

    open spec fn descriptor(&self) -> Descriptor {
        self@
    }

    fn new() -> (d: Decoder<CaesarDecoder>)
        ensures
            d@ == caesar_descriptor(),
    {
        let d = Decoder {
            name: "Caesar Cipher",
            description: "Caesar cipher, also known as Caesar's cipher, the shift cipher, Caesar's code or Caesar shift, is one of the simplest and most widely known encryption techniques. It is a type of substitution cipher in which each letter in the plaintext is replaced by a letter some fixed number of positions down the alphabet.",
            link: "https://en.wikipedia.org/wiki/Caesar_cipher",
            tags: vec!["caesar", "decryption", "classic", "reciprocal"],
            popularity: 5,
            phantom: PhantomData,
        };
        assert(d.tags.deep_view() =~= caesar_descriptor().tags);
        d
    }

    fn attempt(&self, text: &str) -> (r: Option<Vec<String>>) {
        let mut decoded_strings: Vec<String> = Vec::new();
        let mut shift: u8 = 1;
        while shift <= SHIFTS
            invariant
                1 <= shift <= SHIFTS + 1,
                decoded_strings@.len() == shift - 1,
                forall|i: int|
                    0 <= i < shift - 1 ==> (#[trigger] decoded_strings@[i])@ == shifts_of(
                        text@,
                        SHIFTS as nat,
                    )[i],
                forall|i: int|
                    0 <= i < shift - 1 ==> string_success(
                        #[trigger] shifts_of(text@, SHIFTS as nat)[i],
                        text@,
                    ),
            decreases SHIFTS + 1 - shift,
        {
            let decoded_text = caesar(text, shift);
            if !check_string_success(decoded_text.as_str(), text) {
                assert(!string_success(shifts_of(text@, SHIFTS as nat)[shift - 1], text@));
                return None;
            }
            decoded_strings.push(decoded_text);
            shift += 1;
        }
        assert(decoded_strings.deep_view() =~= shifts_of(text@, SHIFTS as nat));
        Some(decoded_strings)
    }

    /// This function tries every shift.
    /// The record holds the shifted texts where they are worth keeping.
    fn crack(&self, text: &str, checker: &CheckerTypes) -> (r: CrackResult) {
        let candidates = self.attempt(text);
        judge_decoded(self, text, candidates, checker)
    }

    fn get_tags(&self) -> (r: &Vec<&str>) {
        &self.tags
    }

    fn get_name(&self) -> (r: &str) {
        self.name
    }

    fn get_description(&self) -> (r: &str) {
        self.description
    }

    fn get_link(&self) -> (r: &str) {
        self.link
    }

    fn get_popularity(&self) -> (r: u32) {
        self.popularity
    }
}

} // verus!
