//! Runs a Brainfuck program and takes its output as the decoded text.
//! Call `crack` on the interpreter; `unencrypted_text` of the record is `Some`
//! where the text was a program that printed something worth keeping.

use crate::checkers::CheckerTypes;
use crate::decoders::crack_results::CrackResult;
use crate::decoders::interface::{
    judge_decoded, keep_decoded, kept, single, text_view, Crack, Decoder, Descriptor,
};
use crate::text::{chars_of, strict_decoding, strict_text};
use std::marker::PhantomData;
use vstd::prelude::*;

verus! {

/// The Brainfuck interpreter: `Decoder::<BrainfuckInterpreter>::new()` makes
/// one, `crack` runs a program with it.
pub struct BrainfuckInterpreter;

/// A text with fewer output instructions than this is no program worth running.
pub const MIN_OUTPUT_INSTRUCTIONS: usize = 5;

/// A text with fewer instructions other than input and output than this is no
/// program worth running.
pub const MIN_INSTRUCTIONS: usize = 20;

/// No program runs for more instructions than this; one that would is given up.
pub const INSTRUCTION_LIMIT: usize = 100_000;

/// One of the six instructions that neither read nor write: `+ - < > [ ]`.
pub open spec fn is_instruction(c: char) -> bool {
    c == '+' || c == '-' || c == '<' || c == '>' || c == '[' || c == ']'
}

/// How many of the first `n` characters of `code` are output instructions.
pub open spec fn output_count(code: Seq<char>, n: int) -> nat
    decreases n,
{
    if n <= 0 {
        0
    } else {
        output_count(code, n - 1) + if code[n - 1] == '.' {
            1nat
        } else {
            0nat
        }
    }
}

/// How many of the first `n` characters of `code` are instructions that
/// neither read nor write.
pub open spec fn instruction_count(code: Seq<char>, n: int) -> nat
    decreases n,
{
    if n <= 0 {
        0
    } else {
        instruction_count(code, n - 1) + if is_instruction(code[n - 1]) {
            1nat
        } else {
            0nat
        }
    }
}

/// How many loops are open after the first `n` characters of `code`; `None`
/// once a loop was closed that had not been opened.
pub open spec fn open_loops(code: Seq<char>, n: int) -> Option<nat>
    decreases n,
{
    if n <= 0 {
        Some(0)
    } else {
        match open_loops(code, n - 1) {
            None => None,
            Some(depth) => if code[n - 1] == '[' {
                Some(depth + 1)
            } else if code[n - 1] == ']' {
                if depth == 0 {
                    None
                } else {
                    Some((depth - 1) as nat)
                }
            } else {
                Some(depth)
            },
        }
    }
}

/// Every loop of `code` is opened before it is closed, and closed.
pub open spec fn loops_matched(code: Seq<char>) -> bool {
    open_loops(code, code.len() as int) == Some(0nat)
}

/// `code` reads no input.
pub open spec fn reads_nothing(code: Seq<char>) -> bool {
    forall|i: int| 0 <= i < code.len() ==> code[i] != ','
}

/// `code` can be handed to the interpreter: it reads no input, which is not
/// there to be read, and its loops are matched, without which the interpreter
/// would lose its way.
pub open spec fn runnable(code: Seq<char>) -> bool {
    reads_nothing(code) && loops_matched(code)
}

/// `code` looks like a program that prints a text: it ends by printing, prints
/// at least five times and holds at least twenty other instructions.
pub open spec fn plausible(code: Seq<char>) -> bool {
    &&& code.len() > 0
    &&& code.last() == '.'
    &&& output_count(code, code.len() as int) >= MIN_OUTPUT_INSTRUCTIONS
    &&& instruction_count(code, code.len() as int) >= MIN_INSTRUCTIONS
}

/// Whether `code` is worth running and can be run, see [`plausible`] and
/// [`runnable`].
pub fn is_program(code: &str) -> (r: bool)
    ensures
        r == (plausible(code@) && runnable(code@)),
{
    let chars = chars_of(code);
    let n = chars.len();
    if n == 0 || chars[n - 1] != '.' {
        return false;
    }
    let mut outputs: usize = 0;
    let mut instructions: usize = 0;
    let mut depth: usize = 0;
    let mut i: usize = 0;
    while i < n
        invariant
            chars@ == code@,
            n == chars.len(),
            i <= n,
            outputs == output_count(code@, i as int),
            instructions == instruction_count(code@, i as int),
            open_loops(code@, i as int) == Some(depth as nat),
            outputs <= i,
            instructions <= i,
            depth <= i,
            forall|j: int| 0 <= j < i ==> code@[j] != ',',
        decreases n - i,
    {
        let c = chars[i];
        if c == ',' {
            return false;
        }
        if c == '.' {
            outputs += 1;
        }
        if c == '+' || c == '-' || c == '<' || c == '>' || c == '[' || c == ']' {
            instructions += 1;
        }
        if c == '[' {
            depth += 1;
        } else if c == ']' {
            if depth == 0 {
                proof {
                    lemma_open_loops_stays_none(code@, i as int + 1, n as int);
                }
                return false;
            }
            depth -= 1;
        }
        i += 1;
    }
    outputs >= MIN_OUTPUT_INSTRUCTIONS && instructions >= MIN_INSTRUCTIONS && depth == 0
}

/// A loop that was closed before it was opened is never made good.
pub proof fn lemma_open_loops_stays_none(code: Seq<char>, n: int, m: int)
    requires
        0 <= n <= m,
        open_loops(code, n).is_none(),
    ensures
        open_loops(code, m).is_none(),
    decreases m - n,
{
    if n < m {
        lemma_open_loops_stays_none(code, n, m - 1);
    }
}

/// What the program `code` has printed when it ends within `limit`
/// instructions, as the bytes that encode the characters it printed; `None`
/// where it does not end within them.
pub uninterp spec fn brainfuck_output(code: Seq<char>, limit: nat) -> Option<Seq<u8>>;

/// Runs `brainfuck_exe::Brainfuck::execute` on `code` with the output going to
/// a buffer and with an instruction limit. With matched loops and no input
/// instruction the interpreter touches nothing but its own cells and the
/// buffer, and it stops at the limit; an error of any kind becomes `None`.
#[verifier::external_body]
fn run_program(code: &str, limit: usize) -> (r: Option<Vec<u8>>)
    requires
        runnable(code@),
    ensures
        r.is_some() == brainfuck_output(code@, limit as nat).is_some(),
        r.is_some() ==> r.unwrap()@ == brainfuck_output(code@, limit as nat).unwrap(),
{
    let mut printed: Vec<u8> = Vec::new();
    let run = brainfuck_exe::Brainfuck::new(code)
        .with_output_ref(&mut printed)
        .with_instructions_limit(limit)
        .execute();
    match run {
        Ok(_) => Some(printed),
        Err(_) => None,
    }
}

/// The text that the program `text` prints, before anything is said about
/// whether it is worth keeping.
pub open spec fn brainfuck_text(text: Seq<char>) -> Option<Seq<char>> {
    if plausible(text) && runnable(text) {
        match brainfuck_output(text, INSTRUCTION_LIMIT as nat) {
            Some(bytes) => strict_decoding(bytes),
            None => None,
        }
    } else {
        None
    }
}

/// Runs `text` if it is a program, see [`brainfuck_text`].
fn run_brainfuck_no_error_handling(text: &str) -> (r: Option<String>)
    ensures
        text_view(r) == brainfuck_text(text@),
{
    // Guard against text that realistically won't be a Brainfuck program
    if !is_program(text) {
        return None;
    }
    match run_program(text, INSTRUCTION_LIMIT) {
        Some(printed) => strict_text(printed),
        None => None,
    }
}

/// The Brainfuck interpreter as a mathematical value.
pub open spec fn brainfuck_descriptor() -> Descriptor {
    Descriptor {
        name: "Brainfuck"@,
        description: "Brainfuck is an esoteric programming language created in 1993 by Swiss student Urban Müller. Designed to be extremely minimalistic, the language consists of only eight simple commands, a data pointer, and an instruction pointer."@,
        link: "https://en.wikipedia.org/wiki/Brainfuck"@,
        tags: seq!["decoder"@, "brainfuck"@],
        popularity: 60,
    }
}

impl Crack for Decoder<BrainfuckInterpreter> {
    open spec fn candidates(text: Seq<char>) -> Option<Seq<Seq<char>>> {
        single(kept(brainfuck_text(text), text))
    }

    open spec fn descriptor(&self) -> Descriptor {
        self@
    }

    fn new() -> (d: Decoder<BrainfuckInterpreter>)
        ensures
            d@ == brainfuck_descriptor(),
    {
        let d = Decoder {
            name: "Brainfuck",
            description: "Brainfuck is an esoteric programming language created in 1993 by Swiss student Urban Müller. Designed to be extremely minimalistic, the language consists of only eight simple commands, a data pointer, and an instruction pointer.",
            link: "https://en.wikipedia.org/wiki/Brainfuck",
            tags: vec!["decoder", "brainfuck"],
            popularity: 60,
            phantom: PhantomData,
        };
        assert(d.tags.deep_view() =~= brainfuck_descriptor().tags);
        d
    }

    fn attempt(&self, text: &str) -> (r: Option<Vec<String>>) {
        let decoded_text = run_brainfuck_no_error_handling(text);
        keep_decoded(decoded_text, text)
    }

    /// This function runs the program.
    /// The record holds what it printed where that is worth keeping.
    fn crack(&self, text: &str, checker: &CheckerTypes) -> (r: CrackResult) {
        let candidates = self.attempt(text);
        judge_decoded(self, text, candidates, checker)
    }

    fn get_tags(&self) -> (r: &Vec<&str>) {
        &self.tags
    }

    fn get_name(&self) -> (r: &str) {
        self.name
    }

    fn get_description(&self) -> (r: &str) {
        self.description
    }

    fn get_link(&self) -> (r: &str) {
        self.link
    }

    fn get_popularity(&self) -> (r: u32) {
        self.popularity
    }
}

} // verus!
