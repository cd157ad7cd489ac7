use ciphey::checkers::athena::Athena;
use ciphey::checkers::checker_type::{Check, Checker};
use ciphey::checkers::CheckerTypes;
use ciphey::decoders::brainfuck_interpreter::{is_program, BrainfuckInterpreter};
use ciphey::decoders::interface::{Crack, Decoder};

// helper for tests
fn get_athena_checker() -> CheckerTypes {
    let athena_checker = Checker::<Athena>::new();
    CheckerTypes::CheckAthena(athena_checker)
}

#[test]
fn brainfuck_successful_decoding_regular_string() {
    let brainfuck_interpreter = Decoder::<BrainfuckInterpreter>::new();
    let result = brainfuck_interpreter.crack(
        ">++++++++[<+++++++++>-]<.>++++[<+++++++>-]<+.+++++++..+++.>>++++++[<+++++++>-]
            <++.------------.>++++++[<+++++++++>-]<+.<.+++.------.--------.>>>++++[<++++++++>-]<+.",
        &get_athena_checker(),
    );
    assert_eq!(result.unencrypted_text.unwrap()[0], "Hello, World!");
}

#[test]
fn brainfuck_successful_decoding_long_string() {
    let brainfuck_interpreter = Decoder::<BrainfuckInterpreter>::new();
    let result = brainfuck_interpreter.crack("+++++++++[>++++++++>++++++++++++>+++++++++++>++++>+++++>++++++++>++++++++++>++++++++++++<<<<<<<<-]
            >++++.>+++.+++.>++.<-----.>>----.>>+.>>++++.+++.++.<<<<<<.>>+.-.<<<+++.>>+++.>>-.<.>>-.>+++++++.>-----..+++++++++.<<<<.>>----.>.>.<<<<+.
            -.>>++++.>++++.<<<<<-..+++.>>.<<<++++++++.>.+++.>++++.>>>>-.<<<+.-.>>+.<<.<----.<---.+.>---.>.>>>>.<<<<<<-.++++++.>>.<+++.-------.<+.
            >++++.>.<----.>.>>>++++++++.+++.>---.<<<<<++++.+++++++.<+++.>>.<--------.---.<.>>+.", &get_athena_checker());
    assert_eq!(
        result.unencrypted_text.unwrap()[0],
        "Lorem Ipsum! Oh, Happy Day! Hello World! I hope you have a lovely day!"
    );
}

#[test]
fn brainfuck_successful_decoding_string_with_trash() {
    let brainfuck_interpreter = Decoder::<BrainfuckInterpreter>::new();
    let result = brainfuck_interpreter.crack(">++++++++[<+++++++++>trash-]<.>++++[<+++++++>-]<+.+++++++..+lots+of+garbage.
            >>++++++[<+++++++>-]<++.--some--random----rubbish---here-.>++++++[<+++++++++>-]<+.<.+++.------.--------.
            >>>++++[<++++++++>-]<+.", &get_athena_checker());
    assert_eq!(result.unencrypted_text.unwrap()[0], "Hello, World!");
}

#[test]
fn brainfuck_fail_unmatched_bracket() {
    let brainfuck_interpreter = Decoder::<BrainfuckInterpreter>::new();
    let result = brainfuck_interpreter
        .crack("[[]", &get_athena_checker())
        .unencrypted_text;
    assert!(result.is_none());
    let result = brainfuck_interpreter
        .crack("[+]]", &get_athena_checker())
        .unencrypted_text;
    assert!(result.is_none());
}

#[test]
fn brainfuck_fail_empty_input() {
    // This tests if brainfuck_interpreter handles an empty string
    // It should return None
    let brainfuck_interpreter = Decoder::<BrainfuckInterpreter>::new();
    let result = brainfuck_interpreter
        .crack("", &get_athena_checker())
        .unencrypted_text;
    assert!(result.is_none());
    let result = brainfuck_interpreter
        .crack("aeiou", &get_athena_checker())
        .unencrypted_text;
    assert!(result.is_none());
}

#[test]
fn brainfuck_fail_no_enough_input() {
    // This tests if brainfuck_interpreter handles an empty string
    // It should return None
    let brainfuck_interpreter = Decoder::<BrainfuckInterpreter>::new();
    let result = brainfuck_interpreter
        .crack(">+[+]..", &get_athena_checker())
        .unencrypted_text;
    assert!(result.is_none());
    let result = brainfuck_interpreter
        .crack(
            ">a+e[i+o]u.a-bunch-of-trash-in-between.",
            &get_athena_checker(),
        )
        .unencrypted_text;
    assert!(result.is_none());
}

#[test]
fn brainfuck_fail_no_print() {
    let brainfuck_interpreter = Decoder::<BrainfuckInterpreter>::new();
    let result = brainfuck_interpreter
        .crack("+-<>[]", &get_athena_checker())
        .unencrypted_text;
    assert!(result.is_none());
}

#[test]
fn brainfuck_fail_no_print_at_end() {
    let brainfuck_interpreter = Decoder::<BrainfuckInterpreter>::new();
    let result = brainfuck_interpreter
        .crack("+++++++++++++++++.-", &get_athena_checker())
        .unencrypted_text;
    assert!(result.is_none());
}

#[test]
fn brainfuck_fail_read() {
    let brainfuck_interpreter = Decoder::<BrainfuckInterpreter>::new();
    let result = brainfuck_interpreter
        .crack("+-<>,.[]", &get_athena_checker())
        .unencrypted_text;
    assert!(result.is_none());
}

#[test]
fn brainfuck_successful_wrapping() {
    let brainfuck_interpreter = Decoder::<BrainfuckInterpreter>::new();
    let result =
        brainfuck_interpreter.crack("+++++++++++[---]<-....>-....", &get_athena_checker());
    assert_eq!(result.unencrypted_text.unwrap()[0], "ÿÿÿÿÿÿÿÿ");
}

#[test]
fn brainfuck_fail_loop_closed_before_it_is_opened() {
    // As many opening as closing brackets, but the first one closes
    let brainfuck_interpreter = Decoder::<BrainfuckInterpreter>::new();
    let code = "]++++++++++++++++++++++[.....";
    assert!(!is_program(code));
    let result = brainfuck_interpreter
        .crack(code, &get_athena_checker())
        .unencrypted_text;
    assert!(result.is_none());
}

#[test]
fn brainfuck_fail_program_that_never_ends() {
    // Plausible and runnable, but it spins for ever: given up at the limit
    let brainfuck_interpreter = Decoder::<BrainfuckInterpreter>::new();
    let code = "++++++++++++++++++++.....+[].";
    assert!(is_program(code));
    let result = brainfuck_interpreter
        .crack(code, &get_athena_checker())
        .unencrypted_text;
    assert!(result.is_none());
}

#[test]
fn brainfuck_guards_count_instructions() {
    // 19 instructions and 5 prints: one instruction short
    assert!(!is_program("+++++++++++++++++++....."));
    // 20 instructions and 4 prints: one print short
    assert!(!is_program("++++++++++++++++++++...."));
    // 20 instructions and 5 prints
    assert!(is_program("++++++++++++++++++++....."));
}

#[test]
fn brainfuck_descriptor_is_as_documented() {
    let brainfuck_interpreter = Decoder::<BrainfuckInterpreter>::new();
    assert_eq!(brainfuck_interpreter.get_name(), "Brainfuck");
    assert_eq!(brainfuck_interpreter.get_link(), "https://en.wikipedia.org/wiki/Brainfuck");
    assert_eq!(brainfuck_interpreter.get_tags(), &vec!["decoder", "brainfuck"]);
    assert_eq!(brainfuck_interpreter.get_popularity(), 60);
}
