use ciphey::checkers::athena::Athena;
use ciphey::checkers::checker_result::CheckResult;
use ciphey::checkers::checker_type::{Check, CheckInfo, Checker, Sensitivity};
use ciphey::checkers::english::{english_verdict, EnglishChecker};
use ciphey::checkers::human_checker::{human_checker, human_reply, HumanDecision, SeenPrompts};
use ciphey::checkers::lemmeknow_checker::{identify_format, LemmeKnow};
use ciphey::checkers::regex_checker::{builtin_patterns, find_first_hit, RegexChecker};
use ciphey::checkers::CheckerTypes;
use ciphey::config::Config;
use ciphey::storage::database::init_database;
use ciphey::timer::Timer;

#[test]
fn checkers_identify_themselves() {
    let athena = Checker::<Athena>::new();
    assert_eq!(athena.get_name(), "Athena Checker");
    assert_eq!(athena.get_description(), "Runs all available checkers");
    assert_eq!(athena.link, "");
    assert_eq!(athena.tags, vec!["athena", "all"]);
    assert_eq!(athena.get_sensitivity(), Sensitivity::Medium);
    assert_eq!(athena.regex_list, builtin_patterns());

    let english = Checker::<EnglishChecker>::new();
    assert_eq!(english.get_name(), "English Checker");
    assert_eq!(
        english.get_description(),
        "Uses gibberish detection to check if text is meaningful English"
    );
    assert_eq!(english.tags, vec!["english", "nlp"]);
    assert_eq!(english.popularity, 100);
    assert_eq!(english.expected_runtime, 10);

    let lemmeknow = Checker::<LemmeKnow>::new();
    assert_eq!(lemmeknow.get_name(), "LemmeKnow Checker");
    assert_eq!(lemmeknow.tags, vec!["lemmeknow", "regex"]);

    let regex = Checker::<RegexChecker>::new();
    assert_eq!(regex.get_name(), "Regex Checker");
    assert_eq!(regex.tags, vec!["regex"]);
    assert_eq!(regex.regex_list.len(), 3);
}

#[test]
fn sensitivity_is_set_and_read_back() {
    let english = Checker::<EnglishChecker>::new().with_sensitivity(Sensitivity::High);
    assert_eq!(english.get_sensitivity(), Sensitivity::High);
    assert_eq!(english.name, "English Checker");
    let athena = Checker::<Athena>::new().with_sensitivity(Sensitivity::Low);
    assert_eq!(athena.get_sensitivity(), Sensitivity::Low);
    assert_eq!(athena.regex_list.len(), 3);
    assert_eq!(
        CheckerTypes::CheckAthena(athena).get_sensitivity(),
        Sensitivity::Low
    );
}

#[test]
fn blank_verdict_names_the_checker() {
    let checker = Checker::<Athena>::new();
    let blank = CheckResult::new(&checker);
    assert!(!blank.is_identified);
    assert_eq!(blank.text, "");
    assert_eq!(blank.description, "");
    assert_eq!(blank.checker_name, "Athena Checker");
    assert_eq!(blank.checker_description, "Runs all available checkers");
    assert_eq!(blank.link, "");
    let copy = blank.duplicate();
    assert_eq!(copy.checker_name, blank.checker_name);
    assert_eq!(copy.text, blank.text);
}

#[test]
fn english_verdict_follows_the_detector() {
    let checker = Checker::<EnglishChecker>::new();
    let yes = english_verdict(&checker, "hello world", false);
    assert!(yes.is_identified);
    assert_eq!(yes.text, "hello world");
    assert_eq!(yes.description, "Words");
    assert_eq!(yes.checker_name, "English Checker");
    assert_eq!(yes.link, "https://crates.io/crates/gibberish-or-not");
    let no = english_verdict(&checker, "zxcvbnm", true);
    assert!(!no.is_identified);
    assert_eq!(no.text, "zxcvbnm");
    assert_eq!(no.description, "");
}

#[test]
fn english_checker_tells_words_from_noise() {
    let checker = Checker::<EnglishChecker>::new();
    assert!(checker.check("hello world").is_identified);
    assert!(!checker.check("xkcd vwpq mntb").is_identified);
}

#[test]
fn regex_checker_takes_the_first_pattern_that_matches() {
    let mut checker = Checker::<RegexChecker>::new();
    checker.regex_list = vec![
        String::from("^x+$"),
        String::from("("),
        String::from("^[a-z]+$"),
        String::from("^abc$"),
    ];
    let hit = checker.check("abc");
    assert!(hit.is_identified);
    assert_eq!(hit.description, "^[a-z]+$");
    assert_eq!(hit.text, "abc");
    assert_eq!(hit.checker_name, "Regex Checker");
    assert_eq!(find_first_hit(&checker.regex_list, "abc"), Some(2));
    assert_eq!(find_first_hit(&checker.regex_list, "xx"), Some(0));
    let miss = checker.check("ABC");
    assert!(!miss.is_identified);
    assert_eq!(miss.description, "");
    assert_eq!(miss.text, "ABC");
    assert_eq!(find_first_hit(&checker.regex_list, "ABC"), None);
    // A pattern that does not compile never matches
    assert_eq!(find_first_hit(&vec![String::from("(")], "("), None);
}

#[test]
fn builtin_patterns_know_addresses() {
    let checker = Checker::<RegexChecker>::new();
    assert!(checker.check("someone@example.com").is_identified);
    assert!(checker.check("https://example.com/path?x=1").is_identified);
    assert!(checker.check("192.168.0.1").is_identified);
    assert!(!checker.check("hello world").is_identified);
    assert_eq!(find_first_hit(&builtin_patterns(), "someone@example.com"), Some(0));
    assert_eq!(find_first_hit(&builtin_patterns(), "http://example.com"), Some(1));
    assert_eq!(find_first_hit(&builtin_patterns(), "10.0.0.1"), Some(2));
}

#[test]
fn format_catalogue_needs_a_rare_entry() {
    // A YouTube channel id is a rare format
    assert_eq!(
        identify_format("UC11L3JDgDQMyH8iolKkVZ4w", false),
        Some(String::from("YouTube Channel ID"))
    );
    // Anything with a colon is a key and a value: too common to count
    assert_eq!(identify_format("a:b", false), None);
    assert_eq!(identify_format("hello world", false), None);
    let checker = Checker::<LemmeKnow>::new();
    let hit = checker.check("UC11L3JDgDQMyH8iolKkVZ4w");
    assert!(hit.is_identified);
    assert_eq!(hit.description, "YouTube Channel ID");
    assert_eq!(hit.checker_name, "LemmeKnow Checker");
    let miss = checker.check("a:b");
    assert!(!miss.is_identified);
    assert_eq!(miss.text, "a:b");
    assert_eq!(miss.description, "");
    // In part: the channel id inside a sentence
    assert_eq!(identify_format("see UC11L3JDgDQMyH8iolKkVZ4w now", false), None);
    assert!(identify_format("see UC11L3JDgDQMyH8iolKkVZ4w now", true).is_some());
}

#[test]
fn athena_returns_the_first_positive_verdict() {
    let athena = Checker::<Athena>::new();
    // The regex patterns come first
    let mail = athena.check("someone@example.com");
    assert!(mail.is_identified);
    assert_eq!(mail.checker_name, "Regex Checker");
    assert_eq!(mail.text, "someone@example.com");
    // Then the format catalogue
    let id = athena.check("UC11L3JDgDQMyH8iolKkVZ4w");
    assert!(id.is_identified);
    assert_eq!(id.checker_name, "LemmeKnow Checker");
    assert_eq!(id.description, "YouTube Channel ID");
    // Then the English detector
    let words = athena.check("hello world");
    assert!(words.is_identified);
    assert_eq!(words.checker_name, "English Checker");
    assert_eq!(words.description, "Words");
    // Nothing matches: a negative verdict in Athena's own name
    let noise = athena.check("xkcd vwpq mntb");
    assert!(!noise.is_identified);
    assert_eq!(noise.checker_name, "Athena Checker");
    assert_eq!(noise.checker_description, "Runs all available checkers");
    assert_eq!(noise.text, "xkcd vwpq mntb");
    assert_eq!(noise.description, "");
}

#[test]
fn athena_has_a_length_gate() {
    let mut athena = Checker::<Athena>::new();
    athena.regex_list = vec![String::from("^.$")];
    // One character: the patterns are not even asked
    let short = athena.check("a");
    assert!(!short.is_identified);
    assert_eq!(short.checker_name, "Athena Checker");
    assert_eq!(short.text, "a");
    let empty = athena.check("");
    assert!(!empty.is_identified);
    // Two characters are enough
    athena.regex_list = vec![String::from("^..$")];
    let two = athena.check("ab");
    assert!(two.is_identified);
    assert_eq!(two.checker_name, "Regex Checker");
    // Characters are counted, not bytes
    athena.regex_list = vec![String::from("^.$")];
    assert!(!athena.check("ÿ").is_identified);
}

#[test]
fn checker_types_pass_the_text_on() {
    for checker in [
        CheckerTypes::CheckAthena(Checker::<Athena>::new()),
        CheckerTypes::CheckEnglish(Checker::<EnglishChecker>::new()),
        CheckerTypes::CheckLemmeKnow(Checker::<LemmeKnow>::new()),
        CheckerTypes::CheckRegex(Checker::<RegexChecker>::new()),
    ] {
        let verdict = checker.check("192.168.0.1");
        assert_eq!(verdict.text, "192.168.0.1");
    }
    let regex = CheckerTypes::CheckRegex(Checker::<RegexChecker>::new());
    assert!(regex.check("192.168.0.1").is_identified);
    let english = CheckerTypes::CheckEnglish(Checker::<EnglishChecker>::new());
    assert_eq!(english.check("192.168.0.1").checker_name, "English Checker");
}

fn identified(text: &str, description: &str) -> CheckResult {
    CheckResult {
        is_identified: true,
        text: text.to_string(),
        description: description.to_string(),
        checker_name: "English Checker",
        checker_description: "Uses gibberish detection to check if text is meaningful English",
        link: "https://crates.io/crates/gibberish-or-not",
    }
}

#[test]
fn human_checker_confirms_without_a_human_in_the_loop() {
    let mut seen = SeenPrompts::new();
    let mut timer = Timer::start(0);
    let input = identified("hello world", "Words");
    let config = Config::default();
    assert_eq!(
        human_checker(&input, &config, &mut seen, &mut timer, 50),
        HumanDecision::Confirmed
    );
    // The clock was stopped and started again
    assert!(!timer.is_paused());
    assert_eq!(timer.elapsed(50), 50);
    let mut config = Config::default();
    config.human_checker_on = true;
    config.api_mode = true;
    assert_eq!(
        human_checker(&input, &config, &mut seen, &mut timer, 60),
        HumanDecision::Confirmed
    );
    // Nothing was remembered: with a human in the loop the prompt is new
    config.api_mode = false;
    assert_eq!(
        human_checker(&input, &config, &mut seen, &mut timer, 70),
        HumanDecision::Ask
    );
}

#[test]
fn human_checker_asks_once() {
    let mut seen = SeenPrompts::new();
    let mut db = init_database().unwrap();
    let mut timer = Timer::start(0);
    let mut config = Config::default();
    config.human_checker_on = true;
    let input = identified("hello world", "Words");

    assert_eq!(
        human_checker(&input, &config, &mut seen, &mut timer, 100),
        HumanDecision::Ask
    );
    // The clock stands still while the human thinks
    assert!(timer.is_paused());
    assert_eq!(timer.elapsed(100), 100);
    assert_eq!(timer.elapsed(9_000), 100);
    assert!(human_reply(&input, "y", &mut seen, &mut db, &mut timer, 9_000));
    assert!(!timer.is_paused());
    assert_eq!(timer.elapsed(9_050), 150);
    assert_eq!(db.failed_decodes_rows().len(), 0);

    // The same prompt again: the earlier yes stands
    assert_eq!(
        human_checker(&input, &config, &mut seen, &mut timer, 9_100),
        HumanDecision::Confirmed
    );
    assert!(!timer.is_paused());

    // Another pair is another prompt, also where description and text run
    // together to the same characters
    let other_pair = identified(" world", "Wordshello");
    assert_eq!(
        human_checker(&other_pair, &config, &mut seen, &mut timer, 9_100),
        HumanDecision::Ask
    );
    assert!(human_reply(&other_pair, "y", &mut seen, &mut db, &mut timer, 9_100));
    let other = identified("hello world", "Other");
    assert_eq!(
        human_checker(&other, &config, &mut seen, &mut timer, 9_100),
        HumanDecision::Ask
    );
}

#[test]
fn human_refusal_is_remembered_and_written_down() {
    let mut seen = SeenPrompts::new();
    let mut db = init_database().unwrap();
    let mut timer = Timer::start(0);
    let mut config = Config::default();
    config.human_checker_on = true;
    let input = identified("hello world", "Words");

    assert_eq!(
        human_checker(&input, &config, &mut seen, &mut timer, 100),
        HumanDecision::Ask
    );
    assert!(!human_reply(&input, "nope", &mut seen, &mut db, &mut timer, 200));
    assert!(!timer.is_paused());
    let rows = db.failed_decodes_rows();
    assert_eq!(rows.len(), 1);
    assert_eq!(rows[0].id, 1);
    assert_eq!(rows[0].plaintext, "hello world");
    assert_eq!(rows[0].checker, "English Checker");
    assert!(db.has_refused("hello world", "English Checker"));
    assert_eq!(
        human_checker(&input, &config, &mut seen, &mut timer, 300),
        HumanDecision::Refused
    );
}

#[test]
fn replies_that_mean_yes() {
    let input = identified("hello world", "Words");
    for (reply, expected) in [
        ("y", true),
        ("Y", true),
        ("yes", true),
        ("Yeah, sure", true),
        ("n", false),
        ("no", false),
        ("", false),
        (" y", false),
        ("maybe yes", false),
    ] {
        let mut seen = SeenPrompts::new();
        let mut db = init_database().unwrap();
        let mut timer = Timer::start(0);
        timer.pause(0);
        assert_eq!(
            human_reply(&input, reply, &mut seen, &mut db, &mut timer, 1),
            expected,
            "reply {:?}",
            reply
        );
        assert_eq!(db.failed_decodes_rows().len(), if expected { 0 } else { 1 });
    }
}

#[test]
fn prompts_are_remembered_by_pair() {
    let mut seen = SeenPrompts::new();
    let mut db = init_database().unwrap();
    let mut timer = Timer::start(0);
    let mut config = Config::default();
    config.human_checker_on = true;
    let first = identified("c", "ab");
    let second = identified("bc", "a");
    assert_eq!(
        human_checker(&first, &config, &mut seen, &mut timer, 1),
        HumanDecision::Ask
    );
    assert!(!human_reply(&first, "no", &mut seen, &mut db, &mut timer, 2));
    // ("a", "bc") is not ("ab", "c"): it is asked, and not taken for refused
    assert_eq!(
        human_checker(&second, &config, &mut seen, &mut timer, 3),
        HumanDecision::Ask
    );
    assert!(human_reply(&second, "yes", &mut seen, &mut db, &mut timer, 4));
    assert_eq!(
        human_checker(&first, &config, &mut seen, &mut timer, 5),
        HumanDecision::Refused
    );
    assert_eq!(
        human_checker(&second, &config, &mut seen, &mut timer, 6),
        HumanDecision::Confirmed
    );
    // A description that holds the marks of the key does not confuse it
    let marked = identified("x", "#:");
    let other = identified(":x", "#");
    assert_eq!(
        human_checker(&marked, &config, &mut seen, &mut timer, 7),
        HumanDecision::Ask
    );
    assert_eq!(
        human_checker(&other, &config, &mut seen, &mut timer, 8),
        HumanDecision::Ask
    );
    assert_eq!(timer.pause_depth, 2);
}
