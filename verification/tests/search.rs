use ciphey::checkers::checker_type::Sensitivity;
use ciphey::checkers::human_checker::SeenPrompts;
use ciphey::config::Config;
use ciphey::search::engine::{athena_for, search, Search, SearchStep};
use ciphey::search::solution::{SearchError, Solution};
use ciphey::storage::database::{init_database, read_cache, Database};

fn run_on(db: &mut Database, input: &str, config: Config) -> Result<Solution, SearchError> {
    let checker = athena_for(&config);
    let mut prompts = SeenPrompts::new();
    search(input, config, checker, db, &mut prompts)
}

fn run(input: &str, config: Config) -> Result<Solution, SearchError> {
    let mut db = init_database().unwrap();
    run_on(&mut db, input, config)
}

fn decoders_of(solution: &Solution) -> Vec<&'static str> {
    solution.path.iter().map(|record| record.decoder).collect()
}

fn with_human() -> Config {
    let mut config = Config::default();
    config.human_checker_on = true;
    config
}

/// Steps until the search asks or ends.
fn advance(
    engine: &mut Search,
    db: &mut Database,
    prompts: &mut SeenPrompts,
    now: u64,
) -> SearchStep {
    loop {
        match engine.step(db, prompts, now) {
            SearchStep::Continue => {}
            other => return other,
        }
    }
}

#[test]
fn search_decodes_base64() {
    let solution = run("aGVsbG8gd29ybGQ=", Config::default()).unwrap();
    assert_eq!(solution.plaintext, "hello world");
    assert_eq!(decoders_of(&solution), vec!["Base64"]);
    assert!(solution.path[0].success);
    assert_eq!(solution.path[0].encrypted_text, "aGVsbG8gd29ybGQ=");
    assert_eq!(
        solution.path[0].unencrypted_text,
        Some(vec![String::from("hello world")])
    );
    assert_eq!(solution.path[0].checker_name, "English Checker");
}

#[test]
fn search_decodes_base32() {
    let solution = run("NBSWY3DPEB3W64TMMQ======", Config::default()).unwrap();
    assert_eq!(solution.plaintext, "hello world");
    assert_eq!(decoders_of(&solution), vec!["base32"]);
}

#[test]
fn search_decodes_base91() {
    let solution = run("TPwJh>Io2Tv!lE", Config::default()).unwrap();
    assert_eq!(solution.plaintext, "hello world");
    assert_eq!(decoders_of(&solution), vec!["Base91"]);
}

#[test]
fn search_decodes_base65536() {
    // The pangram spreads over so many letters that the detector needs the
    // sensitivity at which the spread alone does not decide.
    let mut config = Config::default();
    config.sensitivity = Sensitivity::High;
    let solution = run("𒅓鹨𖡮𒀠啦ꍢ顡啫𓍱𓁡𠁴唬𓍪鱤啥𖥭𔐠𔕯ᔮ", config).unwrap();
    assert_eq!(solution.plaintext, "Sphinx of black quartz, judge my vow.");
    assert_eq!(decoders_of(&solution), vec!["Base65536"]);
}

#[test]
fn search_runs_brainfuck() {
    let solution = run(
        ">++++++++[<+++++++++>-]<.>++++[<+++++++>-]<+.+++++++..+++.>>++++++[<+++++++>-]<++.------------.>++++++[<+++++++++>-]<+.<.+++.------.--------.>>>++++[<++++++++>-]<+.",
        Config::default(),
    )
    .unwrap();
    assert_eq!(solution.plaintext, "Hello, World!");
    assert_eq!(decoders_of(&solution), vec!["Brainfuck"]);
}

#[test]
fn search_goes_through_several_layers() {
    // Base64 of Base64 of Base32 of "hello"
    let inner = data_encoding::BASE32.encode(b"hello");
    let middle = data_encoding::BASE64.encode(inner.as_bytes());
    let outer = data_encoding::BASE64.encode(middle.as_bytes());
    assert_eq!(outer, "VGtKVFYxa3pSRkE9");
    let solution = run(&outer, Config::default()).unwrap();
    assert_eq!(solution.plaintext, "hello");
    assert!(solution.path.len() >= 2);
    assert_eq!(decoders_of(&solution), vec!["Base64", "Base64", "base32"]);
    // Every record continues where the one before it ended
    assert_eq!(solution.path[0].encrypted_text, outer);
    for i in 1..solution.path.len() {
        let before = solution.path[i - 1].unencrypted_text.clone().unwrap();
        assert!(before.contains(&solution.path[i].encrypted_text));
    }
    let last = solution.path.last().unwrap();
    assert!(last.unencrypted_text.clone().unwrap().contains(&solution.plaintext));
    assert!(last.success);
}

#[test]
fn search_does_not_make_up_a_plaintext() {
    // Not a chain of the encodings of the registry: nothing comes of it
    let result = run("NmQybGQ2cjN3TkRBMmJtMTJOdz09", Config::default());
    match result {
        Ok(solution) => panic!("made up {:?}", solution),
        Err(e) => assert!(matches!(e, SearchError::Exhausted | SearchError::TimedOut)),
    }
}

#[test]
fn search_does_not_end_with_noise() {
    let result = run("hello good day!", Config::default());
    match result {
        Ok(solution) => {
            let by = solution.path.last().unwrap().checker_name;
            assert!(by == "Regex Checker" || by == "LemmeKnow Checker");
            assert!(!decoders_of(&solution).contains(&"base32"));
        }
        Err(e) => assert!(matches!(e, SearchError::Exhausted | SearchError::TimedOut)),
    }
}

#[test]
fn search_refuses_empty_input() {
    let mut db = init_database().unwrap();
    let result = run_on(&mut db, "", Config::default());
    assert!(matches!(result, Err(SearchError::InvalidInput)));
    assert_eq!(db.cache_rows().len(), 0);
    let checker = athena_for(&Config::default());
    assert!(matches!(
        Search::new("", Config::default(), checker, 0),
        Err(SearchError::InvalidInput)
    ));
}

#[test]
fn search_records_its_solution_in_the_cache() {
    let mut db = init_database().unwrap();
    let solution = run_on(&mut db, "aGVsbG8gd29ybGQ=", Config::default()).unwrap();
    let row = read_cache(&db, &String::from("aGVsbG8gd29ybGQ="))
        .unwrap()
        .unwrap();
    assert_eq!(row.id, 1);
    assert_eq!(row.decoded_text, "hello world");
    assert!(row.successful);
    assert_eq!(row.execution_time_ms as u64, solution.elapsed_ms);
    assert_eq!(row.path, vec![solution.path[0].get_json().unwrap()]);
}

#[test]
fn search_twice_returns_the_same_solution() {
    let mut db = init_database().unwrap();
    let first = run_on(&mut db, "VGtKVFYxa3pSRkE9", Config::default()).unwrap();
    assert_eq!(db.cache_rows().len(), 1);
    let second = run_on(&mut db, "VGtKVFYxa3pSRkE9", Config::default()).unwrap();
    assert_eq!(second.plaintext, first.plaintext);
    assert_eq!(second.path, first.path);
    assert_eq!(second.elapsed_ms, first.elapsed_ms);
    // The second answer came from the cache: nothing was added
    assert_eq!(db.cache_rows().len(), 1);
}

#[test]
fn search_answers_from_the_cache_in_one_step() {
    let mut db = init_database().unwrap();
    let first = run_on(&mut db, "aGVsbG8gd29ybGQ=", Config::default()).unwrap();
    let config = Config::default();
    let checker = athena_for(&config);
    let mut prompts = SeenPrompts::new();
    let mut engine = Search::new("aGVsbG8gd29ybGQ=", config, checker, 0).unwrap();
    match engine.step(&mut db, &mut prompts, 0) {
        SearchStep::Done(Ok(solution)) => {
            assert_eq!(solution.plaintext, first.plaintext);
            assert_eq!(solution.path, first.path);
            assert_eq!(solution.elapsed_ms, first.elapsed_ms);
        }
        other => panic!("no hit: {:?}", other),
    }
    assert_eq!(engine.checker_calls(), 0);
    assert_eq!(engine.candidates_seen(), 0);
}

#[test]
fn search_uses_the_cache_below_the_root() {
    let mut db = init_database().unwrap();
    // "TkJTV1kzRFA=" is Base64 of Base32 of "hello"
    let inner = run_on(&mut db, "TkJTV1kzRFA=", Config::default()).unwrap();
    assert_eq!(decoders_of(&inner), vec!["Base64", "base32"]);
    let outer = run_on(&mut db, "VGtKVFYxa3pSRkE9", Config::default()).unwrap();
    assert_eq!(outer.plaintext, "hello");
    assert_eq!(decoders_of(&outer), vec!["Base64", "Base64", "base32"]);
    assert_eq!(&outer.path[1..], &inner.path[..]);
    assert_eq!(db.cache_rows().len(), 2);
}

#[test]
fn search_calls_the_checker_once_per_candidate() {
    let mut db = init_database().unwrap();
    let config = Config::default();
    let checker = athena_for(&config);
    let mut prompts = SeenPrompts::new();
    // Base64 and Base32 both read this text, and neither to any end
    let mut engine = Search::new("NVBHI2JX", config, checker, 0).unwrap();
    let mut steps = 0;
    loop {
        let step = engine.step(&mut db, &mut prompts, 0);
        assert!(engine.checker_calls() <= engine.candidates_seen());
        steps += 1;
        if let SearchStep::Done(_) = step {
            break;
        }
        assert!(steps < 10_000);
    }
    assert_eq!(engine.candidates_seen(), 2);
    assert_eq!(engine.checker_calls(), 2);
}

#[test]
fn search_times_out_when_the_clock_says_so() {
    let mut db = init_database().unwrap();
    let config = Config::default();
    let checker = athena_for(&config);
    let mut prompts = SeenPrompts::new();
    // Base64 of noise
    let mut engine = Search::new("eGtjZCB2d3BxIG1udGI=", config, checker, 1_000).unwrap();
    // The root is served whatever the clock says
    assert!(matches!(
        engine.step(&mut db, &mut prompts, 1_000_000),
        SearchStep::Continue
    ));
    // Expanding the root takes one step for each of the five decoders, one
    // for the only candidate, which Base64 yields, and one to see that no
    // decoder is left; the clock is read when the next node is due
    for _ in 0..7 {
        assert!(matches!(
            engine.step(&mut db, &mut prompts, 5_999),
            SearchStep::Continue
        ));
    }
    assert_eq!(engine.candidates_seen(), 1);
    assert_eq!(engine.elapsed(5_999), 4_999);
    // 5 s after the start the budget is used up
    assert!(matches!(
        engine.step(&mut db, &mut prompts, 6_000),
        SearchStep::Done(Err(SearchError::TimedOut))
    ));
}

#[test]
fn search_gives_up_when_the_steps_run_out() {
    let mut config = Config::default();
    config.max_steps = 4;
    let result = run("VGtKVFYxa3pSRkE9", config);
    assert!(matches!(result, Err(SearchError::Exhausted)));
}

#[test]
fn search_does_not_expand_below_the_depth_limit() {
    let mut config = Config::default();
    config.max_depth = 2;
    // Three layers are one too many
    let result = run("VGtKVFYxa3pSRkE9", config);
    assert!(matches!(result, Err(SearchError::Exhausted)));
    let mut config = Config::default();
    config.max_depth = 3;
    assert_eq!(run("VGtKVFYxa3pSRkE9", config).unwrap().plaintext, "hello");
}

#[test]
fn search_without_a_human_at_hand_confirms_nothing() {
    let mut db = init_database().unwrap();
    let result = run_on(&mut db, "aGVsbG8gd29ybGQ=", with_human());
    assert!(matches!(
        result,
        Err(SearchError::Exhausted | SearchError::TimedOut)
    ));
    // A prompt that failed is no refusal
    assert_eq!(db.failed_decodes_rows().len(), 0);
    assert_eq!(db.cache_rows().len(), 0);
}

#[test]
fn search_in_api_mode_asks_nobody() {
    let mut config = with_human();
    config.api_mode = true;
    let solution = run("aGVsbG8gd29ybGQ=", config).unwrap();
    assert_eq!(solution.plaintext, "hello world");
}

#[test]
fn human_says_yes() {
    let mut db = init_database().unwrap();
    let config = with_human();
    let checker = athena_for(&config);
    let mut prompts = SeenPrompts::new();
    let mut engine = Search::new("aGVsbG8gd29ybGQ=", config, checker, 0).unwrap();
    match advance(&mut engine, &mut db, &mut prompts, 10) {
        SearchStep::AskHuman(shown) => {
            assert!(shown.is_identified);
            assert_eq!(shown.text, "hello world");
            assert_eq!(shown.checker_name, "English Checker");
        }
        other => panic!("no prompt: {:?}", other),
    }
    // The prompt stays until it is answered, and the clock stands still
    assert!(matches!(
        engine.step(&mut db, &mut prompts, 20),
        SearchStep::AskHuman(_)
    ));
    assert_eq!(engine.elapsed(10), 10);
    assert_eq!(engine.elapsed(5_000), 10);
    match engine.answer(&mut db, &mut prompts, Some("Yes please"), 5_000) {
        SearchStep::Done(Ok(solution)) => {
            assert_eq!(solution.plaintext, "hello world");
            assert_eq!(solution.elapsed_ms, 10);
        }
        other => panic!("not accepted: {:?}", other),
    }
    assert_eq!(db.failed_decodes_rows().len(), 0);
    assert_eq!(db.cache_rows().len(), 1);
}

#[test]
fn human_says_no() {
    let mut db = init_database().unwrap();
    let mut prompts = SeenPrompts::new();
    let config = with_human();
    let checker = athena_for(&config);
    let mut engine = Search::new("aGVsbG8gd29ybGQ=", config, checker, 0).unwrap();
    assert!(matches!(
        advance(&mut engine, &mut db, &mut prompts, 10),
        SearchStep::AskHuman(_)
    ));
    assert!(matches!(
        engine.answer(&mut db, &mut prompts, Some("no"), 20),
        SearchStep::Continue
    ));
    // The refusal is written down under the checker that had identified
    let rows = db.failed_decodes_rows();
    assert_eq!(rows.len(), 1);
    assert_eq!(rows[0].id, 1);
    assert_eq!(rows[0].plaintext, "hello world");
    assert_eq!(rows[0].checker, "English Checker");
    // The search goes on past the candidate and finds nothing else
    assert!(matches!(
        advance(&mut engine, &mut db, &mut prompts, 30),
        SearchStep::Done(Err(SearchError::Exhausted))
    ));
    assert_eq!(db.cache_rows().len(), 0);

    // A later search does not offer the candidate again, to nobody
    let config = with_human();
    let checker = athena_for(&config);
    let mut later = Search::new("aGVsbG8gd29ybGQ=", config, checker, 0).unwrap();
    let mut fresh_prompts = SeenPrompts::new();
    assert!(matches!(
        advance(&mut later, &mut db, &mut fresh_prompts, 10),
        SearchStep::Done(Err(SearchError::Exhausted))
    ));
    let result = run_on(&mut db, "aGVsbG8gd29ybGQ=", Config::default());
    assert!(matches!(result, Err(SearchError::Exhausted)));
    assert_eq!(db.failed_decodes_rows().len(), 1);
}

#[test]
fn an_empty_reply_is_a_no() {
    let mut db = init_database().unwrap();
    let mut prompts = SeenPrompts::new();
    let config = with_human();
    let checker = athena_for(&config);
    let mut engine = Search::new("aGVsbG8gd29ybGQ=", config, checker, 0).unwrap();
    assert!(matches!(
        advance(&mut engine, &mut db, &mut prompts, 10),
        SearchStep::AskHuman(_)
    ));
    assert!(matches!(
        engine.answer(&mut db, &mut prompts, Some(""), 20),
        SearchStep::Continue
    ));
    assert_eq!(db.failed_decodes_rows().len(), 1);
    // An answer that nobody waits for changes nothing
    assert!(matches!(
        engine.answer(&mut db, &mut prompts, Some("yes"), 20),
        SearchStep::Continue
    ));
    assert_eq!(db.cache_rows().len(), 0);
}

#[test]
fn a_prompt_is_shown_once_per_process() {
    let mut prompts = SeenPrompts::new();

    // First search: the human refuses, and the store cannot write it down
    let mut db = Database::new();
    let config = with_human();
    let checker = athena_for(&config);
    let mut engine = Search::new("aGVsbG8gd29ybGQ=", config, checker, 0).unwrap();
    assert!(matches!(
        advance(&mut engine, &mut db, &mut prompts, 10),
        SearchStep::AskHuman(_)
    ));
    assert!(matches!(
        engine.answer(&mut db, &mut prompts, Some("n"), 20),
        SearchStep::Continue
    ));
    assert_eq!(db.failed_decodes_rows().len(), 0);

    // Second search, same process: no prompt, and the refusal stands
    let config = with_human();
    let checker = athena_for(&config);
    let mut engine = Search::new("aGVsbG8gd29ybGQ=", config, checker, 0).unwrap();
    assert!(matches!(
        advance(&mut engine, &mut db, &mut prompts, 10),
        SearchStep::Done(Err(SearchError::Exhausted))
    ));

    // What a human has confirmed is not asked again either
    let config = with_human();
    let checker = athena_for(&config);
    let mut engine = Search::new("NBSWY3DP", config, checker, 0).unwrap();
    assert!(matches!(
        advance(&mut engine, &mut db, &mut prompts, 10),
        SearchStep::AskHuman(_)
    ));
    assert!(matches!(
        engine.answer(&mut db, &mut prompts, Some("y"), 20),
        SearchStep::Done(Ok(_))
    ));
    let config = with_human();
    let checker = athena_for(&config);
    let mut engine = Search::new("NBSWY3DP", config, checker, 0).unwrap();
    match advance(&mut engine, &mut db, &mut prompts, 10) {
        SearchStep::Done(Ok(solution)) => assert_eq!(solution.plaintext, "hello"),
        other => panic!("asked again: {:?}", other),
    }
}

#[test]
fn a_refused_cache_row_is_not_an_answer() {
    let mut db = init_database().unwrap();
    let first = run_on(&mut db, "aGVsbG8gd29ybGQ=", Config::default()).unwrap();
    assert_eq!(first.plaintext, "hello world");
    // Later a human refuses that plaintext under the checker of the row
    let config = with_human();
    let checker = athena_for(&config);
    let mut prompts = SeenPrompts::new();
    // "YUdWc2JHOGdkMjl5YkdRPQ==" is Base64 of "aGVsbG8gd29ybGQ="
    let mut engine = Search::new("YUdWc2JHOGdkMjl5YkdRPQ==", config, checker, 0).unwrap();
    // The cache answers for the node below the root, without a prompt
    match advance(&mut engine, &mut db, &mut prompts, 10) {
        SearchStep::Done(Ok(solution)) => {
            assert_eq!(solution.plaintext, "hello world");
            assert_eq!(decoders_of(&solution), vec!["Base64", "Base64"]);
        }
        other => panic!("no hit: {:?}", other),
    }
    let refusal = ciphey::checkers::checker_result::CheckResult {
        is_identified: true,
        text: String::from("hello world"),
        description: String::from("Words"),
        checker_name: "English Checker",
        checker_description: "",
        link: "",
    };
    let _ = ciphey::storage::database::insert_failed_decodes(
        &mut db,
        &String::from("hello world"),
        &refusal,
    );
    let again = run_on(&mut db, "aGVsbG8gd29ybGQ=", Config::default());
    assert!(matches!(again, Err(SearchError::Exhausted)));
}

#[test]
fn user_patterns_are_plaintext_markers() {
    // "Zmxhe2FiY30=" is Base64 of "fla{abc}"
    let result = run("Zmxhe2FiY30=", Config::default());
    assert!(result.is_err());
    let mut config = Config::default();
    config.regex_list = vec![String::from(r"^fla\{[a-z]+\}$")];
    let solution = run("Zmxhe2FiY30=", config).unwrap();
    assert_eq!(solution.plaintext, "fla{abc}");
    let last = solution.path.last().unwrap();
    assert_eq!(last.checker_name, "Regex Checker");
    assert_eq!(decoders_of(&solution), vec!["Base64"]);
}

#[test]
fn search_errors_in_words() {
    assert_eq!(SearchError::TimedOut.message(), "the search ran out of time");
    assert_eq!(SearchError::Exhausted.message(), "nothing is left to try");
    assert_eq!(SearchError::InvalidInput.message(), "the input is empty");
    assert_eq!(
        SearchError::StoreError(String::from("disk full")).message(),
        "the store failed: disk full"
    );
}

#[test]
fn search_knows_its_most_promising_chain() {
    let mut db = init_database().unwrap();
    let config = Config::default();
    let checker = athena_for(&config);
    let mut prompts = SeenPrompts::new();
    // Base64 and Base32 both read this text, and both make noise of it
    let mut engine = Search::new("NVBHI2JX", config, checker, 0).unwrap();
    // Before the first step the input itself waits
    assert_eq!(engine.best_known().unwrap().text, "NVBHI2JX");
    assert_eq!(engine.best_known().unwrap().depth, 0);
    // Serve the root and apply all decoders to it
    for _ in 0..8 {
        assert!(matches!(
            engine.step(&mut db, &mut prompts, 0),
            SearchStep::Continue
        ));
    }
    // Two children: the Base64 one scores higher than the Base32 one
    let best = engine.best_known().unwrap();
    assert_eq!(best.text, "5PG#bW");
    assert_eq!(best.depth, 1);
    assert_eq!(best.path.len(), 1);
    assert_eq!(best.path[0].decoder, "Base64");
    assert_eq!(best.priority, 1000 + 1000 - 5);
    assert_eq!(engine.candidates_seen(), 2);
    assert!(matches!(
        advance(&mut engine, &mut db, &mut prompts, 0),
        SearchStep::Done(Err(SearchError::Exhausted))
    ));
    assert!(engine.best_known().is_none());
}

#[test]
fn a_yes_does_not_overrule_a_refusal_in_the_store() {
    let mut db = init_database().unwrap();
    let mut prompts = SeenPrompts::new();
    let config = with_human();
    let checker = athena_for(&config);
    let mut engine = Search::new("aGVsbG8gd29ybGQ=", config, checker, 0).unwrap();
    let shown = match advance(&mut engine, &mut db, &mut prompts, 10) {
        SearchStep::AskHuman(shown) => shown,
        other => panic!("no prompt: {:?}", other),
    };
    // While the prompt is open the candidate is refused elsewhere
    let _ = ciphey::storage::database::insert_failed_decodes(&mut db, &shown.text, &shown);
    assert!(matches!(
        engine.answer(&mut db, &mut prompts, Some("yes"), 20),
        SearchStep::Continue
    ));
    assert_eq!(db.cache_rows().len(), 0);
    assert_eq!(db.failed_decodes_rows().len(), 1);
    // The candidate was kept for later: it is the most promising chain
    assert_eq!(engine.best_known().unwrap().text, "hello world");
    assert_eq!(engine.elapsed(25), 15);
}
