use as_tree::options::{parse_tokens, usage_text, Colorize, Options, ParseOutcome};

fn tokens(words: &[&str]) -> Vec<String> {
    words.iter().map(|w| w.to_string()).collect()
}

fn accepted(outcome: ParseOutcome) -> Options {
    match outcome {
        ParseOutcome::Accepted(options) => options,
        other => panic!("expected an accepted configuration, got {:?}", other),
    }
}

fn rejected(outcome: ParseOutcome) -> (String, String) {
    match outcome {
        ParseOutcome::Rejected(d) => (d.message, d.token),
        other => panic!("expected a rejection, got {:?}", other),
    }
}

#[test]
fn empty_invocation_asks_for_usage() {
    assert!(matches!(parse_tokens(&tokens(&[])), ParseOutcome::NoTokens));
}

#[test]
fn program_name_only_gives_defaults() {
    let options = accepted(parse_tokens(&tokens(&["as-tree"])));
    assert_eq!(options.filename, None);
    assert_eq!(options.colorize, Colorize::Auto);
}

#[test]
fn help_short_flag() {
    assert!(matches!(parse_tokens(&tokens(&["as-tree", "-h"])), ParseOutcome::Help));
}

#[test]
fn help_long_flag_after_valid_tokens() {
    let outcome = parse_tokens(&tokens(&["as-tree", "--color", "always", "--help", "x"]));
    assert!(matches!(outcome, ParseOutcome::Help));
}

#[test]
fn color_always() {
    let options = accepted(parse_tokens(&tokens(&["as-tree", "--color", "always"])));
    assert_eq!(options.colorize, Colorize::Always);
}

#[test]
fn color_auto() {
    let options = accepted(parse_tokens(&tokens(&["as-tree", "--color", "auto"])));
    assert_eq!(options.colorize, Colorize::Auto);
}

#[test]
fn color_never() {
    let options = accepted(parse_tokens(&tokens(&["as-tree", "--color", "never"])));
    assert_eq!(options.colorize, Colorize::Never);
}

#[test]
fn color_invalid_value() {
    let (message, token) = rejected(parse_tokens(&tokens(&["as-tree", "--color", "sometimes"])));
    assert_eq!(message, "Unrecognized option: --color");
    assert_eq!(token, "sometimes");
}

#[test]
fn color_value_is_case_sensitive() {
    let (message, token) = rejected(parse_tokens(&tokens(&["as-tree", "--color", "Always"])));
    assert_eq!(message, "Unrecognized option: --color");
    assert_eq!(token, "Always");
}

#[test]
fn color_missing_value() {
    let (message, token) = rejected(parse_tokens(&tokens(&["as-tree", "--color"])));
    assert_eq!(message, "Unrecognized option:");
    assert_eq!(token, "--color");
}

#[test]
fn color_consumes_next_token_without_lookahead() {
    let (message, token) = rejected(parse_tokens(&tokens(&["as-tree", "--color", "-h"])));
    assert_eq!(message, "Unrecognized option: --color");
    assert_eq!(token, "-h");
}

#[test]
fn single_positional_names_the_input_file() {
    let options = accepted(parse_tokens(&tokens(&["as-tree", "paths.txt"])));
    assert_eq!(options.filename, Some("paths.txt".to_string()));
    assert_eq!(options.colorize, Colorize::Auto);
}

#[test]
fn non_ascii_positional_is_accepted() {
    let options = accepted(parse_tokens(&tokens(&["as-tree", "überblick.txt"])));
    assert_eq!(options.filename, Some("überblick.txt".to_string()));
}

#[test]
fn extra_argument_is_rejected() {
    let (message, token) = rejected(parse_tokens(&tokens(&["as-tree", "a.txt", "b.txt"])));
    assert_eq!(message, "Extra argument:");
    assert_eq!(token, "b.txt");
}

#[test]
fn empty_token_is_rejected() {
    let (message, token) = rejected(parse_tokens(&tokens(&["as-tree", ""])));
    assert_eq!(message, "Unrecognized argument:");
    assert_eq!(token, "");
}

#[test]
fn unknown_option_is_rejected() {
    let (message, token) = rejected(parse_tokens(&tokens(&["as-tree", "--bogus"])));
    assert_eq!(message, "Unrecognized option:");
    assert_eq!(token, "--bogus");
}

#[test]
fn lone_dash_is_an_unknown_option() {
    let (message, token) = rejected(parse_tokens(&tokens(&["as-tree", "-"])));
    assert_eq!(message, "Unrecognized option:");
    assert_eq!(token, "-");
}

#[test]
fn repeated_color_last_write_wins() {
    let words = ["as-tree", "--color", "always", "--color", "never"];
    let options = accepted(parse_tokens(&tokens(&words)));
    assert_eq!(options.colorize, Colorize::Never);
}

#[test]
fn color_and_filename_together() {
    let words = ["as-tree", "--color", "always", "notes.txt"];
    let options = accepted(parse_tokens(&tokens(&words)));
    assert_eq!(options.filename, Some("notes.txt".to_string()));
    assert_eq!(options.colorize, Colorize::Always);
}

#[test]
fn filename_before_flag_is_order_independent() {
    let words = ["as-tree", "notes.txt", "--color", "never"];
    let options = accepted(parse_tokens(&tokens(&words)));
    assert_eq!(options.filename, Some("notes.txt".to_string()));
    assert_eq!(options.colorize, Colorize::Never);
}

#[test]
fn colorize_from_str_recognizes_the_three_literals() {
    assert_eq!(Colorize::from_str("always"), Ok(Colorize::Always));
    assert_eq!(Colorize::from_str("auto"), Ok(Colorize::Auto));
    assert_eq!(Colorize::from_str("never"), Ok(Colorize::Never));
}

#[test]
fn colorize_from_str_rejects_everything_else() {
    assert_eq!(Colorize::from_str(""), Err(()));
    assert_eq!(Colorize::from_str("Always"), Err(()));
    assert_eq!(Colorize::from_str("alway"), Err(()));
    assert_eq!(Colorize::from_str("neverr"), Err(()));
}

#[test]
fn colorize_default_is_auto() {
    assert_eq!(Colorize::default(), Colorize::Auto);
}

#[test]
fn options_default_has_no_overrides() {
    let options = Options::default();
    assert_eq!(options.filename, None);
    assert_eq!(options.colorize, Colorize::Auto);
}

#[test]
fn usage_text_is_the_fixed_block() {
    let expected = "Print a list of paths as a tree of paths.\n\nUsage:\n  as-tree [options] [<filename>]\n\nArguments:\n  <filename>        The file to read from. When omitted, reads from stdin.\n\nOptions:\n  --color (always|auto|never)\n                    Whether to colorize the output [default: auto]\n  -h, --help        Print this help message\n\nExample:\n  find . -name '*.txt' | as-tree\n";
    assert_eq!(usage_text(), expected);
}
