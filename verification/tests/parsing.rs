use command_mode::command::{parse_user_input, Commands};
use command_mode::error::CommandError;
use command_mode::text::{find_char, parse_count, same_text, slice, unescape_spaces};

fn parsed(line: &str) -> Result<(Commands, String), CommandError> {
    parse_user_input(line.to_string())
}

#[test]
fn short_and_long_names_give_the_same_command() {
    assert_eq!(Commands::from_str("q"), Ok(Commands::Quit));
    assert_eq!(Commands::from_str("quit"), Ok(Commands::Quit));
    assert_eq!(Commands::from_str("sort"), Ok(Commands::Sort));
    assert_eq!(Commands::from_str("ng"), Ok(Commands::NewGlob));
    assert_eq!(Commands::from_str("newglob"), Ok(Commands::NewGlob));
    assert_eq!(Commands::from_str("?"), Ok(Commands::Help));
    assert_eq!(Commands::from_str("help"), Ok(Commands::Help));
    assert_eq!(Commands::from_str("r"), Ok(Commands::Reverse));
    assert_eq!(Commands::from_str("reverse"), Ok(Commands::Reverse));
    assert_eq!(Commands::from_str("df"), Ok(Commands::DestFolder));
    assert_eq!(Commands::from_str("destfolder"), Ok(Commands::DestFolder));
    assert_eq!(Commands::from_str("m"), Ok(Commands::MaximumImages));
    assert_eq!(Commands::from_str("max"), Ok(Commands::MaximumImages));
}

#[test]
fn unknown_word_is_reported_with_the_word() {
    assert_eq!(
        Commands::from_str("bogus"),
        Err(CommandError::UnknownCommand { token: "bogus".to_string() })
    );
    assert_eq!(
        Commands::from_str(""),
        Err(CommandError::UnknownCommand { token: String::new() })
    );
}

#[test]
fn names_are_matched_letter_for_letter() {
    assert!(Commands::from_str("Quit").is_err());
    assert!(Commands::from_str("SORT").is_err());
    assert!(Commands::from_str("q ").is_err());
    assert!(Commands::from_str("d").is_err());
    assert!(Commands::from_str("s").is_err());
}

#[test]
fn line_is_split_at_its_first_space() {
    assert_eq!(parsed("df /tmp/out"), Ok((Commands::DestFolder, "/tmp/out".to_string())));
    assert_eq!(parsed("help"), Ok((Commands::Help, String::new())));
    assert_eq!(parsed("q"), Ok((Commands::Quit, String::new())));
    assert_eq!(parsed("quit"), Ok((Commands::Quit, String::new())));
    assert_eq!(parsed("m 3"), Ok((Commands::MaximumImages, "3".to_string())));
}

#[test]
fn argument_is_not_trimmed() {
    assert_eq!(parsed("ng  a b "), Ok((Commands::NewGlob, " a b ".to_string())));
    assert_eq!(parsed("sort "), Ok((Commands::Sort, String::new())));
    assert_eq!(parsed("ng a\\ b/*.png"), Ok((Commands::NewGlob, "a\\ b/*.png".to_string())));
}

#[test]
fn unknown_command_line_reports_only_the_word() {
    assert_eq!(
        parsed("bogus"),
        Err(CommandError::UnknownCommand { token: "bogus".to_string() })
    );
    assert_eq!(
        parsed("bogus with arguments"),
        Err(CommandError::UnknownCommand { token: "bogus".to_string() })
    );
    assert_eq!(parsed(" q"), Err(CommandError::UnknownCommand { token: String::new() }));
}

#[test]
fn line_with_wide_characters_is_split_by_characters() {
    assert_eq!(parsed("ng früh/ä*.png"), Ok((Commands::NewGlob, "früh/ä*.png".to_string())));
    assert_eq!(
        parsed("höhe 3"),
        Err(CommandError::UnknownCommand { token: "höhe".to_string() })
    );
}

#[test]
fn messages_say_what_went_wrong() {
    assert_eq!(
        CommandError::UnknownCommand { token: "bogus".to_string() }.message(),
        "No such command \"bogus\""
    );
    assert_eq!(
        CommandError::MissingGlob.message(),
        "Command \"newglob\" or \":ng\" requires a glob"
    );
    assert_eq!(
        CommandError::MissingDestFolder.message(),
        "Command \":destfolder\" or \":d\" requires a path"
    );
    assert_eq!(
        CommandError::MissingMaximum.message(),
        "Command \":max\" or \":m\" requires a new maximum number of files to display"
    );
    assert_eq!(
        CommandError::InvalidSortOrder { message: "no such order".to_string() }.message(),
        "no such order"
    );
    assert_eq!(
        CommandError::NotACount { value: "x1".to_string() }.message(),
        "\"x1\" is not a positive integer"
    );
    assert_eq!(
        CommandError::UndefinedVariable {
            name: "HOME2".to_string(),
            cause: "environment variable not found".to_string()
        }
        .message(),
        "\"HOME2\": environment variable not found"
    );
    assert_eq!(
        CommandError::PatternError { message: "bad pattern".to_string() }.message(),
        "bad pattern"
    );
    assert_eq!(
        CommandError::UnexpectedPath { message: "denied".to_string() }.message(),
        "Unexpected path denied"
    );
    assert_eq!(
        CommandError::NoImagesFound { path: "/tmp/none".to_string() }.message(),
        "Path \"/tmp/none\" had no images"
    );
    assert_eq!(
        CommandError::TooManyArguments.message(),
        "Newglob accepts only one argument, but more were provided"
    );
}

#[test]
fn find_char_gives_the_first_place_or_the_length() {
    assert_eq!(find_char("df /tmp/out", ' '), 2);
    assert_eq!(find_char("help", ' '), 4);
    assert_eq!(find_char("", ' '), 0);
    assert_eq!(find_char(" a b", ' '), 0);
    assert_eq!(find_char("äö ü", ' '), 2);
}

#[test]
fn slice_counts_characters() {
    assert_eq!(slice("hello", 1, 3), "el");
    assert_eq!(slice("hello", 0, 5), "hello");
    assert_eq!(slice("hello", 2, 2), "");
    assert_eq!(slice("äöü", 1, 3), "öü");
}

#[test]
fn same_text_compares_characters() {
    assert!(same_text("sort", "sort"));
    assert!(!same_text("sort", "sorT"));
    assert!(!same_text("sort", "sor"));
    assert!(same_text("", ""));
}

#[test]
fn escaped_spaces_become_plain() {
    assert_eq!(unescape_spaces("/tmp/My\\ Folder"), "/tmp/My Folder");
    assert_eq!(unescape_spaces("a\\ b\\ c"), "a b c");
    assert_eq!(unescape_spaces("no escapes"), "no escapes");
    assert_eq!(unescape_spaces(""), "");
    assert_eq!(unescape_spaces("\\"), "\\");
    assert_eq!(unescape_spaces("a\\b"), "a\\b");
    assert_eq!(unescape_spaces("\\\\ "), "\\ ");
    assert_eq!(unescape_spaces("\\ \\ "), "  ");
    assert_eq!(unescape_spaces("ä\\ ö"), "ä ö");
}

#[test]
fn counts_are_decimal_digits_with_an_optional_plus() {
    assert_eq!(parse_count("3"), Some(3));
    assert_eq!(parse_count("0"), Some(0));
    assert_eq!(parse_count("007"), Some(7));
    assert_eq!(parse_count("+12"), Some(12));
    assert_eq!(parse_count("1234567890"), Some(1234567890));
}

#[test]
fn text_that_writes_no_count_is_turned_down() {
    assert_eq!(parse_count(""), None);
    assert_eq!(parse_count("+"), None);
    assert_eq!(parse_count("-1"), None);
    assert_eq!(parse_count("abc"), None);
    assert_eq!(parse_count("12a"), None);
    assert_eq!(parse_count(" 3"), None);
    assert_eq!(parse_count("3 "), None);
    assert_eq!(parse_count("++3"), None);
    assert_eq!(parse_count("3.5"), None);
    assert_eq!(parse_count("٣"), None);
}

#[test]
fn counts_stop_at_the_largest_usize() {
    let largest = format!("{}", usize::MAX);
    assert_eq!(parse_count(&largest), Some(usize::MAX));
    let beyond = format!("{}0", usize::MAX);
    assert_eq!(parse_count(&beyond), None);
    let next = format!("{}", usize::MAX as u128 + 1);
    assert_eq!(parse_count(&next), None);
    assert_eq!(parse_count("99999999999999999999999999999999999999"), None);
}

#[test]
fn counts_agree_with_the_standard_parser() {
    let samples = [
        "0", "1", "42", "+42", "-42", "", "+", "4 2", "0x10", "18446744073709551615",
        "18446744073709551616", "000000000000000000000000001", "1e3", "１２",
    ];
    for sample in samples {
        assert_eq!(parse_count(sample), sample.parse::<usize>().ok(), "{}", sample);
    }
}
