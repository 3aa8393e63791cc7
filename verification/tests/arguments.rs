use toml_label::args::{find_char, parse_file_argument};
use toml_label::error::{ArgumentFault, LabelError};

fn path_of(args: &str) -> String {
    parse_file_argument(args).unwrap()
}

fn fault_of(args: &str) -> ArgumentFault {
    match parse_file_argument(args).unwrap_err() {
        LabelError::ArgumentFormat(fault) => fault,
        other => panic!("unexpected failure: {:?}", other),
    }
}

#[test]
fn quoted_path_is_extracted() {
    assert_eq!(path_of("file = \"labels.toml\""), "labels.toml");
}

#[test]
fn path_without_spaces_around_the_sign() {
    assert_eq!(path_of("file=\"labels.toml\""), "labels.toml");
}

#[test]
fn white_space_around_the_argument_is_ignored() {
    assert_eq!(path_of("  \t file   =   \"data/labels.toml\"  \n"), "data/labels.toml");
}

#[test]
fn unicode_white_space_is_trimmed() {
    assert_eq!(path_of("\u{2003}file =\u{a0}\"a.toml\"\u{3000}"), "a.toml");
}

#[test]
fn white_space_inside_the_quotes_is_kept() {
    assert_eq!(path_of("file = \" my labels.toml \""), " my labels.toml ");
}

#[test]
fn path_without_quotes_is_taken_as_it_is() {
    assert_eq!(path_of("file = labels.toml"), "labels.toml");
}

#[test]
fn every_quote_at_the_ends_is_stripped() {
    assert_eq!(path_of("file = \"\"a\"b\"\"\""), "a\"b");
    assert_eq!(path_of("file = \"half"), "half");
    assert_eq!(path_of("file = half\""), "half");
}

#[test]
fn path_of_quotes_only_is_empty() {
    assert_eq!(path_of("file = \"\""), "");
    assert_eq!(path_of("file ="), "");
    assert_eq!(path_of("file =   "), "");
}

#[test]
fn path_is_all_that_follows_the_first_sign() {
    assert_eq!(path_of("file = \"a=b.toml\""), "a=b.toml");
    assert_eq!(path_of("file == x"), "= x");
}

#[test]
fn key_is_tested_as_a_prefix() {
    assert_eq!(path_of("filename = \"x.toml\""), "x.toml");
    assert_eq!(path_of("file_a=b"), "b");
}

#[test]
fn absolute_path_is_accepted() {
    assert_eq!(path_of("file = \"/etc/labels/all.toml\""), "/etc/labels/all.toml");
}

#[test]
fn two_segments_are_refused() {
    assert_eq!(fault_of("file = \"a.toml\", other = 1"), ArgumentFault::SegmentCount);
}

#[test]
fn comma_in_the_path_is_refused() {
    assert_eq!(fault_of("file = \"a,b.toml\""), ArgumentFault::SegmentCount);
}

#[test]
fn trailing_comma_is_refused() {
    assert_eq!(fault_of("file = \"a.toml\","), ArgumentFault::SegmentCount);
    assert_eq!(fault_of(","), ArgumentFault::SegmentCount);
}

#[test]
fn segment_count_comes_before_the_key() {
    assert_eq!(fault_of("path = \"a.toml\", file = \"b.toml\""), ArgumentFault::SegmentCount);
}

#[test]
fn wrong_key_is_refused() {
    let error = parse_file_argument("path = \"x.toml\"").unwrap_err();
    assert_eq!(error, LabelError::ArgumentFormat(ArgumentFault::NotFileArgument));
    assert!(error.message().contains("file = \"path\""));
    assert!(error.is_located());
}

#[test]
fn missing_sign_is_refused() {
    assert_eq!(fault_of("file \"x.toml\""), ArgumentFault::NotFileArgument);
    assert_eq!(fault_of("file"), ArgumentFault::NotFileArgument);
}

#[test]
fn empty_argument_list_is_refused() {
    assert_eq!(fault_of(""), ArgumentFault::NotFileArgument);
    assert_eq!(fault_of("   "), ArgumentFault::NotFileArgument);
}

#[test]
fn key_in_upper_case_is_refused() {
    assert_eq!(fault_of("File = \"x.toml\""), ArgumentFault::NotFileArgument);
    assert_eq!(fault_of("fil = \"x.toml\""), ArgumentFault::NotFileArgument);
}

#[test]
fn key_behind_other_text_is_refused() {
    assert_eq!(fault_of("= file"), ArgumentFault::NotFileArgument);
    assert_eq!(fault_of("\"file\" = x"), ArgumentFault::NotFileArgument);
}

#[test]
fn messages_of_the_argument_faults() {
    assert_eq!(
        LabelError::ArgumentFormat(ArgumentFault::SegmentCount).message(),
        "Expected format: file = \"path\""
    );
    assert_eq!(
        LabelError::ArgumentFormat(ArgumentFault::NotFileArgument).message(),
        "First argument must be file path, expected format: file = \"path\""
    );
    assert!(LabelError::ArgumentFormat(ArgumentFault::SegmentCount).is_located());
}

#[test]
fn find_char_gives_the_first_position() {
    let chars: Vec<char> = "a=b=c".chars().collect();
    assert_eq!(find_char(&chars, 0, 5, '='), 1);
    assert_eq!(find_char(&chars, 2, 5, '='), 3);
    assert_eq!(find_char(&chars, 4, 5, '='), 5);
    assert_eq!(find_char(&chars, 0, 1, '='), 1);
    assert_eq!(find_char(&chars, 3, 3, '='), 3);
}
