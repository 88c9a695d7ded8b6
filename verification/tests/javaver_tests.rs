use launcher_core::bytes_to_mib;
use launcher_core::javaver::{
    extract_quoted, mentions_version, parse_version_line, parse_version_output, split_lines,
};

#[test]
fn parses_quoted_version_from_typical_line() {
    let line = b"openjdk version \"17.0.2\" 2022-01-18".to_vec();
    assert_eq!(parse_version_line(&line), Some(b"17.0.2".to_vec()));
}

#[test]
fn line_without_version_word_yields_nothing() {
    let line = b"runtime build \"1.8.0\"".to_vec();
    assert!(!mentions_version(&line));
    assert_eq!(parse_version_line(&line), None);
}

#[test]
fn quotes_are_required() {
    assert_eq!(extract_quoted(&b"no quotes here".to_vec()), None);
    assert_eq!(extract_quoted(&b"one \" quote".to_vec()), None);
    assert_eq!(extract_quoted(&b"empty \"\" value".to_vec()), Some(Vec::new()));
}

#[test]
fn first_matching_line_decides() {
    let lines = vec![
        b"Picked up JAVA_TOOL_OPTIONS".to_vec(),
        b"java version \"21\" 2023-09-19 LTS".to_vec(),
        b"java version \"other\"".to_vec(),
    ];
    assert_eq!(parse_version_output(&lines), Some(b"21".to_vec()));
}

#[test]
fn no_output_yields_nothing() {
    let lines: Vec<Vec<u8>> = vec![];
    assert_eq!(parse_version_output(&lines), None);
}

#[test]
fn split_lines_handles_crlf_and_optional_final_newline() {
    assert_eq!(
        split_lines(&b"one\r\ntwo\nthree".to_vec()),
        vec![b"one".to_vec(), b"two".to_vec(), b"three".to_vec()]
    );
    assert_eq!(split_lines(&b"one\n".to_vec()), vec![b"one".to_vec()]);
    assert_eq!(split_lines(&b"one\n\n".to_vec()), vec![b"one".to_vec(), Vec::new()]);
    assert_eq!(split_lines(&Vec::new()), Vec::<Vec<u8>>::new());
}

#[test]
fn version_parse_from_raw_output() {
    let stderr = b"openjdk version \"21.0.1\" 2023-10-17\r\nOpenJDK Runtime\r\n".to_vec();
    let lines = split_lines(&stderr);
    assert_eq!(parse_version_output(&lines), Some(b"21.0.1".to_vec()));
}

#[test]
fn mib_conversion_rounds_down() {
    assert_eq!(bytes_to_mib(3 * 1024 * 1024), 3);
    assert_eq!(bytes_to_mib(3 * 1024 * 1024 + 1024), 3);
    assert_eq!(bytes_to_mib(0), 0);
}
