use vidpipe::asset::transformed_output_path;
use vidpipe::errors::FetchError;
use vidpipe::metadata::interpret_fetch_metadata;
use vidpipe::probe::{parse_probe_output, ProbeError};
use vidpipe::text::{parse_u32, split_lines, str_eq, strip_occurrences};

#[test]
fn fetch_metadata_reads_filename_and_title() {
    let doc = r#"{"title": "My Clip", "_filename": "./videos/My Clip.mp4"}"#;
    let info = interpret_fetch_metadata(doc).unwrap();
    assert_eq!(info.local_path, "./videos/My Clip.mp4");
    assert_eq!(info.title, "My Clip");
}

#[test]
fn fetch_metadata_strips_the_short_form_marker() {
    let doc = r#"{"title": "My Clip #shortvideo", "_filename": "a.mp4"}"#;
    let info = interpret_fetch_metadata(doc).unwrap();
    assert_eq!(info.title, "My Clip");
}

#[test]
fn fetch_metadata_defaults_the_title() {
    let doc = r#"{"_filename": "a.mp4"}"#;
    let info = interpret_fetch_metadata(doc).unwrap();
    assert_eq!(info.title, "Unknown Title");
}

#[test]
fn fetch_metadata_requires_a_filename() {
    assert_eq!(
        interpret_fetch_metadata(r#"{"title": "My Clip"}"#),
        Err(FetchError::MissingFilename)
    );
    assert_eq!(
        interpret_fetch_metadata(r#"{"title": "My Clip", "_filename": ""}"#),
        Err(FetchError::MissingFilename)
    );
    assert_eq!(interpret_fetch_metadata("not json"), Err(FetchError::MissingFilename));
}

#[test]
fn marker_is_removed_everywhere() {
    assert_eq!(
        strip_occurrences("a #shortvideo b #shortvideo", " #shortvideo"),
        "a b"
    );
    assert_eq!(strip_occurrences("abcabc", "abc"), "");
    assert_eq!(strip_occurrences("abc", "xyz"), "abc");
    assert_eq!(strip_occurrences("aaa", "aa"), "a");
}

#[test]
fn string_equality_is_by_characters() {
    assert!(str_eq("abc", "abc"));
    assert!(!str_eq("abc", "abd"));
    assert!(!str_eq("abc", "ab"));
    assert!(str_eq("", ""));
}

#[test]
fn decimal_parsing_is_exact() {
    assert_eq!(parse_u32("0"), Some(0));
    assert_eq!(parse_u32("1920"), Some(1920));
    assert_eq!(parse_u32("4294967295"), Some(u32::MAX));
    assert_eq!(parse_u32("4294967296"), None);
    assert_eq!(parse_u32(""), None);
    assert_eq!(parse_u32("12a"), None);
    assert_eq!(parse_u32("-5"), None);
}

#[test]
fn lines_split_at_newlines() {
    assert_eq!(split_lines("1920\n1080\n23.4"), vec!["1920", "1080", "23.4"]);
    assert_eq!(split_lines("1920\r\n1080\r\n23.4\r\n"), vec!["1920", "1080", "23.4"]);
    assert_eq!(split_lines(""), Vec::<String>::new());
    assert_eq!(split_lines("a\n\nb"), vec!["a", "", "b"]);
}

#[test]
fn probe_output_yields_dimensions() {
    let p = parse_probe_output("1920\n1080\n23.417000\n").unwrap();
    assert_eq!(p.width, 1920);
    assert_eq!(p.height, 1080);
    assert_eq!(p.duration_line, "23.417000");
}

#[test]
fn probe_output_rejects_bad_dimensions() {
    assert_eq!(parse_probe_output("0\n1080\n23.4"), Err(ProbeError::InvalidDimensions));
    assert_eq!(parse_probe_output("x\n1080\n23.4"), Err(ProbeError::InvalidDimensions));
    assert_eq!(parse_probe_output("1920\n1080"), Err(ProbeError::MissingFields));
    assert_eq!(parse_probe_output(""), Err(ProbeError::MissingFields));
}

#[test]
fn transform_output_path_derives_from_the_input() {
    assert_eq!(transformed_output_path("a.mp4"), "a.mp4_compressed.mp4");
}
