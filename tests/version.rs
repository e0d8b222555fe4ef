use c_to_wasm_compiler::error::{ProcessOutput, VersionError};
use c_to_wasm_compiler::version::{version_from_output, version_from_text, Version, VERSION_PREFIX};

const LINE: &str = "emcc (Emscripten gcc/clang-like replacement + linker emulating GNU ld) 3.1.74 (1092ec30a3fb1d46b1782ff1b4db5094d3d06ae5)\nclang version 20.0.0git\n";

fn ok_output(stdout: &[u8]) -> ProcessOutput {
    ProcessOutput { exit_code: Some(0), stdout: stdout.to_vec(), stderr: Vec::new() }
}

#[test]
fn version_of_a_typical_report() {
    let v = version_from_output(ok_output(LINE.as_bytes())).unwrap();
    assert_eq!(v, Version { major: 3, minor: 1, patch: 74 });
}

#[test]
fn unmatched_text_is_handed_back() {
    let text = "gcc (GCC) 13.2.0\n";
    match version_from_output(ok_output(text.as_bytes())) {
        Err(VersionError::PatternNotMatched(s)) => assert_eq!(s, text),
        other => panic!("unexpected {:?}", other),
    }
}

#[test]
fn empty_output_matches_nothing() {
    assert!(matches!(version_from_text(""), Err(VersionError::PatternNotMatched(s)) if s.is_empty()));
}

#[test]
fn first_version_line_counts() {
    let text = format!(
        "noise é {}1.2.3 (abc_XYZ)\n{}4.5.6 (def)\n",
        VERSION_PREFIX, VERSION_PREFIX
    );
    assert_eq!(version_from_text(&text).unwrap(), Version { major: 1, minor: 2, patch: 3 });
}

#[test]
fn a_broken_line_is_skipped() {
    let text = format!("{}1.2 (x)\n{}0.0.0 ()", VERSION_PREFIX, VERSION_PREFIX);
    assert_eq!(version_from_text(&text).unwrap(), Version { major: 0, minor: 0, patch: 0 });
}

#[test]
fn tag_must_be_closed() {
    let text = format!("{}1.2.3 (abc-def)", VERSION_PREFIX);
    assert!(matches!(version_from_text(&text), Err(VersionError::PatternNotMatched(_))));
}

#[test]
fn leading_zero_is_malformed() {
    let text = format!("{}1.02.3 (x)", VERSION_PREFIX);
    match version_from_text(&text) {
        Err(VersionError::MalformedVersion(number, _)) => assert_eq!(number, "1.02.3"),
        other => panic!("unexpected {:?}", other),
    }
}

#[test]
fn empty_component_is_malformed() {
    let text = format!("{}1..3 (x)", VERSION_PREFIX);
    match version_from_text(&text) {
        Err(VersionError::MalformedVersion(number, _)) => assert_eq!(number, "1..3"),
        other => panic!("unexpected {:?}", other),
    }
}

#[test]
fn component_beyond_u64_is_malformed() {
    let text = format!("{}18446744073709551616.0.0 (x)", VERSION_PREFIX);
    assert!(matches!(version_from_text(&text), Err(VersionError::MalformedVersion(_, _))));
    let text = format!("{}18446744073709551615.0.10 (x)", VERSION_PREFIX);
    assert_eq!(
        version_from_text(&text).unwrap(),
        Version { major: u64::MAX, minor: 0, patch: 10 }
    );
}

#[test]
fn failed_invocation_is_reported() {
    let out = ProcessOutput { exit_code: Some(1), stdout: LINE.as_bytes().to_vec(), stderr: b"no".to_vec() };
    match version_from_output(out) {
        Err(VersionError::InvocationFailed(o)) => assert_eq!(o.stderr, b"no".to_vec()),
        other => panic!("unexpected {:?}", other),
    }
}

#[test]
fn output_that_is_not_text() {
    let bytes = vec![b'e', 0xff, 0xfe];
    match version_from_output(ok_output(&bytes)) {
        Err(VersionError::OutputNotText(b)) => assert_eq!(b, bytes),
        other => panic!("unexpected {:?}", other),
    }
}

#[test]
fn build_tag_may_hold_any_word_character() {
    let text = format!("{}1.2.3 (é_ß٣)", VERSION_PREFIX);
    assert_eq!(version_from_text(&text).unwrap(), Version { major: 1, minor: 2, patch: 3 });
}

#[test]
fn a_line_with_a_unicode_tag_comes_first() {
    let text = format!("junk {}1.2.3 (ünïcode)\n{}4.5.6 (abc)", VERSION_PREFIX, VERSION_PREFIX);
    assert_eq!(version_from_text(&text).unwrap(), Version { major: 1, minor: 2, patch: 3 });
}

#[test]
fn non_ascii_digit_in_the_number_is_malformed() {
    let text = format!("{}1.2.3٣ (x)\n{}4.5.6 (abc)", VERSION_PREFIX, VERSION_PREFIX);
    match version_from_text(&text) {
        Err(VersionError::MalformedVersion(number, _)) => assert_eq!(number, "1.2.3٣"),
        other => panic!("unexpected {:?}", other),
    }
    let text = format!("{}१.२.३ (x)", VERSION_PREFIX);
    match version_from_text(&text) {
        Err(VersionError::MalformedVersion(number, _)) => assert_eq!(number, "१.२.३"),
        other => panic!("unexpected {:?}", other),
    }
}

#[test]
fn punctuation_other_than_connectors_ends_the_tag() {
    let text = format!("{}1.2.3 (a‿b)", VERSION_PREFIX);
    assert!(version_from_text(&text).is_ok());
    let text = format!("{}1.2.3 (a·b)", VERSION_PREFIX);
    assert!(matches!(version_from_text(&text), Err(VersionError::PatternNotMatched(_))));
}
