use os1_hermes::output::{
    cap_memory_context, capture_result, combine_output, compact_single_line, compact_tail,
    compact_text, decode_command_output, parse_keyed_output, parse_profile_command_output,
    summarize_command_error, CommandCapture,
};

fn utf16le(text: &str) -> Vec<u8> {
    text.encode_utf16().flat_map(|u| u.to_le_bytes()).collect()
}

#[test]
fn decodes_utf8_without_nuls() {
    assert_eq!(decode_command_output(b"hello\0 world\n"), "hello world\n");
    assert_eq!(decode_command_output(b"caf\xc3\xa9"), "café");
    assert_eq!(decode_command_output(b"bad \xff byte"), "bad \u{fffd} byte");
    assert_eq!(decode_command_output(b""), "");
    assert_eq!(decode_command_output(&[0x41]), "A");
}

#[test]
fn decodes_utf16_output_of_wsl_list() {
    let mut bytes = vec![0xff, 0xfe];
    bytes.extend(utf16le("Ubuntu\r\ndocker-desktop\r\n"));
    assert_eq!(decode_command_output(&bytes), "Ubuntu\r\ndocker-desktop\r\n");
    // Few NULs in the first 32 bytes: read as UTF-8.
    assert_eq!(decode_command_output(b"a\0b\0c"), "abc");
}

#[test]
fn keyed_values() {
    let out = "home=/home/ana\ncli=yes\n  hermes_home = no\nhermes_home=no ";
    assert_eq!(parse_keyed_output(out, "home").as_deref(), Some("/home/ana"));
    assert_eq!(parse_keyed_output(out, "cli").as_deref(), Some("yes"));
    assert_eq!(parse_keyed_output(out, "hermes_home").as_deref(), Some("no"));
    assert_eq!(parse_keyed_output(out, "missing"), None);
}

#[test]
fn single_line_and_tail() {
    assert_eq!(compact_single_line("\n  \n  hermes 1.2.3  \nmore"), "hermes 1.2.3");
    assert_eq!(compact_single_line("   "), "");
    assert_eq!(compact_tail("a\n\n b \nc\nd\n", 2), "c\nd");
    assert_eq!(compact_tail("a\nb", 8), "a\nb");
    assert_eq!(compact_tail("x\ny", 0), "");
}

#[test]
fn compact_text_keeps_the_end() {
    assert_eq!(compact_text("  abcdef  ", 4), "cdef");
    assert_eq!(compact_text("  abc ", 10), "abc");
    assert_eq!(compact_text("ééééé", 2), "éé");
}

#[test]
fn memory_context_is_capped() {
    let (text, cut) = cap_memory_context("short", 10);
    assert_eq!((text.as_str(), cut), ("short", false));
    let (text, cut) = cap_memory_context("abc def ghi", 4);
    assert!(cut);
    assert_eq!(text, "abc\n\n[Memory context truncated. Use memory search for deeper recall.]");
}

#[test]
fn exit_marker_is_read_back() {
    let command_output = "line one\n\nline three";
    for code in [0, 1, 127, 255] {
        let printed = format!("{command_output}\n__OS1_EXIT__:{code}\n");
        let (output, exit_code) = parse_profile_command_output(&printed);
        assert_eq!(output, command_output);
        assert_eq!(exit_code, code);
    }
    // What the wrapper printed after the marker (error output) is left out.
    let (output, exit_code) = parse_profile_command_output("ok\n__OS1_EXIT__:3\n\nwarning");
    assert_eq!((output.as_str(), exit_code), ("ok", 3));
}

#[test]
fn exit_marker_code_survives_carriage_returns() {
    for code in [0, -1, 42, i32::MAX, i32::MIN] {
        let printed = format!("dos\r\nline\r\n__OS1_EXIT__:{code}\n");
        let (output, exit_code) = parse_profile_command_output(&printed);
        assert_eq!(exit_code, code);
        assert_eq!(output, "dos\nline");
    }
    let (output, exit_code) = parse_profile_command_output("\r\n__OS1_EXIT__:7\n");
    assert_eq!((output.as_str(), exit_code), ("", 7));
}

#[test]
fn exit_marker_edge_cases() {
    assert_eq!(parse_profile_command_output("no marker\r\nhere"), ("no marker\nhere".to_string(), 0));
    assert_eq!(parse_profile_command_output("x\n  __OS1_EXIT__: oops "), ("x".to_string(), 1));
    assert_eq!(
        parse_profile_command_output("__OS1_EXIT__:2\nmid\n__OS1_EXIT__:5"),
        ("__OS1_EXIT__:2\nmid".to_string(), 5)
    );
}

#[test]
fn command_errors_are_summarized() {
    let e = CommandCapture { stdout: "out".into(), stderr: "first\n  last line  \n\n".into(), code: Some(2) };
    assert_eq!(summarize_command_error(&e), "last line (exit 2)");
    let e = CommandCapture { stdout: " only stdout ".into(), stderr: "  ".into(), code: None };
    assert_eq!(summarize_command_error(&e), "only stdout");
    let e = CommandCapture { stdout: "".into(), stderr: "".into(), code: Some(9) };
    assert_eq!(summarize_command_error(&e), "Command exited with status 9.");
    let e = CommandCapture { stdout: "".into(), stderr: "".into(), code: None };
    assert_eq!(summarize_command_error(&e), "Command failed before it could start.");
}

#[test]
fn streams_are_combined() {
    assert_eq!(combine_output("out\n", "  err \n"), "out\n\nerr");
    assert_eq!(combine_output("  ", "err"), "  err");
    assert_eq!(combine_output("out", " "), "out");
    match capture_result(true, b"ok", b"", Some(0)) {
        Ok(s) => assert_eq!(s, "ok"),
        Err(e) => panic!("{e:?}"),
    }
    match capture_result(false, b"o", b"e", Some(1)) {
        Err(e) => {
            assert_eq!((e.stdout.as_str(), e.stderr.as_str(), e.code), ("o", "e", Some(1)));
        },
        Ok(s) => panic!("{s}"),
    }
}
