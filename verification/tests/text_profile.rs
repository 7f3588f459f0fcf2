use os1_hermes::profile::{
    hermes_home_for_profile, hermes_runtime_path, sanitize_profile_slug,
    validate_existing_profile_name, validate_new_profile_name, validate_profile_name_for_runtime,
    HermesRuntime,
};
use os1_hermes::text::{
    format_i32, format_nat, join_strings, lines_of, parse_i32_str, split_char, trim_end_str,
    trim_str, Pat,
};

#[test]
fn format_then_parse_gives_the_number_back() {
    for v in [0, 7, -7, 42, -1000, 2147483647, -2147483648] {
        let text = format_i32(v);
        assert_eq!(text, v.to_string());
        assert_eq!(parse_i32_str(&text), Some(v));
    }
    assert_eq!(format_nat(1234567890123), "1234567890123");
}

#[test]
fn parse_i32_accepts_what_str_parse_accepts() {
    assert_eq!(parse_i32_str("+12"), Some(12));
    assert_eq!(parse_i32_str("-0"), Some(0));
    assert_eq!(parse_i32_str(""), None);
    assert_eq!(parse_i32_str("-"), None);
    assert_eq!(parse_i32_str("12a"), None);
    assert_eq!(parse_i32_str(" 12"), None);
    assert_eq!(parse_i32_str("2147483648"), None);
    assert_eq!(parse_i32_str("-2147483649"), None);
}

#[test]
fn trimming_follows_str_trim() {
    assert_eq!(trim_str("  \t hello world \r\n"), "hello world");
    assert_eq!(trim_str("\u{3000}x\u{a0}"), "x");
    assert_eq!(trim_str("   "), "");
    assert_eq!(trim_end_str("/home/user///", Pat::Ch('/')), "/home/user");
}

#[test]
fn lines_follow_str_lines() {
    let cases = ["", "a", "a\n", "a\r\nb", "a\n\nb\n", "\n", "x\ry\r\n", "\r"];
    for c in cases {
        let expected: Vec<String> = c.lines().map(str::to_string).collect();
        assert_eq!(lines_of(c), expected, "lines of {c:?}");
    }
}

#[test]
fn split_and_join() {
    assert_eq!(split_char(".exe;;.COM", ';'), vec![".exe", "", ".COM"]);
    assert_eq!(split_char("", ';'), vec![""]);
    let parts = vec!["a".to_string(), "b".to_string(), "c".to_string()];
    assert_eq!(join_strings(&parts, ", "), "a, b, c");
    assert_eq!(join_strings(&Vec::new(), ", "), "");
}

#[test]
fn slug_keeps_letters_digits_hyphens_underscores() {
    assert_eq!(sanitize_profile_slug("  My Profile!! ").unwrap(), "my-profile");
    assert_eq!(sanitize_profile_slug("Agent_007").unwrap(), "agent_007");
    assert_eq!(sanitize_profile_slug("--x--").unwrap(), "x");
    assert_eq!(sanitize_profile_slug("Über").unwrap(), "ber");
}

#[test]
fn slug_of_nothing_usable_is_an_error() {
    assert_eq!(sanitize_profile_slug("   ").unwrap_err(), "Memory profile name is empty.");
    assert_eq!(sanitize_profile_slug("!!!").unwrap_err(), "Memory profile name is empty.");
    assert_eq!(sanitize_profile_slug("- - -").unwrap_err(), "Memory profile name is empty.");
    assert_eq!(sanitize_profile_slug("-_-").unwrap(), "_");
    assert_eq!(sanitize_profile_slug("ab -").unwrap(), "ab");
}

#[test]
fn slug_is_cut_at_64_characters() {
    let long = "a".repeat(70);
    assert_eq!(sanitize_profile_slug(&long).unwrap(), "a".repeat(64));
    // A slug cut right after a hyphen keeps it; sanitizing it again drops it.
    let edge = format!("{}-{}", "b".repeat(63), "c".repeat(5));
    let slug = sanitize_profile_slug(&edge).unwrap();
    assert_eq!(slug, format!("{}-", "b".repeat(63)));
    assert_eq!(sanitize_profile_slug(&slug).unwrap(), "b".repeat(63));
}

#[test]
fn profile_names_are_checked() {
    assert_eq!(validate_existing_profile_name("  work_1 ").unwrap(), "work_1");
    assert_eq!(validate_existing_profile_name(" ").unwrap_err(), "Profile name is required.");
    assert_eq!(
        validate_existing_profile_name("..").unwrap_err(),
        "Profile name must be a name, not a path."
    );
    assert_eq!(
        validate_existing_profile_name("a/b").unwrap_err(),
        "Profile names can use letters, numbers, hyphens, and underscores."
    );
    assert_eq!(
        validate_new_profile_name(" default ").unwrap_err(),
        "default is reserved for the base Hermes profile."
    );
    assert_eq!(validate_new_profile_name("Nova").unwrap(), "Nova");
    assert_eq!(validate_profile_name_for_runtime("default").unwrap(), "default");
}

#[test]
fn validating_a_valid_name_again_changes_nothing() {
    let once = validate_existing_profile_name("  scout-2 ").unwrap();
    assert_eq!(validate_existing_profile_name(&once).unwrap(), once);
}

#[test]
fn profile_homes_and_path() {
    assert_eq!(hermes_home_for_profile("/home/u", "default"), "/home/u/.hermes");
    assert_eq!(hermes_home_for_profile("/home/u", "nova"), "/home/u/.hermes/profiles/nova");
    assert_eq!(
        hermes_runtime_path("/home/u"),
        "/home/u/.local/bin:/home/u/.hermes/hermes-agent/venv/bin:/home/u/.cargo/bin:/usr/local/sbin:/usr/local/bin:/usr/sbin:/usr/bin:/sbin:/bin"
    );
}

#[test]
fn runtime_command_lines() {
    let rt = HermesRuntime {
        hermes_home: "/h/.hermes".to_string(),
        hermes_command: "/h/.local/bin/hermes".to_string(),
        path: "/bin".to_string(),
    };
    assert_eq!(rt.env_args(), vec!["env", "HERMES_HOME=/h/.hermes", "PATH=/bin"]);
    assert_eq!(
        rt.command_args(vec!["doctor".to_string()]),
        vec!["env", "HERMES_HOME=/h/.hermes", "PATH=/bin", "/h/.local/bin/hermes", "doctor"]
    );
    let shell = rt.shell_command_args("ls -la");
    assert_eq!(shell.len(), 7);
    assert_eq!(shell[3], "OS1_COMMAND=ls -la");
    assert_eq!(shell[4], "bash");
    assert_eq!(shell[5], "-lc");
    assert!(shell[6].contains("printf '\\n__OS1_EXIT__:%s\\n' \"$code\""));
}
