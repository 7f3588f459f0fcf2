use os1_hermes::status::{
    build_hermes_runtime_status, detect_hermes_blocking, detect_native_hermes, detect_wsl_distros,
    executable_extensions, inspect_hermes_home, inspect_local_home, inspect_wsl_distro,
    inspect_wsl_distro_args, state_database_files, summarize_hermes_detection, HermesHomeStatus,
    HomeEntries, LocalHomeStatus, NativeHermesStatus, WslDistroStatus,
};

fn home(exists: bool) -> HermesHomeStatus {
    let found = HomeEntries {
        is_dir: exists,
        config_yaml: false,
        config_yml: false,
        auth_json: false,
        env_file: false,
        sessions_dir: false,
        skills_dir: false,
        cron_jobs: false,
        kanban_db: false,
        state_files: vec![false; 6],
        profile_dirs: 0,
    };
    inspect_hermes_home("C:\\Users\\ana\\.hermes".to_string(), &found)
}

fn native(available: bool) -> NativeHermesStatus {
    detect_native_hermes(if available { Some("C:\\bin\\hermes.exe".to_string()) } else { None }, None)
}

fn distro(name: &str, cli: bool, hermes_home: bool) -> WslDistroStatus {
    let out = format!(
        "home=/home/ana\ncli={}\nhermes_home={}",
        if cli { "yes" } else { "no" },
        if hermes_home { "yes" } else { "no" }
    );
    inspect_wsl_distro(name, Some(out))
}

#[test]
fn detection_messages_in_order_of_preference() {
    let codex = inspect_local_home("C:\\Users\\ana\\.codex".to_string(), true);
    let no_codex = inspect_local_home("C:\\Users\\ana\\.codex".to_string(), false);
    let none: Vec<WslDistroStatus> = Vec::new();
    assert_eq!(
        summarize_hermes_detection(&native(true), &home(true), &no_codex, &none),
        "Native Hermes found; local ~/.hermes ready"
    );
    assert_eq!(
        summarize_hermes_detection(&native(true), &home(false), &no_codex, &none),
        "Native Hermes found; no local ~/.hermes yet"
    );
    assert_eq!(
        summarize_hermes_detection(&native(false), &home(true), &no_codex, &none),
        "Local ~/.hermes found; Hermes CLI not on PATH"
    );
    let ds = vec![distro("Debian", false, false), distro("Ubuntu", false, true)];
    assert_eq!(
        summarize_hermes_detection(&native(false), &home(false), &no_codex, &ds),
        "WSL Ubuntu has Hermes signals"
    );
    let ds = vec![distro("Debian", false, false), distro("Alpine", false, false)];
    assert_eq!(
        summarize_hermes_detection(&native(false), &home(false), &codex, &ds),
        "WSL available; no Hermes home found across 2 distro(s)"
    );
    assert_eq!(
        summarize_hermes_detection(&native(false), &home(false), &codex, &none),
        "Codex home found; Hermes not detected yet"
    );
    assert_eq!(
        summarize_hermes_detection(&native(false), &home(false), &no_codex, &none),
        "No local Hermes workspace detected yet"
    );
}

#[test]
fn detection_status_flags() {
    let no_codex: LocalHomeStatus = inspect_local_home("c".to_string(), false);
    let status = detect_hermes_blocking(native(false), home(false), no_codex, vec![distro("Ubuntu", true, false)]);
    assert!(!status.native_available);
    assert!(status.wsl_available);
    assert!(status.workspace_ready);
    assert_eq!(status.message, "WSL Ubuntu has Hermes signals");
    let no_codex = inspect_local_home("c".to_string(), false);
    let status = detect_hermes_blocking(native(false), home(false), no_codex, Vec::new());
    assert!(!status.wsl_available && !status.workspace_ready);
}

#[test]
fn native_version_is_first_line() {
    let n = detect_native_hermes(Some("C:\\h.exe".to_string()), Some("\n Hermes 0.9.1 \nbuild x".to_string()));
    assert!(n.available);
    assert_eq!(n.version.as_deref(), Some("Hermes 0.9.1"));
    let n = detect_native_hermes(None, Some("ignored".to_string()));
    assert!(!n.available && n.version.is_none());
}

#[test]
fn wsl_distros_are_listed() {
    let out = "Ubuntu\r\n  \r\ndocker-desktop\r\nDOCKER-DESKTOP-DATA\r\nDebian\r\n".to_string();
    assert_eq!(detect_wsl_distros(Some(out)), vec!["Ubuntu", "Debian"]);
    assert!(detect_wsl_distros(None).is_empty());
    let many: String = (0..10).map(|i| format!("d{i}\n")).collect();
    assert_eq!(detect_wsl_distros(Some(many)).len(), 8);
}

#[test]
fn wsl_distro_inspection() {
    let d = inspect_wsl_distro("Ubuntu", Some("home=/home/ana\ncli=yes\nhermes_home=no".to_string()));
    assert_eq!(d.name, "Ubuntu");
    assert!(d.hermes_cli_available && !d.hermes_home_exists);
    assert_eq!(d.linux_home.as_deref(), Some("/home/ana"));
    assert_eq!(d.hermes_home_path.as_deref(), Some("/home/ana/.hermes"));
    let d = inspect_wsl_distro("Broken", None);
    assert!(d.linux_home.is_none() && d.hermes_home_path.is_none() && !d.hermes_cli_available);
    let d = inspect_wsl_distro("Empty", Some("home=\ncli=no".to_string()));
    assert!(d.linux_home.is_none());
    let args = inspect_wsl_distro_args("Ubuntu");
    assert_eq!(&args[..5], &["-d", "Ubuntu", "--", "sh", "-lc"]);
    assert!(args[5].starts_with("printf 'home='"));
}

#[test]
fn executable_extensions_are_distinct_and_lower_case() {
    assert_eq!(executable_extensions(None), vec!["", ".exe", ".cmd", ".bat"]);
    assert_eq!(
        executable_extensions(Some(".COM;.EXE; .Ps1 ;;.bat".to_string())),
        vec!["", ".exe", ".cmd", ".bat", ".com", ".ps1"]
    );
}

#[test]
fn hermes_home_inspection() {
    assert_eq!(state_database_files().len(), 6);
    let found = HomeEntries {
        is_dir: true,
        config_yaml: false,
        config_yml: true,
        auth_json: true,
        env_file: false,
        sessions_dir: true,
        skills_dir: false,
        cron_jobs: true,
        kanban_db: false,
        state_files: vec![false, false, false, false, true, false],
        profile_dirs: 3,
    };
    let h = inspect_hermes_home("p".to_string(), &found);
    assert!(h.exists && h.has_config && h.has_auth && !h.has_env && h.has_sessions);
    assert!(!h.has_skills && h.has_cron && !h.has_kanban && h.has_state_database);
    assert_eq!(h.profile_count, 3);
}

#[test]
fn runtime_status_names_what_is_missing() {
    let st = build_hermes_runtime_status(
        "Ubuntu", "nova", "/h/.hermes/profiles/nova".to_string(), None, None,
        true, false, false, true, true, false, None, None,
    )
    .unwrap();
    assert!(!st.ready);
    assert_eq!(st.missing, vec!["Hermes CLI", ".env", "config.yaml", "cron folder"]);
    assert_eq!(st.message, "nova needs Hermes CLI, .env, config.yaml, cron folder");
    let st = build_hermes_runtime_status(
        "Ubuntu", "nova", "/h".to_string(), Some("/h/hermes".to_string()), Some("1.0".to_string()),
        true, false, true, true, true, true, Some("openai".to_string()), Some("gpt-5.5".to_string()),
    )
    .unwrap();
    assert!(st.ready);
    assert_eq!(st.missing, vec![".env"]);
    assert_eq!(st.message, "nova is ready in Ubuntu");
    assert_eq!(st.model_provider.as_deref(), Some("openai"));
}
