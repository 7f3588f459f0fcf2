use os1_hermes::bridge::{resolve_wsl_distro, wsl_exe_args, Reply, Request, Step};
use os1_hermes::catalog::{list_hermes_profiles_blocking, sort_profiles, HermesProfile, ListProfiles};
use os1_hermes::create::{create_hermes_profile_blocking, plan, Action, CreateJob, CreateMode, CreateProfile};
use os1_hermes::ops::{
    ask_hermes_blocking, install_hermes_blocking, repair_hermes_blocking, run_hermes_doctor_blocking,
    run_profile_command_blocking, HermesCallOp, ProfileCommandOp, ScriptOp,
};
use os1_hermes::output::CommandCapture;
use os1_hermes::provider::{
    configure_hermes_provider_blocking, import_codex_auth_to_wsl_blocking, provider_payload,
    says_logged_out, ConfigureProvider, ImportCodexAuth, ProviderMode,
};
use os1_hermes::runtime::{check_hermes_runtime_blocking, RuntimeCheck};
use os1_hermes::status::{inspect_wsl_distro, WslDistroStatus};

fn ok(s: &str) -> Reply {
    Reply::Ran(Ok(s.to_string()))
}

fn fail(stderr: &str) -> Reply {
    Reply::Ran(Err(CommandCapture { stdout: String::new(), stderr: stderr.to_string(), code: Some(1) }))
}

fn describe(req: &Request) -> String {
    match req {
        Request::Wsl { distro, args, stdin } => {
            let mut d = format!("{distro}: {}", args.join(" "));
            if let Some(input) = stdin {
                d.push_str(&format!(" <<< {input}"));
            }
            d
        },
        Request::ListDistros => "list distros".to_string(),
        Request::OpenAiKey => "openai key".to_string(),
        Request::CodexAuth => "codex auth".to_string(),
    }
}

/// Runs an operation, answering each request with `world`; returns its result and
/// the requests it made.
fn drive<S, T>(
    start: Step<S, T>,
    resume: impl Fn(S, Reply) -> Step<S, T>,
    world: impl Fn(&str) -> Reply,
) -> (Result<T, String>, Vec<String>) {
    let mut log = Vec::new();
    let mut step = start;
    loop {
        match step {
            Step::Done(r) => return (r, log),
            Step::Next(s, req) => {
                let d = describe(&req);
                let reply = world(&d);
                log.push(d);
                step = resume(s, reply);
            },
        }
        assert!(log.len() < 100, "too many requests: {log:?}");
    }
}

/// A distro with a Linux home `/home/ana`, where `present` lists the paths that
/// exist (for `test`) and `listing` is what `find` prints.
fn distro_world(present: &'static [&'static str], listing: &'static str) -> impl Fn(&str) -> Reply {
    move |d: &str| {
        let cmd = d.splitn(2, ": ").nth(1).unwrap_or("");
        if cmd == "printenv HOME" {
            ok("/home/ana/\n")
        } else if let Some(rest) = cmd.strip_prefix("test ") {
            let path = rest.splitn(2, ' ').nth(1).unwrap_or("");
            if present.contains(&path) { ok("") } else { fail("") }
        } else if cmd.starts_with("find ") {
            ok(listing)
        } else {
            ok("done")
        }
    }
}

fn profile(name: &str, is_default: bool) -> HermesProfile {
    HermesProfile { name: name.to_string(), path: format!("/p/{name}"), is_default, exists: true }
}

#[test]
fn wsl_arguments() {
    let args = vec!["printenv".to_string(), "HOME".to_string()];
    assert_eq!(wsl_exe_args("Ubuntu", &args), vec!["-d", "Ubuntu", "--", "printenv", "HOME"]);
}

#[test]
fn distro_is_named_or_detected() {
    let ds = vec![
        inspect_wsl_distro("Debian", Some("home=/home/a\ncli=no\nhermes_home=no".to_string())),
        inspect_wsl_distro("Ubuntu", Some("home=/home/a\ncli=no\nhermes_home=yes".to_string())),
    ];
    assert_eq!(resolve_wsl_distro(&Some("  Arch ".to_string()), &ds).unwrap(), "Arch");
    assert_eq!(resolve_wsl_distro(&Some("  ".to_string()), &ds).unwrap(), "Ubuntu");
    let plain = vec![inspect_wsl_distro("Debian", None)];
    assert_eq!(resolve_wsl_distro(&None, &plain).unwrap(), "Debian");
    let none: Vec<WslDistroStatus> = Vec::new();
    assert_eq!(resolve_wsl_distro(&None, &none).unwrap_err(), "No WSL distro was detected.");
}

#[test]
fn catalog_order_is_other_profiles_then_base_by_lower_case_name() {
    let sorted = sort_profiles(vec![
        profile("default", true),
        profile("Zed", false),
        profile("Alpha", false),
        profile("beta", false),
    ]);
    let names: Vec<&str> = sorted.iter().map(|p| p.name.as_str()).collect();
    assert_eq!(names, vec!["Alpha", "beta", "Zed", "default"]);
}

#[test]
fn listing_profiles_of_a_distro() {
    let world = distro_world(
        &["/home/ana/.hermes", "/home/ana/.hermes/profiles"],
        "work\t/home/ana/.hermes/profiles/work\nbroken line\nArt\t/home/ana/.hermes/profiles/Art\n",
    );
    let (r, log) = drive(list_hermes_profiles_blocking(Some("Ubuntu".to_string())), ListProfiles::resume, world);
    let catalog = r.unwrap();
    assert_eq!(catalog.distro, "Ubuntu");
    let names: Vec<(&str, &str, bool, bool)> = catalog
        .profiles
        .iter()
        .map(|p| (p.name.as_str(), p.path.as_str(), p.is_default, p.exists))
        .collect();
    assert_eq!(
        names,
        vec![
            ("Art", "/home/ana/.hermes/profiles/Art", false, true),
            ("work", "/home/ana/.hermes/profiles/work", false, true),
            ("default", "/home/ana/.hermes", true, true),
        ]
    );
    assert_eq!(log[0], "Ubuntu: printenv HOME");
    assert_eq!(log[1], "Ubuntu: test -d /home/ana/.hermes");
    assert_eq!(log[2], "Ubuntu: test -d /home/ana/.hermes/profiles");
    assert_eq!(
        log[3],
        "Ubuntu: find /home/ana/.hermes/profiles -mindepth 1 -maxdepth 1 -type d -printf %f\t%p\n"
    );
}

#[test]
fn listing_without_profiles_folder_and_errors() {
    let (r, log) = drive(list_hermes_profiles_blocking(Some("Ubuntu".to_string())), ListProfiles::resume, distro_world(&[], ""));
    let catalog = r.unwrap();
    assert_eq!(catalog.profiles.len(), 1);
    assert!(catalog.profiles[0].is_default && !catalog.profiles[0].exists);
    assert_eq!(log.len(), 3);
    let (r, _) = drive(list_hermes_profiles_blocking(Some("Ubuntu".to_string())), ListProfiles::resume, |_: &str| ok("  \n"));
    assert_eq!(r.unwrap_err(), "Unable to resolve Linux home while listing Hermes profiles in Ubuntu.");
    let (r, _) = drive(list_hermes_profiles_blocking(None), ListProfiles::resume, |_: &str| Reply::Distros(Vec::new()));
    assert_eq!(r.unwrap_err(), "No WSL distro was detected.");
    let (r, _) = drive(list_hermes_profiles_blocking(None), ListProfiles::resume, |_: &str| Reply::Key(None));
    assert_eq!(r.unwrap_err(), "The bridge got a reply of another kind than its request.");
}

#[test]
fn creating_a_blank_profile() {
    let world = distro_world(
        &[
            "/home/ana/.hermes",
            "/home/ana/.hermes/profiles",
            "/home/ana/.hermes/hermes-agent/.env.example",
            "/home/ana/.hermes/profiles/nova/config.yaml",
        ],
        "nova\t/home/ana/.hermes/profiles/nova\n",
    );
    let start = create_hermes_profile_blocking(Some("Ubuntu".to_string()), " nova ".to_string(), "blank".to_string(), None);
    let (r, log) = drive(start, CreateProfile::resume, world);
    let res = r.unwrap();
    assert_eq!(res.message, "Created OS1-managed Hermes profile nova in Ubuntu");
    assert_eq!(res.created.name, "nova");
    assert_eq!(res.created.path, "/home/ana/.hermes/profiles/nova");
    assert_eq!(res.catalog.profiles.len(), 2);
    let t = "/home/ana/.hermes/profiles/nova";
    let expected = vec![
        "Ubuntu: printenv HOME".to_string(),
        format!("Ubuntu: test -e {t}"),
        format!("Ubuntu: mkdir -p {t}"),
        format!("Ubuntu: mkdir -p {t}/cron {t}/sessions {t}/logs {t}/memories {t}/skills"),
        format!("Ubuntu: test -f {t}/.env"),
        "Ubuntu: test -f /home/ana/.hermes/hermes-agent/.env.example".to_string(),
        format!("Ubuntu: cp /home/ana/.hermes/hermes-agent/.env.example {t}/.env"),
        format!("Ubuntu: test -f {t}/config.yaml"),
        format!("Ubuntu: test -f {t}/SOUL.md"),
        format!("Ubuntu: touch {t}/SOUL.md"),
        "Ubuntu: printenv HOME".to_string(),
    ];
    assert_eq!(&log[..expected.len()], &expected[..]);
}

#[test]
fn cloning_a_profile() {
    let world = distro_world(
        &[
            "/home/ana/.hermes/profiles/work",
            "/home/ana/.hermes/profiles/work/.env",
            "/home/ana/.hermes/profiles",
        ],
        "copy\t/home/ana/.hermes/profiles/copy\nwork\t/home/ana/.hermes/profiles/work\n",
    );
    let start = create_hermes_profile_blocking(
        Some("Ubuntu".to_string()),
        "copy".to_string(),
        "clone".to_string(),
        Some("work".to_string()),
    );
    let (r, log) = drive(start, CreateProfile::resume, world);
    assert!(r.is_ok());
    let s = "/home/ana/.hermes/profiles/work";
    let t = "/home/ana/.hermes/profiles/copy";
    assert_eq!(log[2], format!("Ubuntu: test -d {s}"));
    assert_eq!(log[3], format!("Ubuntu: mkdir -p {t}"));
    assert_eq!(log[4], format!("Ubuntu: test -f {s}/config.yaml"));
    assert_eq!(log[5], format!("Ubuntu: test -f {s}/.env"));
    assert_eq!(log[6], format!("Ubuntu: cp -p {s}/.env {t}/.env"));
    assert_eq!(log[7], format!("Ubuntu: test -f {s}/SOUL.md"));

    let start = create_hermes_profile_blocking(
        Some("Ubuntu".to_string()),
        "all".to_string(),
        "cloneAll".to_string(),
        None,
    );
    let (_, log) = drive(start, CreateProfile::resume, distro_world(&["/home/ana/.hermes"], ""));
    assert_eq!(log[2], "Ubuntu: test -d /home/ana/.hermes");
    assert_eq!(log[4], "Ubuntu: cp -a /home/ana/.hermes/. /home/ana/.hermes/profiles/all/");
}

#[test]
fn creating_a_profile_that_exists() {
    let world = distro_world(
        &["/home/ana/.hermes/profiles/nova", "/home/ana/.hermes/profiles"],
        "",
    );
    let start = create_hermes_profile_blocking(Some("Ubuntu".to_string()), "nova".to_string(), "blank".to_string(), None);
    let (r, _) = drive(start, CreateProfile::resume, world);
    let res = r.unwrap();
    assert_eq!(res.message, "Hermes profile nova already exists in Ubuntu");
    assert_eq!(res.created.path, "/home/ana/.hermes/profiles/nova");
    assert!(!res.created.is_default && res.created.exists);
}

#[test]
fn creating_a_profile_twice_writes_nothing_the_second_time() {
    let start = create_hermes_profile_blocking(Some("Ubuntu".to_string()), "nova".to_string(), "clone".to_string(), None);
    let listing = "nova\t/home/ana/.hermes/profiles/nova\n";
    let (first, first_log) = drive(start, CreateProfile::resume, distro_world(&["/home/ana/.hermes", "/home/ana/.hermes/profiles"], listing));
    assert_eq!(first.unwrap().message, "Created OS1-managed Hermes profile nova in Ubuntu");
    assert!(first_log.iter().any(|d| d.contains(": mkdir -p ")));
    let world = distro_world(&["/home/ana/.hermes", "/home/ana/.hermes/profiles", "/home/ana/.hermes/profiles/nova"], listing);
    let again = create_hermes_profile_blocking(Some("Ubuntu".to_string()), "nova".to_string(), "clone".to_string(), None);
    let (second, log) = drive(again, CreateProfile::resume, world);
    for d in &log {
        assert!(!d.contains(": mkdir ") && !d.contains(": cp ") && !d.contains(": touch "), "{d}");
    }
    let res = second.unwrap();
    assert_eq!(res.message, "Hermes profile nova already exists in Ubuntu");
    assert_eq!(res.created.name, "nova");
}

#[test]
fn creation_errors() {
    let any = |_: &str| ok("/home/ana");
    let run = |name: &str, mode: &str, clone: Option<&str>| {
        let start = create_hermes_profile_blocking(
            Some("Ubuntu".to_string()),
            name.to_string(),
            mode.to_string(),
            clone.map(str::to_string),
        );
        drive(start, CreateProfile::resume, any).0.map(|r| r.message)
    };
    assert_eq!(run("default", "blank", None).unwrap_err(), "default is reserved for the base Hermes profile.");
    assert_eq!(run("x", "copy", None).unwrap_err(), "Unsupported profile creation mode.");
    assert_eq!(run("x", "blank", Some("work")).unwrap_err(), "Clone source requires clone or cloneAll mode.");
    assert_eq!(run("x", "clone", Some("a b")).unwrap_err(), "Profile names can use letters, numbers, hyphens, and underscores.");

    let start = create_hermes_profile_blocking(Some("Ubuntu".to_string()), "x".to_string(), "blank".to_string(), None);
    let (r, _) = drive(start, CreateProfile::resume, distro_world(&[], ""));
    let world_file = |d: &str| {
        if d.ends_with("printenv HOME") { ok("/home/ana") }
        else if d.contains("test -e") { ok("") }
        else { fail("") }
    };
    let start = create_hermes_profile_blocking(Some("Ubuntu".to_string()), "x".to_string(), "blank".to_string(), None);
    let (r2, _) = drive(start, CreateProfile::resume, world_file);
    assert_eq!(r2.unwrap_err(), "Hermes profile path exists but is not a directory: /home/ana/.hermes/profiles/x");
    assert_eq!(
        r.unwrap_err(),
        "Hermes profile creation finished, but ~/.hermes/profiles/x was not found in Ubuntu."
    );
    // mkdir fails: the step's error names the profile and the distro.
    let world_mkdir = |d: &str| {
        if d.ends_with("printenv HOME") { ok("/home/ana") }
        else if d.contains("mkdir") { fail("mkdir: Permission denied") }
        else { fail("") }
    };
    let start = create_hermes_profile_blocking(Some("Ubuntu".to_string()), "x".to_string(), "blank".to_string(), None);
    let (r3, _) = drive(start, CreateProfile::resume, world_mkdir);
    assert_eq!(r3.unwrap_err(), "Hermes could not create profile x in Ubuntu. mkdir: Permission denied (exit 1)");
    let start = create_hermes_profile_blocking(Some("Ubuntu".to_string()), "x".to_string(), "clone".to_string(), Some("gone".to_string()));
    let (r4, _) = drive(start, CreateProfile::resume, distro_world(&[], ""));
    assert_eq!(r4.unwrap_err(), "Hermes clone source does not exist: /home/ana/.hermes/profiles/gone");
}

#[test]
fn checking_a_runtime() {
    let world = |d: &str| {
        let cmd = d.splitn(2, ": ").nth(1).unwrap_or("");
        if cmd == "printenv HOME" {
            ok("/home/ana")
        } else if cmd == "test -x /home/ana/.local/bin/hermes" {
            fail("")
        } else if cmd == "test -x /home/ana/.hermes/hermes-agent/venv/bin/hermes" {
            ok("")
        } else if cmd.ends_with("--version") {
            ok("\nHermes Agent 0.5.0\n")
        } else if cmd.starts_with("test -f /home/ana/.hermes/profiles/nova/config.yaml") {
            ok("")
        } else if cmd.starts_with("test") {
            if cmd.ends_with("/cron") || cmd.ends_with("/.env") { fail("") } else { ok("") }
        } else if cmd.contains("python3 -c") {
            ok(" {\"provider\": \"openai-codex\", \"default\": \"gpt-5.5\"} \n")
        } else {
            fail("unexpected")
        }
    };
    let (r, log) = drive(check_hermes_runtime_blocking("Ubuntu".to_string(), "nova".to_string()), RuntimeCheck::resume, world);
    let st = r.unwrap();
    assert_eq!(st.hermes_command.as_deref(), Some("/home/ana/.hermes/hermes-agent/venv/bin/hermes"));
    assert_eq!(st.version.as_deref(), Some("Hermes Agent 0.5.0"));
    assert!(st.profile_exists && !st.has_env && st.has_config && st.has_sessions && st.has_skills && !st.has_cron);
    assert_eq!(st.model_provider.as_deref(), Some("openai-codex"));
    assert_eq!(st.model_default.as_deref(), Some("gpt-5.5"));
    assert_eq!(st.missing, vec![".env", "cron folder"]);
    assert_eq!(st.message, "nova needs .env, cron folder");
    // config.yml is not looked at once config.yaml exists.
    assert!(!log.iter().any(|l| l.ends_with("config.yml")));
    // Every request only reads.
    for l in &log {
        let cmd = l.splitn(2, ": ").nth(1).unwrap();
        assert!(
            cmd.starts_with("printenv ")
                || cmd.starts_with("test ")
                || (cmd.starts_with("env ") && (cmd.ends_with(" --version") || cmd.ends_with(os1_hermes::runtime::MODEL_SCRIPT))),
            "{cmd}"
        );
    }
    assert!(log[3].starts_with(
        "Ubuntu: env HERMES_HOME=/home/ana/.hermes/profiles/nova PATH=/home/ana/.local/bin:"
    ));
}

#[test]
fn checking_a_runtime_without_cli_or_model() {
    let world = |d: &str| if d.ends_with("printenv HOME") { ok("/home/ana") } else { fail("no") };
    let (r, log) = drive(check_hermes_runtime_blocking("Ubuntu".to_string(), "default".to_string()), RuntimeCheck::resume, world);
    let st = r.unwrap();
    assert_eq!(st.hermes_home, "/home/ana/.hermes");
    assert!(st.hermes_command.is_none() && st.version.is_none() && st.model_provider.is_none());
    assert!(!st.ready);
    assert_eq!(st.message, "default needs Hermes CLI, profile home, .env, config.yaml, sessions folder, skills folder, cron folder");
    assert!(log.iter().any(|l| l.ends_with("config.yml")));
    let (r, _) = drive(check_hermes_runtime_blocking("Ubuntu".to_string(), "../x".to_string()), RuntimeCheck::resume, world);
    assert_eq!(r.unwrap_err(), "Profile names can use letters, numbers, hyphens, and underscores.");
    let (r, _) = drive(check_hermes_runtime_blocking("Ubuntu".to_string(), "x".to_string()), RuntimeCheck::resume, |_: &str| fail("boom"));
    assert_eq!(r.unwrap_err(), "Hermes runtime check failed in Ubuntu. boom (exit 1)");
}

fn hermes_world(d: &str) -> Reply {
    let cmd = d.splitn(2, ": ").nth(1).unwrap_or("");
    if cmd == "printenv HOME" {
        ok("/home/ana")
    } else if cmd == "test -x /home/ana/.local/bin/hermes" {
        ok("")
    } else if cmd.contains(" doctor") {
        ok((1..=40).map(|i| format!("check {i}\n")).collect::<String>().as_str())
    } else if cmd.contains("chat --quiet --query") {
        ok("Hermes provider ok")
    } else if cmd.contains("bash -lc") {
        ok("listing\n__OS1_EXIT__:0\n")
    } else if cmd.contains("auth status") {
        ok("openai-codex: Logged Out")
    } else if cmd.starts_with("test -f /home/ana/.codex/auth.json") {
        fail("")
    } else if cmd.starts_with("test -f") {
        ok("")
    } else {
        ok("Configured")
    }
}

#[test]
fn doctor_keeps_the_last_thirty_lines() {
    let (r, log) = drive(run_hermes_doctor_blocking("Ubuntu".to_string(), "nova".to_string()), HermesCallOp::resume, hermes_world);
    let res = r.unwrap();
    assert_eq!(res.output.lines().count(), 30);
    assert!(res.output.starts_with("check 11\n") && res.output.ends_with("check 40"));
    assert_eq!(
        log[2],
        "Ubuntu: env HERMES_HOME=/home/ana/.hermes/profiles/nova PATH=/home/ana/.local/bin:/home/ana/.hermes/hermes-agent/venv/bin:/home/ana/.cargo/bin:/usr/local/sbin:/usr/local/bin:/usr/sbin:/usr/bin:/sbin:/bin /home/ana/.local/bin/hermes doctor"
    );
}

#[test]
fn asking_hermes_checks_the_prompt() {
    let (r, _) = drive(ask_hermes_blocking("Ubuntu".to_string(), "nova".to_string(), "  ".to_string()), HermesCallOp::resume, hermes_world);
    assert_eq!(r.unwrap_err(), "Prompt is required.");
    let long = "x".repeat(8001);
    let (r, _) = drive(ask_hermes_blocking("Ubuntu".to_string(), "nova".to_string(), long), HermesCallOp::resume, hermes_world);
    assert_eq!(r.unwrap_err(), "Prompt is too long for this Hermes bridge call.");
    let (r, log) = drive(ask_hermes_blocking("Ubuntu".to_string(), "nova".to_string(), " hi ".to_string()), HermesCallOp::resume, hermes_world);
    assert_eq!(r.unwrap().output, "Hermes provider ok");
    assert!(log[2].ends_with("chat --quiet --query hi"));
    let (r, _) = drive(ask_hermes_blocking("Ubuntu".to_string(), "a/b".to_string(), "hi".to_string()), HermesCallOp::resume, hermes_world);
    assert_eq!(r.unwrap_err(), "Profile names can use letters, numbers, hyphens, and underscores.");
}

#[test]
fn profile_commands_report_output_and_status() {
    let (r, log) = drive(run_profile_command_blocking("Ubuntu".to_string(), "nova".to_string(), " ls ".to_string()), ProfileCommandOp::resume, hermes_world);
    let res = r.unwrap();
    assert_eq!((res.command.as_str(), res.output.as_str(), res.exit_code), ("ls", "listing", 0));
    assert!(log[2].contains("OS1_COMMAND=ls bash -lc"));
    let (r, _) = drive(run_profile_command_blocking("Ubuntu".to_string(), "nova".to_string(), "".to_string()), ProfileCommandOp::resume, hermes_world);
    assert_eq!(r.unwrap_err(), "Command is required.");
    let (r, _) = drive(run_profile_command_blocking("Ubuntu".to_string(), "nova".to_string(), "y".repeat(4001)), ProfileCommandOp::resume, hermes_world);
    assert_eq!(r.unwrap_err(), "Command is too long for this console.");
}

#[test]
fn repair_and_install_scripts() {
    let (r, log) = drive(repair_hermes_blocking(Some("Ubuntu".to_string())), ScriptOp::resume, |_: &str| ok("a\nb\nc\nd\ne\nf\ng\nh\ni\nj"));
    let res = r.unwrap();
    assert_eq!(res.message, "Hermes repaired in Ubuntu");
    assert_eq!(res.output, "c\nd\ne\nf\ng\nh\ni\nj");
    assert!(log[0].starts_with("Ubuntu: sh -lc set -eu\ninstall="));
    let (r, _) = drive(install_hermes_blocking(Some("Ubuntu".to_string())), ScriptOp::resume, |_: &str| fail("curl is required to install Hermes inside WSL."));
    assert_eq!(r.unwrap_err(), "Hermes install failed in Ubuntu. curl is required to install Hermes inside WSL. (exit 1)");
}

fn object(pairs: &[(&str, &str)]) -> serde_json::Value {
    let mut m = serde_json::Map::new();
    for (k, v) in pairs {
        m.insert(k.to_string(), serde_json::Value::String(v.to_string()));
    }
    serde_json::Value::Object(m)
}

#[test]
fn provider_settings_are_json() {
    let payload = provider_payload(&ProviderMode::OpenAiKey, "sk-test");
    let parsed: serde_json::Value = serde_json::from_str(&payload).unwrap();
    assert_eq!(
        parsed,
        object(&[
            ("mode", "openai-key"),
            ("apiKey", "sk-test"),
            ("model", "gpt-5.5"),
            ("provider", "openai"),
            ("baseUrl", "https://api.openai.com/v1"),
        ])
    );
    let payload = provider_payload(&ProviderMode::CodexSubscription, "");
    let parsed: serde_json::Value = serde_json::from_str(&payload).unwrap();
    assert_eq!(
        parsed,
        object(&[("mode", "codex-subscription"), ("model", "gpt-5.5"), ("provider", "openai-codex")])
    );
}

#[test]
fn configuring_the_openai_key_provider() {
    let world = |d: &str| if d == "openai key" { Reply::Key(Some("sk-1".to_string())) } else { hermes_world(d) };
    let start = configure_hermes_provider_blocking("Ubuntu".to_string(), "nova".to_string(), "openai-key".to_string());
    let (r, log) = drive(start, ConfigureProvider::resume, world);
    let res = r.unwrap();
    assert_eq!((res.provider.as_str(), res.model.as_str()), ("openai", "gpt-5.5"));
    assert_eq!(res.message, "Hermes will use the OS1 OpenAI key with GPT-5.5.");
    assert_eq!(res.output, "Hermes provider ok");
    assert_eq!(log[2], "openai key");
    assert!(log[4].contains("/home/ana/.hermes/hermes-agent/venv/bin/python -c \nimport json"));
    assert!(log[4].contains(" <<< {") && log[4].contains(r#""apiKey":"sk-1""#));
    let world = |d: &str| if d == "openai key" { Reply::Key(None) } else { hermes_world(d) };
    let start = configure_hermes_provider_blocking("Ubuntu".to_string(), "nova".to_string(), "openai-key".to_string());
    let (r, _) = drive(start, ConfigureProvider::resume, world);
    assert!(r.unwrap_err().starts_with("OPENAI_API_KEY is not configured for OS1."));
}

#[test]
fn configuring_the_codex_provider() {
    let start = configure_hermes_provider_blocking("Ubuntu".to_string(), "nova".to_string(), "codex-subscription".to_string());
    let (r, log) = drive(start, ConfigureProvider::resume, hermes_world);
    assert_eq!(
        r.unwrap_err(),
        "Codex subscription is not authenticated yet. Run the one-time ChatGPT OAuth flow before entering OS1 with this option."
    );
    assert_eq!(log[3], "Ubuntu: test -f /home/ana/.codex/auth.json");
    assert_eq!(log[4], "Ubuntu: test -f /home/ana/.hermes/profiles/nova/auth.json");
    assert!(says_logged_out("Status: LOGGED OUT"));
    assert!(!says_logged_out("logged in"));
    let start = configure_hermes_provider_blocking("Ubuntu".to_string(), "nova".to_string(), "other".to_string());
    let (r, _) = drive(start, ConfigureProvider::resume, hermes_world);
    assert_eq!(r.unwrap_err(), "Unsupported Hermes provider setup option.");
}

#[test]
fn importing_the_codex_login() {
    let world = |d: &str| if d == "codex auth" { Reply::Auth(Ok("{\"tokens\": {}}".to_string())) } else { hermes_world(d) };
    let (r, log) = drive(import_codex_auth_to_wsl_blocking("Ubuntu".to_string(), "nova".to_string()), ImportCodexAuth::resume, world);
    let res = r.unwrap();
    assert_eq!(res.distro, "Ubuntu");
    assert_eq!(res.message, "Imported Windows Codex login into the Hermes profile.");
    assert!(log[3].starts_with("Ubuntu: env HERMES_HOME=/home/ana/.hermes/profiles/nova python3 -c \nimport json"));
    assert!(log[3].ends_with(" <<< {\"tokens\": {}}"));
    let world = |d: &str| if d == "codex auth" { Reply::Auth(Ok("{not json".to_string())) } else { hermes_world(d) };
    let (r, _) = drive(import_codex_auth_to_wsl_blocking("Ubuntu".to_string(), "nova".to_string()), ImportCodexAuth::resume, world);
    assert_eq!(r.unwrap_err(), "Codex auth file is not valid JSON.");
}

#[test]
fn building_a_profile_writes_only_in_its_folder() {
    for mode in [CreateMode::Blank, CreateMode::Clone, CreateMode::CloneAll] {
        let job = CreateJob {
            distro: "Ubuntu".to_string(),
            name: "nova".to_string(),
            mode,
            base: "/home/ana/.hermes".to_string(),
            target: "/home/ana/.hermes/profiles/nova".to_string(),
            source_home: "/home/ana/.hermes".to_string(),
        };
        for action in plan(&job) {
            let written: Vec<String> = match action {
                Action::Run(args) if args[0] == "mkdir" => args[2..].to_vec(),
                Action::Run(args) => vec![args.last().unwrap().clone()],
                Action::CopyIf(_, t) => vec![t],
                Action::Ensure(t, _) => vec![t],
            };
            for path in written {
                assert!(path.starts_with(&job.target), "{path}");
            }
        }
    }
}
