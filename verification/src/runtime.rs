//! Checking a profile's runtime: the CLI and its version, the profile's folders and
//! files, and the model its configuration names.
use vstd::prelude::*;
use crate::bridge::{
    command_candidates, distro_from_reply, distro_reply, find_hermes_command, home_args,
    home_from_reply, home_reply, home_request, provided_distro, provided_spec, run_wsl_status, search_next,
    test_args, test_request, unexpected, unexpected_reply, run_wsl_capture_result_owned, wsl_req, CommandSearch, Probe,
    Reply, Request, Step,
};
use crate::create::{plan_spec, written, CreateMode};
use crate::json::{json_string_field, string_field};
use crate::output::{nonempty_trimmed_lines, text_lines};
use crate::profile::{
    assignment, hermes_home_for_profile, hermes_home_spec, hermes_runtime_path, runtime_path_spec,
    validate_existing_spec, validate_profile_name_for_runtime,
};
use crate::status::{build_hermes_runtime_status, runtime_status_is, HermesRuntimeStatus};
use crate::text::{opt_view, trim, trim_str};

verus! {

/// Prints the `provider` and `default` model of a profile's `config.yaml` (or
/// `config.yml`) as a JSON object.
pub const MODEL_SCRIPT: &'static str = "import json\nimport os\nfrom pathlib import Path\n\nimport yaml\n\nhome = Path(os.environ[\"HERMES_HOME\"])\nconfig_path = home / \"config.yaml\"\nif not config_path.exists():\n    config_path = home / \"config.yml\"\ndata = {}\nif config_path.exists() and config_path.read_text().strip():\n    loaded = yaml.safe_load(config_path.read_text()) or {}\n    if isinstance(loaded, dict):\n        data = loaded\nmodel = data.get(\"model\")\nprovider = None\ndefault = None\nif isinstance(model, dict):\n    provider = model.get(\"provider\")\n    default = model.get(\"default\") or model.get(\"model\")\nelif isinstance(model, str):\n    default = model\nprint(json.dumps({\"provider\": provider, \"default\": default}))\n";

/// What the check has learnt before the folder tests.
#[derive(Debug)]
pub struct RuntimeFacts {
    pub distro: String,
    pub profile: String,
    pub hermes_home: String,
    pub path: String,
    pub hermes_command: Option<String>,
    pub version: Option<String>,
}

/// Checking a profile's runtime.
#[derive(Debug)]
pub enum RuntimeCheck {
    Distro { profile: String },
    Home { distro: String, profile: String },
    Search { distro: String, profile: String, hermes_home: String, path: String, search: CommandSearch },
    Version { facts: RuntimeFacts },
    Tests { facts: RuntimeFacts, found: Vec<bool> },
    Model { facts: RuntimeFacts, found: Vec<bool> },
}

impl RuntimeCheck {
    pub open spec fn wf(self) -> bool {
        match self {
            RuntimeCheck::Search { search, .. } => search.wf(),
            RuntimeCheck::Version { facts } => facts.hermes_command is Some,
            RuntimeCheck::Tests { found, .. } => found.len() < 7,
            RuntimeCheck::Model { found, .. } => found.len() == 7,
            _ => true,
        }
    }
}

/// The version command of the CLI.
pub open spec fn version_args(hermes_home: Seq<char>, path: Seq<char>, command: Seq<char>) -> Seq<Seq<char>> {
    seq!["env"@, "HERMES_HOME"@ + "="@ + hermes_home, "PATH"@ + "="@ + path, command, "--version"@]
}

/// The command that prints the configured model.
pub open spec fn model_args(hermes_home: Seq<char>) -> Seq<Seq<char>> {
    seq!["env"@, "HERMES_HOME"@ + "="@ + hermes_home, "python3"@, "-c"@, MODEL_SCRIPT@]
}

/// The tests made of a profile home, in order: the home itself, `.env`,
/// `config.yaml`, `config.yml`, and the sessions, skills and cron folders.
pub open spec fn runtime_tests(hh: Seq<char>) -> Seq<(Seq<char>, Seq<char>)> {
    seq![
        ("-d"@, hh),
        ("-f"@, hh + "/.env"@),
        ("-f"@, hh + "/config.yaml"@),
        ("-f"@, hh + "/config.yml"@),
        ("-d"@, hh + "/sessions"@),
        ("-d"@, hh + "/skills"@),
        ("-d"@, hh + "/cron"@),
    ]
}

/// The runtime check looks for what creating a profile makes: every path it tests
/// but `config.yml` (the other name of `config.yaml`) is written by the creation plan
/// of a profile at that home, in any mode, and the paths tested as folders (`-d`: the
/// home, its sessions, skills and cron folders) are the ones the plan makes with
/// `mkdir`, the files (`-f`) the ones it fills. No two tests look at the same path.
pub proof fn law_runtime_tests_match_creation(mode: CreateMode, base: Seq<char>, hh: Seq<char>, source_home: Seq<char>)
    ensures
        forall|k: int|
            0 <= k < runtime_tests(hh).len() && k != 3 ==> exists|i: int|
                0 <= i < plan_spec(mode, base, hh, source_home).len() && written(
                    #[trigger] plan_spec(mode, base, hh, source_home)[i],
                ).contains((#[trigger] runtime_tests(hh)[k]).1) && (runtime_tests(hh)[k].0 == "-d"@
                    <==> plan_spec(mode, base, hh, source_home)[i] is Run),
        forall|j: int, k: int|
            0 <= j < k < runtime_tests(hh).len() ==> (#[trigger] runtime_tests(hh)[j]).1 != (
            #[trigger] runtime_tests(hh)[k]).1,
{
    reveal_strlit("-d");
    reveal_strlit("-f");
    reveal_strlit("/.env");
    reveal_strlit("/config.yaml");
    reveal_strlit("/config.yml");
    reveal_strlit("/sessions");
    reveal_strlit("/skills");
    reveal_strlit("/cron");
    let ends = seq![Seq::<char>::empty(), "/.env"@, "/config.yaml"@, "/config.yml"@, "/sessions"@, "/skills"@, "/cron"@];
    assert forall|j: int, k: int| 0 <= j < k < runtime_tests(hh).len() implies (#[trigger] runtime_tests(hh)[j]).1
        != (#[trigger] runtime_tests(hh)[k]).1 by {
        assert(runtime_tests(hh)[j].1 == hh + ends[j]);
        assert(runtime_tests(hh)[k].1 == hh + ends[k]);
        if hh + ends[j] == hh + ends[k] {
            assert((hh + ends[j]).skip(hh.len() as int) =~= ends[j]);
            assert((hh + ends[k]).skip(hh.len() as int) =~= ends[k]);
            if ends[j].len() == ends[k].len() {
                assert(ends[j][1] != ends[k][1] || ends[j][2] != ends[k][2]);
            }
        }
    }
    let p = plan_spec(mode, base, hh, source_home);
    let t = runtime_tests(hh);
    let n = p.len() - 4;
    assert("-f"@[1] != "-d"@[1]);
    assert forall|k: int| 0 <= k < t.len() && k != 3 implies exists|i: int|
        0 <= i < p.len() && written(#[trigger] p[i]).contains((#[trigger] t[k]).1) && (t[k].0 == "-d"@
            <==> p[i] is Run) by {
        let folders = written(p[n]);
        assert(folders[0] == hh + "/cron"@ && folders[1] == hh + "/sessions"@ && folders[4] == hh
            + "/skills"@);
        if k == 0 {
            assert(written(p[0])[0] == hh);
        } else if k == 1 {
            assert(written(p[n + 1])[0] == hh + "/.env"@);
        } else if k == 2 {
            assert(written(p[n + 2])[0] == hh + "/config.yaml"@);
        } else if k == 4 {
            assert(folders[1] == t[k].1);
        } else if k == 5 {
            assert(folders[4] == t[k].1);
        } else {
            assert(folders[0] == t[k].1);
        }
    }
}

/// The outcomes after one more test; `config.yml` is not tested (and counts as
/// absent) when `config.yaml` exists.
pub open spec fn record(found: Seq<bool>, ok: bool) -> Seq<bool> {
    let f = found.push(ok);
    if f.len() == 3 && ok {
        f.push(false)
    } else {
        f
    }
}

/// The first non-blank line of a text, trimmed.
pub open spec fn first_line_opt(s: Seq<char>) -> Option<Seq<char>> {
    if text_lines(s).len() > 0 {
        Some(text_lines(s)[0])
    } else {
        None
    }
}

/// The model a reply to the model command names: its provider and default.
pub open spec fn model_of(reply: Result<String, crate::output::CommandCapture>) -> (Option<Seq<char>>, Option<Seq<char>>) {
    match reply {
        Ok(out) => (json_string_field(trim(out@), "provider"@), json_string_field(trim(out@), "default"@)),
        Err(_) => (None, None),
    }
}

/// The test (or the model command) that follows `found`.
pub open spec fn tests_from(facts: RuntimeFacts, found: Seq<bool>, r: Step<RuntimeCheck, HermesRuntimeStatus>) -> bool {
    if found.len() < 7 {
        r matches Step::Next(RuntimeCheck::Tests { facts: f, found: g }, req) && f == facts && g@ == found
            && wsl_req(
            req,
            facts.distro@,
            test_args(runtime_tests(facts.hermes_home@)[found.len() as int].0, runtime_tests(facts.hermes_home@)[found.len() as int].1),
        )
    } else {
        r matches Step::Next(RuntimeCheck::Model { facts: f, found: g }, req) && f == facts && g@ == found
            && wsl_req(req, facts.distro@, model_args(facts.hermes_home@))
    }
}

/// Once the CLI is found (or not): its version command, or the tests.
pub open spec fn after_search(facts: RuntimeFacts, r: Step<RuntimeCheck, HermesRuntimeStatus>) -> bool {
    match facts.hermes_command {
        Some(c) => r matches Step::Next(RuntimeCheck::Version { facts: f }, req) && f == facts && wsl_req(
            req,
            facts.distro@,
            version_args(facts.hermes_home@, facts.path@, c@),
        ),
        None => tests_from(facts, seq![], r),
    }
}

/// What follows once the distro is known: the profile name is checked, then the
/// Linux home is asked for.
pub open spec fn check_after(distro: Seq<char>, profile: Seq<char>, r: Step<RuntimeCheck, HermesRuntimeStatus>) -> bool {
    match validate_existing_spec(profile) {
        Err(e) => r matches Step::Done(Err(m)) && m@ == e,
        Ok(name) => r matches Step::Next(RuntimeCheck::Home { distro: d, profile: p }, req) && d@ == distro
            && p@ == name && wsl_req(req, distro, home_args()),
    }
}

pub open spec fn check_start(distro: String, profile: Seq<char>, r: Step<RuntimeCheck, HermesRuntimeStatus>) -> bool {
    match provided_spec(Some(distro)) {
        Some(d) => check_after(d, profile, r),
        None => r matches Step::Next(RuntimeCheck::Distro { profile: p }, Request::ListDistros) && p@ == profile,
    }
}

/// The status the check ends with, from what it found.
pub open spec fn final_status(
    facts: RuntimeFacts,
    found: Seq<bool>,
    model: (Option<Seq<char>>, Option<Seq<char>>),
    r: Step<RuntimeCheck, HermesRuntimeStatus>,
) -> bool {
    r matches Step::Done(Ok(st)) && opt_view(st.model_provider) == model.0 && opt_view(st.model_default)
        == model.1 && runtime_status_is(
        st,
        facts.distro@,
        facts.profile@,
        facts.hermes_home,
        facts.hermes_command,
        facts.version,
        found[0],
        found[1],
        found[2] || found[3],
        found[4],
        found[5],
        found[6],
        st.model_provider,
        st.model_default,
    )
}

pub open spec fn check_next(s: RuntimeCheck, reply: Reply, r: Step<RuntimeCheck, HermesRuntimeStatus>) -> bool {
    match s {
        RuntimeCheck::Distro { profile } => match distro_reply(reply) {
            Err(e) => r matches Step::Done(Err(m)) && m@ == e,
            Ok(d) => check_after(d, profile@, r),
        },
        RuntimeCheck::Home { distro, profile } => match home_reply(reply) {
            None => r matches Step::Done(Err(m)) && m@ == unexpected_reply(),
            Some(Err(summary)) => r matches Step::Done(Err(m)) && m@ == "Hermes runtime check failed in "@
                + distro@ + ". "@ + summary,
            Some(Ok(home)) => r matches Step::Next(
                RuntimeCheck::Search { distro: d, profile: p, hermes_home: hh, path, search },
                req,
            ) && d == distro && p == profile && hh@ == hermes_home_spec(home, profile@) && path@
                == runtime_path_spec(home) && search.wf() && search.distro@ == distro@
                && search.candidates.deep_view() == command_candidates(home) && search.index == 0
                && wsl_req(req, distro@, test_args("-x"@, command_candidates(home)[0])),
        },
        RuntimeCheck::Search { distro, profile, hermes_home, path, search } => exists|
            o: Probe<CommandSearch, Result<Option<String>, String>>,
        |
            #[trigger] search_next(search, reply, o) && match o {
                Probe::Ask(n, q) => r matches Step::Next(
                    RuntimeCheck::Search { distro: d, profile: p, hermes_home: hh, path: pa, search: m },
                    q2,
                ) && d == distro && p == profile && hh == hermes_home && pa == path && m == n && n.wf()
                    && q2 == q,
                Probe::Ready(Err(e)) => r matches Step::Done(Err(m)) && m == e,
                Probe::Ready(Ok(c)) => after_search(
                    RuntimeFacts { distro, profile, hermes_home, path, hermes_command: c, version: None },
                    r,
                ),
            },
        RuntimeCheck::Version { facts } => match reply {
            Reply::Ran(res) => r matches Step::Next(RuntimeCheck::Tests { facts: f, found: _ }, _)
                && f.distro == facts.distro && f.profile == facts.profile && f.hermes_home
                == facts.hermes_home && f.path == facts.path && f.hermes_command == facts.hermes_command
                && opt_view(f.version) == (match res {
                    Ok(out) => first_line_opt(out@),
                    Err(_) => None,
                }) && tests_from(f, seq![], r),
            _ => r matches Step::Done(Err(m)) && m@ == unexpected_reply(),
        },
        RuntimeCheck::Tests { facts, found } => match reply {
            Reply::Ran(res) => tests_from(facts, record(found@, res is Ok), r),
            _ => r matches Step::Done(Err(m)) && m@ == unexpected_reply(),
        },
        RuntimeCheck::Model { facts, found } => match reply {
            Reply::Ran(res) => final_status(facts, found@, model_of(res), r),
            _ => r matches Step::Done(Err(m)) && m@ == unexpected_reply(),
        },
    }
}

/// Starts inspecting the runtime of a checked profile in a distro: the Linux home
/// is asked for first.
pub fn inspect_hermes_runtime(distro: String, profile: String) -> (r: Step<RuntimeCheck, HermesRuntimeStatus>)
    ensures
        r matches Step::Next(RuntimeCheck::Home { distro: d, profile: p }, req) && d == distro && p == profile
            && wsl_req(req, distro@, home_args()),
{
    let req = home_request(distro.as_str());
    Step::Next(RuntimeCheck::Home { distro, profile }, req)
}

/// Whether a request only reads: it lists the distros, or runs `printenv`, `test`, or
/// an `env` command that ends with the CLI's `--version` or with the model script.
pub open spec fn reads_only(req: Request) -> bool {
    match req {
        Request::Wsl { args, stdin, .. } => stdin is None && args.len() > 0 && {
            let a = args.deep_view();
            ||| a[0] == "printenv"@
            ||| a[0] == "test"@
            ||| a[0] == "env"@ && (a.last() == "--version"@ || a.last() == MODEL_SCRIPT@)
        },
        Request::ListDistros => true,
        _ => false,
    }
}

proof fn lemma_reads_only(req: Request, d: Seq<char>, args: Seq<Seq<char>>)
    requires
        wsl_req(req, d, args),
        args.len() > 0,
        args[0] == "printenv"@ || args[0] == "test"@ || (args[0] == "env"@ && (args.last() == "--version"@
            || args.last() == MODEL_SCRIPT@)),
    ensures
        reads_only(req),
{
    if let Request::Wsl { args: a, .. } = req {
        assert(a.deep_view().len() == a.len());
    }
}

proof fn lemma_tests_read_only(facts: RuntimeFacts, found: Seq<bool>, r: Step<RuntimeCheck, HermesRuntimeStatus>)
    requires
        tests_from(facts, found, r),
    ensures
        r matches Step::Next(_, req) ==> reads_only(req),
{
    if let Step::Next(_, req) = r {
        if found.len() < 7 {
            let t = runtime_tests(facts.hermes_home@)[found.len() as int];
            lemma_reads_only(req, facts.distro@, test_args(t.0, t.1));
        } else {
            lemma_reads_only(req, facts.distro@, model_args(facts.hermes_home@));
        }
    }
}

proof fn lemma_after_search_read_only(facts: RuntimeFacts, r: Step<RuntimeCheck, HermesRuntimeStatus>)
    requires
        after_search(facts, r),
    ensures
        r matches Step::Next(_, req) ==> reads_only(req),
{
    match facts.hermes_command {
        Some(c) => {
            if let Step::Next(_, req) = r {
                lemma_reads_only(req, facts.distro@, version_args(facts.hermes_home@, facts.path@, c@));
            }
        },
        None => lemma_tests_read_only(facts, seq![], r),
    }
}

/// Checking a runtime changes nothing in the distro: the first request and every
/// request after a reply only read.
pub proof fn law_runtime_check_reads_only(
    distro: String,
    profile: Seq<char>,
    s: RuntimeCheck,
    reply: Reply,
    r: Step<RuntimeCheck, HermesRuntimeStatus>,
    r2: Step<RuntimeCheck, HermesRuntimeStatus>,
)
    requires
        check_start(distro, profile, r),
        check_next(s, reply, r2),
    ensures
        r matches Step::Next(_, req) ==> reads_only(req),
        r2 matches Step::Next(_, req) ==> reads_only(req),
{
    reveal_strlit("printenv");
    reveal_strlit("test");
    reveal_strlit("env");
    if let Step::Next(_, req) = r {
        if req is Wsl {
            let d = if let Some(d) = provided_spec(Some(distro)) { d } else { distro@ };
            lemma_reads_only(req, d, home_args());
        }
    }
    match s {
        RuntimeCheck::Distro { profile: p } => {
            if let Step::Next(_, req) = r2 {
                let d = distro_reply(reply)->Ok_0;
                lemma_reads_only(req, d, home_args());
            }
        },
        RuntimeCheck::Home { distro: d, .. } => {
            if let Some(Ok(home)) = home_reply(reply) {
                if let Step::Next(_, req) = r2 {
                    lemma_reads_only(req, d@, test_args("-x"@, command_candidates(home)[0]));
                }
            }
        },
        RuntimeCheck::Search { distro: d, profile: p, hermes_home, path, search } => {
            let o = choose|o: Probe<CommandSearch, Result<Option<String>, String>>|
                #[trigger] search_next(search, reply, o) && match o {
                    Probe::Ask(n, q) => r2 matches Step::Next(
                        RuntimeCheck::Search { distro: d2, profile: p2, hermes_home: hh, path: pa, search: m },
                        q2,
                    ) && d2 == d && p2 == p && hh == hermes_home && pa == path && m == n && n.wf()
                        && q2 == q,
                    Probe::Ready(Err(e)) => r2 matches Step::Done(Err(m)) && m == e,
                    Probe::Ready(Ok(c)) => after_search(
                        RuntimeFacts { distro: d, profile: p, hermes_home, path, hermes_command: c, version: None },
                        r2,
                    ),
                };
            match o {
                Probe::Ask(n, q) => {
                    lemma_reads_only(q, search.distro@, test_args("-x"@, search.candidates@[search.index + 1]@));
                },
                Probe::Ready(Ok(c)) => {
                    lemma_after_search_read_only(
                        RuntimeFacts { distro: d, profile: p, hermes_home, path, hermes_command: c, version: None },
                        r2,
                    );
                },
                _ => {},
            }
        },
        RuntimeCheck::Version { facts } => {
            if let Step::Next(RuntimeCheck::Tests { facts: f, .. }, _) = r2 {
                lemma_tests_read_only(f, seq![], r2);
            }
        },
        RuntimeCheck::Tests { facts, found } => {
            if let Reply::Ran(res) = reply {
                lemma_tests_read_only(facts, record(found@, res is Ok), r2);
            }
        },
        RuntimeCheck::Model { .. } => {},
    }
}

fn home_step(distro: String, profile: &str) -> (r: Step<RuntimeCheck, HermesRuntimeStatus>)
    ensures
        check_after(distro@, profile@, r),
        r matches Step::Next(s, _) ==> s.wf(),
{
    let name = match validate_profile_name_for_runtime(profile) {
        Ok(n) => n,
        Err(e) => return Step::Done(Err(e)),
    };
    inspect_hermes_runtime(distro, name)
}

/// Starts checking the runtime of `profile` in `distro` (the detected distro when
/// `distro` is blank).
pub fn check_hermes_runtime_blocking(distro: String, profile: String) -> (r: Step<
    RuntimeCheck,
    HermesRuntimeStatus,
>)
    ensures
        check_start(distro, profile@, r),
        r matches Step::Next(s, _) ==> s.wf(),
{
    let given = Some(distro);
    match provided_distro(&given) {
        Some(d) => home_step(d, profile.as_str()),
        None => Step::Next(RuntimeCheck::Distro { profile }, Request::ListDistros),
    }
}

fn test_of(hh: &str, i: usize) -> (r: (&'static str, String))
    requires
        i < 7,
    ensures
        r.0@ == runtime_tests(hh@)[i as int].0,
        r.1@ == runtime_tests(hh@)[i as int].1,
{
    let mut p = hh.to_owned();
    if i == 0 {
        ("-d", p)
    } else if i == 1 {
        p.append("/.env");
        ("-f", p)
    } else if i == 2 {
        p.append("/config.yaml");
        ("-f", p)
    } else if i == 3 {
        p.append("/config.yml");
        ("-f", p)
    } else if i == 4 {
        p.append("/sessions");
        ("-d", p)
    } else if i == 5 {
        p.append("/skills");
        ("-d", p)
    } else {
        p.append("/cron");
        ("-d", p)
    }
}

fn model_request(distro: &str, hermes_home: &str) -> (r: Request)
    ensures
        wsl_req(r, distro@, model_args(hermes_home@)),
{
    let mut args: Vec<String> = Vec::new();
    args.push("env".to_owned());
    args.push(assignment("HERMES_HOME", hermes_home));
    args.push("python3".to_owned());
    args.push("-c".to_owned());
    args.push(MODEL_SCRIPT.to_owned());
    assert(args.deep_view() =~= model_args(hermes_home@));
    run_wsl_capture_result_owned(distro, args)
}

fn next_test(facts: RuntimeFacts, found: Vec<bool>) -> (r: Step<RuntimeCheck, HermesRuntimeStatus>)
    requires
        found.len() <= 7,
    ensures
        tests_from(facts, found@, r),
        r matches Step::Next(s, _) ==> s.wf(),
{
    if found.len() < 7 {
        let (flag, path) = test_of(facts.hermes_home.as_str(), found.len());
        let req = test_request(facts.distro.as_str(), flag, path.as_str());
        Step::Next(RuntimeCheck::Tests { facts, found }, req)
    } else {
        let req = model_request(facts.distro.as_str(), facts.hermes_home.as_str());
        Step::Next(RuntimeCheck::Model { facts, found }, req)
    }
}

fn after_command(facts: RuntimeFacts) -> (r: Step<RuntimeCheck, HermesRuntimeStatus>)
    requires
        facts.version is None,
    ensures
        after_search(facts, r),
        r matches Step::Next(s, _) ==> s.wf(),
{
    match &facts.hermes_command {
        Some(c) => {
            let mut args: Vec<String> = Vec::new();
            args.push("env".to_owned());
            args.push(assignment("HERMES_HOME", facts.hermes_home.as_str()));
            args.push(assignment("PATH", facts.path.as_str()));
            args.push(c.clone());
            args.push("--version".to_owned());
            assert(args.deep_view() =~= version_args(facts.hermes_home@, facts.path@, c@));
            let req = run_wsl_capture_result_owned(facts.distro.as_str(), args);
            Step::Next(RuntimeCheck::Version { facts }, req)
        },
        None => {
            let found: Vec<bool> = Vec::new();
            assert(found@ =~= Seq::<bool>::empty());
            next_test(facts, found)
        },
    }
}

/// The first non-blank line of `s`, trimmed.
pub fn first_line(s: &str) -> (r: Option<String>)
    ensures
        opt_view(r) == first_line_opt(s@),
{
    let ls = nonempty_trimmed_lines(s);
    if ls.len() > 0 {
        Some(ls[0].clone())
    } else {
        None
    }
}

/// The provider and default model that the model command printed.
pub fn read_profile_model_config(reply: &Result<String, crate::output::CommandCapture>) -> (r: (
    Option<String>,
    Option<String>,
))
    ensures
        (opt_view(r.0), opt_view(r.1)) == model_of(*reply),
{
    match reply {
        Ok(out) => {
            let t = trim_str(out.as_str());
            (string_field(t.as_str(), "provider"), string_field(t.as_str(), "default"))
        },
        Err(_) => (None, None),
    }
}

impl RuntimeCheck {
    /// Takes the check one reply further.
    pub fn resume(self, reply: Reply) -> (r: Step<RuntimeCheck, HermesRuntimeStatus>)
        requires
            self.wf(),
        ensures
            check_next(self, reply, r),
            r matches Step::Next(s, _) ==> s.wf(),
    {
        match self {
            RuntimeCheck::Distro { profile } => match distro_from_reply(reply) {
                Err(e) => Step::Done(Err(e)),
                Ok(d) => home_step(d, profile.as_str()),
            },
            RuntimeCheck::Home { distro, profile } => match home_from_reply(reply) {
                None => Step::Done(Err(unexpected())),
                Some(Err(summary)) => {
                    let mut m = "Hermes runtime check failed in ".to_owned();
                    m.append(distro.as_str());
                    m.append(". ");
                    m.append(summary.as_str());
                    Step::Done(Err(m))
                },
                Some(Ok(home)) => {
                    let hermes_home = hermes_home_for_profile(home.as_str(), profile.as_str());
                    let path = hermes_runtime_path(home.as_str());
                    let (search, req) = find_hermes_command(distro.as_str(), home.as_str());
                    Step::Next(RuntimeCheck::Search { distro, profile, hermes_home, path, search }, req)
                },
            },
            RuntimeCheck::Search { distro, profile, hermes_home, path, search } => {
                let ghost s0 = search;
                let o = search.resume(reply);
                let ghost og = o;
                let r = match o {
                    Probe::Ask(n, q) => Step::Next(
                        RuntimeCheck::Search { distro, profile, hermes_home, path, search: n },
                        q,
                    ),
                    Probe::Ready(Err(e)) => Step::Done(Err(e)),
                    Probe::Ready(Ok(c)) => after_command(
                        RuntimeFacts { distro, profile, hermes_home, path, hermes_command: c, version: None },
                    ),
                };
                assert(search_next(s0, reply, og));
                r
            },
            RuntimeCheck::Version { facts } => match reply {
                Reply::Ran(res) => {
                    let version = match &res {
                        Ok(out) => first_line(out.as_str()),
                        Err(_) => None,
                    };
                    let f = RuntimeFacts {
                        distro: facts.distro,
                        profile: facts.profile,
                        hermes_home: facts.hermes_home,
                        path: facts.path,
                        hermes_command: facts.hermes_command,
                        version,
                    };
                    let found: Vec<bool> = Vec::new();
                    assert(found@ =~= Seq::<bool>::empty());
                    next_test(f, found)
                },
                _ => Step::Done(Err(unexpected())),
            },
            RuntimeCheck::Tests { facts, found } => match reply {
                Reply::Ran(res) => {
                    let ok = run_wsl_status(&res);
                    let mut found = found;
                    found.push(ok);
                    if found.len() == 3 && ok {
                        found.push(false);
                    }
                    next_test(facts, found)
                },
                _ => Step::Done(Err(unexpected())),
            },
            RuntimeCheck::Model { facts, found } => match reply {
                Reply::Ran(res) => {
                    let (provider, default) = read_profile_model_config(&res);
                    let has_config = found[2] || found[3];
                    let st = build_hermes_runtime_status(
                        facts.distro.as_str(),
                        facts.profile.as_str(),
                        facts.hermes_home,
                        facts.hermes_command,
                        facts.version,
                        found[0],
                        found[1],
                        has_config,
                        found[4],
                        found[5],
                        found[6],
                        provider,
                        default,
                    );
                    Step::Done(st)
                },
                _ => Step::Done(Err(unexpected())),
            },
        }
    }
}

} // verus!
