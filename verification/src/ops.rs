//! Bridge operations on a profile: running Hermes, running a shell command in the
//! profile, and the repair and install scripts.
use vstd::prelude::*;
use crate::bridge::{
    distro_from_reply, distro_reply, fail_msg, failure, home_args, provided_distro, provided_spec,
    resolve_hermes_runtime, runtime_next, unexpected, unexpected_reply, run_wsl_capture_result, run_wsl_capture_result_owned, wsl_req, Probe,
    Reply, Request, RuntimeProbe, Step,
};
use crate::output::{
    compact_tail, compact_text, compact_text_spec, exit_marker, law_exit_marker_code, marked_output,
    parse_profile_command_output, profile_output_spec, tail_lines,
};
use crate::profile::{validate_existing_spec, validate_profile_name_for_runtime, HermesRuntime, shell_wrapper};
use crate::text::{join, lines, starts_with, trim, trim_str};

verus! {

/// A profile whose runtime is known, in a distro.
#[derive(Debug)]
pub struct Prepared {
    pub distro: String,
    pub profile: String,
    pub runtime: HermesRuntime,
}

/// Getting to a prepared profile: choosing the distro, checking the profile name
/// (and, after it, what the operation checks of its own input), then preparing the
/// runtime.
#[derive(Debug)]
pub enum Setup {
    Distro { profile: String, precheck: Option<String> },
    Runtime { distro: String, profile: String, probe: RuntimeProbe },
}

impl Setup {
    pub open spec fn wf(self) -> bool {
        match self {
            Setup::Runtime { probe, .. } => probe.wf(),
            _ => true,
        }
    }
}

/// What follows once the distro is known: the profile name is checked, then the
/// operation's own check (`precheck` holds its failure), then the runtime is looked
/// for, starting with the Linux home.
pub open spec fn setup_after(
    distro: Seq<char>,
    profile: Seq<char>,
    precheck: Option<String>,
    r: Probe<Setup, Result<Prepared, String>>,
) -> bool {
    match validate_existing_spec(profile) {
        Err(e) => r matches Probe::Ready(Err(m)) && m@ == e,
        Ok(name) => match precheck {
            Some(msg) => r matches Probe::Ready(Err(m)) && m@ == msg@,
            None => r matches Probe::Ask(
                Setup::Runtime { distro: d, profile: p, probe: RuntimeProbe::Home { distro: d2, profile: p2 } },
                req,
            ) && d@ == distro && p@ == name && d2@ == distro && p2@ == name && wsl_req(
                req,
                distro,
                home_args(),
            ),
        },
    }
}

pub open spec fn setup_start(
    provided: Option<String>,
    profile: Seq<char>,
    precheck: Option<String>,
    r: Probe<Setup, Result<Prepared, String>>,
) -> bool {
    match provided_spec(provided) {
        Some(d) => setup_after(d, profile, precheck, r),
        None => r matches Probe::Ask(Setup::Distro { profile: p, precheck: pc }, Request::ListDistros)
            && p@ == profile && pc == precheck,
    }
}

pub open spec fn setup_next(s: Setup, reply: Reply, r: Probe<Setup, Result<Prepared, String>>) -> bool {
    match s {
        Setup::Distro { profile, precheck } => match distro_reply(reply) {
            Err(e) => r matches Probe::Ready(Err(m)) && m@ == e,
            Ok(d) => setup_after(d, profile@, precheck, r),
        },
        Setup::Runtime { distro, profile, probe } => exists|o: Probe<RuntimeProbe, Result<HermesRuntime, String>>|
            #[trigger] runtime_next(probe, reply, o) && match o {
                Probe::Ask(n, q) => r matches Probe::Ask(Setup::Runtime { distro: d, profile: p, probe: m }, q2)
                    && d == distro && p == profile && m == n && q2 == q && n.wf(),
                Probe::Ready(Err(e)) => r matches Probe::Ready(Err(m)) && m == e,
                Probe::Ready(Ok(rt)) => r matches Probe::Ready(Ok(prep)) && prep.distro == distro
                    && prep.profile == profile && prep.runtime == rt,
            },
    }
}

fn after_distro(distro: String, profile: &str, precheck: Option<String>) -> (r: Probe<Setup, Result<Prepared, String>>)
    ensures
        setup_after(distro@, profile@, precheck, r),
        r matches Probe::Ask(s, _) ==> s.wf(),
{
    let name = match validate_profile_name_for_runtime(profile) {
        Ok(n) => n,
        Err(e) => return Probe::Ready(Err(e)),
    };
    if let Some(msg) = precheck {
        return Probe::Ready(Err(msg));
    }
    let (probe, req) = resolve_hermes_runtime(distro.as_str(), name.as_str());
    Probe::Ask(Setup::Runtime { distro, profile: name, probe }, req)
}

/// Starts preparing `profile` in the named distro (or the detected one).
pub fn prepare_profile(provided: &Option<String>, profile: &str, precheck: Option<String>) -> (r: Probe<
    Setup,
    Result<Prepared, String>,
>)
    ensures
        setup_start(*provided, profile@, precheck, r),
        r matches Probe::Ask(s, _) ==> s.wf(),
{
    match provided_distro(provided) {
        Some(d) => after_distro(d, profile, precheck),
        None => Probe::Ask(Setup::Distro { profile: profile.to_owned(), precheck }, Request::ListDistros),
    }
}

impl Setup {
    /// Takes the preparation one reply further.
    pub fn resume(self, reply: Reply) -> (r: Probe<Setup, Result<Prepared, String>>)
        requires
            self.wf(),
        ensures
            setup_next(self, reply, r),
            r matches Probe::Ask(s, _) ==> s.wf(),
    {
        match self {
            Setup::Distro { profile, precheck } => match distro_from_reply(reply) {
                Err(e) => Probe::Ready(Err(e)),
                Ok(d) => after_distro(d, profile.as_str(), precheck),
            },
            Setup::Runtime { distro, profile, probe } => {
                let ghost p0 = probe;
                let o = probe.resume(reply);
                let ghost og = o;
                let r = match o {
                    Probe::Ask(n, q) => Probe::Ask(Setup::Runtime { distro, profile, probe: n }, q),
                    Probe::Ready(Err(e)) => Probe::Ready(Err(e)),
                    Probe::Ready(Ok(rt)) => Probe::Ready(Ok(Prepared { distro, profile, runtime: rt })),
                };
                assert(runtime_next(p0, reply, og));
                r
            },
        }
    }
}

// ---------------------------------------------------------------------------
// Running Hermes in a profile
/// What a Hermes command printed, in a profile.
#[derive(Debug)]
pub struct HermesCommandResult {
    pub distro: String,
    pub profile: String,
    pub output: String,
}

/// A Hermes command to run in a prepared profile: its arguments, the start of its
/// failure message, and how many output lines to keep.
#[derive(Debug)]
pub struct HermesCall {
    pub args: Vec<String>,
    pub lead: String,
    pub tail: usize,
}

/// Running a Hermes command in a profile.
#[derive(Debug)]
pub enum HermesCallOp {
    Setup { setup: Setup, call: HermesCall },
    Run { distro: String, profile: String, lead: String, tail: usize },
}

impl HermesCallOp {
    pub open spec fn wf(self) -> bool {
        match self {
            HermesCallOp::Setup { setup, .. } => setup.wf(),
            _ => true,
        }
    }
}

/// Once the profile is prepared (or not), what a Hermes command does next.
pub open spec fn call_after(
    o: Probe<Setup, Result<Prepared, String>>,
    call: HermesCall,
    r: Step<HermesCallOp, HermesCommandResult>,
) -> bool {
    match o {
        Probe::Ask(n, q) => r matches Step::Next(HermesCallOp::Setup { setup: s2, call: c2 }, q2) && s2
            == n && c2 == call && q2 == q,
        Probe::Ready(Err(e)) => r matches Step::Done(Err(m)) && m == e,
        Probe::Ready(Ok(prep)) => r matches Step::Next(
            HermesCallOp::Run { distro: d, profile: p, lead: l, tail: t },
            req,
        ) && d == prep.distro && p == prep.profile && l == call.lead && t == call.tail && wsl_req(
            req,
            prep.distro@,
            prep.runtime.env_prefix().push(prep.runtime.hermes_command@) + call.args.deep_view(),
        ),
    }
}

pub open spec fn call_next(s: HermesCallOp, reply: Reply, r: Step<HermesCallOp, HermesCommandResult>) -> bool {
    match s {
        HermesCallOp::Setup { setup, call } => exists|o: Probe<Setup, Result<Prepared, String>>|
            #[trigger] setup_next(setup, reply, o) && call_after(o, call, r),
        HermesCallOp::Run { distro, profile, lead, tail } => match reply {
            Reply::Ran(Ok(out)) => r matches Step::Done(Ok(res)) && res.distro == distro && res.profile
                == profile && res.output@ == join(tail_lines(out@, tail as nat), "\n"@),
            Reply::Ran(Err(e)) => r matches Step::Done(Err(m)) && m@ == fail_msg(lead@, distro@, e),
            _ => r matches Step::Done(Err(m)) && m@ == unexpected_reply(),
        },
    }
}

fn call_continue(o: Probe<Setup, Result<Prepared, String>>, call: HermesCall) -> (r: Step<
    HermesCallOp,
    HermesCommandResult,
>)
    requires
        o matches Probe::Ask(s, _) ==> s.wf(),
    ensures
        call_after(o, call, r),
        r matches Step::Next(s, _) ==> s.wf(),
{
    match o {
        Probe::Ask(n, q) => Step::Next(HermesCallOp::Setup { setup: n, call }, q),
        Probe::Ready(Err(e)) => Step::Done(Err(e)),
        Probe::Ready(Ok(prep)) => {
            let args = prep.runtime.command_args(call.args);
            let req = run_wsl_capture_result_owned(prep.distro.as_str(), args);
            Step::Next(
                HermesCallOp::Run {
                    distro: prep.distro,
                    profile: prep.profile,
                    lead: call.lead,
                    tail: call.tail,
                },
                req,
            )
        },
    }
}

impl HermesCallOp {
    /// Takes the command one reply further; its result keeps the last lines of what
    /// Hermes printed.
    pub fn resume(self, reply: Reply) -> (r: Step<HermesCallOp, HermesCommandResult>)
        requires
            self.wf(),
        ensures
            call_next(self, reply, r),
            r matches Step::Next(s, _) ==> s.wf(),
    {
        match self {
            HermesCallOp::Setup { setup, call } => {
                let ghost s0 = setup;
                let o = setup.resume(reply);
                let ghost og = o;
                let r = call_continue(o, call);
                assert(setup_next(s0, reply, og));
                r
            },
            HermesCallOp::Run { distro, profile, lead, tail } => match reply {
                Reply::Ran(Ok(out)) => {
                    let output = compact_tail(out.as_str(), tail);
                    Step::Done(Ok(HermesCommandResult { distro, profile, output }))
                },
                Reply::Ran(Err(e)) => Step::Done(Err(failure(lead.as_str(), distro.as_str(), &e))),
                _ => Step::Done(Err(unexpected())),
            },
        }
    }
}

fn start_call(provided: &Option<String>, profile: &str, precheck: Option<String>, call: HermesCall) -> (r:
    Step<HermesCallOp, HermesCommandResult>)
    ensures
        exists|o: Probe<Setup, Result<Prepared, String>>|
            #[trigger] setup_start(*provided, profile@, precheck, o) && call_after(o, call, r),
        r matches Step::Next(s, _) ==> s.wf(),
{
    let o = prepare_profile(provided, profile, precheck);
    let ghost og = o;
    let r = call_continue(o, call);
    assert(setup_start(*provided, profile@, precheck, og));
    r
}

/// The call that `hermes doctor` makes.
pub open spec fn doctor_call(c: HermesCall) -> bool {
    c.args.deep_view() == seq!["doctor"@] && c.lead@ == "Hermes doctor failed in "@ && c.tail == 30
}

/// Runs `hermes doctor` in a profile; the result keeps the last 30 lines it printed.
pub fn run_hermes_doctor_blocking(distro: String, profile: String) -> (r: Step<HermesCallOp, HermesCommandResult>)
    ensures
        exists|o: Probe<Setup, Result<Prepared, String>>, c: HermesCall|
            #![trigger setup_start(Some(distro), profile@, None, o), call_after(o, c, r)]
            setup_start(Some(distro), profile@, None, o) && doctor_call(c) && call_after(o, c, r),
        r matches Step::Next(s, _) ==> s.wf(),
{
    let mut args: Vec<String> = Vec::new();
    args.push("doctor".to_owned());
    assert(args.deep_view() =~= seq!["doctor"@]);
    let call = HermesCall { args, lead: "Hermes doctor failed in ".to_owned(), tail: 30 };
    let ghost c = call;
    let r = start_call(&Some(distro), profile.as_str(), None, call);
    assert(doctor_call(c));
    r
}

/// What a prompt for Hermes fails on: nothing to ask, or more than 8000 characters.
pub open spec fn prompt_check(prompt: Seq<char>) -> Option<Seq<char>> {
    if trim(prompt).len() == 0 {
        Some("Prompt is required."@)
    } else if trim(prompt).len() > 8000 {
        Some("Prompt is too long for this Hermes bridge call."@)
    } else {
        None
    }
}

/// The call that asking Hermes makes.
pub open spec fn ask_call(c: HermesCall, prompt: Seq<char>) -> bool {
    c.args.deep_view() == seq!["chat"@, "--quiet"@, "--query"@, trim(prompt)] && c.lead@
        == "Hermes chat failed in "@ && c.tail == 80
}

/// Asks Hermes a question (`hermes chat --quiet --query <prompt>`) in a profile; the
/// prompt is trimmed, must not be empty and may hold at most 8000 characters; the
/// result keeps the last 80 lines of the answer.
pub fn ask_hermes_blocking(distro: String, profile: String, prompt: String) -> (r: Step<
    HermesCallOp,
    HermesCommandResult,
>)
    ensures
        exists|o: Probe<Setup, Result<Prepared, String>>, c: HermesCall, pc: Option<String>|
            #![trigger setup_start(Some(distro), profile@, pc, o), call_after(o, c, r)]
            setup_start(Some(distro), profile@, pc, o) && opt_view_eq(pc, prompt_check(prompt@))
                && ask_call(c, prompt@) && call_after(o, c, r),
        r matches Step::Next(s, _) ==> s.wf(),
{
    let p = trim_str(prompt.as_str());
    let n = p.unicode_len();
    let precheck = if n == 0 {
        Some("Prompt is required.".to_owned())
    } else if n > 8000 {
        Some("Prompt is too long for this Hermes bridge call.".to_owned())
    } else {
        None
    };
    let mut args: Vec<String> = Vec::new();
    args.push("chat".to_owned());
    args.push("--quiet".to_owned());
    args.push("--query".to_owned());
    args.push(p);
    assert(args.deep_view() =~= seq!["chat"@, "--quiet"@, "--query"@, trim(prompt@)]);
    let call = HermesCall { args, lead: "Hermes chat failed in ".to_owned(), tail: 80 };
    let ghost c = call;
    let ghost pc = precheck;
    let r = start_call(&Some(distro), profile.as_str(), precheck, call);
    assert(ask_call(c, prompt@));
    assert(opt_view_eq(pc, prompt_check(prompt@)));
    r
}

/// An optional message that reads as `m`.
pub open spec fn opt_view_eq(o: Option<String>, m: Option<Seq<char>>) -> bool {
    match (o, m) {
        (Some(a), Some(b)) => a@ == b,
        (None, None) => true,
        _ => false,
    }
}

// ---------------------------------------------------------------------------
// Shell commands in a profile
/// What a shell command printed in a profile, and its exit status.
#[derive(Debug)]
pub struct ProfileCommandResult {
    pub distro: String,
    pub profile: String,
    pub command: String,
    pub output: String,
    pub exit_code: i32,
}

/// Running a shell command in a profile.
#[derive(Debug)]
pub enum ProfileCommandOp {
    Setup { setup: Setup, command: String },
    Run { distro: String, profile: String, command: String },
}

impl ProfileCommandOp {
    pub open spec fn wf(self) -> bool {
        match self {
            ProfileCommandOp::Setup { setup, .. } => setup.wf(),
            _ => true,
        }
    }
}

/// What a console command fails on: nothing to run, or more than 4000 characters.
pub open spec fn command_check(command: Seq<char>) -> Option<Seq<char>> {
    if trim(command).len() == 0 {
        Some("Command is required."@)
    } else if trim(command).len() > 4000 {
        Some("Command is too long for this console."@)
    } else {
        None
    }
}

pub open spec fn command_after(
    o: Probe<Setup, Result<Prepared, String>>,
    command: String,
    r: Step<ProfileCommandOp, ProfileCommandResult>,
) -> bool {
    match o {
        Probe::Ask(n, q) => r matches Step::Next(ProfileCommandOp::Setup { setup: s2, command: c2 }, q2)
            && s2 == n && c2 == command && q2 == q,
        Probe::Ready(Err(e)) => r matches Step::Done(Err(m)) && m == e,
        Probe::Ready(Ok(prep)) => r matches Step::Next(
            ProfileCommandOp::Run { distro: d, profile: p, command: c },
            req,
        ) && d == prep.distro && p == prep.profile && c == command && wsl_req(
            req,
            prep.distro@,
            prep.runtime.env_prefix() + seq!["OS1_COMMAND="@ + command@, "bash"@, "-lc"@, shell_wrapper()],
        ),
    }
}

pub open spec fn command_next(s: ProfileCommandOp, reply: Reply, r: Step<ProfileCommandOp, ProfileCommandResult>) -> bool {
    match s {
        ProfileCommandOp::Setup { setup, command } => exists|o: Probe<Setup, Result<Prepared, String>>|
            #[trigger] setup_next(setup, reply, o) && command_after(o, command, r),
        ProfileCommandOp::Run { distro, profile, command } => match reply {
            Reply::Ran(Ok(out)) => r matches Step::Done(Ok(res)) && res.distro == distro && res.profile
                == profile && res.command == command && res.output@ == compact_text_spec(
                profile_output_spec(out@).0,
                12000,
            ) && res.exit_code == profile_output_spec(out@).1,
            Reply::Ran(Err(e)) => r matches Step::Done(Err(m)) && m@ == fail_msg(
                "Profile command failed in "@,
                distro@,
                e,
            ),
            _ => r matches Step::Done(Err(m)) && m@ == unexpected_reply(),
        },
    }
}

/// A profile command reports the exit status its shell wrapper printed: when the
/// output ends with the marker line for status `code` (with nothing marker-like after
/// it), the command's result has exit code `code` and, as output, the lines the
/// command printed before the marker (cut to the last 12000 characters).
pub proof fn law_profile_command_status(
    distro: String,
    profile: String,
    command: String,
    out: String,
    output: Seq<char>,
    code: i32,
    rest: Seq<char>,
    r: Step<ProfileCommandOp, ProfileCommandResult>,
)
    requires
        out@ == marked_output(output, code, rest),
        forall|i: int| 0 <= i < lines(rest).len() ==> !starts_with(trim(#[trigger] lines(rest)[i]), exit_marker()),
        command_next(ProfileCommandOp::Run { distro, profile, command }, Reply::Ran(Ok(out)), r),
    ensures
        r matches Step::Done(Ok(res)) && res.exit_code == code && res.output@ == compact_text_spec(
            join(lines(output + "\n"@), "\n"@),
            12000,
        ) && res.command == command && res.profile == profile && res.distro == distro,
{
    law_exit_marker_code(output, code, rest);
}

fn command_continue(o: Probe<Setup, Result<Prepared, String>>, command: String) -> (r: Step<
    ProfileCommandOp,
    ProfileCommandResult,
>)
    requires
        o matches Probe::Ask(s, _) ==> s.wf(),
    ensures
        command_after(o, command, r),
        r matches Step::Next(s, _) ==> s.wf(),
{
    match o {
        Probe::Ask(n, q) => Step::Next(ProfileCommandOp::Setup { setup: n, command }, q),
        Probe::Ready(Err(e)) => Step::Done(Err(e)),
        Probe::Ready(Ok(prep)) => {
            let args = prep.runtime.shell_command_args(command.as_str());
            let req = run_wsl_capture_result_owned(prep.distro.as_str(), args);
            Step::Next(ProfileCommandOp::Run { distro: prep.distro, profile: prep.profile, command }, req)
        },
    }
}

impl ProfileCommandOp {
    /// Takes the command one reply further; the result holds the output before the
    /// exit marker (its last 12000 characters) and the exit status.
    pub fn resume(self, reply: Reply) -> (r: Step<ProfileCommandOp, ProfileCommandResult>)
        requires
            self.wf(),
        ensures
            command_next(self, reply, r),
            r matches Step::Next(s, _) ==> s.wf(),
    {
        match self {
            ProfileCommandOp::Setup { setup, command } => {
                let ghost s0 = setup;
                let o = setup.resume(reply);
                let ghost og = o;
                let r = command_continue(o, command);
                assert(setup_next(s0, reply, og));
                r
            },
            ProfileCommandOp::Run { distro, profile, command } => match reply {
                Reply::Ran(Ok(out)) => {
                    let (text, exit_code) = parse_profile_command_output(out.as_str());
                    let output = compact_text(text.as_str(), 12000);
                    Step::Done(Ok(ProfileCommandResult { distro, profile, command, output, exit_code }))
                },
                Reply::Ran(Err(e)) => Step::Done(
                    Err(failure("Profile command failed in ", distro.as_str(), &e)),
                ),
                _ => Step::Done(Err(unexpected())),
            },
        }
    }
}

/// Runs a shell command in a profile (trimmed; not empty, at most 4000 characters),
/// under a 45 s timeout when the distro has `timeout`.
pub fn run_profile_command_blocking(distro: String, profile: String, command: String) -> (r: Step<
    ProfileCommandOp,
    ProfileCommandResult,
>)
    ensures
        exists|o: Probe<Setup, Result<Prepared, String>>, pc: Option<String>, c: String|
            #![trigger setup_start(Some(distro), profile@, pc, o), command_after(o, c, r)]
            setup_start(Some(distro), profile@, pc, o) && opt_view_eq(pc, command_check(command@))
                && c@ == trim(command@) && command_after(o, c, r),
        r matches Step::Next(s, _) ==> s.wf(),
{
    let c = trim_str(command.as_str());
    let n = c.unicode_len();
    let precheck = if n == 0 {
        Some("Command is required.".to_owned())
    } else if n > 4000 {
        Some("Command is too long for this console.".to_owned())
    } else {
        None
    };
    let ghost pc = precheck;
    let ghost cg = c;
    let o = prepare_profile(&Some(distro), profile.as_str(), precheck);
    let ghost og = o;
    let r = command_continue(o, c);
    assert(setup_start(Some(distro), profile@, pc, og));
    assert(opt_view_eq(pc, command_check(command@)));
    r
}

// ---------------------------------------------------------------------------
// Repair and install
/// Reinstalls Hermes's Python environment from its checkout and links the CLI.
pub const REPAIR_SCRIPT: &'static str = "set -eu\ninstall=\"$HOME/.hermes/hermes-agent\"\nuv=\"$HOME/.local/bin/uv\"\nif ! test -x \"$install/hermes\"; then\n  printf 'Hermes checkout was not found at %s' \"$install\" >&2\n  exit 127\nfi\nif ! test -x \"$uv\"; then\n  printf 'uv was not found at %s. Install uv or rerun the Hermes installer.' \"$uv\" >&2\n  exit 127\nfi\ncd \"$install\"\nif ! test -x \"$install/venv/bin/python\"; then\n  env -u VIRTUAL_ENV \"$uv\" venv venv --python 3.11\nfi\nenv -u VIRTUAL_ENV \"$uv\" pip install --python \"$install/venv/bin/python\" -e .\nif test -f \"$install/mini-swe-agent/pyproject.toml\"; then\n  env -u VIRTUAL_ENV \"$uv\" pip install --python \"$install/venv/bin/python\" -e \"$install/mini-swe-agent\"\nfi\nmkdir -p \"$HOME/.local/bin\"\nln -sf \"$install/venv/bin/hermes\" \"$HOME/.local/bin/hermes\"\n\"$HOME/.local/bin/hermes\" --version\n";

/// Runs the Hermes installer and checks that the CLI then answers.
pub const INSTALL_SCRIPT: &'static str = "set -eu\nexport PATH=\"/usr/local/sbin:/usr/local/bin:/usr/sbin:/usr/bin:/sbin:/bin:$HOME/.local/bin:$PATH\"\nif ! command -v curl >/dev/null 2>&1; then\n  printf 'curl is required to install Hermes inside WSL.' >&2\n  exit 127\nfi\ncurl -fsSL https://raw.githubusercontent.com/NousResearch/hermes-agent/main/scripts/install.sh | bash\nexport PATH=\"$HOME/.local/bin:$HOME/.hermes/hermes-agent/venv/bin:$PATH\"\nif command -v hermes >/dev/null 2>&1; then\n  hermes --version\nelif test -x \"$HOME/.local/bin/hermes\"; then\n  \"$HOME/.local/bin/hermes\" --version\nelif test -x \"$HOME/.hermes/hermes-agent/venv/bin/hermes\"; then\n  \"$HOME/.hermes/hermes-agent/venv/bin/hermes\" --version\nelse\n  printf 'Hermes installer finished, but the Hermes CLI was not found.' >&2\n  exit 127\nfi\n";

/// What a maintenance script did in a distro.
#[derive(Debug)]
pub struct HermesScriptResult {
    pub distro: String,
    pub message: String,
    pub output: String,
}

/// A maintenance script: its text, the start of its failure and success messages,
/// and how many output lines to keep.
#[derive(Debug)]
pub struct Script {
    pub text: String,
    pub fail_lead: String,
    pub done_lead: String,
    pub tail: usize,
}

/// Running a maintenance script in a distro.
#[derive(Debug)]
pub enum ScriptOp {
    Distro { script: Script },
    Run { distro: String, script: Script },
}

pub open spec fn script_after(d: Seq<char>, script: Script, r: Step<ScriptOp, HermesScriptResult>) -> bool {
    r matches Step::Next(ScriptOp::Run { distro: d2, script: s2 }, req) && d2@ == d && s2 == script
        && wsl_req(req, d, seq!["sh"@, "-lc"@, script.text@])
}

pub open spec fn script_next(s: ScriptOp, reply: Reply, r: Step<ScriptOp, HermesScriptResult>) -> bool {
    match s {
        ScriptOp::Distro { script } => match distro_reply(reply) {
            Err(e) => r matches Step::Done(Err(m)) && m@ == e,
            Ok(d) => script_after(d, script, r),
        },
        ScriptOp::Run { distro, script } => match reply {
            Reply::Ran(Ok(out)) => r matches Step::Done(Ok(res)) && res.distro == distro && res.message@
                == script.done_lead@ + distro@ && res.output@ == join(
                tail_lines(out@, script.tail as nat),
                "\n"@,
            ),
            Reply::Ran(Err(e)) => r matches Step::Done(Err(m)) && m@ == fail_msg(script.fail_lead@, distro@, e),
            _ => r matches Step::Done(Err(m)) && m@ == unexpected_reply(),
        },
    }
}

fn script_run(distro: String, script: Script) -> (r: Step<ScriptOp, HermesScriptResult>)
    ensures
        script_after(distro@, script, r),
{
    let text = script.text.as_str();
    let req = run_wsl_capture_result(distro.as_str(), &["sh", "-lc", text]);
    assert(seq!["sh", "-lc", text].map_values(|a: &str| a@) =~= seq!["sh"@, "-lc"@, script.text@]);
    Step::Next(ScriptOp::Run { distro, script }, req)
}

impl ScriptOp {
    /// Takes the script one reply further; the result keeps the last lines it printed.
    pub fn resume(self, reply: Reply) -> (r: Step<ScriptOp, HermesScriptResult>)
        ensures
            script_next(self, reply, r),
    {
        match self {
            ScriptOp::Distro { script } => match distro_from_reply(reply) {
                Err(e) => Step::Done(Err(e)),
                Ok(d) => script_run(d, script),
            },
            ScriptOp::Run { distro, script } => match reply {
                Reply::Ran(Ok(out)) => {
                    let output = compact_tail(out.as_str(), script.tail);
                    let mut message = script.done_lead.clone();
                    message.append(distro.as_str());
                    Step::Done(Ok(HermesScriptResult { distro, message, output }))
                },
                Reply::Ran(Err(e)) => Step::Done(
                    Err(failure(script.fail_lead.as_str(), distro.as_str(), &e)),
                ),
                _ => Step::Done(Err(unexpected())),
            },
        }
    }
}

pub open spec fn script_start(provided: Option<String>, script: Script, r: Step<ScriptOp, HermesScriptResult>) -> bool {
    match provided_spec(provided) {
        Some(d) => script_after(d, script, r),
        None => r matches Step::Next(ScriptOp::Distro { script: s2 }, Request::ListDistros) && s2 == script,
    }
}

fn start_script(provided: &Option<String>, script: Script) -> (r: Step<ScriptOp, HermesScriptResult>)
    ensures
        script_start(*provided, script, r),
{
    match provided_distro(provided) {
        Some(d) => script_run(d, script),
        None => Step::Next(ScriptOp::Distro { script }, Request::ListDistros),
    }
}

/// Repairs the Hermes checkout in a distro; the result keeps the last 8 lines printed.
pub fn repair_hermes_blocking(distro: Option<String>) -> (r: Step<ScriptOp, HermesScriptResult>)
    ensures
        exists|s: Script|
            #[trigger] script_start(distro, s, r) && s.text@ == REPAIR_SCRIPT@ && s.fail_lead@
                == "Hermes repair failed in "@ && s.done_lead@ == "Hermes repaired in "@ && s.tail == 8,
{
    let s = Script {
        text: REPAIR_SCRIPT.to_owned(),
        fail_lead: "Hermes repair failed in ".to_owned(),
        done_lead: "Hermes repaired in ".to_owned(),
        tail: 8,
    };
    let ghost sg = s;
    let r = start_script(&distro, s);
    assert(script_start(distro, sg, r));
    r
}

/// Installs Hermes in a distro; the result keeps the last 12 lines printed.
pub fn install_hermes_blocking(distro: Option<String>) -> (r: Step<ScriptOp, HermesScriptResult>)
    ensures
        exists|s: Script|
            #[trigger] script_start(distro, s, r) && s.text@ == INSTALL_SCRIPT@ && s.fail_lead@
                == "Hermes install failed in "@ && s.done_lead@ == "Hermes installed in "@ && s.tail == 12,
{
    let s = Script {
        text: INSTALL_SCRIPT.to_owned(),
        fail_lead: "Hermes install failed in ".to_owned(),
        done_lead: "Hermes installed in ".to_owned(),
        tail: 12,
    };
    let ghost sg = s;
    let r = start_script(&distro, s);
    assert(script_start(distro, sg, r));
    r
}

} // verus!
