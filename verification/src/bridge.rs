//! The requests that the bridge to WSL makes and the replies it gets, and the
//! steps every bridge operation shares: choosing a distro, finding the Linux home,
//! finding the Hermes CLI, and preparing a profile's runtime.
//!
//! Every operation is a state machine: it starts with a first request (or is done at
//! once), and each reply takes it to its next request or to its result. The caller
//! performs the requests.
use vstd::prelude::*;
use crate::output::{error_summary_spec, summarize_command_error, CommandCapture};
use crate::profile::{
    hermes_home_for_profile, hermes_home_spec, hermes_runtime_path, runtime_path_spec,
    HermesRuntime,
};
use crate::status::{find_signal, first_signal, WslDistroStatus};
use crate::text::{
    opt_view, res_view, trim, trim_end_by, trim_end_str, trim_str, Pat,
};

verus! {

/// Something the bridge needs from the outside world.
#[derive(Debug)]
pub enum Request {
    /// Run `wsl.exe -d <distro> -- <args..>`, writing `stdin` to it when there is one.
    Wsl { distro: String, args: Vec<String>, stdin: Option<String> },
    /// List the WSL distros and inspect each of them.
    ListDistros,
    /// Look up the OpenAI API key.
    OpenAiKey,
    /// Read the Windows Codex login (`%USERPROFILE%\.codex\auth.json`).
    CodexAuth,
}

/// What came back for a request.
#[derive(Debug)]
pub enum Reply {
    /// What a WSL command printed, or how it failed.
    Ran(Result<String, CommandCapture>),
    /// The distros found.
    Distros(Vec<WslDistroStatus>),
    /// The OpenAI API key, when configured.
    Key(Option<String>),
    /// The text of the Codex login, or why it could not be read.
    Auth(Result<String, String>),
}

/// Where an operation stands: waiting for the reply to a request, or done.
#[derive(Debug)]
pub enum Step<S, T> {
    Next(S, Request),
    Done(Result<T, String>),
}

/// Where a shared part of an operation stands.
#[derive(Debug)]
pub enum Probe<S, T> {
    Ask(S, Request),
    Ready(T),
}

/// The message for a reply that is not of the kind the request calls for.
pub open spec fn unexpected_reply() -> Seq<char> {
    "The bridge got a reply of another kind than its request."@
}

/// The message for a reply of another kind than its request.
pub fn unexpected() -> (r: String)
    ensures
        r@ == unexpected_reply(),
{
    "The bridge got a reply of another kind than its request.".to_owned()
}

/// `r` runs `args` in `distro` with nothing on standard input.
pub open spec fn wsl_req(r: Request, distro: Seq<char>, args: Seq<Seq<char>>) -> bool {
    r matches Request::Wsl { distro: d, args: a, stdin: None } && d@ == distro && a.deep_view()
        == args
}

/// `r` runs `args` in `distro` with `input` on standard input.
pub open spec fn wsl_req_input(r: Request, distro: Seq<char>, args: Seq<Seq<char>>, input: Seq<char>) -> bool {
    r matches Request::Wsl { distro: d, args: a, stdin: Some(i) } && d@ == distro && a.deep_view()
        == args && i@ == input
}

/// The request that runs `args` in `distro` and captures what it prints.
pub fn run_wsl_capture_result_owned(distro: &str, args: Vec<String>) -> (r: Request)
    ensures
        wsl_req(r, distro@, args.deep_view()),
{
    Request::Wsl { distro: distro.to_owned(), args, stdin: None }
}

/// The request that runs `args` in `distro` with `input` on standard input.
pub fn run_wsl_capture_with_stdin(distro: &str, args: Vec<String>, input: &str) -> (r: Request)
    ensures
        wsl_req_input(r, distro@, args.deep_view(), input@),
{
    Request::Wsl { distro: distro.to_owned(), args, stdin: Some(input.to_owned()) }
}

/// The request that runs the fixed arguments `args` in `distro`.
pub fn run_wsl_capture_result(distro: &str, args: &[&str]) -> (r: Request)
    ensures
        wsl_req(r, distro@, args@.map_values(|a: &str| a@)),
{
    let v = texts(args);
    assert(v.deep_view() =~= args@.map_values(|a: &str| a@));
    run_wsl_capture_result_owned(distro, v)
}

/// Whether a command ran successfully (what a `test` reports).
pub fn run_wsl_status(result: &Result<String, CommandCapture>) -> (b: bool)
    ensures
        b == result is Ok,
{
    result.is_ok()
}

/// The full argument list of `wsl.exe` for a request to run `args` in `distro`.
pub fn wsl_exe_args(distro: &str, args: &Vec<String>) -> (r: Vec<String>)
    ensures
        r.deep_view() == seq!["-d"@, distro@, "--"@] + args.deep_view(),
{
    let mut r: Vec<String> = Vec::new();
    r.push("-d".to_owned());
    r.push(distro.to_owned());
    r.push("--".to_owned());
    let mut i: usize = 0;
    while i < args.len()
        invariant
            i <= args.len(),
            r.deep_view() == seq!["-d"@, distro@, "--"@] + args.deep_view().take(i as int),
        decreases args.len() - i,
    {
        let ghost before = r.deep_view();
        r.push(args[i].clone());
        assert(r.deep_view() =~= before.push(args@[i as int]@));
        assert(args.deep_view().take(i + 1) =~= args.deep_view().take(i as int).push(args@[i as int]@));
        assert(r.deep_view() =~= seq!["-d"@, distro@, "--"@] + args.deep_view().take(i + 1));
        i = i + 1;
    }
    assert(args.deep_view().take(args.len() as int) =~= args.deep_view());
    r
}

/// The texts as owned strings, in order.
pub fn texts(items: &[&str]) -> (r: Vec<String>)
    ensures
        r.len() == items@.len(),
        forall|i: int| 0 <= i < items@.len() ==> #[trigger] r@[i]@ == items@[i]@,
{
    let mut r: Vec<String> = Vec::new();
    let mut i: usize = 0;
    while i < items.len()
        invariant
            i <= items.len(),
            r.len() == i,
            forall|j: int| 0 <= j < i ==> #[trigger] r@[j]@ == items@[j]@,
        decreases items.len() - i,
    {
        r.push(items[i].to_owned());
        i = i + 1;
    }
    r
}

/// `a` followed by `b`.
pub fn cat(a: &str, b: &str) -> (r: String)
    ensures
        r@ == a@ + b@,
{
    let mut r = a.to_owned();
    r.append(b);
    r
}

/// A failure message: `<lead><distro>. <summary of the error>`.
pub open spec fn fail_msg(lead: Seq<char>, distro: Seq<char>, e: CommandCapture) -> Seq<char> {
    lead + distro + ". "@ + error_summary_spec(e.stdout@, e.stderr@, e.code)
}

/// The failure message of a command run in `distro`.
pub fn failure(lead: &str, distro: &str, e: &CommandCapture) -> (r: String)
    ensures
        r@ == fail_msg(lead@, distro@, *e),
{
    let mut r = lead.to_owned();
    r.append(distro);
    r.append(". ");
    let s = summarize_command_error(e);
    r.append(s.as_str());
    r
}

// ---------------------------------------------------------------------------
// Choosing the distro
/// The distro a caller named, trimmed, when it is not blank.
pub open spec fn provided_spec(p: Option<String>) -> Option<Seq<char>> {
    match p {
        Some(v) => if trim(v@).len() > 0 {
            Some(trim(v@))
        } else {
            None
        },
        None => None,
    }
}

/// The distro chosen among those detected: the first with signs of Hermes, else the
/// first one, else none.
pub open spec fn detected_spec(ds: Seq<WslDistroStatus>) -> Result<Seq<char>, Seq<char>> {
    match first_signal(ds) {
        Some(i) => Ok(ds[i].name@),
        None => if ds.len() > 0 {
            Ok(ds[0].name@)
        } else {
            Err("No WSL distro was detected."@)
        },
    }
}

/// The distro a caller named, when it is not blank.
pub fn provided_distro(p: &Option<String>) -> (r: Option<String>)
    ensures
        opt_view(r) == provided_spec(*p),
{
    match p {
        Some(v) => {
            let t = trim_str(v.as_str());
            if t.unicode_len() > 0 {
                Some(t)
            } else {
                None
            }
        },
        None => None,
    }
}

/// The distro to work in: the one named when it is not blank, else the first
/// detected distro with signs of Hermes, else the first detected one.
pub fn resolve_wsl_distro(provided: &Option<String>, detected: &Vec<WslDistroStatus>) -> (r: Result<
    String,
    String,
>)
    ensures
        res_view(r) == match provided_spec(*provided) {
            Some(d) => Ok(d),
            None => detected_spec(detected@),
        },
{
    if let Some(d) = provided_distro(provided) {
        return Ok(d);
    }
    match find_signal(detected) {
        Some(i) => Ok(detected[i].name.clone()),
        None => if detected.len() > 0 {
            Ok(detected[0].name.clone())
        } else {
            Err("No WSL distro was detected.".to_owned())
        },
    }
}

/// A distro chosen from detection shows signs of Hermes whenever any detected distro
/// does.
pub proof fn law_resolve_prefers_signals(ds: Seq<WslDistroStatus>, i: int)
    requires
        0 <= i < ds.len(),
        crate::status::has_signals(ds[i]),
    ensures
        detected_spec(ds) matches Ok(name) && exists|k: int|
            0 <= k < ds.len() && crate::status::has_signals(#[trigger] ds[k]) && ds[k].name@ == name,
{
    crate::status::lemma_first_signal_found(ds, 0);
    let k = first_signal(ds)->Some_0;
    assert(crate::status::has_signals(ds[k]));
}

/// The distro that a reply to `ListDistros` leads to.
pub open spec fn distro_reply(reply: Reply) -> Result<Seq<char>, Seq<char>> {
    match reply {
        Reply::Distros(ds) => detected_spec(ds@),
        _ => Err(unexpected_reply()),
    }
}

/// The distro that a reply to `ListDistros` leads to, or why there is none.
pub fn distro_from_reply(reply: Reply) -> (r: Result<String, String>)
    ensures
        res_view(r) == distro_reply(reply),
{
    match reply {
        Reply::Distros(ds) => resolve_wsl_distro(&None, &ds),
        _ => Err(unexpected()),
    }
}

// ---------------------------------------------------------------------------
// The Linux home
/// The command that prints the Linux home.
pub open spec fn home_args() -> Seq<Seq<char>> {
    seq!["printenv"@, "HOME"@]
}

/// A Linux home as `printenv HOME` prints it: trimmed, without trailing `/`.
pub open spec fn home_of(out: Seq<char>) -> Seq<char> {
    trim_end_by(trim(out), Pat::Ch('/'))
}

/// The Linux home that a run of `printenv HOME` gives, or the summary of why not.
pub open spec fn home_result(r: Result<String, CommandCapture>) -> Result<Seq<char>, Seq<char>> {
    match r {
        Ok(out) => if home_of(out@).len() > 0 {
            Ok(home_of(out@))
        } else {
            Err(error_summary_spec(""@, "Linux home was empty."@, None))
        },
        Err(e) => Err(error_summary_spec(e.stdout@, e.stderr@, e.code)),
    }
}

/// The request that prints the Linux home of `distro`.
pub fn home_request(distro: &str) -> (r: Request)
    ensures
        wsl_req(r, distro@, home_args()),
{
    let r = run_wsl_capture_result(distro, &["printenv", "HOME"]);
    assert(seq!["printenv", "HOME"].map_values(|a: &str| a@) =~= home_args());
    r
}

/// The Linux home from what `printenv HOME` gave: trimmed and without trailing `/`;
/// an empty home is an error.
pub fn linux_home(reply: Result<String, CommandCapture>) -> (r: Result<String, CommandCapture>)
    ensures
        match r {
            Ok(h) => home_result(reply) == Ok::<Seq<char>, Seq<char>>(h@),
            Err(e) => home_result(reply) == Err::<Seq<char>, Seq<char>>(error_summary_spec(
                e.stdout@,
                e.stderr@,
                e.code,
            )),
        },
{
    match reply {
        Ok(out) => {
            let t = trim_str(out.as_str());
            let h = trim_end_str(t.as_str(), Pat::Ch('/'));
            if h.unicode_len() == 0 {
                proof {
                    reveal_strlit("");
                }
                Err(
                    CommandCapture {
                        stdout: String::new(),
                        stderr: "Linux home was empty.".to_owned(),
                        code: None,
                    },
                )
            } else {
                Ok(h)
            }
        },
        Err(e) => Err(e),
    }
}

/// The home from a reply, with the summary of the error when there is none.
pub open spec fn home_reply(reply: Reply) -> Option<Result<Seq<char>, Seq<char>>> {
    match reply {
        Reply::Ran(r) => Some(home_result(r)),
        _ => None,
    }
}

/// The Linux home from a reply, or the summary of what went wrong (`None` for a
/// reply of another kind).
pub fn home_from_reply(reply: Reply) -> (r: Option<Result<String, String>>)
    ensures
        match r {
            Some(x) => home_reply(reply) == Some(res_view(x)),
            None => home_reply(reply) is None,
        },
{
    match reply {
        Reply::Ran(out) => match linux_home(out) {
            Ok(h) => Some(Ok(h)),
            Err(e) => Some(Err(summarize_command_error(&e))),
        },
        _ => None,
    }
}

// ---------------------------------------------------------------------------
// The Hermes CLI
/// Where the Hermes CLI may be, in the order tried.
pub open spec fn command_candidates(home: Seq<char>) -> Seq<Seq<char>> {
    seq![
        home + "/.local/bin/hermes"@,
        home + "/.hermes/hermes-agent/venv/bin/hermes"@,
        home + "/.hermes/hermes-agent/hermes"@,
    ]
}

/// The search for the Hermes CLI: which candidate is being tested.
#[derive(Debug)]
pub struct CommandSearch {
    pub distro: String,
    pub candidates: Vec<String>,
    pub index: usize,
}

impl CommandSearch {
    pub open spec fn wf(self) -> bool {
        self.candidates.len() == 3 && self.index < 3
    }
}

/// `test -x <path>`.
pub open spec fn test_args(flag: Seq<char>, path: Seq<char>) -> Seq<Seq<char>> {
    seq!["test"@, flag, path]
}

/// The request that runs `test <flag> <path>` in `distro`.
pub fn test_request(distro: &str, flag: &str, path: &str) -> (r: Request)
    ensures
        wsl_req(r, distro@, test_args(flag@, path@)),
{
    let r = run_wsl_capture_result(distro, &["test", flag, path]);
    assert(seq!["test", flag, path].map_values(|a: &str| a@) =~= test_args(flag@, path@));
    r
}

/// Starts looking for the Hermes CLI in the Linux home: it tests whether each
/// candidate is executable, in order.
pub fn find_hermes_command(distro: &str, home: &str) -> (r: (CommandSearch, Request))
    ensures
        r.0.wf(),
        r.0.distro@ == distro@,
        r.0.candidates.deep_view() == command_candidates(home@),
        r.0.index == 0,
        wsl_req(r.1, distro@, test_args("-x"@, command_candidates(home@)[0])),
{
    let mut c: Vec<String> = Vec::new();
    c.push(cat(home, "/.local/bin/hermes"));
    c.push(cat(home, "/.hermes/hermes-agent/venv/bin/hermes"));
    c.push(cat(home, "/.hermes/hermes-agent/hermes"));
    assert(c.deep_view() =~= command_candidates(home@));
    let req = test_request(distro, "-x", c[0].as_str());
    (CommandSearch { distro: distro.to_owned(), candidates: c, index: 0 }, req)
}

pub open spec fn search_next(
    s: CommandSearch,
    reply: Reply,
    r: Probe<CommandSearch, Result<Option<String>, String>>,
) -> bool {
    match reply {
        Reply::Ran(Ok(_)) => r matches Probe::Ready(Ok(Some(c))) && c@ == s.candidates@[s.index as int]@,
        Reply::Ran(Err(_)) => if s.index + 1 < 3 {
            r matches Probe::Ask(n, req) && n.wf() && n.distro == s.distro && n.candidates
                == s.candidates && n.index == s.index + 1 && wsl_req(
                req,
                s.distro@,
                test_args("-x"@, s.candidates@[s.index + 1]@),
            )
        } else {
            r matches Probe::Ready(Ok(None))
        },
        _ => r matches Probe::Ready(Err(m)) && m@ == unexpected_reply(),
    }
}

impl CommandSearch {
    /// The first candidate that tests executable is the CLI; none when all fail.
    pub fn resume(self, reply: Reply) -> (r: Probe<CommandSearch, Result<Option<String>, String>>)
        requires
            self.wf(),
        ensures
            search_next(self, reply, r),
    {
        match reply {
            Reply::Ran(Ok(_)) => Probe::Ready(Ok(Some(self.candidates[self.index].clone()))),
            Reply::Ran(Err(_)) => {
                if self.index + 1 < 3 {
                    let req = test_request(
                        self.distro.as_str(),
                        "-x",
                        self.candidates[self.index + 1].as_str(),
                    );
                    Probe::Ask(
                        CommandSearch {
                            distro: self.distro,
                            candidates: self.candidates,
                            index: self.index + 1,
                        },
                        req,
                    )
                } else {
                    Probe::Ready(Ok(None))
                }
            },
            _ => Probe::Ready(Err(unexpected())),
        }
    }
}

// ---------------------------------------------------------------------------
// A profile's runtime
/// Preparing a profile's runtime: first the Linux home, then the CLI.
#[derive(Debug)]
pub enum RuntimeProbe {
    Home { distro: String, profile: String },
    Command { hermes_home: String, path: String, search: CommandSearch },
}

impl RuntimeProbe {
    pub open spec fn wf(self) -> bool {
        match self {
            RuntimeProbe::Command { search, .. } => search.wf(),
            _ => true,
        }
    }
}

/// Starts preparing the runtime of `profile` in `distro`.
pub fn resolve_hermes_runtime(distro: &str, profile: &str) -> (r: (RuntimeProbe, Request))
    ensures
        r.0 matches RuntimeProbe::Home { distro: d, profile: p } && d@ == distro@ && p@
            == profile@,
        wsl_req(r.1, distro@, home_args()),
{
    (RuntimeProbe::Home { distro: distro.to_owned(), profile: profile.to_owned() }, home_request(distro))
}

pub open spec fn runtime_fail_lead() -> Seq<char> {
    "Hermes runtime check failed in "@
}

pub open spec fn runtime_next(
    s: RuntimeProbe,
    reply: Reply,
    r: Probe<RuntimeProbe, Result<HermesRuntime, String>>,
) -> bool {
    match s {
        RuntimeProbe::Home { distro, profile } => match home_reply(reply) {
            None => r matches Probe::Ready(Err(m)) && m@ == unexpected_reply(),
            Some(Err(summary)) => r matches Probe::Ready(Err(m)) && m@ == runtime_fail_lead()
                + distro@ + ". "@ + summary,
            Some(Ok(home)) => r matches Probe::Ask(
                RuntimeProbe::Command { hermes_home: hh, path: p, search },
                req,
            ) && search.wf() && hh@ == hermes_home_spec(home, profile@) && p@ == runtime_path_spec(home)
                && search.distro@ == distro@ && search.candidates.deep_view()
                == command_candidates(home) && search.index == 0 && wsl_req(
                req,
                distro@,
                test_args("-x"@, command_candidates(home)[0]),
            ),
        },
        RuntimeProbe::Command { hermes_home, path, search } => {
            exists|o: Probe<CommandSearch, Result<Option<String>, String>>|
                #[trigger] search_next(search, reply, o) && match o {
                    Probe::Ask(n, req) => r matches Probe::Ask(m, q) && m.wf() && m == RuntimeProbe::Command {
                        hermes_home,
                        path,
                        search: n,
                    } && q == req,
                    Probe::Ready(Err(e)) => r matches Probe::Ready(Err(m)) && m == e,
                    Probe::Ready(Ok(None)) => r matches Probe::Ready(Err(m)) && m@
                        == "Hermes CLI was not found in WSL distro "@ + search.distro@ + "."@,
                    Probe::Ready(Ok(Some(c))) => r matches Probe::Ready(Ok(rt)) && rt.hermes_home
                        == hermes_home && rt.path == path && rt.hermes_command == c,
                }
        },
    }
}

impl RuntimeProbe {
    /// Takes the preparation one reply further.
    pub fn resume(self, reply: Reply) -> (r: Probe<RuntimeProbe, Result<HermesRuntime, String>>)
        requires
            self.wf(),
        ensures
            runtime_next(self, reply, r),
    {
        match self {
            RuntimeProbe::Home { distro, profile } => match home_from_reply(reply) {
                None => Probe::Ready(Err(unexpected())),
                Some(Err(summary)) => {
                    let mut m = "Hermes runtime check failed in ".to_owned();
                    m.append(distro.as_str());
                    m.append(". ");
                    m.append(summary.as_str());
                    Probe::Ready(Err(m))
                },
                Some(Ok(home)) => {
                    let hermes_home = hermes_home_for_profile(home.as_str(), profile.as_str());
                    let path = hermes_runtime_path(home.as_str());
                    let (search, req) = find_hermes_command(distro.as_str(), home.as_str());
                    Probe::Ask(RuntimeProbe::Command { hermes_home, path, search }, req)
                },
            },
            RuntimeProbe::Command { hermes_home, path, search } => {
                let ghost s0 = search;
                let distro = search.distro.clone();
                let o = search.resume(reply);
                let ghost og = o;
                let r = match o {
                    Probe::Ask(n, req) => Probe::Ask(RuntimeProbe::Command { hermes_home, path, search: n }, req),
                    Probe::Ready(Err(e)) => Probe::Ready(Err(e)),
                    Probe::Ready(Ok(None)) => {
                        let mut m = "Hermes CLI was not found in WSL distro ".to_owned();
                        m.append(distro.as_str());
                        m.append(".");
                        Probe::Ready(Err(m))
                    },
                    Probe::Ready(Ok(Some(c))) => Probe::Ready(
                        Ok(HermesRuntime { hermes_home, hermes_command: c, path }),
                    ),
                };
                assert(search_next(s0, reply, og));
                r
            },
        }
    }
}

} // verus!
