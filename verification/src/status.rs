//! What the client reports about Hermes installations: native, local home, WSL
//! distros and a profile's runtime.
use vstd::prelude::*;
use crate::output::{compact_single_line, first_keyed, first_line_spec, parse_keyed_output, text_lines, nonempty_trimmed_lines};
use crate::profile::{eq_ignore_case, lower_str, lower_text};
use crate::text::{
    decimal, format_nat, is_ws, join, join_strings, lemma_lines_split, lemma_single_line,
    lemma_trim_by_unchanged, lines, opt_view, split_at_char, split_char, starts_with, str_eq, trim,
    trim_str, Pat,
};

verus! {

/// A Hermes CLI found on the Windows side.
#[derive(Debug)]
pub struct NativeHermesStatus {
    pub available: bool,
    pub path: Option<String>,
    pub version: Option<String>,
}

/// What a Hermes home folder holds.
#[derive(Debug)]
pub struct HermesHomeStatus {
    pub path: String,
    pub exists: bool,
    pub has_config: bool,
    pub has_auth: bool,
    pub has_env: bool,
    pub has_sessions: bool,
    pub has_skills: bool,
    pub has_cron: bool,
    pub has_kanban: bool,
    pub has_state_database: bool,
    pub profile_count: usize,
}

/// A folder on the Windows side and whether it exists.
#[derive(Debug)]
pub struct LocalHomeStatus {
    pub path: String,
    pub exists: bool,
}

/// What a WSL distro shows of Hermes.
#[derive(Debug)]
pub struct WslDistroStatus {
    pub name: String,
    pub hermes_cli_available: bool,
    pub hermes_home_exists: bool,
    pub linux_home: Option<String>,
    pub hermes_home_path: Option<String>,
}

/// Everything detection found.
#[derive(Debug)]
pub struct HermesStatus {
    pub native_available: bool,
    pub wsl_available: bool,
    pub workspace_ready: bool,
    pub message: String,
    pub native: NativeHermesStatus,
    pub home: HermesHomeStatus,
    pub codex_home: LocalHomeStatus,
    pub wsl_distros: Vec<WslDistroStatus>,
}

/// What was found in a Hermes home folder, entry by entry.
#[derive(Debug)]
pub struct HomeEntries {
    pub is_dir: bool,
    pub config_yaml: bool,
    pub config_yml: bool,
    pub auth_json: bool,
    pub env_file: bool,
    pub sessions_dir: bool,
    pub skills_dir: bool,
    pub cron_jobs: bool,
    pub kanban_db: bool,
    /// Whether each of `state_database_files()` is a file, in that order.
    pub state_files: Vec<bool>,
    pub profile_dirs: usize,
}

/// The file names a Hermes state database may have.
pub fn state_database_files() -> (r: Vec<String>)
    ensures
        r.deep_view() == seq![
            "state.db"@,
            "state.sqlite"@,
            "state.sqlite3"@,
            "store.db"@,
            "store.sqlite"@,
            "store.sqlite3"@,
        ],
{
    let mut r: Vec<String> = Vec::new();
    r.push("state.db".to_owned());
    r.push("state.sqlite".to_owned());
    r.push("state.sqlite3".to_owned());
    r.push("store.db".to_owned());
    r.push("store.sqlite".to_owned());
    r.push("store.sqlite3".to_owned());
    assert(r.deep_view() =~= seq![
        "state.db"@,
        "state.sqlite"@,
        "state.sqlite3"@,
        "store.db"@,
        "store.sqlite"@,
        "store.sqlite3"@,
    ]);
    r
}

/// The status of the Hermes home at `path` from what was found in it: a config is
/// `config.yaml` or `config.yml`, and a state database is any of the candidate files.
pub fn inspect_hermes_home(path: String, found: &HomeEntries) -> (r: HermesHomeStatus)
    ensures
        r.path == path,
        r.exists == found.is_dir,
        r.has_config == (found.config_yaml || found.config_yml),
        r.has_auth == found.auth_json,
        r.has_env == found.env_file,
        r.has_sessions == found.sessions_dir,
        r.has_skills == found.skills_dir,
        r.has_cron == found.cron_jobs,
        r.has_kanban == found.kanban_db,
        r.has_state_database == found.state_files@.contains(true),
        r.profile_count == found.profile_dirs,
{
    let mut any = false;
    let mut i: usize = 0;
    while i < found.state_files.len()
        invariant
            i <= found.state_files.len(),
            any == found.state_files@.take(i as int).contains(true),
        decreases found.state_files.len() - i,
    {
        let b = found.state_files[i];
        proof {
            let t = found.state_files@.take(i as int);
            let t2 = found.state_files@.take(i + 1);
            assert(t2 =~= t.push(b));
            if b {
                assert(t2[i as int] == true);
            }
            if t.contains(true) {
                let k = choose|k: int| 0 <= k < t.len() && t[k] == true;
                assert(t2[k] == true);
            }
            if t2.contains(true) {
                let k = choose|k: int| 0 <= k < t2.len() && t2[k] == true;
                if k < i {
                    assert(t[k] == true);
                }
            }
        }
        any = any || b;
        i = i + 1;
    }
    assert(found.state_files@.take(found.state_files.len() as int) =~= found.state_files@);
    HermesHomeStatus {
        path,
        exists: found.is_dir,
        has_config: found.config_yaml || found.config_yml,
        has_auth: found.auth_json,
        has_env: found.env_file,
        has_sessions: found.sessions_dir,
        has_skills: found.skills_dir,
        has_cron: found.cron_jobs,
        has_kanban: found.kanban_db,
        has_state_database: any,
        profile_count: found.profile_dirs,
    }
}

/// The status of a folder on the Windows side.
pub fn inspect_local_home(path: String, exists: bool) -> (r: LocalHomeStatus)
    ensures
        r.path == path,
        r.exists == exists,
{
    LocalHomeStatus { path, exists }
}

/// Whether a distro shows any sign of Hermes.
pub open spec fn has_signals(d: WslDistroStatus) -> bool {
    d.hermes_cli_available || d.hermes_home_exists
}

/// Index of the first distro from `i` on that shows signs of Hermes.
pub open spec fn first_signal_from(ds: Seq<WslDistroStatus>, i: int) -> Option<int>
    decreases ds.len() - i,
{
    if i < 0 || i >= ds.len() {
        None
    } else if has_signals(ds[i]) {
        Some(i)
    } else {
        first_signal_from(ds, i + 1)
    }
}

/// Index of the first distro that shows signs of Hermes.
pub open spec fn first_signal(ds: Seq<WslDistroStatus>) -> Option<int> {
    first_signal_from(ds, 0)
}

pub proof fn lemma_first_signal(ds: Seq<WslDistroStatus>, i: int)
    requires
        0 <= i <= ds.len(),
        forall|j: int| 0 <= j < i ==> !has_signals(#[trigger] ds[j]),
    ensures
        first_signal(ds) == first_signal_from(ds, i),
    decreases i,
{
    if i > 0 {
        lemma_first_signal(ds, i - 1);
    }
}

pub proof fn lemma_first_signal_found(ds: Seq<WslDistroStatus>, i: int)
    requires
        0 <= i,
    ensures
        first_signal_from(ds, i) matches Some(k) ==> i <= k < ds.len() && has_signals(ds[k]),
        first_signal_from(ds, i) is None ==> forall|k: int| i <= k < ds.len() ==> !has_signals(
            #[trigger] ds[k],
        ),
    decreases ds.len() - i,
{
    if 0 <= i < ds.len() && !has_signals(ds[i]) {
        lemma_first_signal_found(ds, i + 1);
    }
}

/// Index of the first distro that shows signs of Hermes.
pub fn find_signal(ds: &Vec<WslDistroStatus>) -> (r: Option<usize>)
    ensures
        match r {
            Some(i) => i < ds.len() && first_signal(ds@) == Some(i as int),
            None => first_signal(ds@) is None,
        },
{
    let mut i: usize = 0;
    while i < ds.len()
        invariant
            i <= ds.len(),
            forall|j: int| 0 <= j < i ==> !has_signals(#[trigger] ds@[j]),
        decreases ds.len() - i,
    {
        if ds[i].hermes_cli_available || ds[i].hermes_home_exists {
            proof {
                lemma_first_signal(ds@, i as int);
            }
            return Some(i);
        }
        i = i + 1;
    }
    proof {
        lemma_first_signal(ds@, i as int);
    }
    None
}

pub open spec fn detection_message(
    native_available: bool,
    home_exists: bool,
    codex_exists: bool,
    ds: Seq<WslDistroStatus>,
) -> Seq<char> {
    if native_available && home_exists {
        "Native Hermes found; local ~/.hermes ready"@
    } else if native_available {
        "Native Hermes found; no local ~/.hermes yet"@
    } else if home_exists {
        "Local ~/.hermes found; Hermes CLI not on PATH"@
    } else if first_signal(ds) is Some {
        "WSL "@ + ds[first_signal(ds)->Some_0].name@ + " has Hermes signals"@
    } else if ds.len() > 0 {
        "WSL available; no Hermes home found across "@ + decimal(ds.len() as int)
            + " distro(s)"@
    } else if codex_exists {
        "Codex home found; Hermes not detected yet"@
    } else {
        "No local Hermes workspace detected yet"@
    }
}

/// One sentence on what detection found, native Hermes first, then the local home,
/// then WSL, then the Codex home.
pub fn summarize_hermes_detection(
    native: &NativeHermesStatus,
    home: &HermesHomeStatus,
    codex_home: &LocalHomeStatus,
    wsl_distros: &Vec<WslDistroStatus>,
) -> (r: String)
    ensures
        r@ == detection_message(native.available, home.exists, codex_home.exists, wsl_distros@),
{
    let ready = find_signal(wsl_distros);
    if native.available && home.exists {
        return "Native Hermes found; local ~/.hermes ready".to_owned();
    }
    if native.available {
        return "Native Hermes found; no local ~/.hermes yet".to_owned();
    }
    if home.exists {
        return "Local ~/.hermes found; Hermes CLI not on PATH".to_owned();
    }
    if let Some(i) = ready {
        let mut r = "WSL ".to_owned();
        r.append(wsl_distros[i].name.as_str());
        r.append(" has Hermes signals");
        return r;
    }
    if wsl_distros.len() > 0 {
        let mut r = "WSL available; no Hermes home found across ".to_owned();
        let n = format_nat(wsl_distros.len() as u64);
        r.append(n.as_str());
        r.append(" distro(s)");
        return r;
    }
    if codex_home.exists {
        return "Codex home found; Hermes not detected yet".to_owned();
    }
    "No local Hermes workspace detected yet".to_owned()
}

/// Puts together what detection found: WSL is available when a distro was listed,
/// and the workspace is ready when any Hermes sign or a Codex home was found.
pub fn detect_hermes_blocking(
    native: NativeHermesStatus,
    home: HermesHomeStatus,
    codex_home: LocalHomeStatus,
    wsl_distros: Vec<WslDistroStatus>,
) -> (r: HermesStatus)
    ensures
        r.native_available == native.available,
        r.wsl_available == (wsl_distros.len() > 0),
        r.workspace_ready == (native.available || home.exists || first_signal(wsl_distros@) is Some
            || codex_home.exists),
        r.message@ == detection_message(
            native.available,
            home.exists,
            codex_home.exists,
            wsl_distros@,
        ),
        r.native == native,
        r.home == home,
        r.codex_home == codex_home,
        r.wsl_distros@ == wsl_distros@,
{
    let wsl_available = wsl_distros.len() > 0;
    let wsl_hermes_ready = find_signal(&wsl_distros).is_some();
    let workspace_ready = native.available || home.exists || wsl_hermes_ready || codex_home.exists;
    let message = summarize_hermes_detection(&native, &home, &codex_home, &wsl_distros);
    HermesStatus {
        native_available: native.available,
        wsl_available,
        workspace_ready,
        message,
        native,
        home,
        codex_home,
        wsl_distros,
    }
}

/// The native CLI found at `path` (if any), with the first line of what its version
/// command printed.
pub fn detect_native_hermes(path: Option<String>, version_output: Option<String>) -> (r:
    NativeHermesStatus)
    ensures
        r.available == path is Some,
        opt_view(r.path) == opt_view(path),
        opt_view(r.version) == (match (path, version_output) {
            (Some(_), Some(out)) => Some(first_line_spec(out@)),
            _ => None,
        }),
{
    let version = match (&path, &version_output) {
        (Some(_), Some(out)) => Some(compact_single_line(out.as_str())),
        _ => None,
    };
    NativeHermesStatus { available: path.is_some(), path, version }
}

// ---------------------------------------------------------------------------
// WSL distros
/// Whether a distro name is one of Docker Desktop's own distros.
pub open spec fn is_docker_distro(name: Seq<char>) -> bool {
    eq_ignore_case(name, "docker-desktop"@) || eq_ignore_case(name, "docker-desktop-data"@)
}

/// The names among `ls` that are not Docker Desktop's.
pub open spec fn distro_names(ls: Seq<Seq<char>>) -> Seq<Seq<char>>
    decreases ls.len(),
{
    if ls.len() == 0 {
        seq![]
    } else if is_docker_distro(ls.last()) {
        distro_names(ls.drop_last())
    } else {
        distro_names(ls.drop_last()).push(ls.last())
    }
}

/// The distros that `wsl --list --quiet` names, Docker's left out, at most eight.
pub open spec fn listed_distros(output: Seq<char>) -> Seq<Seq<char>> {
    let names = distro_names(text_lines(output));
    if names.len() > 8 {
        names.take(8)
    } else {
        names
    }
}

/// The distros to inspect, from what `wsl.exe --list --quiet` printed (none when it
/// could not run): non-blank trimmed lines, without Docker Desktop's, at most eight.
pub fn detect_wsl_distros(list_output: Option<String>) -> (r: Vec<String>)
    ensures
        r.deep_view() == (match list_output {
            Some(out) => listed_distros(out@),
            None => Seq::<Seq<char>>::empty(),
        }),
{
    let output = match list_output {
        Some(o) => o,
        None => {
            let r: Vec<String> = Vec::new();
            assert(r.deep_view() =~= Seq::<Seq<char>>::empty());
            return r;
        },
    };
    let ls = nonempty_trimmed_lines(output.as_str());
    let ghost d = ls.deep_view();
    let mut names: Vec<String> = Vec::new();
    let mut i: usize = 0;
    while i < ls.len()
        invariant
            i <= ls.len(),
            d == ls.deep_view(),
            names.deep_view() == distro_names(d.take(i as int)),
        decreases ls.len() - i,
    {
        let lower = lower_str(ls[i].as_str());
        let a = lower_str("docker-desktop");
        let b = lower_str("docker-desktop-data");
        assert(d.take(i + 1).drop_last() =~= d.take(i as int));
        assert(d.take(i + 1).last() == ls@[i as int]@);
        if !(lower == a) && !(lower == b) {
            let ghost before = names.deep_view();
            names.push(ls[i].clone());
            assert(names.deep_view() =~= before.push(ls@[i as int]@));
        }
        i = i + 1;
    }
    assert(d.take(ls.len() as int) =~= d);
    if names.len() > 8 {
        let ghost full = names.deep_view();
        names.truncate(8);
        assert(names.deep_view() =~= full.take(8));
    }
    names
}

/// The script run in a distro to learn its home and whether Hermes is there.
pub open spec fn inspect_script() -> Seq<char> {
    "printf 'home='; printf '%s' \"$HOME\"; printf '\\ncli='; if command -v hermes >/dev/null 2>&1 || test -x \"$HOME/.local/bin/hermes\" || test -x \"$HOME/.hermes/hermes-agent/venv/bin/hermes\" || test -x \"$HOME/.hermes/hermes-agent/hermes\"; then printf yes; else printf no; fi; printf '\\nhermes_home='; if test -d \"$HOME/.hermes\"; then printf yes; else printf no; fi"@
}

/// The `wsl.exe` arguments that inspect a distro.
pub fn inspect_wsl_distro_args(name: &str) -> (r: Vec<String>)
    ensures
        r.deep_view() == seq!["-d"@, name@, "--"@, "sh"@, "-lc"@, inspect_script()],
{
    let mut r: Vec<String> = Vec::new();
    r.push("-d".to_owned());
    r.push(name.to_owned());
    r.push("--".to_owned());
    r.push("sh".to_owned());
    r.push("-lc".to_owned());
    r.push(
        "printf 'home='; printf '%s' \"$HOME\"; printf '\\ncli='; if command -v hermes >/dev/null 2>&1 || test -x \"$HOME/.local/bin/hermes\" || test -x \"$HOME/.hermes/hermes-agent/venv/bin/hermes\" || test -x \"$HOME/.hermes/hermes-agent/hermes\"; then printf yes; else printf no; fi; printf '\\nhermes_home='; if test -d \"$HOME/.hermes\"; then printf yes; else printf no; fi".to_owned(),
    );
    assert(r.deep_view() =~= seq!["-d"@, name@, "--"@, "sh"@, "-lc"@, inspect_script()]);
    r
}

pub open spec fn keyed(out: Seq<char>, key: Seq<char>) -> Option<Seq<char>> {
    first_keyed(lines(out), key + "="@)
}

pub open spec fn yes_no(b: bool) -> Seq<char> {
    if b {
        "yes"@
    } else {
        "no"@
    }
}

/// What the inspection script prints for a distro whose home is `home`.
pub open spec fn inspect_report(home: Seq<char>, cli: bool, hermes_home: bool) -> Seq<char> {
    "home="@ + home + "\ncli="@ + yes_no(cli) + "\nhermes_home="@ + yes_no(hermes_home)
}

proof fn lemma_no_breaks(a: Seq<char>, b: Seq<char>)
    requires
        forall|i: int| 0 <= i < a.len() ==> #[trigger] a[i] != '\n' && a[i] != '\r',
        forall|i: int| 0 <= i < b.len() ==> #[trigger] b[i] != '\n' && b[i] != '\r',
    ensures
        forall|i: int| 0 <= i < (a + b).len() ==> #[trigger] (a + b)[i] != '\n' && (a + b)[i] != '\r',
{
    assert forall|i: int| 0 <= i < (a + b).len() implies #[trigger] (a + b)[i] != '\n' && (a + b)[i]
        != '\r' by {
        if i >= a.len() {
            assert((a + b)[i] == b[i - a.len()]);
        }
    }
}

/// The inspection of a distro reads back what its script printed: the Linux home,
/// and whether the CLI and the Hermes home were found (for a home without line breaks
/// and without white space at its ends, as `$HOME` is).
pub proof fn law_inspect_round_trip(home: Seq<char>, cli: bool, hermes_home: bool)
    requires
        forall|i: int| 0 <= i < home.len() ==> #[trigger] home[i] != '\n' && home[i] != '\r',
        home.len() > 0 ==> !is_ws(home[0]) && !is_ws(home.last()),
    ensures
        keyed(inspect_report(home, cli, hermes_home), "home"@) == Some(home),
        keyed(inspect_report(home, cli, hermes_home), "cli"@) == Some(yes_no(cli)),
        keyed(inspect_report(home, cli, hermes_home), "hermes_home"@) == Some(yes_no(hermes_home)),
{
    reveal_strlit("home=");
    reveal_strlit("home");
    reveal_strlit("cli=");
    reveal_strlit("cli");
    reveal_strlit("hermes_home=");
    reveal_strlit("hermes_home");
    reveal_strlit("\ncli=");
    reveal_strlit("\nhermes_home=");
    reveal_strlit("\n");
    reveal_strlit("=");
    reveal_strlit("yes");
    reveal_strlit("no");
    let c = yes_no(cli);
    let d = yes_no(hermes_home);
    let l1 = "home="@ + home;
    let l2 = "cli="@ + c;
    let l3 = "hermes_home="@ + d;
    let out = inspect_report(home, cli, hermes_home);
    assert(out =~= l1 + "\n"@ + (l2 + "\n"@ + l3));
    lemma_no_breaks("home="@, home);
    lemma_no_breaks("cli="@, c);
    lemma_no_breaks("hermes_home="@, d);
    lemma_lines_split(l1, l2 + "\n"@ + l3);
    lemma_lines_split(l2, l3);
    lemma_single_line(l1);
    lemma_single_line(l2);
    lemma_single_line(l3);
    let ls = lines(out);
    assert(ls =~= seq![l1, l2, l3]);
    // Each line is its own trim.
    if home.len() > 0 {
        assert(l1.last() == home.last());
    }
    lemma_trim_by_unchanged(l1, Pat::Space);
    lemma_trim_by_unchanged(l2, Pat::Space);
    lemma_trim_by_unchanged(l3, Pat::Space);
    lemma_trim_by_unchanged(c, Pat::Space);
    lemma_trim_by_unchanged(d, Pat::Space);
    // The home.
    assert("home"@ + "="@ =~= "home="@);
    assert(l1.take(5) =~= "home="@);
    assert(l1.skip(5) =~= home);
    if home.len() > 0 {
        lemma_trim_by_unchanged(home, Pat::Space);
    } else {
        assert(trim(home) =~= home);
    }
    // The CLI.
    assert("cli"@ + "="@ =~= "cli="@);
    assert(l1.take(4)[0] != "cli="@[0]);
    assert(!starts_with(l1, "cli="@));
    assert(ls.drop_first() =~= seq![l2, l3]);
    assert(l2.take(4) =~= "cli="@);
    assert(l2.skip(4) =~= c);
    assert(first_keyed(seq![l2, l3], "cli="@) == Some(c));
    assert(first_keyed(ls, "cli="@) == first_keyed(ls.drop_first(), "cli="@));
    // The Hermes home.
    assert("hermes_home"@ + "="@ =~= "hermes_home="@);
    if l1.len() >= 12 {
        assert(l1.take(12)[1] != "hermes_home="@[1]);
    }
    assert(!starts_with(l1, "hermes_home="@));
    if l2.len() >= 12 {
        assert(l2.take(12)[0] != "hermes_home="@[0]);
    }
    assert(!starts_with(l2, "hermes_home="@));
    assert(ls.drop_first().drop_first() =~= seq![l3]);
    assert(l3.take(12) =~= "hermes_home="@);
    assert(l3.skip(12) =~= d);
    assert(first_keyed(seq![l3], "hermes_home="@) == Some(d));
    assert(seq![l2, l3].drop_first() =~= seq![l3]);
    assert(first_keyed(seq![l2, l3], "hermes_home="@) == first_keyed(seq![l3], "hermes_home="@));
    assert(first_keyed(ls, "hermes_home="@) == first_keyed(ls.drop_first(), "hermes_home="@));
}

/// What a distro reported of itself: its home (when not empty), whether the CLI and
/// the `.hermes` folder exist (`yes`), and the Hermes home under the Linux home.
pub fn inspect_wsl_distro(name: &str, output: Option<String>) -> (r: WslDistroStatus)
    ensures
        ({
            let out = match output {
                Some(o) => o@,
                None => Seq::<char>::empty(),
            };
            let home = match keyed(out, "home"@) {
                Some(h) => if h.len() > 0 {
                    Some(h)
                } else {
                    None
                },
                None => None,
            };
            &&& r.name@ == name@
            &&& opt_view(r.linux_home) == home
            &&& r.hermes_cli_available == (keyed(out, "cli"@) == Some("yes"@))
            &&& r.hermes_home_exists == (keyed(out, "hermes_home"@) == Some("yes"@))
            &&& opt_view(r.hermes_home_path) == match home {
                Some(h) => Some(h + "/.hermes"@),
                None => None,
            }
        }),
{
    let out = match output {
        Some(o) => o,
        None => String::new(),
    };
    let linux_home = match parse_keyed_output(out.as_str(), "home") {
        Some(h) => if h.unicode_len() > 0 {
            Some(h)
        } else {
            None
        },
        None => None,
    };
    let hermes_cli_available = match parse_keyed_output(out.as_str(), "cli") {
        Some(v) => str_eq(v.as_str(), "yes"),
        None => false,
    };
    let hermes_home_exists = match parse_keyed_output(out.as_str(), "hermes_home") {
        Some(v) => str_eq(v.as_str(), "yes"),
        None => false,
    };
    let hermes_home_path = match &linux_home {
        Some(h) => {
            let mut p = h.clone();
            p.append("/.hermes");
            Some(p)
        },
        None => None,
    };
    WslDistroStatus {
        name: name.to_owned(),
        hermes_cli_available,
        hermes_home_exists,
        linux_home,
        hermes_home_path,
    }
}

// ---------------------------------------------------------------------------
// Executable extensions
/// Adds each trimmed, lower-cased, non-empty extension not yet listed.
pub open spec fn add_extensions(acc: Seq<Seq<char>>, pieces: Seq<Seq<char>>) -> Seq<Seq<char>>
    decreases pieces.len(),
{
    if pieces.len() == 0 {
        acc
    } else {
        let n = lower_text(trim(pieces[0]));
        let next = if n.len() > 0 && !acc.contains(n) {
            acc.push(n)
        } else {
            acc
        };
        add_extensions(next, pieces.drop_first())
    }
}

pub open spec fn base_extensions() -> Seq<Seq<char>> {
    seq![""@, ".exe"@, ".cmd"@, ".bat"@]
}

pub open spec fn extensions_spec(pathext: Option<Seq<char>>) -> Seq<Seq<char>> {
    match pathext {
        Some(p) => add_extensions(base_extensions(), split_at_char(p, ';')),
        None => base_extensions(),
    }
}

fn contains_text(v: &Vec<String>, s: &String) -> (b: bool)
    ensures
        b == v.deep_view().contains(s@),
{
    let mut i: usize = 0;
    while i < v.len()
        invariant
            i <= v.len(),
            forall|j: int| 0 <= j < i ==> v@[j]@ != s@,
        decreases v.len() - i,
    {
        if v[i] == *s {
            assert(v.deep_view()[i as int] == s@);
            return true;
        }
        i = i + 1;
    }
    assert forall|j: int| 0 <= j < v.deep_view().len() implies v.deep_view()[j] != s@ by {
        assert(v.deep_view()[j] == v@[j]@);
    }
    false
}

/// The extensions tried when looking for an executable: none, `.exe`, `.cmd`,
/// `.bat`, then each further one that `PATHEXT` lists, lower-cased, once each.
pub fn executable_extensions(pathext: Option<String>) -> (r: Vec<String>)
    ensures
        r.deep_view() == extensions_spec(opt_view(pathext)),
{
    let mut exts: Vec<String> = Vec::new();
    exts.push("".to_owned());
    exts.push(".exe".to_owned());
    exts.push(".cmd".to_owned());
    exts.push(".bat".to_owned());
    assert(exts.deep_view() =~= base_extensions());
    let p = match pathext {
        Some(p) => p,
        None => return exts,
    };
    let pieces = split_char(p.as_str(), ';');
    let ghost ps = pieces.deep_view();
    let mut i: usize = 0;
    assert(ps.skip(0) =~= ps);
    while i < pieces.len()
        invariant
            i <= pieces.len(),
            ps == pieces.deep_view(),
            add_extensions(base_extensions(), ps) == add_extensions(
                exts.deep_view(),
                ps.skip(i as int),
            ),
        decreases pieces.len() - i,
    {
        let t = trim_str(pieces[i].as_str());
        let n = lower_str(t.as_str());
        assert(ps.skip(i as int)[0] == pieces@[i as int]@);
        assert(ps.skip(i as int).drop_first() =~= ps.skip(i + 1));
        if n.unicode_len() > 0 && !contains_text(&exts, &n) {
            let ghost before = exts.deep_view();
            exts.push(n);
            assert(exts.deep_view() =~= before.push(n@));
        }
        i = i + 1;
    }
    assert(ps.skip(pieces.len() as int) =~= Seq::<Seq<char>>::empty());
    exts
}

proof fn lemma_add_extensions_distinct(acc: Seq<Seq<char>>, pieces: Seq<Seq<char>>)
    requires
        acc.no_duplicates(),
    ensures
        add_extensions(acc, pieces).no_duplicates(),
    decreases pieces.len(),
{
    if pieces.len() > 0 {
        let n = lower_text(trim(pieces[0]));
        if n.len() > 0 && !acc.contains(n) {
            assert forall|i: int, j: int|
                0 <= i < acc.push(n).len() && 0 <= j < acc.push(n).len() && i != j implies acc.push(
                n,
            )[i] != acc.push(n)[j] by {
                if i == acc.len() {
                    assert(acc.push(n)[j] == acc[j]);
                } else if j == acc.len() {
                    assert(acc.push(n)[i] == acc[i]);
                }
            }
            lemma_add_extensions_distinct(acc.push(n), pieces.drop_first());
        } else {
            lemma_add_extensions_distinct(acc, pieces.drop_first());
        }
    }
}

/// No extension is listed twice.
pub proof fn law_extensions_distinct(pathext: Option<Seq<char>>)
    ensures
        extensions_spec(pathext).no_duplicates(),
{
    reveal_strlit("");
    reveal_strlit(".exe");
    reveal_strlit(".cmd");
    reveal_strlit(".bat");
    let b = base_extensions();
    assert(b.no_duplicates()) by {
        assert forall|i: int, j: int| 0 <= i < b.len() && 0 <= j < b.len() && i != j implies b[i]
            != b[j] by {
            assert(b[i].len() != b[j].len() || b[i][1] != b[j][1]);
        }
    }
    if let Some(p) = pathext {
        lemma_add_extensions_distinct(b, split_at_char(p, ';'));
    }
}

// ---------------------------------------------------------------------------
// A profile's runtime
/// What a profile needs before Hermes can run in it.
#[derive(Debug)]
pub struct HermesRuntimeStatus {
    pub distro: String,
    pub profile: String,
    pub hermes_home: String,
    pub hermes_command: Option<String>,
    pub version: Option<String>,
    pub profile_exists: bool,
    pub has_env: bool,
    pub has_config: bool,
    pub has_sessions: bool,
    pub has_skills: bool,
    pub has_cron: bool,
    pub model_provider: Option<String>,
    pub model_default: Option<String>,
    pub ready: bool,
    pub missing: Vec<String>,
    pub message: String,
}

pub open spec fn item_if(b: bool, s: Seq<char>) -> Seq<Seq<char>> {
    if b {
        seq![s]
    } else {
        seq![]
    }
}

/// The parts of a profile that were not found, in a fixed order.
pub open spec fn missing_spec(
    has_command: bool,
    profile_exists: bool,
    has_env: bool,
    has_config: bool,
    has_sessions: bool,
    has_skills: bool,
    has_cron: bool,
) -> Seq<Seq<char>> {
    item_if(!has_command, "Hermes CLI"@) + item_if(!profile_exists, "profile home"@) + item_if(
        !has_env,
        ".env"@,
    ) + item_if(!has_config, "config.yaml"@) + item_if(!has_sessions, "sessions folder"@)
        + item_if(!has_skills, "skills folder"@) + item_if(!has_cron, "cron folder"@)
}

/// A profile is ready when the CLI, its home, and its sessions, skills and cron
/// folders exist; `.env` and `config.yaml` are reported but not required.
pub open spec fn ready_spec(
    has_command: bool,
    profile_exists: bool,
    has_sessions: bool,
    has_skills: bool,
    has_cron: bool,
) -> bool {
    has_command && profile_exists && has_sessions && has_skills && has_cron
}

pub open spec fn runtime_message(
    distro: Seq<char>,
    profile: Seq<char>,
    ready: bool,
    missing: Seq<Seq<char>>,
) -> Seq<char> {
    if ready {
        profile + " is ready in "@ + distro
    } else if missing.len() == 0 {
        profile + " needs attention in "@ + distro
    } else {
        profile + " needs "@ + join(missing, ", "@)
    }
}

/// `st` is the runtime status of what was found: the facts as given, the missing
/// parts, whether the profile is ready, and the message.
pub open spec fn runtime_status_is(
    st: HermesRuntimeStatus,
    distro: Seq<char>,
    profile: Seq<char>,
    hermes_home: String,
    hermes_command: Option<String>,
    version: Option<String>,
    profile_exists: bool,
    has_env: bool,
    has_config: bool,
    has_sessions: bool,
    has_skills: bool,
    has_cron: bool,
    model_provider: Option<String>,
    model_default: Option<String>,
) -> bool {
    let missing = missing_spec(
        hermes_command is Some,
        profile_exists,
        has_env,
        has_config,
        has_sessions,
        has_skills,
        has_cron,
    );
    let ready = ready_spec(hermes_command is Some, profile_exists, has_sessions, has_skills, has_cron);
    &&& st.distro@ == distro
    &&& st.profile@ == profile
    &&& st.hermes_home == hermes_home
    &&& st.hermes_command == hermes_command
    &&& st.version == version
    &&& st.profile_exists == profile_exists
    &&& st.has_env == has_env
    &&& st.has_config == has_config
    &&& st.has_sessions == has_sessions
    &&& st.has_skills == has_skills
    &&& st.has_cron == has_cron
    &&& st.model_provider == model_provider
    &&& st.model_default == model_default
    &&& st.missing.deep_view() == missing
    &&& st.ready == ready
    &&& st.message@ == runtime_message(distro, profile, ready, missing)
}

fn push_if(v: &mut Vec<String>, b: bool, s: &str)
    ensures
        final(v).deep_view() == old(v).deep_view() + item_if(b, s@),
{
    let ghost before = v.deep_view();
    if b {
        v.push(s.to_owned());
    }
    assert(v.deep_view() =~= before + item_if(b, s@));
}

/// The runtime status of a profile from what was found: the missing parts, whether
/// it is ready, and a message saying so.
pub fn build_hermes_runtime_status(
    distro: &str,
    profile: &str,
    hermes_home: String,
    hermes_command: Option<String>,
    version: Option<String>,
    profile_exists: bool,
    has_env: bool,
    has_config: bool,
    has_sessions: bool,
    has_skills: bool,
    has_cron: bool,
    model_provider: Option<String>,
    model_default: Option<String>,
) -> (r: Result<HermesRuntimeStatus, String>)
    ensures
        r matches Ok(st) && runtime_status_is(
            st,
            distro@,
            profile@,
            hermes_home,
            hermes_command,
            version,
            profile_exists,
            has_env,
            has_config,
            has_sessions,
            has_skills,
            has_cron,
            model_provider,
            model_default,
        ),
{
    let mut missing: Vec<String> = Vec::new();
    assert(missing.deep_view() =~= Seq::<Seq<char>>::empty());
    push_if(&mut missing, hermes_command.is_none(), "Hermes CLI");
    push_if(&mut missing, !profile_exists, "profile home");
    push_if(&mut missing, !has_env, ".env");
    push_if(&mut missing, !has_config, "config.yaml");
    push_if(&mut missing, !has_sessions, "sessions folder");
    push_if(&mut missing, !has_skills, "skills folder");
    push_if(&mut missing, !has_cron, "cron folder");
    assert(missing.deep_view() =~= missing_spec(
        hermes_command is Some,
        profile_exists,
        has_env,
        has_config,
        has_sessions,
        has_skills,
        has_cron,
    ));
    let ready = hermes_command.is_some() && profile_exists && has_sessions && has_skills
        && has_cron;
    let message = if ready {
        let mut m = profile.to_owned();
        m.append(" is ready in ");
        m.append(distro);
        m
    } else if missing.len() == 0 {
        let mut m = profile.to_owned();
        m.append(" needs attention in ");
        m.append(distro);
        m
    } else {
        let mut m = profile.to_owned();
        m.append(" needs ");
        let j = join_strings(&missing, ", ");
        m.append(j.as_str());
        m
    };
    Ok(
        HermesRuntimeStatus {
            distro: distro.to_owned(),
            profile: profile.to_owned(),
            hermes_home,
            hermes_command,
            version,
            profile_exists,
            has_env,
            has_config,
            has_sessions,
            has_skills,
            has_cron,
            model_provider,
            model_default,
            ready,
            missing,
            message,
        },
    )
}

/// A profile that is not ready always has something listed as missing, so the
/// status never falls back to "needs attention"; and a ready one can only lack
/// `.env` or `config.yaml`.
pub proof fn law_not_ready_names_a_gap(
    has_command: bool,
    profile_exists: bool,
    has_env: bool,
    has_config: bool,
    has_sessions: bool,
    has_skills: bool,
    has_cron: bool,
)
    ensures
        !ready_spec(has_command, profile_exists, has_sessions, has_skills, has_cron) ==> missing_spec(
            has_command,
            profile_exists,
            has_env,
            has_config,
            has_sessions,
            has_skills,
            has_cron,
        ).len() > 0,
        ready_spec(has_command, profile_exists, has_sessions, has_skills, has_cron) ==> missing_spec(
            has_command,
            profile_exists,
            has_env,
            has_config,
            has_sessions,
            has_skills,
            has_cron,
        ) == item_if(!has_env, ".env"@) + item_if(!has_config, "config.yaml"@),
{
    let m = missing_spec(
        has_command,
        profile_exists,
        has_env,
        has_config,
        has_sessions,
        has_skills,
        has_cron,
    );
    if ready_spec(has_command, profile_exists, has_sessions, has_skills, has_cron) {
        assert(m =~= item_if(!has_env, ".env"@) + item_if(!has_config, "config.yaml"@));
    }
}

} // verus!
