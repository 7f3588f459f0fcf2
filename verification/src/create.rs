//! Creating a Hermes profile: blank, with the base files of another profile, or as a
//! full copy of it; then the folders and files every profile has.
use vstd::prelude::*;
use crate::bridge::{
    cat, distro_from_reply, distro_reply, fail_msg, failure, home_args, home_of, home_request,
    provided_distro, provided_spec, test_args, test_request, unexpected, unexpected_reply, run_wsl_capture_result_owned,
    wsl_req, Reply, Request, Step,
};
use crate::catalog::{
    copy_profile, find_args, list_after_distro, list_hermes_profiles_blocking, list_next, list_start,
    HermesProfile, HermesProfileCatalog, ListProfiles,
};
use crate::output::CommandCapture;
use crate::profile::{
    validate_existing_profile_name, validate_existing_spec, validate_new_profile_name,
    validate_new_spec,
};
use crate::text::{opt_view, str_eq, trim_end_str, trim_str, Pat};

verus! {

/// How a new profile starts.
#[derive(Debug)]
pub enum CreateMode {
    Blank,
    Clone,
    CloneAll,
}

/// The mode a caller names.
pub open spec fn mode_of(mode: Seq<char>) -> Option<CreateMode> {
    if mode == "blank"@ {
        Some(CreateMode::Blank)
    } else if mode == "clone"@ {
        Some(CreateMode::Clone)
    } else if mode == "cloneAll"@ {
        Some(CreateMode::CloneAll)
    } else {
        None
    }
}

/// The new profile, where it goes, and where it is copied from.
#[derive(Debug)]
pub struct CreateJob {
    pub distro: String,
    pub name: String,
    pub mode: CreateMode,
    pub base: String,
    pub target: String,
    pub source_home: String,
}

/// One part of building the profile's folder.
#[derive(Debug)]
pub enum Action {
    /// Run a command; its failure ends the creation.
    Run(Vec<String>),
    /// Copy a file (`cp -p source target`) when the source exists.
    CopyIf(String, String),
    /// Make sure a file exists: copy it from a template when there is one, else
    /// create it empty.
    Ensure(String, Option<String>),
}

/// What an action is, as plain values.
pub enum ActionSpec {
    Run(Seq<Seq<char>>),
    CopyIf(Seq<char>, Seq<char>),
    Ensure(Seq<char>, Option<Seq<char>>),
}

impl Action {
    pub open spec fn view(self) -> ActionSpec {
        match self {
            Action::Run(args) => ActionSpec::Run(args.deep_view()),
            Action::CopyIf(s, t) => ActionSpec::CopyIf(s@, t@),
            Action::Ensure(t, s) => ActionSpec::Ensure(t@, opt_view(s)),
        }
    }
}

pub open spec fn actions_view(a: Seq<Action>) -> Seq<ActionSpec> {
    a.map_values(|x: Action| x.view())
}

/// The request an action is waiting on.
#[derive(Debug)]
pub enum Pending {
    /// A command whose failure ends the creation.
    Step,
    /// `test -f` of the source of an optional copy.
    CopySource { source: String, target: String },
    /// `test -f` of a file that must exist.
    Target { target: String, template: Option<String> },
    /// `test -f` of the template of a missing file.
    Template { source: String, target: String },
}

/// What a profile creation did.
#[derive(Debug)]
pub struct CreateHermesProfileResult {
    pub created: HermesProfile,
    pub catalog: HermesProfileCatalog,
    pub message: String,
}

/// Creating a profile.
#[derive(Debug)]
pub enum CreateProfile {
    Distro { name: String, requested: String, clone_from: Option<String> },
    Home { distro: String, name: String, mode: CreateMode, source: String },
    Exists { job: CreateJob },
    IsDir { job: CreateJob },
    Source { job: CreateJob },
    Build { job: CreateJob, actions: Vec<Action>, next: usize, pending: Pending },
    Listing { job: CreateJob, list: ListProfiles, existing: bool },
}

impl CreateProfile {
    pub open spec fn wf(self) -> bool {
        match self {
            CreateProfile::Build { actions, next, .. } => next <= actions.len(),
            _ => true,
        }
    }
}

/// The folder of a profile under `base` (`~/.hermes`).
pub open spec fn profile_dir(base: Seq<char>, name: Seq<char>) -> Seq<char> {
    base + "/profiles"@ + "/"@ + name
}

/// The job for a new profile `name` copied from `source`, with Linux home `home`.
pub open spec fn job_is(j: CreateJob, distro: Seq<char>, name: Seq<char>, mode: CreateMode, source: Seq<char>, home: Seq<char>) -> bool {
    let base = home + "/.hermes"@;
    &&& j.distro@ == distro
    &&& j.name@ == name
    &&& j.mode == mode
    &&& j.base@ == base
    &&& j.target@ == profile_dir(base, name)
    &&& j.source_home@ == (if source == "default"@ {
        base
    } else {
        profile_dir(base, source)
    })
}

/// What building the profile's folder does, in order.
pub open spec fn plan_spec(mode: CreateMode, base: Seq<char>, target: Seq<char>, source_home: Seq<char>) -> Seq<ActionSpec> {
    let copies = match mode {
        CreateMode::CloneAll => seq![ActionSpec::Run(seq!["cp"@, "-a"@, source_home + "/."@, target + "/"@])],
        CreateMode::Clone => seq![
            ActionSpec::CopyIf(source_home + "/config.yaml"@, target + "/config.yaml"@),
            ActionSpec::CopyIf(source_home + "/.env"@, target + "/.env"@),
            ActionSpec::CopyIf(source_home + "/SOUL.md"@, target + "/SOUL.md"@),
        ],
        CreateMode::Blank => seq![],
    };
    seq![ActionSpec::Run(seq!["mkdir"@, "-p"@, target])] + copies + seq![
        ActionSpec::Run(
            seq![
                "mkdir"@,
                "-p"@,
                target + "/cron"@,
                target + "/sessions"@,
                target + "/logs"@,
                target + "/memories"@,
                target + "/skills"@,
            ],
        ),
        ActionSpec::Ensure(target + "/.env"@, Some(base + "/hermes-agent/.env.example"@)),
        ActionSpec::Ensure(target + "/config.yaml"@, Some(base + "/hermes-agent/cli-config.yaml.example"@)),
        ActionSpec::Ensure(target + "/SOUL.md"@, None),
    ]
}

/// The paths an action writes: the folders `mkdir` makes, else the last argument of
/// a command (where `cp` copies to), or the file it copies or creates.
pub open spec fn written(a: ActionSpec) -> Seq<Seq<char>> {
    match a {
        ActionSpec::Run(args) => if args.len() > 0 && args[0] == "mkdir"@ {
            args.skip(2)
        } else if args.len() > 0 {
            seq![args.last()]
        } else {
            seq![]
        },
        ActionSpec::CopyIf(_, t) => seq![t],
        ActionSpec::Ensure(t, _) => seq![t],
    }
}

/// Building a profile writes only inside its own folder: every path an action of the
/// plan writes starts with the profile's folder.
pub proof fn law_plan_stays_in_profile(mode: CreateMode, base: Seq<char>, target: Seq<char>, source_home: Seq<char>)
    ensures
        forall|i: int, k: int|
            0 <= i < plan_spec(mode, base, target, source_home).len() && 0 <= k < written(
                #[trigger] plan_spec(mode, base, target, source_home)[i],
            ).len() ==> crate::text::starts_with(
                #[trigger] written(plan_spec(mode, base, target, source_home)[i])[k],
                target,
            ),
{
    reveal_strlit("mkdir");
    reveal_strlit("cp");
    let p = plan_spec(mode, base, target, source_home);
    let n = p.len() - 4;
    assert forall|i: int, k: int|
        0 <= i < p.len() && 0 <= k < written(#[trigger] p[i]).len() implies crate::text::starts_with(
        #[trigger] written(p[i])[k],
        target,
    ) by {
        let w = written(p[i])[k];
        if i == 0 {
            assert(w == target);
        } else if i < n {
            match mode {
                CreateMode::CloneAll => {
                    let args = seq!["cp"@, "-a"@, source_home + "/."@, target + "/"@];
                    assert(p[1] == ActionSpec::Run(args));
                    assert("cp"@.len() != "mkdir"@.len());
                    assert(args[0] != "mkdir"@);
                    assert(w == target + "/"@);
                },
                CreateMode::Clone => {
                    assert(w == target + "/config.yaml"@ || w == target + "/.env"@ || w == target
                        + "/SOUL.md"@);
                },
                CreateMode::Blank => {},
            }
        } else if i == n {
            assert(w == target + "/cron"@ || w == target + "/sessions"@ || w == target + "/logs"@
                || w == target + "/memories"@ || w == target + "/skills"@);
        } else {
            assert(w == target + "/.env"@ || w == target + "/config.yaml"@ || w == target + "/SOUL.md"@);
        }
        lemma_prefix_of_concat(target, w.skip(target.len() as int));
        assert(w =~= target + w.skip(target.len() as int));
    }
}

/// The copy of one file of a clone source: `source_home/f` to `target/f`.
pub open spec fn same_name_copy(a: ActionSpec, source_home: Seq<char>, target: Seq<char>, f: Seq<char>) -> bool {
    a == ActionSpec::CopyIf(source_home + f, target + f)
}

/// A clone copies each of the source profile's `config.yaml`, `.env` and `SOUL.md`,
/// when it is there, to the file of the same name in the new profile: every optional
/// copy of a plan goes from `source_home/f` to `target/f` for one of those names, and
/// a clone's plan holds such a copy for each of them (other modes hold none).
pub proof fn law_clone_copies_keep_names(mode: CreateMode, base: Seq<char>, target: Seq<char>, source_home: Seq<char>)
    ensures
        forall|i: int|
            0 <= i < plan_spec(mode, base, target, source_home).len() && (#[trigger] plan_spec(
                mode,
                base,
                target,
                source_home,
            )[i] is CopyIf) ==> mode == CreateMode::Clone && (same_name_copy(
                plan_spec(mode, base, target, source_home)[i],
                source_home,
                target,
                "/config.yaml"@,
            ) || same_name_copy(plan_spec(mode, base, target, source_home)[i], source_home, target, "/.env"@)
                || same_name_copy(plan_spec(mode, base, target, source_home)[i], source_home, target, "/SOUL.md"@)),
        mode == CreateMode::Clone ==> exists|i: int|
            0 <= i < plan_spec(mode, base, target, source_home).len() && same_name_copy(
                #[trigger] plan_spec(mode, base, target, source_home)[i],
                source_home,
                target,
                "/config.yaml"@,
            ),
        mode == CreateMode::Clone ==> exists|i: int|
            0 <= i < plan_spec(mode, base, target, source_home).len() && same_name_copy(
                #[trigger] plan_spec(mode, base, target, source_home)[i],
                source_home,
                target,
                "/.env"@,
            ),
        mode == CreateMode::Clone ==> exists|i: int|
            0 <= i < plan_spec(mode, base, target, source_home).len() && same_name_copy(
                #[trigger] plan_spec(mode, base, target, source_home)[i],
                source_home,
                target,
                "/SOUL.md"@,
            ),
{
    let p = plan_spec(mode, base, target, source_home);
    let n = p.len() - 4;
    assert forall|i: int| 0 <= i < p.len() && (#[trigger] p[i] is CopyIf) implies mode == CreateMode::Clone && (
    same_name_copy(p[i], source_home, target, "/config.yaml"@) || same_name_copy(p[i], source_home, target, "/.env"@)
        || same_name_copy(p[i], source_home, target, "/SOUL.md"@)) by {
        assert(0 < i < n);
    }
    if mode == CreateMode::Clone {
        assert(same_name_copy(p[1], source_home, target, "/config.yaml"@));
        assert(same_name_copy(p[2], source_home, target, "/.env"@));
        assert(same_name_copy(p[3], source_home, target, "/SOUL.md"@));
    }
}

proof fn lemma_prefix_of_concat(a: Seq<char>, b: Seq<char>)
    ensures
        crate::text::starts_with(a + b, a),
{
    assert((a + b).take(a.len() as int) =~= a);
}

pub open spec fn job_plan(job: CreateJob) -> Seq<ActionSpec> {
    plan_spec(job.mode, job.base@, job.target@, job.source_home@)
}

/// The message of a failed creation step.
pub open spec fn step_fail(job: CreateJob, e: crate::output::CommandCapture) -> Seq<char> {
    fail_msg("Hermes could not create profile "@ + job.name@ + " in "@, job.distro@, e)
}

/// The first profile named `name`.
pub open spec fn first_named(ps: Seq<HermesProfile>, name: Seq<char>) -> Option<int>
    decreases ps.len(),
{
    if ps.len() == 0 {
        None
    } else {
        match first_named(ps.drop_last(), name) {
            Some(i) => Some(i),
            None => if ps.last().name@ == name {
                Some(ps.len() - 1)
            } else {
                None
            },
        }
    }
}

/// What the creation returns once the catalog is listed: the new profile's entry,
/// or (for one that already existed) a plain entry when the catalog lacks it.
pub open spec fn created_spec(job: CreateJob, existing: bool, c: HermesProfileCatalog, r: Step<CreateProfile, CreateHermesProfileResult>) -> bool {
    let message = if existing {
        "Hermes profile "@ + job.name@ + " already exists in "@ + job.distro@
    } else {
        "Created OS1-managed Hermes profile "@ + job.name@ + " in "@ + job.distro@
    };
    match first_named(c.profiles@, job.name@) {
        Some(i) => r matches Step::Done(Ok(res)) && res.created.view() == c.profiles@[i].view() && res.catalog
            == c && res.message@ == message,
        None => if existing {
            r matches Step::Done(Ok(res)) && res.created.view() == (job.name@, job.target@, false, true)
                && res.catalog == c && res.message@ == message
        } else {
            r matches Step::Done(Err(m)) && m@ == "Hermes profile creation finished, but ~/.hermes/profiles/"@
                + job.name@ + " was not found in "@ + job.distro@ + "."@
        },
    }
}

/// Once the catalog listing moves (or ends).
pub open spec fn after_list(job: CreateJob, existing: bool, o: Step<ListProfiles, HermesProfileCatalog>, r: Step<CreateProfile, CreateHermesProfileResult>) -> bool {
    match o {
        Step::Next(n, q) => r matches Step::Next(CreateProfile::Listing { job: j, list: l, existing: e }, q2)
            && j == job && l == n && e == existing && q2 == q,
        Step::Done(Err(e)) => r matches Step::Done(Err(m)) && m == e,
        Step::Done(Ok(c)) => created_spec(job, existing, c, r),
    }
}

/// The catalog of the distro is listed next.
pub open spec fn listing_start(job: CreateJob, existing: bool, r: Step<CreateProfile, CreateHermesProfileResult>) -> bool {
    exists|o: Step<ListProfiles, HermesProfileCatalog>|
        #[trigger] list_start(Some(job.distro), o) && after_list(job, existing, o, r)
}

/// `r` waits on a creation step that runs `args`, with the remaining actions.
pub open spec fn step_req(r: Step<CreateProfile, CreateHermesProfileResult>, job: CreateJob, acts: Seq<ActionSpec>, next: int, args: Seq<Seq<char>>) -> bool {
    r matches Step::Next(CreateProfile::Build { job: j, actions: a, next: n, pending: Pending::Step }, req)
        && j == job && actions_view(a@) == acts && n == next && wsl_req(req, job.distro@, args)
}

/// Action `i` of `acts` starts (or, after the last one, the catalog is listed).
pub open spec fn begin_spec(job: CreateJob, acts: Seq<ActionSpec>, i: int, r: Step<CreateProfile, CreateHermesProfileResult>) -> bool {
    if i >= acts.len() {
        listing_start(job, false, r)
    } else {
        match acts[i] {
            ActionSpec::Run(args) => step_req(r, job, acts, i + 1, args),
            ActionSpec::CopyIf(src, tgt) => r matches Step::Next(
                CreateProfile::Build { job: j, actions: a, next: n, pending: Pending::CopySource { source: s, target: t } },
                req,
            ) && j == job && actions_view(a@) == acts && n == i + 1 && s@ == src && t@ == tgt && wsl_req(
                req,
                job.distro@,
                test_args("-f"@, src),
            ),
            ActionSpec::Ensure(tgt, src) => r matches Step::Next(
                CreateProfile::Build { job: j, actions: a, next: n, pending: Pending::Target { target: t, template: s } },
                req,
            ) && j == job && actions_view(a@) == acts && n == i + 1 && t@ == tgt && opt_view(s) == src
                && wsl_req(req, job.distro@, test_args("-f"@, tgt)),
        }
    }
}

/// `r` waits on the home, for a new profile `name` copied from `source`.
pub open spec fn home_start(distro: Seq<char>, name: Seq<char>, mode: CreateMode, source: Seq<char>, r: Step<CreateProfile, CreateHermesProfileResult>) -> bool {
    r matches Step::Next(CreateProfile::Home { distro: d, name: n, mode: m, source: s }, req) && d@ == distro
        && n@ == name && m == mode && s@ == source && wsl_req(req, distro, home_args())
}

/// Once the distro is known: the name, the mode and the clone source are checked.
pub open spec fn create_after(distro: Seq<char>, name: Seq<char>, mode: Seq<char>, clone_from: Option<String>, r: Step<CreateProfile, CreateHermesProfileResult>) -> bool {
    match validate_new_spec(name) {
        Err(e) => r matches Step::Done(Err(m)) && m@ == e,
        Ok(pn) => match mode_of(mode) {
            None => r matches Step::Done(Err(m)) && m@ == "Unsupported profile creation mode."@,
            Some(md) => match clone_from {
                Some(v) => match validate_existing_spec(v@) {
                    Err(e) => r matches Step::Done(Err(m)) && m@ == e,
                    Ok(src) => if md == CreateMode::Blank {
                        r matches Step::Done(Err(m)) && m@ == "Clone source requires clone or cloneAll mode."@
                    } else {
                        home_start(distro, pn, md, src, r)
                    },
                },
                None => home_start(distro, pn, md, "default"@, r),
            },
        },
    }
}

pub open spec fn create_start(distro: Option<String>, name: Seq<char>, mode: String, clone_from: Option<String>, r: Step<CreateProfile, CreateHermesProfileResult>) -> bool {
    match provided_spec(distro) {
        Some(d) => create_after(d, name, mode@, clone_from, r),
        None => r matches Step::Next(CreateProfile::Distro { name: n, requested: m, clone_from: c }, Request::ListDistros)
            && n@ == name && m == mode && c == clone_from,
    }
}

pub open spec fn home_lead() -> Seq<char> {
    "Hermes could not resolve the Linux home directory in "@
}

pub open spec fn create_next(s: CreateProfile, reply: Reply, r: Step<CreateProfile, CreateHermesProfileResult>) -> bool {
    match s {
        CreateProfile::Distro { name, requested, clone_from } => match distro_reply(reply) {
            Err(e) => r matches Step::Done(Err(m)) && m@ == e,
            Ok(d) => create_after(d, name@, requested@, clone_from, r),
        },
        CreateProfile::Home { distro, name, mode, source } => match reply {
            Reply::Ran(Err(e)) => r matches Step::Done(Err(m)) && m@ == fail_msg(home_lead(), distro@, e),
            Reply::Ran(Ok(out)) => if home_of(out@).len() == 0 {
                r matches Step::Done(Err(m)) && m@ == home_lead() + distro@ + "."@
            } else {
                r matches Step::Next(CreateProfile::Exists { job: j }, req) && job_is(
                    j,
                    distro@,
                    name@,
                    mode,
                    source@,
                    home_of(out@),
                ) && wsl_req(req, distro@, test_args("-e"@, j.target@))
            },
            _ => r matches Step::Done(Err(m)) && m@ == unexpected_reply(),
        },
        CreateProfile::Exists { job } => match reply {
            Reply::Ran(Ok(_)) => r matches Step::Next(CreateProfile::IsDir { job: j }, req) && j == job && wsl_req(
                req,
                job.distro@,
                test_args("-d"@, job.target@),
            ),
            Reply::Ran(Err(_)) => if job.mode != CreateMode::Blank {
                r matches Step::Next(CreateProfile::Source { job: j }, req) && j == job && wsl_req(
                    req,
                    job.distro@,
                    test_args("-d"@, job.source_home@),
                )
            } else {
                begin_spec(job, job_plan(job), 0, r)
            },
            _ => r matches Step::Done(Err(m)) && m@ == unexpected_reply(),
        },
        CreateProfile::IsDir { job } => match reply {
            Reply::Ran(Ok(_)) => listing_start(job, true, r),
            Reply::Ran(Err(_)) => r matches Step::Done(Err(m)) && m@
                == "Hermes profile path exists but is not a directory: "@ + job.target@,
            _ => r matches Step::Done(Err(m)) && m@ == unexpected_reply(),
        },
        CreateProfile::Source { job } => match reply {
            Reply::Ran(Ok(_)) => begin_spec(job, job_plan(job), 0, r),
            Reply::Ran(Err(_)) => r matches Step::Done(Err(m)) && m@ == "Hermes clone source does not exist: "@
                + job.source_home@,
            _ => r matches Step::Done(Err(m)) && m@ == unexpected_reply(),
        },
        CreateProfile::Build { job, actions, next, pending } => {
            let acts = actions_view(actions@);
            match reply {
                Reply::Ran(res) => match pending {
                    Pending::Step => match res {
                        Ok(_) => begin_spec(job, acts, next as int, r),
                        Err(e) => r matches Step::Done(Err(m)) && m@ == step_fail(job, e),
                    },
                    Pending::CopySource { source, target } => match res {
                        Ok(_) => step_req(r, job, acts, next as int, seq!["cp"@, "-p"@, source@, target@]),
                        Err(_) => begin_spec(job, acts, next as int, r),
                    },
                    Pending::Target { target, template } => match res {
                        Ok(_) => begin_spec(job, acts, next as int, r),
                        Err(_) => match template {
                            Some(src) => r matches Step::Next(
                                CreateProfile::Build {
                                    job: j,
                                    actions: a,
                                    next: n,
                                    pending: Pending::Template { source: s2, target: t2 },
                                },
                                req,
                            ) && j == job && actions_view(a@) == acts && n == next && s2 == src && t2 == target
                                && wsl_req(req, job.distro@, test_args("-f"@, src@)),
                            None => step_req(r, job, acts, next as int, seq!["touch"@, target@]),
                        },
                    },
                    Pending::Template { source, target } => match res {
                        Ok(_) => step_req(r, job, acts, next as int, seq!["cp"@, source@, target@]),
                        Err(_) => step_req(r, job, acts, next as int, seq!["touch"@, target@]),
                    },
                },
                _ => r matches Step::Done(Err(m)) && m@ == unexpected_reply(),
            }
        },
        CreateProfile::Listing { job, list, existing } => exists|o: Step<ListProfiles, HermesProfileCatalog>|
            #[trigger] list_next(list, reply, o) && after_list(job, existing, o, r),
    }
}

// ---------------------------------------------------------------------------
// Creating a profile again
/// What a WSL distro answers: `world(distro, args)` to a command, `distros` to the
/// listing of distros.
pub open spec fn answer(world: spec_fn(Seq<char>, Seq<Seq<char>>) -> Reply, distros: Reply, req: Request) -> Reply {
    match req {
        Request::Wsl { distro, args, .. } => world(distro@, args.deep_view()),
        Request::ListDistros => distros,
        _ => Reply::Key(None),
    }
}

/// `steps` is a run of the creation in which each reply is what the distro answers.
pub open spec fn create_trace(
    steps: Seq<Step<CreateProfile, CreateHermesProfileResult>>,
    world: spec_fn(Seq<char>, Seq<Seq<char>>) -> Reply,
    distros: Reply,
) -> bool {
    forall|i: int|
        0 <= i < steps.len() - 1 ==> (#[trigger] steps[i] matches Step::Next(s, req) && create_next(
            s,
            answer(world, distros, req),
            steps[i + 1],
        ))
}

/// Whether a request changes something in WSL: it makes folders, copies or creates
/// files.
pub open spec fn changes_wsl(req: Request) -> bool {
    match req {
        Request::Wsl { args, .. } => args.len() > 0 && {
            let a = args.deep_view();
            a[0] == "mkdir"@ || a[0] == "cp"@ || a[0] == "touch"@
        },
        _ => false,
    }
}

/// The folder `target` exists in `distro` as a directory.
pub open spec fn folder_present(world: spec_fn(Seq<char>, Seq<Seq<char>>) -> Reply, distro: Seq<char>, target: Seq<char>) -> bool {
    &&& world(distro, test_args("-e"@, target)) matches Reply::Ran(Ok(_))
    &&& world(distro, test_args("-d"@, target)) matches Reply::Ran(Ok(_))
}

/// Where a second creation of the profile `pn` stands.
pub open spec fn again_inv(
    st: Step<CreateProfile, CreateHermesProfileResult>,
    world: spec_fn(Seq<char>, Seq<Seq<char>>) -> Reply,
    pn: Seq<char>,
    name: Seq<char>,
    mode: String,
    clone_from: Option<String>,
) -> bool {
    match st {
        Step::Done(Ok(res)) => res.created.name@ == pn && exists|d: Seq<char>|
            res.message@ == "Hermes profile "@ + pn + " already exists in "@ + d,
        Step::Done(Err(_)) => true,
        Step::Next(CreateProfile::Distro { name: n, requested, clone_from: c }, req) => n@ == name
            && requested == mode && c == clone_from && req is ListDistros,
        Step::Next(CreateProfile::Home { distro, name: n, .. }, req) => n@ == pn && wsl_req(
            req,
            distro@,
            home_args(),
        ),
        Step::Next(CreateProfile::Exists { job }, req) => job.name@ == pn && wsl_req(
            req,
            job.distro@,
            test_args("-e"@, job.target@),
        ) && folder_present(world, job.distro@, job.target@),
        Step::Next(CreateProfile::IsDir { job }, req) => job.name@ == pn && wsl_req(
            req,
            job.distro@,
            test_args("-d"@, job.target@),
        ) && folder_present(world, job.distro@, job.target@),
        Step::Next(CreateProfile::Listing { job, existing, .. }, req) => existing && job.name@ == pn
            && !changes_wsl(req),
        _ => false,
    }
}

/// The condition of a second creation: in every distro whose home the world gives,
/// the profile's folder exists (as the first creation left it).
pub open spec fn profile_left(world: spec_fn(Seq<char>, Seq<Seq<char>>) -> Reply, pn: Seq<char>) -> bool {
    forall|d: Seq<char>|
        #[trigger] world(d, home_args()) matches Reply::Ran(Ok(out)) ==> (home_of(out@).len() > 0
            ==> folder_present(world, d, profile_dir(home_of(out@) + "/.hermes"@, pn)))
}

proof fn lemma_reads(req: Request, d: Seq<char>, args: Seq<Seq<char>>)
    requires
        wsl_req(req, d, args),
        args.len() > 0,
        args[0] == "printenv"@ || args[0] == "test"@ || args[0] == "find"@,
    ensures
        !changes_wsl(req),
{
    reveal_strlit("printenv");
    reveal_strlit("test");
    reveal_strlit("find");
    reveal_strlit("mkdir");
    reveal_strlit("cp");
    reveal_strlit("touch");
    assert(args[0] != "mkdir"@ && args[0] != "cp"@ && args[0] != "touch"@) by {
        if args[0] == "printenv"@ {
            assert(args[0].len() == 8);
        } else if args[0] == "test"@ {
            assert(args[0][0] == 't' && args[0].len() == 4);
        } else {
            assert(args[0].len() == 4 && args[0][0] == 'f');
        }
    }
}

proof fn lemma_list_reads(l: ListProfiles, reply: Reply, o: Step<ListProfiles, HermesProfileCatalog>)
    requires
        list_next(l, reply, o),
    ensures
        o matches Step::Next(_, q) ==> !changes_wsl(q),
{
    if let Step::Next(_, q) = o {
        match l {
            ListProfiles::Distro => lemma_reads(q, distro_reply(reply)->Ok_0, home_args()),
            ListProfiles::Home { distro } => {
                if let Reply::Ran(Ok(out)) = reply {
                    lemma_reads(q, distro@, test_args("-d"@, home_of(out@) + "/.hermes"@));
                }
            },
            ListProfiles::Base { distro, base } => lemma_reads(q, distro@, test_args("-d"@, base@ + "/profiles"@)),
            ListProfiles::ProfilesDir { distro, base, .. } => lemma_reads(q, distro@, find_args(base@ + "/profiles"@)),
            ListProfiles::Find { .. } => {},
        }
    }
}

proof fn lemma_first_named_found(ps: Seq<HermesProfile>, name: Seq<char>)
    ensures
        first_named(ps, name) matches Some(i) ==> 0 <= i < ps.len() && ps[i].name@ == name,
    decreases ps.len(),
{
    if ps.len() > 0 {
        lemma_first_named_found(ps.drop_last(), name);
        if first_named(ps.drop_last(), name) is Some {
            let i = first_named(ps.drop_last(), name)->Some_0;
            assert(ps[i] == ps.drop_last()[i]);
        }
    }
}

proof fn lemma_after_list_again(
    job: CreateJob,
    o: Step<ListProfiles, HermesProfileCatalog>,
    r: Step<CreateProfile, CreateHermesProfileResult>,
    world: spec_fn(Seq<char>, Seq<Seq<char>>) -> Reply,
    pn: Seq<char>,
    name: Seq<char>,
    mode: String,
    clone_from: Option<String>,
)
    requires
        after_list(job, true, o, r),
        job.name@ == pn,
        o matches Step::Next(_, q) ==> !changes_wsl(q),
    ensures
        again_inv(r, world, pn, name, mode, clone_from),
{
    if let Step::Done(Ok(c)) = o {
        lemma_first_named_found(c.profiles@, job.name@);
        if let Step::Done(Ok(res)) = r {
            assert(res.message@ == "Hermes profile "@ + pn + " already exists in "@ + job.distro@);
        }
    }
}

proof fn lemma_again_step(
    s: CreateProfile,
    req: Request,
    r: Step<CreateProfile, CreateHermesProfileResult>,
    world: spec_fn(Seq<char>, Seq<Seq<char>>) -> Reply,
    distros: Reply,
    pn: Seq<char>,
    name: Seq<char>,
    mode: String,
    clone_from: Option<String>,
)
    requires
        validate_new_spec(name) == Ok::<Seq<char>, Seq<char>>(pn),
        profile_left(world, pn),
        again_inv(Step::Next(s, req), world, pn, name, mode, clone_from),
        create_next(s, answer(world, distros, req), r),
    ensures
        again_inv(r, world, pn, name, mode, clone_from),
{
    let reply = answer(world, distros, req);
    match s {
        CreateProfile::Distro { .. } => {
            if let Ok(d) = distro_reply(reply) {
                lemma_after_home(d, name, mode@, clone_from, r, world, pn, mode);
            }
        },
        CreateProfile::Home { distro, name: n, mode: md, source } => {
            assert(reply == world(distro@, home_args()));
            if let Reply::Ran(Ok(out)) = reply {
                if home_of(out@).len() > 0 {
                    assert(folder_present(world, distro@, profile_dir(home_of(out@) + "/.hermes"@, pn)));
                }
            }
        },
        CreateProfile::Exists { job } => {
            assert(reply == world(job.distro@, test_args("-e"@, job.target@)));
        },
        CreateProfile::IsDir { job } => {
            assert(reply == world(job.distro@, test_args("-d"@, job.target@)));
            let o = choose|o: Step<ListProfiles, HermesProfileCatalog>|
                #[trigger] list_start(Some(job.distro), o) && after_list(job, true, o, r);
            if let Step::Next(_, q) = o {
                if q is Wsl {
                    lemma_reads(q, provided_spec(Some(job.distro))->Some_0, home_args());
                }
            }
            lemma_after_list_again(job, o, r, world, pn, name, mode, clone_from);
        },
        CreateProfile::Listing { job, list, existing } => {
            let o = choose|o: Step<ListProfiles, HermesProfileCatalog>|
                #[trigger] list_next(list, reply, o) && after_list(job, existing, o, r);
            lemma_list_reads(list, reply, o);
            lemma_after_list_again(job, o, r, world, pn, name, mode, clone_from);
        },
        _ => {},
    }
}

proof fn lemma_after_home(
    d: Seq<char>,
    name: Seq<char>,
    requested: Seq<char>,
    clone_from: Option<String>,
    r: Step<CreateProfile, CreateHermesProfileResult>,
    world: spec_fn(Seq<char>, Seq<Seq<char>>) -> Reply,
    pn: Seq<char>,
    mode: String,
)
    requires
        validate_new_spec(name) == Ok::<Seq<char>, Seq<char>>(pn),
        create_after(d, name, requested, clone_from, r),
    ensures
        again_inv(r, world, pn, name, mode, clone_from),
{
}

/// Creating a profile that is already there changes nothing: in a run where every
/// distro still has the profile's folder under `~/.hermes/profiles`, no request makes
/// a folder, copies or creates a file, and a success reports that the profile already
/// exists, with the profile of that name.
pub proof fn law_second_creation_changes_nothing(
    distro: Option<String>,
    name: String,
    mode: String,
    clone_from: Option<String>,
    pn: Seq<char>,
    world: spec_fn(Seq<char>, Seq<Seq<char>>) -> Reply,
    distros: Reply,
    steps: Seq<Step<CreateProfile, CreateHermesProfileResult>>,
)
    requires
        validate_new_spec(name@) == Ok::<Seq<char>, Seq<char>>(pn),
        profile_left(world, pn),
        steps.len() > 0,
        create_start(distro, name@, mode, clone_from, steps[0]),
        create_trace(steps, world, distros),
    ensures
        forall|i: int| 0 <= i < steps.len() ==> (#[trigger] steps[i] matches Step::Next(_, req) ==> !changes_wsl(req)),
        steps.last() matches Step::Done(Ok(res)) ==> (res.created.name@ == pn && exists|d: Seq<char>|
            res.message@ == "Hermes profile "@ + pn + " already exists in "@ + d),
{
    lemma_again_prefix(distro, name, mode, clone_from, pn, world, distros, steps, steps.len() - 1);
    assert forall|i: int| 0 <= i < steps.len() implies (#[trigger] steps[i] matches Step::Next(_, req) ==> !changes_wsl(req)) by {
        assert(again_inv(steps[i], world, pn, name@, mode, clone_from));
        lemma_inv_reads(steps[i], world, pn, name@, mode, clone_from);
    }
    assert(again_inv(steps[steps.len() - 1], world, pn, name@, mode, clone_from));
}

proof fn lemma_inv_reads(
    st: Step<CreateProfile, CreateHermesProfileResult>,
    world: spec_fn(Seq<char>, Seq<Seq<char>>) -> Reply,
    pn: Seq<char>,
    name: Seq<char>,
    mode: String,
    clone_from: Option<String>,
)
    requires
        again_inv(st, world, pn, name, mode, clone_from),
    ensures
        st matches Step::Next(_, req) ==> !changes_wsl(req),
{
    match st {
        Step::Next(CreateProfile::Home { distro, .. }, req) => lemma_reads(req, distro@, home_args()),
        Step::Next(CreateProfile::Exists { job }, req) => lemma_reads(req, job.distro@, test_args("-e"@, job.target@)),
        Step::Next(CreateProfile::IsDir { job }, req) => lemma_reads(req, job.distro@, test_args("-d"@, job.target@)),
        _ => {},
    }
}

proof fn lemma_again_prefix(
    distro: Option<String>,
    name: String,
    mode: String,
    clone_from: Option<String>,
    pn: Seq<char>,
    world: spec_fn(Seq<char>, Seq<Seq<char>>) -> Reply,
    distros: Reply,
    steps: Seq<Step<CreateProfile, CreateHermesProfileResult>>,
    k: int,
)
    requires
        validate_new_spec(name@) == Ok::<Seq<char>, Seq<char>>(pn),
        profile_left(world, pn),
        0 <= k < steps.len(),
        create_start(distro, name@, mode, clone_from, steps[0]),
        create_trace(steps, world, distros),
    ensures
        forall|i: int| 0 <= i <= k ==> again_inv(#[trigger] steps[i], world, pn, name@, mode, clone_from),
    decreases k,
{
    if k == 0 {
        match provided_spec(distro) {
            Some(d) => lemma_after_home(d, name@, mode@, clone_from, steps[0], world, pn, mode),
            None => {},
        }
    } else {
        lemma_again_prefix(distro, name, mode, clone_from, pn, world, distros, steps, k - 1);
        let prev = steps[k - 1];
        assert(again_inv(prev, world, pn, name@, mode, clone_from));
        if let Step::Next(s, req) = prev {
            lemma_again_step(s, req, steps[k], world, distros, pn, name@, mode, clone_from);
        }
    }
}

/// The mode a caller names.
pub fn create_mode(mode: &str) -> (r: Option<CreateMode>)
    ensures
        r == mode_of(mode@),
{
    if str_eq(mode, "blank") {
        Some(CreateMode::Blank)
    } else if str_eq(mode, "clone") {
        Some(CreateMode::Clone)
    } else if str_eq(mode, "cloneAll") {
        Some(CreateMode::CloneAll)
    } else {
        None
    }
}

fn is_blank(mode: &CreateMode) -> (b: bool)
    ensures
        b == (*mode == CreateMode::Blank),
{
    match mode {
        CreateMode::Blank => true,
        _ => false,
    }
}

fn after_distro(distro: String, name: &str, mode: &str, clone_from: Option<String>) -> (r: Step<
    CreateProfile,
    CreateHermesProfileResult,
>)
    ensures
        create_after(distro@, name@, mode@, clone_from, r),
        r matches Step::Next(s, _) ==> s.wf(),
{
    let pn = match validate_new_profile_name(name) {
        Ok(n) => n,
        Err(e) => return Step::Done(Err(e)),
    };
    let md = match create_mode(mode) {
        Some(m) => m,
        None => return Step::Done(Err("Unsupported profile creation mode.".to_owned())),
    };
    let source = match &clone_from {
        Some(v) => {
            let src = match validate_existing_profile_name(v.as_str()) {
                Ok(s) => s,
                Err(e) => return Step::Done(Err(e)),
            };
            if is_blank(&md) {
                return Step::Done(Err("Clone source requires clone or cloneAll mode.".to_owned()));
            }
            src
        },
        None => "default".to_owned(),
    };
    let req = home_request(distro.as_str());
    Step::Next(CreateProfile::Home { distro, name: pn, mode: md, source }, req)
}

/// Starts creating profile `name` in the named distro (or the detected one); `mode`
/// is "blank", "clone" (copy `config.yaml`, `.env` and `SOUL.md`) or "cloneAll"
/// (copy everything) from `clone_from` (the base profile when none is named).
pub fn create_hermes_profile_blocking(
    distro: Option<String>,
    name: String,
    mode: String,
    clone_from: Option<String>,
) -> (r: Step<CreateProfile, CreateHermesProfileResult>)
    ensures
        create_start(distro, name@, mode, clone_from, r),
        r matches Step::Next(s, _) ==> s.wf(),
{
    match provided_distro(&distro) {
        Some(d) => after_distro(d, name.as_str(), mode.as_str(), clone_from),
        None => Step::Next(CreateProfile::Distro { name, requested: mode, clone_from }, Request::ListDistros),
    }
}

/// The action that makes sure the profile file `target` exists: copied from
/// `template` when that exists, else created empty.
pub fn ensure_profile_file(target: String, template: Option<String>) -> (r: Action)
    ensures
        r.view() == ActionSpec::Ensure(target@, opt_view(template)),
{
    Action::Ensure(target, template)
}

/// What a creation step's run comes to: what it printed, or the message that the
/// profile could not be created.
pub fn run_wsl_profile_step(distro: &str, profile_name: &str, result: Result<String, CommandCapture>) -> (r: Result<
    String,
    String,
>)
    ensures
        match result {
            Ok(out) => r == Ok::<String, String>(out),
            Err(e) => r matches Err(m) && m@ == fail_msg(
                "Hermes could not create profile "@ + profile_name@ + " in "@,
                distro@,
                e,
            ),
        },
{
    match result {
        Ok(out) => Ok(out),
        Err(e) => {
            let mut lead = "Hermes could not create profile ".to_owned();
            lead.append(profile_name);
            lead.append(" in ");
            Err(failure(lead.as_str(), distro, &e))
        },
    }
}

fn push_action(v: &mut Vec<Action>, a: Action)
    ensures
        actions_view(final(v)@) == actions_view(old(v)@).push(a.view()),
{
    let ghost before = actions_view(v@);
    let ghost av = a.view();
    v.push(a);
    assert(actions_view(v@) =~= before.push(av));
}

fn push_string(v: &mut Vec<String>, x: String)
    ensures
        final(v).deep_view() == old(v).deep_view().push(x@),
{
    let ghost before = v.deep_view();
    let ghost xv = x@;
    v.push(x);
    assert(v.deep_view() =~= before.push(xv));
}

/// What building the profile's folder does, in order.
pub fn plan(job: &CreateJob) -> (r: Vec<Action>)
    ensures
        actions_view(r@) == job_plan(*job),
{
    let t = job.target.as_str();
    let s = job.source_home.as_str();
    let b = job.base.as_str();
    let mut v: Vec<Action> = Vec::new();
    assert(actions_view(v@) =~= Seq::<ActionSpec>::empty());
    let first = triple_args("mkdir", "-p", t);
    push_action(&mut v, Action::Run(first));
    let ghost head = actions_view(v@);
    match job.mode {
        CreateMode::CloneAll => {
            let mut cp = triple_args("cp", "-a", cat(s, "/.").as_str());
            push_string(&mut cp, cat(t, "/"));
            assert(cp.deep_view() =~= seq!["cp"@, "-a"@, s@ + "/."@, t@ + "/"@]);
            push_action(&mut v, Action::Run(cp));
        },
        CreateMode::Clone => {
            push_action(&mut v, Action::CopyIf(cat(s, "/config.yaml"), cat(t, "/config.yaml")));
            push_action(&mut v, Action::CopyIf(cat(s, "/.env"), cat(t, "/.env")));
            push_action(&mut v, Action::CopyIf(cat(s, "/SOUL.md"), cat(t, "/SOUL.md")));
        },
        CreateMode::Blank => {},
    }
    let ghost copies = actions_view(v@).skip(1);
    assert(actions_view(v@) =~= head + copies);
    let mut dirs = pair_args("mkdir", "-p");
    push_cat(&mut dirs, t, "/cron");
    push_cat(&mut dirs, t, "/sessions");
    push_cat(&mut dirs, t, "/logs");
    push_cat(&mut dirs, t, "/memories");
    push_cat(&mut dirs, t, "/skills");
    assert(dirs.deep_view() =~= seq![
        "mkdir"@,
        "-p"@,
        t@ + "/cron"@,
        t@ + "/sessions"@,
        t@ + "/logs"@,
        t@ + "/memories"@,
        t@ + "/skills"@,
    ]);
    push_action(&mut v, Action::Run(dirs));
    push_action(&mut v, ensure_profile_file(cat(t, "/.env"), Some(cat(b, "/hermes-agent/.env.example"))));
    push_action(
        &mut v,
        ensure_profile_file(cat(t, "/config.yaml"), Some(cat(b, "/hermes-agent/cli-config.yaml.example"))),
    );
    push_action(&mut v, ensure_profile_file(cat(t, "/SOUL.md"), None));
    assert(actions_view(v@) =~= job_plan(*job));
    v
}

fn push_cat(v: &mut Vec<String>, a: &str, b: &str)
    ensures
        final(v).deep_view() == old(v).deep_view().push(a@ + b@),
{
    let ghost before = v.deep_view();
    let x = cat(a, b);
    v.push(x);
    assert(v.deep_view() =~= before.push(a@ + b@));
}

fn copy_strings(v: &Vec<String>) -> (r: Vec<String>)
    ensures
        r.deep_view() == v.deep_view(),
{
    let mut r: Vec<String> = Vec::new();
    let mut i: usize = 0;
    while i < v.len()
        invariant
            i <= v.len(),
            r.deep_view() == v.deep_view().take(i as int),
        decreases v.len() - i,
    {
        let x = v[i].clone();
        let ghost before = r.deep_view();
        r.push(x);
        assert(r.deep_view() =~= before.push(v@[i as int]@));
        assert(v.deep_view().take(i + 1) =~= v.deep_view().take(i as int).push(v@[i as int]@));
        i = i + 1;
    }
    assert(v.deep_view().take(v.len() as int) =~= v.deep_view());
    r
}

/// The index of the first profile named `name`.
pub fn find_named(ps: &Vec<HermesProfile>, name: &str) -> (r: Option<usize>)
    ensures
        match r {
            Some(i) => first_named(ps@, name@) == Some(i as int) && i < ps.len(),
            None => first_named(ps@, name@) is None,
        },
{
    let mut i: usize = 0;
    while i < ps.len()
        invariant
            i <= ps.len(),
            first_named(ps@.take(i as int), name@) is None,
        decreases ps.len() - i,
    {
        assert(ps@.take(i + 1).drop_last() =~= ps@.take(i as int));
        if str_eq(ps[i].name.as_str(), name) {
            proof {
                lemma_first_named_extend(ps@, i as int + 1, name@);
            }
            return Some(i);
        }
        i = i + 1;
    }
    assert(ps@.take(ps.len() as int) =~= ps@);
    None
}

proof fn lemma_first_named_extend(ps: Seq<HermesProfile>, k: int, name: Seq<char>)
    requires
        0 <= k <= ps.len(),
        first_named(ps.take(k), name) is Some,
    ensures
        first_named(ps, name) == first_named(ps.take(k), name),
    decreases ps.len() - k,
{
    if k == ps.len() {
        assert(ps.take(k) =~= ps);
    } else {
        assert(ps.take(k + 1).drop_last() =~= ps.take(k));
        lemma_first_named_extend(ps, k + 1, name);
    }
}

fn finish(job: CreateJob, existing: bool, c: HermesProfileCatalog) -> (r: Step<CreateProfile, CreateHermesProfileResult>)
    ensures
        created_spec(job, existing, c, r),
{
    let mut message = if existing {
        "Hermes profile ".to_owned()
    } else {
        "Created OS1-managed Hermes profile ".to_owned()
    };
    message.append(job.name.as_str());
    if existing {
        message.append(" already exists in ");
    } else {
        message.append(" in ");
    }
    message.append(job.distro.as_str());
    match find_named(&c.profiles, job.name.as_str()) {
        Some(i) => {
            let created = copy_profile(&c.profiles[i]);
            Step::Done(Ok(CreateHermesProfileResult { created, catalog: c, message }))
        },
        None => if existing {
            let created = HermesProfile {
                name: job.name.clone(),
                path: job.target.clone(),
                is_default: false,
                exists: true,
            };
            Step::Done(Ok(CreateHermesProfileResult { created, catalog: c, message }))
        } else {
            let mut m = "Hermes profile creation finished, but ~/.hermes/profiles/".to_owned();
            m.append(job.name.as_str());
            m.append(" was not found in ");
            m.append(job.distro.as_str());
            m.append(".");
            Step::Done(Err(m))
        },
    }
}

fn continue_list(job: CreateJob, existing: bool, o: Step<ListProfiles, HermesProfileCatalog>) -> (r: Step<
    CreateProfile,
    CreateHermesProfileResult,
>)
    ensures
        after_list(job, existing, o, r),
        r matches Step::Next(s, _) ==> s.wf(),
{
    match o {
        Step::Next(n, q) => Step::Next(CreateProfile::Listing { job, list: n, existing }, q),
        Step::Done(Err(e)) => Step::Done(Err(e)),
        Step::Done(Ok(c)) => finish(job, existing, c),
    }
}

fn start_listing(job: CreateJob, existing: bool) -> (r: Step<CreateProfile, CreateHermesProfileResult>)
    ensures
        listing_start(job, existing, r),
        r matches Step::Next(s, _) ==> s.wf(),
{
    let d = job.distro.clone();
    let o = list_hermes_profiles_blocking(Some(d));
    let ghost og = o;
    assert(list_start(Some(job.distro), og));
    continue_list(job, existing, o)
}

fn step_to(job: CreateJob, actions: Vec<Action>, next: usize, args: Vec<String>) -> (r: Step<
    CreateProfile,
    CreateHermesProfileResult,
>)
    requires
        next <= actions.len(),
    ensures
        step_req(r, job, actions_view(actions@), next as int, args.deep_view()),
        r matches Step::Next(s, _) ==> s.wf(),
{
    let req = run_wsl_capture_result_owned(job.distro.as_str(), args);
    Step::Next(CreateProfile::Build { job, actions, next, pending: Pending::Step }, req)
}

/// Starts action `i` (or, after the last one, the catalog listing).
fn begin(job: CreateJob, actions: Vec<Action>, i: usize) -> (r: Step<CreateProfile, CreateHermesProfileResult>)
    requires
        i <= actions.len(),
    ensures
        begin_spec(job, actions_view(actions@), i as int, r),
        r matches Step::Next(s, _) ==> s.wf(),
{
    if i >= actions.len() {
        return start_listing(job, false);
    }
    assert(actions_view(actions@)[i as int] == actions@[i as int].view());
    match &actions[i] {
        Action::Run(args) => {
            let a = copy_strings(args);
            step_to(job, actions, i + 1, a)
        },
        Action::CopyIf(src, tgt) => {
            let source = src.clone();
            let target = tgt.clone();
            let req = test_request(job.distro.as_str(), "-f", source.as_str());
            Step::Next(
                CreateProfile::Build { job, actions, next: i + 1, pending: Pending::CopySource { source, target } },
                req,
            )
        },
        Action::Ensure(tgt, src) => {
            let target = tgt.clone();
            let template = match src {
                Some(s) => Some(s.clone()),
                None => None,
            };
            let req = test_request(job.distro.as_str(), "-f", target.as_str());
            Step::Next(
                CreateProfile::Build { job, actions, next: i + 1, pending: Pending::Target { target, template } },
                req,
            )
        },
    }
}

fn pair_args(a: &str, b: &str) -> (r: Vec<String>)
    ensures
        r.deep_view() == seq![a@, b@],
{
    let mut r: Vec<String> = Vec::new();
    r.push(a.to_owned());
    r.push(b.to_owned());
    assert(r.deep_view() =~= seq![a@, b@]);
    r
}

fn triple_args(a: &str, b: &str, c: &str) -> (r: Vec<String>)
    ensures
        r.deep_view() == seq![a@, b@, c@],
{
    let mut r: Vec<String> = Vec::new();
    r.push(a.to_owned());
    r.push(b.to_owned());
    r.push(c.to_owned());
    assert(r.deep_view() =~= seq![a@, b@, c@]);
    r
}

fn make_job(distro: String, name: String, mode: CreateMode, source: &str, home: &str) -> (r: CreateJob)
    ensures
        job_is(r, distro@, name@, mode, source@, home@),
{
    let base = cat(home, "/.hermes");
    let profiles = cat(base.as_str(), "/profiles");
    let mut target = cat(profiles.as_str(), "/");
    target.append(name.as_str());
    let source_home = if str_eq(source, "default") {
        base.clone()
    } else {
        let mut p = cat(profiles.as_str(), "/");
        p.append(source);
        p
    };
    CreateJob { distro, name, mode, base, target, source_home }
}

impl CreateProfile {
    /// Takes the creation one reply further.
    pub fn resume(self, reply: Reply) -> (r: Step<CreateProfile, CreateHermesProfileResult>)
        requires
            self.wf(),
        ensures
            create_next(self, reply, r),
            r matches Step::Next(s, _) ==> s.wf(),
    {
        match self {
            CreateProfile::Distro { name, requested, clone_from } => match distro_from_reply(reply) {
                Err(e) => Step::Done(Err(e)),
                Ok(d) => after_distro(d, name.as_str(), requested.as_str(), clone_from),
            },
            CreateProfile::Home { distro, name, mode, source } => match reply {
                Reply::Ran(Err(e)) => Step::Done(
                    Err(failure("Hermes could not resolve the Linux home directory in ", distro.as_str(), &e)),
                ),
                Reply::Ran(Ok(out)) => {
                    let t = trim_str(out.as_str());
                    let home = trim_end_str(t.as_str(), Pat::Ch('/'));
                    if home.unicode_len() == 0 {
                        let mut m = "Hermes could not resolve the Linux home directory in ".to_owned();
                        m.append(distro.as_str());
                        m.append(".");
                        return Step::Done(Err(m));
                    }
                    let job = make_job(distro, name, mode, source.as_str(), home.as_str());
                    let req = test_request(job.distro.as_str(), "-e", job.target.as_str());
                    Step::Next(CreateProfile::Exists { job }, req)
                },
                _ => Step::Done(Err(unexpected())),
            },
            CreateProfile::Exists { job } => match reply {
                Reply::Ran(Ok(_)) => {
                    let req = test_request(job.distro.as_str(), "-d", job.target.as_str());
                    Step::Next(CreateProfile::IsDir { job }, req)
                },
                Reply::Ran(Err(_)) => {
                    if !is_blank(&job.mode) {
                        let req = test_request(job.distro.as_str(), "-d", job.source_home.as_str());
                        Step::Next(CreateProfile::Source { job }, req)
                    } else {
                        let actions = plan(&job);
                        begin(job, actions, 0)
                    }
                },
                _ => Step::Done(Err(unexpected())),
            },
            CreateProfile::IsDir { job } => match reply {
                Reply::Ran(Ok(_)) => start_listing(job, true),
                Reply::Ran(Err(_)) => {
                    let mut m = "Hermes profile path exists but is not a directory: ".to_owned();
                    m.append(job.target.as_str());
                    Step::Done(Err(m))
                },
                _ => Step::Done(Err(unexpected())),
            },
            CreateProfile::Source { job } => match reply {
                Reply::Ran(Ok(_)) => {
                    let actions = plan(&job);
                    begin(job, actions, 0)
                },
                Reply::Ran(Err(_)) => {
                    let mut m = "Hermes clone source does not exist: ".to_owned();
                    m.append(job.source_home.as_str());
                    Step::Done(Err(m))
                },
                _ => Step::Done(Err(unexpected())),
            },
            CreateProfile::Build { job, actions, next, pending } => match reply {
                Reply::Ran(res) => match pending {
                    Pending::Step => match run_wsl_profile_step(job.distro.as_str(), job.name.as_str(), res) {
                        Ok(_) => begin(job, actions, next),
                        Err(m) => Step::Done(Err(m)),
                    },
                    Pending::CopySource { source, target } => match res {
                        Ok(_) => {
                            let mut args = triple_args("cp", "-p", source.as_str());
                            let ghost tv = target@;
                            push_string(&mut args, target);
                            assert(args.deep_view() =~= seq!["cp"@, "-p"@, source@, tv]);
                            step_to(job, actions, next, args)
                        },
                        Err(_) => begin(job, actions, next),
                    },
                    Pending::Target { target, template } => match res {
                        Ok(_) => begin(job, actions, next),
                        Err(_) => match template {
                            Some(src) => {
                                let req = test_request(job.distro.as_str(), "-f", src.as_str());
                                Step::Next(
                                    CreateProfile::Build {
                                        job,
                                        actions,
                                        next,
                                        pending: Pending::Template { source: src, target },
                                    },
                                    req,
                                )
                            },
                            None => {
                                let args = pair_args("touch", target.as_str());
                                step_to(job, actions, next, args)
                            },
                        },
                    },
                    Pending::Template { source, target } => match res {
                        Ok(_) => {
                            let args = triple_args("cp", source.as_str(), target.as_str());
                            step_to(job, actions, next, args)
                        },
                        Err(_) => {
                            let args = pair_args("touch", target.as_str());
                            step_to(job, actions, next, args)
                        },
                    },
                },
                _ => Step::Done(Err(unexpected())),
            },
            CreateProfile::Listing { job, list, existing } => {
                let ghost l0 = list;
                let o = list.resume(reply);
                let ghost og = o;
                let r = continue_list(job, existing, o);
                assert(list_next(l0, reply, og));
                r
            },
        }
    }
}

} // verus!
