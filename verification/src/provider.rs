//! Setting up a profile's model provider (an OpenAI key or the Codex
//! subscription), and bringing the Windows Codex login into a profile.
use vstd::prelude::*;
use crate::bridge::{
    fail_msg, failure, home_args, home_from_reply, home_reply, home_request, resolve_hermes_runtime,
    runtime_next, test_args, test_request, unexpected, unexpected_reply, run_wsl_capture_result_owned, run_wsl_capture_with_stdin, wsl_req,
    wsl_req_input, Probe, Reply, Request, RuntimeProbe, Step,
};
use crate::catalog::{to_lowercase, unicode_lower};
use crate::env::{missing_key_message, openai_api_key};
use crate::json::{is_valid_json, json_object_text, object_text, parses_as_json};
use crate::memory::{contains_chars, contains_seq};
use crate::ops::{prepare_profile, setup_next, setup_start, Prepared, Setup};
use crate::profile::{assignment, validate_existing_spec, validate_profile_name_for_runtime, HermesRuntime};
use crate::text::{str_eq, to_chars};

verus! {

/// Writes the provider into a profile's `.env` and `config.yaml`; it reads the
/// provider settings as JSON on standard input.
pub const PROVIDER_SCRIPT: &'static str = "\nimport json\nimport os\nimport stat\nimport sys\nfrom pathlib import Path\n\nimport yaml\n\npayload = json.loads(sys.stdin.read())\nhome = Path(os.environ[\"HERMES_HOME\"])\nhome.mkdir(parents=True, exist_ok=True)\nenv_path = home / \".env\"\nconfig_path = home / \"config.yaml\"\n\ndef quote_env(value):\n    return '\"' + str(value).replace(\"\\\\\", \"\\\\\\\\\").replace('\"', '\\\\\"').replace(\"\\n\", \"\") + '\"'\n\nif payload.get(\"mode\") == \"openai-key\":\n    lines = env_path.read_text().splitlines() if env_path.exists() else []\n    next_lines = []\n    replaced = False\n    for line in lines:\n        if line.startswith(\"OPENAI_API_KEY=\"):\n            next_lines.append(\"OPENAI_API_KEY=\" + quote_env(payload[\"apiKey\"]))\n            replaced = True\n        else:\n            next_lines.append(line)\n    if not replaced:\n        next_lines.append(\"OPENAI_API_KEY=\" + quote_env(payload[\"apiKey\"]))\n    env_path.write_text(\"\\n\".join(next_lines).rstrip() + \"\\n\")\n    os.chmod(env_path, stat.S_IRUSR | stat.S_IWUSR)\n\ndata = {}\nif config_path.exists() and config_path.read_text().strip():\n    data = yaml.safe_load(config_path.read_text()) or {}\nif not isinstance(data, dict):\n    data = {}\n\nmodel = data.get(\"model\") if isinstance(data.get(\"model\"), dict) else {}\nmodel = dict(model)\nmodel[\"default\"] = payload[\"model\"]\nmodel[\"provider\"] = payload[\"provider\"]\nmodel.pop(\"api_key\", None)\nmodel.pop(\"api_mode\", None)\n\nif payload.get(\"mode\") == \"openai-key\":\n    provider = {\n        \"name\": \"openai\",\n        \"base_url\": payload[\"baseUrl\"],\n        \"key_env\": \"OPENAI_API_KEY\",\n    }\n    providers = data.get(\"custom_providers\")\n    if not isinstance(providers, list):\n        providers = []\n    for index, item in enumerate(providers):\n        if isinstance(item, dict) and item.get(\"name\") == \"openai\":\n            providers[index] = provider\n            break\n    else:\n        providers.append(provider)\n    data[\"custom_providers\"] = providers\n    model[\"base_url\"] = payload[\"baseUrl\"]\nelse:\n    model.pop(\"base_url\", None)\n\ndata[\"model\"] = model\ntmp_path = config_path.with_suffix(\".yaml.tmp\")\ntmp_path.write_text(yaml.safe_dump(data, sort_keys=False, default_flow_style=False))\ntmp_path.replace(config_path)\nos.chmod(config_path, stat.S_IRUSR | stat.S_IWUSR)\nprint(f\"Configured {payload['provider']} / {payload['model']}\")\n";

/// Copies a Codex login (JSON on standard input) into `~/.codex/auth.json` and into
/// the profile's `auth.json`.
pub const IMPORT_SCRIPT: &'static str = "\nimport json\nimport os\nimport stat\nimport sys\nfrom datetime import datetime, timezone\nfrom pathlib import Path\n\npayload = json.loads(sys.stdin.read())\ntokens = payload.get(\"tokens\")\nif not isinstance(tokens, dict) or not tokens.get(\"access_token\") or not tokens.get(\"refresh_token\"):\n    raise SystemExit(\"Codex auth file does not contain usable OAuth tokens.\")\n\nhome = Path.home()\ncodex_dir = home / \".codex\"\ncodex_dir.mkdir(parents=True, exist_ok=True)\ncodex_target = codex_dir / \"auth.json\"\ncodex_target.write_text(json.dumps(payload, indent=2) + \"\\n\")\nos.chmod(codex_target, stat.S_IRUSR | stat.S_IWUSR)\n\nhermes_home = Path(os.environ[\"HERMES_HOME\"])\nhermes_home.mkdir(parents=True, exist_ok=True)\nauth_target = hermes_home / \"auth.json\"\nif auth_target.exists() and auth_target.read_text().strip():\n    try:\n        auth_store = json.loads(auth_target.read_text())\n    except Exception:\n        auth_store = {}\nelse:\n    auth_store = {}\nif not isinstance(auth_store, dict):\n    auth_store = {}\nproviders = auth_store.get(\"providers\")\nif not isinstance(providers, dict):\n    providers = {}\nproviders[\"openai-codex\"] = {\n    \"tokens\": tokens,\n    \"last_refresh\": payload.get(\"last_refresh\") or datetime.now(timezone.utc).isoformat().replace(\"+00:00\", \"Z\"),\n    \"auth_mode\": \"chatgpt\",\n}\nauth_store[\"version\"] = auth_store.get(\"version\") or 1\nauth_store[\"providers\"] = providers\nauth_store[\"active_provider\"] = \"openai-codex\"\nauth_store[\"updated_at\"] = datetime.now(timezone.utc).isoformat()\nauth_target.write_text(json.dumps(auth_store, indent=2) + \"\\n\")\nos.chmod(auth_target, stat.S_IRUSR | stat.S_IWUSR)\nprint(\"Imported Codex auth into Hermes profile\")\n";

/// The two ways a profile can reach a model.
#[derive(Debug)]
pub enum ProviderMode {
    OpenAiKey,
    CodexSubscription,
}

/// What the provider setup did.
#[derive(Debug)]
pub struct ConfigureHermesProviderResult {
    pub distro: String,
    pub profile: String,
    pub provider: String,
    pub model: String,
    pub message: String,
    pub output: String,
}

/// A profile whose runtime is known, for the provider setup.
#[derive(Debug)]
pub struct ProviderJob {
    pub distro: String,
    pub profile: String,
    pub runtime: HermesRuntime,
}

/// Setting up a profile's provider.
#[derive(Debug)]
pub enum ConfigureProvider {
    Runtime { distro: String, profile: String, mode: String, probe: RuntimeProbe },
    Key { job: ProviderJob },
    CodexHome { job: ProviderJob },
    CodexAuth { job: ProviderJob },
    ProfileAuth { job: ProviderJob },
    Python { job: ProviderJob, mode: ProviderMode, payload: String },
    Write { job: ProviderJob, mode: ProviderMode },
    AuthStatus { job: ProviderJob },
    Verify { job: ProviderJob, mode: ProviderMode },
}

impl ConfigureProvider {
    pub open spec fn wf(self) -> bool {
        match self {
            ConfigureProvider::Runtime { probe, .. } => probe.wf(),
            _ => true,
        }
    }
}

/// The settings handed to the provider script.
pub open spec fn provider_fields(mode: ProviderMode, key: Seq<char>) -> Seq<(Seq<char>, Seq<char>)> {
    match mode {
        ProviderMode::OpenAiKey => seq![
            ("mode"@, "openai-key"@),
            ("apiKey"@, key),
            ("model"@, "gpt-5.5"@),
            ("provider"@, "openai"@),
            ("baseUrl"@, "https://api.openai.com/v1"@),
        ],
        ProviderMode::CodexSubscription => seq![
            ("mode"@, "codex-subscription"@),
            ("model"@, "gpt-5.5"@),
            ("provider"@, "openai-codex"@),
        ],
    }
}

pub open spec fn provider_name(mode: ProviderMode) -> Seq<char> {
    match mode {
        ProviderMode::OpenAiKey => "openai"@,
        ProviderMode::CodexSubscription => "openai-codex"@,
    }
}

pub open spec fn provider_message(mode: ProviderMode) -> Seq<char> {
    match mode {
        ProviderMode::OpenAiKey => "Hermes will use the OS1 OpenAI key with GPT-5.5."@,
        ProviderMode::CodexSubscription => "Hermes will use the Codex subscription provider."@,
    }
}

pub open spec fn oauth_needed() -> Seq<char> {
    "Codex subscription setup needs a one-time ChatGPT OAuth login. OS1 can automate this after we add the device-code screen, or it can import ~/.codex/auth.json when present in WSL."@
}

pub open spec fn not_authenticated() -> Seq<char> {
    "Codex subscription is not authenticated yet. Run the one-time ChatGPT OAuth flow before entering OS1 with this option."@
}

/// A Hermes command of the runtime.
pub open spec fn hermes_cmd(rt: HermesRuntime, args: Seq<Seq<char>>) -> Seq<Seq<char>> {
    rt.env_prefix().push(rt.hermes_command@) + args
}

/// The command that writes the provider settings with the profile's Python.
pub open spec fn write_args(rt: HermesRuntime, home: Seq<char>) -> Seq<Seq<char>> {
    rt.env_prefix() + seq![home + "/.hermes/hermes-agent/venv/bin/python"@, "-c"@, PROVIDER_SCRIPT@]
}

pub open spec fn verify_args() -> Seq<Seq<char>> {
    seq!["chat"@, "--quiet"@, "--query"@, "Reply with exactly: Hermes provider ok"@]
}

pub open spec fn auth_status_args() -> Seq<Seq<char>> {
    seq!["auth"@, "status"@, "openai-codex"@]
}

/// The mode named by `mode` decides the next step.
pub open spec fn mode_dispatch(job: ProviderJob, mode: Seq<char>, r: Step<ConfigureProvider, ConfigureHermesProviderResult>) -> bool {
    if mode == "openai-key"@ {
        r matches Step::Next(ConfigureProvider::Key { job: j }, Request::OpenAiKey) && j == job
    } else if mode == "codex-subscription"@ {
        r matches Step::Next(ConfigureProvider::CodexHome { job: j }, req) && j == job && wsl_req(
            req,
            job.distro@,
            home_args(),
        )
    } else {
        r matches Step::Done(Err(m)) && m@ == "Unsupported Hermes provider setup option."@
    }
}

/// The settings are written next, after the Linux home (for the profile's Python)
/// is asked for.
pub open spec fn write_start(job: ProviderJob, mode: ProviderMode, payload: Seq<char>, r: Step<ConfigureProvider, ConfigureHermesProviderResult>) -> bool {
    r matches Step::Next(ConfigureProvider::Python { job: j, mode: md, payload: p }, req) && j == job && md
        == mode && p@ == payload && wsl_req(req, job.distro@, home_args())
}

/// The chat check comes next.
pub open spec fn verify_start(job: ProviderJob, mode: ProviderMode, r: Step<ConfigureProvider, ConfigureHermesProviderResult>) -> bool {
    r matches Step::Next(ConfigureProvider::Verify { job: j, mode: md }, req) && j == job && md == mode
        && wsl_req(req, job.distro@, hermes_cmd(job.runtime, verify_args()))
}

pub open spec fn configure_start(distro: Seq<char>, profile: Seq<char>, mode: String, r: Step<ConfigureProvider, ConfigureHermesProviderResult>) -> bool {
    match validate_existing_spec(profile) {
        Err(e) => r matches Step::Done(Err(m)) && m@ == e,
        Ok(name) => r matches Step::Next(
            ConfigureProvider::Runtime {
                distro: d,
                profile: p,
                mode: md,
                probe: RuntimeProbe::Home { distro: d2, profile: p2 },
            },
            req,
        ) && d@ == distro && p@ == name && md == mode && d2@ == distro && p2@ == name && wsl_req(
            req,
            distro,
            home_args(),
        ),
    }
}

pub open spec fn configure_next(s: ConfigureProvider, reply: Reply, r: Step<ConfigureProvider, ConfigureHermesProviderResult>) -> bool {
    match s {
        ConfigureProvider::Runtime { distro, profile, mode, probe } => exists|
            o: Probe<RuntimeProbe, Result<HermesRuntime, String>>,
        |
            #[trigger] runtime_next(probe, reply, o) && match o {
                Probe::Ask(n, q) => r matches Step::Next(
                    ConfigureProvider::Runtime { distro: d, profile: p, mode: md, probe: m },
                    q2,
                ) && d == distro && p == profile && md == mode && m == n && n.wf() && q2 == q,
                Probe::Ready(Err(e)) => r matches Step::Done(Err(m)) && m == e,
                Probe::Ready(Ok(rt)) => mode_dispatch(ProviderJob { distro, profile, runtime: rt }, mode@, r),
            },
        ConfigureProvider::Key { job } => match reply {
            Reply::Key(Some(k)) => write_start(
                job,
                ProviderMode::OpenAiKey,
                json_object_text(provider_fields(ProviderMode::OpenAiKey, k@)),
                r,
            ),
            Reply::Key(None) => r matches Step::Done(Err(m)) && m@ == missing_key_message(),
            _ => r matches Step::Done(Err(m)) && m@ == unexpected_reply(),
        },
        ConfigureProvider::CodexHome { job } => match home_reply(reply) {
            None => r matches Step::Done(Err(m)) && m@ == unexpected_reply(),
            Some(Err(summary)) => r matches Step::Done(Err(m)) && m@
                == "Hermes could not inspect Codex credentials in "@ + job.distro@ + ". "@ + summary,
            Some(Ok(home)) => r matches Step::Next(ConfigureProvider::CodexAuth { job: j }, req) && j == job
                && wsl_req(req, job.distro@, test_args("-f"@, home + "/.codex/auth.json"@)),
        },
        ConfigureProvider::CodexAuth { job } => match reply {
            Reply::Ran(Ok(_)) => write_start(
                job,
                ProviderMode::CodexSubscription,
                json_object_text(provider_fields(ProviderMode::CodexSubscription, seq![])),
                r,
            ),
            Reply::Ran(Err(_)) => r matches Step::Next(ConfigureProvider::ProfileAuth { job: j }, req) && j
                == job && wsl_req(req, job.distro@, test_args("-f"@, job.runtime.hermes_home@ + "/auth.json"@)),
            _ => r matches Step::Done(Err(m)) && m@ == unexpected_reply(),
        },
        ConfigureProvider::ProfileAuth { job } => match reply {
            Reply::Ran(Ok(_)) => write_start(
                job,
                ProviderMode::CodexSubscription,
                json_object_text(provider_fields(ProviderMode::CodexSubscription, seq![])),
                r,
            ),
            Reply::Ran(Err(_)) => r matches Step::Done(Err(m)) && m@ == oauth_needed(),
            _ => r matches Step::Done(Err(m)) && m@ == unexpected_reply(),
        },
        ConfigureProvider::Python { job, mode, payload } => match home_reply(reply) {
            None => r matches Step::Done(Err(m)) && m@ == unexpected_reply(),
            Some(Err(summary)) => r matches Step::Done(Err(m)) && m@
                == "Hermes could not resolve Python for provider setup in "@ + job.distro@ + ". "@ + summary,
            Some(Ok(home)) => r matches Step::Next(ConfigureProvider::Write { job: j, mode: md }, req) && j
                == job && md == mode && wsl_req_input(req, job.distro@, write_args(job.runtime, home), payload@),
        },
        ConfigureProvider::Write { job, mode } => match reply {
            Reply::Ran(Ok(_)) => match mode {
                ProviderMode::OpenAiKey => verify_start(job, mode, r),
                ProviderMode::CodexSubscription => r matches Step::Next(
                    ConfigureProvider::AuthStatus { job: j },
                    req,
                ) && j == job && wsl_req(req, job.distro@, hermes_cmd(job.runtime, auth_status_args())),
            },
            Reply::Ran(Err(e)) => r matches Step::Done(Err(m)) && m@ == fail_msg(
                "Hermes provider config could not be written in "@,
                job.distro@,
                e,
            ),
            _ => r matches Step::Done(Err(m)) && m@ == unexpected_reply(),
        },
        ConfigureProvider::AuthStatus { job } => match reply {
            Reply::Ran(Ok(out)) => if contains_seq(unicode_lower(out@), "logged out"@) {
                r matches Step::Done(Err(m)) && m@ == not_authenticated()
            } else {
                verify_start(job, ProviderMode::CodexSubscription, r)
            },
            Reply::Ran(Err(e)) => r matches Step::Done(Err(m)) && m@ == fail_msg(
                "Codex subscription auth could not be checked in "@,
                job.distro@,
                e,
            ),
            _ => r matches Step::Done(Err(m)) && m@ == unexpected_reply(),
        },
        ConfigureProvider::Verify { job, mode } => match reply {
            Reply::Ran(Ok(out)) => r matches Step::Done(Ok(res)) && res.distro == job.distro && res.profile
                == job.profile && res.provider@ == provider_name(mode) && res.model@ == "gpt-5.5"@
                && res.message@ == provider_message(mode) && res.output == out,
            Reply::Ran(Err(e)) => r matches Step::Done(Err(m)) && m@ == fail_msg(
                "Hermes provider was configured, but chat verification failed in "@,
                job.distro@,
                e,
            ),
            _ => r matches Step::Done(Err(m)) && m@ == unexpected_reply(),
        },
    }
}

/// Every provider setup that succeeds uses GPT-5.5, either through the OpenAI
/// provider with the key or through the Codex provider with the subscription, and
/// hands back what the check chat printed.
pub proof fn law_provider_setup_model(s: ConfigureProvider, reply: Reply, r: Step<ConfigureProvider, ConfigureHermesProviderResult>)
    requires
        configure_next(s, reply, r),
    ensures
        r matches Step::Done(Ok(res)) ==> res.model@ == "gpt-5.5"@ && ((res.provider@ == "openai"@
            && res.message@ == "Hermes will use the OS1 OpenAI key with GPT-5.5."@) || (res.provider@
            == "openai-codex"@ && res.message@ == "Hermes will use the Codex subscription provider."@))
            && reply == Reply::Ran(Ok(res.output)),
{
}

/// A Codex login already in `~/.codex/auth.json` is enough: once that file is found,
/// the setup goes on to write the Codex subscription settings (asking for the Linux
/// home that locates the profile's Python), with no further credential test and no
/// error. The profile's own `auth.json` is tested only when that file is missing.
pub proof fn law_codex_login_found(s: ConfigureProvider, reply: Reply, r: Step<ConfigureProvider, ConfigureHermesProviderResult>)
    requires
        configure_next(s, reply, r),
    ensures
        (s is CodexAuth && reply is Ran && reply->Ran_0 is Ok) ==> (r matches Step::Next(
            ConfigureProvider::Python { job, mode, .. },
            req,
        ) && job == s->CodexAuth_job && mode == ProviderMode::CodexSubscription && wsl_req(
            req,
            job.distro@,
            home_args(),
        )),
        r matches Step::Next(ConfigureProvider::ProfileAuth { .. }, _) ==> s is CodexAuth && reply is Ran
            && reply->Ran_0 is Err,
{
}

/// Starts setting up the provider `mode` ("openai-key" or "codex-subscription") of
/// `profile` in `distro`, taken as given.
pub fn configure_hermes_provider_blocking(distro: String, profile: String, mode: String) -> (r: Step<
    ConfigureProvider,
    ConfigureHermesProviderResult,
>)
    ensures
        configure_start(distro@, profile@, mode, r),
        r matches Step::Next(s, _) ==> s.wf(),
{
    let name = match validate_profile_name_for_runtime(profile.as_str()) {
        Ok(n) => n,
        Err(e) => return Step::Done(Err(e)),
    };
    let (probe, req) = resolve_hermes_runtime(distro.as_str(), name.as_str());
    Step::Next(ConfigureProvider::Runtime { distro, profile: name, mode, probe }, req)
}

fn pair_of(a: &str, b: &str) -> (r: (String, String))
    ensures
        r.0@ == a@,
        r.1@ == b@,
{
    (a.to_owned(), b.to_owned())
}

/// The JSON settings for the provider script.
pub fn provider_payload(mode: &ProviderMode, key: &str) -> (r: String)
    ensures
        r@ == json_object_text(provider_fields(*mode, key@)),
{
    let mut fields: Vec<(String, String)> = Vec::new();
    match mode {
        ProviderMode::OpenAiKey => {
            fields.push(pair_of("mode", "openai-key"));
            fields.push(pair_of("apiKey", key));
            fields.push(pair_of("model", "gpt-5.5"));
            fields.push(pair_of("provider", "openai"));
            fields.push(pair_of("baseUrl", "https://api.openai.com/v1"));
        },
        ProviderMode::CodexSubscription => {
            fields.push(pair_of("mode", "codex-subscription"));
            fields.push(pair_of("model", "gpt-5.5"));
            fields.push(pair_of("provider", "openai-codex"));
        },
    }
    assert(fields.deep_view() =~= provider_fields(*mode, key@));
    object_text(&fields)
}

fn start_write(job: ProviderJob, mode: ProviderMode, key: &str) -> (r: Step<ConfigureProvider, ConfigureHermesProviderResult>)
    ensures
        write_start(job, mode, json_object_text(provider_fields(mode, key@)), r),
{
    let payload = provider_payload(&mode, key);
    let req = home_request(job.distro.as_str());
    Step::Next(ConfigureProvider::Python { job, mode, payload }, req)
}

fn hermes_request(job: &ProviderJob, args: Vec<String>) -> (r: Request)
    ensures
        wsl_req(r, job.distro@, hermes_cmd(job.runtime, args.deep_view())),
{
    let a = job.runtime.command_args(args);
    run_wsl_capture_result_owned(job.distro.as_str(), a)
}

/// The chat that checks a configured provider: Hermes is asked to reply with a
/// fixed sentence.
pub fn verify_hermes_chat(distro: &str, runtime: &HermesRuntime) -> (r: Request)
    ensures
        wsl_req(r, distro@, hermes_cmd(*runtime, verify_args())),
{
    let mut args: Vec<String> = Vec::new();
    args.push("chat".to_owned());
    args.push("--quiet".to_owned());
    args.push("--query".to_owned());
    args.push("Reply with exactly: Hermes provider ok".to_owned());
    assert(args.deep_view() =~= verify_args());
    let a = runtime.command_args(args);
    run_wsl_capture_result_owned(distro, a)
}

fn start_verify(job: ProviderJob, mode: ProviderMode) -> (r: Step<ConfigureProvider, ConfigureHermesProviderResult>)
    ensures
        verify_start(job, mode, r),
{
    let req = verify_hermes_chat(job.distro.as_str(), &job.runtime);
    Step::Next(ConfigureProvider::Verify { job, mode }, req)
}

/// The request that writes the provider settings `payload` into the profile, run by
/// the Python of the Hermes checkout under the Linux home `home`.
pub fn write_provider_config(distro: &str, runtime: &HermesRuntime, home: &str, payload: &str) -> (r: Request)
    ensures
        wsl_req_input(r, distro@, write_args(*runtime, home@), payload@),
{
    let mut args = runtime.env_args();
    let mut python = home.to_owned();
    python.append("/.hermes/hermes-agent/venv/bin/python");
    args.push(python);
    args.push("-c".to_owned());
    args.push(PROVIDER_SCRIPT.to_owned());
    assert(args.deep_view() =~= write_args(*runtime, home@));
    run_wsl_capture_with_stdin(distro, args, payload)
}

/// Starts the OpenAI-key setup of a prepared profile: the key is asked for first.
pub fn configure_openai_key_provider(job: ProviderJob) -> (r: Step<ConfigureProvider, ConfigureHermesProviderResult>)
    ensures
        r matches Step::Next(ConfigureProvider::Key { job: j }, Request::OpenAiKey) && j == job,
{
    Step::Next(ConfigureProvider::Key { job }, Request::OpenAiKey)
}

/// Starts the Codex-subscription setup of a prepared profile: the Linux home is asked
/// for first, to look for a Codex login.
pub fn configure_codex_subscription_provider(job: ProviderJob) -> (r: Step<
    ConfigureProvider,
    ConfigureHermesProviderResult,
>)
    ensures
        r matches Step::Next(ConfigureProvider::CodexHome { job: j }, req) && j == job && wsl_req(
            req,
            job.distro@,
            home_args(),
        ),
{
    let req = home_request(job.distro.as_str());
    Step::Next(ConfigureProvider::CodexHome { job }, req)
}

fn dispatch(job: ProviderJob, mode: &str) -> (r: Step<ConfigureProvider, ConfigureHermesProviderResult>)
    ensures
        mode_dispatch(job, mode@, r),
{
    if str_eq(mode, "openai-key") {
        configure_openai_key_provider(job)
    } else if str_eq(mode, "codex-subscription") {
        configure_codex_subscription_provider(job)
    } else {
        Step::Done(Err("Unsupported Hermes provider setup option.".to_owned()))
    }
}

/// Whether what `hermes auth status` printed says the login is gone.
pub fn says_logged_out(output: &str) -> (b: bool)
    ensures
        b == contains_seq(unicode_lower(output@), "logged out"@),
{
    let lower = to_lowercase(output);
    contains_chars(&to_chars(lower.as_str()), &to_chars("logged out"))
}

impl ConfigureProvider {
    /// Takes the setup one reply further.
    pub fn resume(self, reply: Reply) -> (r: Step<ConfigureProvider, ConfigureHermesProviderResult>)
        requires
            self.wf(),
        ensures
            configure_next(self, reply, r),
            r matches Step::Next(s, _) ==> s.wf(),
    {
        match self {
            ConfigureProvider::Runtime { distro, profile, mode, probe } => {
                let ghost p0 = probe;
                let o = probe.resume(reply);
                let ghost og = o;
                let r = match o {
                    Probe::Ask(n, q) => Step::Next(ConfigureProvider::Runtime { distro, profile, mode, probe: n }, q),
                    Probe::Ready(Err(e)) => Step::Done(Err(e)),
                    Probe::Ready(Ok(rt)) => dispatch(ProviderJob { distro, profile, runtime: rt }, mode.as_str()),
                };
                assert(runtime_next(p0, reply, og));
                r
            },
            ConfigureProvider::Key { job } => match reply {
                Reply::Key(k) => match openai_api_key(k) {
                    Ok(key) => start_write(job, ProviderMode::OpenAiKey, key.as_str()),
                    Err(e) => Step::Done(Err(e)),
                },
                _ => Step::Done(Err(unexpected())),
            },
            ConfigureProvider::CodexHome { job } => match home_from_reply(reply) {
                None => Step::Done(Err(unexpected())),
                Some(Err(summary)) => {
                    let mut m = "Hermes could not inspect Codex credentials in ".to_owned();
                    m.append(job.distro.as_str());
                    m.append(". ");
                    m.append(summary.as_str());
                    Step::Done(Err(m))
                },
                Some(Ok(home)) => {
                    let mut p = home;
                    p.append("/.codex/auth.json");
                    let req = test_request(job.distro.as_str(), "-f", p.as_str());
                    Step::Next(ConfigureProvider::CodexAuth { job }, req)
                },
            },
            ConfigureProvider::CodexAuth { job } => match reply {
                Reply::Ran(Ok(_)) => {
                    let r = start_write(job, ProviderMode::CodexSubscription, "");
                    proof {
                        reveal_strlit("");
                    }
                    r
                },
                Reply::Ran(Err(_)) => {
                    let mut p = job.runtime.hermes_home.clone();
                    p.append("/auth.json");
                    let req = test_request(job.distro.as_str(), "-f", p.as_str());
                    Step::Next(ConfigureProvider::ProfileAuth { job }, req)
                },
                _ => Step::Done(Err(unexpected())),
            },
            ConfigureProvider::ProfileAuth { job } => match reply {
                Reply::Ran(Ok(_)) => {
                    let r = start_write(job, ProviderMode::CodexSubscription, "");
                    proof {
                        reveal_strlit("");
                    }
                    r
                },
                Reply::Ran(Err(_)) => Step::Done(
                    Err(
                        "Codex subscription setup needs a one-time ChatGPT OAuth login. OS1 can automate this after we add the device-code screen, or it can import ~/.codex/auth.json when present in WSL.".to_owned(),
                    ),
                ),
                _ => Step::Done(Err(unexpected())),
            },
            ConfigureProvider::Python { job, mode, payload } => match home_from_reply(reply) {
                None => Step::Done(Err(unexpected())),
                Some(Err(summary)) => {
                    let mut m = "Hermes could not resolve Python for provider setup in ".to_owned();
                    m.append(job.distro.as_str());
                    m.append(". ");
                    m.append(summary.as_str());
                    Step::Done(Err(m))
                },
                Some(Ok(home)) => {
                    let req = write_provider_config(
                        job.distro.as_str(),
                        &job.runtime,
                        home.as_str(),
                        payload.as_str(),
                    );
                    Step::Next(ConfigureProvider::Write { job, mode }, req)
                },
            },
            ConfigureProvider::Write { job, mode } => match reply {
                Reply::Ran(Ok(_)) => match mode {
                    ProviderMode::OpenAiKey => start_verify(job, ProviderMode::OpenAiKey),
                    ProviderMode::CodexSubscription => {
                        let mut args: Vec<String> = Vec::new();
                        args.push("auth".to_owned());
                        args.push("status".to_owned());
                        args.push("openai-codex".to_owned());
                        assert(args.deep_view() =~= auth_status_args());
                        let req = hermes_request(&job, args);
                        Step::Next(ConfigureProvider::AuthStatus { job }, req)
                    },
                },
                Reply::Ran(Err(e)) => Step::Done(
                    Err(failure("Hermes provider config could not be written in ", job.distro.as_str(), &e)),
                ),
                _ => Step::Done(Err(unexpected())),
            },
            ConfigureProvider::AuthStatus { job } => match reply {
                Reply::Ran(Ok(out)) => {
                    if says_logged_out(out.as_str()) {
                        Step::Done(
                            Err(
                                "Codex subscription is not authenticated yet. Run the one-time ChatGPT OAuth flow before entering OS1 with this option.".to_owned(),
                            ),
                        )
                    } else {
                        start_verify(job, ProviderMode::CodexSubscription)
                    }
                },
                Reply::Ran(Err(e)) => Step::Done(
                    Err(failure("Codex subscription auth could not be checked in ", job.distro.as_str(), &e)),
                ),
                _ => Step::Done(Err(unexpected())),
            },
            ConfigureProvider::Verify { job, mode } => match reply {
                Reply::Ran(Ok(out)) => {
                    let (provider, message) = match mode {
                        ProviderMode::OpenAiKey => (
                            "openai".to_owned(),
                            "Hermes will use the OS1 OpenAI key with GPT-5.5.".to_owned(),
                        ),
                        ProviderMode::CodexSubscription => (
                            "openai-codex".to_owned(),
                            "Hermes will use the Codex subscription provider.".to_owned(),
                        ),
                    };
                    Step::Done(
                        Ok(
                            ConfigureHermesProviderResult {
                                distro: job.distro,
                                profile: job.profile,
                                provider,
                                model: "gpt-5.5".to_owned(),
                                message,
                                output: out,
                            },
                        ),
                    )
                },
                Reply::Ran(Err(e)) => Step::Done(
                    Err(
                        failure(
                            "Hermes provider was configured, but chat verification failed in ",
                            job.distro.as_str(),
                            &e,
                        ),
                    ),
                ),
                _ => Step::Done(Err(unexpected())),
            },
        }
    }
}

// ---------------------------------------------------------------------------
// Importing the Windows Codex login
/// What the import did.
#[derive(Debug)]
pub struct ImportCodexAuthResult {
    pub distro: String,
    pub message: String,
}

/// Importing the Windows Codex login into a profile.
#[derive(Debug)]
pub enum ImportCodexAuth {
    Setup { setup: Setup },
    Read { prep: Prepared },
    Import { distro: String },
}

impl ImportCodexAuth {
    pub open spec fn wf(self) -> bool {
        match self {
            ImportCodexAuth::Setup { setup } => setup.wf(),
            _ => true,
        }
    }
}

/// The command that imports the login.
pub open spec fn import_args(hermes_home: Seq<char>) -> Seq<Seq<char>> {
    seq!["env"@, "HERMES_HOME"@ + "="@ + hermes_home, "python3"@, "-c"@, IMPORT_SCRIPT@]
}

/// Once the profile is prepared (or not): the login is read next.
pub open spec fn import_after(o: Probe<Setup, Result<Prepared, String>>, r: Step<ImportCodexAuth, ImportCodexAuthResult>) -> bool {
    match o {
        Probe::Ask(n, q) => r matches Step::Next(ImportCodexAuth::Setup { setup: s2 }, q2) && s2 == n && q2 == q,
        Probe::Ready(Err(e)) => r matches Step::Done(Err(m)) && m == e,
        Probe::Ready(Ok(prep)) => r matches Step::Next(ImportCodexAuth::Read { prep: p }, Request::CodexAuth)
            && p == prep,
    }
}

pub open spec fn import_next(s: ImportCodexAuth, reply: Reply, r: Step<ImportCodexAuth, ImportCodexAuthResult>) -> bool {
    match s {
        ImportCodexAuth::Setup { setup } => exists|o: Probe<Setup, Result<Prepared, String>>|
            #[trigger] setup_next(setup, reply, o) && import_after(o, r),
        ImportCodexAuth::Read { prep } => match reply {
            Reply::Auth(Err(e)) => r matches Step::Done(Err(m)) && m == e,
            Reply::Auth(Ok(text)) => if parses_as_json(text@) {
                r matches Step::Next(ImportCodexAuth::Import { distro: d }, req) && d == prep.distro
                    && wsl_req_input(req, prep.distro@, import_args(prep.runtime.hermes_home@), text@)
            } else {
                r matches Step::Done(Err(m)) && m@ == "Codex auth file is not valid JSON."@
            },
            _ => r matches Step::Done(Err(m)) && m@ == unexpected_reply(),
        },
        ImportCodexAuth::Import { distro } => match reply {
            Reply::Ran(Ok(_)) => r matches Step::Done(Ok(res)) && res.distro == distro && res.message@
                == "Imported Windows Codex login into the Hermes profile."@,
            Reply::Ran(Err(e)) => r matches Step::Done(Err(m)) && m@ == fail_msg(
                "Codex auth could not be imported into "@,
                distro@,
                e,
            ),
            _ => r matches Step::Done(Err(m)) && m@ == unexpected_reply(),
        },
    }
}

fn import_continue(o: Probe<Setup, Result<Prepared, String>>) -> (r: Step<ImportCodexAuth, ImportCodexAuthResult>)
    requires
        o matches Probe::Ask(s, _) ==> s.wf(),
    ensures
        import_after(o, r),
        r matches Step::Next(s, _) ==> s.wf(),
{
    match o {
        Probe::Ask(n, q) => Step::Next(ImportCodexAuth::Setup { setup: n }, q),
        Probe::Ready(Err(e)) => Step::Done(Err(e)),
        Probe::Ready(Ok(prep)) => Step::Next(ImportCodexAuth::Read { prep }, Request::CodexAuth),
    }
}

/// Starts importing the Windows Codex login into `profile` in `distro` (the
/// detected distro when `distro` is blank).
pub fn import_codex_auth_to_wsl_blocking(distro: String, profile: String) -> (r: Step<
    ImportCodexAuth,
    ImportCodexAuthResult,
>)
    ensures
        exists|o: Probe<Setup, Result<Prepared, String>>|
            #[trigger] setup_start(Some(distro), profile@, None, o) && import_after(o, r),
        r matches Step::Next(s, _) ==> s.wf(),
{
    let o = prepare_profile(&Some(distro), profile.as_str(), None);
    let ghost og = o;
    let r = import_continue(o);
    assert(setup_start(Some(distro), profile@, None, og));
    r
}

impl ImportCodexAuth {
    /// Takes the import one reply further: the login must be JSON, and the script
    /// gets it on standard input.
    pub fn resume(self, reply: Reply) -> (r: Step<ImportCodexAuth, ImportCodexAuthResult>)
        requires
            self.wf(),
        ensures
            import_next(self, reply, r),
            r matches Step::Next(s, _) ==> s.wf(),
    {
        match self {
            ImportCodexAuth::Setup { setup } => {
                let ghost s0 = setup;
                let o = setup.resume(reply);
                let ghost og = o;
                let r = import_continue(o);
                assert(setup_next(s0, reply, og));
                r
            },
            ImportCodexAuth::Read { prep } => match reply {
                Reply::Auth(Err(e)) => Step::Done(Err(e)),
                Reply::Auth(Ok(text)) => {
                    if !is_valid_json(text.as_str()) {
                        return Step::Done(Err("Codex auth file is not valid JSON.".to_owned()));
                    }
                    let mut args: Vec<String> = Vec::new();
                    args.push("env".to_owned());
                    args.push(assignment("HERMES_HOME", prep.runtime.hermes_home.as_str()));
                    args.push("python3".to_owned());
                    args.push("-c".to_owned());
                    args.push(IMPORT_SCRIPT.to_owned());
                    assert(args.deep_view() =~= import_args(prep.runtime.hermes_home@));
                    let req = run_wsl_capture_with_stdin(prep.distro.as_str(), args, text.as_str());
                    Step::Next(ImportCodexAuth::Import { distro: prep.distro }, req)
                },
                _ => Step::Done(Err(unexpected())),
            },
            ImportCodexAuth::Import { distro } => match reply {
                Reply::Ran(Ok(_)) => Step::Done(
                    Ok(
                        ImportCodexAuthResult {
                            distro,
                            message: "Imported Windows Codex login into the Hermes profile.".to_owned(),
                        },
                    ),
                ),
                Reply::Ran(Err(e)) => Step::Done(
                    Err(failure("Codex auth could not be imported into ", distro.as_str(), &e)),
                ),
                _ => Step::Done(Err(unexpected())),
            },
        }
    }
}

} // verus!
