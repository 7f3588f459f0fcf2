//! Saving the durable memory of a voice session: the vault is made ready, the
//! transcript is summarised by the model, and the summary is appended to the day's
//! note of the vault.
use vstd::prelude::*;
use crate::memory::{
    daily_note_file_name, entry_spec, extract_response_text, first_turns, memory_entry_text,
    memory_summary_prompt, memory_turns_to_text, memory_vault_path, response_text_spec, seed_notes_spec,
    summary_is_durable, summary_prompt, turn_cut_ok, turn_lines, vault_folders, vault_seed_notes,
    MemoryAppendResult, MemorySessionTurn, MemoryVaultStatus, ResponseBody, SeedNote,
};
use crate::profile::{eq_ignore_case, sanitize_profile_slug, sanitize_spec};
use crate::text::{join, opt_view, res_view, trim, trim_str};

verus! {

// ---------------------------------------------------------------------------
// The vault
/// What makes a vault ready: its profile slug, its path as folders from `%APPDATA%`
/// down, the folders it holds and the notes it starts with.
#[derive(Debug)]
pub struct VaultPlan {
    pub slug: String,
    pub parts: Vec<String>,
    pub folders: Vec<String>,
    pub notes: Vec<SeedNote>,
}

/// The slug and the vault path (as folders from `%APPDATA%` down) that a profile gets
/// under `app_data`, or why there is none.
pub open spec fn vault_place_spec(profile: Seq<char>, app_data: Option<Seq<char>>) -> Result<
    (Seq<char>, Seq<Seq<char>>),
    Seq<char>,
> {
    match sanitize_spec(profile) {
        Err(e) => Err(e),
        Ok(slug) => match sanitize_spec(slug) {
            Err(e) => Err(e),
            Ok(folder) => match app_data {
                None => Err("APPDATA is not available for OS1 memory storage."@),
                Some(a) => Ok((slug, seq![a, "OS1"@, "memory"@, folder])),
            },
        },
    }
}

/// The folders of a vault.
pub open spec fn vault_folders_spec() -> Seq<Seq<char>> {
    seq!["days"@, "facts"@, "relationship"@]
}

/// A seed note as plain values: its folder, file name and text.
pub open spec fn note_view(n: SeedNote) -> (Option<Seq<char>>, Seq<char>, Seq<char>) {
    (opt_view(n.folder), n.file@, n.content@)
}

/// `r` is the plan of the vault of `profile` under `app_data`.
pub open spec fn plan_is(r: Result<VaultPlan, String>, profile: Seq<char>, app_data: Option<Seq<char>>) -> bool {
    match vault_place_spec(profile, app_data) {
        Err(e) => r matches Err(m) && m@ == e,
        Ok((slug, parts)) => r matches Ok(plan) && plan.slug@ == slug && plan.parts.deep_view() == parts
            && plan.folders.deep_view() == vault_folders_spec() && seed_notes_spec(plan.notes@),
    }
}

/// The vault of `profile` under `app_data`: the profile's slug, then the vault path of
/// that slug.
pub fn ensure_memory_vault_blocking(profile: &str, app_data: Option<String>) -> (r: Result<VaultPlan, String>)
    ensures
        plan_is(r, profile@, opt_view(app_data)),
{
    let slug = sanitize_profile_slug(profile)?;
    let parts = memory_vault_path(app_data, slug.as_str())?;
    Ok(VaultPlan { slug, parts, folders: vault_folders(), notes: vault_seed_notes() })
}

/// A vault plan depends on the profile and `%APPDATA%` alone: two plans made from the
/// same ones agree in every part. It names each folder once, each seed note once, and
/// puts every seed note in the vault itself or in one of its folders.
pub proof fn law_vault_plan(
    profile: Seq<char>,
    app_data: Option<Seq<char>>,
    r1: Result<VaultPlan, String>,
    r2: Result<VaultPlan, String>,
)
    requires
        plan_is(r1, profile, app_data),
        plan_is(r2, profile, app_data),
    ensures
        match (r1, r2) {
            (Ok(p1), Ok(p2)) => p1.slug@ == p2.slug@ && p1.parts.deep_view() == p2.parts.deep_view()
                && p1.folders.deep_view() == p2.folders.deep_view() && p1.notes@.map_values(
                |n: SeedNote| note_view(n),
            ) == p2.notes@.map_values(|n: SeedNote| note_view(n)),
            (Err(e1), Err(e2)) => e1@ == e2@,
            _ => false,
        },
        vault_folders_spec().no_duplicates(),
        r1 matches Ok(p) ==> forall|i: int, j: int|
            0 <= i < j < p.notes.len() ==> (#[trigger] note_view(p.notes@[i])).0 != (#[trigger] note_view(
                p.notes@[j],
            )).0 || note_view(p.notes@[i]).1 != note_view(p.notes@[j]).1,
        r1 matches Ok(p) ==> forall|i: int|
            0 <= i < p.notes.len() && (#[trigger] opt_view(p.notes@[i].folder)) is Some
                ==> vault_folders_spec().contains(opt_view(p.notes@[i].folder)->Some_0),
{
    reveal_strlit("days");
    reveal_strlit("facts");
    reveal_strlit("relationship");
    reveal_strlit("about-user.md");
    reveal_strlit("preferences.md");
    reveal_strlit("continuity.md");
    reveal_strlit("open-loops.md");
    let f = vault_folders_spec();
    assert(f[0].len() == 4 && f[1].len() == 5 && f[2].len() == 12);
    assert(f.no_duplicates());
    if let (Ok(p1), Ok(p2)) = (r1, r2) {
        assert(p1.notes@.map_values(|n: SeedNote| note_view(n)) =~= p2.notes@.map_values(
            |n: SeedNote| note_view(n),
        ));
    }
    if let Ok(p) = r1 {
        assert(f[1] == "facts"@ && f[2] == "relationship"@);
        assert("about-user.md"@.len() != "preferences.md"@.len());
        assert forall|i: int, j: int| 0 <= i < j < p.notes.len() implies (#[trigger] note_view(p.notes@[i])).0
            != (#[trigger] note_view(p.notes@[j])).0 || note_view(p.notes@[i]).1 != note_view(p.notes@[j]).1 by {
            if i == 0 && j == 1 {
                assert(note_view(p.notes@[i]).1.len() != note_view(p.notes@[j]).1.len());
            }
        }
        assert forall|i: int| 0 <= i < p.notes.len() && (#[trigger] opt_view(p.notes@[i].folder)) is Some
            implies f.contains(opt_view(p.notes@[i].folder)->Some_0) by {
            if i <= 1 {
                assert(f[1] == opt_view(p.notes@[i].folder)->Some_0);
            } else if i == 2 {
                assert(f[2] == opt_view(p.notes@[i].folder)->Some_0);
            }
        }
    }
}

// ---------------------------------------------------------------------------
// The model's answer
/// The summary a model call gives: an HTTP failure reports its status and body, a
/// body that did not parse reports why, and a body without text says so.
pub open spec fn summary_from_spec(
    success: bool,
    status: Seq<char>,
    body_text: Seq<char>,
    parsed: Result<ResponseBody, String>,
) -> Result<Seq<char>, Seq<char>> {
    if !success {
        Err("OpenAI memory summarization returned "@ + status + ": "@ + body_text)
    } else {
        match parsed {
            Err(e) => Err("Could not parse memory summarization response: "@ + e@),
            Ok(b) => match response_text_spec(b) {
                Some(t) => Ok(t),
                None => Err("Memory summarization returned no text."@),
            },
        }
    }
}

/// The summary in the answer of the model, from the HTTP status (`success`, and its
/// text), the body as sent, and the body as parsed.
pub fn memory_summary_from_response(
    success: bool,
    status: &str,
    body_text: &str,
    parsed: Result<ResponseBody, String>,
) -> (r: Result<String, String>)
    ensures
        res_view(r) == summary_from_spec(success, status@, body_text@, parsed),
{
    if !success {
        let mut m = "OpenAI memory summarization returned ".to_owned();
        m.append(status);
        m.append(": ");
        m.append(body_text);
        return Err(m);
    }
    match parsed {
        Err(e) => {
            let mut m = "Could not parse memory summarization response: ".to_owned();
            m.append(e.as_str());
            Err(m)
        },
        Ok(b) => match extract_response_text(&b) {
            Some(t) => Ok(t),
            None => Err("Memory summarization returned no text.".to_owned()),
        },
    }
}

/// The model that summarises memory: the configured one, else `gpt-5.5`.
pub fn memory_model(configured: Option<String>) -> (r: String)
    ensures
        r@ == match configured {
            Some(m) => m@,
            None => "gpt-5.5"@,
        },
{
    match configured {
        Some(m) => m,
        None => "gpt-5.5".to_owned(),
    }
}

// ---------------------------------------------------------------------------
// The session's journal
/// Something the journal needs from the outside world.
#[derive(Debug)]
pub enum JournalRequest {
    /// Ask the model for the durable memory in `prompt`.
    Summarize { prompt: String },
    /// Read the clock: the local date (`YYYY-MM-DD`) and an RFC 3339 timestamp.
    Clock,
    /// Find the note `file_name` in the `days` folder of the vault of `profile`, and
    /// whether it exists.
    Locate { profile: String, file_name: String },
    /// Append `entry` to the file at `path`.
    Append { path: String, entry: String },
}

/// What came back for a journal request.
#[derive(Debug)]
pub enum JournalReply {
    Summary(Result<String, String>),
    Clock(Result<(String, String), String>),
    Located(Result<(String, bool), String>),
    Appended(Result<(), String>),
}

/// Who spoke in the session and in which vault it is kept.
#[derive(Debug)]
pub struct JournalSession {
    pub vault: MemoryVaultStatus,
    pub assistant_name: String,
    pub personality_mode: String,
}

/// Saving a session's memory.
#[derive(Debug)]
pub enum MemoryJournal {
    Summary { session: JournalSession },
    Clock { session: JournalSession, summary: String },
    Locate { session: JournalSession, summary: String, date: String, timestamp: String },
    Append { session: JournalSession, summary: String, path: String },
}

/// Where the journal stands.
#[derive(Debug)]
pub enum JournalStep {
    Next(MemoryJournal, JournalRequest),
    Done(Result<MemoryAppendResult, String>),
}

/// `r` ends without writing, with `summary` and `message`.
pub open spec fn not_written(session: JournalSession, summary: Seq<char>, message: Seq<char>, r: JournalStep) -> bool {
    r matches JournalStep::Done(Ok(res)) && res.profile == session.vault.profile && res.path
        == session.vault.path && !res.written && res.summary@ == summary && res.message@ == message
}

pub open spec fn unexpected_journal_reply() -> Seq<char> {
    "The memory journal got a reply of another kind than its request."@
}

pub open spec fn transcript_of(turns: Seq<MemorySessionTurn>) -> Seq<char> {
    join(turn_lines(first_turns(turns)), "\n"@)
}

pub open spec fn journal_start(
    vault: MemoryVaultStatus,
    assistant_name: String,
    personality_mode: String,
    turns: Seq<MemorySessionTurn>,
    r: JournalStep,
) -> bool {
    let session = JournalSession { vault, assistant_name, personality_mode };
    let transcript = transcript_of(turns);
    if trim(transcript).len() == 0 {
        not_written(session, seq![], "No voice transcript was captured for memory."@, r)
    } else {
        r matches JournalStep::Next(MemoryJournal::Summary { session: s }, JournalRequest::Summarize { prompt })
            && s == session && prompt@ == summary_prompt(assistant_name@, personality_mode@, transcript)
    }
}

pub open spec fn journal_next(s: MemoryJournal, reply: JournalReply, r: JournalStep) -> bool {
    match s {
        MemoryJournal::Summary { session } => match reply {
            JournalReply::Summary(Err(e)) => r matches JournalStep::Done(Err(m)) && m == e,
            JournalReply::Summary(Ok(summary)) => if trim(summary@).len() == 0 || eq_ignore_case(
                trim(summary@),
                "no memory"@,
            ) {
                not_written(session, summary@, "No durable memory was found in this session."@, r)
            } else {
                r matches JournalStep::Next(MemoryJournal::Clock { session: s2, summary: m }, JournalRequest::Clock)
                    && s2 == session && m == summary
            },
            _ => r matches JournalStep::Done(Err(m)) && m@ == unexpected_journal_reply(),
        },
        MemoryJournal::Clock { session, summary } => match reply {
            JournalReply::Clock(Err(e)) => r matches JournalStep::Done(Err(m)) && m == e,
            JournalReply::Clock(Ok((date, timestamp))) => r matches JournalStep::Next(
                MemoryJournal::Locate { session: s2, summary: m, date: d, timestamp: t },
                JournalRequest::Locate { profile, file_name },
            ) && s2 == session && m == summary && d == date && t == timestamp && profile@
                == session.vault.profile@ && file_name@ == date@ + ".md"@,
            _ => r matches JournalStep::Done(Err(m)) && m@ == unexpected_journal_reply(),
        },
        MemoryJournal::Locate { session, summary, date, timestamp } => match reply {
            JournalReply::Located(Err(e)) => r matches JournalStep::Done(Err(m)) && m == e,
            JournalReply::Located(Ok((path, exists))) => r matches JournalStep::Next(
                MemoryJournal::Append { session: s2, summary: m, path: p },
                JournalRequest::Append { path: p2, entry },
            ) && s2 == session && m == summary && p == path && p2@ == path@ && entry@ == entry_spec(
                !exists,
                timestamp@,
                session.assistant_name@,
                session.personality_mode@,
                date@,
                summary@,
            ),
            _ => r matches JournalStep::Done(Err(m)) && m@ == unexpected_journal_reply(),
        },
        MemoryJournal::Append { session, summary, path } => match reply {
            JournalReply::Appended(Err(e)) => r matches JournalStep::Done(Err(m)) && m == e,
            JournalReply::Appended(Ok(())) => r matches JournalStep::Done(Ok(res)) && res.profile
                == session.vault.profile && res.path == path && res.written && res.summary == summary
                && res.message@ == "Voice memory summary saved."@,
            _ => r matches JournalStep::Done(Err(m)) && m@ == unexpected_journal_reply(),
        },
    }
}

fn unexpected_journal() -> (r: String)
    ensures
        r@ == unexpected_journal_reply(),
{
    "The memory journal got a reply of another kind than its request.".to_owned()
}

fn skipped(session: JournalSession, summary: String, message: &str) -> (r: JournalStep)
    ensures
        not_written(session, summary@, message@, r),
{
    JournalStep::Done(
        Ok(
            MemoryAppendResult {
                profile: session.vault.profile,
                path: session.vault.path,
                written: false,
                summary,
                message: message.to_owned(),
            },
        ),
    )
}

/// Starts saving the memory of a session whose vault is ready: the transcript (the
/// first 120 turns) is summarised unless it is blank.
pub fn summarize_and_append_memory_async(
    vault: MemoryVaultStatus,
    assistant_name: String,
    personality_mode: String,
    turns: &Vec<MemorySessionTurn>,
) -> (r: JournalStep)
    requires
        forall|i: int| 0 <= i < first_turns(turns@).len() ==> turn_cut_ok(#[trigger] first_turns(turns@)[i]),
    ensures
        journal_start(vault, assistant_name, personality_mode, turns@, r),
{
    let useful = memory_turns_to_text(turns);
    let t = trim_str(useful.as_str());
    let session = JournalSession { vault, assistant_name, personality_mode };
    if t.unicode_len() == 0 {
        let r = skipped(session, String::new(), "No voice transcript was captured for memory.");
        proof {
            reveal_strlit("");
        }
        return r;
    }
    let prompt = memory_summary_prompt(
        session.assistant_name.as_str(),
        session.personality_mode.as_str(),
        useful.as_str(),
    );
    JournalStep::Next(MemoryJournal::Summary { session }, JournalRequest::Summarize { prompt })
}

impl MemoryJournal {
    /// Takes the journal one reply further.
    pub fn resume(self, reply: JournalReply) -> (r: JournalStep)
        ensures
            journal_next(self, reply, r),
    {
        match self {
            MemoryJournal::Summary { session } => match reply {
                JournalReply::Summary(Err(e)) => JournalStep::Done(Err(e)),
                JournalReply::Summary(Ok(summary)) => {
                    if !summary_is_durable(summary.as_str()) {
                        skipped(session, summary, "No durable memory was found in this session.")
                    } else {
                        JournalStep::Next(MemoryJournal::Clock { session, summary }, JournalRequest::Clock)
                    }
                },
                _ => JournalStep::Done(Err(unexpected_journal())),
            },
            MemoryJournal::Clock { session, summary } => match reply {
                JournalReply::Clock(Err(e)) => JournalStep::Done(Err(e)),
                JournalReply::Clock(Ok((date, timestamp))) => {
                    let file_name = daily_note_file_name(date.as_str());
                    let profile = session.vault.profile.clone();
                    JournalStep::Next(
                        MemoryJournal::Locate { session, summary, date, timestamp },
                        JournalRequest::Locate { profile, file_name },
                    )
                },
                _ => JournalStep::Done(Err(unexpected_journal())),
            },
            MemoryJournal::Locate { session, summary, date, timestamp } => match reply {
                JournalReply::Located(Err(e)) => JournalStep::Done(Err(e)),
                JournalReply::Located(Ok((path, exists))) => {
                    let entry = memory_entry_text(
                        !exists,
                        timestamp.as_str(),
                        session.assistant_name.as_str(),
                        session.personality_mode.as_str(),
                        date.as_str(),
                        summary.as_str(),
                    );
                    let p2 = path.clone();
                    JournalStep::Next(
                        MemoryJournal::Append { session, summary, path },
                        JournalRequest::Append { path: p2, entry },
                    )
                },
                _ => JournalStep::Done(Err(unexpected_journal())),
            },
            MemoryJournal::Append { session, summary, path } => match reply {
                JournalReply::Appended(Err(e)) => JournalStep::Done(Err(e)),
                JournalReply::Appended(Ok(())) => JournalStep::Done(
                    Ok(
                        MemoryAppendResult {
                            profile: session.vault.profile,
                            path,
                            written: true,
                            summary,
                            message: "Voice memory summary saved.".to_owned(),
                        },
                    ),
                ),
                _ => JournalStep::Done(Err(unexpected_journal())),
            },
        }
    }
}

} // verus!
