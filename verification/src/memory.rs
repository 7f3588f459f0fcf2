//! The memory vault: where it lives, which notes feed the context of a voice
//! session, and how a session's summary is written down.
use vstd::prelude::*;
use vstd::string::StringSliceAdditionalSpecFns;
use vstd::utf8::{decode_utf8, encode_utf8, encode_utf8_decode_utf8, is_char_boundary};
use crate::catalog::{lemma_text_lt_irreflexive, lemma_text_lt_transitive, text_less, text_lt};
use crate::output::{cap_memory_context, cap_spec};
use crate::profile::{eq_ignore_case, lower_str, sanitize_profile_slug, sanitize_spec};
use crate::text::{
    join, join_strings, opt_view, to_chars, trim,
    trim_str,
};

verus! {

/// The path of a profile's memory vault, as the folders from `%APPDATA%` down:
/// `APPDATA`, `OS1`, `memory`, then the profile's slug.
pub fn memory_vault_path(app_data: Option<String>, profile: &str) -> (r: Result<Vec<String>, String>)
    ensures
        match sanitize_spec(profile@) {
            Err(e) => r matches Err(m) && m@ == e,
            Ok(slug) => match app_data {
                None => r matches Err(m) && m@ == "APPDATA is not available for OS1 memory storage."@,
                Some(a) => r matches Ok(parts) && parts.deep_view() == seq![a@, "OS1"@, "memory"@, slug],
            },
        },
{
    let slug = sanitize_profile_slug(profile)?;
    let root = match app_data {
        Some(a) => a,
        None => return Err("APPDATA is not available for OS1 memory storage.".to_owned()),
    };
    let mut parts: Vec<String> = Vec::new();
    parts.push(root);
    parts.push("OS1".to_owned());
    parts.push("memory".to_owned());
    parts.push(slug);
    assert(parts.deep_view() =~= seq![parts@[0]@, "OS1"@, "memory"@, parts@[3]@]);
    Ok(parts)
}

/// A note of the vault that is made when it is missing: folder, file name, first text.
#[derive(Debug)]
pub struct SeedNote {
    pub folder: Option<String>,
    pub file: String,
    pub content: String,
}

fn seed(folder: Option<&str>, file: &str, content: &str) -> (r: SeedNote)
    ensures
        opt_view(r.folder) == match folder {
            Some(f) => Some(f@),
            None => None,
        },
        r.file@ == file@,
        r.content@ == content@,
{
    SeedNote {
        folder: match folder {
            Some(f) => Some(f.to_owned()),
            None => None,
        },
        file: file.to_owned(),
        content: content.to_owned(),
    }
}

/// The folders of a vault.
pub fn vault_folders() -> (r: Vec<String>)
    ensures
        r.deep_view() == seq!["days"@, "facts"@, "relationship"@],
{
    let mut r: Vec<String> = Vec::new();
    r.push("days".to_owned());
    r.push("facts".to_owned());
    r.push("relationship".to_owned());
    assert(r.deep_view() =~= seq!["days"@, "facts"@, "relationship"@]);
    r
}

/// The notes a vault starts with, in the order they are made: where each goes, its
/// file name and its first text.
pub open spec fn seed_notes_spec(r: Seq<SeedNote>) -> bool {
    &&& r.len() == 4
    &&& opt_view(r[0].folder) == Some("facts"@) && r[0].file@ == "about-user.md"@ && r[0].content@
        == "# About User\n\nNo stable facts saved yet.\n"@
    &&& opt_view(r[1].folder) == Some("facts"@) && r[1].file@ == "preferences.md"@ && r[1].content@
        == "# Preferences\n\nNo stable preferences saved yet.\n"@
    &&& opt_view(r[2].folder) == Some("relationship"@) && r[2].file@ == "continuity.md"@
        && r[2].content@ == "# Relationship Continuity\n\nNo relationship continuity saved yet.\n"@
    &&& r[3].folder is None && r[3].file@ == "open-loops.md"@ && r[3].content@
        == "# Open Loops\n\nNo open loops saved yet.\n"@
}

/// The notes a vault starts with, in the order they are made.
pub fn vault_seed_notes() -> (r: Vec<SeedNote>)
    ensures
        seed_notes_spec(r@),
{
    let mut r: Vec<SeedNote> = Vec::new();
    r.push(seed(Some("facts"), "about-user.md", "# About User\n\nNo stable facts saved yet.\n"));
    r.push(
        seed(Some("facts"), "preferences.md", "# Preferences\n\nNo stable preferences saved yet.\n"),
    );
    r.push(
        seed(
            Some("relationship"),
            "continuity.md",
            "# Relationship Continuity\n\nNo relationship continuity saved yet.\n",
        ),
    );
    r.push(seed(None, "open-loops.md", "# Open Loops\n\nNo open loops saved yet.\n"));
    r
}

/// The state of a profile's vault.
#[derive(Debug)]
pub struct MemoryVaultStatus {
    pub profile: String,
    pub path: String,
    pub ready: bool,
    pub message: String,
}

/// The status of a vault whose folders and notes are in place.
pub fn vault_ready(slug: String, path: String) -> (r: MemoryVaultStatus)
    ensures
        r.profile == slug,
        r.path == path,
        r.ready,
        r.message@ == "OS1 memory vault is ready."@,
{
    MemoryVaultStatus { profile: slug, path, ready: true, message: "OS1 memory vault is ready.".to_owned() }
}

// ---------------------------------------------------------------------------
// Context for a session
/// Whether `p` occurs in `s`.
pub open spec fn contains_seq(s: Seq<char>, p: Seq<char>) -> bool {
    exists|i: int| 0 <= i && i + p.len() <= s.len() && #[trigger] s.subrange(i, i + p.len()) == p
}

/// Whether `p` occurs in `s`.
pub fn contains_chars(s: &Vec<char>, p: &Vec<char>) -> (b: bool)
    ensures
        b == contains_seq(s@, p@),
{
    if p.len() > s.len() {
        return false;
    }
    let mut i: usize = 0;
    while i <= s.len() - p.len()
        invariant
            p.len() <= s.len(),
            i <= s.len() - p.len() + 1,
            forall|k: int| 0 <= k < i ==> #[trigger] s@.subrange(k, k + p.len()) != p@,
        decreases s.len() - i,
    {
        let mut j: usize = 0;
        let mut same = true;
        while j < p.len()
            invariant
                i + p.len() <= s.len(),
                j <= p.len(),
                same == (forall|m: int| 0 <= m < j ==> s@[i + m] == p@[m]),
            decreases p.len() - j,
        {
            if s[i + j] != p[j] {
                same = false;
            }
            j = j + 1;
        }
        if same {
            assert(s@.subrange(i as int, i + p.len()) =~= p@);
            return true;
        } else {
            proof {
                let m = choose|m: int| 0 <= m < p.len() && s@[i + m] != p@[m];
                assert(s@.subrange(i as int, i + p.len())[m] != p@[m]);
            }
        }
        i = i + 1;
    }
    false
}

/// A note's text is worth reading when, trimmed, it is not empty and holds neither
/// "No stable" nor "No open loops" (the texts of untouched notes).
pub open spec fn useful_note(content: Seq<char>) -> Option<Seq<char>> {
    let t = trim(content);
    if t.len() == 0 || contains_seq(t, "No stable"@) || contains_seq(t, "No open loops"@) {
        None
    } else {
        Some(t)
    }
}

/// The trimmed text of a note, when it is worth reading.
pub fn memory_file_if_useful(content: &str) -> (r: Option<String>)
    ensures
        opt_view(r) == useful_note(content@),
{
    let t = trim_str(content);
    let v = to_chars(t.as_str());
    let a = to_chars("No stable");
    let b = to_chars("No open loops");
    if v.len() == 0 || contains_chars(&v, &a) || contains_chars(&v, &b) {
        None
    } else {
        Some(t)
    }
}

/// Whether a file name has the extension `md` (as `Path::extension` reads it: the
/// text after the last dot, when that dot is not the first character).
pub open spec fn md_note(n: Seq<char>) -> bool {
    n.len() > 3 && n.skip(n.len() - 3) == ".md"@
}

/// The names that are Markdown notes, in order.
pub open spec fn md_notes(ns: Seq<Seq<char>>) -> Seq<Seq<char>>
    decreases ns.len(),
{
    if ns.len() == 0 {
        seq![]
    } else {
        md_notes(ns.drop_last()) + if md_note(ns.last()) {
            seq![ns.last()]
        } else {
            seq![]
        }
    }
}

/// Where `x` goes among `t`, sorted newest first: before the first name that comes
/// before it.
pub open spec fn desc_pos(t: Seq<Seq<char>>, x: Seq<char>) -> int
    decreases t.len(),
{
    if t.len() == 0 {
        0
    } else if text_lt(t[0], x) {
        0
    } else {
        1 + desc_pos(t.drop_first(), x)
    }
}

pub open spec fn insert_desc(t: Seq<Seq<char>>, x: Seq<char>) -> Seq<Seq<char>> {
    t.take(desc_pos(t, x)).push(x) + t.skip(desc_pos(t, x))
}

/// Names sorted from last to first (a stable sort).
pub open spec fn sort_desc(s: Seq<Seq<char>>) -> Seq<Seq<char>>
    decreases s.len(),
{
    if s.len() == 0 {
        seq![]
    } else {
        insert_desc(sort_desc(s.drop_last()), s.last())
    }
}

/// The latest `limit` daily notes among the names of a folder's entries.
pub open spec fn latest_notes(ns: Seq<Seq<char>>, limit: nat) -> Seq<Seq<char>> {
    let s = sort_desc(md_notes(ns));
    if s.len() > limit {
        s.take(limit as int)
    } else {
        s
    }
}

proof fn lemma_desc_pos(t: Seq<Seq<char>>, x: Seq<char>, j: int)
    requires
        0 <= j <= t.len(),
        forall|k: int| 0 <= k < j ==> !text_lt(#[trigger] t[k], x),
        j == t.len() || text_lt(t[j], x),
    ensures
        desc_pos(t, x) == j,
    decreases j,
{
    if j > 0 {
        assert(!text_lt(t[0], x));
        let u = t.drop_first();
        assert forall|k: int| 0 <= k < j - 1 implies !text_lt(#[trigger] u[k], x) by {
            assert(u[k] == t[k + 1]);
        }
        lemma_desc_pos(u, x, j - 1);
    }
}

/// Whether names run from last to first.
pub open spec fn names_desc(s: Seq<Seq<char>>) -> bool {
    forall|i: int, j: int| 0 <= i < j < s.len() ==> !text_lt(#[trigger] s[i], #[trigger] s[j])
}

proof fn lemma_desc_pos_props(t: Seq<Seq<char>>, x: Seq<char>)
    ensures
        0 <= desc_pos(t, x) <= t.len(),
        forall|k: int| 0 <= k < desc_pos(t, x) ==> !text_lt(#[trigger] t[k], x),
        desc_pos(t, x) < t.len() ==> text_lt(t[desc_pos(t, x)], x),
    decreases t.len(),
{
    if t.len() > 0 && !text_lt(t[0], x) {
        let u = t.drop_first();
        lemma_desc_pos_props(u, x);
        assert forall|k: int| 0 <= k < desc_pos(t, x) implies !text_lt(#[trigger] t[k], x) by {
            if k > 0 {
                assert(t[k] == u[k - 1]);
            }
        }
    }
}

proof fn lemma_insert_desc(t: Seq<Seq<char>>, x: Seq<char>)
    requires
        names_desc(t),
    ensures
        names_desc(insert_desc(t, x)),
        insert_desc(t, x).to_multiset() == t.to_multiset().insert(x),
{
    let p = desc_pos(t, x);
    lemma_desc_pos_props(t, x);
    let r = insert_desc(t, x);
    assert(r =~= t.insert(p, x));
    vstd::seq_lib::to_multiset_insert(t, p, x);
    assert forall|i: int, j: int| 0 <= i < j < r.len() implies !text_lt(#[trigger] r[i], #[trigger] r[j]) by {
        if j < p {
            assert(r[i] == t[i] && r[j] == t[j]);
        } else if j == p {
            assert(r[j] == x && r[i] == t[i]);
        } else if i == p {
            assert(r[i] == x && r[j] == t[j - 1]);
            if text_lt(x, t[j - 1]) {
                if j - 1 > p {
                    assert(!text_lt(t[p], t[j - 1]));
                    lemma_text_lt_transitive(t[p], x, t[j - 1]);
                } else {
                    lemma_text_lt_transitive(x, t[p], x);
                    lemma_text_lt_irreflexive(x);
                }
            }
        } else if i < p {
            assert(r[i] == t[i] && r[j] == t[j - 1]);
        } else {
            assert(r[i] == t[i - 1] && r[j] == t[j - 1]);
        }
    }
}

proof fn lemma_sort_desc(s: Seq<Seq<char>>)
    ensures
        names_desc(sort_desc(s)),
        sort_desc(s).to_multiset() == s.to_multiset(),
    decreases s.len(),
{
    broadcast use vstd::seq_lib::group_to_multiset_ensures;
    if s.len() == 0 {
        assert(s.to_multiset() =~= vstd::multiset::Multiset::<Seq<char>>::empty());
        assert(sort_desc(s).to_multiset() =~= vstd::multiset::Multiset::<Seq<char>>::empty());
    } else {
        lemma_sort_desc(s.drop_last());
        lemma_insert_desc(sort_desc(s.drop_last()), s.last());
        assert(s.drop_last().push(s.last()) =~= s);
    }
}

proof fn lemma_md_notes(ns: Seq<Seq<char>>)
    ensures
        md_notes(ns).len() <= ns.len(),
        forall|k: int| 0 <= k < md_notes(ns).len() ==> md_note(#[trigger] md_notes(ns)[k]) && ns.contains(
            md_notes(ns)[k],
        ),
    decreases ns.len(),
{
    if ns.len() > 0 {
        let d = ns.drop_last();
        lemma_md_notes(d);
        assert forall|k: int| 0 <= k < md_notes(ns).len() implies md_note(#[trigger] md_notes(ns)[k])
            && ns.contains(md_notes(ns)[k]) by {
            if k < md_notes(d).len() {
                assert(md_notes(ns)[k] == md_notes(d)[k]);
                let w = choose|w: int| 0 <= w < d.len() && d[w] == md_notes(d)[k];
                assert(ns[w] == d[w]);
            } else {
                assert(md_notes(ns)[k] == ns.last());
                assert(ns[ns.len() - 1] == ns.last());
            }
        }
    }
}

/// The daily notes read for a session run from newest to oldest, are Markdown notes
/// found in the folder, and number the folder's notes up to the limit.
pub proof fn law_latest_notes(ns: Seq<Seq<char>>, limit: nat)
    ensures
        names_desc(latest_notes(ns, limit)),
        latest_notes(ns, limit).len() == (if md_notes(ns).len() > limit {
            limit as int
        } else {
            md_notes(ns).len() as int
        }),
        forall|i: int| 0 <= i < latest_notes(ns, limit).len() ==> md_note(#[trigger] latest_notes(ns, limit)[i])
            && ns.contains(latest_notes(ns, limit)[i]),
{
    broadcast use vstd::seq_lib::group_to_multiset_ensures;
    let m = md_notes(ns);
    let s = sort_desc(m);
    let r = latest_notes(ns, limit);
    lemma_sort_desc(m);
    lemma_md_notes(ns);
    assert(s.len() == m.len()) by {
        assert(s.to_multiset().len() == m.to_multiset().len());
    }
    assert forall|i: int| 0 <= i < r.len() implies md_note(#[trigger] r[i]) && ns.contains(r[i]) by {
        assert(r[i] == s[i]);
        assert(s.contains(s[i]));
        assert(s.to_multiset().count(s[i]) > 0);
        assert(m.to_multiset().count(s[i]) > 0);
        assert(m.contains(s[i]));
        let k = choose|k: int| 0 <= k < m.len() && m[k] == s[i];
        assert(md_note(m[k]) && ns.contains(m[k]));
    }
    assert forall|i: int, j: int| 0 <= i < j < r.len() implies !text_lt(#[trigger] r[i], #[trigger] r[j]) by {
        assert(r[i] == s[i] && r[j] == s[j]);
    }
}

/// Whether a file name is a Markdown note.
pub fn is_md_note(n: &str) -> (b: bool)
    ensures
        b == md_note(n@),
{
    let v = to_chars(n);
    if v.len() <= 3 {
        return false;
    }
    let k = v.len() - 3;
    let r = v[k] == '.' && v[k + 1] == 'm' && v[k + 2] == 'd';
    proof {
        reveal_strlit(".md");
        if r {
            assert(n@.skip(n@.len() - 3) =~= ".md"@);
        } else {
            if n@.skip(n@.len() - 3) == ".md"@ {
                assert(n@.skip(n@.len() - 3)[0] == n@[k as int]);
                assert(n@.skip(n@.len() - 3)[1] == n@[k + 1]);
                assert(n@.skip(n@.len() - 3)[2] == n@[k + 2]);
            }
        }
    }
    r
}

/// The daily notes to read for a session: the names of the entries of the `days`
/// folder that are Markdown notes, newest (greatest name) first, at most `limit`.
pub fn latest_daily_memory_paths(names: &Vec<String>, limit: usize) -> (r: Vec<String>)
    ensures
        r.deep_view() == latest_notes(names.deep_view(), limit as nat),
{
    let ghost ns = names.deep_view();
    let mut out: Vec<String> = Vec::new();
    let mut i: usize = 0;
    while i < names.len()
        invariant
            i <= names.len(),
            ns == names.deep_view(),
            out.deep_view() == sort_desc(md_notes(ns.take(i as int))),
        decreases names.len() - i,
    {
        let x = names[i].clone();
        assert(ns.take(i + 1).drop_last() =~= ns.take(i as int));
        assert(ns.take(i + 1).last() == x@);
        if is_md_note(x.as_str()) {
            let ghost t = out.deep_view();
            let xv = to_chars(x.as_str());
            let mut j: usize = 0;
            while j < out.len() && !text_less(&to_chars(out[j].as_str()), &xv)
                invariant
                    j <= out.len(),
                    t == out.deep_view(),
                    xv@ == x@,
                    forall|k: int| 0 <= k < j ==> !text_lt(#[trigger] t[k], x@),
                decreases out.len() - j,
            {
                j = j + 1;
            }
            proof {
                lemma_desc_pos(t, x@, j as int);
            }
            let ghost xs = x@;
            out.insert(j, x);
            assert(out.deep_view() =~= insert_desc(t, xs));
            assert(md_notes(ns.take(i + 1)) =~= md_notes(ns.take(i as int)).push(xs));
            assert(md_notes(ns.take(i as int)).push(xs).drop_last() =~= md_notes(ns.take(i as int)));
        } else {
            assert(md_notes(ns.take(i + 1)) =~= md_notes(ns.take(i as int)));
        }
        i = i + 1;
    }
    assert(ns.take(names.len() as int) =~= ns);
    if out.len() > limit {
        out.truncate(limit);
        assert(out.deep_view() =~= sort_desc(md_notes(ns)).take(limit as int));
    }
    out
}

/// One daily note: its file name (when it has one) and its text (when it could be read).
#[derive(Debug)]
pub struct DailyNote {
    pub file_name: Option<String>,
    pub content: Option<String>,
}

/// What was read from a vault for the context of a session.
#[derive(Debug)]
pub struct MemorySources {
    pub about_user: Option<String>,
    pub preferences: Option<String>,
    pub continuity: Option<String>,
    pub open_loops: Option<String>,
    pub days: Vec<DailyNote>,
}

pub open spec fn useful_opt(content: Option<String>) -> Option<Seq<char>> {
    match content {
        Some(c) => useful_note(c@),
        None => None,
    }
}

/// The section a note adds to the context, if any.
pub open spec fn section_spec(title: Seq<char>, content: Option<String>) -> Seq<Seq<char>> {
    match useful_opt(content) {
        Some(t) => seq!["## "@ + title + "\n\n"@ + trim(t)],
        None => seq![],
    }
}

pub open spec fn daily_title(d: DailyNote) -> Seq<char> {
    "Recent Memory: "@ + match d.file_name {
        Some(n) => n@,
        None => "daily-memory"@,
    }
}

pub open spec fn daily_sections(days: Seq<DailyNote>) -> Seq<Seq<char>>
    decreases days.len(),
{
    if days.len() == 0 {
        seq![]
    } else {
        daily_sections(days.drop_last()) + section_spec(daily_title(days.last()), days.last().content)
    }
}

/// The sections of the context: the four fixed notes, then the daily notes.
pub open spec fn context_sections(src: MemorySources) -> Seq<Seq<char>> {
    section_spec("About User"@, src.about_user) + section_spec("Preferences"@, src.preferences)
        + section_spec("Relationship Continuity"@, src.continuity) + section_spec(
        "Open Loops"@,
        src.open_loops,
    ) + daily_sections(src.days@)
}

/// Each fixed note of the vault appears in the context under its own title: when a
/// note is useful, the context's sections hold `## <title>` followed by that note's
/// text, for the titles About User, Preferences, Relationship Continuity and Open
/// Loops of `about_user`, `preferences`, `continuity` and `open_loops`; a note that is
/// missing or not useful adds no section, so the fixed notes give at most four.
pub proof fn law_context_titles(src: MemorySources)
    ensures
        useful_opt(src.about_user) matches Some(t) ==> context_sections(src).contains(
            "## About User\n\n"@ + trim(t),
        ),
        useful_opt(src.preferences) matches Some(t) ==> context_sections(src).contains(
            "## Preferences\n\n"@ + trim(t),
        ),
        useful_opt(src.continuity) matches Some(t) ==> context_sections(src).contains(
            "## Relationship Continuity\n\n"@ + trim(t),
        ),
        useful_opt(src.open_loops) matches Some(t) ==> context_sections(src).contains(
            "## Open Loops\n\n"@ + trim(t),
        ),
        context_sections(src).len() == (if useful_opt(src.about_user) is Some { 1int } else { 0 }) + (if useful_opt(
            src.preferences,
        ) is Some {
            1int
        } else {
            0
        }) + (if useful_opt(src.continuity) is Some {
            1int
        } else {
            0
        }) + (if useful_opt(src.open_loops) is Some {
            1int
        } else {
            0
        }) + daily_sections(src.days@).len(),
{
    reveal_strlit("## ");
    reveal_strlit("\n\n");
    reveal_strlit("## About User\n\n");
    reveal_strlit("## Preferences\n\n");
    reveal_strlit("## Relationship Continuity\n\n");
    reveal_strlit("## Open Loops\n\n");
    reveal_strlit("About User");
    reveal_strlit("Preferences");
    reveal_strlit("Relationship Continuity");
    reveal_strlit("Open Loops");
    let a = section_spec("About User"@, src.about_user);
    let b = section_spec("Preferences"@, src.preferences);
    let c = section_spec("Relationship Continuity"@, src.continuity);
    let d = section_spec("Open Loops"@, src.open_loops);
    let all = context_sections(src);
    assert(all == a + b + c + d + daily_sections(src.days@));
    if let Some(t) = useful_opt(src.about_user) {
        assert("## "@ + "About User"@ + "\n\n"@ + trim(t) =~= "## About User\n\n"@ + trim(t));
        assert(all[0] == a[0]);
    }
    if let Some(t) = useful_opt(src.preferences) {
        assert("## "@ + "Preferences"@ + "\n\n"@ + trim(t) =~= "## Preferences\n\n"@ + trim(t));
        assert(all[a.len() as int] == b[0]);
    }
    if let Some(t) = useful_opt(src.continuity) {
        assert("## "@ + "Relationship Continuity"@ + "\n\n"@ + trim(t) =~= "## Relationship Continuity\n\n"@ + trim(t));
        assert(all[(a.len() + b.len()) as int] == c[0]);
    }
    if let Some(t) = useful_opt(src.open_loops) {
        assert("## "@ + "Open Loops"@ + "\n\n"@ + trim(t) =~= "## Open Loops\n\n"@ + trim(t));
        assert(all[(a.len() + b.len() + c.len()) as int] == d[0]);
    }
}

/// What a session starts from.
#[derive(Debug)]
pub struct MemoryContextResult {
    pub profile: String,
    pub path: String,
    pub context: String,
    pub source_count: usize,
    pub truncated: bool,
}

fn add_section(sections: &mut Vec<String>, title: &str, content: &Option<String>)
    ensures
        final(sections).deep_view() == old(sections).deep_view() + section_spec(title@, *content),
{
    let ghost before = sections.deep_view();
    if let Some(c) = content {
        if let Some(t) = memory_file_if_useful(c.as_str()) {
            let mut s = "## ".to_owned();
            s.append(title);
            s.append("\n\n");
            let tt = trim_str(t.as_str());
            s.append(tt.as_str());
            sections.push(s);
        }
    }
    assert(sections.deep_view() =~= before + section_spec(title@, *content));
}

/// The context of a session: a section per useful note (the four fixed ones, then the
/// daily notes in the order given), joined by blank lines and capped at 8000
/// characters; the count says how many notes it drew on.
pub fn read_memory_context_blocking(vault: MemoryVaultStatus, sources: &MemorySources) -> (r:
    MemoryContextResult)
    requires
        sources.days.len() < usize::MAX - 4,
    ensures
        r.profile == vault.profile,
        r.path == vault.path,
        r.source_count == context_sections(*sources).len(),
        (r.context@, r.truncated) == cap_spec(join(context_sections(*sources), "\n\n"@), 8000),
{
    let mut sections: Vec<String> = Vec::new();
    add_section(&mut sections, "About User", &sources.about_user);
    add_section(&mut sections, "Preferences", &sources.preferences);
    add_section(&mut sections, "Relationship Continuity", &sources.continuity);
    add_section(&mut sections, "Open Loops", &sources.open_loops);
    let ghost fixed = sections.deep_view();
    let mut i: usize = 0;
    while i < sources.days.len()
        invariant
            i <= sources.days.len() < usize::MAX - 4,
            sections.deep_view() == fixed + daily_sections(sources.days@.take(i as int)),
            sections.len() <= 4 + i,
            fixed.len() <= 4,
        decreases sources.days.len() - i,
    {
        let d = &sources.days[i];
        let mut title = "Recent Memory: ".to_owned();
        match &d.file_name {
            Some(n) => title.append(n.as_str()),
            None => title.append("daily-memory"),
        }
        assert(sources.days@.take(i + 1).drop_last() =~= sources.days@.take(i as int));
        let ghost before = sections.deep_view();
        add_section(&mut sections, title.as_str(), &d.content);
        assert(sections.deep_view() =~= fixed + daily_sections(sources.days@.take(i + 1)));
        i = i + 1;
    }
    assert(sources.days@.take(sources.days.len() as int) =~= sources.days@);
    let combined = join_strings(&sections, "\n\n");
    let (context, truncated) = cap_memory_context(combined.as_str(), 8000);
    MemoryContextResult {
        profile: vault.profile,
        path: vault.path,
        context,
        source_count: sections.len(),
        truncated,
    }
}

// ---------------------------------------------------------------------------
// Transcripts
/// A turn of a voice session; a tool's input and output are held as JSON text.
#[derive(Debug)]
pub enum MemorySessionTurn {
    User { text: String, at: String, item_id: Option<String> },
    Assistant {
        text: String,
        at: String,
        item_id: Option<String>,
        response_id: Option<String>,
    },
    Tool { name: String, input: String, output: String, at: String, call_id: Option<String> },
}

/// JSON text cut to its first 900 bytes, with `...` after it, when it is longer.
pub open spec fn compact_json_spec(text: Seq<char>) -> Seq<char> {
    let b = encode_utf8(text);
    if b.len() > 900 {
        decode_utf8(b.take(900)) + "..."@
    } else {
        text
    }
}

/// Whether the cut of `compact_json` falls between characters (it panics otherwise);
/// the text's byte length fits in memory.
pub open spec fn cut_ok(text: Seq<char>) -> bool {
    &&& encode_utf8(text).len() <= usize::MAX
    &&& encode_utf8(text).len() > 900 ==> is_char_boundary(encode_utf8(text), 900)
}

/// JSON text of a tool call, cut to 900 bytes.
pub fn compact_json(text: &str) -> (r: String)
    requires
        cut_ok(text@),
    ensures
        r@ == compact_json_spec(text@),
{
    if text.len() > 900 {
        let (head, _) = text.split_at(900);
        proof {
            encode_utf8_decode_utf8(head@);
            assert(head.spec_bytes() =~= encode_utf8(text@).take(900));
            assert(head@ == decode_utf8(encode_utf8(text@).take(900)));
        }
        let mut r = head.to_owned();
        r.append("...");
        r
    } else {
        text.to_owned()
    }
}

/// The transcript line of a turn, if it gives one.
pub open spec fn turn_line(t: MemorySessionTurn) -> Option<Seq<char>> {
    match t {
        MemorySessionTurn::User { text, .. } => if trim(text@).len() > 0 {
            Some("User: "@ + trim(text@))
        } else {
            None
        },
        MemorySessionTurn::Assistant { text, .. } => if trim(text@).len() > 0 {
            Some("Assistant: "@ + trim(text@))
        } else {
            None
        },
        MemorySessionTurn::Tool { name, input, output, .. } => Some(
            "Tool "@ + name@ + ": input="@ + compact_json_spec(input@) + " output="@
                + compact_json_spec(output@),
        ),
    }
}

pub open spec fn turn_lines(ts: Seq<MemorySessionTurn>) -> Seq<Seq<char>>
    decreases ts.len(),
{
    if ts.len() == 0 {
        seq![]
    } else {
        turn_lines(ts.drop_last()) + match turn_line(ts.last()) {
            Some(l) => seq![l],
            None => seq![],
        }
    }
}

pub open spec fn turn_cut_ok(t: MemorySessionTurn) -> bool {
    match t {
        MemorySessionTurn::Tool { input, output, .. } => cut_ok(input@) && cut_ok(output@),
        _ => true,
    }
}

/// The first 120 turns, at most.
pub open spec fn first_turns(ts: Seq<MemorySessionTurn>) -> Seq<MemorySessionTurn> {
    if ts.len() > 120 {
        ts.take(120)
    } else {
        ts
    }
}

/// The transcript of a session for memory: a line per turn among the first 120
/// (user and assistant turns with text, every tool call), joined by `\n`.
pub fn memory_turns_to_text(turns: &Vec<MemorySessionTurn>) -> (r: String)
    requires
        forall|i: int| 0 <= i < first_turns(turns@).len() ==> turn_cut_ok(#[trigger] first_turns(turns@)[i]),
    ensures
        r@ == join(turn_lines(first_turns(turns@)), "\n"@),
{
    let n = if turns.len() > 120 {
        120
    } else {
        turns.len()
    };
    let ghost ft = first_turns(turns@);
    assert(ft =~= turns@.take(n as int));
    let mut lines: Vec<String> = Vec::new();
    let mut i: usize = 0;
    while i < n
        invariant
            i <= n <= turns.len(),
            ft == turns@.take(n as int),
            forall|k: int| 0 <= k < ft.len() ==> turn_cut_ok(#[trigger] ft[k]),
            lines.deep_view() == turn_lines(ft.take(i as int)),
        decreases n - i,
    {
        assert(ft.take(i + 1).drop_last() =~= ft.take(i as int));
        assert(ft.take(i + 1).last() == turns@[i as int]);
        assert(turn_cut_ok(ft[i as int]));
        let ghost before = lines.deep_view();
        match &turns[i] {
            MemorySessionTurn::User { text, .. } => {
                let t = trim_str(text.as_str());
                if t.unicode_len() > 0 {
                    let mut l = "User: ".to_owned();
                    l.append(t.as_str());
                    lines.push(l);
                }
            },
            MemorySessionTurn::Assistant { text, .. } => {
                let t = trim_str(text.as_str());
                if t.unicode_len() > 0 {
                    let mut l = "Assistant: ".to_owned();
                    l.append(t.as_str());
                    lines.push(l);
                }
            },
            MemorySessionTurn::Tool { name, input, output, .. } => {
                let mut l = "Tool ".to_owned();
                l.append(name.as_str());
                l.append(": input=");
                let a = compact_json(input.as_str());
                l.append(a.as_str());
                l.append(" output=");
                let b = compact_json(output.as_str());
                l.append(b.as_str());
                lines.push(l);
            },
        }
        assert(lines.deep_view() =~= turn_lines(ft.take(i + 1)));
        i = i + 1;
    }
    assert(ft.take(n as int) =~= ft);
    join_strings(&lines, "\n")
}

/// The request to the model that extracts durable memory from a transcript.
pub open spec fn summary_prompt(name: Seq<char>, mode: Seq<char>, transcript: Seq<char>) -> Seq<char> {
    "You are OS1's private memory extractor for "@ + name + ".\nThe transcript labels are authoritative: lines beginning with User are about the human user, and lines beginning with Assistant are about "@
        + name + ". Never attribute a User fact to "@ + name
        + ". If the user says \"I\", \"me\", or \"my\" on a User line, write it as \"The user\". If the assistant says \"I\" on an Assistant line, write it as \""@
        + name
        + "\" only when the assistant's own preference or continuity matters.\nSummarize only durable memory from this voice session. Do not include raw transcript. Save personal facts, preferences, relationship continuity, important emotional context, and open loops. Skip small talk and anything not useful later. If nothing durable should be saved, return exactly: No memory\n\nAssistant mode: "@
        + mode
        + "\n\nReturn Markdown using only these sections when relevant:\n### Session Summary\n### Remember\n### Open Loops\n\nTranscript:\n"@
        + transcript
}

/// The prompt that asks for the durable memory of a session.
pub fn memory_summary_prompt(assistant_name: &str, personality_mode: &str, transcript: &str) -> (r:
    String)
    ensures
        r@ == summary_prompt(assistant_name@, personality_mode@, transcript@),
{
    let mut r = "You are OS1's private memory extractor for ".to_owned();
    r.append(assistant_name);
    r.append(
        ".\nThe transcript labels are authoritative: lines beginning with User are about the human user, and lines beginning with Assistant are about ",
    );
    r.append(assistant_name);
    r.append(". Never attribute a User fact to ");
    r.append(assistant_name);
    r.append(
        ". If the user says \"I\", \"me\", or \"my\" on a User line, write it as \"The user\". If the assistant says \"I\" on an Assistant line, write it as \"",
    );
    r.append(assistant_name);
    r.append(
        "\" only when the assistant's own preference or continuity matters.\nSummarize only durable memory from this voice session. Do not include raw transcript. Save personal facts, preferences, relationship continuity, important emotional context, and open loops. Skip small talk and anything not useful later. If nothing durable should be saved, return exactly: No memory\n\nAssistant mode: ",
    );
    r.append(personality_mode);
    r.append(
        "\n\nReturn Markdown using only these sections when relevant:\n### Session Summary\n### Remember\n### Open Loops\n\nTranscript:\n",
    );
    r.append(transcript);
    r
}

/// Whether a summary holds memory worth saving: not blank, and not `No memory` in
/// any ASCII case.
pub fn summary_is_durable(summary: &str) -> (b: bool)
    ensures
        b == (trim(summary@).len() > 0 && !eq_ignore_case(trim(summary@), "no memory"@)),
{
    let t = trim_str(summary);
    if t.unicode_len() == 0 {
        return false;
    }
    let a = lower_str(t.as_str());
    let b = lower_str("no memory");
    !(a == b)
}

/// The file a day's notes go to: `<date>.md`.
pub fn daily_note_file_name(date: &str) -> (r: String)
    ensures
        r@ == date@ + ".md"@,
{
    let mut r = date.to_owned();
    r.append(".md");
    r
}

pub open spec fn entry_spec(
    first_write: bool,
    timestamp: Seq<char>,
    name: Seq<char>,
    mode: Seq<char>,
    date: Seq<char>,
    summary: Seq<char>,
) -> Seq<char> {
    (if first_write {
        "---\ncreated: "@ + timestamp + "\nsource: os1-voice\nassistant: "@ + name + "\nmode: "@
            + mode + "\ntags: [os1-memory, voice-session]\n---\n\n# "@ + date + "\n"@
    } else {
        seq![]
    }) + "\n## Session "@ + timestamp + "\n\n"@ + trim(summary) + "\n"@
}

/// The text a session appends to its day's note; the first entry of a day starts
/// with front matter and the date as a heading.
pub fn memory_entry_text(
    first_write: bool,
    timestamp: &str,
    assistant_name: &str,
    personality_mode: &str,
    date: &str,
    summary: &str,
) -> (r: String)
    ensures
        r@ == entry_spec(
            first_write,
            timestamp@,
            assistant_name@,
            personality_mode@,
            date@,
            summary@,
        ),
{
    let mut entry = String::new();
    if first_write {
        entry.append("---\ncreated: ");
        entry.append(timestamp);
        entry.append("\nsource: os1-voice\nassistant: ");
        entry.append(assistant_name);
        entry.append("\nmode: ");
        entry.append(personality_mode);
        entry.append("\ntags: [os1-memory, voice-session]\n---\n\n# ");
        entry.append(date);
        entry.append("\n");
    }
    entry.append("\n## Session ");
    entry.append(timestamp);
    entry.append("\n\n");
    let t = trim_str(summary);
    entry.append(t.as_str());
    entry.append("\n");
    entry
}

/// What saving a session's memory came to.
#[derive(Debug)]
pub struct MemoryAppendResult {
    pub profile: String,
    pub path: String,
    pub written: bool,
    pub summary: String,
    pub message: String,
}

// ---------------------------------------------------------------------------
// Model responses
/// A part of an output item: its `text` when that is a JSON string.
#[derive(Debug)]
pub struct ContentPart {
    pub text: Option<String>,
}

/// An output item: its `content` when that is a JSON array.
#[derive(Debug)]
pub struct ResponseItem {
    pub content: Option<Vec<ContentPart>>,
}

/// What the logic reads of a Responses API body: `output_text` when it is a string,
/// `output` when it is an array.
#[derive(Debug)]
pub struct ResponseBody {
    pub output_text: Option<String>,
    pub output: Option<Vec<ResponseItem>>,
}

pub open spec fn part_texts(ps: Seq<ContentPart>) -> Seq<Seq<char>>
    decreases ps.len(),
{
    if ps.len() == 0 {
        seq![]
    } else {
        part_texts(ps.drop_last()) + match ps.last().text {
            Some(t) => seq![t@],
            None => seq![],
        }
    }
}

pub open spec fn item_texts(items: Seq<ResponseItem>) -> Seq<Seq<char>>
    decreases items.len(),
{
    if items.len() == 0 {
        seq![]
    } else {
        item_texts(items.drop_last()) + match items.last().content {
            Some(ps) => part_texts(ps@),
            None => seq![],
        }
    }
}

pub open spec fn response_text_spec(b: ResponseBody) -> Option<Seq<char>> {
    match b.output_text {
        Some(t) => Some(trim(t@)),
        None => match b.output {
            None => None,
            Some(items) => {
                let t = trim(join(item_texts(items@), "\n"@));
                if t.len() > 0 {
                    Some(t)
                } else {
                    None
                }
            },
        },
    }
}

/// The text of a model response: `output_text` trimmed when present, else every
/// text part of every output item joined by `\n` and trimmed, when not empty.
pub fn extract_response_text(value: &ResponseBody) -> (r: Option<String>)
    ensures
        opt_view(r) == response_text_spec(*value),
{
    if let Some(t) = &value.output_text {
        return Some(trim_str(t.as_str()));
    }
    let items = match &value.output {
        Some(items) => items,
        None => return None,
    };
    let mut parts: Vec<String> = Vec::new();
    let mut i: usize = 0;
    while i < items.len()
        invariant
            i <= items.len(),
            parts.deep_view() == item_texts(items@.take(i as int)),
        decreases items.len() - i,
    {
        assert(items@.take(i + 1).drop_last() =~= items@.take(i as int));
        let ghost before = parts.deep_view();
        if let Some(content) = &items[i].content {
            let mut j: usize = 0;
            while j < content.len()
                invariant
                    j <= content.len(),
                    parts.deep_view() == before + part_texts(content@.take(j as int)),
                decreases content.len() - j,
            {
                assert(content@.take(j + 1).drop_last() =~= content@.take(j as int));
                if let Some(t) = &content[j].text {
                    let ghost b2 = parts.deep_view();
                    parts.push(t.clone());
                    assert(parts.deep_view() =~= b2.push(t@));
                }
                assert(parts.deep_view() =~= before + part_texts(content@.take(j + 1)));
                j = j + 1;
            }
            assert(content@.take(content.len() as int) =~= content@);
        }
        assert(parts.deep_view() =~= item_texts(items@.take(i + 1)));
        i = i + 1;
    }
    assert(items@.take(items.len() as int) =~= items@);
    let joined = join_strings(&parts, "\n");
    let t = trim_str(joined.as_str());
    if t.unicode_len() > 0 {
        Some(t)
    } else {
        None
    }
}

} // verus!
