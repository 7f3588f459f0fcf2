//! Profile names, memory slugs and the paths and command lines built from them.
use vstd::prelude::*;
use crate::text::{
    is_ws, lemma_trim_by_ends, lemma_trim_end_at, lemma_trim_end_props, lemma_trim_end_removed,
    lemma_trim_start_at, lemma_trim_start_props, lemma_trim_start_removed, pat_matches, res_view, str_eq, string_of, to_chars, trim, trim_by,
    trim_end_by, trim_range, trim_start_by, trim_str, Pat,
};

verus! {

/// ASCII letters and digits (`char::is_ascii_alphanumeric`).
pub open spec fn is_ascii_alnum(c: char) -> bool {
    ('a' <= c && c <= 'z') || ('A' <= c && c <= 'Z') || ('0' <= c && c <= '9')
}

/// The characters a profile name may hold: ASCII letters, digits, `-` and `_`.
pub open spec fn is_name_char(c: char) -> bool {
    is_ascii_alnum(c) || c == '-' || c == '_'
}

/// `char::to_ascii_lowercase`.
pub open spec fn ascii_lower(c: char) -> char {
    if 'A' <= c && c <= 'Z' {
        ((c as u32) + 32) as char
    } else {
        c
    }
}

/// What a character of a profile becomes in its memory slug.
pub open spec fn slug_char(c: char) -> char {
    if is_name_char(c) {
        ascii_lower(c)
    } else {
        '-'
    }
}

/// The memory slug of a profile: trimmed, every character mapped by `slug_char`,
/// `-` removed at both ends, at most 64 characters.
pub open spec fn slug_of(profile: Seq<char>) -> Seq<char> {
    let t = trim_by(trim(profile).map_values(|c: char| slug_char(c)), Pat::Ch('-'));
    if t.len() > 64 {
        t.take(64)
    } else {
        t
    }
}

pub open spec fn sanitize_spec(profile: Seq<char>) -> Result<Seq<char>, Seq<char>> {
    if slug_of(profile).len() == 0 {
        Err("Memory profile name is empty."@)
    } else {
        Ok(slug_of(profile))
    }
}

/// Whether a character may appear in a profile name.
pub fn is_name_character(c: char) -> (b: bool)
    ensures
        b == is_name_char(c),
{
    ('a' <= c && c <= 'z') || ('A' <= c && c <= 'Z') || ('0' <= c && c <= '9') || c == '-' || c
        == '_'
}

fn slug_character(c: char) -> (r: char)
    ensures
        r == slug_char(c),
{
    if is_name_character(c) {
        if 'A' <= c && c <= 'Z' {
            let u = (c as u32) + 32;
            assert(0x61 <= u <= 0x7a);
            char_from_ascii(u)
        } else {
            c
        }
    } else {
        '-'
    }
}

/// `char::to_ascii_lowercase`.
pub fn lower_char(c: char) -> (r: char)
    ensures
        r == ascii_lower(c),
{
    if 'A' <= c && c <= 'Z' {
        let u = (c as u32) + 32;
        char_from_ascii(u)
    } else {
        c
    }
}

/// `str::to_ascii_lowercase`.
pub open spec fn lower_text(s: Seq<char>) -> Seq<char> {
    s.map_values(|c: char| ascii_lower(c))
}

/// `str::eq_ignore_ascii_case`.
pub open spec fn eq_ignore_case(a: Seq<char>, b: Seq<char>) -> bool {
    lower_text(a) == lower_text(b)
}

/// `str::to_ascii_lowercase`.
pub fn lower_str(s: &str) -> (r: String)
    ensures
        r@ == lower_text(s@),
{
    let v = to_chars(s);
    let mut r = String::new();
    let mut i: usize = 0;
    while i < v.len()
        invariant
            i <= v.len(),
            v@ == s@,
            r@ == lower_text(v@.take(i as int)),
        decreases v.len() - i,
    {
        crate::text::push_char(&mut r, lower_char(v[i]));
        assert(lower_text(v@.take(i + 1)) =~= lower_text(v@.take(i as int)).push(ascii_lower(v@[i as int])));
        i = i + 1;
    }
    assert(v@.take(v.len() as int) =~= v@);
    r
}

/// The character with a given ASCII code.
fn char_from_ascii(u: u32) -> (c: char)
    requires
        u < 128,
    ensures
        c == u as char,
{
    let b = u as u8;
    b as char
}

/// Turns a profile name into the slug of its memory folder, or fails when nothing is left.
pub fn sanitize_profile_slug(profile: &str) -> (r: Result<String, String>)
    ensures
        res_view(r) == sanitize_spec(profile@),
{
    let trimmed = trim_str(profile);
    let v = to_chars(trimmed.as_str());
    let mut mapped: Vec<char> = Vec::new();
    let mut i: usize = 0;
    while i < v.len()
        invariant
            i <= v.len(),
            v@ == trim(profile@),
            mapped@ == v@.take(i as int).map_values(|c: char| slug_char(c)),
        decreases v.len() - i,
    {
        let c = slug_character(v[i]);
        mapped.push(c);
        assert(v@.take(i + 1).map_values(|c: char| slug_char(c)) =~= v@.take(i as int).map_values(
            |c: char| slug_char(c),
        ).push(slug_char(v@[i as int])));
        i = i + 1;
    }
    assert(v@.take(v.len() as int) =~= v@);
    let (lo, hi) = trim_range(&mapped, Pat::Ch('-'));
    let end = if hi - lo > 64 {
        lo + 64
    } else {
        hi
    };
    let slug = string_of(&mapped, lo, end);
    assert(slug@ =~= slug_of(profile@));
    if end == lo {
        Err("Memory profile name is empty.".to_owned())
    } else {
        Ok(slug)
    }
}

pub proof fn lemma_slug_shape(profile: Seq<char>)
    ensures
        slug_of(profile).len() <= 64,
        forall|i: int|
            0 <= i < slug_of(profile).len() ==> #[trigger] slug_of(profile)[i] == '-' || slug_of(
                profile,
            )[i] == '_' || ('a' <= slug_of(profile)[i] <= 'z') || ('0' <= slug_of(profile)[i]
                <= '9'),
        slug_of(profile).len() > 0 ==> slug_of(profile)[0] != '-',
{
    let m = trim(profile).map_values(|c: char| slug_char(c));
    let t = trim_by(m, Pat::Ch('-'));
    lemma_trim_by_ends(m, Pat::Ch('-'));
    lemma_trim_start_props(m, Pat::Ch('-'));
    lemma_trim_end_props(trim_start_by(m, Pat::Ch('-')), Pat::Ch('-'));
    let k = choose|k: int| 0 <= k <= m.len() && trim_start_by(m, Pat::Ch('-')) == m.skip(k);
    assert forall|i: int| 0 <= i < t.len() implies #[trigger] t[i] == '-' || t[i] == '_' || (
    'a' <= t[i] <= 'z') || ('0' <= t[i] <= '9') by {
        assert(t[i] == m.skip(k)[i]);
        assert(m.skip(k)[i] == m[i + k]);
    }
}

/// A slug keeps only lower-case letters, digits, `-` and `_`, holds at most 64
/// characters, and never starts with `-`.
pub proof fn law_slug_charset(profile: Seq<char>)
    requires
        sanitize_spec(profile) is Ok,
    ensures
        sanitize_spec(profile)->Ok_0.len() <= 64,
        sanitize_spec(profile)->Ok_0.len() > 0,
        sanitize_spec(profile)->Ok_0[0] != '-',
        forall|i: int|
            0 <= i < sanitize_spec(profile)->Ok_0.len() ==> is_name_char(
                #[trigger] sanitize_spec(profile)->Ok_0[i],
            ) && !('A' <= sanitize_spec(profile)->Ok_0[i] <= 'Z'),
{
    lemma_slug_shape(profile);
}

/// The characters that survive in a slug other than as `-`.
pub open spec fn slug_keeps(c: char) -> bool {
    is_ascii_alnum(c) || c == '_'
}

proof fn lemma_slug_char(c: char)
    ensures
        (slug_char(c) != '-') == slug_keeps(c),
        is_ws(c) ==> !slug_keeps(c),
{
    if 'A' <= c && c <= 'Z' {
        assert(((c as u32) + 32) as char != '-');
    }
}

/// A text trimmed of `-` is empty exactly when the text is all `-`.
proof fn lemma_dash_trim_empty(m: Seq<char>)
    ensures
        (trim_by(m, Pat::Ch('-')).len() == 0) == (forall|k: int| 0 <= k < m.len() ==> #[trigger] m[k] == '-'),
{
    let p = Pat::Ch('-');
    lemma_trim_start_removed(m, p);
    let i = choose|i: int|
        0 <= i <= m.len() && trim_start_by(m, p) == m.skip(i) && forall|j: int|
            0 <= j < i ==> pat_matches(p, #[trigger] m[j]);
    let u = m.skip(i);
    lemma_trim_start_props(m, p);
    lemma_trim_end_removed(u, p);
    let n = choose|n: int|
        0 <= n <= u.len() && trim_end_by(u, p) == u.take(n) && forall|j: int|
            n <= j < u.len() ==> pat_matches(p, #[trigger] u[j]);
    if exists|k: int| 0 <= k < m.len() && m[k] != '-' {
        let k = choose|k: int| 0 <= k < m.len() && m[k] != '-';
        if k < i {
            assert(pat_matches(p, m[k]));
        }
        assert(u[k - i] == m[k]);
        if n <= k - i {
            assert(pat_matches(p, u[k - i]));
        }
        assert(trim_by(m, p).len() == n);
    } else {
        if u.len() > 0 {
            assert(u[0] == m[i]);
        }
        assert(u.len() == 0);
    }
}

/// A memory slug is an error exactly when the profile holds no ASCII letter, digit
/// or `_`; and a slug shorter than 64 characters does not end with `-`.
pub proof fn law_slug_empty_and_end(profile: Seq<char>)
    ensures
        sanitize_spec(profile) is Err <==> !(exists|i: int| 0 <= i < profile.len() && slug_keeps(#[trigger] profile[i])),
        sanitize_spec(profile) matches Ok(s) ==> (s.len() < 64 ==> s.last() != '-'),
{
    let sp = Pat::Space;
    let tp = trim(profile);
    lemma_trim_start_removed(profile, sp);
    let a = choose|a: int|
        0 <= a <= profile.len() && trim_start_by(profile, sp) == profile.skip(a) && forall|j: int|
            0 <= j < a ==> pat_matches(sp, #[trigger] profile[j]);
    let u = profile.skip(a);
    lemma_trim_end_removed(u, sp);
    let n = choose|n: int|
        0 <= n <= u.len() && trim_end_by(u, sp) == u.take(n) && forall|j: int|
            n <= j < u.len() ==> pat_matches(sp, #[trigger] u[j]);
    assert(tp == u.take(n));
    let m = tp.map_values(|c: char| slug_char(c));
    let t = trim_by(m, Pat::Ch('-'));
    lemma_dash_trim_empty(m);
    // A kept character of the profile is one of the trimmed text.
    if exists|i: int| 0 <= i < profile.len() && slug_keeps(profile[i]) {
        let i = choose|i: int| 0 <= i < profile.len() && slug_keeps(profile[i]);
        lemma_slug_char(profile[i]);
        if i < a {
            assert(pat_matches(sp, profile[i]));
        }
        assert(u[i - a] == profile[i]);
        if n <= i - a {
            assert(pat_matches(sp, u[i - a]));
        }
        assert(tp[i - a] == profile[i]);
        assert(m[i - a] == slug_char(profile[i]));
        assert(m[i - a] != '-');
    } else {
        assert forall|k: int| 0 <= k < m.len() implies #[trigger] m[k] == '-' by {
            assert(tp[k] == profile[k + a]);
            lemma_slug_char(tp[k]);
        }
    }
    if t.len() > 0 {
        lemma_trim_by_ends(m, Pat::Ch('-'));
    }
}

/// Sanitizing a slug again only drops the `-` that cutting at 64 characters may have
/// left at its end.
pub proof fn law_slug_resanitize(profile: Seq<char>)
    ensures
        slug_of(slug_of(profile)) == trim_end_by(slug_of(profile), Pat::Ch('-')),
{
    let s = slug_of(profile);
    lemma_slug_shape(profile);
    // The slug holds no white space, so trimming keeps it whole.
    assert forall|j: int| 0 <= j < 0 implies pat_matches(Pat::Space, #[trigger] s[j]) by {}
    if s.len() > 0 {
        assert(!is_ws(s[0]));
        assert(!is_ws(s[s.len() - 1]));
    }
    lemma_trim_start_at(s, Pat::Space, 0);
    assert(s.skip(0) =~= s);
    lemma_trim_end_at(s, Pat::Space, s.len() as int);
    assert(s.take(s.len() as int) =~= s);
    assert(trim(s) == s);
    let m = s.map_values(|c: char| slug_char(c));
    assert(m =~= s);
    lemma_trim_start_at(s, Pat::Ch('-'), 0);
    assert(trim_start_by(s, Pat::Ch('-')) == s);
    lemma_trim_end_props(s, Pat::Ch('-'));
}

// ---------------------------------------------------------------------------
// Profile names
pub open spec fn all_name_chars(s: Seq<char>) -> bool {
    forall|i: int| 0 <= i < s.len() ==> is_name_char(#[trigger] s[i])
}

pub open spec fn validate_existing_spec(value: Seq<char>) -> Result<Seq<char>, Seq<char>> {
    let name = trim(value);
    if name.len() == 0 {
        Err("Profile name is required."@)
    } else if name == "."@ || name == ".."@ {
        Err("Profile name must be a name, not a path."@)
    } else if !all_name_chars(name) {
        Err("Profile names can use letters, numbers, hyphens, and underscores."@)
    } else {
        Ok(name)
    }
}

pub open spec fn validate_new_spec(value: Seq<char>) -> Result<Seq<char>, Seq<char>> {
    match validate_existing_spec(value) {
        Ok(name) => if name == "default"@ {
            Err("default is reserved for the base Hermes profile."@)
        } else {
            Ok(name)
        },
        Err(e) => Err(e),
    }
}

/// Checks the name of a profile that should exist: trimmed, not empty, not `.` or
/// `..`, and made of letters, digits, `-` and `_` only.
pub fn validate_existing_profile_name(value: &str) -> (r: Result<String, String>)
    ensures
        res_view(r) == validate_existing_spec(value@),
{
    let name = trim_str(value);
    if name.unicode_len() == 0 {
        return Err("Profile name is required.".to_owned());
    }
    if str_eq(name.as_str(), ".") || str_eq(name.as_str(), "..") {
        return Err("Profile name must be a name, not a path.".to_owned());
    }
    let v = to_chars(name.as_str());
    let mut i: usize = 0;
    while i < v.len()
        invariant
            i <= v.len(),
            v@ == name@,
            name@ == trim(value@),
            name@.len() != 0,
            name@ != "."@,
            name@ != ".."@,
            forall|j: int| 0 <= j < i ==> is_name_char(#[trigger] v@[j]),
        decreases v.len() - i,
    {
        if !is_name_character(v[i]) {
            assert(!is_name_char(name@[i as int]));
            return Err("Profile names can use letters, numbers, hyphens, and underscores.".to_owned());
        }
        i = i + 1;
    }
    Ok(name)
}

/// Checks the name of a profile to be created: valid, and not the reserved `default`.
pub fn validate_new_profile_name(value: &str) -> (r: Result<String, String>)
    ensures
        res_view(r) == validate_new_spec(value@),
{
    let name = validate_existing_profile_name(value)?;
    if str_eq(name.as_str(), "default") {
        return Err("default is reserved for the base Hermes profile.".to_owned());
    }
    Ok(name)
}

/// Checks the name of the profile a runtime command runs in.
pub fn validate_profile_name_for_runtime(value: &str) -> (r: Result<String, String>)
    ensures
        res_view(r) == validate_existing_spec(value@),
{
    let name = validate_existing_profile_name(value)?;
    Ok(name)
}

/// A name that passed validation passes it again unchanged.
pub proof fn law_validate_idempotent(value: Seq<char>)
    requires
        validate_existing_spec(value) is Ok,
    ensures
        validate_existing_spec(validate_existing_spec(value)->Ok_0) == validate_existing_spec(
            value,
        ),
{
    let name = trim(value);
    assert(!is_ws(name[0]));
    assert(!is_ws(name[name.len() - 1]));
    lemma_trim_start_at(name, Pat::Space, 0);
    assert(name.skip(0) =~= name);
    lemma_trim_end_at(name, Pat::Space, name.len() as int);
    assert(name.take(name.len() as int) =~= name);
}

/// A valid profile name holds no `/`, `\`, `.` or white space, so it names a single
/// directory entry.
pub proof fn law_valid_name_is_single_segment(value: Seq<char>)
    requires
        validate_existing_spec(value) is Ok,
    ensures
        forall|i: int|
            0 <= i < validate_existing_spec(value)->Ok_0.len() ==> {
                let c = #[trigger] validate_existing_spec(value)->Ok_0[i];
                c != '/' && c != '\\' && c != '.' && !is_ws(c)
            },
{
}

// ---------------------------------------------------------------------------
// Paths inside a Linux home
pub open spec fn hermes_home_spec(home: Seq<char>, profile: Seq<char>) -> Seq<char> {
    if profile == "default"@ {
        home + "/.hermes"@
    } else {
        home + "/.hermes/profiles/"@ + profile
    }
}

pub open spec fn runtime_path_spec(home: Seq<char>) -> Seq<char> {
    home + "/.local/bin:"@ + home + "/.hermes/hermes-agent/venv/bin:"@ + home
        + "/.cargo/bin:/usr/local/sbin:/usr/local/bin:/usr/sbin:/usr/bin:/sbin:/bin"@
}

/// The `HERMES_HOME` of a profile: `~/.hermes` for `default`, else its folder under
/// `~/.hermes/profiles`.
pub fn hermes_home_for_profile(home: &str, profile: &str) -> (r: String)
    ensures
        r@ == hermes_home_spec(home@, profile@),
{
    let mut r = home.to_owned();
    if str_eq(profile, "default") {
        r.append("/.hermes");
    } else {
        r.append("/.hermes/profiles/");
        r.append(profile);
    }
    r
}

/// The `PATH` that Hermes commands run with in a Linux home.
pub fn hermes_runtime_path(home: &str) -> (r: String)
    ensures
        r@ == runtime_path_spec(home@),
{
    let mut r = home.to_owned();
    r.append("/.local/bin:");
    r.append(home);
    r.append("/.hermes/hermes-agent/venv/bin:");
    r.append(home);
    r.append("/.cargo/bin:/usr/local/sbin:/usr/local/bin:/usr/sbin:/usr/bin:/sbin:/bin");
    r
}

/// `KEY=value` assignment text.
pub fn assignment(key: &str, value: &str) -> (r: String)
    ensures
        r@ == key@ + "="@ + value@,
{
    let mut r = key.to_owned();
    r.append("=");
    r.append(value);
    r
}

/// Where and how Hermes runs for one profile.
#[derive(Debug)]
pub struct HermesRuntime {
    pub hermes_home: String,
    pub hermes_command: String,
    pub path: String,
}

/// The script that runs `$OS1_COMMAND` (under a 45 s timeout when `timeout` exists)
/// and then prints its exit status after a `__OS1_EXIT__:` marker.
pub open spec fn shell_wrapper() -> Seq<char> {
    "set -o pipefail\nif command -v timeout >/dev/null 2>&1; then\n  timeout 45s bash -lc \"$OS1_COMMAND\"\n  code=$?\nelse\n  bash -lc \"$OS1_COMMAND\"\n  code=$?\nfi\nprintf '\\n__OS1_EXIT__:%s\\n' \"$code\"\nexit 0"@
}

impl HermesRuntime {
    pub open spec fn env_prefix(&self) -> Seq<Seq<char>> {
        seq![
            "env"@,
            "HERMES_HOME="@ + self.hermes_home@,
            "PATH="@ + self.path@,
        ]
    }

    /// `env HERMES_HOME=.. PATH=..`.
    pub fn env_args(&self) -> (r: Vec<String>)
        ensures
            r.deep_view() == self.env_prefix(),
    {
        let mut args: Vec<String> = Vec::new();
        args.push("env".to_owned());
        args.push(assignment("HERMES_HOME", self.hermes_home.as_str()));
        args.push(assignment("PATH", self.path.as_str()));
        proof {
            reveal_strlit("HERMES_HOME");
            reveal_strlit("HERMES_HOME=");
            reveal_strlit("PATH");
            reveal_strlit("PATH=");
            reveal_strlit("=");
        }
        assert forall|i: int| 0 <= i < args.len() implies #[trigger] args.deep_view()[i]
            == self.env_prefix()[i] by {}
        assert(args.deep_view() =~= self.env_prefix());
        args
    }

    /// `env HERMES_HOME=.. PATH=.. <hermes> <hermes_args..>`.
    pub fn command_args(&self, hermes_args: Vec<String>) -> (r: Vec<String>)
        ensures
            r.deep_view() == self.env_prefix().push(self.hermes_command@) + hermes_args.deep_view(),
    {
        let mut hermes_args = hermes_args;
        let ghost extra = hermes_args.deep_view();
        let mut args: Vec<String> = Vec::new();
        args.push("env".to_owned());
        args.push(assignment("HERMES_HOME", self.hermes_home.as_str()));
        args.push(assignment("PATH", self.path.as_str()));
        args.push(self.hermes_command.clone());
        let ghost head = args@;
        let ghost tail = hermes_args@;
        args.append(&mut hermes_args);
        assert(args@ == head + tail);
        let ghost want = self.env_prefix().push(self.hermes_command@) + extra;
        proof {
            reveal_strlit("HERMES_HOME");
            reveal_strlit("HERMES_HOME=");
            reveal_strlit("PATH");
            reveal_strlit("PATH=");
            reveal_strlit("=");
        }
        assert forall|i: int| 0 <= i < args.len() implies #[trigger] args.deep_view()[i] == want[i] by {
            if i >= 4 {
                assert(args@[i] == tail[i - 4]);
            }
        }
        assert(args.deep_view() =~= want);
        args
    }

    /// `env HERMES_HOME=.. PATH=.. OS1_COMMAND=<command> bash -lc <wrapper>`.
    pub fn shell_command_args(&self, command: &str) -> (r: Vec<String>)
        ensures
            r.deep_view() == self.env_prefix() + seq![
                "OS1_COMMAND="@ + command@,
                "bash"@,
                "-lc"@,
                shell_wrapper(),
            ],
    {
        let mut args: Vec<String> = Vec::new();
        args.push("env".to_owned());
        args.push(assignment("HERMES_HOME", self.hermes_home.as_str()));
        args.push(assignment("PATH", self.path.as_str()));
        args.push(assignment("OS1_COMMAND", command));
        args.push("bash".to_owned());
        args.push("-lc".to_owned());
        args.push(
            "set -o pipefail\nif command -v timeout >/dev/null 2>&1; then\n  timeout 45s bash -lc \"$OS1_COMMAND\"\n  code=$?\nelse\n  bash -lc \"$OS1_COMMAND\"\n  code=$?\nfi\nprintf '\\n__OS1_EXIT__:%s\\n' \"$code\"\nexit 0".to_owned(),
        );
        let ghost want = self.env_prefix() + seq![
            "OS1_COMMAND="@ + command@,
            "bash"@,
            "-lc"@,
            shell_wrapper(),
        ];
        proof {
            reveal_strlit("HERMES_HOME");
            reveal_strlit("HERMES_HOME=");
            reveal_strlit("PATH");
            reveal_strlit("PATH=");
            reveal_strlit("OS1_COMMAND");
            reveal_strlit("OS1_COMMAND=");
            reveal_strlit("=");
        }
        assert forall|i: int| 0 <= i < args.len() implies #[trigger] args.deep_view()[i] == want[i] by {
        }
        assert(args.deep_view() =~= want);
        args
    }
}

} // verus!
