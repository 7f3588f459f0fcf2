//! Settings read from the environment and from `.env` files.
use vstd::prelude::*;
use crate::text::{
    char_end, is_ws, lemma_char_end, lemma_single_line, lemma_trim_by_unchanged, lines, lines_of,
    opt_view, res_view, str_eq, string_of, to_chars, trim, trim_by, trim_by_str, trim_str, Pat,
};

verus! {

/// The value a `.env` line gives to `name`: a trimmed, non-comment line
/// `key=value` whose trimmed key is `name`, with the value trimmed and then cleared
/// of surrounding `"` and then `'` quotes; nothing when that leaves it empty.
pub open spec fn env_line_value(line: Seq<char>, name: Seq<char>) -> Option<Seq<char>> {
    let l = trim(line);
    let e = char_end(l, '=') as int;
    if l.len() == 0 || l[0] == '#' || e >= l.len() || trim(l.take(e)) != name {
        None
    } else {
        let v = trim_by(trim_by(trim(l.skip(e + 1)), Pat::Ch('"')), Pat::Ch('\''));
        if v.len() > 0 {
            Some(v)
        } else {
            None
        }
    }
}

/// The first value that the lines give to `name`.
pub open spec fn env_value_in(ls: Seq<Seq<char>>, name: Seq<char>) -> Option<Seq<char>>
    decreases ls.len(),
{
    if ls.len() == 0 {
        None
    } else {
        match env_line_value(ls[0], name) {
            Some(v) => Some(v),
            None => env_value_in(ls.drop_first(), name),
        }
    }
}

/// Index of the first `d` in `v`, or its length.
pub fn find_char(v: &Vec<char>, d: char) -> (r: usize)
    ensures
        r == char_end(v@, d),
        r <= v.len(),
{
    let mut i: usize = 0;
    while i < v.len() && v[i] != d
        invariant
            i <= v.len(),
            forall|j: int| 0 <= j < i ==> #[trigger] v@[j] != d,
        decreases v.len() - i,
    {
        i = i + 1;
    }
    proof {
        lemma_char_end(v@, d, i as int);
    }
    i
}

fn env_line(line: &str, name: &str) -> (r: Option<String>)
    ensures
        opt_view(r) == env_line_value(line@, name@),
{
    let l = trim_str(line);
    let v = to_chars(l.as_str());
    if v.len() == 0 || v[0] == '#' {
        return None;
    }
    let e = find_char(&v, '=');
    if e >= v.len() {
        return None;
    }
    let key_raw = string_of(&v, 0, e);
    let key = trim_str(key_raw.as_str());
    if !str_eq(key.as_str(), name) {
        return None;
    }
    let value_raw = string_of(&v, e + 1, v.len());
    assert(value_raw@ =~= l@.skip(e + 1));
    assert(key_raw@ =~= l@.take(e as int));
    let t = trim_str(value_raw.as_str());
    let t = trim_by_str(t.as_str(), Pat::Ch('"'));
    let t = trim_by_str(t.as_str(), Pat::Ch('\''));
    if t.unicode_len() > 0 {
        Some(t)
    } else {
        None
    }
}

/// The value that the text of a `.env` file gives to `name`, if any.
pub fn env_value_from_content(content: &str, name: &str) -> (r: Option<String>)
    ensures
        opt_view(r) == env_value_in(lines(content@), name@),
{
    let ls = lines_of(content);
    let ghost d = ls.deep_view();
    let mut i: usize = 0;
    assert(d.skip(0) =~= d);
    while i < ls.len()
        invariant
            i <= ls.len(),
            d == ls.deep_view(),
            d == lines(content@),
            env_value_in(d, name@) == env_value_in(d.skip(i as int), name@),
        decreases ls.len() - i,
    {
        assert(d.skip(i as int)[0] == ls@[i as int]@);
        assert(d.skip(i as int).drop_first() =~= d.skip(i + 1));
        if let Some(v) = env_line(ls[i].as_str(), name) {
            return Some(v);
        }
        i = i + 1;
    }
    None
}

/// A `.env` file with the line `name=value` gives `value` to `name`, for a name
/// without `=` that is not a comment, and a value without quotes at its ends, both
/// without line breaks or white space at their ends.
pub proof fn law_env_line_round_trip(name: Seq<char>, value: Seq<char>)
    requires
        name.len() > 0,
        value.len() > 0,
        forall|i: int| 0 <= i < name.len() ==> #[trigger] name[i] != '=' && name[i] != '\n' && name[i] != '\r',
        forall|i: int| 0 <= i < value.len() ==> #[trigger] value[i] != '\n' && value[i] != '\r',
        name[0] != '#',
        !is_ws(name[0]) && !is_ws(name.last()),
        !is_ws(value[0]) && !is_ws(value.last()),
        value[0] != '"' && value.last() != '"' && value[0] != '\'' && value.last() != '\'',
    ensures
        env_value_in(lines(name + "="@ + value), name) == Some(value),
{
    reveal_strlit("=");
    let l = name + "="@ + value;
    assert forall|i: int| 0 <= i < l.len() implies #[trigger] l[i] != '\n' && l[i] != '\r' by {
        if i > name.len() {
            assert(l[i] == value[i - name.len() - 1]);
        } else if i < name.len() {
            assert(l[i] == name[i]);
        }
    }
    lemma_single_line(l);
    assert(lines(l) == seq![l]);
    assert(l[0] == name[0]);
    assert(l.last() == value.last());
    lemma_trim_by_unchanged(l, Pat::Space);
    assert forall|j: int| 0 <= j < name.len() implies #[trigger] l[j] != '=' by {
        assert(l[j] == name[j]);
    }
    lemma_char_end(l, '=', name.len() as int);
    assert(l.take(name.len() as int) =~= name);
    assert(l.skip(name.len() as int + 1) =~= value);
    lemma_trim_by_unchanged(name, Pat::Space);
    lemma_trim_by_unchanged(value, Pat::Space);
    lemma_trim_by_unchanged(value, Pat::Ch('"'));
    lemma_trim_by_unchanged(value, Pat::Ch('\''));
    assert(env_line_value(l, name) == Some(value));
}

/// The first value among `values`.
pub open spec fn first_some(values: Seq<Option<String>>) -> Option<Seq<char>>
    decreases values.len(),
{
    if values.len() == 0 {
        None
    } else {
        match values[0] {
            Some(v) => Some(v@),
            None => first_some(values.drop_first()),
        }
    }
}

pub open spec fn setting_spec(env_var: Option<Seq<char>>, file_values: Seq<Option<String>>) -> Option<
    Seq<char>,
> {
    match env_var {
        Some(v) => if trim(v).len() > 0 {
            Some(trim(v))
        } else {
            first_some(file_values)
        },
        None => first_some(file_values),
    }
}

/// A setting of the client: the process environment's value when it is not blank
/// (trimmed), else the first value that a `.env` candidate gives, in order.
pub fn os1_env_value(env_var: Option<String>, file_values: &Vec<Option<String>>) -> (r: Option<
    String,
>)
    ensures
        opt_view(r) == setting_spec(opt_view(env_var), file_values@),
{
    let ghost ev = opt_view(env_var);
    if let Some(value) = env_var {
        let value = trim_str(value.as_str());
        if value.unicode_len() > 0 {
            return Some(value);
        }
    }
    let mut i: usize = 0;
    assert(file_values@.skip(0) =~= file_values@);
    while i < file_values.len()
        invariant
            i <= file_values.len(),
            first_some(file_values@) == first_some(file_values@.skip(i as int)),
            setting_spec(ev, file_values@) == first_some(file_values@),
            ev == opt_view(env_var),
        decreases file_values.len() - i,
    {
        assert(file_values@.skip(i as int)[0] == file_values@[i as int]);
        assert(file_values@.skip(i as int).drop_first() =~= file_values@.skip(i + 1));
        if let Some(v) = &file_values[i] {
            return Some(v.clone());
        }
        i = i + 1;
    }
    None
}

pub open spec fn missing_key_message() -> Seq<char> {
    "OPENAI_API_KEY is not configured for OS1. Put it in .env next to the app project or configure a key in Settings."@
}

/// The OpenAI key, or the message that says how to configure one.
pub fn openai_api_key(configured: Option<String>) -> (r: Result<String, String>)
    ensures
        res_view(r) == match configured {
            Some(k) => Ok(k@),
            None => Err(missing_key_message()),
        },
{
    match configured {
        Some(k) => Ok(k),
        None => Err(
            "OPENAI_API_KEY is not configured for OS1. Put it in .env next to the app project or configure a key in Settings.".to_owned(),
        ),
    }
}

/// Whether a Realtime key is configured, and where it comes from.
#[derive(Debug)]
pub struct RealtimeKeyStatus {
    pub configured: bool,
    pub source: String,
}

/// The Realtime key status for a key that was or was not found.
pub fn realtime_key_status(key: &Option<String>) -> (r: RealtimeKeyStatus)
    ensures
        r.configured == key is Some,
        r.source@ == (if key is Some {
            "OPENAI_API_KEY"@
        } else {
            "missing"@
        }),
{
    match key {
        Some(_) => RealtimeKeyStatus { configured: true, source: "OPENAI_API_KEY".to_owned() },
        None => RealtimeKeyStatus { configured: false, source: "missing".to_owned() },
    }
}

/// The answer of a Realtime call setup: the SDP answer on success, else the status
/// and body that OpenAI returned.
pub fn realtime_call_result(success: bool, status: &str, body: String) -> (r: Result<String, String>)
    ensures
        res_view(r) == (if success {
            Ok::<Seq<char>, Seq<char>>(body@)
        } else {
            Err::<Seq<char>, Seq<char>>("OpenAI Realtime returned "@ + status@ + ": "@ + body@)
        }),
{
    if success {
        Ok(body)
    } else {
        let mut m = "OpenAI Realtime returned ".to_owned();
        m.append(status);
        m.append(": ");
        m.append(body.as_str());
        Err(m)
    }
}

} // verus!
