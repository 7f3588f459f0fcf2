//! What the library makes of command output: decoding, compacting, keyed values,
//! exit markers and error summaries.
use vstd::prelude::*;
use vstd::utf8::{
    decode_utf8, encode_utf8, encode_utf8_decode_utf8, encode_utf8_valid_utf8, is_ascii_chars, is_ascii_chars_encode_utf8,
    valid_utf8,
};
use crate::text::{
    decimal, format_i32, is_digit, is_ws, join, join_strings, law_parse_format_i32,
    lemma_join_lines, lemma_line_end, lemma_lines_split, lemma_nat_digits, lemma_trim_by_unchanged,
    lines, lines_of, nat_digits, opt_view, parse_i32, parse_i32_str,
    push_char, starts_with, has_prefix, string_of, strip_cr, to_chars, trim, trim_by, trim_range,
    trim_str, Pat,
};

verus! {

// ---------------------------------------------------------------------------
// Non-empty trimmed lines
/// The lines, each trimmed, without the ones that are empty after trimming.
pub open spec fn nonempty_trimmed(ls: Seq<Seq<char>>) -> Seq<Seq<char>>
    decreases ls.len(),
{
    if ls.len() == 0 {
        seq![]
    } else {
        let rest = nonempty_trimmed(ls.drop_last());
        let t = trim(ls.last());
        if t.len() > 0 {
            rest.push(t)
        } else {
            rest
        }
    }
}

/// The non-empty trimmed lines of a text.
pub open spec fn text_lines(s: Seq<char>) -> Seq<Seq<char>> {
    nonempty_trimmed(lines(s))
}

pub proof fn lemma_nonempty_trimmed_split(ls: Seq<Seq<char>>, k: int)
    requires
        0 <= k <= ls.len(),
    ensures
        nonempty_trimmed(ls) == nonempty_trimmed(ls.take(k)) + nonempty_trimmed(ls.skip(k)),
    decreases ls.len(),
{
    if k == ls.len() {
        assert(ls.take(k) =~= ls);
        assert(ls.skip(k) =~= Seq::<Seq<char>>::empty());
        assert(nonempty_trimmed(ls.skip(k)) =~= Seq::<Seq<char>>::empty());
    } else {
        let d = ls.drop_last();
        lemma_nonempty_trimmed_split(d, k);
        assert(d.take(k) =~= ls.take(k));
        assert(ls.skip(k).drop_last() =~= d.skip(k));
        assert(ls.skip(k).last() == ls.last());
        assert(nonempty_trimmed(ls) =~= nonempty_trimmed(ls.take(k)) + nonempty_trimmed(
            ls.skip(k),
        ));
    }
}

/// The non-empty trimmed lines of `s`, in order.
pub fn nonempty_trimmed_lines(s: &str) -> (r: Vec<String>)
    ensures
        r.deep_view() == text_lines(s@),
{
    let ls = lines_of(s);
    let ghost d = ls.deep_view();
    let mut out: Vec<String> = Vec::new();
    let mut i: usize = 0;
    while i < ls.len()
        invariant
            i <= ls.len(),
            d == ls.deep_view(),
            d == lines(s@),
            out.deep_view() == nonempty_trimmed(d.take(i as int)),
        decreases ls.len() - i,
    {
        let t = trim_str(ls[i].as_str());
        assert(d.take(i + 1).drop_last() =~= d.take(i as int));
        assert(d.take(i + 1).last() == ls@[i as int]@);
        if t.unicode_len() > 0 {
            let ghost before = out.deep_view();
            out.push(t);
            assert(out.deep_view() =~= before.push(t@));
        }
        i = i + 1;
    }
    assert(d.take(ls.len() as int) =~= d);
    out
}

/// The first non-empty line of a text, trimmed, or the empty text.
pub open spec fn first_line_spec(s: Seq<char>) -> Seq<char> {
    if text_lines(s).len() > 0 {
        text_lines(s)[0]
    } else {
        seq![]
    }
}

/// The first line of `text` that is not blank, trimmed; empty when there is none.
pub fn compact_single_line(text: &str) -> (r: String)
    ensures
        r@ == first_line_spec(text@),
{
    let ls = nonempty_trimmed_lines(text);
    if ls.len() > 0 {
        ls[0].clone()
    } else {
        String::new()
    }
}

/// The last `max_lines` non-empty trimmed lines of a text.
pub open spec fn tail_lines(s: Seq<char>, max_lines: nat) -> Seq<Seq<char>> {
    let ts = text_lines(s);
    if ts.len() > max_lines {
        ts.skip(ts.len() - max_lines)
    } else {
        ts
    }
}

/// The last `max_lines` non-blank lines of `value`, trimmed and joined by `\n`.
pub fn compact_tail(value: &str, max_lines: usize) -> (r: String)
    ensures
        r@ == join(tail_lines(value@, max_lines as nat), "\n"@),
{
    let mut ls = nonempty_trimmed_lines(value);
    let ghost d = ls.deep_view();
    if ls.len() > max_lines {
        let n = ls.len();
        let kept = ls.split_off(n - max_lines);
        assert(kept.deep_view() =~= d.skip(n - max_lines));
        join_strings(&kept, "\n")
    } else {
        join_strings(&ls, "\n")
    }
}

/// The trimmed text, cut to its last `max_chars` characters.
pub open spec fn compact_text_spec(s: Seq<char>, max_chars: nat) -> Seq<char> {
    let t = trim(s);
    if t.len() <= max_chars {
        t
    } else {
        t.skip(t.len() - max_chars)
    }
}

/// `value` trimmed, keeping only its last `max_chars` characters.
pub fn compact_text(value: &str, max_chars: usize) -> (r: String)
    ensures
        r@ == compact_text_spec(value@, max_chars as nat),
{
    let v = to_chars(value);
    let (lo, hi) = trim_range(&v, Pat::Space);
    if hi - lo <= max_chars {
        string_of(&v, lo, hi)
    } else {
        let r = string_of(&v, hi - max_chars, hi);
        assert(r@ =~= v@.subrange(lo as int, hi as int).skip(hi - lo - max_chars));
        r
    }
}

/// The note appended to memory context that had to be cut.
pub open spec fn truncation_note() -> Seq<char> {
    "\n\n[Memory context truncated. Use memory search for deeper recall.]"@
}

pub open spec fn cap_spec(s: Seq<char>, max_chars: nat) -> (Seq<char>, bool) {
    if s.len() <= max_chars {
        (s, false)
    } else {
        (trim(s.take(max_chars as int)) + truncation_note(), true)
    }
}

/// Memory context never grows past `max_chars` characters and the truncation note,
/// and context that fits is handed on unchanged.
pub proof fn law_context_bounded(s: Seq<char>, max_chars: nat)
    ensures
        cap_spec(s, max_chars).0.len() <= max_chars + truncation_note().len(),
        !cap_spec(s, max_chars).1 ==> cap_spec(s, max_chars).0 == s,
{
    if s.len() > max_chars {
        crate::text::lemma_trim_by_ends(s.take(max_chars as int), Pat::Space);
    }
}

/// Keeps memory context within `max_chars` characters: longer text is cut, trimmed
/// and followed by a note, and the flag says that it was cut.
pub fn cap_memory_context(text: &str, max_chars: usize) -> (r: (String, bool))
    ensures
        (r.0@, r.1) == cap_spec(text@, max_chars as nat),
{
    let v = to_chars(text);
    if v.len() <= max_chars {
        return (text.to_owned(), false);
    }
    let capped = string_of(&v, 0, max_chars);
    assert(capped@ =~= text@.take(max_chars as int));
    let mut r = trim_str(capped.as_str());
    r.append("\n\n[Memory context truncated. Use memory search for deeper recall.]");
    (r, true)
}

// ---------------------------------------------------------------------------
// key=value output
/// The value after `prefix` on the first line whose trimmed text starts with it.
pub open spec fn first_keyed(ls: Seq<Seq<char>>, prefix: Seq<char>) -> Option<Seq<char>>
    decreases ls.len(),
{
    if ls.len() == 0 {
        None
    } else if starts_with(trim(ls[0]), prefix) {
        Some(trim(trim(ls[0]).skip(prefix.len() as int)))
    } else {
        first_keyed(ls.drop_first(), prefix)
    }
}

/// The value of `key` in output made of `key=value` lines: the first line that
/// starts with `key=` once trimmed, the rest of it trimmed.
pub fn parse_keyed_output(output: &str, key: &str) -> (r: Option<String>)
    ensures
        opt_view(r) == first_keyed(lines(output@), key@ + "="@),
{
    let mut prefix_text = key.to_owned();
    prefix_text.append("=");
    let prefix = to_chars(prefix_text.as_str());
    let ls = lines_of(output);
    let ghost d = ls.deep_view();
    let mut i: usize = 0;
    assert(d.skip(0) =~= d);
    while i < ls.len()
        invariant
            i <= ls.len(),
            d == ls.deep_view(),
            d == lines(output@),
            prefix@ == key@ + "="@,
            first_keyed(d, prefix@) == first_keyed(d.skip(i as int), prefix@),
        decreases ls.len() - i,
    {
        let t = trim_str(ls[i].as_str());
        let tv = to_chars(t.as_str());
        assert(d.skip(i as int)[0] == ls@[i as int]@);
        if has_prefix(&tv, &prefix) {
            let rest = string_of(&tv, prefix.len(), tv.len());
            assert(rest@ =~= t@.skip(prefix@.len() as int));
            return Some(trim_str(rest.as_str()));
        }
        assert(d.skip(i as int).drop_first() =~= d.skip(i + 1));
        i = i + 1;
    }
    None
}

// ---------------------------------------------------------------------------
// Exit markers
/// The text that precedes the exit status a profile command prints.
pub open spec fn exit_marker() -> Seq<char> {
    "__OS1_EXIT__:"@
}

/// Index of the last line whose trimmed text starts with `m`.
pub open spec fn last_marked(ls: Seq<Seq<char>>, m: Seq<char>) -> Option<int>
    decreases ls.len(),
{
    if ls.len() == 0 {
        None
    } else if starts_with(trim(ls.last()), m) {
        Some(ls.len() - 1)
    } else {
        last_marked(ls.drop_last(), m)
    }
}

pub open spec fn marker_code(line: Seq<char>) -> i32 {
    match parse_i32(trim(trim(line).skip(exit_marker().len() as int))) {
        Some(c) => c,
        None => 1,
    }
}

pub open spec fn profile_output_spec(s: Seq<char>) -> (Seq<char>, i32) {
    let ls = lines(s);
    match last_marked(ls, exit_marker()) {
        Some(i) => (join(ls.take(i), "\n"@), marker_code(ls[i])),
        None => (join(ls, "\n"@), 0),
    }
}

proof fn lemma_last_marked_take(ls: Seq<Seq<char>>, m: Seq<char>, i: int)
    requires
        0 <= i < ls.len(),
        !starts_with(trim(ls[i]), m),
    ensures
        last_marked(ls.take(i + 1), m) == last_marked(ls.take(i), m),
{
    assert(ls.take(i + 1).drop_last() =~= ls.take(i));
}

proof fn lemma_last_marked_bound(ls: Seq<Seq<char>>, m: Seq<char>)
    ensures
        last_marked(ls, m) matches Some(i) ==> 0 <= i < ls.len() && starts_with(trim(ls[i]), m),
    decreases ls.len(),
{
    if ls.len() > 0 && !starts_with(trim(ls.last()), m) {
        lemma_last_marked_bound(ls.drop_last(), m);
    }
}

proof fn lemma_last_marked_at(ls: Seq<Seq<char>>, m: Seq<char>, k: int)
    requires
        0 <= k < ls.len(),
        starts_with(trim(ls[k]), m),
        forall|j: int| k < j < ls.len() ==> !starts_with(trim(#[trigger] ls[j]), m),
    ensures
        last_marked(ls, m) == Some(k),
    decreases ls.len(),
{
    if k < ls.len() - 1 {
        let d = ls.drop_last();
        assert(!starts_with(trim(ls[ls.len() - 1]), m));
        assert forall|j: int| k < j < d.len() implies !starts_with(trim(#[trigger] d[j]), m) by {
            assert(d[j] == ls[j]);
        }
        lemma_last_marked_at(d, m, k);
    }
}

/// What the shell wrapper of a profile command prints: the command's output, then
/// the marker line with the exit status, then whatever follows.
pub open spec fn marked_output(output: Seq<char>, code: i32, rest: Seq<char>) -> Seq<char> {
    output + "\n"@ + exit_marker() + decimal(code as int) + "\n"@ + rest
}

/// The console reads back the exit status that the wrapper printed, whatever the
/// command's output, when nothing after the marker line looks like a marker; the text
/// it reads back is the output's lines joined by `\n`.
pub proof fn law_exit_marker_code(output: Seq<char>, code: i32, rest: Seq<char>)
    requires
        forall|i: int| 0 <= i < lines(rest).len() ==> !starts_with(trim(#[trigger] lines(rest)[i]), exit_marker()),
    ensures
        profile_output_spec(marked_output(output, code, rest)) == (join(lines(output + "\n"@), "\n"@), code),
{
    reveal_strlit("__OS1_EXIT__:");
    reveal_strlit("\n");
    let d = decimal(code as int);
    let m = exit_marker() + d;
    let full = marked_output(output, code, rest);
    // The digits of the status.
    let n: nat = if code < 0 {
        (-(code as int)) as nat
    } else {
        code as nat
    };
    lemma_nat_digits(n);
    assert(d.len() > 0 && (d[0] == '-' || is_digit(d[0])));
    assert(is_digit(d.last())) by {
        if code < 0 {
            assert(d.last() == nat_digits(n).last());
        }
    }
    assert forall|i: int| 0 <= i < d.len() implies #[trigger] d[i] != '\n' by {
        if code < 0 && i > 0 {
            assert(d[i] == nat_digits(n)[i - 1]);
        }
    }
    assert forall|i: int| 0 <= i < m.len() implies #[trigger] m[i] != '\n' by {
        if i >= exit_marker().len() {
            assert(m[i] == d[i - exit_marker().len()]);
        }
    }
    // The lines: those of the output, the marker line, those of the rest.
    assert(full =~= output + "\n"@ + (m + "\n"@ + rest));
    lemma_lines_split(output, m + "\n"@ + rest);
    lemma_lines_split(m, rest);
    let t = m + "\n"@;
    lemma_line_end(t, m.len() as int);
    assert(t.take(m.len() as int) =~= m);
    assert(t.skip(m.len() as int + 1) =~= Seq::<char>::empty());
    assert(lines(Seq::<char>::empty()) =~= Seq::<Seq<char>>::empty());
    assert(m.last() == d.last());
    assert(strip_cr(m) == m);
    assert(lines(t) == seq![strip_cr(m)] + lines(Seq::<char>::empty()));
    let head = lines(output + "\n"@);
    let ls = lines(full);
    assert(ls =~= head + seq![m] + lines(rest));
    // The marker line is the last marked one.
    lemma_trim_by_unchanged(m, Pat::Space);
    assert(m.take(exit_marker().len() as int) =~= exit_marker());
    assert(ls[head.len() as int] == m);
    assert forall|j: int| head.len() < j < ls.len() implies !starts_with(trim(#[trigger] ls[j]), exit_marker()) by {
        assert(ls[j] == lines(rest)[j - head.len() - 1]);
    }
    lemma_last_marked_at(ls, exit_marker(), head.len() as int);
    assert(ls.take(head.len() as int) =~= head);
    // Its status.
    assert(m.skip(exit_marker().len() as int) =~= d);
    lemma_trim_by_unchanged(d, Pat::Space);
    law_parse_format_i32(code);
}

/// The console reads back what the wrapper printed: the command's output and its
/// exit status, when the output holds no carriage return and nothing after the
/// marker line looks like a marker.
pub proof fn law_exit_marker_round_trip(output: Seq<char>, code: i32, rest: Seq<char>)
    requires
        forall|i: int| 0 <= i < output.len() ==> #[trigger] output[i] != '\r',
        forall|i: int| 0 <= i < lines(rest).len() ==> !starts_with(trim(#[trigger] lines(rest)[i]), exit_marker()),
    ensures
        profile_output_spec(marked_output(output, code, rest)) == (output, code),
{
    law_exit_marker_code(output, code, rest);
    lemma_join_lines(output);
}

/// Splits the output of a profile command into its text and the exit status after
/// the last `__OS1_EXIT__:` line (0 when there is none, 1 when it is no number); the
/// text is the lines before that marker joined by `\n`.
pub fn parse_profile_command_output(output: &str) -> (r: (String, i32))
    ensures
        (r.0@, r.1) == profile_output_spec(output@),
{
    let marker = to_chars("__OS1_EXIT__:");
    let mut ls = lines_of(output);
    let ghost d = ls.deep_view();
    let mut i: usize = ls.len();
    assert(d.take(i as int) =~= d);
    while i > 0
        invariant
            i <= ls.len(),
            d == ls.deep_view(),
            d == lines(output@),
            marker@ == exit_marker(),
            last_marked(d, exit_marker()) == last_marked(d.take(i as int), exit_marker()),
        decreases i,
    {
        let t = trim_str(ls[i - 1].as_str());
        let tv = to_chars(t.as_str());
        assert(d[i - 1] == ls@[i - 1]@);
        assert(d.take(i as int).last() == d[i - 1]);
        if has_prefix(&tv, &marker) {
            let value = string_of(&tv, marker.len(), tv.len());
            assert(value@ =~= t@.skip(marker@.len() as int));
            let vt = trim_str(value.as_str());
            let code = match parse_i32_str(vt.as_str()) {
                Some(c) => c,
                None => 1,
            };
            let idx = i - 1;
            ls.truncate(idx);
            assert(ls.deep_view() =~= d.take(idx as int));
            return (join_strings(&ls, "\n"), code);
        }
        proof {
            lemma_last_marked_take(d, exit_marker(), i - 1);
        }
        i = i - 1;
    }
    assert(d.take(0) =~= Seq::<Seq<char>>::empty());
    (join_strings(&ls, "\n"), 0)
}

// ---------------------------------------------------------------------------
// Failed commands
/// What a command that ran (or failed to start) left behind.
#[derive(Debug)]
pub struct CommandCapture {
    pub stdout: String,
    pub stderr: String,
    pub code: Option<i32>,
}

pub open spec fn error_summary_spec(stdout: Seq<char>, stderr: Seq<char>, code: Option<i32>) -> Seq<
    char,
> {
    let detail = if trim(stderr).len() > 0 {
        trim(stderr)
    } else {
        trim(stdout)
    };
    if detail.len() == 0 {
        match code {
            Some(c) => "Command exited with status "@ + decimal(c as int) + "."@,
            None => "Command failed before it could start."@,
        }
    } else {
        let final_line = if text_lines(detail).len() > 0 {
            text_lines(detail).last()
        } else {
            detail
        };
        match code {
            Some(c) => final_line + " (exit "@ + decimal(c as int) + ")"@,
            None => final_line,
        }
    }
}

/// One line that says why a command failed: the last non-blank line of its error
/// output (or of its standard output when that is empty), with the exit status.
pub fn summarize_command_error(error: &CommandCapture) -> (r: String)
    ensures
        r@ == error_summary_spec(error.stdout@, error.stderr@, error.code),
{
    let mut detail = trim_str(error.stderr.as_str());
    if detail.unicode_len() == 0 {
        detail = trim_str(error.stdout.as_str());
    }
    if detail.unicode_len() == 0 {
        return match error.code {
            Some(code) => {
                let mut r = "Command exited with status ".to_owned();
                let n = format_i32(code);
                r.append(n.as_str());
                r.append(".");
                r
            },
            None => "Command failed before it could start.".to_owned(),
        };
    }
    let ls = nonempty_trimmed_lines(detail.as_str());
    let mut final_line = if ls.len() > 0 {
        ls[ls.len() - 1].clone()
    } else {
        detail.clone()
    };
    match error.code {
        Some(code) => {
            final_line.append(" (exit ");
            let n = format_i32(code);
            final_line.append(n.as_str());
            final_line.append(")");
            final_line
        },
        None => final_line,
    }
}

// ---------------------------------------------------------------------------
// Decoding
/// What `String::from_utf8_lossy` makes of some bytes.
pub uninterp spec fn utf8_lossy(bytes: Seq<u8>) -> Seq<char>;

/// What `String::from_utf16_lossy` makes of some UTF-16 code units.
pub uninterp spec fn utf16_lossy(units: Seq<u16>) -> Seq<char>;

/// `String::from_utf8_lossy`: valid UTF-8 is decoded as it is; other bytes are
/// decoded with replacement characters in place of invalid sequences.
#[verifier::external_body]
fn from_utf8_lossy(bytes: &[u8]) -> (r: String)
    ensures
        r@ == utf8_lossy(bytes@),
        valid_utf8(bytes@) ==> r@ == decode_utf8(bytes@),
{
    String::from_utf8_lossy(bytes).into_owned()
}

/// `String::from_utf16_lossy`: code units that are not surrogates each decode to the
/// character with that number; surrogates pair up or become replacement characters.
#[verifier::external_body]
fn from_utf16_lossy(units: &[u16]) -> (r: String)
    ensures
        r@ == utf16_lossy(units@),
        (forall|i: int| 0 <= i < units@.len() ==> #[trigger] units@[i] < 0xD800 || units@[i] >= 0xE000)
            ==> r@ == units@.map_values(|u: u16| u as char),
{
    String::from_utf16_lossy(units)
}

/// Number of zero bytes in `b`.
pub open spec fn zeros(b: Seq<u8>) -> nat
    decreases b.len(),
{
    if b.len() == 0 {
        0
    } else {
        zeros(b.drop_last()) + if b.last() == 0 {
            1nat
        } else {
            0nat
        }
    }
}

/// Whether output looks like UTF-16 (what Windows tools print): two bytes or more,
/// and more than four zero bytes among the first 32.
pub open spec fn looks_utf16(b: Seq<u8>) -> bool {
    b.len() >= 2 && zeros(b.take(if b.len() < 32 {
        b.len() as int
    } else {
        32
    })) > 4
}

/// The bytes read as little-endian 16-bit units; an odd last byte is dropped.
pub open spec fn le_units(b: Seq<u8>) -> Seq<u16> {
    Seq::new(b.len() / 2, |i: int| (b[2 * i] as int + 256 * b[2 * i + 1] as int) as u16)
}

/// The text without NUL characters.
pub open spec fn without_nul(s: Seq<char>) -> Seq<char>
    decreases s.len(),
{
    if s.len() == 0 {
        seq![]
    } else if s.last() == '\0' {
        without_nul(s.drop_last())
    } else {
        without_nul(s.drop_last()).push(s.last())
    }
}

pub open spec fn decode_spec(b: Seq<u8>) -> Seq<char> {
    if looks_utf16(b) {
        without_nul(trim_by(utf16_lossy(le_units(b)), Pat::Ch('\u{feff}')))
    } else {
        without_nul(utf8_lossy(b))
    }
}

/// Bytes below 0x80 are valid UTF-8 and decode to the characters with those numbers.
pub proof fn lemma_ascii_bytes_decode(b: Seq<u8>)
    requires
        forall|i: int| 0 <= i < b.len() ==> #[trigger] b[i] < 0x80,
    ensures
        valid_utf8(b),
        decode_utf8(b) == b.map_values(|x: u8| x as char),
{
    let chars = b.map_values(|x: u8| x as char);
    assert(is_ascii_chars(chars));
    is_ascii_chars_encode_utf8(chars);
    assert(encode_utf8(chars) =~= b) by {
        assert forall|i: int| 0 <= i < b.len() implies encode_utf8(chars)[i] == b[i] by {
            assert(chars[i] as u8 == encode_utf8(chars)[i]);
            assert(chars[i] == b[i] as char);
        }
    }
    encode_utf8_valid_utf8(chars);
    encode_utf8_decode_utf8(chars);
}

/// The text without its NUL characters.
pub fn remove_nul(s: &str) -> (r: String)
    ensures
        r@ == without_nul(s@),
{
    let v = to_chars(s);
    let mut r = String::new();
    let mut i: usize = 0;
    while i < v.len()
        invariant
            i <= v.len(),
            v@ == s@,
            r@ == without_nul(v@.take(i as int)),
        decreases v.len() - i,
    {
        assert(v@.take(i + 1).drop_last() =~= v@.take(i as int));
        if v[i] != '\0' {
            push_char(&mut r, v[i]);
        }
        i = i + 1;
    }
    assert(v@.take(v.len() as int) =~= v@);
    r
}

/// Text of a command's output: UTF-16 when it looks so (without byte-order marks at
/// the ends), else UTF-8, both with invalid data replaced and NULs removed.
pub fn decode_command_output(bytes: &[u8]) -> (r: String)
    ensures
        r@ == decode_spec(bytes@),
        !looks_utf16(bytes@) && valid_utf8(bytes@) ==> r@ == without_nul(decode_utf8(bytes@)),
        looks_utf16(bytes@) && (forall|i: int|
            0 <= i < le_units(bytes@).len() ==> #[trigger] le_units(bytes@)[i] < 0xD800 || le_units(bytes@)[i] >= 0xE000)
            ==> r@ == without_nul(trim_by(le_units(bytes@).map_values(|u: u16| u as char), Pat::Ch('\u{feff}'))),
{
    let n = bytes.len();
    let lim: usize = if n < 32 {
        n
    } else {
        32
    };
    let mut z: usize = 0;
    let mut i: usize = 0;
    while i < lim
        invariant
            i <= lim <= n == bytes@.len(),
            z == zeros(bytes@.take(i as int)),
            z <= i,
        decreases lim - i,
    {
        assert(bytes@.take(i + 1).drop_last() =~= bytes@.take(i as int));
        if bytes[i] == 0 {
            z = z + 1;
        }
        i = i + 1;
    }
    if n >= 2 && z > 4 {
        let mut units: Vec<u16> = Vec::new();
        let mut k: usize = 0;
        while k < n / 2
            invariant
                k <= n / 2,
                n == bytes@.len(),
                units@ =~= le_units(bytes@).take(k as int),
            decreases n / 2 - k,
        {
            let u = (bytes[2 * k] as u16) + 256 * (bytes[2 * k + 1] as u16);
            units.push(u);
            k = k + 1;
        }
        assert(units@ =~= le_units(bytes@));
        let text = from_utf16_lossy(units.as_slice());
        let trimmed = crate::text::trim_by_str(text.as_str(), Pat::Ch('\u{feff}'));
        remove_nul(trimmed.as_str())
    } else {
        let text = from_utf8_lossy(bytes);
        remove_nul(text.as_str())
    }
}

/// Standard output followed by the trimmed error output on a line of its own, when
/// there is error output.
pub open spec fn combine_spec(out: Seq<char>, err: Seq<char>) -> Seq<char> {
    if trim(err).len() > 0 {
        (if trim(out).len() > 0 {
            out.push('\n')
        } else {
            out
        }) + trim(err)
    } else {
        out
    }
}

/// Joins what a command printed to both streams.
pub fn combine_output(stdout: &str, stderr: &str) -> (r: String)
    ensures
        r@ == combine_spec(stdout@, stderr@),
{
    let mut combined = stdout.to_owned();
    let err = trim_str(stderr);
    if err.unicode_len() > 0 {
        let out = trim_str(stdout);
        if out.unicode_len() > 0 {
            push_char(&mut combined, '\n');
        }
        combined.append(err.as_str());
    }
    combined
}

/// What a finished command comes to: on success both streams combined, else the
/// decoded streams with the exit status.
pub fn capture_result(success: bool, stdout: &[u8], stderr: &[u8], code: Option<i32>) -> (r:
    Result<String, CommandCapture>)
    ensures
        success ==> (r matches Ok(s) && s@ == combine_spec(decode_spec(stdout@), decode_spec(stderr@))),
        !success ==> (r matches Err(e) && e.stdout@ == decode_spec(stdout@) && e.stderr@
            == decode_spec(stderr@) && e.code == code),
{
    let out = decode_command_output(stdout);
    let err = decode_command_output(stderr);
    if success {
        Ok(combine_output(out.as_str(), err.as_str()))
    } else {
        Err(CommandCapture { stdout: out, stderr: err, code })
    }
}

} // verus!
