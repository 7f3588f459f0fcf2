//! Character-level text handling: trimming, line splitting, joining and
//! decimal numbers, each stated over `Seq<char>`.
use vstd::prelude::*;

verus! {

/// A textual result taken by its characters.
pub open spec fn res_view(r: Result<String, String>) -> Result<Seq<char>, Seq<char>> {
    match r {
        Ok(s) => Ok(s@),
        Err(e) => Err(e@),
    }
}

/// An optional text taken by its characters.
pub open spec fn opt_view(o: Option<String>) -> Option<Seq<char>> {
    match o {
        Some(s) => Some(s@),
        None => None,
    }
}

/// The characters that carry the Unicode `White_Space` property, which is what
/// `char::is_whitespace` (and so `str::trim`) accepts.
pub open spec fn is_ws(c: char) -> bool {
    ||| ('\t' <= c && c <= '\r')
    ||| c == ' '
    ||| c == '\u{85}'
    ||| c == '\u{a0}'
    ||| c == '\u{1680}'
    ||| ('\u{2000}' <= c && c <= '\u{200a}')
    ||| c == '\u{2028}'
    ||| c == '\u{2029}'
    ||| c == '\u{202f}'
    ||| c == '\u{205f}'
    ||| c == '\u{3000}'
}

/// Executable form of `is_ws`.
pub fn is_whitespace(c: char) -> (b: bool)
    ensures
        b == is_ws(c),
{
    ('\t' <= c && c <= '\r') || c == ' ' || c == '\u{85}' || c == '\u{a0}' || c == '\u{1680}'
        || ('\u{2000}' <= c && c <= '\u{200a}') || c == '\u{2028}' || c == '\u{2029}' || c
        == '\u{202f}' || c == '\u{205f}' || c == '\u{3000}'
}

/// What a trim removes from the ends of a text: white space, or one given character.
#[derive(Clone, Copy)]
pub enum Pat {
    Space,
    Ch(char),
}

pub open spec fn pat_matches(p: Pat, c: char) -> bool {
    match p {
        Pat::Space => is_ws(c),
        Pat::Ch(d) => c == d,
    }
}

fn pat_test(p: Pat, c: char) -> (b: bool)
    ensures
        b == pat_matches(p, c),
{
    match p {
        Pat::Space => is_whitespace(c),
        Pat::Ch(d) => c == d,
    }
}

/// The text without its leading characters that match `p`.
pub open spec fn trim_start_by(s: Seq<char>, p: Pat) -> Seq<char>
    decreases s.len(),
{
    if s.len() > 0 && pat_matches(p, s[0]) {
        trim_start_by(s.drop_first(), p)
    } else {
        s
    }
}

/// The text without its trailing characters that match `p`.
pub open spec fn trim_end_by(s: Seq<char>, p: Pat) -> Seq<char>
    decreases s.len(),
{
    if s.len() > 0 && pat_matches(p, s.last()) {
        trim_end_by(s.drop_last(), p)
    } else {
        s
    }
}

/// The text without the characters that match `p` at either end.
pub open spec fn trim_by(s: Seq<char>, p: Pat) -> Seq<char> {
    trim_end_by(trim_start_by(s, p), p)
}

/// `str::trim`: the text without white space at either end.
pub open spec fn trim(s: Seq<char>) -> Seq<char> {
    trim_by(s, Pat::Space)
}

pub proof fn lemma_trim_start_at(s: Seq<char>, p: Pat, i: int)
    requires
        0 <= i <= s.len(),
        forall|j: int| 0 <= j < i ==> pat_matches(p, #[trigger] s[j]),
        i == s.len() || !pat_matches(p, s[i]),
    ensures
        trim_start_by(s, p) == s.skip(i),
    decreases i,
{
    if i == 0 {
        assert(s.skip(0) =~= s);
    } else {
        assert(pat_matches(p, s[0]));
        let t = s.drop_first();
        assert forall|j: int| 0 <= j < i - 1 implies pat_matches(p, #[trigger] t[j]) by {
            assert(t[j] == s[j + 1]);
        }
        lemma_trim_start_at(t, p, i - 1);
        assert(t.skip(i - 1) =~= s.skip(i));
    }
}

pub proof fn lemma_trim_end_at(s: Seq<char>, p: Pat, k: int)
    requires
        0 <= k <= s.len(),
        forall|j: int| k <= j < s.len() ==> pat_matches(p, #[trigger] s[j]),
        k == 0 || !pat_matches(p, s[k - 1]),
    ensures
        trim_end_by(s, p) == s.take(k),
    decreases s.len() - k,
{
    if k == s.len() {
        assert(s.take(k) =~= s);
    } else {
        assert(pat_matches(p, s[s.len() - 1]));
        let t = s.drop_last();
        assert forall|j: int| k <= j < t.len() implies pat_matches(p, #[trigger] t[j]) by {
            assert(t[j] == s[j]);
        }
        lemma_trim_end_at(t, p, k);
        assert(t.take(k) =~= s.take(k));
    }
}

/// A trimmed text neither starts nor ends with a matching character.
pub proof fn lemma_trim_by_ends(s: Seq<char>, p: Pat)
    ensures
        trim_by(s, p).len() > 0 ==> !pat_matches(p, trim_by(s, p)[0]) && !pat_matches(
            p,
            trim_by(s, p).last(),
        ),
        trim_by(s, p).len() <= s.len(),
    decreases s.len(),
{
    lemma_trim_start_props(s, p);
    lemma_trim_end_props(trim_start_by(s, p), p);
}

pub proof fn lemma_trim_start_props(s: Seq<char>, p: Pat)
    ensures
        trim_start_by(s, p).len() <= s.len(),
        trim_start_by(s, p).len() > 0 ==> !pat_matches(p, trim_start_by(s, p)[0]),
        exists|i: int| 0 <= i <= s.len() && trim_start_by(s, p) == s.skip(i),
    decreases s.len(),
{
    if s.len() > 0 && pat_matches(p, s[0]) {
        lemma_trim_start_props(s.drop_first(), p);
        let i = choose|i: int|
            0 <= i <= s.drop_first().len() && trim_start_by(s.drop_first(), p)
                == s.drop_first().skip(i);
        assert(s.drop_first().skip(i) =~= s.skip(i + 1));
    } else {
        assert(s.skip(0) =~= s);
    }
}

pub proof fn lemma_trim_end_props(s: Seq<char>, p: Pat)
    ensures
        trim_end_by(s, p).len() <= s.len(),
        trim_end_by(s, p).len() > 0 ==> !pat_matches(p, trim_end_by(s, p).last()),
        trim_end_by(s, p).len() > 0 && s.len() > 0 && trim_start_by(s, p) == s
            ==> trim_end_by(s, p)[0] == s[0],
        trim_end_by(s, p) == s.take(trim_end_by(s, p).len() as int),
    decreases s.len(),
{
    if s.len() > 0 && pat_matches(p, s.last()) {
        lemma_trim_end_props(s.drop_last(), p);
        let t = trim_end_by(s.drop_last(), p);
        assert(s.drop_last().take(t.len() as int) =~= s.take(t.len() as int));
        if t.len() > 0 && trim_start_by(s, p) == s {
            assert(s.drop_last().take(t.len() as int)[0] == s[0]);
        }
    } else {
        assert(s.take(s.len() as int) =~= s);
    }
}

/// Copies one character into a string (`String::push`).
#[verifier::external_body]
pub(crate) fn push_char(s: &mut String, c: char)
    ensures
        final(s)@ == old(s)@.push(c),
{
    s.push(c)
}

/// The characters of a string slice, in order.
pub fn to_chars(s: &str) -> (v: Vec<char>)
    ensures
        v@ == s@,
{
    let mut v: Vec<char> = Vec::new();
    for c in it: s.chars()
        invariant
            v@ == it.seq().take(it.index()),
            it.seq() == s@,
    {
        v.push(c);
    }
    v
}

/// A string made of the characters `v[lo..hi]`.
pub fn string_of(v: &Vec<char>, lo: usize, hi: usize) -> (s: String)
    requires
        lo <= hi <= v.len(),
    ensures
        s@ == v@.subrange(lo as int, hi as int),
{
    let mut s = String::new();
    let mut i = lo;
    while i < hi
        invariant
            lo <= i <= hi <= v.len(),
            s@ == v@.subrange(lo as int, i as int),
        decreases hi - i,
    {
        push_char(&mut s, v[i]);
        assert(v@.subrange(lo as int, i + 1) =~= v@.subrange(lo as int, i as int).push(v[i as int]));
        i = i + 1;
    }
    s
}

/// The bounds of what remains of `v` after trimming `p` from both ends.
pub fn trim_range(v: &Vec<char>, p: Pat) -> (r: (usize, usize))
    ensures
        r.0 <= r.1 <= v.len(),
        trim_by(v@, p) == v@.subrange(r.0 as int, r.1 as int),
        trim_start_by(v@, p) == v@.skip(r.0 as int),
{
    let n = v.len();
    let mut i: usize = 0;
    while i < n && pat_test(p, v[i])
        invariant
            i <= n == v.len(),
            forall|j: int| 0 <= j < i ==> pat_matches(p, #[trigger] v@[j]),
        decreases n - i,
    {
        i = i + 1;
    }
    proof {
        lemma_trim_start_at(v@, p, i as int);
    }
    let mut k: usize = n;
    while k > i && pat_test(p, v[k - 1])
        invariant
            i <= k <= n == v.len(),
            forall|j: int| k <= j < n ==> pat_matches(p, #[trigger] v@[j]),
        decreases k,
    {
        k = k - 1;
    }
    proof {
        let t = v@.skip(i as int);
        assert forall|j: int| k - i <= j < t.len() implies pat_matches(p, #[trigger] t[j]) by {
            assert(t[j] == v@[j + i]);
        }
        if k > i {
            assert(t[k - i - 1] == v@[k - 1]);
        }
        lemma_trim_end_at(t, p, k - i);
        assert(t.take(k - i) =~= v@.subrange(i as int, k as int));
    }
    (i, k)
}

/// `str::trim_matches` with `p`: the text without matching characters at either end.
pub fn trim_by_str(s: &str, p: Pat) -> (r: String)
    ensures
        r@ == trim_by(s@, p),
{
    let v = to_chars(s);
    let (lo, hi) = trim_range(&v, p);
    string_of(&v, lo, hi)
}

/// `str::trim`: the text without white space at either end.
pub fn trim_str(s: &str) -> (r: String)
    ensures
        r@ == trim(s@),
{
    trim_by_str(s, Pat::Space)
}

/// `str::trim_end_matches` with `p`.
pub fn trim_end_str(s: &str, p: Pat) -> (r: String)
    ensures
        r@ == trim_end_by(s@, p),
{
    let v = to_chars(s);
    let n = v.len();
    let mut k: usize = n;
    while k > 0 && pat_test(p, v[k - 1])
        invariant
            k <= n == v.len(),
            forall|j: int| k <= j < n ==> pat_matches(p, #[trigger] v@[j]),
        decreases k,
    {
        k = k - 1;
    }
    proof {
        lemma_trim_end_at(v@, p, k as int);
    }
    string_of(&v, 0, k)
}

// ---------------------------------------------------------------------------
// Lines
/// Index of the first line feed in `s`, or its length when there is none.
pub open spec fn line_end(s: Seq<char>) -> nat
    decreases s.len(),
{
    if s.len() == 0 {
        0
    } else if s[0] == '\n' {
        0
    } else {
        1 + line_end(s.drop_first())
    }
}

/// A line without the carriage return that ended it.
pub open spec fn strip_cr(l: Seq<char>) -> Seq<char> {
    if l.len() > 0 && l.last() == '\r' {
        l.drop_last()
    } else {
        l
    }
}

/// `str::lines`: the text cut at each `\n`; a line that a `\n` ends loses one `\r`
/// before it, and a final line ending adds no empty line.
pub open spec fn lines(s: Seq<char>) -> Seq<Seq<char>>
    decreases s.len(),
{
    if s.len() == 0 {
        seq![]
    } else {
        let e = line_end(s) as int;
        if e >= s.len() {
            seq![s]
        } else {
            seq![strip_cr(s.take(e))] + lines(s.skip(e + 1))
        }
    }
}

pub proof fn lemma_line_end(t: Seq<char>, k: int)
    requires
        0 <= k <= t.len(),
        forall|j: int| 0 <= j < k ==> #[trigger] t[j] != '\n',
        k == t.len() || t[k] == '\n',
    ensures
        line_end(t) == k,
    decreases k,
{
    if k > 0 {
        let u = t.drop_first();
        assert(t[0] != '\n');
        assert forall|j: int| 0 <= j < k - 1 implies #[trigger] u[j] != '\n' by {
            assert(u[j] == t[j + 1]);
        }
        lemma_line_end(u, k - 1);
    }
}

/// No line contains a line feed.
pub proof fn lemma_lines_no_newline(s: Seq<char>)
    ensures
        forall|i: int, j: int|
            0 <= i < lines(s).len() && 0 <= j < lines(s)[i].len() ==> #[trigger] lines(s)[i][j]
                != '\n',
    decreases s.len(),
{
    if s.len() > 0 {
        let e = line_end(s) as int;
        lemma_line_end_props(s);
        if e < s.len() {
            lemma_lines_no_newline(s.skip(e + 1));
            let l = strip_cr(s.take(e));
            assert forall|j: int| 0 <= j < l.len() implies l[j] != '\n' by {
                assert(l[j] == s[j]);
            }
            assert forall|i: int, j: int|
                0 <= i < lines(s).len() && 0 <= j < lines(s)[i].len() implies #[trigger] lines(
                s,
            )[i][j] != '\n' by {
                if i > 0 {
                    assert(lines(s)[i] == lines(s.skip(e + 1))[i - 1]);
                }
            }
        }
    }
}

pub proof fn lemma_line_end_props(s: Seq<char>)
    ensures
        line_end(s) <= s.len(),
        forall|j: int| 0 <= j < line_end(s) ==> #[trigger] s[j] != '\n',
        line_end(s) < s.len() ==> s[line_end(s) as int] == '\n',
    decreases s.len(),
{
    if s.len() > 0 && s[0] != '\n' {
        let u = s.drop_first();
        lemma_line_end_props(u);
        assert forall|j: int| 0 <= j < line_end(s) implies #[trigger] s[j] != '\n' by {
            if j > 0 {
                assert(s[j] == u[j - 1]);
            }
        }
        if line_end(s) < s.len() {
            assert(s[line_end(s) as int] == u[line_end(u) as int]);
        }
    }
}

/// A line feed ends the lines before it: the lines of `a`, `\n`, `b` are those of
/// `a` followed by `\n`, then those of `b`.
pub proof fn lemma_lines_split(a: Seq<char>, b: Seq<char>)
    ensures
        lines(a + "\n"@ + b) == lines(a + "\n"@) + lines(b),
    decreases a.len(),
{
    reveal_strlit("\n");
    let s = a + "\n"@ + b;
    let t = a + "\n"@;
    lemma_line_end_props(a);
    let k = line_end(a) as int;
    if k < a.len() {
        assert forall|j: int| 0 <= j < k implies #[trigger] s[j] != '\n' by {
            assert(s[j] == a[j]);
        }
        assert forall|j: int| 0 <= j < k implies #[trigger] t[j] != '\n' by {
            assert(t[j] == a[j]);
        }
        assert(s[k] == a[k]);
        assert(t[k] == a[k]);
        lemma_line_end(s, k);
        lemma_line_end(t, k);
        let a2 = a.skip(k + 1);
        lemma_lines_split(a2, b);
        assert(s.take(k) =~= a.take(k));
        assert(t.take(k) =~= a.take(k));
        assert(s.skip(k + 1) =~= a2 + "\n"@ + b);
        assert(t.skip(k + 1) =~= a2 + "\n"@);
        assert(lines(s) =~= lines(t) + lines(b));
    } else {
        assert forall|j: int| 0 <= j < a.len() implies #[trigger] s[j] != '\n' by {
            assert(s[j] == a[j]);
        }
        assert forall|j: int| 0 <= j < a.len() implies #[trigger] t[j] != '\n' by {
            assert(t[j] == a[j]);
        }
        assert(s[a.len() as int] == '\n');
        assert(t[a.len() as int] == '\n');
        lemma_line_end(s, a.len() as int);
        lemma_line_end(t, a.len() as int);
        assert(s.take(a.len() as int) =~= a);
        assert(t.take(a.len() as int) =~= a);
        assert(s.skip(a.len() as int + 1) =~= b);
        assert(t.skip(a.len() as int + 1) =~= Seq::<char>::empty());
        assert(lines(s) == seq![strip_cr(a)] + lines(b));
        assert(lines(Seq::<char>::empty()) =~= Seq::<Seq<char>>::empty());
        assert(lines(t) == seq![strip_cr(a)] + lines(Seq::<char>::empty()));
        assert(lines(s) =~= lines(t) + lines(b));
    }
}

proof fn lemma_join_cons(x: Seq<char>, xs: Seq<Seq<char>>, sep: Seq<char>)
    requires
        xs.len() > 0,
    ensures
        join(seq![x] + xs, sep) == x + sep + join(xs, sep),
    decreases xs.len(),
{
    let l = seq![x] + xs;
    assert(l.last() == xs.last());
    if xs.len() == 1 {
        assert(l.drop_last() =~= seq![x]);
        assert(join(seq![x], sep) == x);
        assert(xs.last() == xs[0]);
    } else {
        lemma_join_cons(x, xs.drop_last(), sep);
        assert(l.drop_last() =~= seq![x] + xs.drop_last());
        assert(join(l, sep) == join(l.drop_last(), sep) + sep + l.last());
        assert(join(xs, sep) == join(xs.drop_last(), sep) + sep + xs.last());
        assert(join(l, sep) =~= x + sep + join(xs, sep));
    }
}

/// Joining the lines of a text that ends with a line feed by `\n` gives back the text
/// without that last line feed, when the text holds no carriage return.
pub proof fn lemma_join_lines(a: Seq<char>)
    requires
        forall|i: int| 0 <= i < a.len() ==> #[trigger] a[i] != '\r',
    ensures
        join(lines(a + "\n"@), "\n"@) == a,
    decreases a.len(),
{
    reveal_strlit("\n");
    let t = a + "\n"@;
    lemma_line_end_props(a);
    let k = line_end(a) as int;
    if k < a.len() {
        assert forall|j: int| 0 <= j < k implies #[trigger] t[j] != '\n' by {
            assert(t[j] == a[j]);
        }
        assert(t[k] == a[k]);
        lemma_line_end(t, k);
        let a2 = a.skip(k + 1);
        assert forall|i: int| 0 <= i < a2.len() implies #[trigger] a2[i] != '\r' by {
            assert(a2[i] == a[i + k + 1]);
        }
        lemma_join_lines(a2);
        assert(t.take(k) =~= a.take(k));
        assert(t.skip(k + 1) =~= a2 + "\n"@);
        if k > 0 {
            assert(a.take(k).last() == a[k - 1]);
        }
        assert(strip_cr(a.take(k)) == a.take(k));
        let rest = lines(a2 + "\n"@);
        assert(rest.len() > 0) by {
            let u = a2 + "\n"@;
            lemma_line_end_props(u);
        }
        assert(lines(t) =~= seq![a.take(k)] + rest);
        lemma_join_cons(a.take(k), rest, "\n"@);
        assert(a.take(k) + "\n"@ + a2 =~= a);
    } else {
        assert forall|j: int| 0 <= j < a.len() implies #[trigger] t[j] != '\n' by {
            assert(t[j] == a[j]);
        }
        assert(t[a.len() as int] == '\n');
        lemma_line_end(t, a.len() as int);
        assert(t.take(a.len() as int) =~= a);
        assert(t.skip(a.len() as int + 1) =~= Seq::<char>::empty());
        if a.len() > 0 {
            assert(a.last() == a[a.len() - 1]);
        }
        assert(strip_cr(a) == a);
        assert(lines(Seq::<char>::empty()) =~= Seq::<Seq<char>>::empty());
        assert(lines(t) == seq![strip_cr(a)] + lines(Seq::<char>::empty()));
        assert(lines(t) =~= seq![a]);
    }
}

/// Trimming the start removes a run of matching characters.
pub proof fn lemma_trim_start_removed(s: Seq<char>, p: Pat)
    ensures
        exists|i: int|
            0 <= i <= s.len() && trim_start_by(s, p) == s.skip(i) && forall|j: int|
                0 <= j < i ==> pat_matches(p, #[trigger] s[j]),
    decreases s.len(),
{
    if s.len() > 0 && pat_matches(p, s[0]) {
        let t = s.drop_first();
        lemma_trim_start_removed(t, p);
        let i = choose|i: int|
            0 <= i <= t.len() && trim_start_by(t, p) == t.skip(i) && forall|j: int|
                0 <= j < i ==> pat_matches(p, #[trigger] t[j]);
        assert(t.skip(i) =~= s.skip(i + 1));
        assert forall|j: int| 0 <= j < i + 1 implies pat_matches(p, #[trigger] s[j]) by {
            if j > 0 {
                assert(s[j] == t[j - 1]);
            }
        }
    } else {
        assert(s.skip(0) =~= s);
    }
}

/// Trimming the end removes a run of matching characters.
pub proof fn lemma_trim_end_removed(s: Seq<char>, p: Pat)
    ensures
        exists|n: int|
            0 <= n <= s.len() && trim_end_by(s, p) == s.take(n) && forall|j: int|
                n <= j < s.len() ==> pat_matches(p, #[trigger] s[j]),
    decreases s.len(),
{
    if s.len() > 0 && pat_matches(p, s.last()) {
        let t = s.drop_last();
        lemma_trim_end_removed(t, p);
        let n = choose|n: int|
            0 <= n <= t.len() && trim_end_by(t, p) == t.take(n) && forall|j: int|
                n <= j < t.len() ==> pat_matches(p, #[trigger] t[j]);
        assert(t.take(n) =~= s.take(n));
        assert forall|j: int| n <= j < s.len() implies pat_matches(p, #[trigger] s[j]) by {
            if j < s.len() - 1 {
                assert(s[j] == t[j]);
            }
        }
    } else {
        assert(s.take(s.len() as int) =~= s);
    }
}

/// A text whose ends do not match `p` is its own trim by `p`.
pub proof fn lemma_trim_by_unchanged(s: Seq<char>, p: Pat)
    requires
        s.len() > 0,
        !pat_matches(p, s[0]),
        !pat_matches(p, s.last()),
    ensures
        trim_by(s, p) == s,
{
    lemma_trim_start_at(s, p, 0);
    assert(s.skip(0) =~= s);
    lemma_trim_end_at(s, p, s.len() as int);
    assert(s.take(s.len() as int) =~= s);
}

/// A text without line feeds or carriage returns is a single line, with or without
/// a line feed after it.
pub proof fn lemma_single_line(x: Seq<char>)
    requires
        forall|i: int| 0 <= i < x.len() ==> #[trigger] x[i] != '\n' && x[i] != '\r',
    ensures
        lines(x + "\n"@) == seq![x],
        x.len() > 0 ==> lines(x) == seq![x],
{
    reveal_strlit("\n");
    let t = x + "\n"@;
    assert forall|j: int| 0 <= j < x.len() implies #[trigger] t[j] != '\n' by {
        assert(t[j] == x[j]);
    }
    lemma_line_end(t, x.len() as int);
    assert(t.take(x.len() as int) =~= x);
    assert(t.skip(x.len() as int + 1) =~= Seq::<char>::empty());
    assert(lines(Seq::<char>::empty()) =~= Seq::<Seq<char>>::empty());
    if x.len() > 0 {
        assert(x.last() == x[x.len() - 1]);
        lemma_line_end(x, x.len() as int);
    }
    assert(strip_cr(x) == x);
    assert(lines(t) =~= seq![x]);
}

/// `str::lines`: the lines of `s`.
pub fn lines_of(s: &str) -> (r: Vec<String>)
    ensures
        r.deep_view() == lines(s@),
{
    let v = to_chars(s);
    let n = v.len();
    let mut out: Vec<String> = Vec::new();
    let mut start: usize = 0;
    let mut i: usize = 0;
    assert(v@.skip(0) =~= v@);
    while i < n
        invariant
            n == v.len(),
            v@ == s@,
            start <= i <= n,
            lines(v@) == out.deep_view() + lines(v@.skip(start as int)),
            forall|k: int| start <= k < i ==> #[trigger] v@[k] != '\n',
        decreases n - i,
    {
        if v[i] == '\n' {
            let ghost t = v@.skip(start as int);
            proof {
                assert forall|j: int| 0 <= j < i - start implies #[trigger] t[j] != '\n' by {
                    assert(t[j] == v@[j + start]);
                }
                assert(t[i - start] == v@[i as int]);
                lemma_line_end(t, i - start);
                assert(t.take(i - start) =~= v@.subrange(start as int, i as int));
                assert(t.skip(i - start + 1) =~= v@.skip(i + 1));
            }
            let line = if i > start && v[i - 1] == '\r' {
                let l = string_of(&v, start, i - 1);
                assert(l@ =~= strip_cr(v@.subrange(start as int, i as int)));
                l
            } else {
                string_of(&v, start, i)
            };
            let ghost before = out.deep_view();
            out.push(line);
            assert(out.deep_view() =~= before.push(line@));
            assert(lines(t) =~= seq![line@] + lines(v@.skip(i + 1)));
            start = i + 1;
        }
        i = i + 1;
    }
    if start < n {
        let ghost t = v@.skip(start as int);
        proof {
            assert forall|j: int| 0 <= j < t.len() implies #[trigger] t[j] != '\n' by {
                assert(t[j] == v@[j + start]);
            }
            lemma_line_end(t, t.len() as int);
            assert(t =~= v@.subrange(start as int, n as int));
        }
        let line = string_of(&v, start, n);
        let ghost before = out.deep_view();
        out.push(line);
        assert(out.deep_view() =~= before.push(line@));
        assert(lines(v@) =~= out.deep_view());
    } else {
        assert(v@.skip(start as int) =~= Seq::<char>::empty());
        assert(lines(v@) =~= out.deep_view());
    }
    out
}

// ---------------------------------------------------------------------------
// Splitting at a character
/// Index of the first `d` in `s`, or its length when there is none.
pub open spec fn char_end(s: Seq<char>, d: char) -> nat
    decreases s.len(),
{
    if s.len() == 0 {
        0
    } else if s[0] == d {
        0
    } else {
        1 + char_end(s.drop_first(), d)
    }
}

/// `str::split` at a character: the pieces between the `d`s, empty ones included.
pub open spec fn split_at_char(s: Seq<char>, d: char) -> Seq<Seq<char>>
    decreases s.len(),
{
    let e = char_end(s, d) as int;
    if e >= s.len() {
        seq![s]
    } else {
        seq![s.take(e)] + split_at_char(s.skip(e + 1), d)
    }
}

pub proof fn lemma_char_end(t: Seq<char>, d: char, k: int)
    requires
        0 <= k <= t.len(),
        forall|j: int| 0 <= j < k ==> #[trigger] t[j] != d,
        k == t.len() || t[k] == d,
    ensures
        char_end(t, d) == k,
    decreases k,
{
    if k > 0 {
        let u = t.drop_first();
        assert(t[0] != d);
        assert forall|j: int| 0 <= j < k - 1 implies #[trigger] u[j] != d by {
            assert(u[j] == t[j + 1]);
        }
        lemma_char_end(u, d, k - 1);
    }
}

/// `str::split` at a character.
pub fn split_char(s: &str, d: char) -> (r: Vec<String>)
    ensures
        r.deep_view() == split_at_char(s@, d),
{
    let v = to_chars(s);
    let n = v.len();
    let mut out: Vec<String> = Vec::new();
    let mut start: usize = 0;
    let mut i: usize = 0;
    assert(v@.skip(0) =~= v@);
    while i < n
        invariant
            n == v.len(),
            v@ == s@,
            start <= i <= n,
            split_at_char(v@, d) == out.deep_view() + split_at_char(v@.skip(start as int), d),
            forall|k: int| start <= k < i ==> #[trigger] v@[k] != d,
        decreases n - i,
    {
        if v[i] == d {
            let ghost t = v@.skip(start as int);
            proof {
                assert forall|j: int| 0 <= j < i - start implies #[trigger] t[j] != d by {
                    assert(t[j] == v@[j + start]);
                }
                assert(t[i - start] == v@[i as int]);
                lemma_char_end(t, d, i - start);
                assert(t.take(i - start) =~= v@.subrange(start as int, i as int));
                assert(t.skip(i - start + 1) =~= v@.skip(i + 1));
            }
            let piece = string_of(&v, start, i);
            let ghost before = out.deep_view();
            out.push(piece);
            assert(out.deep_view() =~= before.push(piece@));
            assert(split_at_char(t, d) =~= seq![piece@] + split_at_char(v@.skip(i + 1), d));
            start = i + 1;
        }
        i = i + 1;
    }
    let ghost t = v@.skip(start as int);
    proof {
        assert forall|j: int| 0 <= j < t.len() implies #[trigger] t[j] != d by {
            assert(t[j] == v@[j + start]);
        }
        lemma_char_end(t, d, t.len() as int);
        assert(t =~= v@.subrange(start as int, n as int));
    }
    let piece = string_of(&v, start, n);
    let ghost before = out.deep_view();
    out.push(piece);
    assert(out.deep_view() =~= before.push(piece@));
    assert(split_at_char(v@, d) =~= out.deep_view());
    out
}

// ---------------------------------------------------------------------------
// Joining
/// The items with `sep` between each two of them (`[String]::join`).
pub open spec fn join(ls: Seq<Seq<char>>, sep: Seq<char>) -> Seq<char>
    decreases ls.len(),
{
    if ls.len() == 0 {
        seq![]
    } else if ls.len() == 1 {
        ls[0]
    } else {
        join(ls.drop_last(), sep) + sep + ls.last()
    }
}

/// `[String]::join`.
pub fn join_strings(ls: &Vec<String>, sep: &str) -> (r: String)
    ensures
        r@ == join(ls.deep_view(), sep@),
{
    let mut r = String::new();
    let ghost d = ls.deep_view();
    let mut i: usize = 0;
    while i < ls.len()
        invariant
            i <= ls.len(),
            d == ls.deep_view(),
            r@ == join(d.take(i as int), sep@),
        decreases ls.len() - i,
    {
        if i > 0 {
            r.append(sep);
        }
        r.append(ls[i].as_str());
        assert(d.take(i + 1).drop_last() =~= d.take(i as int));
        if i == 0 {
            assert(r@ =~= join(d.take(1), sep@));
        }
        i = i + 1;
    }
    assert(d.take(ls.len() as int) =~= d);
    r
}

// ---------------------------------------------------------------------------
// Prefixes
pub open spec fn starts_with(s: Seq<char>, p: Seq<char>) -> bool {
    p.len() <= s.len() && s.take(p.len() as int) == p
}

/// Whether `s` begins with `p`.
pub fn has_prefix(s: &Vec<char>, p: &Vec<char>) -> (b: bool)
    ensures
        b == starts_with(s@, p@),
{
    if p.len() > s.len() {
        return false;
    }
    let mut i: usize = 0;
    while i < p.len()
        invariant
            p.len() <= s.len(),
            i <= p.len(),
            forall|j: int| 0 <= j < i ==> s@[j] == p@[j],
        decreases p.len() - i,
    {
        if s[i] != p[i] {
            assert(s@.take(p.len() as int)[i as int] != p@[i as int]);
            return false;
        }
        i = i + 1;
    }
    assert(s@.take(p.len() as int) =~= p@);
    true
}

/// Whether two texts are equal.
pub fn str_eq(a: &str, b: &str) -> (r: bool)
    ensures
        r == (a@ == b@),
{
    let x = a.to_owned();
    let y = b.to_owned();
    x == y
}

// ---------------------------------------------------------------------------
// Decimal numbers
/// The value of a string of decimal digits.
pub open spec fn digits_value(s: Seq<char>) -> int
    decreases s.len(),
{
    if s.len() == 0 {
        0
    } else {
        digits_value(s.drop_last()) * 10 + (s.last() as int - '0' as int)
    }
}

pub open spec fn is_digit(c: char) -> bool {
    '0' <= c && c <= '9'
}

pub open spec fn all_digits(s: Seq<char>) -> bool {
    forall|i: int| 0 <= i < s.len() ==> is_digit(#[trigger] s[i])
}

/// `str::parse::<i32>`: an optional `+` or `-`, then one or more ASCII digits, whose
/// value fits in an `i32`.
pub open spec fn parse_i32(s: Seq<char>) -> Option<i32> {
    let neg = s.len() > 0 && s[0] == '-';
    let body = if s.len() > 0 && (s[0] == '-' || s[0] == '+') {
        s.drop_first()
    } else {
        s
    };
    let v = if neg {
        -digits_value(body)
    } else {
        digits_value(body)
    };
    if body.len() > 0 && all_digits(body) && i32::MIN <= v <= i32::MAX {
        Some(v as i32)
    } else {
        None
    }
}

/// Parses an `i32` in decimal as `str::parse` does.
pub fn parse_i32_str(s: &str) -> (r: Option<i32>)
    ensures
        r == parse_i32(s@),
{
    let v = to_chars(s);
    let n = v.len();
    let neg = n > 0 && v[0] == '-';
    let start: usize = if n > 0 && (v[0] == '-' || v[0] == '+') {
        1
    } else {
        0
    };
    let ghost body = v@.skip(start as int);
    assert(body =~= (if v@.len() > 0 && (v@[0] == '-' || v@[0] == '+') {
        v@.drop_first()
    } else {
        v@
    }));
    if start >= n {
        return None;
    }
    let cap: i64 = 2147483649;
    let mut acc: i64 = 0;
    let mut i: usize = start;
    while i < n
        invariant
            start <= i <= n == v.len(),
            v@ == s@,
            body == v@.skip(start as int),
            body == (if v@.len() > 0 && (v@[0] == '-' || v@[0] == '+') {
                v@.drop_first()
            } else {
                v@
            }),
            neg == (v@.len() > 0 && v@[0] == '-'),
            forall|j: int| start <= j < i ==> is_digit(#[trigger] v@[j]),
            acc == (if digits_value(v@.subrange(start as int, i as int)) < cap {
                digits_value(v@.subrange(start as int, i as int))
            } else {
                cap as int
            }),
            0 <= acc <= cap,
            cap == 2147483649,
            digits_value(v@.subrange(start as int, i as int)) >= 0,
        decreases n - i,
    {
        let c = v[i];
        if !('0' <= c && c <= '9') {
            assert(body[i - start] == c);
            return None;
        }
        let d = (c as u32 - '0' as u32) as i64;
        let ghost pre = v@.subrange(start as int, i as int);
        assert(v@.subrange(start as int, i + 1).drop_last() =~= pre);
        assert(v@.subrange(start as int, i + 1).last() == c);
        let next = acc * 10 + d;
        acc = if next < cap {
            next
        } else {
            cap
        };
        i = i + 1;
    }
    assert(v@.subrange(start as int, n as int) =~= body);
    assert(all_digits(body)) by {
        assert forall|j: int| 0 <= j < body.len() implies is_digit(#[trigger] body[j]) by {
            assert(body[j] == v@[j + start]);
        }
    }
    if neg {
        if acc <= 2147483648 {
            Some((0 - acc) as i32)
        } else {
            None
        }
    } else {
        if acc <= 2147483647 {
            Some(acc as i32)
        } else {
            None
        }
    }
}

/// The decimal digits of a natural number, most significant first, without
/// leading zeros (a single `0` for zero).
pub open spec fn nat_digits(n: nat) -> Seq<char>
    decreases n,
{
    if n < 10 {
        seq![(('0' as u32) + n) as char]
    } else {
        nat_digits(n / 10).push((('0' as u32) + n % 10) as char)
    }
}

/// The text that `i32`'s `Display` prints: a `-` for negative numbers, then the digits.
pub open spec fn decimal(v: int) -> Seq<char> {
    if v < 0 {
        seq!['-'] + nat_digits((-v) as nat)
    } else {
        nat_digits(v as nat)
    }
}

pub proof fn lemma_nat_digits(n: nat)
    ensures
        nat_digits(n).len() > 0,
        all_digits(nat_digits(n)),
        digits_value(nat_digits(n)) == n,
        n > 0 ==> nat_digits(n)[0] != '0',
    decreases n,
{
    if n >= 10 {
        lemma_nat_digits(n / 10);
        let d = nat_digits(n);
        assert(d.drop_last() =~= nat_digits(n / 10));
        assert forall|i: int| 0 <= i < d.len() implies is_digit(#[trigger] d[i]) by {
            if i < d.len() - 1 {
                assert(d[i] == nat_digits(n / 10)[i]);
            }
        }
        assert(d[0] == nat_digits(n / 10)[0]);
        let r = n % 10;
        assert(n == (n / 10) * 10 + n % 10);
        assert(d.last() == (('0' as u32) + r) as char);
        assert(d.last() as int - '0' as int == r);
        assert(digits_value(d) == digits_value(d.drop_last()) * 10 + (d.last() as int - '0' as int));
    } else {
        let d = nat_digits(n);
        assert(d.drop_last() =~= Seq::<char>::empty());
        assert(d.last() as int - '0' as int == n);
        assert(digits_value(d) == digits_value(d.drop_last()) * 10 + (d.last() as int - '0' as int));
    }
}

/// Formats a natural number in decimal.
pub fn format_nat(n: u64) -> (r: String)
    ensures
        r@ == nat_digits(n as nat),
    decreases n,
{
    if n < 10 {
        let mut s = String::new();
        let c = char_of_digit(n as u32);
        push_char(&mut s, c);
        assert(s@ =~= nat_digits(n as nat));
        s
    } else {
        let mut s = format_nat(n / 10);
        push_char(&mut s, char_of_digit((n % 10) as u32));
        s
    }
}

fn char_of_digit(d: u32) -> (c: char)
    requires
        d < 10,
    ensures
        c == (('0' as u32) + d) as char,
{
    if d == 0 {
        '0'
    } else if d == 1 {
        '1'
    } else if d == 2 {
        '2'
    } else if d == 3 {
        '3'
    } else if d == 4 {
        '4'
    } else if d == 5 {
        '5'
    } else if d == 6 {
        '6'
    } else if d == 7 {
        '7'
    } else if d == 8 {
        '8'
    } else {
        '9'
    }
}

/// Formats an `i32` as its `Display` impl does.
pub fn format_i32(v: i32) -> (r: String)
    ensures
        r@ == decimal(v as int),
{
    if v < 0 {
        let m = (0 - (v as i64)) as u64;
        let mut s = String::new();
        push_char(&mut s, '-');
        let t = format_nat(m);
        s.append(t.as_str());
        s
    } else {
        format_nat(v as u64)
    }
}

/// Formatting then parsing gives back the number.
pub proof fn law_parse_format_i32(v: i32)
    ensures
        parse_i32(decimal(v as int)) == Some(v),
{
    if v < 0 {
        let n = (-(v as int)) as nat;
        lemma_nat_digits(n);
        let s = decimal(v as int);
        assert(s.drop_first() =~= nat_digits(n));
    } else {
        lemma_nat_digits(v as nat);
        let s = decimal(v as int);
        if s[0] == '+' || s[0] == '-' {
            assert(is_digit(s[0]));
        }
    }
}

} // verus!
