//! The Hermes profiles of a distro: listing them in a stable order.
use vstd::prelude::*;
use crate::bridge::{
    distro_from_reply, distro_reply, fail_msg, failure, home_args, home_of, home_request,
    provided_distro, provided_spec, run_wsl_status, test_args, test_request, unexpected, unexpected_reply, run_wsl_capture_result_owned,
    wsl_req, Reply, Request, Step,
};
use crate::env::find_char;

use crate::text::{
    char_end, lines, lines_of, string_of, to_chars, trim_end_str, trim_str, Pat,
};

verus! {

/// A Hermes profile: its name, its folder, whether it is the base profile, and
/// whether its folder exists.
#[derive(Debug)]
pub struct HermesProfile {
    pub name: String,
    pub path: String,
    pub is_default: bool,
    pub exists: bool,
}

impl HermesProfile {
    pub open spec fn view(self) -> (Seq<char>, Seq<char>, bool, bool) {
        (self.name@, self.path@, self.is_default, self.exists)
    }
}

/// The profiles of a distro.
#[derive(Debug)]
pub struct HermesProfileCatalog {
    pub distro: String,
    pub profiles: Vec<HermesProfile>,
}

pub open spec fn profiles_view(ps: Seq<HermesProfile>) -> Seq<(Seq<char>, Seq<char>, bool, bool)> {
    ps.map_values(|p: HermesProfile| p.view())
}

/// What `str::to_lowercase` makes of a text (Unicode lower case).
pub uninterp spec fn unicode_lower(s: Seq<char>) -> Seq<char>;

/// `str::to_lowercase`: the text in Unicode lower case.
#[verifier::external_body]
pub(crate) fn to_lowercase(s: &str) -> (r: String)
    ensures
        r@ == unicode_lower(s@),
{
    s.to_lowercase()
}

/// Whether `a` comes before `b` character by character (what `String`'s order does).
pub open spec fn text_lt(a: Seq<char>, b: Seq<char>) -> bool
    decreases a.len(),
{
    if a.len() == 0 {
        b.len() > 0
    } else if b.len() == 0 {
        false
    } else if a[0] != b[0] {
        (a[0] as u32) < (b[0] as u32)
    } else {
        text_lt(a.drop_first(), b.drop_first())
    }
}

/// Whether `a` comes before `b`.
pub fn text_less(a: &Vec<char>, b: &Vec<char>) -> (r: bool)
    ensures
        r == text_lt(a@, b@),
{
    let mut i: usize = 0;
    assert(a@.skip(0) =~= a@);
    assert(b@.skip(0) =~= b@);
    while i < a.len() && i < b.len() && a[i] == b[i]
        invariant
            i <= a.len(),
            i <= b.len(),
            text_lt(a@, b@) == text_lt(a@.skip(i as int), b@.skip(i as int)),
        decreases a.len() - i,
    {
        assert(a@.skip(i as int).drop_first() =~= a@.skip(i + 1));
        assert(b@.skip(i as int).drop_first() =~= b@.skip(i + 1));
        i = i + 1;
    }
    if i == a.len() {
        assert(a@.skip(i as int).len() == 0);
        i < b.len()
    } else if i == b.len() {
        false
    } else {
        assert(a@.skip(i as int)[0] == a@[i as int]);
        assert(b@.skip(i as int)[0] == b@[i as int]);
        (a[i] as u32) < (b[i] as u32)
    }
}

/// The order of the catalog: other profiles before the base one, then by lower-case
/// name.
pub open spec fn profile_lt(a: (Seq<char>, Seq<char>, bool, bool), b: (Seq<char>, Seq<char>, bool, bool)) -> bool {
    (!a.2 && b.2) || (a.2 == b.2 && text_lt(unicode_lower(a.0), unicode_lower(b.0)))
}

/// Where a stable sort puts `x` among `t`: after every profile that does not come
/// after it.
pub open spec fn insert_pos(t: Seq<(Seq<char>, Seq<char>, bool, bool)>, x: (Seq<char>, Seq<char>, bool, bool)) -> int
    decreases t.len(),
{
    if t.len() == 0 {
        0
    } else if profile_lt(x, t[0]) {
        0
    } else {
        1 + insert_pos(t.drop_first(), x)
    }
}

pub open spec fn insert_sorted(t: Seq<(Seq<char>, Seq<char>, bool, bool)>, x: (Seq<char>, Seq<char>, bool, bool)) -> Seq<(Seq<char>, Seq<char>, bool, bool)> {
    t.take(insert_pos(t, x)).push(x) + t.skip(insert_pos(t, x))
}

/// The stable sort of profiles by (is base profile, lower-case name).
pub open spec fn sort_profiles_spec(s: Seq<(Seq<char>, Seq<char>, bool, bool)>) -> Seq<(Seq<char>, Seq<char>, bool, bool)>
    decreases s.len(),
{
    if s.len() == 0 {
        seq![]
    } else {
        insert_sorted(sort_profiles_spec(s.drop_last()), s.last())
    }
}

proof fn lemma_insert_pos(t: Seq<(Seq<char>, Seq<char>, bool, bool)>, x: (Seq<char>, Seq<char>, bool, bool), j: int)
    requires
        0 <= j <= t.len(),
        forall|k: int| 0 <= k < j ==> !profile_lt(x, #[trigger] t[k]),
        j == t.len() || profile_lt(x, t[j]),
    ensures
        insert_pos(t, x) == j,
    decreases j,
{
    if j > 0 {
        assert(!profile_lt(x, t[0]));
        let u = t.drop_first();
        assert forall|k: int| 0 <= k < j - 1 implies !profile_lt(x, #[trigger] u[k]) by {
            assert(u[k] == t[k + 1]);
        }
        lemma_insert_pos(u, x, j - 1);
    }
}

pub proof fn lemma_text_lt_irreflexive(a: Seq<char>)
    ensures
        !text_lt(a, a),
    decreases a.len(),
{
    if a.len() > 0 {
        lemma_text_lt_irreflexive(a.drop_first());
    }
}

pub proof fn lemma_text_lt_transitive(a: Seq<char>, b: Seq<char>, c: Seq<char>)
    requires
        text_lt(a, b),
        text_lt(b, c),
    ensures
        text_lt(a, c),
    decreases a.len(),
{
    if a.len() > 0 && b.len() > 0 && c.len() > 0 && a[0] == b[0] && b[0] == c[0] {
        lemma_text_lt_transitive(a.drop_first(), b.drop_first(), c.drop_first());
    }
}

pub proof fn lemma_profile_lt_transitive(
    a: (Seq<char>, Seq<char>, bool, bool),
    b: (Seq<char>, Seq<char>, bool, bool),
    c: (Seq<char>, Seq<char>, bool, bool),
)
    requires
        profile_lt(a, b),
        profile_lt(b, c),
    ensures
        profile_lt(a, c),
{
    if a.2 == b.2 && b.2 == c.2 {
        lemma_text_lt_transitive(unicode_lower(a.0), unicode_lower(b.0), unicode_lower(c.0));
    }
}

pub proof fn lemma_profile_lt_irreflexive(a: (Seq<char>, Seq<char>, bool, bool))
    ensures
        !profile_lt(a, a),
{
    lemma_text_lt_irreflexive(unicode_lower(a.0));
}

/// Whether profiles are in the order of the catalog: no profile comes before one
/// listed ahead of it.
pub open spec fn profiles_sorted(s: Seq<(Seq<char>, Seq<char>, bool, bool)>) -> bool {
    forall|i: int, j: int| 0 <= i < j < s.len() ==> !profile_lt(#[trigger] s[j], #[trigger] s[i])
}

proof fn lemma_insert_sorted(t: Seq<(Seq<char>, Seq<char>, bool, bool)>, x: (Seq<char>, Seq<char>, bool, bool))
    requires
        profiles_sorted(t),
    ensures
        profiles_sorted(insert_sorted(t, x)),
        insert_sorted(t, x).to_multiset() == t.to_multiset().insert(x),
    decreases t.len(),
{
    let p = insert_pos(t, x);
    lemma_insert_pos_props(t, x);
    let r = insert_sorted(t, x);
    assert(r =~= t.insert(p, x));
    vstd::seq_lib::to_multiset_insert(t, p, x);
    assert forall|i: int, j: int| 0 <= i < j < r.len() implies !profile_lt(#[trigger] r[j], #[trigger] r[i]) by {
        if j < p {
            assert(r[i] == t[i] && r[j] == t[j]);
        } else if j == p {
            assert(r[j] == x && r[i] == t[i]);
        } else if i == p {
            assert(r[i] == x && r[j] == t[j - 1]);
            if profile_lt(t[j - 1], x) {
                if j - 1 > p {
                    assert(!profile_lt(t[j - 1], t[p]));
                    lemma_profile_lt_transitive(t[j - 1], x, t[p]);
                } else {
                    lemma_profile_lt_transitive(x, t[p], x);
                    lemma_profile_lt_irreflexive(x);
                }
            }
        } else if i < p {
            assert(r[i] == t[i] && r[j] == t[j - 1]);
        } else {
            assert(r[i] == t[i - 1] && r[j] == t[j - 1]);
        }
    }
}

proof fn lemma_insert_pos_props(t: Seq<(Seq<char>, Seq<char>, bool, bool)>, x: (Seq<char>, Seq<char>, bool, bool))
    ensures
        0 <= insert_pos(t, x) <= t.len(),
        forall|k: int| 0 <= k < insert_pos(t, x) ==> !profile_lt(x, #[trigger] t[k]),
        insert_pos(t, x) < t.len() ==> profile_lt(x, t[insert_pos(t, x)]),
    decreases t.len(),
{
    if t.len() > 0 && !profile_lt(x, t[0]) {
        let u = t.drop_first();
        lemma_insert_pos_props(u, x);
        assert forall|k: int| 0 <= k < insert_pos(t, x) implies !profile_lt(x, #[trigger] t[k]) by {
            if k > 0 {
                assert(t[k] == u[k - 1]);
            }
        }
    }
}

/// The catalog is in order (every other profile before the base one, then by
/// lower-case name) and holds exactly the profiles it was given.
pub proof fn law_catalog_sorted(s: Seq<(Seq<char>, Seq<char>, bool, bool)>)
    ensures
        profiles_sorted(sort_profiles_spec(s)),
        sort_profiles_spec(s).to_multiset() == s.to_multiset(),
        forall|i: int, j: int|
            0 <= i < j < sort_profiles_spec(s).len() && #[trigger] sort_profiles_spec(s)[i].2 ==> #[trigger] sort_profiles_spec(s)[j].2,
    decreases s.len(),
{
    broadcast use vstd::seq_lib::group_to_multiset_ensures;
    let r = sort_profiles_spec(s);
    if s.len() == 0 {
        assert(s.to_multiset() =~= vstd::multiset::Multiset::<(Seq<char>, Seq<char>, bool, bool)>::empty());
        assert(r.to_multiset() =~= vstd::multiset::Multiset::<(Seq<char>, Seq<char>, bool, bool)>::empty());
    } else {
        law_catalog_sorted(s.drop_last());
        lemma_insert_sorted(sort_profiles_spec(s.drop_last()), s.last());
        assert(s.drop_last().push(s.last()) =~= s);
    }
    assert forall|i: int, j: int| 0 <= i < j < r.len() && #[trigger] r[i].2 implies #[trigger] r[j].2 by {
        assert(!profile_lt(r[j], r[i]));
    }
}

fn profile_less(a: &HermesProfile, b: &HermesProfile) -> (r: bool)
    ensures
        r == profile_lt(a.view(), b.view()),
{
    if !a.is_default && b.is_default {
        return true;
    }
    if a.is_default != b.is_default {
        return false;
    }
    let la = to_lowercase(a.name.as_str());
    let lb = to_lowercase(b.name.as_str());
    text_less(&to_chars(la.as_str()), &to_chars(lb.as_str()))
}

/// A copy of a profile entry.
pub fn copy_profile(p: &HermesProfile) -> (r: HermesProfile)
    ensures
        r.view() == p.view(),
{
    HermesProfile { name: p.name.clone(), path: p.path.clone(), is_default: p.is_default, exists: p.exists }
}

/// Sorts profiles: other profiles before the base one, then by lower-case name,
/// keeping the order of equal ones.
pub fn sort_profiles(v: Vec<HermesProfile>) -> (r: Vec<HermesProfile>)
    ensures
        profiles_view(r@) == sort_profiles_spec(profiles_view(v@)),
{
    let ghost orig = profiles_view(v@);
    let mut out: Vec<HermesProfile> = Vec::new();
    let n = v.len();
    let mut i: usize = 0;
    while i < n
        invariant
            n == v.len(),
            orig == profiles_view(v@),
            i <= n,
            profiles_view(out@) == sort_profiles_spec(orig.take(i as int)),
        decreases n - i,
    {
        let x = copy_profile(&v[i]);
        assert(orig[i as int] == x.view());
        let ghost t = profiles_view(out@);
        let mut j: usize = 0;
        while j < out.len() && !profile_less(&x, &out[j])
            invariant
                j <= out.len(),
                t == profiles_view(out@),
                forall|k: int| 0 <= k < j ==> !profile_lt(x.view(), #[trigger] t[k]),
            decreases out.len() - j,
        {
            j = j + 1;
        }
        proof {
            lemma_insert_pos(t, x.view(), j as int);
        }
        out.insert(j, x);
        assert(orig.take(i + 1).drop_last() =~= orig.take(i as int));
        assert(orig.take(i + 1).last() == x.view());
        assert(profiles_view(out@) =~= insert_sorted(t, x.view()));
        i = i + 1;
    }
    assert(orig.take(n as int) =~= orig);
    out
}

// ---------------------------------------------------------------------------
// Listing
/// The profiles that `find -printf '%f\t%p\n'` lists: a line `name<TAB>path` each;
/// lines without a tab are skipped.
pub open spec fn listed_profiles(ls: Seq<Seq<char>>) -> Seq<(Seq<char>, Seq<char>, bool, bool)>
    decreases ls.len(),
{
    if ls.len() == 0 {
        seq![]
    } else {
        let l = ls.last();
        let e = char_end(l, '\t') as int;
        listed_profiles(ls.drop_last()) + if e < l.len() {
            seq![(l.take(e), l.skip(e + 1), false, true)]
        } else {
            seq![]
        }
    }
}

/// The profiles in the output of the profile search.
pub fn parse_profile_listing(output: &str) -> (r: Vec<HermesProfile>)
    ensures
        profiles_view(r@) == listed_profiles(lines(output@)),
{
    let ls = lines_of(output);
    let ghost d = ls.deep_view();
    let mut out: Vec<HermesProfile> = Vec::new();
    let mut i: usize = 0;
    while i < ls.len()
        invariant
            i <= ls.len(),
            d == ls.deep_view(),
            d == lines(output@),
            profiles_view(out@) == listed_profiles(d.take(i as int)),
        decreases ls.len() - i,
    {
        let v = to_chars(ls[i].as_str());
        let e = find_char(&v, '\t');
        assert(d.take(i + 1).drop_last() =~= d.take(i as int));
        assert(d.take(i + 1).last() == v@);
        let ghost before = profiles_view(out@);
        if e < v.len() {
            let name = string_of(&v, 0, e);
            let path = string_of(&v, e + 1, v.len());
            assert(name@ =~= v@.take(e as int));
            assert(path@ =~= v@.skip(e + 1));
            out.push(HermesProfile { name, path, is_default: false, exists: true });
        }
        assert(profiles_view(out@) =~= listed_profiles(d.take(i + 1)));
        i = i + 1;
    }
    assert(d.take(ls.len() as int) =~= d);
    out
}

/// The arguments of the search for profile folders.
pub open spec fn find_args(profiles_path: Seq<char>) -> Seq<Seq<char>> {
    seq![
        "find"@,
        profiles_path,
        "-mindepth"@,
        "1"@,
        "-maxdepth"@,
        "1"@,
        "-type"@,
        "d"@,
        "-printf"@,
        "%f\t%p\n"@,
    ]
}

/// Listing the profiles of a distro.
#[derive(Debug)]
pub enum ListProfiles {
    Distro,
    Home { distro: String },
    Base { distro: String, base: String },
    ProfilesDir { distro: String, base: String, base_exists: bool },
    Find { distro: String, base: String, base_exists: bool },
}

/// The base profile entry.
pub open spec fn default_entry(base: Seq<char>, exists: bool) -> (Seq<char>, Seq<char>, bool, bool) {
    ("default"@, base, true, exists)
}

pub open spec fn catalog_is(
    r: Step<ListProfiles, HermesProfileCatalog>,
    distro: Seq<char>,
    profiles: Seq<(Seq<char>, Seq<char>, bool, bool)>,
) -> bool {
    r matches Step::Done(Ok(c)) && c.distro@ == distro && profiles_view(c.profiles@)
        == sort_profiles_spec(profiles)
}

pub open spec fn home_lead() -> Seq<char> {
    "Unable to resolve Linux home while listing Hermes profiles in "@
}

pub open spec fn list_after_distro(d: Seq<char>, r: Step<ListProfiles, HermesProfileCatalog>) -> bool {
    r matches Step::Next(ListProfiles::Home { distro: d2 }, req) && d2@ == d && wsl_req(req, d, home_args())
}

pub open spec fn list_next(s: ListProfiles, reply: Reply, r: Step<ListProfiles, HermesProfileCatalog>) -> bool {
    match s {
        ListProfiles::Distro => match distro_reply(reply) {
            Err(e) => r matches Step::Done(Err(m)) && m@ == e,
            Ok(d) => list_after_distro(d, r),
        },
        ListProfiles::Home { distro } => match reply {
            Reply::Ran(Err(e)) => r matches Step::Done(Err(m)) && m@ == fail_msg(home_lead(), distro@, e),
            Reply::Ran(Ok(out)) => if home_of(out@).len() == 0 {
                r matches Step::Done(Err(m)) && m@ == home_lead() + distro@ + "."@
            } else {
                r matches Step::Next(ListProfiles::Base { distro: d, base }, req) && d == distro && base@
                    == home_of(out@) + "/.hermes"@ && wsl_req(req, distro@, test_args("-d"@, base@))
            },
            _ => r matches Step::Done(Err(m)) && m@ == unexpected_reply(),
        },
        ListProfiles::Base { distro, base } => match reply {
            Reply::Ran(res) => r matches Step::Next(
                ListProfiles::ProfilesDir { distro: d, base: b, base_exists },
                req,
            ) && d == distro && b == base && base_exists == res is Ok && wsl_req(
                req,
                distro@,
                test_args("-d"@, base@ + "/profiles"@),
            ),
            _ => r matches Step::Done(Err(m)) && m@ == unexpected_reply(),
        },
        ListProfiles::ProfilesDir { distro, base, base_exists } => match reply {
            Reply::Ran(Ok(_)) => r matches Step::Next(
                ListProfiles::Find { distro: d, base: b, base_exists: x },
                req,
            ) && d == distro && b == base && x == base_exists && wsl_req(
                req,
                distro@,
                find_args(base@ + "/profiles"@),
            ),
            Reply::Ran(Err(_)) => catalog_is(r, distro@, seq![default_entry(base@, base_exists)]),
            _ => r matches Step::Done(Err(m)) && m@ == unexpected_reply(),
        },
        ListProfiles::Find { distro, base, base_exists } => match reply {
            Reply::Ran(Ok(out)) => catalog_is(
                r,
                distro@,
                seq![default_entry(base@, base_exists)] + listed_profiles(lines(out@)),
            ),
            Reply::Ran(Err(e)) => r matches Step::Done(Err(m)) && m@ == fail_msg(
                "Unable to list Hermes profiles in WSL distro "@,
                distro@,
                e,
            ),
            _ => r matches Step::Done(Err(m)) && m@ == unexpected_reply(),
        },
    }
}

pub open spec fn list_start(distro: Option<String>, r: Step<ListProfiles, HermesProfileCatalog>) -> bool {
    match provided_spec(distro) {
        Some(d) => list_after_distro(d, r),
        None => r matches Step::Next(ListProfiles::Distro, Request::ListDistros),
    }
}

fn list_home(distro: String) -> (r: Step<ListProfiles, HermesProfileCatalog>)
    ensures
        list_after_distro(distro@, r),
{
    let req = home_request(distro.as_str());
    Step::Next(ListProfiles::Home { distro }, req)
}

/// Starts listing the profiles of the named distro (or of the detected one).
pub fn list_hermes_profiles_blocking(distro: Option<String>) -> (r: Step<ListProfiles, HermesProfileCatalog>)
    ensures
        list_start(distro, r),
{
    match provided_distro(&distro) {
        Some(d) => list_home(d),
        None => Step::Next(ListProfiles::Distro, Request::ListDistros),
    }
}

fn default_profile(base: &String, exists: bool) -> (r: HermesProfile)
    ensures
        r.view() == default_entry(base@, exists),
{
    HermesProfile { name: "default".to_owned(), path: base.clone(), is_default: true, exists }
}

impl ListProfiles {
    /// Takes the listing one reply further: the Linux home, whether `~/.hermes` and
    /// its `profiles` folder exist, and the folders in it.
    pub fn resume(self, reply: Reply) -> (r: Step<ListProfiles, HermesProfileCatalog>)
        ensures
            list_next(self, reply, r),
    {
        match self {
            ListProfiles::Distro => match distro_from_reply(reply) {
                Err(e) => Step::Done(Err(e)),
                Ok(d) => list_home(d),
            },
            ListProfiles::Home { distro } => match reply {
                Reply::Ran(Err(e)) => Step::Done(
                    Err(
                        failure(
                            "Unable to resolve Linux home while listing Hermes profiles in ",
                            distro.as_str(),
                            &e,
                        ),
                    ),
                ),
                Reply::Ran(Ok(out)) => {
                    let t = trim_str(out.as_str());
                    let home = trim_end_str(t.as_str(), Pat::Ch('/'));
                    if home.unicode_len() == 0 {
                        let mut m = "Unable to resolve Linux home while listing Hermes profiles in ".to_owned();
                        m.append(distro.as_str());
                        m.append(".");
                        return Step::Done(Err(m));
                    }
                    let mut base = home;
                    base.append("/.hermes");
                    let req = test_request(distro.as_str(), "-d", base.as_str());
                    Step::Next(ListProfiles::Base { distro, base }, req)
                },
                _ => Step::Done(Err(unexpected())),
            },
            ListProfiles::Base { distro, base } => match reply {
                Reply::Ran(res) => {
                    let base_exists = run_wsl_status(&res);
                    let mut p = base.clone();
                    p.append("/profiles");
                    let req = test_request(distro.as_str(), "-d", p.as_str());
                    Step::Next(ListProfiles::ProfilesDir { distro, base, base_exists }, req)
                },
                _ => Step::Done(Err(unexpected())),
            },
            ListProfiles::ProfilesDir { distro, base, base_exists } => match reply {
                Reply::Ran(Ok(_)) => {
                    let mut p = base.clone();
                    p.append("/profiles");
                    let mut args: Vec<String> = Vec::new();
                    args.push("find".to_owned());
                    args.push(p);
                    args.push("-mindepth".to_owned());
                    args.push("1".to_owned());
                    args.push("-maxdepth".to_owned());
                    args.push("1".to_owned());
                    args.push("-type".to_owned());
                    args.push("d".to_owned());
                    args.push("-printf".to_owned());
                    args.push("%f\t%p\n".to_owned());
                    assert(args.deep_view() =~= find_args(base@ + "/profiles"@));
                    let req = run_wsl_capture_result_owned(distro.as_str(), args);
                    Step::Next(ListProfiles::Find { distro, base, base_exists }, req)
                },
                Reply::Ran(Err(_)) => {
                    let mut ps: Vec<HermesProfile> = Vec::new();
                    ps.push(default_profile(&base, base_exists));
                    assert(profiles_view(ps@) =~= seq![default_entry(base@, base_exists)]);
                    let profiles = sort_profiles(ps);
                    Step::Done(Ok(HermesProfileCatalog { distro, profiles }))
                },
                _ => Step::Done(Err(unexpected())),
            },
            ListProfiles::Find { distro, base, base_exists } => match reply {
                Reply::Ran(Ok(out)) => {
                    let mut ps: Vec<HermesProfile> = Vec::new();
                    ps.push(default_profile(&base, base_exists));
                    let ghost head = profiles_view(ps@);
                    let mut found = parse_profile_listing(out.as_str());
                    let ghost tail = profiles_view(found@);
                    assert(head =~= seq![default_entry(base@, base_exists)]);
                    ps.append(&mut found);
                    assert(profiles_view(ps@) =~= head + tail);
                    let profiles = sort_profiles(ps);
                    Step::Done(Ok(HermesProfileCatalog { distro, profiles }))
                },
                Reply::Ran(Err(e)) => Step::Done(
                    Err(failure("Unable to list Hermes profiles in WSL distro ", distro.as_str(), &e)),
                ),
                _ => Step::Done(Err(unexpected())),
            },
        }
    }
}

} // verus!
