//! SemVer versions: parsing and ordering come from the `semver` crate; the
//! decisions built on them (minimum Node.js version, update availability,
//! newest-first ordering of installed Node.js versions) are verified here.
use vstd::prelude::*;

use crate::paths::{join, path_join};
use crate::text::{chars_of, has_prefix, has_prefix_chars, string_of, strings};

verus! {

/// A `semver::Version` as plain values: major, minor, patch, pre-release
/// text, build-metadata text.
pub type VersionFields = (u64, u64, u64, Seq<char>, Seq<char>);

/// What `semver::Version::parse` makes of `text`: `None` where it returns an
/// error, else the parsed fields.
pub uninterp spec fn semver_parse(text: Seq<char>) -> Option<VersionFields>;

/// Sign (-1, 0 or 1) of the `Ord` comparison of two `semver::Version`s with
/// the given fields.
pub uninterp spec fn semver_order(a: VersionFields, b: VersionFields) -> int;

#[verifier::external_type_specification]
#[verifier::external_body]
pub struct ExSemverVersion(semver::Version);

/// A parsed SemVer version. Its plain fields are copies of those of the
/// `semver::Version` it holds, which only [`ParsedVersion::parse`] creates.
pub struct ParsedVersion {
    major: u64,
    minor: u64,
    patch: u64,
    pre: String,
    build: String,
    inner: semver::Version,
}

impl ParsedVersion {
    pub closed spec fn fields(&self) -> VersionFields {
        (self.major, self.minor, self.patch, self.pre@, self.build@)
    }

    /// Parses `text` as a SemVer version (see [`semver_parse`]).
    pub fn parse(text: &str) -> (r: Option<ParsedVersion>)
        ensures
            match r {
                Some(v) => semver_parse(text@) == Some(v.fields()),
                None => semver_parse(text@) is None,
            },
            text@.len() == 0 ==> r is None,
    {
        semver_version_parse(text)
    }

    pub fn major(&self) -> (r: u64)
        ensures
            r == self.fields().0,
    {
        self.major
    }

    pub fn minor(&self) -> (r: u64)
        ensures
            r == self.fields().1,
    {
        self.minor
    }

    pub fn patch(&self) -> (r: u64)
        ensures
            r == self.fields().2,
    {
        self.patch
    }

    pub fn pre_is_empty(&self) -> (r: bool)
        ensures
            r == (self.fields().3.len() == 0),
    {
        self.pre.as_str().is_empty()
    }
}

/// `semver::Version::parse`, its result taken apart into plain fields. The
/// crate's source rejects the empty string.
#[verifier::external_body]
fn semver_version_parse(text: &str) -> (r: Option<ParsedVersion>)
    ensures
        match r {
            Some(v) => semver_parse(text@) == Some(v.fields()),
            None => semver_parse(text@) is None,
        },
        text@.len() == 0 ==> r is None,
{
    match semver::Version::parse(text) {
        Ok(v) => Some(ParsedVersion {
            major: v.major,
            minor: v.minor,
            patch: v.patch,
            pre: v.pre.as_str().to_string(),
            build: v.build.as_str().to_string(),
            inner: v,
        }),
        Err(_) => None,
    }
}

/// Lexicographic comparison on major, minor, patch, then "a release is
/// greater than a pre-release of the same numbers"; `None` where these are
/// all equal (pre-release and build text then decide).
pub open spec fn documented_order(a: VersionFields, b: VersionFields) -> Option<int> {
    if a.0 != b.0 {
        Some(if a.0 < b.0 { -1int } else { 1int })
    } else if a.1 != b.1 {
        Some(if a.1 < b.1 { -1int } else { 1int })
    } else if a.2 != b.2 {
        Some(if a.2 < b.2 { -1int } else { 1int })
    } else if (a.3.len() == 0) != (b.3.len() == 0) {
        Some(if a.3.len() == 0 { 1int } else { -1int })
    } else {
        None
    }
}

/// `Ord::cmp` of the two `semver::Version`s, as -1, 0 or 1. Claims: the
/// result is the named [`semver_order`]; swapping the arguments negates it;
/// it is 0 exactly for equal versions; and where major, minor, patch or the
/// presence of a pre-release differ, it is what the crate documents
/// (`derive(Ord)` on those fields in that order; a release is greater than a
/// pre-release). Transitivity is not stated.
#[verifier::external_body]
fn semver_version_order(a: &ParsedVersion, b: &ParsedVersion) -> (r: i8)
    ensures
        r == semver_order(a.fields(), b.fields()),
        r == -semver_order(b.fields(), a.fields()),
        -1 <= r <= 1,
        (r == 0) == (a.fields() == b.fields()),
        documented_order(a.fields(), b.fields()) matches Some(o) ==> r == o,
{
    match a.inner.cmp(&b.inner) {
        core::cmp::Ordering::Less => -1,
        core::cmp::Ordering::Equal => 0,
        core::cmp::Ordering::Greater => 1,
    }
}

/// `Ord::cmp` of two parsed versions as -1, 0 or 1.
pub fn version_order(a: &ParsedVersion, b: &ParsedVersion) -> (r: i8)
    ensures
        r == semver_order(a.fields(), b.fields()),
        r == -semver_order(b.fields(), a.fields()),
        (r == 0) == (a.fields() == b.fields()),
        documented_order(a.fields(), b.fields()) matches Some(o) ==> r == o,
{
    semver_version_order(a, b)
}

/// Whether `latest` is a newer SemVer version than `current`; false when
/// either does not parse. Where major, minor, patch or the presence of a
/// pre-release decide, that is the documented precedence; otherwise the
/// crate's order of the pre-release and build texts.
pub open spec fn is_update(current: Seq<char>, latest: Seq<char>) -> bool {
    match (semver_parse(current), semver_parse(latest)) {
        (Some(c), Some(l)) => match documented_order(l, c) {
            Some(o) => o > 0,
            None => semver_order(l, c) > 0,
        },
        _ => false,
    }
}

/// An update is offered only when both versions parse; where major, minor,
/// patch or the presence of a pre-release tell them apart, exactly when the
/// latest is greater by SemVer precedence: a greater major, else a greater
/// minor, else a greater patch, else a release over a pre-release of the
/// same numbers.
pub proof fn law_update_by_precedence(current: Seq<char>, latest: Seq<char>)
    ensures
        (semver_parse(current) is None || semver_parse(latest) is None) ==> !is_update(current, latest),
        semver_parse(current) matches Some(c) ==> semver_parse(latest) matches Some(l) ==> (c.0 != l.0 || c.1 != l.1
            || c.2 != l.2 || (c.3.len() == 0) != (l.3.len() == 0)) ==> is_update(current, latest) == (l.0 > c.0 || (
        l.0 == c.0 && (l.1 > c.1 || (l.1 == c.1 && (l.2 > c.2 || (l.2 == c.2 && l.3.len() == 0 && c.3.len() > 0)))))),
{
}

/// Installed and published dsh versions, and whether an update is offered.
pub struct UpdateInfo {
    pub current: String,
    pub latest: String,
    pub update_available: bool,
}

impl UpdateInfo {
    /// The update decision for the installed version `current` and the
    /// published version `latest`.
    pub fn from_versions(current: String, latest: String) -> (r: UpdateInfo)
        ensures
            r.current@ == current@,
            r.latest@ == latest@,
            r.update_available == is_update(current@, latest@),
    {
        let update_available = match (ParsedVersion::parse(current.as_str()), ParsedVersion::parse(latest.as_str())) {
            (Some(c), Some(l)) => version_order(&l, &c) > 0,
            _ => false,
        };
        UpdateInfo { current, latest, update_available }
    }
}

/// The version named by a directory entry `{prefix}{semver}`.
pub open spec fn prefixed_version(name: Seq<char>, prefix: Seq<char>) -> Option<VersionFields> {
    if has_prefix(name, prefix) {
        semver_parse(name.skip(prefix.len() as int))
    } else {
        None
    }
}

/// The (version, path) pairs of the entries whose names are
/// `{prefix}{semver}`, in their original order.
pub open spec fn versioned_candidates(entries: Seq<(Seq<char>, Seq<char>)>, prefix: Seq<char>) -> Seq<(VersionFields, Seq<char>)>
    decreases entries.len(),
{
    if entries.len() == 0 {
        Seq::empty()
    } else {
        let rest = versioned_candidates(entries.drop_last(), prefix);
        match prefixed_version(entries.last().0, prefix) {
            Some(v) => rest.push((v, entries.last().1)),
            None => rest,
        }
    }
}

/// Each version is at least as new as the one after it.
pub open spec fn newest_first(s: Seq<(VersionFields, Seq<char>)>) -> bool {
    forall|i: int| 0 <= i < s.len() - 1 ==> semver_order(#[trigger] s[i].0, s[i + 1].0) >= 0
}

pub open spec fn pair_views(entries: Seq<(String, String)>) -> Seq<(Seq<char>, Seq<char>)> {
    entries.map_values(|e: (String, String)| (e.0@, e.1@))
}

pub open spec fn candidate_views(s: Seq<(ParsedVersion, String)>) -> Seq<(VersionFields, Seq<char>)> {
    s.map_values(|e: (ParsedVersion, String)| (e.0.fields(), e.1@))
}

/// `{path}/bin` for each candidate, in order.
pub open spec fn bin_dirs(s: Seq<(VersionFields, Seq<char>)>, windows: bool) -> Seq<Seq<char>> {
    s.map_values(|e: (VersionFields, Seq<char>)| path_join(e.1, "bin"@, windows))
}

/// `out` lists the `bin` directories of the `{prefix}{semver}` entries,
/// newest version first; entries of equal versions keep their order.
pub open spec fn newest_bins(out: Seq<Seq<char>>, entries: Seq<(Seq<char>, Seq<char>)>, prefix: Seq<char>, windows: bool) -> bool {
    exists|s: Seq<(VersionFields, Seq<char>)>|
        #![trigger newest_first(s)]
        s.to_multiset() == versioned_candidates(entries, prefix).to_multiset() && newest_first(s)
            && (forall|v: VersionFields| #[trigger]
            with_version(s, v) == with_version(versioned_candidates(entries, prefix), v))
            && out == bin_dirs(s, windows)
}

fn version_of_entry_name(name: &str, prefix: &str) -> (r: Option<ParsedVersion>)
    ensures
        match r {
            Some(v) => prefixed_version(name@, prefix@) == Some(v.fields()),
            None => prefixed_version(name@, prefix@) is None,
        },
{
    let cs = chars_of(name);
    if !has_prefix_chars(&cs, prefix) {
        return None;
    }
    let start = chars_of(prefix).len();
    let mut rest: Vec<char> = Vec::new();
    let mut i: usize = start;
    while i < cs.len()
        invariant
            start == prefix@.len(),
            start <= i <= cs@.len(),
            rest@ == cs@.subrange(start as int, i as int),
        decreases cs.len() - i,
    {
        rest.push(cs[i]);
        assert(cs@.subrange(start as int, i + 1) == cs@.subrange(start as int, i as int).push(cs@[i as int]));
        i = i + 1;
    }
    assert(rest@ == name@.skip(prefix@.len() as int));
    let text = string_of(&rest);
    ParsedVersion::parse(text.as_str())
}

fn parse_versioned_entries(entries: &Vec<(String, String)>, prefix: &str) -> (out: Vec<(ParsedVersion, String)>)
    ensures
        candidate_views(out@) == versioned_candidates(pair_views(entries@), prefix@),
{
    let mut out: Vec<(ParsedVersion, String)> = Vec::new();
    for i in 0..entries.len()
        invariant
            candidate_views(out@) == versioned_candidates(pair_views(entries@.take(i as int)), prefix@),
    {
        let ghost before = out@;
        proof {
            assert(pair_views(entries@.take(i + 1)).drop_last() == pair_views(entries@.take(i as int)));
            assert(pair_views(entries@.take(i + 1)).last() == (entries@[i as int].0@, entries@[i as int].1@));
        }
        match version_of_entry_name(entries[i].0.as_str(), prefix) {
            Some(v) => {
                let path = entries[i].1.clone();
                out.push((v, path));
                assert(candidate_views(out@) == candidate_views(before).push((out@.last().0.fields(), out@.last().1@)));
            },
            None => {},
        }
    }
    assert(entries@.take(entries@.len() as int) == entries@);
    out
}

/// The pairs of `s` with version `v`, in their order in `s`.
pub open spec fn with_version(s: Seq<(VersionFields, Seq<char>)>, v: VersionFields) -> Seq<(VersionFields, Seq<char>)> {
    s.filter(|e: (VersionFields, Seq<char>)| e.0 == v)
}

proof fn lemma_with_version_add(a: Seq<(VersionFields, Seq<char>)>, b: Seq<(VersionFields, Seq<char>)>, v: VersionFields)
    ensures
        with_version(a + b, v) == with_version(a, v) + with_version(b, v),
{
    Seq::filter_distributes_over_add(a, b, |e: (VersionFields, Seq<char>)| e.0 == v);
}

proof fn lemma_with_version_one(x: (VersionFields, Seq<char>), v: VersionFields)
    ensures
        with_version(seq![x], v) == if x.0 == v { seq![x] } else { Seq::empty() },
{
    reveal_with_fuel(Seq::<_>::filter, 2);
    assert(seq![x].drop_last() =~= Seq::<(VersionFields, Seq<char>)>::empty());
}

proof fn lemma_with_version_none(s: Seq<(VersionFields, Seq<char>)>, v: VersionFields)
    requires
        forall|i: int| 0 <= i < s.len() ==> (#[trigger] s[i]).0 != v,
    ensures
        with_version(s, v) == Seq::<(VersionFields, Seq<char>)>::empty(),
    decreases s.len(),
{
    reveal_with_fuel(Seq::<_>::filter, 1);
    if s.len() > 0 {
        lemma_with_version_none(s.drop_last(), v);
        assert(s[s.len() - 1].0 != v);
    }
}

/// Orders (version, path) pairs newest first: each pair is at least as new
/// as the next, and the pairs of each version are those of the input in
/// their input order (a stable sort). Each pair goes right after the last
/// sorted pair that is not older than it.
fn sort_newest_first(items: Vec<(ParsedVersion, String)>) -> (out: Vec<(ParsedVersion, String)>)
    ensures
        candidate_views(out@).to_multiset() == candidate_views(items@).to_multiset(),
        newest_first(candidate_views(out@)),
        forall|v: VersionFields| #[trigger]
            with_version(candidate_views(out@), v) == with_version(candidate_views(items@), v),
{
    broadcast use vstd::seq_lib::to_multiset_remove, vstd::seq_lib::to_multiset_insert,
        vstd::multiset::group_multiset_axioms, vstd::seq_lib::group_to_multiset_ensures;

    let ghost orig = candidate_views(items@);
    let mut rest = items;
    let mut sorted: Vec<(ParsedVersion, String)> = Vec::new();
    proof {
        assert(candidate_views(sorted@) =~= Seq::<(VersionFields, Seq<char>)>::empty());
        assert(candidate_views(sorted@).to_multiset() =~= vstd::multiset::Multiset::empty());
        assert(candidate_views(sorted@).to_multiset().add(orig.to_multiset()) =~= orig.to_multiset());
        assert forall|v: VersionFields| #[trigger] with_version(candidate_views(sorted@), v) + with_version(candidate_views(rest@), v)
            == with_version(orig, v) by {
            lemma_with_version_none(candidate_views(sorted@), v);
            assert(Seq::<(VersionFields, Seq<char>)>::empty() + with_version(orig, v) =~= with_version(orig, v));
        }
    }
    while rest.len() > 0
        invariant
            candidate_views(sorted@).to_multiset().add(candidate_views(rest@).to_multiset()) == orig.to_multiset(),
            newest_first(candidate_views(sorted@)),
            forall|v: VersionFields| #[trigger] with_version(candidate_views(sorted@), v) + with_version(candidate_views(rest@), v)
                == with_version(orig, v),
        decreases rest.len(),
    {
        let ghost rv = candidate_views(rest@);
        let ghost sv0 = candidate_views(sorted@);
        let item = rest.remove(0);
        assert(candidate_views(rest@) == rv.remove(0));
        let n = sorted.len();
        let mut p: usize = 0;
        let mut k: usize = 0;
        while k < n
            invariant
                p <= k <= n == sorted@.len(),
                sv0 == candidate_views(sorted@),
                p > 0 ==> semver_order(sorted@[p - 1].0.fields(), item.0.fields()) >= 0,
                forall|j: int|
                    p <= j < k ==> semver_order(#[trigger] sorted@[j].0.fields(), item.0.fields()) < 0
                        && sorted@[j].0.fields() != item.0.fields() && semver_order(item.0.fields(), sorted@[j].0.fields()) > 0,
            decreases n - k,
        {
            let o = version_order(&sorted[k].0, &item.0);
            if o >= 0 {
                p = k + 1;
            }
            k = k + 1;
        }
        let ghost sv = candidate_views(sorted@);
        let ghost x = (item.0.fields(), item.1@);
        assert(x == rv[0]);
        assert(p > 0 ==> semver_order(sv[p - 1].0, x.0) >= 0);
        assert forall|j: int| p <= j < n implies (#[trigger] sv[j]).0 != x.0 && semver_order(x.0, sv[j].0) > 0 by {
            assert(sv[j].0 == sorted@[j].0.fields());
        }
        sorted.insert(p, item);
        assert(candidate_views(sorted@) == sv.insert(p as int, x));
        proof {
            assert(rv.len() > 0 && rv[0] == x);
            assert(rv.contains(x));
            vstd::seq_lib::to_multiset_contains(rv, x);
            assert(rv.to_multiset().count(x) > 0);
            vstd::seq_lib::to_multiset_insert(sv, p as int, x);
            assert(sv.insert(p as int, x).to_multiset() == sv.to_multiset().insert(x));
            vstd::seq_lib::to_multiset_remove(rv, 0);
            assert(rv.remove(0).to_multiset() == rv.to_multiset().remove(x));
            assert(candidate_views(sorted@).to_multiset().add(candidate_views(rest@).to_multiset())
                =~= sv.to_multiset().add(rv.to_multiset()));
            let nv = sv.insert(p as int, x);
            assert forall|i: int| 0 <= i < nv.len() - 1 implies semver_order(#[trigger] nv[i].0, nv[i + 1].0) >= 0 by {
                if i + 1 < p {
                    assert(nv[i] == sv[i] && nv[i + 1] == sv[i + 1]);
                } else if i + 1 == p {
                    assert(nv[i] == sv[i]);
                } else if i == p {
                    assert(nv[i] == x && nv[i + 1] == sv[p as int]);
                } else {
                    assert(nv[i] == sv[i - 1] && nv[i + 1] == sv[i]);
                }
            }
            let head = sv.take(p as int);
            let tail = sv.skip(p as int);
            assert(sv == head + tail);
            assert(nv == head + seq![x] + tail);
            assert(rv == seq![x] + rv.skip(1));
            assert(rv.remove(0) == rv.skip(1));
            assert forall|v: VersionFields| #[trigger] with_version(nv, v) + with_version(rv.skip(1), v)
                == with_version(orig, v) by {
                lemma_with_version_add(head, tail, v);
                lemma_with_version_add(head + seq![x], tail, v);
                lemma_with_version_add(head, seq![x], v);
                lemma_with_version_add(seq![x], rv.skip(1), v);
                lemma_with_version_one(x, v);
                if x.0 == v {
                    assert forall|j: int| 0 <= j < tail.len() implies (#[trigger] tail[j]).0 != v by {
                        assert(tail[j] == sv[p + j]);
                    }
                    lemma_with_version_none(tail, v);
                    assert(with_version(sv, v) == with_version(head, v));
                    assert(with_version(nv, v) == with_version(head, v) + seq![x]);
                    assert(with_version(rv, v) == seq![x] + with_version(rv.skip(1), v));
                    assert(with_version(nv, v) + with_version(rv.skip(1), v) =~= with_version(sv, v) + with_version(rv, v));
                } else {
                    assert(with_version(seq![x], v) =~= Seq::<(VersionFields, Seq<char>)>::empty());
                    assert(with_version(nv, v) =~= with_version(head, v) + with_version(tail, v));
                    assert(with_version(rv, v) =~= with_version(rv.skip(1), v));
                }
                assert(with_version(sv, v) + with_version(rv, v) == with_version(orig, v));
            }
        }
    }
    proof {
        assert(candidate_views(rest@) =~= Seq::<(VersionFields, Seq<char>)>::empty());
        assert(candidate_views(rest@).to_multiset() =~= vstd::multiset::Multiset::empty());
        assert(candidate_views(sorted@).to_multiset() =~= orig.to_multiset());
        assert forall|v: VersionFields| #[trigger] with_version(candidate_views(sorted@), v) == with_version(orig, v) by {
            lemma_with_version_none(candidate_views(rest@), v);
            assert(with_version(candidate_views(sorted@), v) + Seq::<(VersionFields, Seq<char>)>::empty()
                =~= with_version(candidate_views(sorted@), v));
        }
    }
    sorted
}

/// The `bin` directories of the entries named `{prefix}{semver}`, newest
/// version first; entries are (directory name, directory path) pairs.
pub fn versioned_bin_dirs(entries: Vec<(String, String)>, prefix: &str, windows: bool) -> (out: Vec<String>)
    ensures
        newest_bins(strings(out@), pair_views(entries@), prefix@, windows),
{
    proof {
        reveal_strlit("bin");
    }
    let cands = parse_versioned_entries(&entries, prefix);
    let sorted = sort_newest_first(cands);
    let ghost s = candidate_views(sorted@);
    let mut out: Vec<String> = Vec::new();
    for i in 0..sorted.len()
        invariant
            s == candidate_views(sorted@),
            strings(out@) == bin_dirs(s.take(i as int), windows),
    {
        proof {
            reveal_strlit("bin");
        }
        let ghost before = out@;
        let dir = join(sorted[i].1.as_str(), "bin", windows);
        out.push(dir);
        proof {
            assert(s.take(i + 1) == s.take(i as int).push(s[i as int]));
            assert(bin_dirs(s.take(i + 1), windows) == bin_dirs(s.take(i as int), windows).push(path_join(s[i as int].1, "bin"@, windows)));
            assert(out@ == before.push(out@.last()));
            assert(strings(out@) == strings(before).push(out@.last()@));
        }
    }
    assert(s.take(sorted@.len() as int) == s);
    out
}

/// nvm-managed Node.js `bin` directories, newest version first: entries are
/// (directory name, directory path) pairs; those whose names are not
/// `v{semver}` (aliases, dotfiles, stray files) are dropped.
pub fn sort_nvm_versions(entries: Vec<(String, String)>, windows: bool) -> (out: Vec<String>)
    ensures
        newest_bins(strings(out@), pair_views(entries@), seq!['v'], windows),
{
    proof {
        reveal_strlit("v");
        assert("v"@ =~= seq!['v']);
    }
    versioned_bin_dirs(entries, "v", windows)
}

} // verus!
