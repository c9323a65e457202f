//! File-system paths as text, read the way `std::path` reads them: a
//! Windows prefix (a drive `C:`, or `\\server\share`), an optional root
//! separator, then components between separators, where empty and `.`
//! components are skipped (a leading `.` of a relative path counts).
//! `windows` selects `\` as the separator that joining inserts and makes
//! `\` a separator besides `/`.
use vstd::prelude::*;

use crate::text::{chars_of, push_char, push_range, string_of};

verus! {

pub open spec fn is_sep(c: char, windows: bool) -> bool {
    c == '/' || (windows && c == '\\')
}

pub open spec fn sep_char(windows: bool) -> char {
    if windows { '\\' } else { '/' }
}

pub open spec fn is_ascii_alpha(c: char) -> bool {
    ('a' <= c && c <= 'z') || ('A' <= c && c <= 'Z')
}

/// A Windows drive prefix: an ASCII letter followed by `:`.
pub open spec fn has_drive(p: Seq<char>, windows: bool) -> bool {
    windows && p.len() >= 2 && p[1] == ':' && is_ascii_alpha(p[0])
}

/// A single relative path component or relative path: not empty, not
/// starting with a separator or a drive letter.
pub open spec fn is_relative_name(c: Seq<char>) -> bool {
    c.len() > 0 && !is_sep(c[0], true) && !(c.len() > 1 && c[1] == ':')
}

/// `base` joined with the relative path `comp` (`Path::join`): a separator
/// goes between them unless `base` is empty, already ends in a separator, or
/// (on Windows) is a bare drive prefix such as `C:`.
pub open spec fn path_join(base: Seq<char>, comp: Seq<char>, windows: bool) -> Seq<char> {
    if base.len() == 0 || is_sep(base.last(), windows) || (has_drive(base, windows) && base.len() == 2) {
        base + comp
    } else {
        base.push(sep_char(windows)) + comp
    }
}

/// End of the run of non-separator characters of `p` from `i` on.
pub open spec fn run_end(p: Seq<char>, windows: bool, i: int) -> int
    decreases p.len() - i,
{
    if i < 0 || i >= p.len() || is_sep(p[i], windows) {
        i
    } else {
        run_end(p, windows, i + 1)
    }
}

/// On Windows, a path starting with two separators.
pub open spec fn starts_network(p: Seq<char>, windows: bool) -> bool {
    windows && p.len() >= 2 && is_sep(p[0], windows) && is_sep(p[1], windows)
}

/// Length of a `\\server\share` prefix, or 0 when the server or the share
/// is empty.
pub open spec fn network_prefix_len(p: Seq<char>, windows: bool) -> int {
    let server_end = run_end(p, windows, 2);
    if server_end > 2 && server_end < p.len() {
        let share_end = run_end(p, windows, server_end + 1);
        if share_end > server_end + 1 { share_end } else { 0 }
    } else {
        0
    }
}

/// Length of the Windows prefix of `p` (0 when it has none).
pub open spec fn prefix_len(p: Seq<char>, windows: bool) -> int {
    if starts_network(p, windows) {
        network_prefix_len(p, windows)
    } else if has_drive(p, windows) {
        2
    } else {
        0
    }
}

/// A separator right after the prefix.
pub open spec fn has_root(p: Seq<char>, windows: bool) -> bool {
    p.len() > prefix_len(p, windows) && is_sep(p[prefix_len(p, windows)], windows)
}

/// A `\\server\share` prefix stands for a root even without a separator.
pub open spec fn implicit_root(p: Seq<char>, windows: bool) -> bool {
    starts_network(p, windows) && prefix_len(p, windows) > 0
}

/// A relative path that starts with a `.` component (`./a`, `.`, `C:.\a`).
pub open spec fn has_cur_dir(p: Seq<char>, windows: bool) -> bool {
    let pl = prefix_len(p, windows);
    !has_root(p, windows) && !implicit_root(p, windows) && p.len() > pl && p[pl] == '.' && (p.len() == pl + 1
        || is_sep(p[pl + 1], windows))
}

/// Where the components after the prefix, the root and a leading `.` start.
pub open spec fn body_start(p: Seq<char>, windows: bool) -> int {
    prefix_len(p, windows) + if has_root(p, windows) || has_cur_dir(p, windows) { 1int } else { 0int }
}

/// Start of the last separator-free run of `p[bs..e]`.
pub open spec fn comp_start(p: Seq<char>, windows: bool, bs: int, e: int) -> int
    decreases e - bs,
{
    if e <= bs || is_sep(p[e - 1], windows) {
        e
    } else {
        comp_start(p, windows, bs, e - 1)
    }
}

pub proof fn lemma_comp_start(p: Seq<char>, windows: bool, bs: int, e: int)
    requires
        bs <= e,
    ensures
        bs <= comp_start(p, windows, bs, e) <= e,
        comp_start(p, windows, bs, e) > bs ==> is_sep(p[comp_start(p, windows, bs, e) - 1], windows),
        forall|k: int| comp_start(p, windows, bs, e) <= k < e ==> !is_sep(#[trigger] p[k], windows),
    decreases e - bs,
{
    if e > bs && !is_sep(p[e - 1], windows) {
        lemma_comp_start(p, windows, bs, e - 1);
    }
}

/// The last component of `p[bs..e]` as (start, end), skipping empty and `.`
/// components; `None` when there is none.
pub open spec fn last_comp(p: Seq<char>, windows: bool, bs: int, e: int) -> Option<(int, int)>
    decreases e - bs,
{
    if e <= bs {
        None
    } else {
        let s = comp_start(p, windows, bs, e);
        proof {
            lemma_comp_start(p, windows, bs, e);
        }
        if s == e || (s + 1 == e && p[s] == '.') {
            last_comp(p, windows, bs, if s > bs { s - 1 } else { bs })
        } else {
            Some((s, e))
        }
    }
}

/// Where `p[..e]` ends once trailing empty and `.` components are dropped
/// (not before the body start `bs`).
pub open spec fn trimmed_end(p: Seq<char>, windows: bool, bs: int, e: int) -> int {
    match last_comp(p, windows, bs, e) {
        Some((_, e2)) => e2,
        None => bs,
    }
}

/// `Path::parent`: `p` without its last component (and the separators and
/// `.` components before it); for a leading `.` alone, the prefix; `None`
/// for an empty path, a prefix alone or a root.
pub open spec fn path_parent(p: Seq<char>, windows: bool) -> Option<Seq<char>> {
    let bs = body_start(p, windows);
    match last_comp(p, windows, bs, p.len() as int) {
        Some((s, _)) => Some(p.take(trimmed_end(p, windows, bs, if s > bs { s - 1 } else { s }))),
        None => if has_cur_dir(p, windows) {
            Some(p.take(prefix_len(p, windows)))
        } else {
            None
        },
    }
}

/// `Path::file_name`: the last component, `None` when there is none or it
/// is `..`.
pub open spec fn path_file_name(p: Seq<char>, windows: bool) -> Option<Seq<char>> {
    match last_comp(p, windows, body_start(p, windows), p.len() as int) {
        Some((s, e)) => if p.subrange(s, e) == seq!['.', '.'] {
            None
        } else {
            Some(p.subrange(s, e))
        },
        None => None,
    }
}

/// `PathBuf::push` (`Path::join`) for any component: a component with a
/// prefix replaces the base, and so does a rooted one off Windows; on
/// Windows a rooted component without prefix keeps the base's prefix; any
/// other is joined onto the base ([`path_join`]).
pub open spec fn path_join_any(base: Seq<char>, comp: Seq<char>, windows: bool) -> Seq<char> {
    if prefix_len(comp, windows) > 0 {
        comp
    } else if comp.len() > 0 && is_sep(comp[0], windows) {
        if windows { base.take(prefix_len(base, windows)) + comp } else { comp }
    } else {
        path_join(base, comp, windows)
    }
}

/// A single path component: not empty, without separators, and not `.`.
pub open spec fn is_plain_component(name: Seq<char>, windows: bool) -> bool {
    name.len() > 0 && name != seq!['.'] && forall|i: int| 0 <= i < name.len() ==> !is_sep(#[trigger] name[i], windows)
}

/// A path that joining extends with a separator: empty, or not ending in a
/// separator and not a bare drive.
pub open spec fn is_join_base(base: Seq<char>, windows: bool) -> bool {
    base.len() == 0 || (!is_sep(base.last(), windows) && !(has_drive(base, windows) && base.len() == 2))
}

/// A path that ends in its last component (no trailing separators or `.`
/// components) and does not start with two separators.
pub open spec fn is_trimmed(p: Seq<char>, windows: bool) -> bool {
    !starts_network(p, windows) && trimmed_end(p, windows, body_start(p, windows), p.len() as int) == p.len()
}

proof fn lemma_comp_start_over(p: Seq<char>, windows: bool, bs: int, x: int, k: int)
    requires
        0 <= bs <= x <= k <= p.len(),
        x == bs || is_sep(p[x - 1], windows),
        forall|i: int| x <= i < p.len() ==> !is_sep(#[trigger] p[i], windows),
    ensures
        comp_start(p, windows, bs, k) == x,
    decreases k - x,
{
    if k > x {
        lemma_comp_start_over(p, windows, bs, x, k - 1);
    }
}

proof fn lemma_prefix_agree(p: Seq<char>, q: Seq<char>, windows: bool, bs: int, e: int)
    requires
        0 <= bs <= e <= p.len(),
        e <= q.len(),
        p.take(e) == q.take(e),
    ensures
        comp_start(p, windows, bs, e) == comp_start(q, windows, bs, e),
        last_comp(p, windows, bs, e) == last_comp(q, windows, bs, e),
        trimmed_end(p, windows, bs, e) == trimmed_end(q, windows, bs, e),
    decreases e - bs,
{
    if e > bs {
        assert(p[e - 1] == p.take(e)[e - 1] && q[e - 1] == q.take(e)[e - 1]);
        assert(p.take(e - 1) == p.take(e).take(e - 1) && q.take(e - 1) == q.take(e).take(e - 1));
        lemma_prefix_agree(p, q, windows, bs, e - 1);
        let s = comp_start(p, windows, bs, e);
        lemma_comp_start(p, windows, bs, e);
        if s < e {
            assert(p[s] == p.take(e)[s] && q[s] == q.take(e)[s]);
        }
        let e2 = if s > bs { s - 1 } else { bs };
        if e2 < e {
            assert(p.take(e2) == p.take(e).take(e2) && q.take(e2) == q.take(e).take(e2));
            lemma_prefix_agree(p, q, windows, bs, e2);
        }
    }
}

/// Joining a component onto a path that does not start with two
/// separators: the component is the last one of the result, which does not
/// start with two separators either.
pub proof fn lemma_join_last_comp(base: Seq<char>, name: Seq<char>, windows: bool)
    requires
        !starts_network(base, windows),
        is_plain_component(name, windows),
        base.len() == 0 ==> !has_drive(name, windows),
    ensures ({
        let p = path_join(base, name, windows);
        let x = p.len() - name.len();
        &&& p.len() > 0 && !is_sep(p.last(), windows)
        &&& p.subrange(x, p.len() as int) == name
        &&& !starts_network(p, windows)
        &&& body_start(p, windows) <= x
        &&& last_comp(p, windows, body_start(p, windows), p.len() as int) == Some((x, p.len() as int))
        &&& is_trimmed(p, windows)
        &&& is_join_base(p, windows)
    }),
{
    let p = path_join(base, name, windows);
    let x = p.len() - name.len();
    assert(p.subrange(x, p.len() as int) == name);
    assert forall|i: int| x <= i < p.len() implies !is_sep(#[trigger] p[i], windows) by {
        assert(p[i] == name[i - x]);
    }
    assert(p.last() == name[name.len() - 1]);
    if base.len() >= 2 {
        assert(p[0] == base[0] && p[1] == base[1]);
    } else if base.len() == 1 {
        assert(p[0] == base[0]);
    } else {
        assert(p == name);
    }
    let pl = prefix_len(p, windows);
    assert(pl <= x) by {
        if pl == 2 {
            if base.len() == 1 {
                assert(p[1] == sep_char(windows) || p[1] == name[0]);
            }
        }
    }
    if pl == x {
        assert(p[pl] == name[0]);
        if name.len() == 1 {
            assert(name =~= seq![name[0]]);
        } else {
            assert(p[pl + 1] == name[1]);
        }
    }
    let bs = body_start(p, windows);
    assert(bs <= x);
    if x > bs {
        assert(x > 0);
        if base.len() == 0 {
        } else if is_sep(base.last(), windows) || (has_drive(base, windows) && base.len() == 2) {
            assert(p[x - 1] == base.last());
        } else {
            assert(p[x - 1] == sep_char(windows));
        }
    }
    lemma_comp_start_over(p, windows, bs, x, p.len() as int);
    if name.len() == 1 {
        assert(name =~= seq![p[x]]);
    }
    assert(last_comp(p, windows, bs, p.len() as int) == Some((x, p.len() as int)));
}

/// Joining a component onto a path that ends in a component (or is empty)
/// and taking the parent gives the path back, and the file name is the
/// component (unless it is `..`).
pub proof fn lemma_parent_of_join(base: Seq<char>, name: Seq<char>, windows: bool)
    requires
        is_join_base(base, windows),
        is_trimmed(base, windows),
        is_plain_component(name, windows),
        base.len() == 0 ==> !has_drive(name, windows),
    ensures
        path_parent(path_join(base, name, windows), windows) == Some(base),
        name != seq!['.', '.'] ==> path_file_name(path_join(base, name, windows), windows) == Some(name),
        is_join_base(path_join(base, name, windows), windows),
        is_trimmed(path_join(base, name, windows), windows),
        path_join(base, name, windows).len() > 0,
{
    let p = path_join(base, name, windows);
    lemma_join_last_comp(base, name, windows);
    let x = p.len() - name.len();
    let bs = body_start(p, windows);
    if base.len() == 0 {
        assert(p == name);
        assert(bs == 0);
        assert(p.take(0) =~= base);
    } else {
        assert(x == base.len() + 1);
        assert(p.take(base.len() as int) == base);
        // The prefix, root and leading `.` of `p` are those of `base`.
        if base.len() >= 2 {
            assert(p[0] == base[0] && p[1] == base[1]);
        }
        assert(p[base.len() as int] == sep_char(windows));
        let pl = prefix_len(base, windows);
        assert(prefix_len(p, windows) == pl);
        assert(pl < base.len());
        assert(p[pl] == base[pl]);
        if base.len() > pl + 1 {
            assert(p[pl + 1] == base[pl + 1]);
        }
        assert(body_start(p, windows) == body_start(base, windows));
        assert(base.take(base.len() as int) == base);
        lemma_prefix_agree(p, base, windows, bs, base.len() as int);
    }
}

pub fn is_sep_char(c: char, windows: bool) -> (b: bool)
    ensures
        b == is_sep(c, windows),
{
    c == '/' || (windows && c == '\\')
}

fn is_ascii_alpha_char(c: char) -> (b: bool)
    ensures
        b == is_ascii_alpha(c),
{
    ('a' <= c && c <= 'z') || ('A' <= c && c <= 'Z')
}

fn ends_before_join(cs: &Vec<char>, windows: bool) -> (b: bool)
    ensures
        b == (cs@.len() == 0 || is_sep(cs@.last(), windows) || (has_drive(cs@, windows) && cs@.len() == 2)),
{
    let n = cs.len();
    n == 0 || is_sep_char(cs[n - 1], windows) || (windows && n == 2 && cs[1] == ':' && is_ascii_alpha_char(cs[0]))
}

/// `base` joined with the relative path `comp`.
pub fn join(base: &str, comp: &str, windows: bool) -> (out: String)
    requires
        is_relative_name(comp@),
    ensures
        out@ == path_join(base@, comp@, windows),
{
    let cs = chars_of(base);
    let mut out = string_of(&cs);
    if !ends_before_join(&cs, windows) {
        push_char(&mut out, if windows { '\\' } else { '/' });
    }
    out.append(comp);
    out
}

fn run_end_exec(cs: &Vec<char>, windows: bool, i: usize) -> (r: usize)
    requires
        i <= cs@.len(),
    ensures
        r == run_end(cs@, windows, i as int),
        i <= r <= cs@.len(),
{
    let mut k = i;
    while k < cs.len() && !is_sep_char(cs[k], windows)
        invariant
            i <= k <= cs@.len(),
            run_end(cs@, windows, i as int) == run_end(cs@, windows, k as int),
        decreases cs.len() - k,
    {
        k = k + 1;
    }
    k
}

fn prefix_len_exec(cs: &Vec<char>, windows: bool) -> (r: usize)
    ensures
        r == prefix_len(cs@, windows),
        r <= cs@.len(),
{
    let n = cs.len();
    if windows && n >= 2 && is_sep_char(cs[0], windows) && is_sep_char(cs[1], windows) {
        let server_end = run_end_exec(cs, windows, 2);
        if server_end > 2 && server_end < n {
            let share_end = run_end_exec(cs, windows, server_end + 1);
            if share_end > server_end + 1 { share_end } else { 0 }
        } else {
            0
        }
    } else if windows && n >= 2 && cs[1] == ':' && is_ascii_alpha_char(cs[0]) {
        2
    } else {
        0
    }
}

/// (prefix length, body start, whether a leading `.` counts).
fn layout(cs: &Vec<char>, windows: bool) -> (r: (usize, usize, bool))
    ensures
        r.0 == prefix_len(cs@, windows),
        r.1 == body_start(cs@, windows),
        r.2 == has_cur_dir(cs@, windows),
        r.0 <= r.1 <= cs@.len(),
{
    let n = cs.len();
    let pl = prefix_len_exec(cs, windows);
    let root = pl < n && is_sep_char(cs[pl], windows);
    let implicit = windows && n >= 2 && is_sep_char(cs[0], windows) && is_sep_char(cs[1], windows) && pl > 0;
    let cur = !root && !implicit && pl < n && cs[pl] == '.' && (n == pl + 1 || is_sep_char(cs[pl + 1], windows));
    let bs = if root || cur { pl + 1 } else { pl };
    (pl, bs, cur)
}

fn comp_start_exec(cs: &Vec<char>, windows: bool, bs: usize, e: usize) -> (r: usize)
    requires
        bs <= e <= cs@.len(),
    ensures
        r == comp_start(cs@, windows, bs as int, e as int),
{
    let mut k = e;
    while k > bs && !is_sep_char(cs[k - 1], windows)
        invariant
            bs <= k <= e <= cs@.len(),
            comp_start(cs@, windows, bs as int, e as int) == comp_start(cs@, windows, bs as int, k as int),
        decreases k,
    {
        k = k - 1;
    }
    k
}

fn last_comp_exec(cs: &Vec<char>, windows: bool, bs: usize, e: usize) -> (r: Option<(usize, usize)>)
    requires
        bs <= e <= cs@.len(),
    ensures
        match r {
            Some((s, t)) => last_comp(cs@, windows, bs as int, e as int) == Some((s as int, t as int)) && bs <= s < t
                <= cs@.len(),
            None => last_comp(cs@, windows, bs as int, e as int) is None,
        },
{
    let mut end = e;
    loop
        invariant
            bs <= end <= e <= cs@.len(),
            last_comp(cs@, windows, bs as int, e as int) == last_comp(cs@, windows, bs as int, end as int),
        decreases end,
    {
        if end <= bs {
            return None;
        }
        let s = comp_start_exec(cs, windows, bs, end);
        proof {
            lemma_comp_start(cs@, windows, bs as int, end as int);
        }
        if s == end || (s + 1 == end && cs[s] == '.') {
            end = if s > bs { s - 1 } else { bs };
        } else {
            return Some((s, end));
        }
    }
}

fn trimmed_end_exec(cs: &Vec<char>, windows: bool, bs: usize, e: usize) -> (r: usize)
    requires
        bs <= e <= cs@.len(),
    ensures
        r == trimmed_end(cs@, windows, bs as int, e as int),
        r <= cs@.len(),
{
    match last_comp_exec(cs, windows, bs, e) {
        Some((_, t)) => t,
        None => bs,
    }
}

fn prefix_string(cs: &Vec<char>, k: usize) -> (out: String)
    requires
        k <= cs@.len(),
    ensures
        out@ == cs@.take(k as int),
{
    let mut out = String::new();
    push_range(&mut out, cs, 0, k);
    assert(cs@.subrange(0, k as int) == cs@.take(k as int));
    out
}

/// The parent of `p` (see [`path_parent`]).
pub fn parent(p: &str, windows: bool) -> (out: Option<String>)
    ensures
        match out {
            Some(s) => path_parent(p@, windows) == Some(s@),
            None => path_parent(p@, windows) is None,
        },
{
    let cs = chars_of(p);
    let (pl, bs, cur) = layout(&cs, windows);
    match last_comp_exec(&cs, windows, bs, cs.len()) {
        Some((s, _)) => {
            let end = trimmed_end_exec(&cs, windows, bs, if s > bs { s - 1 } else { s });
            Some(prefix_string(&cs, end))
        },
        None => if cur {
            Some(prefix_string(&cs, pl))
        } else {
            None
        },
    }
}

/// The final component of `p` (see [`path_file_name`]).
pub fn file_name(p: &str, windows: bool) -> (out: Option<String>)
    ensures
        match out {
            Some(s) => path_file_name(p@, windows) == Some(s@),
            None => path_file_name(p@, windows) is None,
        },
{
    let cs = chars_of(p);
    let (_, bs, _) = layout(&cs, windows);
    match last_comp_exec(&cs, windows, bs, cs.len()) {
        Some((s, e)) => {
            let mut name = String::new();
            push_range(&mut name, &cs, s, e);
            if e - s == 2 && cs[s] == '.' && cs[s + 1] == '.' {
                assert(name@ =~= seq!['.', '.']);
                None
            } else {
                assert(name@.len() == 2 ==> name@[0] == cs@[s as int] && name@[1] == cs@[s + 1]);
                Some(name)
            }
        },
        None => None,
    }
}

/// `base` joined with any path `comp` (see [`path_join_any`]).
pub fn join_any(base: &str, comp: &str, windows: bool) -> (out: String)
    ensures
        out@ == path_join_any(base@, comp@, windows),
{
    let cc = chars_of(comp);
    let cs = chars_of(base);
    if prefix_len_exec(&cc, windows) > 0 {
        return String::from_str(comp);
    }
    if cc.len() > 0 && is_sep_char(cc[0], windows) {
        if windows {
            let bl = prefix_len_exec(&cs, windows);
            let mut out = prefix_string(&cs, bl);
            out.append(comp);
            return out;
        } else {
            return String::from_str(comp);
        }
    }
    let mut out = string_of(&cs);
    if !ends_before_join(&cs, windows) {
        push_char(&mut out, if windows { '\\' } else { '/' });
    }
    out.append(comp);
    out
}

} // verus!
