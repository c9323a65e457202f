//! Reading what child processes print: upgrade logs, the dsh ready line and
//! version queries.
use vstd::prelude::*;
use vstd::utf8::{encode_scalar, encode_utf8};

use crate::text::{
    chars_of, contains, contains_chars, has_prefix, has_prefix_chars, is_space, is_space_char, join_strings, joined,
    push_range, string_of, strings, trim, trimmed_chars,
};

verus! {

/// Index of the first `'\n'` in `s`, or -1.
pub open spec fn first_newline(s: Seq<char>) -> int
    decreases s.len(),
{
    if s.len() == 0 {
        -1
    } else if s[0] == '\n' {
        0
    } else {
        let k = first_newline(s.skip(1));
        if k < 0 { -1 } else { k + 1 }
    }
}

/// `first_newline` is the index of the first `'\n'`, or -1 when there is none.
pub proof fn lemma_first_newline(s: Seq<char>)
    ensures
        -1 <= first_newline(s) < s.len(),
        first_newline(s) >= 0 ==> s[first_newline(s)] == '\n',
        forall|j: int| 0 <= j < s.len() && (first_newline(s) < 0 || j < first_newline(s)) ==> s[j] != '\n',
    decreases s.len(),
{
    if s.len() > 0 && s[0] != '\n' {
        lemma_first_newline(s.skip(1));
        assert forall|j: int| 0 <= j < s.len() && (first_newline(s) < 0 || j < first_newline(s)) implies s[j] != '\n' by {
            if j > 0 {
                assert(s[j] == s.skip(1)[j - 1]);
            }
        }
    }
}

/// The lines of `s` (`str::lines`): split at `'\n'`, a `'\r'` right before
/// a `'\n'` dropped, and no empty line after a final line ending.
pub open spec fn lines_of(s: Seq<char>) -> Seq<Seq<char>>
    decreases s.len(),
{
    if s.len() == 0 {
        Seq::empty()
    } else {
        let i = first_newline(s);
        proof {
            lemma_first_newline(s);
        }
        if i < 0 {
            seq![s]
        } else {
            let line = s.take(i);
            let line = if line.len() > 0 && line.last() == '\r' { line.drop_last() } else { line };
            seq![line] + lines_of(s.skip(i + 1))
        }
    }
}

proof fn lemma_first_newline_at(t: Seq<char>, k: int)
    requires
        0 <= k <= t.len(),
        k < t.len() ==> t[k] == '\n',
        forall|j: int| 0 <= j < k ==> t[j] != '\n',
    ensures
        first_newline(t) == if k < t.len() { k } else { -1 },
    decreases k,
{
    if k > 0 {
        lemma_first_newline_at(t.skip(1), k - 1);
    }
}

/// The lines of `s` (see [`lines_of`]).
pub fn lines(s: &str) -> (r: Vec<String>)
    ensures
        strings(r@) == lines_of(s@),
{
    let cs = chars_of(s);
    let n = cs.len();
    let mut out: Vec<String> = Vec::new();
    let mut start: usize = 0;
    let mut i: usize = 0;
    assert(cs@.skip(0) == cs@);
    while i < n
        invariant
            start <= i <= n == cs@.len(),
            cs@ == s@,
            lines_of(cs@) == strings(out@) + lines_of(cs@.skip(start as int)),
            forall|j: int| start <= j < i ==> cs@[j] != '\n',
        decreases n - i,
    {
        if cs[i] == '\n' {
            let ghost t = cs@.skip(start as int);
            proof {
                assert forall|j: int| 0 <= j < i - start implies t[j] != '\n' by {
                    assert(t[j] == cs@[start + j]);
                }
                lemma_first_newline_at(t, (i - start) as int);
                assert(t.take((i - start) as int) == cs@.subrange(start as int, i as int));
                assert(t.skip((i - start) + 1) == cs@.skip(i + 1));
            }
            let end: usize = if i > start && cs[i - 1] == '\r' { i - 1 } else { i };
            let mut line = String::new();
            push_range(&mut line, &cs, start, end);
            let ghost before = out@;
            out.push(line);
            proof {
                assert(out@ == before.push(out@.last()));
                assert(strings(out@) == strings(before).push(out@.last()@));
                let l = t.take((i - start) as int);
                if i > start && cs@[i - 1] == '\r' {
                    assert(l.drop_last() == cs@.subrange(start as int, end as int));
                }
            }
            start = i + 1;
        }
        i = i + 1;
    }
    if start < n {
        let ghost t = cs@.skip(start as int);
        proof {
            assert forall|j: int| 0 <= j < t.len() implies t[j] != '\n' by {
                assert(t[j] == cs@[start + j]);
            }
            lemma_first_newline_at(t, t.len() as int);
            assert(t == cs@.subrange(start as int, n as int));
        }
        let mut line = String::new();
        push_range(&mut line, &cs, start, n);
        let ghost before = out@;
        out.push(line);
        proof {
            assert(out@ == before.push(out@.last()));
            assert(strings(out@) == strings(before).push(out@.last()@));
        }
    } else {
        assert(cs@.skip(start as int).len() == 0);
    }
    out
}

/// Whether an upgrade log line is worth showing: after trimming it is not
/// empty and is none of the build tools' noise (deprecation warnings, plugin
/// timings, config-file and dependency chatter, hints, command echoes and
/// progress marks).
pub open spec fn keeps_line(line: Seq<char>) -> bool {
    let l = trim(line);
    &&& l.len() > 0
    &&& !contains(l, " WARN "@)
    &&& !contains(l, "deprecated"@)
    &&& !contains(l, "PLUGIN_TIMINGS"@)
    &&& !contains(l, "config file:"@)
    &&& !contains(l, "Detected dependencies"@)
    &&& !contains(l, "See more at"@)
    &&& !contains(l, "Hint:"@)
    &&& !contains(l, "entry: lib/types"@)
    &&& !contains(l, "tsconfig:"@)
    &&& !has_prefix(l, "target:"@)
    &&& !has_prefix(l, "- "@)
    &&& !has_prefix(l, "$ "@)
    &&& !has_prefix(l, "ℹ"@)
    &&& !has_prefix(l, "✔"@)
}

fn keeps_line_exec(line: &str) -> (r: bool)
    ensures
        r == keeps_line(line@),
{
    let l = trimmed_chars(line);
    l.len() > 0 && !contains_chars(&l, " WARN ") && !contains_chars(&l, "deprecated")
        && !contains_chars(&l, "PLUGIN_TIMINGS") && !contains_chars(&l, "config file:")
        && !contains_chars(&l, "Detected dependencies") && !contains_chars(&l, "See more at")
        && !contains_chars(&l, "Hint:") && !contains_chars(&l, "entry: lib/types")
        && !contains_chars(&l, "tsconfig:") && !has_prefix_chars(&l, "target:") && !has_prefix_chars(&l, "- ")
        && !has_prefix_chars(&l, "$ ") && !has_prefix_chars(&l, "ℹ") && !has_prefix_chars(&l, "✔")
}

/// The upgrade log lines worth showing, in order, joined with `'\n'`
/// (see [`keeps_line`]).
pub open spec fn cleaned_text(output: Seq<char>) -> Seq<char> {
    joined(lines_of(output).filter(|l: Seq<char>| keeps_line(l)), "\n"@)
}

/// A line without line-ending characters.
pub open spec fn plain_line(l: Seq<char>) -> bool {
    forall|i: int| 0 <= i < l.len() ==> l[i] != '\n' && l[i] != '\r'
}

proof fn lemma_lines_are_plain(s: Seq<char>)
    requires
        forall|i: int| 0 <= i < s.len() ==> s[i] != '\r',
    ensures
        forall|j: int| 0 <= j < lines_of(s).len() ==> plain_line(#[trigger] lines_of(s)[j]),
    decreases s.len(),
{
    if s.len() > 0 {
        lemma_first_newline(s);
        let i = first_newline(s);
        if i >= 0 {
            let line = s.take(i);
            assert(plain_line(line));
            let rest = s.skip(i + 1);
            assert forall|k: int| 0 <= k < rest.len() implies rest[k] != '\r' by {
                assert(rest[k] == s[i + 1 + k]);
            }
            lemma_lines_are_plain(rest);
            assert(lines_of(s) == seq![line] + lines_of(rest));
            assert forall|j: int| 0 <= j < lines_of(s).len() implies plain_line(#[trigger] lines_of(s)[j]) by {
                if j > 0 {
                    assert(lines_of(s)[j] == lines_of(rest)[j - 1]);
                }
            }
        } else {
            assert(plain_line(s));
            assert(lines_of(s) == seq![s]);
        }
    }
}

proof fn lemma_joined_front(parts: Seq<Seq<char>>, sep: Seq<char>)
    requires
        parts.len() >= 2,
    ensures
        joined(parts, sep) == parts[0] + sep + joined(parts.skip(1), sep),
    decreases parts.len(),
{
    let dl = parts.drop_last();
    let tl = parts.skip(1);
    if parts.len() == 2 {
        assert(dl.len() == 1 && dl[0] == parts[0]);
        assert(joined(dl, sep) == parts[0]);
        assert(tl.len() == 1 && tl[0] == parts[1]);
        assert(joined(tl, sep) == parts[1]);
        assert(joined(parts, sep) == joined(dl, sep) + sep + parts.last());
    } else {
        lemma_joined_front(dl, sep);
        assert(dl.skip(1) =~= tl.drop_last());
        assert(tl.last() == parts.last());
        assert(dl[0] == parts[0]);
        assert(joined(tl, sep) == joined(tl.drop_last(), sep) + sep + tl.last());
        assert(joined(parts, sep) == joined(dl, sep) + sep + parts.last());
        let a = parts[0];
        let c = joined(dl.skip(1), sep);
        assert((a + sep + c) + sep + parts.last() =~= a + sep + (c + sep + parts.last()));
    }
}

proof fn lemma_lines_of_joined(parts: Seq<Seq<char>>)
    requires
        forall|j: int| 0 <= j < parts.len() ==> (#[trigger] parts[j]).len() > 0 && plain_line(parts[j]),
    ensures
        lines_of(joined(parts, "\n"@)) == parts,
    decreases parts.len(),
{
    reveal_strlit("\n");
    if parts.len() == 1 {
        let p = parts[0];
        lemma_first_newline_at(p, p.len() as int);
        assert(joined(parts, "\n"@) == p);
        assert(lines_of(p) == seq![p]);
        assert(parts =~= seq![p]);
    } else if parts.len() >= 2 {
        let p = parts[0];
        let rest = parts.skip(1);
        lemma_joined_front(parts, "\n"@);
        let t = p + "\n"@ + joined(rest, "\n"@);
        assert(t[p.len() as int] == '\n');
        assert forall|j: int| 0 <= j < p.len() implies t[j] != '\n' by {
            assert(t[j] == p[j]);
        }
        lemma_first_newline_at(t, p.len() as int);
        assert(t.take(p.len() as int) == p);
        assert(p.last() != '\r');
        assert(t.skip(p.len() as int + 1) == joined(rest, "\n"@));
        assert forall|j: int| 0 <= j < rest.len() implies (#[trigger] rest[j]).len() > 0 && plain_line(rest[j]) by {
            assert(rest[j] == parts[j + 1]);
        }
        lemma_lines_of_joined(rest);
        assert(lines_of(t) == seq![p] + rest);
        assert(parts =~= seq![p] + rest);
    } else {
        assert(joined(parts, "\n"@) == Seq::<char>::empty());
    }
}

proof fn lemma_filter_keeps_plain(s: Seq<Seq<char>>, pred: spec_fn(Seq<char>) -> bool)
    requires
        forall|j: int| 0 <= j < s.len() ==> plain_line(#[trigger] s[j]),
    ensures
        forall|j: int| 0 <= j < s.filter(pred).len() ==> plain_line(#[trigger] s.filter(pred)[j]) && pred(s.filter(pred)[j]),
    decreases s.len(),
{
    reveal_with_fuel(Seq::<_>::filter, 1);
    if s.len() > 0 {
        let dl = s.drop_last();
        lemma_filter_keeps_plain(dl, pred);
        assert(plain_line(s.last()));
        let fd = dl.filter(pred);
        assert forall|j: int| 0 <= j < s.filter(pred).len() implies plain_line(#[trigger] s.filter(pred)[j])
            && pred(s.filter(pred)[j]) by {
            if pred(s.last()) {
                assert(s.filter(pred) == fd.push(s.last()));
                if j < fd.len() {
                    assert(s.filter(pred)[j] == fd[j]);
                }
            } else {
                assert(s.filter(pred) == fd);
            }
        }
    }
}

proof fn lemma_filter_all(s: Seq<Seq<char>>, pred: spec_fn(Seq<char>) -> bool)
    requires
        forall|j: int| 0 <= j < s.len() ==> pred(#[trigger] s[j]),
    ensures
        s.filter(pred) == s,
    decreases s.len(),
{
    reveal_with_fuel(Seq::<_>::filter, 1);
    if s.len() > 0 {
        lemma_filter_all(s.drop_last(), pred);
        assert(pred(s.last()));
        assert(s.drop_last().push(s.last()) =~= s);
    }
}

/// Cleaning an upgrade log twice gives the same text as cleaning it once,
/// for logs without carriage returns.
pub proof fn law_clean_output_idempotent(output: Seq<char>)
    requires
        forall|i: int| 0 <= i < output.len() ==> output[i] != '\r',
    ensures
        cleaned_text(cleaned_text(output)) == cleaned_text(output),
{
    let f = |l: Seq<char>| keeps_line(l);
    let kept = lines_of(output).filter(f);
    lemma_lines_are_plain(output);
    lemma_filter_keeps_plain(lines_of(output), f);
    assert forall|j: int| 0 <= j < kept.len() implies (#[trigger] kept[j]).len() > 0 && plain_line(kept[j]) by {
        assert(f(kept[j]));
        if kept[j].len() == 0 {
            assert(trim(kept[j]) =~= Seq::<char>::empty());
        }
    }
    lemma_lines_of_joined(kept);
    assert(cleaned_text(output) == joined(kept, "\n"@));
    assert forall|j: int| 0 <= j < kept.len() implies f(#[trigger] kept[j]) by {}
    lemma_filter_all(kept, f);
}

/// A text that is not empty starts with `✔` exactly when its first
/// character is `✔`.
proof fn lemma_check_mark_prefix(l: Seq<char>)
    requires
        l.len() > 0,
    ensures
        has_prefix(l, "✔"@) <==> l[0] == '✔',
{
    reveal_strlit("✔");
    if l[0] == '✔' {
        assert(l.take(1) =~= "✔"@);
    }
    if has_prefix(l, "✔"@) {
        assert(l.take(1)[0] == l[0]);
    }
}

proof fn lemma_cleaned_lines(output: Seq<char>)
    requires
        forall|i: int| 0 <= i < output.len() ==> output[i] != '\r',
    ensures
        lines_of(cleaned_text(output)) == lines_of(output).filter(|l: Seq<char>| keeps_line(l)),
        forall|j: int|
            0 <= j < lines_of(cleaned_text(output)).len() ==> keeps_line(#[trigger] lines_of(cleaned_text(output))[j]),
{
    let f = |l: Seq<char>| keeps_line(l);
    let kept = lines_of(output).filter(f);
    lemma_lines_are_plain(output);
    lemma_filter_keeps_plain(lines_of(output), f);
    assert forall|j: int| 0 <= j < kept.len() implies (#[trigger] kept[j]).len() > 0 && plain_line(kept[j]) by {
        assert(f(kept[j]));
        if kept[j].len() == 0 {
            assert(trim(kept[j]) =~= Seq::<char>::empty());
        }
    }
    lemma_lines_of_joined(kept);
    assert forall|j: int| 0 <= j < kept.len() implies keeps_line(#[trigger] kept[j]) by {
        assert(f(kept[j]));
    }
}

/// Every line of a cleaned upgrade log has text once trimmed and, trimmed,
/// contains none of ` WARN `, `deprecated`, `PLUGIN_TIMINGS`, `config file:`,
/// `Detected dependencies`, `See more at`, `Hint:`, `entry: lib/types`,
/// `tsconfig:`, starts with none of `target:`, `- `, `$ `, `ℹ`, and
/// its first character is not `✔`
/// (logs without carriage returns).
pub proof fn law_cleaned_lines_carry_no_noise(output: Seq<char>)
    requires
        forall|i: int| 0 <= i < output.len() ==> output[i] != '\r',
    ensures
        forall|j: int| 0 <= j < lines_of(cleaned_text(output)).len() ==> {
            let l = trim(#[trigger] lines_of(cleaned_text(output))[j]);
            &&& l.len() > 0
            &&& !contains(l, " WARN "@)
            &&& !contains(l, "deprecated"@)
            &&& !contains(l, "PLUGIN_TIMINGS"@)
            &&& !contains(l, "config file:"@)
            &&& !contains(l, "Detected dependencies"@)
            &&& !contains(l, "See more at"@)
            &&& !contains(l, "Hint:"@)
            &&& !contains(l, "entry: lib/types"@)
            &&& !contains(l, "tsconfig:"@)
            &&& !has_prefix(l, "target:"@)
            &&& !has_prefix(l, "- "@)
            &&& !has_prefix(l, "$ "@)
            &&& !has_prefix(l, "ℹ"@)
            &&& l[0] != '✔'
        },
{
    lemma_cleaned_lines(output);
    assert forall|j: int| 0 <= j < lines_of(cleaned_text(output)).len() implies
        trim(#[trigger] lines_of(cleaned_text(output))[j])[0] != '✔' by {
        lemma_check_mark_prefix(trim(lines_of(cleaned_text(output))[j]));
    }
}

/// Every line of an upgrade log that has text once trimmed and, trimmed,
/// carries none of the noise markers (see
/// [`law_cleaned_lines_carry_no_noise`]) is a line of the cleaned log (logs
/// without carriage returns).
pub proof fn law_meaningful_lines_are_kept(output: Seq<char>, i: int)
    requires
        forall|k: int| 0 <= k < output.len() ==> output[k] != '\r',
        0 <= i < lines_of(output).len(),
        ({
            let l = trim(lines_of(output)[i]);
            &&& l.len() > 0
            &&& !contains(l, " WARN "@)
            &&& !contains(l, "deprecated"@)
            &&& !contains(l, "PLUGIN_TIMINGS"@)
            &&& !contains(l, "config file:"@)
            &&& !contains(l, "Detected dependencies"@)
            &&& !contains(l, "See more at"@)
            &&& !contains(l, "Hint:"@)
            &&& !contains(l, "entry: lib/types"@)
            &&& !contains(l, "tsconfig:"@)
            &&& !has_prefix(l, "target:"@)
            &&& !has_prefix(l, "- "@)
            &&& !has_prefix(l, "$ "@)
            &&& !has_prefix(l, "ℹ"@)
            &&& l[0] != '✔'
        }),
    ensures
        lines_of(cleaned_text(output)).contains(lines_of(output)[i]),
{
    lemma_cleaned_lines(output);
    lemma_check_mark_prefix(trim(lines_of(output)[i]));
    let f = |l: Seq<char>| keeps_line(l);
    assert(f(lines_of(output)[i]));
    lines_of(output).lemma_filter_contains(f, i);
}

/// Keeps only meaningful lines of an upgrade run so a failure dialog shows
/// the actual error.
pub fn clean_output(output: &str) -> (r: String)
    ensures
        r@ == cleaned_text(output@),
{
    let all = lines(output);
    let ghost lv = strings(all@);
    let ghost f = |l: Seq<char>| keeps_line(l);
    let mut kept: Vec<String> = Vec::new();
    for i in 0..all.len()
        invariant
            lv == strings(all@),
            lv == lines_of(output@),
            f == (|l: Seq<char>| keeps_line(l)),
            strings(kept@) == lv.take(i as int).filter(f),
    {
        let ghost before = kept@;
        proof {
            assert(lv.take(i + 1).drop_last() == lv.take(i as int));
            reveal_with_fuel(Seq::<_>::filter, 1);
        }
        let keep = keeps_line_exec(all[i].as_str());
        if keep {
            kept.push(clone_line(&all[i]));
            assert(kept@ == before.push(kept@.last()));
            assert(strings(kept@) == strings(before).push(kept@.last()@));
        }
        proof {
            reveal_with_fuel(Seq::<_>::filter, 1);
            let t = lv.take(i + 1);
            assert(t.len() > 0);
            assert(t.last() == all@[i as int]@);
            assert(f(t.last()) == keep);
            assert(t.filter(f) == if keep { t.drop_last().filter(f).push(t.last()) } else { t.drop_last().filter(f) });
        }
    }
    assert(lv.take(all@.len() as int) == lv);
    join_strings(&kept, "\n")
}

fn clone_line(s: &String) -> (r: String)
    ensures
        r@ == s@,
{
    s.clone()
}

/// Prefix of the line on which dsh reports its web UI address.
pub const DSH_READY_PREFIX: &'static str = "dsh web: ";

/// Failure detail when dsh never printed its address: plain ASCII so any
/// dialog can show it; the dialog adds localized guidance.
pub const DSH_NO_URL_MSG: &'static str =
    "dsh did not print a ready URL (usually means Node.js is not installed or dsh is not installed correctly)";

/// Length of the leading run of non-space characters of `s`.
pub open spec fn token_len(s: Seq<char>) -> int
    decreases s.len(),
{
    if s.len() == 0 || is_space(s[0]) {
        0
    } else {
        1 + token_len(s.skip(1))
    }
}

/// `s` without trailing `')'` characters.
pub open spec fn trim_close_parens(s: Seq<char>) -> Seq<char>
    decreases s.len(),
{
    if s.len() > 0 && s.last() == ')' {
        trim_close_parens(s.drop_last())
    } else {
        s
    }
}

/// The address on a `dsh web: {url} ...` line: its first white-space
/// separated word with trailing `)` removed (possibly empty); `None` for
/// other lines.
pub open spec fn ready_url_of(line: Seq<char>) -> Option<Seq<char>> {
    if has_prefix(line, "dsh web: "@) {
        let rest = crate::text::trim_start(line.skip(9));
        Some(trim_close_parens(rest.take(token_len(rest))))
    } else {
        None
    }
}

proof fn lemma_token_len(s: Seq<char>, k: int)
    requires
        0 <= k <= s.len(),
        k < s.len() ==> is_space(s[k]),
        forall|j: int| 0 <= j < k ==> !is_space(s[j]),
    ensures
        token_len(s) == k,
    decreases k,
{
    if k > 0 {
        lemma_token_len(s.skip(1), k - 1);
    }
}

/// The web UI address that a line of dsh output announces, if it does.
pub fn ready_url_from_line(line: &str) -> (r: Option<String>)
    ensures
        match r {
            Some(u) => ready_url_of(line@) == Some(u@),
            None => ready_url_of(line@) is None,
        },
{
    proof {
        reveal_strlit("dsh web: ");
    }
    let cs = chars_of(line);
    if !has_prefix_chars(&cs, DSH_READY_PREFIX) {
        return None;
    }
    let n = cs.len();
    let mut i: usize = 9;
    while i < n && is_space_char(cs[i])
        invariant
            9 <= i <= n == cs@.len(),
            crate::text::trim_start(cs@.skip(9)) == crate::text::trim_start(cs@.skip(i as int)),
        decreases n - i,
    {
        assert(cs@.skip(i as int).skip(1) == cs@.skip(i + 1));
        i = i + 1;
    }
    let ghost rest = cs@.skip(i as int);
    assert(crate::text::trim_start(rest) == rest);
    let mut j: usize = i;
    while j < n && !is_space_char(cs[j])
        invariant
            i <= j <= n == cs@.len(),
            forall|m: int| i <= m < j ==> !is_space(cs@[m]),
        decreases n - j,
    {
        j = j + 1;
    }
    proof {
        assert forall|m: int| 0 <= m < j - i implies !is_space(rest[m]) by {
            assert(rest[m] == cs@[i + m]);
        }
        lemma_token_len(rest, (j - i) as int);
    }
    let mut e: usize = j;
    while e > i && cs[e - 1] == ')'
        invariant
            i <= e <= j,
            j <= n == cs@.len(),
            trim_close_parens(cs@.subrange(i as int, j as int)) == trim_close_parens(cs@.subrange(i as int, e as int)),
        decreases e,
    {
        assert(cs@.subrange(i as int, e as int).drop_last() == cs@.subrange(i as int, e - 1));
        e = e - 1;
    }
    assert(rest.take((j - i) as int) == cs@.subrange(i as int, j as int));
    let mut url = String::new();
    push_range(&mut url, &cs, i, e);
    proof {
        let t = cs@.subrange(i as int, e as int);
        if t.len() > 0 {
            assert(t.last() == cs@[e - 1]);
        }
        assert(trim_close_parens(t) == t);
    }
    Some(url)
}

/// The address dsh announced, or the failure detail when it announced none
/// (or an empty one).
pub fn ready_url_result(found: Option<String>) -> (r: Result<String, String>)
    ensures
        match found {
            Some(u) if u@.len() > 0 => r == Ok::<String, String>(u),
            _ => r is Err && r->Err_0@ == DSH_NO_URL_MSG@,
        },
{
    match found {
        Some(u) => {
            if u.as_str().is_empty() {
                Err(String::from_str(DSH_NO_URL_MSG))
            } else {
                Ok(u)
            }
        },
        None => Err(String::from_str(DSH_NO_URL_MSG)),
    }
}

/// Number of bytes UTF-8 takes for `c`.
pub open spec fn char_utf8_len(c: char) -> nat {
    if (c as u32) < 0x80 {
        1
    } else if (c as u32) < 0x800 {
        2
    } else if (c as u32) < 0x10000 {
        3
    } else {
        4
    }
}

/// Number of bytes UTF-8 takes for `s`.
pub open spec fn utf8_len(s: Seq<char>) -> nat
    decreases s.len(),
{
    if s.len() == 0 {
        0
    } else {
        char_utf8_len(s[0]) + utf8_len(s.skip(1))
    }
}

/// The longest suffix of `s` that takes at most `max` bytes in UTF-8: `s`
/// with leading characters dropped until it fits. It starts on a character
/// boundary by construction.
pub open spec fn tail_within(s: Seq<char>, max: nat) -> Seq<char>
    decreases s.len(),
{
    if s.len() == 0 || utf8_len(s) <= max {
        s
    } else {
        tail_within(s.skip(1), max)
    }
}

proof fn lemma_utf8_len_skip(s: Seq<char>, j: int)
    requires
        0 <= j <= s.len(),
    ensures
        utf8_len(s) >= utf8_len(s.skip(j)) + j,
    decreases j,
{
    if j > 0 {
        lemma_utf8_len_skip(s.skip(1), j - 1);
        assert(s.skip(1).skip(j - 1) == s.skip(j));
    } else {
        assert(s.skip(0) == s);
    }
}

/// The shown tail is the byte cut wherever that cut is on a character
/// boundary: when the suffix from character `k` on takes exactly `max`
/// bytes, it is that suffix; a text of at most `max` bytes is shown whole.
pub proof fn law_tail_is_the_byte_cut(s: Seq<char>, max: nat, k: int)
    requires
        0 <= k <= s.len(),
        utf8_len(s.skip(k)) == max || (k == 0 && utf8_len(s) <= max),
    ensures
        tail_within(s, max) == s.skip(k),
    decreases k,
{
    if k == 0 {
        assert(s.skip(0) == s);
    } else {
        lemma_utf8_len_skip(s, k);
        assert(s.skip(1).skip(k - 1) == s.skip(k));
        law_tail_is_the_byte_cut(s.skip(1), max, k - 1);
    }
}

/// `utf8_len` counts the bytes of the UTF-8 encoding (`str::len`): one
/// byte below U+0080, two below U+0800, three below U+10000, four above.
pub proof fn law_utf8_len_is_encoded_length(s: Seq<char>)
    ensures
        utf8_len(s) == encode_utf8(s).len(),
    decreases s.len(),
{
    if s.len() > 0 {
        let c = s[0];
        vstd::utf8::char_is_scalar(c);
        law_utf8_len_is_encoded_length(s.skip(1));
        assert(s.drop_first() == s.skip(1));
        assert(encode_scalar(c as u32).len() == char_utf8_len(c));
    }
}

fn utf8_len_of(c: char) -> (n: u128)
    ensures
        n == char_utf8_len(c),
{
    if (c as u32) < 0x80 {
        1
    } else if (c as u32) < 0x800 {
        2
    } else if (c as u32) < 0x10000 {
        3
    } else {
        4
    }
}

/// The end of `s` shown in a dialog: its longest suffix of at most `max`
/// UTF-8 bytes, so that a cut never splits a character.
pub fn text_tail(s: &str, max: usize) -> (r: String)
    ensures
        r@ == tail_within(s@, max as nat),
        r@ == s@.skip(s@.len() - r@.len()),
        utf8_len(r@) <= max,
        encode_utf8(r@).len() <= max,
        r@.len() < s@.len() ==> utf8_len(s@.skip(s@.len() - r@.len() - 1)) > max,
{
    let cs = chars_of(s);
    let n = cs.len();
    let mut total: u128 = 0;
    let mut k: usize = n;
    assert(cs@.skip(n as int).len() == 0);
    while k > 0
        invariant
            k <= n == cs@.len(),
            total == utf8_len(cs@.skip(k as int)),
            total <= 4 * (n - k),
        decreases k,
    {
        assert(cs@.skip(k - 1).skip(1) == cs@.skip(k as int));
        total = total + utf8_len_of(cs[k - 1]);
        k = k - 1;
    }
    assert(cs@.skip(0) == cs@);
    let mut i: usize = 0;
    while total > max as u128
        invariant
            i <= n == cs@.len(),
            total == utf8_len(cs@.skip(i as int)),
            tail_within(cs@, max as nat) == tail_within(cs@.skip(i as int), max as nat),
            i > 0 ==> utf8_len(cs@.skip(i - 1)) > max,
        decreases n - i,
    {
        assert(cs@.skip(i as int).skip(1) == cs@.skip(i + 1));
        total = total - utf8_len_of(cs[i]);
        i = i + 1;
    }
    let mut out = String::new();
    push_range(&mut out, &cs, i, n);
    assert(cs@.subrange(i as int, n as int) == cs@.skip(i as int));
    proof {
        if i > 0 {
            assert(cs@.len() - out@.len() - 1 == i - 1);
        }
        law_utf8_len_is_encoded_length(out@);
    }
    out
}

/// A version printed by a command: its output without surrounding white
/// space, or `unknown` when nothing is left.
pub open spec fn version_text_of(stdout: Seq<char>) -> Seq<char> {
    if trim(stdout).len() == 0 { "unknown"@ } else { trim(stdout) }
}

/// The version a command printed (see [`version_text_of`]).
pub fn version_from_output(stdout: &str) -> (r: String)
    ensures
        r@ == version_text_of(stdout@),
{
    let t = trimmed_chars(stdout);
    if t.len() == 0 {
        String::from_str("unknown")
    } else {
        string_of(&t)
    }
}

} // verus!
