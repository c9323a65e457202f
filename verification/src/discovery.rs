//! Where programs and toolchains are looked for, and the PATH handed to
//! child processes.
use vstd::prelude::*;

use crate::paths::{join, join_any, path_join, path_join_any};
use crate::runner::{clone_str, opt_string};
use crate::text::{join_strings, joined, str_eq, strings};

verus! {

pub open spec fn candidate_names(name: Seq<char>, windows: bool) -> Seq<Seq<char>> {
    if windows {
        seq![name + ".exe"@, name + ".cmd"@, name]
    } else {
        seq![name]
    }
}

/// Executable file names tried for a program: the bare name on Unix;
/// `.exe` and `.cmd` (npm-style shims) before the bare name on Windows.
pub fn program_candidates(name: &str, windows: bool) -> (r: Vec<String>)
    ensures
        strings(r@) == candidate_names(name@, windows),
{
    if windows {
        let mut exe = String::from_str(name);
        exe.append(".exe");
        let mut cmd = String::from_str(name);
        cmd.append(".cmd");
        let r = vec![exe, cmd, String::from_str(name)];
        assert(strings(r@) == seq![r@[0]@, r@[1]@, r@[2]@]);
        r
    } else {
        let r = vec![String::from_str(name)];
        assert(strings(r@) == seq![r@[0]@]);
        r
    }
}

pub open spec fn open_url_spec(os: Seq<char>, url: Seq<char>) -> (Seq<char>, Seq<Seq<char>>) {
    if os == "macos"@ {
        ("open"@, seq![url])
    } else if os == "windows"@ {
        ("cmd"@, seq!["/C"@, "start"@, url])
    } else {
        ("xdg-open"@, seq![url])
    }
}

/// (program, args) that open a URL in the default browser on `os`
/// (`std::env::consts::OS` naming); unknown platforms use `xdg-open`.
pub fn open_url_command(os: &str, url: &str) -> (r: (String, Vec<String>))
    ensures
        (r.0@, strings(r.1@)) == open_url_spec(os@, url@),
{
    if str_eq(os, "macos") {
        let args = vec![String::from_str(url)];
        assert(strings(args@) == seq![args@[0]@]);
        (String::from_str("open"), args)
    } else if str_eq(os, "windows") {
        let args = vec![String::from_str("/C"), String::from_str("start"), String::from_str(url)];
        assert(strings(args@) == seq![args@[0]@, args@[1]@, args@[2]@]);
        (String::from_str("cmd"), args)
    } else {
        let args = vec![String::from_str(url)];
        assert(strings(args@) == seq![args@[0]@]);
        (String::from_str("xdg-open"), args)
    }
}

/// `dir` joined with each name.
pub open spec fn joined_all(dir: Seq<char>, names: Seq<Seq<char>>, windows: bool) -> Seq<Seq<char>> {
    names.map_values(|n: Seq<char>| path_join_any(dir, n, windows))
}

/// Every directory joined with every candidate name, directory by
/// directory: the order in which a program is looked for.
pub open spec fn search_order(dirs: Seq<Seq<char>>, names: Seq<Seq<char>>, windows: bool) -> Seq<Seq<char>>
    decreases dirs.len(),
{
    if dirs.len() == 0 {
        Seq::empty()
    } else {
        search_order(dirs.drop_last(), names, windows) + joined_all(dirs.last(), names, windows)
    }
}

/// `probe` was asked about `path` and answered `answer`.
pub open spec fn probed<F: Fn(&str) -> bool>(probe: F, path: Seq<char>, answer: bool) -> bool {
    exists|s: &str| s@ == path && #[trigger] probe.ensures((s,), answer)
}

/// The first of `paths` that `probe` calls a file, having called all
/// before it not files; `None` when it called none of them a file.
pub open spec fn first_found<F: Fn(&str) -> bool>(probe: F, paths: Seq<Seq<char>>, r: Option<Seq<char>>) -> bool {
    match r {
        Some(p) => exists|k: int|
            0 <= k < paths.len() && paths[k] == p && probed(probe, paths[k], true) && forall|j: int|
                0 <= j < k ==> probed(probe, #[trigger] paths[j], false),
        None => forall|j: int| 0 <= j < paths.len() ==> probed(probe, #[trigger] paths[j], false),
    }
}

/// Looks for program `name` in `dirs`, in order, trying the
/// [`program_candidates`] in each; `is_file` tells which paths are files.
pub fn find_program(name: &str, dirs: &Vec<String>, windows: bool, is_file: impl Fn(&str) -> bool) -> (r: Option<String>)
    requires
        forall|s: &str| is_file.requires((s,)),
    ensures
        first_found(is_file, search_order(strings(dirs@), candidate_names(name@, windows), windows), opt_string(r)),
{
    proof {
        reveal_strlit(".exe");
        reveal_strlit(".cmd");
    }
    let names = program_candidates(name, windows);
    let ghost nv = strings(names@);
    let ghost all = search_order(strings(dirs@), nv, windows);
    let ghost mut tried: Seq<Seq<char>> = Seq::empty();
    let mut i: usize = 0;
    while i < dirs.len()
        invariant
            i <= dirs@.len(),
            nv == strings(names@),
            nv == candidate_names(name@, windows),
            all == search_order(strings(dirs@), nv, windows),
            tried == search_order(strings(dirs@.take(i as int)), nv, windows),
            forall|m: int| 0 <= m < tried.len() ==> probed(is_file, #[trigger] tried[m], false),
            forall|s: &str| is_file.requires((s,)),
        decreases dirs.len() - i,
    {
        let mut j: usize = 0;
        let ghost dir = dirs@[i as int]@;
        let ghost base = tried;
        while j < names.len()
            invariant
                i < dirs@.len(),
                j <= names@.len(),
                nv == strings(names@),
                nv == candidate_names(name@, windows),
                    dir == dirs@[i as int]@,
                tried == base + joined_all(dir, nv.take(j as int), windows),
                forall|m: int| 0 <= m < tried.len() ==> probed(is_file, #[trigger] tried[m], false),
                forall|s: &str| is_file.requires((s,)),
                base == search_order(strings(dirs@.take(i as int)), nv, windows),
                all == search_order(strings(dirs@), nv, windows),
            decreases names.len() - j,
        {
            let p = join_any(dirs[i].as_str(), names[j].as_str(), windows);
            let ps: &str = p.as_str();
            let found = is_file(ps);
            assert(is_file.ensures((ps,), found));
            if found {
                proof {
                    assert(strings(dirs@.take(i as int)) == strings(dirs@).take(i as int));
                    assert(strings(dirs@)[i as int] == dir);
                    lemma_tried_is_prefix(strings(dirs@), i as int, nv, j as int, windows);
                    assert(all[tried.len() as int] == p@);
                    assert(probed(is_file, all[tried.len() as int], true));
                    lemma_first_found_at(is_file, all, tried.len() as int, tried);
                }
                return Some(p);
            }
            proof {
                assert(probed(is_file, p@, false));
                assert(nv.take(j + 1) == nv.take(j as int).push(nv[j as int]));
                assert(joined_all(dir, nv.take(j + 1), windows) == joined_all(dir, nv.take(j as int), windows).push(p@));
                tried = tried.push(p@);
            }
            j = j + 1;
        }
        proof {
            assert(nv.take(nv.len() as int) == nv);
            assert(strings(dirs@.take(i + 1)).drop_last() == strings(dirs@.take(i as int)));
            assert(strings(dirs@.take(i + 1)).last() == dir);
        }
        i = i + 1;
    }
    assert(dirs@.take(dirs@.len() as int) == dirs@);
    None
}

/// The first `i` directories' search paths are a prefix of the whole
/// search order, followed by those of directory `i`.
proof fn lemma_search_order_prefix(dirs: Seq<Seq<char>>, i: int, names: Seq<Seq<char>>, windows: bool)
    requires
        0 <= i < dirs.len(),
    ensures
        search_order(dirs, names, windows).len() >= search_order(dirs.take(i), names, windows).len() + names.len(),
        forall|m: int| 0 <= m < search_order(dirs.take(i), names, windows).len() ==> search_order(dirs, names, windows)[m]
            == #[trigger] search_order(dirs.take(i), names, windows)[m],
        forall|m: int| 0 <= m < names.len() ==> search_order(dirs, names, windows)[search_order(dirs.take(i), names, windows).len() + m]
            == path_join_any(dirs[i], #[trigger] names[m], windows),
    decreases dirs.len() - i,
{
    if i + 1 == dirs.len() {
        assert(dirs.drop_last() == dirs.take(i));
    } else {
        lemma_search_order_prefix(dirs.drop_last(), i, names, windows);
        assert(dirs.drop_last().take(i) == dirs.take(i));
        assert(dirs.drop_last()[i] == dirs[i]);
    }
}

proof fn lemma_tried_is_prefix(dirs: Seq<Seq<char>>, i: int, names: Seq<Seq<char>>, j: int, windows: bool)
    requires
        0 <= i < dirs.len(),
        0 <= j < names.len(),
    ensures ({
        let base = search_order(dirs.take(i), names, windows);
        let tried = base + joined_all(dirs[i], names.take(j), windows);
        let all = search_order(dirs, names, windows);
        &&& tried.len() == base.len() + j
        &&& tried.len() < all.len()
        &&& all[tried.len() as int] == path_join_any(dirs[i], names[j], windows)
        &&& forall|m: int| 0 <= m < tried.len() ==> all[m] == #[trigger] tried[m]
    }),
{
    lemma_search_order_prefix(dirs, i, names, windows);
    let base = search_order(dirs.take(i), names, windows);
    let tried = base + joined_all(dirs[i], names.take(j), windows);
    let all = search_order(dirs, names, windows);
    assert forall|m: int| 0 <= m < tried.len() implies all[m] == #[trigger] tried[m] by {
        if m >= base.len() {
            let q = m - base.len();
            assert(all[base.len() + q] == path_join_any(dirs[i], names[q], windows));
        }
    }
    assert(all[base.len() + j] == path_join_any(dirs[i], names[j], windows));
}

proof fn lemma_first_found_at<F: Fn(&str) -> bool>(probe: F, all: Seq<Seq<char>>, k: int, tried: Seq<Seq<char>>)
    requires
        0 <= k < all.len(),
        tried.len() == k,
        probed(probe, all[k], true),
        forall|m: int| 0 <= m < tried.len() ==> all[m] == #[trigger] tried[m],
        forall|m: int| 0 <= m < tried.len() ==> probed(probe, #[trigger] tried[m], false),
    ensures
        first_found(probe, all, Some(all[k])),
{
    assert forall|m: int| 0 <= m < k implies probed(probe, #[trigger] all[m], false) by {
        assert(all[m] == tried[m]);
    }
}

/// Common toolchain locations, probed in order: the nvm `bin` directories
/// (newest first), `/usr/local/bin`, on macOS `/opt/homebrew/bin`,
/// `{home}/Library/pnpm` and `/opt/local/bin`, on Windows `{appdata}/npm`,
/// then `{home}/.local/bin`.
pub open spec fn toolchain_dir_list(nvm_bins: Seq<Seq<char>>, home: Seq<char>, os: Seq<char>, appdata: Seq<char>) -> Seq<Seq<char>> {
    let w = os == "windows"@;
    let mac: Seq<Seq<char>> = if os == "macos"@ {
        seq!["/opt/homebrew/bin"@, path_join(home, "Library/pnpm"@, w), "/opt/local/bin"@]
    } else {
        Seq::empty()
    };
    let win: Seq<Seq<char>> = if w { seq![path_join(appdata, "npm"@, w)] } else { Seq::empty() };
    nvm_bins + seq!["/usr/local/bin"@] + mac + win + seq![path_join(home, ".local/bin"@, w)]
}

fn push_string(v: &mut Vec<String>, s: String)
    ensures
        strings(final(v)@) == strings(old(v)@).push(s@),
{
    let ghost before = v@;
    v.push(s);
    assert(v@ == before.push(v@.last()));
}

/// The toolchain directories for a host: `os` is `std::env::consts::OS`,
/// `home` the home directory, `appdata` the Windows `APPDATA` directory.
pub fn toolchain_dirs(nvm_bins: Vec<String>, home: &str, os: &str, appdata: &str) -> (r: Vec<String>)
    ensures
        strings(r@) == toolchain_dir_list(strings(nvm_bins@), home@, os@, appdata@),
{
    proof {
        reveal_strlit("Library/pnpm");
        reveal_strlit("npm");
        reveal_strlit(".local/bin");
    }
    let windows = str_eq(os, "windows");
    let mut dirs = nvm_bins;
    push_string(&mut dirs, String::from_str("/usr/local/bin"));
    if str_eq(os, "macos") {
        push_string(&mut dirs, String::from_str("/opt/homebrew/bin"));
        push_string(&mut dirs, join(home, "Library/pnpm", windows));
        push_string(&mut dirs, String::from_str("/opt/local/bin"));
    }
    if windows {
        push_string(&mut dirs, join(appdata, "npm", windows));
    }
    push_string(&mut dirs, join(home, ".local/bin", windows));
    dirs
}

pub open spec fn path_list_sep(windows: bool) -> Seq<char> {
    if windows { ";"@ } else { ":"@ }
}

/// PATH for child processes: the private toolchain's node `bin`
/// directories first (so an older system node cannot shadow it), then the
/// toolchain directories, then the ambient PATH when set; `;`-separated on
/// Windows, `:` elsewhere.
pub fn augmented_path(private_bins: &Vec<String>, dirs: &Vec<String>, path_var: &Option<String>, windows: bool) -> (r: String)
    ensures
        r@ == joined(strings(private_bins@) + strings(dirs@) + match *path_var {
            Some(p) => seq![p@],
            None => Seq::empty(),
        }, path_list_sep(windows)),
{
    let mut parts: Vec<String> = Vec::new();
    assert(strings(parts@) == Seq::<Seq<char>>::empty());
    for i in 0..private_bins.len()
        invariant
            strings(parts@) == strings(private_bins@.take(i as int)),
    {
        push_string(&mut parts, clone_str(&private_bins[i]));
        assert(private_bins@.take(i + 1) == private_bins@.take(i as int).push(private_bins@[i as int]));
    }
    assert(private_bins@.take(private_bins@.len() as int) == private_bins@);
    for i in 0..dirs.len()
        invariant
            strings(parts@) == strings(private_bins@) + strings(dirs@.take(i as int)),
    {
        push_string(&mut parts, clone_str(&dirs[i]));
        assert(dirs@.take(i + 1) == dirs@.take(i as int).push(dirs@[i as int]));
    }
    assert(dirs@.take(dirs@.len() as int) == dirs@);
    match path_var {
        Some(p) => push_string(&mut parts, clone_str(p)),
        None => {},
    }
    assert(strings(parts@) == strings(private_bins@) + strings(dirs@) + match *path_var {
        Some(p) => seq![p@],
        None => Seq::<Seq<char>>::empty(),
    });
    let sep: &str = if windows { ";" } else { ":" };
    assert(sep@ == path_list_sep(windows));
    join_strings(&parts, sep)
}

} // verus!
