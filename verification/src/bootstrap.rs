//! First-launch bootstrap: where the private Node.js toolchain lives, which
//! official Node.js archive to fetch, and whether an installed Node.js is new
//! enough.
use vstd::prelude::*;

use crate::paths::{
    has_drive, is_plain_component, is_sep, join, lemma_join_last_comp, lemma_parent_of_join, parent, path_join, path_parent,
    starts_network,
};
use crate::text::{str_eq, string_of, trim, trimmed_chars};
use crate::discovery::probed;
use crate::text::strings;
use crate::version::{
    newest_bins, pair_views, semver_order, semver_parse, version_order, versioned_bin_dirs, ParsedVersion,
};

verus! {

/// Node.js release installed into the private toolchain.
pub const NODE_VERSION: &'static str = "24.19.0";

/// Oldest Node.js release dsh runs on.
pub const MIN_NODE_VERSION: &'static str = "22.0.0";

/// npm package name of dsh.
pub const DSH_PACKAGE: &'static str = "@deepseek-ai/dsh";

/// Bootstrap progress states, shown to the user.
#[derive(Clone, Copy, Debug, PartialEq, Eq)]
pub enum Step {
    Download,
    Extract,
    Install,
}

pub open spec fn toolchain_path(home: Seq<char>, windows: bool) -> Seq<char> {
    path_join(path_join(home, ".dsh"@, windows), "toolchain"@, windows)
}

/// `{home}/.dsh/toolchain`, the private toolchain directory.
pub fn toolchain_dir(home: &str, windows: bool) -> (out: String)
    ensures
        out@ == toolchain_path(home@, windows),
{
    proof {
        reveal_strlit(".dsh");
        reveal_strlit("toolchain");
    }
    let dsh = join(home, ".dsh", windows);
    join(dsh.as_str(), "toolchain", windows)
}

pub open spec fn node_dir_path(toolchain: Seq<char>, version: Seq<char>, windows: bool) -> Seq<char> {
    path_join(toolchain, "node-"@ + version, windows)
}

/// `{toolchain}/node-{version}`.
pub fn node_dir(toolchain: &str, version: &str, windows: bool) -> (out: String)
    ensures
        out@ == node_dir_path(toolchain@, version@, windows),
{
    proof {
        reveal_strlit("node-");
    }
    let mut name = String::from_str("node-");
    name.append(version);
    join(toolchain, name.as_str(), windows)
}

pub open spec fn node_exe_name(windows: bool) -> Seq<char> {
    if windows { "node.exe"@ } else { "node"@ }
}

pub open spec fn node_bin_path(toolchain: Seq<char>, version: Seq<char>, windows: bool) -> Seq<char> {
    path_join(path_join(node_dir_path(toolchain, version, windows), "bin"@, windows), node_exe_name(windows), windows)
}

/// `{toolchain}/node-{version}/bin/node` (`node.exe` on Windows).
pub fn node_bin(toolchain: &str, version: &str, windows: bool) -> (out: String)
    ensures
        out@ == node_bin_path(toolchain@, version@, windows),
{
    proof {
        reveal_strlit("bin");
        reveal_strlit("node.exe");
        reveal_strlit("node");
    }
    let dir = node_dir(toolchain, version, windows);
    let bin = join(dir.as_str(), "bin", windows);
    join(bin.as_str(), if windows { "node.exe" } else { "node" }, windows)
}

/// `{dir}/lib/node_modules/npm/bin/npm-cli.js`.
pub open spec fn npm_cli_under(dir: Seq<char>, windows: bool) -> Seq<char> {
    path_join(path_join(path_join(path_join(path_join(dir, "lib"@, windows), "node_modules"@, windows),
        "npm"@, windows), "bin"@, windows), "npm-cli.js"@, windows)
}

fn npm_cli_path_under(dir: &str, windows: bool) -> (out: String)
    ensures
        out@ == npm_cli_under(dir@, windows),
{
    proof {
        reveal_strlit("lib");
        reveal_strlit("node_modules");
        reveal_strlit("npm");
        reveal_strlit("bin");
        reveal_strlit("npm-cli.js");
    }
    let a = join(dir, "lib", windows);
    let b = join(a.as_str(), "node_modules", windows);
    let c = join(b.as_str(), "npm", windows);
    let d = join(c.as_str(), "bin", windows);
    join(d.as_str(), "npm-cli.js", windows)
}

/// npm's CLI script bundled with the private Node.js:
/// `{toolchain}/node-{version}/lib/node_modules/npm/bin/npm-cli.js`.
pub fn npm_cli_js(toolchain: &str, version: &str, windows: bool) -> (out: String)
    ensures
        out@ == npm_cli_under(node_dir_path(toolchain@, version@, windows), windows),
{
    let dir = node_dir(toolchain, version, windows);
    npm_cli_path_under(dir.as_str(), windows)
}

/// The parent of `p`, or the empty path where it has none.
pub open spec fn parent_or_empty(p: Seq<char>, windows: bool) -> Seq<char> {
    match path_parent(p, windows) {
        Some(q) => q,
        None => Seq::<char>::empty(),
    }
}

fn parent_or_empty_of(p: &str, windows: bool) -> (out: String)
    ensures
        out@ == parent_or_empty(p@, windows),
{
    match parent(p, windows) {
        Some(q) => q,
        None => String::new(),
    }
}

/// npm's CLI script derived from the location of a `node` binary
/// (`{node}/../../lib/node_modules/npm/bin/npm-cli.js`), so it fits whichever
/// version directory exists.
pub fn npm_cli_from_node(node: &str, windows: bool) -> (out: String)
    ensures
        out@ == npm_cli_under(parent_or_empty(parent_or_empty(node@, windows), windows), windows),
{
    let bin_dir = parent_or_empty_of(node, windows);
    let root = parent_or_empty_of(bin_dir.as_str(), windows);
    npm_cli_path_under(root.as_str(), windows)
}

/// nodejs.org names for an operating system and CPU architecture
/// (`std::env::consts::OS` and `ARCH` values): `darwin`/`win` and
/// `x64`/`arm64`; `None` elsewhere.
pub open spec fn platform_arch_names(os: Seq<char>, arch: Seq<char>) -> Option<(Seq<char>, Seq<char>)> {
    let o = if os == "macos"@ {
        Some("darwin"@)
    } else if os == "windows"@ {
        Some("win"@)
    } else {
        None
    };
    let a = if arch == "x86_64"@ {
        Some("x64"@)
    } else if arch == "aarch64"@ {
        Some("arm64"@)
    } else {
        None
    };
    match (o, a) {
        (Some(o), Some(a)) => Some((o, a)),
        _ => None,
    }
}

/// (os, arch) naming used by nodejs.org release files for the given target
/// OS and architecture; `None` on unsupported platforms.
pub fn platform_arch(os: &str, arch: &str) -> (r: Option<(&'static str, &'static str)>)
    ensures
        match r {
            Some((o, a)) => platform_arch_names(os@, arch@) == Some((o@, a@)),
            None => platform_arch_names(os@, arch@) is None,
        },
{
    let o: &'static str = if str_eq(os, "macos") {
        "darwin"
    } else if str_eq(os, "windows") {
        "win"
    } else {
        return None;
    };
    let a: &'static str = if str_eq(arch, "x86_64") {
        "x64"
    } else if str_eq(arch, "aarch64") {
        "arm64"
    } else {
        return None;
    };
    Some((o, a))
}

pub open spec fn archive_ext(os: Seq<char>) -> Seq<char> {
    if os == "darwin"@ { "tar.xz"@ } else { "zip"@ }
}

/// `node-v{version}-{os}-{arch}`.
pub open spec fn top_dir_text(version: Seq<char>, os: Seq<char>, arch: Seq<char>) -> Seq<char> {
    "node-v"@ + version + "-"@ + os + "-"@ + arch
}

/// `node-v{version}-{os}-{arch}.{ext}`, `.tar.xz` for macOS and `.zip`
/// otherwise.
pub open spec fn archive_name_text(version: Seq<char>, os: Seq<char>, arch: Seq<char>) -> Seq<char> {
    top_dir_text(version, os, arch) + "."@ + archive_ext(os)
}

/// Top-level directory name inside the downloaded archive.
pub fn extracted_top_dir(version: &str, os: &str, arch: &str) -> (out: String)
    ensures
        out@ == top_dir_text(version@, os@, arch@),
{
    let mut out = String::from_str("node-v");
    out.append(version);
    out.append("-");
    out.append(os);
    out.append("-");
    out.append(arch);
    out
}

/// File name of the official Node.js archive for a release and platform.
pub fn archive_name(version: &str, os: &str, arch: &str) -> (out: String)
    ensures
        out@ == archive_name_text(version@, os@, arch@),
{
    let ext = if str_eq(os, "darwin") { "tar.xz" } else { "zip" };
    let mut out = extracted_top_dir(version, os, arch);
    out.append(".");
    out.append(ext);
    out
}

/// Download URL of the official Node.js archive:
/// `https://nodejs.org/dist/v{version}/{archive_name}`.
pub fn archive_url(version: &str, os: &str, arch: &str) -> (out: String)
    ensures
        out@ == "https://nodejs.org/dist/v"@ + version@ + "/"@ + archive_name_text(version@, os@, arch@),
{
    let mut out = String::from_str("https://nodejs.org/dist/v");
    out.append(version);
    out.append("/");
    let name = archive_name(version, os, arch);
    out.append(name.as_str());
    out
}

/// `node -v` output with surrounding white space and one leading `v` removed.
pub open spec fn node_version_text(output: Seq<char>) -> Seq<char> {
    let t = trim(output);
    if t.len() > 0 && t[0] == 'v' { t.skip(1) } else { t }
}

/// Whether `text` and [`MIN_NODE_VERSION`] both parse as SemVer versions
/// and `text` is not older.
pub open spec fn meets_node_minimum(text: Seq<char>) -> bool {
    match (semver_parse(text), semver_parse(MIN_NODE_VERSION@)) {
        (Some(v), Some(m)) => semver_order(v, m) >= 0,
        _ => false,
    }
}

/// True when `node -v` output parses as a SemVer version of at least
/// [`MIN_NODE_VERSION`].
pub fn parse_node_version_ok(output: &str) -> (r: bool)
    ensures
        r == meets_node_minimum(node_version_text(output@)),
        trim(output@).len() == 0 ==> !r,
{
    let t = trimmed_chars(output);
    let text = if t.len() > 0 && t[0] == 'v' {
        let mut rest: Vec<char> = Vec::new();
        let mut i: usize = 1;
        while i < t.len()
            invariant
                1 <= i <= t@.len(),
                rest@ == t@.subrange(1, i as int),
            decreases t.len() - i,
        {
            rest.push(t[i]);
            assert(t@.subrange(1, i + 1) == t@.subrange(1, i as int).push(t@[i as int]));
            i = i + 1;
        }
        assert(rest@ == t@.skip(1));
        string_of(&rest)
    } else {
        string_of(&t)
    };
    match (ParsedVersion::parse(text.as_str()), ParsedVersion::parse(MIN_NODE_VERSION)) {
        (Some(v), Some(m)) => version_order(&v, &m) >= 0,
        _ => false,
    }
}

/// Arguments of `node npm-cli.js ...` that install dsh into the private
/// prefix: `install --prefix {prefix} --no-fund --no-audit @deepseek-ai/dsh`.
pub fn npm_install_args(prefix: &str) -> (r: Vec<String>)
    ensures
        strings(r@) == seq!["install"@, "--prefix"@, prefix@, "--no-fund"@, "--no-audit"@, DSH_PACKAGE@],
{
    let r = vec![
        String::from_str("install"),
        String::from_str("--prefix"),
        String::from_str(prefix),
        String::from_str("--no-fund"),
        String::from_str("--no-audit"),
        String::from_str(DSH_PACKAGE),
    ];
    assert(strings(r@) =~= seq!["install"@, "--prefix"@, prefix@, "--no-fund"@, "--no-audit"@, DSH_PACKAGE@]);
    r
}

/// Name of the dsh shim npm installs into `node_modules/.bin`: the `.cmd`
/// shim on Windows.
pub open spec fn dsh_shim_text(windows: bool) -> Seq<char> {
    if windows { "dsh.cmd"@ } else { "dsh"@ }
}

pub fn dsh_shim_name(windows: bool) -> (r: &'static str)
    ensures
        r@ == dsh_shim_text(windows),
{
    if windows { "dsh.cmd" } else { "dsh" }
}

/// `{toolchain}/node_modules/.bin/{dsh shim}`, where npm installs dsh with
/// the private toolchain as prefix.
pub open spec fn private_dsh_path(toolchain: Seq<char>, windows: bool) -> Seq<char> {
    path_join(path_join(path_join(toolchain, "node_modules"@, windows), ".bin"@, windows), dsh_shim_text(windows), windows)
}

/// Private Node.js installations are directories `node-{semver}`.
pub open spec fn node_dir_prefix() -> Seq<char> {
    seq!['n', 'o', 'd', 'e', '-']
}

/// The `bin` directories of the private Node.js installations, newest
/// version first; `entries` are the (name, path) pairs of the toolchain
/// directory's entries.
pub fn private_node_bin_dirs(entries: Vec<(String, String)>, windows: bool) -> (out: Vec<String>)
    ensures
        newest_bins(strings(out@), pair_views(entries@), node_dir_prefix(), windows),
{
    proof {
        reveal_strlit("node-");
        assert("node-"@ =~= node_dir_prefix());
    }
    versioned_bin_dirs(entries, "node-", windows)
}

/// A complete private toolchain: the `node` of the newest `node-{semver}`
/// installation, which `is_file` must call a file, and the installed dsh
/// shim, which `path_exists` must say exists; `None` when either is missing.
pub fn private_node_and_dsh(
    toolchain: &str,
    entries: Vec<(String, String)>,
    windows: bool,
    is_file: impl Fn(&str) -> bool,
    path_exists: impl Fn(&str) -> bool,
) -> (r: Option<(String, String)>)
    requires
        forall|s: &str| is_file.requires((s,)),
        forall|s: &str| path_exists.requires((s,)),
    ensures
        exists|bins: Seq<Seq<char>>|
            #![trigger newest_bins(bins, pair_views(entries@), node_dir_prefix(), windows)]
            newest_bins(bins, pair_views(entries@), node_dir_prefix(), windows) && match r {
                Some((node, dsh)) => bins.len() > 0 && node@ == path_join(bins[0], node_exe_name(windows), windows)
                    && dsh@ == private_dsh_path(toolchain@, windows) && probed(is_file, node@, true)
                    && probed(path_exists, dsh@, true),
                None => bins.len() == 0 || probed(is_file, path_join(bins[0], node_exe_name(windows), windows), false)
                    || probed(path_exists, private_dsh_path(toolchain@, windows), false),
            },
{
    proof {
        reveal_strlit("node.exe");
        reveal_strlit("node");
        reveal_strlit("node_modules");
        reveal_strlit(".bin");
        reveal_strlit("dsh.cmd");
        reveal_strlit("dsh");
    }
    let bins = private_node_bin_dirs(entries, windows);
    let ghost bv = strings(bins@);
    if bins.len() == 0 {
        return None;
    }
    assert(bv[0] == bins@[0]@);
    let node = join(bins[0].as_str(), if windows { "node.exe" } else { "node" }, windows);
    let nm = join(toolchain, "node_modules", windows);
    let dot_bin = join(nm.as_str(), ".bin", windows);
    let dsh = join(dot_bin.as_str(), dsh_shim_name(windows), windows);
    let node_s: &str = node.as_str();
    let found = is_file(node_s);
    assert(is_file.ensures((node_s,), found));
    if !found {
        return None;
    }
    let dsh_s: &str = dsh.as_str();
    let present = path_exists(dsh_s);
    assert(path_exists.ensures((dsh_s,), present));
    if present {
        Some((node, dsh))
    } else {
        None
    }
}

/// npm's CLI script derived from the `node` binary of a private Node.js
/// installation is that installation's bundled npm script: for a
/// toolchain directory that does not start with two separators and a
/// version that is a single component, `npm_cli_from_node(node_bin(toolchain,
/// version))` is `npm_cli_js(toolchain, version)`.
pub proof fn law_npm_cli_from_node_bin(toolchain: Seq<char>, version: Seq<char>, windows: bool)
    requires
        !starts_network(toolchain, windows),
        is_plain_component(version, windows),
    ensures
        npm_cli_under(parent_or_empty(parent_or_empty(node_bin_path(toolchain, version, windows), windows), windows), windows)
            == npm_cli_under(node_dir_path(toolchain, version, windows), windows),
{
    reveal_strlit("node-");
    reveal_strlit("bin");
    reveal_strlit("node.exe");
    reveal_strlit("node");
    let comp = "node-"@ + version;
    assert forall|i: int| 0 <= i < comp.len() implies !is_sep(#[trigger] comp[i], windows) by {
        if i >= 5 {
            assert(comp[i] == version[i - 5]);
        }
    }
    assert(comp != seq!['.']) by {
        assert(comp.len() > 1);
    }
    assert(!has_drive(comp, windows)) by {
        assert(comp[1] == 'o');
    }
    lemma_join_last_comp(toolchain, comp, windows);
    let d = node_dir_path(toolchain, version, windows);
    let bin = "bin"@;
    assert forall|i: int| 0 <= i < bin.len() implies !is_sep(#[trigger] bin[i], windows) by {}
    assert(bin != seq!['.']) by {
        assert(bin.len() == 3);
    }
    lemma_parent_of_join(d, bin, windows);
    let b = path_join(d, bin, windows);
    let exe = node_exe_name(windows);
    assert forall|i: int| 0 <= i < exe.len() implies !is_sep(#[trigger] exe[i], windows) by {}
    assert(exe != seq!['.']) by {
        assert(exe.len() >= 4);
    }
    lemma_parent_of_join(b, exe, windows);
}

} // verus!
