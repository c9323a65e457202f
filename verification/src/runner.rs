//! How dsh is launched and upgraded for each way it can be installed.
use vstd::prelude::*;

use crate::bootstrap::{npm_cli_from_node, npm_cli_under, parent_or_empty};
use crate::paths::{
    file_name, is_join_base, is_plain_component, is_sep, is_trimmed, join, lemma_parent_of_join, parent, path_file_name,
    path_join, path_parent,
};
use crate::text::{str_eq, strings};

verus! {

/// How dsh is provided, in detection priority order: source checkout,
/// bundled app resource, global install, private toolchain, npx registry.
pub enum DshMode {
    Source(String),
    Bundled(String),
    Global(String),
    Private { node: String, dsh: String },
    Npx,
}

pub open spec fn opt_string(o: Option<String>) -> Option<Seq<char>> {
    match o {
        Some(s) => Some(s@),
        None => None,
    }
}

/// The program name a mode looks up through `resolve`: `pnpm` for a source
/// checkout, `node` for the bundled copy, `npx` for the registry.
pub open spec fn runner_lookup(mode: DshMode) -> Option<Seq<char>> {
    match mode {
        DshMode::Source(_) => Some("pnpm"@),
        DshMode::Bundled(_) => Some("node"@),
        DshMode::Npx => Some("npx"@),
        _ => None,
    }
}

/// The program of modes that run an installed file directly: the global
/// shim; in private mode the `.cmd` shim on Windows (run through cmd.exe)
/// and otherwise the private `node`.
pub open spec fn runner_direct(mode: DshMode, windows: bool) -> Seq<char> {
    match mode {
        DshMode::Global(dsh) => dsh@,
        DshMode::Private { node, dsh } => if windows { dsh@ } else { node@ },
        _ => Seq::empty(),
    }
}

pub open spec fn runner_args(mode: DshMode, windows: bool) -> Seq<Seq<char>> {
    match mode {
        DshMode::Source(_) => seq!["dsh"@],
        DshMode::Bundled(bin) => seq![bin@],
        DshMode::Global(_) => Seq::empty(),
        DshMode::Private { node, dsh } => if windows { Seq::empty() } else { seq![dsh@] },
        DshMode::Npx => seq!["--yes"@, "@deepseek-ai/dsh"@],
    }
}

pub open spec fn runner_cwd(mode: DshMode) -> Option<Seq<char>> {
    match mode {
        DshMode::Source(root) => Some(root@),
        _ => None,
    }
}

pub(crate) fn clone_str(s: &String) -> (r: String)
    ensures
        r@ == s@,
{
    s.clone()
}

/// (program, base args, cwd) for a detected mode. Program names go through
/// `resolve`, so callers choose how names become paths.
pub fn dsh_runner(mode: &DshMode, resolve: impl Fn(&str) -> String, windows: bool) -> (r: (
    String,
    Vec<String>,
    Option<String>,
))
    requires
        forall|s: &str| resolve.requires((s,)),
    ensures
        *mode is Source ==> resolve.ensures(("pnpm",), r.0),
        *mode is Bundled ==> resolve.ensures(("node",), r.0),
        *mode is Npx ==> resolve.ensures(("npx",), r.0),
        runner_lookup(*mode) is None ==> r.0@ == runner_direct(*mode, windows),
        strings(r.1@) == runner_args(*mode, windows),
        opt_string(r.2) == runner_cwd(*mode),
{
    match mode {
        DshMode::Source(root) => {
            let cmd = resolve("pnpm");
            let args = vec![String::from_str("dsh")];
            (cmd, args, Some(clone_str(root)))
        },
        DshMode::Bundled(bin) => {
            let cmd = resolve("node");
            let args = vec![clone_str(bin)];
            (cmd, args, None)
        },
        DshMode::Global(dsh) => (clone_str(dsh), Vec::new(), None),
        DshMode::Private { node, dsh } => {
            if windows {
                (clone_str(dsh), Vec::new(), None)
            } else {
                (clone_str(node), vec![clone_str(dsh)], None)
            }
        },
        DshMode::Npx => {
            let cmd = resolve("npx");
            let args = vec![String::from_str("--yes"), String::from_str("@deepseek-ai/dsh")];
            (cmd, args, None)
        },
    }
}

/// Arguments that follow the command of a private-toolchain npm run:
/// `npm-cli.js`, then `extra`, then `--prefix {prefix}`.
pub open spec fn private_npm_args(npm_cli: Seq<char>, extra: Seq<Seq<char>>, prefix: Seq<char>) -> Seq<Seq<char>> {
    seq![npm_cli] + extra + seq!["--prefix"@, prefix]
}

/// npm's CLI script beside the private `node`.
pub open spec fn private_npm_cli(node: Seq<char>, windows: bool) -> Seq<char> {
    npm_cli_under(parent_or_empty(parent_or_empty(node, windows), windows), windows)
}

pub open spec fn str_views(v: Seq<&str>) -> Seq<Seq<char>> {
    v.map_values(|s: &str| s@)
}

/// Command to run npm with the private toolchain's `node` and its bundled
/// `npm-cli.js`: `private` is the complete private toolchain found on disk
/// (its `node` and dsh shim), `path_exists` tells whether a path exists. `None`
/// without a complete private toolchain or without the npm script.
pub fn private_npm_cmd(
    private: &Option<(String, String)>,
    prefix: &str,
    extra: &[&str],
    path_exists: impl Fn(&str) -> bool,
    windows: bool,
) -> (r: Option<(String, Vec<String>)>)
    requires
        forall|s: &str| path_exists.requires((s,)),
    ensures
        match *private {
            None => r is None,
            Some((node, _dsh)) => exists|cli: &str|
                #![trigger path_exists.ensures((cli,), true)]
                #![trigger path_exists.ensures((cli,), false)]
                cli@ == private_npm_cli(node@, windows) && match r {
                    Some((cmd, args)) => path_exists.ensures((cli,), true) && cmd@ == node@
                        && strings(args@) == private_npm_args(cli@, str_views(extra@), prefix@),
                    None => path_exists.ensures((cli,), false),
                },
        },
{
    match private {
        None => None,
        Some((node, _dsh)) => {
            let npm_cli = npm_cli_from_node(node.as_str(), windows);
            let cli: &str = npm_cli.as_str();
            let found = path_exists(cli);
            assert(path_exists.ensures((cli,), found));
            if !found {
                return None;
            }
            let mut args: Vec<String> = vec![clone_str(&npm_cli)];
            let ghost start = strings(args@);
            assert(start == seq![npm_cli@]);
            for i in 0..extra.len()
                invariant
                    strings(args@) == start + str_views(extra@.take(i as int)),
            {
                let ghost before = args@;
                args.push(String::from_str(extra[i]));
                proof {
                    assert(extra@.take(i + 1) == extra@.take(i as int).push(extra@[i as int]));
                    assert(str_views(extra@.take(i + 1)) == str_views(extra@.take(i as int)).push(extra@[i as int]@));
                    assert(args@ == before.push(args@.last()));
                    assert(strings(args@) == strings(before).push(args@.last()@));
                }
            }
            assert(extra@.take(extra@.len() as int) == extra@);
            let ghost mid = args@;
            args.push(String::from_str("--prefix"));
            args.push(String::from_str(prefix));
            proof {
                assert(args@ == mid.push(args@[mid.len() as int]).push(args@[mid.len() as int + 1]));
                assert(strings(args@) == strings(mid).push("--prefix"@).push(prefix@));
                assert(strings(args@) == private_npm_args(npm_cli@, str_views(extra@), prefix@));
            }
            Some((clone_str(node), args))
        },
    }
}

/// Arguments after the dsh runner that start the web UI: `web --port 0
/// --no-open` (any free port; the desktop shell opens the URL itself).
pub open spec fn web_args() -> Seq<Seq<char>> {
    seq!["web"@, "--port"@, "0"@, "--no-open"@]
}

fn push_strs(v: &mut Vec<String>, items: &[&str])
    ensures
        strings(final(v)@) == strings(old(v)@) + str_views(items@),
{
    let ghost start = strings(v@);
    for i in 0..items.len()
        invariant
            strings(v@) == start + str_views(items@.take(i as int)),
    {
        let ghost before = v@;
        v.push(String::from_str(items[i]));
        proof {
            assert(items@.take(i + 1) == items@.take(i as int).push(items@[i as int]));
            assert(str_views(items@.take(i + 1)) == str_views(items@.take(i as int)).push(items@[i as int]@));
            assert(v@ == before.push(v@.last()));
            assert(strings(v@) == strings(before).push(v@.last()@));
        }
    }
    assert(items@.take(items@.len() as int) == items@);
}

/// The dsh runner for `mode` followed by [`web_args`].
pub fn dsh_web_command(mode: &DshMode, resolve: impl Fn(&str) -> String, windows: bool) -> (r: (
    String,
    Vec<String>,
    Option<String>,
))
    requires
        forall|s: &str| resolve.requires((s,)),
    ensures
        *mode is Source ==> resolve.ensures(("pnpm",), r.0),
        *mode is Bundled ==> resolve.ensures(("node",), r.0),
        *mode is Npx ==> resolve.ensures(("npx",), r.0),
        runner_lookup(*mode) is None ==> r.0@ == runner_direct(*mode, windows),
        strings(r.1@) == runner_args(*mode, windows) + web_args(),
        opt_string(r.2) == runner_cwd(*mode),
{
    let (cmd, mut args, cwd) = dsh_runner(mode, resolve, windows);
    push_strs(&mut args, &["web", "--port", "0", "--no-open"]);
    assert(str_views(seq!["web", "--port", "0", "--no-open"]) == web_args());
    (cmd, args, cwd)
}

/// The dsh runner for `mode` followed by `-V` (print the version).
pub fn dsh_version_command(mode: &DshMode, resolve: impl Fn(&str) -> String, windows: bool) -> (r: (
    String,
    Vec<String>,
    Option<String>,
))
    requires
        forall|s: &str| resolve.requires((s,)),
    ensures
        *mode is Source ==> resolve.ensures(("pnpm",), r.0),
        *mode is Bundled ==> resolve.ensures(("node",), r.0),
        *mode is Npx ==> resolve.ensures(("npx",), r.0),
        runner_lookup(*mode) is None ==> r.0@ == runner_direct(*mode, windows),
        strings(r.1@) == runner_args(*mode, windows).push("-V"@),
        opt_string(r.2) == runner_cwd(*mode),
{
    let (cmd, mut args, cwd) = dsh_runner(mode, resolve, windows);
    let ghost before = args@;
    args.push(String::from_str("-V"));
    assert(args@ == before.push(args@.last()));
    assert(strings(args@) == strings(before).push(args@.last()@));
    (cmd, args, cwd)
}

/// Arguments of the registry query for the newest published dsh.
pub open spec fn npm_view_args() -> Seq<Seq<char>> {
    seq!["view"@, "@deepseek-ai/dsh"@, "version"@]
}

/// Command asking the npm registry for the newest published dsh: through
/// the private toolchain's npm when it is complete and its npm script
/// exists, else `npm view @deepseek-ai/dsh version` with `npm` resolved by
/// name.
pub fn latest_version_command(
    private: &Option<(String, String)>,
    toolchain: &str,
    resolve: impl Fn(&str) -> String,
    path_exists: impl Fn(&str) -> bool,
    windows: bool,
) -> (r: (String, Vec<String>))
    requires
        forall|s: &str| resolve.requires((s,)),
        forall|s: &str| path_exists.requires((s,)),
    ensures
        match *private {
            None => resolve.ensures(("npm",), r.0) && strings(r.1@) == npm_view_args(),
            Some((node, _dsh)) => exists|cli: &str|
                #![trigger path_exists.ensures((cli,), true)]
                #![trigger path_exists.ensures((cli,), false)]
                cli@ == private_npm_cli(node@, windows) && ((path_exists.ensures((cli,), true) && r.0@ == node@
                    && strings(r.1@) == private_npm_args(cli@, npm_view_args(), toolchain@)) || (path_exists.ensures(
                    (cli,),
                    false,
                ) && resolve.ensures(("npm",), r.0) && strings(r.1@) == npm_view_args())),
        },
{
    let extra: [&str; 3] = ["view", "@deepseek-ai/dsh", "version"];
    assert(str_views(extra@) == npm_view_args());
    match private_npm_cmd(private, toolchain, &extra, path_exists, windows) {
        Some(pair) => pair,
        None => {
            let cmd = resolve("npm");
            let mut args: Vec<String> = Vec::new();
            push_strs(&mut args, &extra);
            assert(strings(Seq::<String>::empty()) == Seq::<Seq<char>>::empty());
            (cmd, args)
        },
    }
}

/// npm package spec that installs the newest published dsh.
pub const DSH_LATEST: &'static str = "@deepseek-ai/dsh@latest";

/// How to spawn an upgrade subprocess. `path`, when set, replaces the
/// augmented PATH so another Node.js tree cannot shadow npm.
pub struct UpgradePlan {
    pub cmd: String,
    pub args: Vec<String>,
    pub cwd: Option<String>,
    pub path: Option<String>,
}

pub open spec fn npm_global_args() -> Seq<Seq<char>> {
    seq!["install"@, "-g"@, "--no-fund"@, "--no-audit"@, "@deepseek-ai/dsh@latest"@]
}

/// `install -g --no-fund --no-audit @deepseek-ai/dsh@latest`.
pub fn npm_global_install_args() -> (r: Vec<String>)
    ensures
        strings(r@) == npm_global_args(),
{
    let mut v: Vec<String> = Vec::new();
    push_strs(&mut v, &["install", "-g", "--no-fund", "--no-audit", DSH_LATEST]);
    assert(str_views(seq!["install", "-g", "--no-fund", "--no-audit", DSH_LATEST]) == npm_global_args());
    assert(strings(Seq::<String>::empty()) == Seq::<Seq<char>>::empty());
    v
}

pub open spec fn npm_shim(windows: bool) -> Seq<char> {
    if windows { "npm.cmd"@ } else { "npm"@ }
}

/// File name of the npm launcher: `npm.cmd` on Windows, else `npm`.
pub fn npm_shim_name(windows: bool) -> (r: &'static str)
    ensures
        r@ == npm_shim(windows),
{
    if windows { "npm.cmd" } else { "npm" }
}

/// PATH scoped to one Node.js install: its `bin` directory, then on Windows
/// the ambient PATH (when set), elsewhere `/usr/bin` and `/bin`; joined with
/// `;` on Windows and `:` elsewhere.
pub open spec fn isolated_path(node_bin: Seq<char>, windows: bool, ambient: Option<Seq<char>>) -> Seq<char> {
    if windows {
        match ambient {
            Some(p) => node_bin + ";"@ + p,
            None => node_bin,
        }
    } else {
        node_bin + ":/usr/bin:/bin"@
    }
}

/// PATH scoped to one Node.js install so postinstall scripts pick the right
/// `node`; `ambient_path` is the current PATH, if set.
pub fn upgrade_path_for_node_bin(node_bin: &str, windows: bool, ambient_path: &Option<String>) -> (r: String)
    ensures
        r@ == isolated_path(node_bin@, windows, opt_string(*ambient_path)),
{
    let mut out = String::from_str(node_bin);
    if windows {
        match ambient_path {
            Some(p) => {
                out.append(";");
                out.append(p.as_str());
            },
            None => {},
        }
    } else {
        out.append(":/usr/bin:/bin");
    }
    out
}

/// Node.js install root for a shim living in `{root}/bin/{name}` (nvm,
/// Homebrew node); `None` when the shim's directory is not named `bin`.
pub open spec fn install_root_of(shim: Seq<char>, windows: bool) -> Option<Seq<char>> {
    match path_parent(shim, windows) {
        None => None,
        Some(bin_dir) => match path_parent(bin_dir, windows) {
            None => None,
            Some(root) => match path_file_name(bin_dir, windows) {
                Some(name) => if name == "bin"@ { Some(root) } else { None },
                None => None,
            },
        },
    }
}

/// Node.js install root for a shim in `{root}/bin/`.
pub fn node_install_root_from_shim(shim: &str, windows: bool) -> (r: Option<String>)
    ensures
        opt_string(r) == install_root_of(shim@, windows),
{
    let bin_dir = match parent(shim, windows) {
        Some(d) => d,
        None => return None,
    };
    let root = match parent(bin_dir.as_str(), windows) {
        Some(d) => d,
        None => return None,
    };
    let name = match file_name(bin_dir.as_str(), windows) {
        Some(n) => n,
        None => return None,
    };
    if str_eq(name.as_str(), "bin") {
        Some(root)
    } else {
        None
    }
}

/// `{root}/bin/npm` (`npm.cmd` on Windows).
pub open spec fn root_npm(root: Seq<char>, windows: bool) -> Seq<char> {
    path_join(path_join(root, "bin"@, windows), npm_shim(windows), windows)
}

/// The upgrade through a Node.js install's own npm: `npm install -g ...`
/// with PATH isolated to that install's `bin`.
pub open spec fn is_shim_plan(r: UpgradePlan, root: Seq<char>, windows: bool, ambient: Option<Seq<char>>) -> bool {
    &&& r.cmd@ == root_npm(root, windows)
    &&& strings(r.args@) == npm_global_args()
    &&& r.cwd is None
    &&& opt_string(r.path) == Some(isolated_path(path_join(root, "bin"@, windows), windows, ambient))
}

/// Upgrade dsh for a global shim `{root}/bin/dsh` through that tree's npm
/// (`-g`, isolated PATH); `None` when the shim is not in a `bin` directory
/// or no npm launcher sits beside it (`is_file` tells which paths are
/// files).
pub fn npm_upgrade_plan_for_shim(
    shim: &str,
    windows: bool,
    ambient_path: &Option<String>,
    is_file: impl Fn(&str) -> bool,
) -> (r: Option<UpgradePlan>)
    requires
        forall|s: &str| is_file.requires((s,)),
    ensures
        match install_root_of(shim@, windows) {
            None => r is None,
            Some(root) => exists|npm: &str|
                #![trigger is_file.ensures((npm,), true)]
                #![trigger is_file.ensures((npm,), false)]
                npm@ == root_npm(root, windows) && match r {
                    Some(plan) => is_file.ensures((npm,), true)
                        && is_shim_plan(plan, root, windows, opt_string(*ambient_path)),
                    None => is_file.ensures((npm,), false),
                },
        },
{
    proof {
        reveal_strlit("bin");
        reveal_strlit("npm");
        reveal_strlit("npm.cmd");
    }
    let root = match node_install_root_from_shim(shim, windows) {
        Some(r) => r,
        None => return None,
    };
    let bin = join(root.as_str(), "bin", windows);
    let npm = join(bin.as_str(), npm_shim_name(windows), windows);
    let npm_str: &str = npm.as_str();
    let found = is_file(npm_str);
    assert(is_file.ensures((npm_str,), found));
    if !found {
        return None;
    }
    let path = upgrade_path_for_node_bin(bin.as_str(), windows, ambient_path);
    Some(UpgradePlan { cmd: npm, args: npm_global_install_args(), cwd: None, path: Some(path) })
}

/// The fallback upgrade: `npm install -g ...` with `npm` resolved by name.
pub open spec fn is_global_plan<F: Fn(&str) -> String>(r: UpgradePlan, resolve: F) -> bool {
    &&& resolve.ensures(("npm",), r.cmd)
    &&& strings(r.args@) == npm_global_args()
    &&& r.cwd is None
    &&& r.path is None
}

/// Fallback when no Node.js prefix can be derived: `npm install -g`.
pub fn global_npm_upgrade(resolve: impl Fn(&str) -> String) -> (r: UpgradePlan)
    requires
        forall|s: &str| resolve.requires((s,)),
    ensures
        is_global_plan(r, resolve),
{
    let cmd = resolve("npm");
    UpgradePlan { cmd, args: npm_global_install_args(), cwd: None, path: None }
}

/// What the host reports and the upgrade decision depends on.
pub struct Host {
    /// Whether the host runs Windows.
    pub windows: bool,
    /// The private toolchain directory (`~/.dsh/toolchain`).
    pub toolchain: String,
    /// The complete private toolchain found there, if any: its `node` and
    /// its dsh shim.
    pub private_toolchain: Option<(String, String)>,
    /// The ambient PATH, if set.
    pub path_var: Option<String>,
}

/// Shell command a source checkout runs to upgrade itself.
pub const SOURCE_UPGRADE_SCRIPT: &'static str = "git pull --rebase --autostash && pnpm install && pnpm run build";

pub open spec fn private_install_extra() -> Seq<Seq<char>> {
    seq!["install"@, "--no-fund"@, "--no-audit"@, "@deepseek-ai/dsh@latest"@]
}

/// The upgrade for a global or bundled shim: through the npm beside it when
/// there is one, else the global fallback.
pub open spec fn shim_upgrade<F: Fn(&str) -> String, G: Fn(&str) -> bool>(
    r: UpgradePlan,
    shim: Seq<char>,
    resolve: F,
    is_file: G,
    host: Host,
) -> bool {
    match install_root_of(shim, host.windows) {
        None => is_global_plan(r, resolve),
        Some(root) => exists|npm: &str|
            #![trigger is_file.ensures((npm,), true)]
            #![trigger is_file.ensures((npm,), false)]
            npm@ == root_npm(root, host.windows) && ((is_file.ensures((npm,), true)
                && is_shim_plan(r, root, host.windows, opt_string(host.path_var))) || (is_file.ensures((npm,), false)
                && is_global_plan(r, resolve))),
    }
}

/// The upgrade for private mode: the private toolchain's node running its
/// npm script with `install --no-fund --no-audit @deepseek-ai/dsh@latest
/// --prefix {toolchain}` and PATH isolated to the directory of the mode's
/// `node`, when the toolchain is complete and the npm script exists; else the
/// global fallback.
pub open spec fn private_upgrade<F: Fn(&str) -> String, G: Fn(&str) -> bool>(
    r: UpgradePlan,
    node: Seq<char>,
    resolve: F,
    path_exists: G,
    host: Host,
) -> bool {
    match host.private_toolchain {
        None => is_global_plan(r, resolve),
        Some((pnode, _dsh)) => exists|cli: &str|
            #![trigger path_exists.ensures((cli,), true)]
            #![trigger path_exists.ensures((cli,), false)]
            cli@ == private_npm_cli(pnode@, host.windows) && ((path_exists.ensures((cli,), true)
                && r.cmd@ == pnode@
                && strings(r.args@) == private_npm_args(cli@, private_install_extra(), host.toolchain@)
                && r.cwd is None
                && opt_string(r.path) == match path_parent(node, host.windows) {
                    Some(dir) => Some(isolated_path(dir, host.windows, opt_string(host.path_var))),
                    None => None,
                }) || (path_exists.ensures((cli,), false) && is_global_plan(r, resolve))),
    }
}

/// Upgrade command aligned with the launch mode, so the install target is
/// the dsh that is run: a source checkout pulls and rebuilds itself; private
/// mode reinstalls into the private prefix; a global or bundled shim uses
/// the npm beside it; otherwise `npm install -g`.
pub fn upgrade_runner(
    mode: &DshMode,
    resolve: impl Fn(&str) -> String,
    is_file: impl Fn(&str) -> bool,
    path_exists: impl Fn(&str) -> bool,
    host: &Host,
) -> (r: UpgradePlan)
    requires
        forall|s: &str| resolve.requires((s,)),
        forall|s: &str| is_file.requires((s,)),
        forall|s: &str| path_exists.requires((s,)),
    ensures
        match *mode {
            DshMode::Source(root) => resolve.ensures(("sh",), r.cmd)
                && strings(r.args@) == seq!["-c"@, SOURCE_UPGRADE_SCRIPT@]
                && opt_string(r.cwd) == Some(root@)
                && r.path is None,
            DshMode::Private { node, dsh: _ } => private_upgrade(r, node@, resolve, path_exists, *host),
            DshMode::Global(dsh) => shim_upgrade(r, dsh@, resolve, is_file, *host),
            DshMode::Bundled(bin) => shim_upgrade(r, bin@, resolve, is_file, *host),
            DshMode::Npx => is_global_plan(r, resolve),
        },
{
    match mode {
        DshMode::Source(root) => {
            let cmd = resolve("sh");
            let mut args: Vec<String> = Vec::new();
            push_strs(&mut args, &["-c", SOURCE_UPGRADE_SCRIPT]);
            assert(strings(Seq::<String>::empty()) == Seq::<Seq<char>>::empty());
            assert(str_views(seq!["-c", SOURCE_UPGRADE_SCRIPT]) == seq!["-c"@, SOURCE_UPGRADE_SCRIPT@]);
            UpgradePlan { cmd, args, cwd: Some(clone_str(root)), path: None }
        },
        DshMode::Private { node, dsh: _ } => {
            let extra: [&str; 4] = ["install", "--no-fund", "--no-audit", DSH_LATEST];
            match private_npm_cmd(&host.private_toolchain, host.toolchain.as_str(), &extra, path_exists, host.windows) {
                Some((cmd, args)) => {
                    assert(str_views(extra@) == private_install_extra());
                    let path = match parent(node.as_str(), host.windows) {
                        Some(dir) => Some(upgrade_path_for_node_bin(dir.as_str(), host.windows, &host.path_var)),
                        None => None,
                    };
                    UpgradePlan { cmd, args, cwd: None, path }
                },
                None => global_npm_upgrade(resolve),
            }
        },
        DshMode::Global(dsh) => match npm_upgrade_plan_for_shim(dsh.as_str(), host.windows, &host.path_var, is_file) {
            Some(plan) => plan,
            None => global_npm_upgrade(resolve),
        },
        DshMode::Bundled(bin) => match npm_upgrade_plan_for_shim(bin.as_str(), host.windows, &host.path_var, is_file) {
            Some(plan) => plan,
            None => global_npm_upgrade(resolve),
        },
        DshMode::Npx => global_npm_upgrade(resolve),
    }
}

/// `dir`, then its parents in turn, at most `n` directories in all.
pub open spec fn ancestor_chain(dir: Seq<char>, n: nat, windows: bool) -> Seq<Seq<char>>
    decreases n,
{
    if n == 0 {
        Seq::empty()
    } else {
        seq![dir] + match path_parent(dir, windows) {
            Some(p) => ancestor_chain(p, (n - 1) as nat, windows),
            None => Seq::empty(),
        }
    }
}

/// Marker file of a pnpm workspace (the dsh source checkout).
pub open spec fn workspace_marker() -> Seq<char> {
    "pnpm-workspace.yaml"@
}

/// The first of `dirs` holding the workspace marker according to
/// `path_exists`, all before it having been found without one; `None` when
/// none has it.
pub open spec fn first_with_marker<F: Fn(&str) -> bool>(path_exists: F, dirs: Seq<Seq<char>>, r: Option<Seq<char>>, windows: bool) -> bool {
    match r {
        Some(d) => exists|k: int|
            0 <= k < dirs.len() && dirs[k] == d
                && crate::discovery::probed(path_exists, path_join(dirs[k], workspace_marker(), windows), true)
                && forall|j: int| 0 <= j < k ==> crate::discovery::probed(path_exists, path_join(#[trigger] dirs[j], workspace_marker(), windows), false),
        None => forall|j: int| 0 <= j < dirs.len() ==> crate::discovery::probed(path_exists, path_join(#[trigger] dirs[j], workspace_marker(), windows), false),
    }
}

/// The repository root (a directory holding `pnpm-workspace.yaml`) among
/// the working directory and its first four ancestors, or `None` when the
/// app does not run inside a checkout.
pub fn find_repo_root(cwd: &str, windows: bool, path_exists: impl Fn(&str) -> bool) -> (r: Option<String>)
    requires
        forall|s: &str| path_exists.requires((s,)),
    ensures
        first_with_marker(path_exists, ancestor_chain(cwd@, 5, windows), opt_string(r), windows),
{
    proof {
        reveal_strlit("pnpm-workspace.yaml");
    }
    let mut dir = String::from_str(cwd);
    let mut i: usize = 0;
    let ghost chain = ancestor_chain(cwd@, 5, windows);
    while i < 5
        invariant
            i <= 5,
            chain == ancestor_chain(cwd@, 5, windows),
            chain.len() >= i,
            ancestor_chain(dir@, (5 - i) as nat, windows) == chain.skip(i as int),
            forall|j: int| 0 <= j < i ==> crate::discovery::probed(path_exists, path_join(#[trigger] chain[j], workspace_marker(), windows), false),
            forall|s: &str| path_exists.requires((s,)),
            workspace_marker() == "pnpm-workspace.yaml"@,
        decreases 5 - i,
    {
        proof {
            reveal_strlit("pnpm-workspace.yaml");
        }
        assert(ancestor_chain(dir@, (5 - i) as nat, windows).len() >= 1);
        assert(chain.skip(i as int)[0] == dir@);
        let marker = join(dir.as_str(), "pnpm-workspace.yaml", windows);
        let ms: &str = marker.as_str();
        let found = path_exists(ms);
        assert(path_exists.ensures((ms,), found));
        assert(chain[i as int] == dir@);
        if found {
            assert(crate::discovery::probed(path_exists, path_join(chain[i as int], workspace_marker(), windows), true));
            return Some(dir);
        }
        assert(crate::discovery::probed(path_exists, path_join(chain[i as int], workspace_marker(), windows), false));
        match parent(dir.as_str(), windows) {
            Some(p) => {
                assert(chain.skip(i as int).skip(1) == chain.skip(i + 1));
                dir = p;
            },
            None => {
                assert(chain.skip(i as int).len() == 1);
                assert(chain.len() == i + 1);
                return None;
            },
        }
        i = i + 1;
    }
    assert(chain.skip(5).len() == 0 || ancestor_chain(dir@, 0, windows).len() == 0);
    None
}

/// The bundled dsh of a packaged app:
/// `{directory of the executable}/../Resources/app/node_modules/.bin/dsh`.
pub fn bundled_dsh_path(exe: &str, windows: bool) -> (r: Option<String>)
    ensures
        opt_string(r) == match path_parent(exe@, windows) {
            Some(dir) => Some(path_join(dir, "../Resources/app/node_modules/.bin/dsh"@, windows)),
            None => None,
        },
{
    proof {
        reveal_strlit("../Resources/app/node_modules/.bin/dsh");
    }
    match parent(exe, windows) {
        Some(dir) => Some(join(dir.as_str(), "../Resources/app/node_modules/.bin/dsh", windows)),
        None => None,
    }
}

/// The launch mode in priority order: a source checkout, then the bundled
/// copy, then a global install, then a complete private toolchain, else npx.
/// Each argument is what looking for that kind of install found.
pub fn detect_dsh_mode(
    repo_root: Option<String>,
    bundled_bin: Option<String>,
    global_dsh: Option<String>,
    private_toolchain: Option<(String, String)>,
) -> (r: DshMode)
    ensures
        r == match (repo_root, bundled_bin, global_dsh, private_toolchain) {
            (Some(root), _, _, _) => DshMode::Source(root),
            (None, Some(bin), _, _) => DshMode::Bundled(bin),
            (None, None, Some(dsh), _) => DshMode::Global(dsh),
            (None, None, None, Some((node, dsh))) => DshMode::Private { node, dsh },
            (None, None, None, None) => DshMode::Npx,
        },
{
    if let Some(root) = repo_root {
        return DshMode::Source(root);
    }
    if let Some(bin) = bundled_bin {
        return DshMode::Bundled(bin);
    }
    if let Some(dsh) = global_dsh {
        return DshMode::Global(dsh);
    }
    if let Some((node, dsh)) = private_toolchain {
        return DshMode::Private { node, dsh };
    }
    DshMode::Npx
}

/// A shim installed in `{root}/bin` leads back to `root`: for a root that
/// ends in a component (or is empty) and a shim name that is a single
/// component, the install root of `{root}/bin/{name}` is `root`.
pub proof fn law_install_root_of_bin_shim(root: Seq<char>, name: Seq<char>, windows: bool)
    requires
        is_join_base(root, windows),
        is_trimmed(root, windows),
        is_plain_component(name, windows),
    ensures
        install_root_of(path_join(path_join(root, "bin"@, windows), name, windows), windows) == Some(root),
{
    reveal_strlit("bin");
    let bin = "bin"@;
    assert forall|i: int| 0 <= i < bin.len() implies !is_sep(#[trigger] bin[i], windows) by {}
    assert(bin != seq!['.'] && bin != seq!['.', '.']) by {
        assert(bin.len() == 3);
    }
    lemma_parent_of_join(root, bin, windows);
    let b = path_join(root, bin, windows);
    lemma_parent_of_join(b, name, windows);
}

} // verus!
