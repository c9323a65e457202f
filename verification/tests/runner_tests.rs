use dsh_desktop::bootstrap::private_node_and_dsh;
use dsh_desktop::discovery::program_candidates;
use dsh_desktop::runner::{
    dsh_runner, node_install_root_from_shim, npm_shim_name, npm_upgrade_plan_for_shim, private_npm_cmd,
    upgrade_runner, DshMode, Host,
};
use dsh_desktop::version::sort_nvm_versions;

fn identity(name: &str) -> String {
    name.to_string()
}

fn unix_host() -> Host {
    Host { windows: false, toolchain: "/x/toolchain".to_string(), private_toolchain: None, path_var: None }
}

#[test]
fn nvm_versions_sort_newest_first_by_semver() {
    let entries = vec![
        ("v22.9.0".to_string(), "a".to_string()),
        ("v22.10.0".to_string(), "b".to_string()),
        ("v20.3.1".to_string(), "c".to_string()),
    ];
    assert_eq!(
        sort_nvm_versions(entries, false),
        vec!["b/bin".to_string(), "a/bin".to_string(), "c/bin".to_string()]
    );
}

#[test]
fn nvm_entries_that_are_not_versions_are_dropped() {
    let entries = vec![
        ("default".to_string(), "a".to_string()),
        ("v22.9.0".to_string(), "b".to_string()),
        (".lts".to_string(), "c".to_string()),
    ];
    assert_eq!(sort_nvm_versions(entries, false), vec!["b/bin".to_string()]);
}

#[test]
fn unix_program_candidates_are_just_the_name() {
    assert_eq!(program_candidates("node", false), vec!["node".to_string()]);
}

#[test]
fn windows_program_candidates_include_shims() {
    assert_eq!(
        program_candidates("npm", true),
        vec!["npm.exe".to_string(), "npm.cmd".to_string(), "npm".to_string()]
    );
}

#[test]
fn source_mode_runs_pnpm_dsh_in_repo_root() {
    let root = "/repo".to_string();
    let (cmd, args, cwd) = dsh_runner(&DshMode::Source(root.clone()), identity, false);
    assert_eq!(cmd, "pnpm");
    assert_eq!(args, vec!["dsh".to_string()]);
    assert_eq!(cwd, Some(root));
}

#[test]
fn bundled_mode_runs_node_on_bundled_bin() {
    let bin = "/app/Resources/app/node_modules/.bin/dsh".to_string();
    let (cmd, args, cwd) = dsh_runner(&DshMode::Bundled(bin.clone()), identity, false);
    assert_eq!(cmd, "node");
    assert_eq!(args, vec![bin]);
    assert_eq!(cwd, None);
}

#[test]
fn global_mode_runs_resolved_dsh_directly() {
    let dsh = "/opt/homebrew/bin/dsh".to_string();
    let (cmd, args, cwd) = dsh_runner(&DshMode::Global(dsh.clone()), identity, false);
    assert_eq!(cmd, dsh);
    assert!(args.is_empty());
    assert_eq!(cwd, None);
}

#[test]
fn private_mode_runs_node_on_private_dsh_shim() {
    let mode = DshMode::Private {
        node: "/x/toolchain/node-24.19.0/bin/node".to_string(),
        dsh: "/x/toolchain/node_modules/.bin/dsh".to_string(),
    };
    // Windows: the npm `.cmd` shim is invoked directly (cmd.exe wraps it).
    let (cmd, args, cwd) = dsh_runner(&mode, identity, true);
    assert_eq!(cmd, "/x/toolchain/node_modules/.bin/dsh");
    assert!(args.is_empty());
    assert_eq!(cwd, None);
    let (cmd, args, cwd) = dsh_runner(&mode, identity, false);
    assert_eq!(cmd, "/x/toolchain/node-24.19.0/bin/node");
    assert_eq!(args, vec!["/x/toolchain/node_modules/.bin/dsh".to_string()]);
    assert_eq!(cwd, None);
}

#[test]
fn npx_mode_falls_back_to_registry() {
    let (cmd, args, cwd) = dsh_runner(&DshMode::Npx, identity, false);
    assert_eq!(cmd, "npx");
    assert_eq!(args, vec!["--yes".to_string(), "@deepseek-ai/dsh".to_string()]);
    assert_eq!(cwd, None);
}

#[test]
fn node_install_root_from_bin_shim() {
    let dsh = "/nvm/versions/node/v22.23.1/bin/dsh";
    assert_eq!(node_install_root_from_shim(dsh, false).unwrap(), "/nvm/versions/node/v22.23.1");
}

#[test]
fn global_upgrade_targets_detected_node_with_isolated_path() {
    let prefix = "/tmp/dsh-upg-global/node-v22.23.1";
    let npm = format!("{}/bin/{}", prefix, npm_shim_name(false));
    let dsh = format!("{}/bin/dsh", prefix);
    let is_file = |p: &str| p == npm || p == dsh;
    let plan = npm_upgrade_plan_for_shim(&dsh, false, &None, is_file).expect("npm beside dsh");
    assert_eq!(plan.cmd, npm);
    assert_eq!(
        plan.args,
        vec![
            "install".to_string(),
            "-g".to_string(),
            "--no-fund".to_string(),
            "--no-audit".to_string(),
            "@deepseek-ai/dsh@latest".to_string(),
        ]
    );
    assert!(plan.path.as_ref().unwrap().starts_with(&format!("{}/bin", prefix)));
}

#[test]
fn global_upgrade_falls_back_without_local_npm() {
    let dsh = "/opt/homebrew/bin/dsh".to_string();
    let plan = upgrade_runner(&DshMode::Global(dsh), identity, |_: &str| false, |_: &str| false, &unix_host());
    assert_eq!(plan.cmd, "npm");
    assert_eq!(plan.args[0], "install");
    assert!(plan.args.contains(&"-g".to_string()));
    assert_eq!(plan.cwd, None);
}

#[test]
fn source_upgrade_runs_git_pull_in_repo_root() {
    let root = "/repo".to_string();
    let plan = upgrade_runner(&DshMode::Source(root.clone()), identity, |_: &str| false, |_: &str| false, &unix_host());
    assert_eq!(plan.cmd, "sh");
    assert!(plan.args[1].contains("git pull"));
    assert_eq!(plan.cwd, Some(root));
}

#[test]
fn private_npm_cmd_builds_node_npmcli_args() {
    let tc = "/tmp/dsh-npmcmd/toolchain";
    let node = format!("{}/node-24.19.0/bin/node", tc);
    let dsh = format!("{}/node_modules/.bin/dsh", tc);
    let cli = format!("{}/node-24.19.0/lib/node_modules/npm/bin/npm-cli.js", tc);
    let exists = |p: &str| p == node || p == dsh || p == cli;
    let entries = vec![
        ("node-24.19.0".to_string(), format!("{}/node-24.19.0", tc)),
        ("node_modules".to_string(), format!("{}/node_modules", tc)),
    ];
    let private = private_node_and_dsh(tc, entries, false, exists, exists);
    let (cmd, args) = private_npm_cmd(&private, tc, &["view", "@deepseek-ai/dsh", "version"], exists, false)
        .expect("complete private toolchain");
    assert_eq!(cmd, node);
    assert_eq!(
        args,
        vec![
            cli.clone(),
            "view".to_string(),
            "@deepseek-ai/dsh".to_string(),
            "version".to_string(),
            "--prefix".to_string(),
            tc.to_string(),
        ]
    );
}

#[test]
fn private_npm_cmd_none_without_toolchain() {
    let root = "/tmp/dsh-npmcmd-empty";
    let private = private_node_and_dsh(root, Vec::new(), false, |_: &str| false, |_: &str| false);
    assert!(private_npm_cmd(&private, root, &["view"], |_: &str| false, false).is_none());
}
