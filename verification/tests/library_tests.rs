use dsh_desktop::base64::base64_encode;
use dsh_desktop::bootstrap::{
    dsh_shim_name, npm_install_args, node_bin, node_dir, npm_cli_from_node, npm_cli_js, private_node_and_dsh, private_node_bin_dirs,
    toolchain_dir, Step,
};
use dsh_desktop::discovery::{augmented_path, find_program, toolchain_dirs};
use dsh_desktop::i18n::I18n;
use dsh_desktop::logs::log_line_text;
use dsh_desktop::output::{clean_output, lines, ready_url_from_line, ready_url_result, text_tail, version_from_output, DSH_NO_URL_MSG};
use dsh_desktop::version::sort_nvm_versions;
use dsh_desktop::pages::{progress_call_script, progress_update_script, slow_notice_due, BOOTSTRAP_HTML};
use dsh_desktop::paths::{file_name, join, join_any, parent};
use dsh_desktop::prompt::{auto_prompt, PromptState};
use dsh_desktop::runner::{
    bundled_dsh_path, detect_dsh_mode, dsh_version_command, dsh_web_command, find_repo_root, latest_version_command,
    node_install_root_from_shim, npm_upgrade_plan_for_shim, upgrade_path_for_node_bin, upgrade_runner, DshMode, Host,
};
use dsh_desktop::timestamp::{export_filename, format_timestamp, timestamp_compact};
use dsh_desktop::titlebar::{icon_data_url, replace_all, titlebar_label_members};
use dsh_desktop::ui::{
    bootstrap_retry_decision, menu_command, native_menu, needs_bootstrap, toggle_decision, window_event_action,
    AppUpdateCheck, DialogKind, Label, MenuCommand, MenuEntry, WindowAction, WindowEvent,
};
use dsh_desktop::version::{version_order, ParsedVersion, UpdateInfo};

fn identity(name: &str) -> String {
    name.to_string()
}

// ---- paths and the private toolchain ----

#[test]
fn paths_join_parent_and_file_name() {
    assert_eq!(join("/a", "b", false), "/a/b");
    assert_eq!(join("/a/", "b", false), "/a/b");
    assert_eq!(join("", "b", false), "b");
    assert_eq!(join("C:", "b", true), "C:b");
    assert_eq!(join("C:\\x", "b", true), "C:\\x\\b");
    assert_eq!(parent("/a/b", false), Some("/a".to_string()));
    assert_eq!(parent("/a/b/", false), Some("/a".to_string()));
    assert_eq!(parent("/a", false), Some("/".to_string()));
    assert_eq!(parent("/", false), None);
    assert_eq!(parent("a", false), Some(String::new()));
    assert_eq!(parent("", false), None);
    assert_eq!(file_name("/a/b", false), Some("b".to_string()));
    assert_eq!(file_name("/a/..", false), None);
    assert_eq!(file_name("C:\\x\\node.exe", true), Some("node.exe".to_string()));
}

#[test]
fn paths_follow_std_components() {
    // `.` components and trailing separators are skipped; a leading `.` counts.
    assert_eq!(parent("/a/b/.", false), Some("/a".to_string()));
    assert_eq!(parent("a/./b", false), Some("a".to_string()));
    assert_eq!(parent("a//b", false), Some("a".to_string()));
    assert_eq!(parent("./a", false), Some(".".to_string()));
    assert_eq!(parent(".", false), Some(String::new()));
    assert_eq!(parent("..", false), Some(String::new()));
    assert_eq!(file_name("a/.", false), Some("a".to_string()));
    assert_eq!(file_name(".", false), None);
    // Windows drive prefixes and roots.
    assert_eq!(parent("C:\\", true), None);
    assert_eq!(parent("C:", true), None);
    assert_eq!(parent("C:\\a", true), Some("C:\\".to_string()));
    assert_eq!(parent("C:a", true), Some("C:".to_string()));
    assert_eq!(file_name("C:a", true), Some("a".to_string()));
    assert_eq!(file_name("C:\\", true), None);
    // `\\server\share` prefixes.
    assert_eq!(parent("\\\\srv\\sh\\a", true), Some("\\\\srv\\sh\\".to_string()));
    assert_eq!(parent("\\\\srv\\sh", true), None);
    assert_eq!(file_name("\\\\srv\\sh\\a.txt", true), Some("a.txt".to_string()));
    // A colon is no drive off Windows, nor after a non-letter.
    assert_eq!(parent("C:a/b", false), Some("C:a".to_string()));
    assert_eq!(join("1:", "x", true), "1:\\x");
}

#[test]
fn join_any_follows_path_push() {
    assert_eq!(join_any("/a", "/b", false), "/b");
    assert_eq!(join_any("/a", "b", false), "/a/b");
    assert_eq!(join_any("C:\\x", "\\y", true), "C:\\y");
    assert_eq!(join_any("x", "\\y", true), "\\y");
    assert_eq!(join_any("C:\\x", "D:y", true), "D:y");
    assert_eq!(join_any("C:\\x", "\\\\srv\\sh", true), "\\\\srv\\sh");
    assert_eq!(join_any("C:", "y", true), "C:y");
}

#[test]
fn toolchain_layout_unix_and_windows() {
    assert_eq!(toolchain_dir("/home/u", false), "/home/u/.dsh/toolchain");
    assert_eq!(toolchain_dir("C:\\Users\\u", true), "C:\\Users\\u\\.dsh\\toolchain");
    assert_eq!(node_dir("/t", "24.19.0", false), "/t/node-24.19.0");
    assert_eq!(node_bin("C:\\t", "24.19.0", true), "C:\\t\\node-24.19.0\\bin\\node.exe");
    assert_eq!(npm_cli_js("/t", "24.19.0", false), "/t/node-24.19.0/lib/node_modules/npm/bin/npm-cli.js");
}

#[test]
fn npm_cli_from_node_bin_is_the_bundled_script() {
    for windows in [false, true] {
        let tc = if windows { "C:\\Users\\u\\.dsh\\toolchain" } else { "/home/u/.dsh/toolchain" };
        let node = node_bin(tc, "22.9.0", windows);
        assert_eq!(npm_cli_from_node(&node, windows), npm_cli_js(tc, "22.9.0", windows));
    }
}

#[test]
fn npm_install_args_target_private_prefix() {
    assert_eq!(
        npm_install_args("/home/u/.dsh/toolchain"),
        vec!["install", "--prefix", "/home/u/.dsh/toolchain", "--no-fund", "--no-audit", "@deepseek-ai/dsh"]
    );
}

#[test]
fn dsh_shim_names() {
    assert_eq!(dsh_shim_name(false), "dsh");
    assert_eq!(dsh_shim_name(true), "dsh.cmd");
}

#[test]
fn equal_versions_keep_their_order() {
    let entries = vec![
        ("v1.0.0".to_string(), "a".to_string()),
        ("v2.0.0".to_string(), "b".to_string()),
        ("v1.0.0".to_string(), "c".to_string()),
        ("v1.0.0".to_string(), "d".to_string()),
    ];
    assert_eq!(
        sort_nvm_versions(entries, false),
        vec!["b/bin".to_string(), "a/bin".to_string(), "c/bin".to_string(), "d/bin".to_string()]
    );
}

#[test]
fn private_node_bin_dirs_newest_first() {
    let entries = vec![
        ("node-22.9.0".to_string(), "/t/node-22.9.0".to_string()),
        ("node_modules".to_string(), "/t/node_modules".to_string()),
        ("node-24.19.0".to_string(), "/t/node-24.19.0".to_string()),
        ("node-x".to_string(), "/t/node-x".to_string()),
    ];
    assert_eq!(
        private_node_bin_dirs(entries, false),
        vec!["/t/node-24.19.0/bin".to_string(), "/t/node-22.9.0/bin".to_string()]
    );
}

#[test]
fn private_node_and_dsh_picks_newest_and_needs_both_parts() {
    let entries = vec![
        ("node-22.9.0".to_string(), "/t/node-22.9.0".to_string()),
        ("node-24.19.0".to_string(), "/t/node-24.19.0".to_string()),
        ("node_modules".to_string(), "/t/node_modules".to_string()),
    ];
    let files = ["/t/node-22.9.0/bin/node", "/t/node-24.19.0/bin/node", "/t/node_modules/.bin/dsh"];
    let present = |p: &str| files.contains(&p);
    let found = private_node_and_dsh("/t", entries.clone(), false, present, present);
    assert_eq!(
        found,
        Some(("/t/node-24.19.0/bin/node".to_string(), "/t/node_modules/.bin/dsh".to_string()))
    );
    let only_node = |p: &str| p == "/t/node-24.19.0/bin/node";
    assert_eq!(private_node_and_dsh("/t", entries.clone(), false, only_node, only_node), None);
    let only_dsh = |p: &str| p == "/t/node_modules/.bin/dsh";
    assert_eq!(private_node_and_dsh("/t", entries, false, only_dsh, only_dsh), None);
}

// ---- versions ----

#[test]
fn semver_parse_and_order() {
    let a = ParsedVersion::parse("1.2.3").unwrap();
    assert_eq!((a.major(), a.minor(), a.patch()), (1, 2, 3));
    assert!(a.pre_is_empty());
    let pre = ParsedVersion::parse("1.2.3-beta.1").unwrap();
    assert!(!pre.pre_is_empty());
    assert_eq!(version_order(&pre, &a), -1);
    assert_eq!(version_order(&a, &pre), 1);
    let b = ParsedVersion::parse("1.10.0").unwrap();
    assert_eq!(version_order(&a, &b), -1);
    assert_eq!(version_order(&a, &ParsedVersion::parse("1.2.3").unwrap()), 0);
    assert!(ParsedVersion::parse("v1.2.3").is_none());
    assert!(ParsedVersion::parse("").is_none());
    assert!(!dsh_desktop::bootstrap::parse_node_version_ok("  \n"));
    assert!(ParsedVersion::parse("1.2").is_none());
}

#[test]
fn update_info_compares_semver() {
    let u = UpdateInfo::from_versions("0.9.0".to_string(), "0.10.0".to_string());
    assert!(u.update_available);
    assert_eq!(u.current, "0.9.0");
    assert_eq!(u.latest, "0.10.0");
    assert!(!UpdateInfo::from_versions("1.0.0".to_string(), "1.0.0".to_string()).update_available);
    assert!(!UpdateInfo::from_versions("1.0.1".to_string(), "1.0.0".to_string()).update_available);
    assert!(!UpdateInfo::from_versions("unknown".to_string(), "1.0.0".to_string()).update_available);
    assert!(UpdateInfo::from_versions("1.0.0-rc.1".to_string(), "1.0.0".to_string()).update_available);
}

// ---- launching and upgrading dsh ----

#[test]
fn web_and_version_commands_extend_the_runner() {
    let (cmd, args, cwd) = dsh_web_command(&DshMode::Npx, identity, false);
    assert_eq!(cmd, "npx");
    assert_eq!(args, vec!["--yes", "@deepseek-ai/dsh", "web", "--port", "0", "--no-open"]);
    assert_eq!(cwd, None);
    let (cmd, args, cwd) = dsh_version_command(&DshMode::Source("/repo".to_string()), identity, false);
    assert_eq!(cmd, "pnpm");
    assert_eq!(args, vec!["dsh", "-V"]);
    assert_eq!(cwd, Some("/repo".to_string()));
}

#[test]
fn detect_mode_priority() {
    let s = |x: &str| Some(x.to_string());
    let pair = Some(("/n".to_string(), "/d".to_string()));
    assert!(matches!(detect_dsh_mode(s("/r"), s("/b"), s("/g"), pair.clone()), DshMode::Source(r) if r == "/r"));
    assert!(matches!(detect_dsh_mode(None, s("/b"), s("/g"), pair.clone()), DshMode::Bundled(b) if b == "/b"));
    assert!(matches!(detect_dsh_mode(None, None, s("/g"), pair.clone()), DshMode::Global(g) if g == "/g"));
    assert!(matches!(detect_dsh_mode(None, None, None, pair), DshMode::Private { node, dsh } if node == "/n" && dsh == "/d"));
    assert!(matches!(detect_dsh_mode(None, None, None, None), DshMode::Npx));
}

#[test]
fn repo_root_search_walks_up_five_levels() {
    let marker_at = |dir: &'static str| move |p: &str| p == format!("{}/pnpm-workspace.yaml", dir);
    assert_eq!(find_repo_root("/w/a/b", false, marker_at("/w")), Some("/w".to_string()));
    assert_eq!(find_repo_root("/w/a/b/c/d", false, marker_at("/w")), Some("/w".to_string()));
    assert_eq!(find_repo_root("/w/a/b/c/d/e", false, marker_at("/w")), None);
    assert_eq!(find_repo_root("/w", false, |_: &str| false), None);
}

#[test]
fn bundled_path_sits_in_app_resources() {
    assert_eq!(
        bundled_dsh_path("/Applications/X.app/Contents/MacOS/x", false),
        Some("/Applications/X.app/Contents/MacOS/../Resources/app/node_modules/.bin/dsh".to_string())
    );
    assert_eq!(bundled_dsh_path("", false), None);
}

#[test]
fn install_root_needs_a_bin_directory() {
    assert_eq!(node_install_root_from_shim("/usr/local/bin/npm", false), Some("/usr/local".to_string()));
    assert_eq!(node_install_root_from_shim("/opt/tools/dsh", false), None);
    assert_eq!(node_install_root_from_shim("dsh", false), None);
    assert_eq!(node_install_root_from_shim("C:\\nvm\\v22\\bin\\dsh.cmd", true), Some("C:\\nvm\\v22".to_string()));
}

#[test]
fn upgrade_path_isolation_per_platform() {
    assert_eq!(upgrade_path_for_node_bin("/n/bin", false, &Some("/x".to_string())), "/n/bin:/usr/bin:/bin");
    assert_eq!(upgrade_path_for_node_bin("C:\\n", true, &Some("C:\\w".to_string())), "C:\\n;C:\\w");
    assert_eq!(upgrade_path_for_node_bin("C:\\n", true, &None), "C:\\n");
}

#[test]
fn shim_plan_is_none_without_npm() {
    assert!(npm_upgrade_plan_for_shim("/opt/homebrew/bin/dsh", false, &None, |_: &str| false).is_none());
    assert!(npm_upgrade_plan_for_shim("/opt/dsh", false, &None, |_: &str| true).is_none());
}

#[test]
fn private_upgrade_reinstalls_into_the_toolchain() {
    let node = "/t/node-24.19.0/bin/node".to_string();
    let host = Host {
        windows: false,
        toolchain: "/t".to_string(),
        private_toolchain: Some((node.clone(), "/t/node_modules/.bin/dsh".to_string())),
        path_var: None,
    };
    let mode = DshMode::Private { node: node.clone(), dsh: "/t/node_modules/.bin/dsh".to_string() };
    let plan = upgrade_runner(&mode, identity, |_: &str| false, |_: &str| true, &host);
    assert_eq!(plan.cmd, node);
    assert_eq!(
        plan.args,
        vec![
            "/t/node-24.19.0/lib/node_modules/npm/bin/npm-cli.js",
            "install",
            "--no-fund",
            "--no-audit",
            "@deepseek-ai/dsh@latest",
            "--prefix",
            "/t"
        ]
    );
    assert_eq!(plan.path, Some("/t/node-24.19.0/bin:/usr/bin:/bin".to_string()));
    let fallback = upgrade_runner(&mode, identity, |_: &str| false, |_: &str| false, &host);
    assert_eq!(fallback.cmd, "npm");
    assert_eq!(fallback.path, None);
}

#[test]
fn bundled_upgrade_uses_npm_beside_it() {
    let host = Host { windows: false, toolchain: "/t".to_string(), private_toolchain: None, path_var: None };
    let plan = upgrade_runner(
        &DshMode::Bundled("/app/node/bin/dsh".to_string()),
        identity,
        |p: &str| p == "/app/node/bin/npm",
        |_: &str| false,
        &host,
    );
    assert_eq!(plan.cmd, "/app/node/bin/npm");
    assert_eq!(plan.path, Some("/app/node/bin:/usr/bin:/bin".to_string()));
    let npx = upgrade_runner(&DshMode::Npx, identity, |_: &str| true, |_: &str| true, &host);
    assert_eq!(npx.cmd, "npm");
    assert_eq!(npx.args, vec!["install", "-g", "--no-fund", "--no-audit", "@deepseek-ai/dsh@latest"]);
}

#[test]
fn latest_version_query_prefers_private_npm() {
    let private = Some(("/t/node-24.19.0/bin/node".to_string(), "/t/node_modules/.bin/dsh".to_string()));
    let (cmd, args) = latest_version_command(&private, "/t", identity, |_: &str| true, false);
    assert_eq!(cmd, "/t/node-24.19.0/bin/node");
    assert_eq!(
        args,
        vec!["/t/node-24.19.0/lib/node_modules/npm/bin/npm-cli.js", "view", "@deepseek-ai/dsh", "version", "--prefix", "/t"]
    );
    let (cmd, args) = latest_version_command(&None, "/t", identity, |_: &str| true, false);
    assert_eq!(cmd, "npm");
    assert_eq!(args, vec!["view", "@deepseek-ai/dsh", "version"]);
}

// ---- program discovery ----

#[test]
fn find_program_searches_dirs_in_order() {
    let dirs = vec!["/a".to_string(), "/b".to_string(), "/c".to_string()];
    let is_file = |p: &str| p == "/b/node" || p == "/c/node";
    assert_eq!(find_program("node", &dirs, false, is_file), Some("/b/node".to_string()));
    let win_dirs = vec!["C:\\n".to_string()];
    let win_file = |p: &str| p == "C:\\n\\npm.cmd" || p == "C:\\n\\npm";
    assert_eq!(find_program("npm", &win_dirs, true, win_file), Some("C:\\n\\npm.cmd".to_string()));
    assert_eq!(find_program("dsh", &dirs, false, |_: &str| false), None);
    // An absolute name is probed as it is, like `Path::join` does.
    let abs = |p: &str| p == "/opt/node/bin/node";
    assert_eq!(find_program("/opt/node/bin/node", &dirs, false, abs), Some("/opt/node/bin/node".to_string()));
    let win_abs = |p: &str| p == "D:\\node\\node.exe";
    assert_eq!(find_program("D:\\node\\node", &win_dirs, true, win_abs), Some("D:\\node\\node.exe".to_string()));
}

#[test]
fn toolchain_dirs_per_os() {
    let nvm = vec!["/h/.nvm/versions/node/v22.9.0/bin".to_string()];
    assert_eq!(
        toolchain_dirs(nvm.clone(), "/h", "macos", ""),
        vec![
            "/h/.nvm/versions/node/v22.9.0/bin",
            "/usr/local/bin",
            "/opt/homebrew/bin",
            "/h/Library/pnpm",
            "/opt/local/bin",
            "/h/.local/bin"
        ]
    );
    assert_eq!(toolchain_dirs(Vec::new(), "/h", "linux", ""), vec!["/usr/local/bin", "/h/.local/bin"]);
    assert_eq!(
        toolchain_dirs(Vec::new(), "C:\\Users\\u", "windows", "C:\\Users\\u\\AppData\\Roaming"),
        vec!["/usr/local/bin", "C:\\Users\\u\\AppData\\Roaming\\npm", "C:\\Users\\u\\.local/bin"]
    );
}

#[test]
fn augmented_path_puts_private_node_first() {
    let private = vec!["/t/node-24.19.0/bin".to_string()];
    let dirs = vec!["/usr/local/bin".to_string()];
    assert_eq!(
        augmented_path(&private, &dirs, &Some("/usr/bin:/bin".to_string()), false),
        "/t/node-24.19.0/bin:/usr/local/bin:/usr/bin:/bin"
    );
    assert_eq!(augmented_path(&Vec::new(), &dirs, &None, true), "/usr/local/bin");
}

// ---- dsh output ----

#[test]
fn ready_url_is_first_word_after_prefix() {
    assert_eq!(ready_url_from_line("dsh web: http://127.0.0.1:5173 (ready)"), Some("http://127.0.0.1:5173".to_string()));
    assert_eq!(ready_url_from_line("dsh web:   http://h:1)) x"), Some("http://h:1".to_string()));
    assert_eq!(ready_url_from_line("dsh web: "), Some(String::new()));
    assert_eq!(ready_url_from_line("starting dsh web: http://x"), None);
    assert_eq!(ready_url_result(Some("http://x".to_string())), Ok("http://x".to_string()));
    assert_eq!(ready_url_result(Some(String::new())), Err(DSH_NO_URL_MSG.to_string()));
    assert_eq!(ready_url_result(None), Err(DSH_NO_URL_MSG.to_string()));
}

#[test]
fn lines_split_like_str_lines() {
    assert_eq!(lines("a\nb\r\n\nc"), vec!["a", "b", "", "c"]);
    assert_eq!(lines("a\n"), vec!["a"]);
    assert!(lines("").is_empty());
}

#[test]
fn clean_output_drops_build_noise() {
    let out = "\n WARN deprecated x\nerror: boom\n$ pnpm run build\nℹ info\n  at foo.js:1\n- item\nok\n";
    assert_eq!(clean_output(out), "error: boom\n  at foo.js:1\nok");
    assert_eq!(clean_output(""), "");
}

#[test]
fn text_tail_keeps_last_bytes() {
    assert_eq!(text_tail("abcdef", 3), "def");
    assert_eq!(text_tail("ab", 3), "ab");
    assert_eq!(text_tail("", 3), "");
    // "é" takes two bytes: a cut inside it moves to the next character.
    assert_eq!(text_tail("aéb", 2), "b");
    assert_eq!(text_tail("aéb", 3), "éb");
    assert_eq!(text_tail("中文", 5), "文");
}

#[test]
fn failure_dialog_tail_never_splits_a_character() {
    let en = I18n { is_zh: false };
    let error = format!("é{}", "a".repeat(1499));
    let d = en.bootstrap_failed_dialog(&error);
    assert_eq!(d.message, en.bootstrap_failed_msg(&"a".repeat(1499)));
    let out = format!("é{}\n", "b".repeat(1499));
    let d = en.upgrade_result_dialog(&Ok((false, out)));
    assert_eq!(d.message, en.upgrade_failed_msg(&"b".repeat(1499)));
}

#[test]
fn cleaning_twice_changes_nothing() {
    let out = "x WARN y\nerror: boom\n  at a.js:1\n\n- list\nfinal\n";
    let once = clean_output(out);
    assert_eq!(clean_output(&once), once);
}

#[test]
fn version_output_is_trimmed_or_unknown() {
    assert_eq!(version_from_output("  0.4.1\n"), "0.4.1");
    assert_eq!(version_from_output(" \n"), "unknown");
}

// ---- time and logs ----

#[test]
fn timestamps_around_day_and_year_boundaries() {
    assert_eq!(timestamp_compact(86_399), "19700101-235959");
    assert_eq!(timestamp_compact(86_400), "19700102-000000");
    assert_eq!(timestamp_compact(-1), "19691231-235959");
    assert_eq!(timestamp_compact(1_709_164_800), "20240229-000000");
    assert_eq!(timestamp_compact(4_102_444_800), "21000101-000000");
    assert_eq!(format_timestamp(-1, 999), "1969-12-31 23:59:59.999");
    assert_eq!(export_filename(0), "dsh-desktop-19700101-000000.log");
}

#[test]
fn log_line_layout() {
    assert_eq!(log_line_text("2000-01-01 00:00:00.000", "dsh", "hello"), "[2000-01-01 00:00:00.000] [dsh] hello");
}

#[test]
fn base64_of_concatenated_groups() {
    let a = base64_encode(b"foo");
    let b = base64_encode(b"bar");
    assert_eq!(base64_encode(b"foobar"), format!("{}{}", a, b));
    assert_eq!(base64_encode(&[0xff, 0xfe, 0xfd, 0x00]), "//79AA==");
}

// ---- update prompts ----

#[test]
fn auto_prompt_records_per_kind() {
    let (due, s1) = auto_prompt(PromptState::default(), "1.0.0", false, 1000);
    assert!(due);
    assert_eq!(s1.last_prompted_version, "1.0.0");
    assert_eq!(s1.last_prompted_at, 1000);
    assert_eq!(s1.last_app_prompted_version, "");
    let (due, s2) = auto_prompt(s1, "1.0.0", false, 1000 + 86_399);
    assert!(!due);
    assert_eq!(s2.last_prompted_at, 1000);
    let (due, s3) = auto_prompt(s2, "1.0.0", true, 2000);
    assert!(due);
    assert_eq!(s3.last_app_prompted_version, "1.0.0");
    assert_eq!(s3.last_app_prompted_at, 2000);
    assert_eq!(s3.last_prompted_at, 1000);
    let (due, _) = auto_prompt(s3, "1.0.0", false, 1000 + 86_400);
    assert!(due);
}

#[test]
fn auto_prompt_tolerates_a_clock_that_went_back() {
    let state = PromptState {
        last_prompted_version: "2.0.0".to_string(),
        last_prompted_at: 5000,
        last_app_prompted_version: String::new(),
        last_app_prompted_at: 0,
    };
    let (due, _) = auto_prompt(state, "2.0.0", false, 10);
    assert!(!due);
}

// ---- menus, dialogs and windows ----

#[test]
fn locale_detection_is_case_insensitive() {
    assert!(I18n::from_locales(&vec!["en-US".to_string(), "ZH-Hans-CN".to_string()]).is_zh);
    assert!(I18n::from_locales(&vec!["zh_TW".to_string()]).is_zh);
    assert!(!I18n::from_locales(&vec!["en-US".to_string(), "ja-JP".to_string()]).is_zh);
    assert!(!I18n::from_locales(&Vec::new()).is_zh);
}

#[test]
fn labels_resolve_to_localized_text() {
    let zh = I18n { is_zh: true };
    let en = I18n { is_zh: false };
    assert_eq!(zh.label(Label::AppName), "DeepSeek Harness");
    assert_eq!(en.label(Label::HideApp), "Hide");
    assert_eq!(zh.label(Label::CheckUpdates), "检查更新…");
    assert_eq!(en.label(Label::Zoom), "Zoom");
}

#[test]
fn native_menu_layout_matches_menu_bar() {
    let menu = native_menu();
    let titles: Vec<Label> = menu.iter().map(|m| m.title).collect();
    assert_eq!(
        titles,
        vec![Label::AppName, Label::FileMenu, Label::EditMenu, Label::ViewMenu, Label::WindowMenu, Label::HelpMenu]
    );
    assert_eq!(menu[0].entries[0], MenuEntry::Item { id: "about", label: Label::About });
    assert_eq!(menu[0].entries.len(), 10);
    assert_eq!(menu[5].entries.len(), 3);
}

#[test]
fn menu_ids_map_to_commands() {
    assert_eq!(menu_command("about"), MenuCommand::About);
    assert_eq!(menu_command("help"), MenuCommand::OpenUrl("https://github.com/hialuoy/deepseek-harness-desktop"));
    assert_eq!(
        menu_command("feedback"),
        MenuCommand::OpenUrl("https://github.com/hialuoy/deepseek-harness-desktop/issues/new")
    );
    assert_eq!(menu_command("export_logs"), MenuCommand::ExportLogs);
    assert_eq!(menu_command("check_updates"), MenuCommand::CheckUpdates);
    assert_eq!(menu_command("quit"), MenuCommand::Quit);
    assert_eq!(menu_command("nope"), MenuCommand::Ignore);
}

#[test]
fn dialogs_for_updates_and_failures() {
    let en = I18n { is_zh: false };
    let d = en.about_dialog("0.1.0");
    assert_eq!(d.title, "About DeepSeek Harness");
    assert!(d.message.contains("0.1.0"));
    let info = UpdateInfo::from_versions("1.0.0".to_string(), "1.1.0".to_string());
    let d = en.dsh_update_dialog(&info);
    assert!(d.yes_no);
    assert_eq!(d.message, en.update_available_msg("1.0.0", "1.1.0"));
    let d = en.dsh_update_dialog(&UpdateInfo::from_versions("1.1.0".to_string(), "1.1.0".to_string()));
    assert!(!d.yes_no);
    assert_eq!(d.message, en.up_to_date_msg("1.1.0"));
    let d = en.upgrade_result_dialog(&Ok((true, String::new())));
    assert!(d.yes_no);
    assert_eq!(d.kind, DialogKind::Info);
    let d = en.upgrade_result_dialog(&Ok((false, "a WARN b\nnpm ERR! 404\n".to_string())));
    assert_eq!(d.kind, DialogKind::Error);
    assert_eq!(d.message, en.upgrade_failed_msg("npm ERR! 404"));
    let d = en.upgrade_result_dialog(&Err("spawn failed".to_string()));
    assert_eq!(d.message, en.upgrade_error_msg("spawn failed"));
    let long = "x".repeat(2000);
    let d = en.bootstrap_failed_dialog(&long);
    assert_eq!(d.message, en.bootstrap_failed_msg(&"x".repeat(1500)));
    assert!(d.yes_no);
    let d = en.start_failed_dialog("boom");
    assert_eq!(d.title, "DeepSeek Harness");
    assert_eq!(d.kind, DialogKind::Error);
}

#[test]
fn app_update_dialog_choices() {
    let zh = I18n { is_zh: true };
    let d = zh.app_update_dialog(&AppUpdateCheck::Available("1.0.2".to_string()), "1.0.1", false).unwrap();
    assert_eq!(d.message, zh.app_update_msg("1.0.1", "1.0.2"));
    assert!(d.yes_no);
    assert!(zh.app_update_dialog(&AppUpdateCheck::UpToDate, "1.0.1", false).is_none());
    let d = zh.app_update_dialog(&AppUpdateCheck::UpToDate, "1.0.1", true).unwrap();
    assert_eq!(d.message, "DeepSeek Harness 已是最新版本(1.0.1)。");
    assert!(zh.app_update_dialog(&AppUpdateCheck::Failed("offline".to_string()), "1.0.1", true).is_none());
    assert_eq!(zh.app_update_failed_dialog("boom").message, "应用更新失败:\nboom");
    assert_eq!(zh.export_logs_failed_dialog("boom").title, "导出日志");
}

#[test]
fn bootstrap_decisions() {
    assert!(needs_bootstrap(false, false));
    assert!(!needs_bootstrap(true, false));
    assert!(!needs_bootstrap(false, true));
    assert_eq!(bootstrap_retry_decision(true), Ok(()));
    assert_eq!(bootstrap_retry_decision(false), Err("bootstrap cancelled by user".to_string()));
}

#[test]
fn window_toggles_and_events() {
    assert_eq!(toggle_decision(Some(true)), (Some(false), false));
    assert_eq!(toggle_decision(Some(false)), (Some(true), true));
    assert_eq!(toggle_decision(None), (None, false));
    assert_eq!(window_event_action("bootstrap", WindowEvent::CloseRequested), WindowAction::PreventClose);
    assert_eq!(window_event_action("main", WindowEvent::CloseRequested), WindowAction::Nothing);
    assert_eq!(window_event_action("main", WindowEvent::Destroyed), WindowAction::Shutdown);
    assert_eq!(window_event_action("bootstrap", WindowEvent::Destroyed), WindowAction::Nothing);
    assert_eq!(window_event_action("main", WindowEvent::Other), WindowAction::Nothing);
}

// ---- pages and the title bar ----

#[test]
fn bootstrap_progress_calls() {
    assert!(BOOTSTRAP_HTML.contains("window.__dsbUpdate"));
    assert_eq!(progress_call_script("\"x\"", Some("0.5")), "window.__dsbUpdate(\"x\", 0.5)");
    assert_eq!(progress_call_script("\"x\"", None), "window.__dsbUpdate(\"x\", null)");
    assert_eq!(
        progress_update_script("say \"hi\"", None),
        "window.__dsbUpdate(\"say \\\"hi\\\"\", null)"
    );
    assert_eq!(
        progress_update_script("a\\b\n\t\u{1}\u{7f}é", None),
        "window.__dsbUpdate(\"a\\\\b\\n\\t\\u0001\u{7f}é\", null)"
    );
    let step = I18n { is_zh: false }.bootstrap_step(Step::Download);
    assert_eq!(progress_update_script(&step, Some("0.25")), "window.__dsbUpdate(\"Downloading Node.js…\", 0.25)");
}

#[test]
fn slow_notice_fires_once_at_install() {
    assert_eq!(slow_notice_due(Step::Download, false), (false, false));
    assert_eq!(slow_notice_due(Step::Install, false), (true, true));
    assert_eq!(slow_notice_due(Step::Install, true), (false, true));
    assert_eq!(slow_notice_due(Step::Extract, true), (false, true));
}

#[test]
fn replace_all_is_left_to_right_without_overlap() {
    assert_eq!(replace_all("aaa", "aa", "b"), "ba");
    assert_eq!(replace_all("x__A__y__A__", "__A__", "1"), "x1y1");
    assert_eq!(replace_all("abc", "z", "q"), "abc");
    assert_eq!(replace_all("", "z", "q"), "");
    assert_eq!(replace_all("中文中", "中", "zh"), "zh文zh");
}

#[test]
fn icon_url_wraps_base64() {
    assert_eq!(icon_data_url(b"foo"), "data:image/png;base64,Zm9v");
    assert_eq!(icon_data_url(b""), "data:image/png;base64,");
}

#[test]
fn titlebar_labels_cover_every_menu_key() {
    let members = titlebar_label_members(&I18n { is_zh: false });
    assert_eq!(members.len(), 21);
    assert_eq!(members[0], ("about".to_string(), "About DeepSeek Harness".to_string()));
    assert_eq!(members[20], ("exportLogs".to_string(), "Export Logs".to_string()));
}
