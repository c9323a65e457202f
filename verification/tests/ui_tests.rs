use dsh_desktop::bootstrap::Step;
use dsh_desktop::discovery::open_url_command;
use dsh_desktop::i18n::I18n;
use dsh_desktop::output::DSH_NO_URL_MSG;
use dsh_desktop::pages::LOADING_HTML;
use dsh_desktop::titlebar::titlebar_script;

#[test]
fn no_url_error_detail_is_language_neutral_ascii() {
    assert!(DSH_NO_URL_MSG.is_ascii());
    assert!(DSH_NO_URL_MSG.contains("ready URL"));
}

#[test]
fn i18n_help_menu_items_zh_and_en() {
    let zh = I18n { is_zh: true };
    let en = I18n { is_zh: false };
    assert_eq!(zh.about(), "关于 DeepSeek Harness");
    assert_eq!(en.about(), "About DeepSeek Harness");
    assert_eq!(zh.help(), "帮助");
    assert_eq!(en.help(), "Help");
    assert_eq!(zh.feedback(), "提交反馈");
    assert_eq!(en.feedback(), "Submit Feedback");
    assert_eq!(zh.export_logs(), "导出日志");
    assert_eq!(en.export_logs(), "Export Logs");
    assert_eq!(zh.help_menu(), "帮助");
    assert_eq!(en.help_menu(), "Help");
}

#[test]
fn i18n_edit_menu_items_zh_and_en() {
    let zh = I18n { is_zh: true };
    let en = I18n { is_zh: false };
    assert_eq!(zh.edit_menu(), "编辑");
    assert_eq!(en.edit_menu(), "Edit");
    assert_eq!(zh.undo(), "撤销");
    assert_eq!(en.undo(), "Undo");
    assert_eq!(zh.redo(), "重做");
    assert_eq!(en.redo(), "Redo");
    assert_eq!(zh.cut(), "剪切");
    assert_eq!(en.cut(), "Cut");
    assert_eq!(zh.copy(), "复制");
    assert_eq!(en.copy(), "Copy");
    assert_eq!(zh.paste(), "粘贴");
    assert_eq!(en.paste(), "Paste");
    assert_eq!(zh.select_all(), "全选");
    assert_eq!(en.select_all(), "Select All");
}

#[test]
fn i18n_standard_menu_items_zh_and_en() {
    let zh = I18n { is_zh: true };
    let en = I18n { is_zh: false };
    assert_eq!(zh.quit(), "退出");
    assert_eq!(en.quit(), "Quit");
    assert_eq!(zh.file_menu(), "文件");
    assert_eq!(en.file_menu(), "File");
    assert_eq!(zh.view_menu(), "显示");
    assert_eq!(en.view_menu(), "View");
    assert_eq!(zh.enter_full_screen(), "进入全屏");
    assert_eq!(en.enter_full_screen(), "Enter Full Screen");
    assert_eq!(zh.window_menu(), "窗口");
    assert_eq!(en.window_menu(), "Window");
    assert_eq!(zh.minimize(), "最小化");
    assert_eq!(en.minimize(), "Minimize");
    assert_eq!(zh.zoom(), "缩放");
    assert_eq!(en.zoom(), "Zoom");
    assert_eq!(zh.close_window(), "关闭窗口");
    assert_eq!(en.close_window(), "Close Window");
}

#[test]
fn i18n_macos_menu_items_zh_and_en() {
    let zh = I18n { is_zh: true };
    let en = I18n { is_zh: false };
    assert_eq!(zh.hide_app(), "隐藏");
    assert_eq!(en.hide_app(), "Hide");
    assert_eq!(zh.hide_others(), "隐藏其他");
    assert_eq!(en.hide_others(), "Hide Others");
    assert_eq!(zh.show_all(), "全部显示");
    assert_eq!(en.show_all(), "Show All");
    assert_eq!(zh.services(), "服务");
    assert_eq!(en.services(), "Services");
}

#[test]
fn app_update_i18n_zh_and_en() {
    let zh = I18n { is_zh: true };
    let en = I18n { is_zh: false };
    assert_eq!(zh.app_update_title(), "更新 DeepSeek Harness");
    assert_eq!(en.app_update_title(), "Update DeepSeek Harness");
    assert_eq!(
        zh.app_update_msg("1.0.1", "1.0.2"),
        "发现 DeepSeek Harness 新版本。\n\n  当前版本:  1.0.1\n  最新版本:  1.0.2\n\n是否下载并安装?"
    );
    assert_eq!(
        en.app_update_msg("1.0.1", "1.0.2"),
        "A new version of DeepSeek Harness is available.\n\n  Current:  1.0.1\n  Latest:   1.0.2\n\nDownload and install now?"
    );
    assert_eq!(zh.app_up_to_date_msg("1.0.1"), "DeepSeek Harness 已是最新版本(1.0.1)。");
    assert_eq!(en.app_up_to_date_msg("1.0.1"), "DeepSeek Harness is up to date (version 1.0.1).");
    assert_eq!(zh.app_update_failed_msg("boom"), "应用更新失败:\nboom");
    assert_eq!(en.app_update_failed_msg("boom"), "App update failed:\nboom");
}

#[test]
fn about_msg_contains_version_and_repo() {
    let zh = I18n { is_zh: true };
    let msg = zh.about_msg("0.1.0");
    assert!(msg.contains("0.1.0"));
    assert!(msg.contains("https://github.com/hialuoy/deepseek-harness-desktop"));
    let en_msg = I18n { is_zh: false }.about_msg("0.1.0");
    assert!(en_msg.contains("0.1.0"));
    assert!(en_msg.contains("https://github.com/hialuoy/deepseek-harness-desktop"));
}

#[test]
fn export_logs_failed_msg_zh_and_en() {
    assert_eq!(I18n { is_zh: true }.export_logs_failed_msg("boom"), "导出日志失败:\nboom");
    assert_eq!(I18n { is_zh: false }.export_logs_failed_msg("boom"), "Failed to export logs:\nboom");
}

#[test]
fn open_url_command_per_os() {
    let url = "https://example.com";
    assert_eq!(open_url_command("macos", url), ("open".to_string(), vec![url.to_string()]));
    assert_eq!(
        open_url_command("windows", url),
        ("cmd".to_string(), vec!["/C".to_string(), "start".to_string(), url.to_string()])
    );
    assert_eq!(open_url_command("linux", url), ("xdg-open".to_string(), vec![url.to_string()]));
    assert_eq!(open_url_command("freebsd", url), ("xdg-open".to_string(), vec![url.to_string()]));
}

#[test]
fn bootstrap_copy_is_localized_zh() {
    let i18n = I18n { is_zh: true };
    assert_eq!(i18n.bootstrap_title(), "DeepSeek Harness Setup");
    assert_eq!(i18n.bootstrap_step(Step::Download), "正在下载 Node.js…");
    assert_eq!(i18n.bootstrap_step(Step::Extract), "正在解压 Node.js…");
    assert_eq!(i18n.bootstrap_step(Step::Install), "正在安装 dsh…");
    assert_eq!(i18n.bootstrap_failed_title(), "初始化失败");
    assert!(i18n.bootstrap_failed_msg("boom").contains("重试"));
    assert!(i18n.bootstrap_slow_msg().contains("耐心等待"));
}

#[test]
fn bootstrap_copy_is_localized_en() {
    let i18n = I18n { is_zh: false };
    assert_eq!(i18n.bootstrap_step(Step::Download), "Downloading Node.js…");
    assert_eq!(i18n.bootstrap_step(Step::Extract), "Extracting Node.js…");
    assert_eq!(i18n.bootstrap_step(Step::Install), "Installing dsh…");
    assert_eq!(i18n.bootstrap_failed_title(), "Setup Failed");
    assert!(i18n.bootstrap_failed_msg("boom").contains("Retry"));
    assert!(i18n.bootstrap_slow_msg().contains("please wait"));
}

#[test]
fn loading_html_matches_dsh_boot_page() {
    assert!(LOADING_HTML.contains("HARNESS"));
    assert!(LOADING_HTML.contains("Starting…"));
    assert!(LOADING_HTML.contains("wordmark"));
    assert!(LOADING_HTML.contains("spinner"));
    assert!(LOADING_HTML.contains("conic-gradient"));
    assert!(LOADING_HTML.contains("72deg"));
}

/// A few bytes standing in for the 32x32 PNG icon.
const ICON_PNG: &[u8] = b"\x89PNG\r\n\x1a\n";

#[test]
fn titlebar_script_zh_contains_localized_menu_labels() {
    let script = titlebar_script(&I18n { is_zh: true }, ICON_PNG);
    assert!(script.contains("\"file\":\"文件\""));
    assert!(script.contains("\"about\":\"关于 DeepSeek Harness\""));
    assert!(script.contains("\"minimize\":\"最小化\""));
    assert!(script.contains("\"exportLogs\":\"导出日志\""));
    assert!(script.contains("window_minimize"));
    assert!(script.contains("window_toggle_maximize"));
    assert!(script.contains("window_close"));
    assert!(script.contains("window_start_dragging"));
    assert!(script.contains("data:image/png;base64,"));
    assert!(!script.contains("__APP_ICON__"));
}

#[test]
fn titlebar_script_en_contains_localized_menu_labels() {
    let script = titlebar_script(&I18n { is_zh: false }, ICON_PNG);
    assert!(script.contains("\"file\":\"File\""));
    assert!(script.contains("\"about\":\"About DeepSeek Harness\""));
    assert!(script.contains("\"minimize\":\"Minimize\""));
    assert!(script.contains("\"exportLogs\":\"Export Logs\""));
}
