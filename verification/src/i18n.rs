//! Localized text of menus and dialogs: Simplified Chinese for `zh*`
//! locales, English otherwise.
use vstd::prelude::*;

use crate::bootstrap::Step;

verus! {

/// Menu item that checks for dsh and app updates.
pub open spec fn text_check_updates(is_zh: bool) -> Seq<char> {
    if is_zh { "检查更新…"@ } else { "Check for Updates…"@ }
}

/// Title of the dialog offering a dsh upgrade.
pub open spec fn text_update_available_title(is_zh: bool) -> Seq<char> {
    if is_zh { "发现新版本"@ } else { "Update Available"@ }
}

/// Title of the dialog saying nothing newer is published.
pub open spec fn text_up_to_date_title(is_zh: bool) -> Seq<char> {
    if is_zh { "已是最新版本"@ } else { "Up to Date"@ }
}

/// Title of the dsh upgrade dialogs.
pub open spec fn text_upgrade_title(is_zh: bool) -> Seq<char> {
    if is_zh { "升级 dsh"@ } else { "Upgrade dsh"@ }
}

/// Offer to upgrade dsh from `current` to `latest`.
pub open spec fn text_update_available_msg(is_zh: bool, current: Seq<char>, latest: Seq<char>) -> Seq<char> {
    if is_zh { "发现 dsh 新版本。\n\n  当前版本:  "@ + current + "\n  最新版本:  "@ + latest + "\n\n立即升级?"@ } else { "A new version of dsh is available.\n\n  Current:  "@ + current + "\n  Latest:   "@ + latest + "\n\nUpgrade now?"@ }
}

/// dsh `current` is the newest version.
pub open spec fn text_up_to_date_msg(is_zh: bool, current: Seq<char>) -> Seq<char> {
    if is_zh { "dsh 已是最新版本("@ + current + ")。"@ } else { "dsh is up to date (version "@ + current + ")."@ }
}

/// Title of the app update dialogs.
pub open spec fn text_app_update_title(is_zh: bool) -> Seq<char> {
    if is_zh { "更新 DeepSeek Harness"@ } else { "Update DeepSeek Harness"@ }
}

/// Offer to download and install app version `latest` over `current`.
pub open spec fn text_app_update_msg(is_zh: bool, current: Seq<char>, latest: Seq<char>) -> Seq<char> {
    if is_zh { "发现 DeepSeek Harness 新版本。\n\n  当前版本:  "@ + current + "\n  最新版本:  "@ + latest + "\n\n是否下载并安装?"@ } else { "A new version of DeepSeek Harness is available.\n\n  Current:  "@ + current + "\n  Latest:   "@ + latest + "\n\nDownload and install now?"@ }
}

/// The app at `current` is the newest version.
pub open spec fn text_app_up_to_date_msg(is_zh: bool, current: Seq<char>) -> Seq<char> {
    if is_zh { "DeepSeek Harness 已是最新版本("@ + current + ")。"@ } else { "DeepSeek Harness is up to date (version "@ + current + ")."@ }
}

/// Installing an app update failed with `e`.
pub open spec fn text_app_update_failed_msg(is_zh: bool, e: Seq<char>) -> Seq<char> {
    if is_zh { "应用更新失败:\n"@ + e } else { "App update failed:\n"@ + e }
}

/// dsh upgraded; offer a restart.
pub open spec fn text_upgrade_success_msg(is_zh: bool) -> Seq<char> {
    if is_zh { "dsh 升级成功。\n\n立即重启以应用更新?"@ } else { "dsh upgraded successfully.\n\nRestart now to apply the update?"@ }
}

/// The upgrade command exited unsuccessfully; `tail` is the end of its output.
pub open spec fn text_upgrade_failed_msg(is_zh: bool, tail: Seq<char>) -> Seq<char> {
    if is_zh { "升级失败(退出码非零)。\n\n"@ + tail } else { "Upgrade failed (exit code non-zero).\n\n"@ + tail }
}

/// The upgrade command could not run: `e`.
pub open spec fn text_upgrade_error_msg(is_zh: bool, e: Seq<char>) -> Seq<char> {
    if is_zh { "升级失败:\n"@ + e } else { "Upgrade failed:\n"@ + e }
}

/// Menu item opening the about dialog.
pub open spec fn text_about(is_zh: bool) -> Seq<char> {
    if is_zh { "关于 DeepSeek Harness"@ } else { "About DeepSeek Harness"@ }
}

/// Help menu item opening the project page.
pub open spec fn text_help(is_zh: bool) -> Seq<char> {
    if is_zh { "帮助"@ } else { "Help"@ }
}

/// Help menu item opening a new issue.
pub open spec fn text_feedback(is_zh: bool) -> Seq<char> {
    if is_zh { "提交反馈"@ } else { "Submit Feedback"@ }
}

/// Help menu item exporting the log file.
pub open spec fn text_export_logs(is_zh: bool) -> Seq<char> {
    if is_zh { "导出日志"@ } else { "Export Logs"@ }
}

/// Title of the Help menu.
pub open spec fn text_help_menu(is_zh: bool) -> Seq<char> {
    if is_zh { "帮助"@ } else { "Help"@ }
}

/// Title of the Edit menu.
pub open spec fn text_edit_menu(is_zh: bool) -> Seq<char> {
    if is_zh { "编辑"@ } else { "Edit"@ }
}

/// Edit menu: undo.
pub open spec fn text_undo(is_zh: bool) -> Seq<char> {
    if is_zh { "撤销"@ } else { "Undo"@ }
}

/// Edit menu: redo.
pub open spec fn text_redo(is_zh: bool) -> Seq<char> {
    if is_zh { "重做"@ } else { "Redo"@ }
}

/// Edit menu: cut.
pub open spec fn text_cut(is_zh: bool) -> Seq<char> {
    if is_zh { "剪切"@ } else { "Cut"@ }
}

/// Edit menu: copy.
pub open spec fn text_copy(is_zh: bool) -> Seq<char> {
    if is_zh { "复制"@ } else { "Copy"@ }
}

/// Edit menu: paste.
pub open spec fn text_paste(is_zh: bool) -> Seq<char> {
    if is_zh { "粘贴"@ } else { "Paste"@ }
}

/// Edit menu: select all.
pub open spec fn text_select_all(is_zh: bool) -> Seq<char> {
    if is_zh { "全选"@ } else { "Select All"@ }
}

/// App menu: hide the app.
pub open spec fn text_hide_app(is_zh: bool) -> Seq<char> {
    if is_zh { "隐藏"@ } else { "Hide"@ }
}

/// App menu: hide other apps.
pub open spec fn text_hide_others(is_zh: bool) -> Seq<char> {
    if is_zh { "隐藏其他"@ } else { "Hide Others"@ }
}

/// App menu: show all apps.
pub open spec fn text_show_all(is_zh: bool) -> Seq<char> {
    if is_zh { "全部显示"@ } else { "Show All"@ }
}

/// Quit the app.
pub open spec fn text_quit(is_zh: bool) -> Seq<char> {
    if is_zh { "退出"@ } else { "Quit"@ }
}

/// App menu: services submenu.
pub open spec fn text_services(is_zh: bool) -> Seq<char> {
    if is_zh { "服务"@ } else { "Services"@ }
}

/// Title of the File menu.
pub open spec fn text_file_menu(is_zh: bool) -> Seq<char> {
    if is_zh { "文件"@ } else { "File"@ }
}

/// Title of the View menu.
pub open spec fn text_view_menu(is_zh: bool) -> Seq<char> {
    if is_zh { "显示"@ } else { "View"@ }
}

/// View menu: full screen.
pub open spec fn text_enter_full_screen(is_zh: bool) -> Seq<char> {
    if is_zh { "进入全屏"@ } else { "Enter Full Screen"@ }
}

/// Title of the Window menu.
pub open spec fn text_window_menu(is_zh: bool) -> Seq<char> {
    if is_zh { "窗口"@ } else { "Window"@ }
}

/// Window menu: minimize.
pub open spec fn text_minimize(is_zh: bool) -> Seq<char> {
    if is_zh { "最小化"@ } else { "Minimize"@ }
}

/// Window menu: zoom.
pub open spec fn text_zoom(is_zh: bool) -> Seq<char> {
    if is_zh { "缩放"@ } else { "Zoom"@ }
}

/// Close the window.
pub open spec fn text_close_window(is_zh: bool) -> Seq<char> {
    if is_zh { "关闭窗口"@ } else { "Close Window"@ }
}

/// Body of the about dialog: app version and repository.
pub open spec fn text_about_msg(is_zh: bool, version: Seq<char>) -> Seq<char> {
    if is_zh { "DeepSeek Harness 桌面端\n\n  版本:  "@ + version + "\n  仓库:  https://github.com/hialuoy/deepseek-harness-desktop"@ } else { "DeepSeek Harness desktop\n\n  Version:  "@ + version + "\n  Repo:  https://github.com/hialuoy/deepseek-harness-desktop"@ }
}

/// Exporting the log failed with `e`.
pub open spec fn text_export_logs_failed_msg(is_zh: bool, e: Seq<char>) -> Seq<char> {
    if is_zh { "导出日志失败:\n"@ + e } else { "Failed to export logs:\n"@ + e }
}

/// dsh could not be started (`detail`), with installation guidance.
pub open spec fn text_start_failed_msg(is_zh: bool, detail: Seq<char>) -> Seq<char> {
    if is_zh { "无法启动 dsh:\n"@ + detail + "\n\n请确认已安装 Node.js(>=22)并全局安装 @deepseek-ai/dsh:\n  npm install -g @deepseek-ai/dsh"@ } else { "Failed to start dsh:\n"@ + detail + "\n\nMake sure Node.js (>=22) is installed and @deepseek-ai/dsh is installed globally:\n  npm install -g @deepseek-ai/dsh"@ }
}

/// Title of the first-launch setup window (English in every locale).
pub open spec fn text_bootstrap_title(is_zh: bool) -> Seq<char> {
    "DeepSeek Harness Setup"@
}

/// Progress text for a setup step.
pub open spec fn text_bootstrap_step(is_zh: bool, step: Step) -> Seq<char> {
    match (is_zh, step) {
        (true, Step::Download) => "正在下载 Node.js…"@,
        (true, Step::Extract) => "正在解压 Node.js…"@,
        (true, Step::Install) => "正在安装 dsh…"@,
        (false, Step::Download) => "Downloading Node.js…"@,
        (false, Step::Extract) => "Extracting Node.js…"@,
        (false, Step::Install) => "Installing dsh…"@,
    }
}

/// Title of the setup failure dialog.
pub open spec fn text_bootstrap_failed_title(is_zh: bool) -> Seq<char> {
    if is_zh { "初始化失败"@ } else { "Setup Failed"@ }
}

/// Reassurance shown while the dsh install takes long.
pub open spec fn text_bootstrap_slow_msg(is_zh: bool) -> Seq<char> {
    if is_zh { "安装仍在进行,请耐心等待…(首次安装通常需要 1-2 分钟)"@ } else { "Installation is still in progress, please wait… (first install usually takes 1-2 minutes)"@ }
}

/// Setup failed (`tail` is the end of the error); offer a retry.
pub open spec fn text_bootstrap_failed_msg(is_zh: bool, tail: Seq<char>) -> Seq<char> {
    if is_zh { "安装 Node.js 与 dsh 失败。\n\n"@ + tail + "\n\n是否重试?(选择「No」将退出应用)"@ } else { "Failed to install Node.js and dsh.\n\n"@ + tail + "\n\nRetry? (choosing \"No\" quits the app)"@ }
}

/// Chooses the language of menus and dialogs.
#[derive(Clone, Copy, Debug)]
pub struct I18n {
    /// Whether the UI is shown in Simplified Chinese.
    pub is_zh: bool,
}

impl I18n {
    /// Menu item that checks for dsh and app updates.
    pub fn check_updates(&self) -> (r: &'static str)
        ensures
            r@ == text_check_updates(self.is_zh),
    {
        if self.is_zh { "检查更新…" } else { "Check for Updates…" }
    }

    /// Title of the dialog offering a dsh upgrade.
    pub fn update_available_title(&self) -> (r: &'static str)
        ensures
            r@ == text_update_available_title(self.is_zh),
    {
        if self.is_zh { "发现新版本" } else { "Update Available" }
    }

    /// Title of the dialog saying nothing newer is published.
    pub fn up_to_date_title(&self) -> (r: &'static str)
        ensures
            r@ == text_up_to_date_title(self.is_zh),
    {
        if self.is_zh { "已是最新版本" } else { "Up to Date" }
    }

    /// Title of the dsh upgrade dialogs.
    pub fn upgrade_title(&self) -> (r: &'static str)
        ensures
            r@ == text_upgrade_title(self.is_zh),
    {
        if self.is_zh { "升级 dsh" } else { "Upgrade dsh" }
    }

    /// Offer to upgrade dsh from `current` to `latest`.
    pub fn update_available_msg(&self, current: &str, latest: &str) -> (r: String)
        ensures
            r@ == text_update_available_msg(self.is_zh, current@, latest@),
    {
        if self.is_zh {
            let mut s = String::from_str("发现 dsh 新版本。\n\n  当前版本:  ");
            s.append(current);
            s.append("\n  最新版本:  ");
            s.append(latest);
            s.append("\n\n立即升级?");
            s
        } else {
            let mut s = String::from_str("A new version of dsh is available.\n\n  Current:  ");
            s.append(current);
            s.append("\n  Latest:   ");
            s.append(latest);
            s.append("\n\nUpgrade now?");
            s
        }
    }

    /// dsh `current` is the newest version.
    pub fn up_to_date_msg(&self, current: &str) -> (r: String)
        ensures
            r@ == text_up_to_date_msg(self.is_zh, current@),
    {
        if self.is_zh {
            let mut s = String::from_str("dsh 已是最新版本(");
            s.append(current);
            s.append(")。");
            s
        } else {
            let mut s = String::from_str("dsh is up to date (version ");
            s.append(current);
            s.append(").");
            s
        }
    }

    /// Title of the app update dialogs.
    pub fn app_update_title(&self) -> (r: &'static str)
        ensures
            r@ == text_app_update_title(self.is_zh),
    {
        if self.is_zh { "更新 DeepSeek Harness" } else { "Update DeepSeek Harness" }
    }

    /// Offer to download and install app version `latest` over `current`.
    pub fn app_update_msg(&self, current: &str, latest: &str) -> (r: String)
        ensures
            r@ == text_app_update_msg(self.is_zh, current@, latest@),
    {
        if self.is_zh {
            let mut s = String::from_str("发现 DeepSeek Harness 新版本。\n\n  当前版本:  ");
            s.append(current);
            s.append("\n  最新版本:  ");
            s.append(latest);
            s.append("\n\n是否下载并安装?");
            s
        } else {
            let mut s = String::from_str("A new version of DeepSeek Harness is available.\n\n  Current:  ");
            s.append(current);
            s.append("\n  Latest:   ");
            s.append(latest);
            s.append("\n\nDownload and install now?");
            s
        }
    }

    /// The app at `current` is the newest version.
    pub fn app_up_to_date_msg(&self, current: &str) -> (r: String)
        ensures
            r@ == text_app_up_to_date_msg(self.is_zh, current@),
    {
        if self.is_zh {
            let mut s = String::from_str("DeepSeek Harness 已是最新版本(");
            s.append(current);
            s.append(")。");
            s
        } else {
            let mut s = String::from_str("DeepSeek Harness is up to date (version ");
            s.append(current);
            s.append(").");
            s
        }
    }

    /// Installing an app update failed with `e`.
    pub fn app_update_failed_msg(&self, e: &str) -> (r: String)
        ensures
            r@ == text_app_update_failed_msg(self.is_zh, e@),
    {
        if self.is_zh {
            let mut s = String::from_str("应用更新失败:\n");
            s.append(e);
            s
        } else {
            let mut s = String::from_str("App update failed:\n");
            s.append(e);
            s
        }
    }

    /// dsh upgraded; offer a restart.
    pub fn upgrade_success_msg(&self) -> (r: String)
        ensures
            r@ == text_upgrade_success_msg(self.is_zh),
    {
        if self.is_zh {
            let mut s = String::from_str("dsh 升级成功。\n\n立即重启以应用更新?");
            s
        } else {
            let mut s = String::from_str("dsh upgraded successfully.\n\nRestart now to apply the update?");
            s
        }
    }

    /// The upgrade command exited unsuccessfully; `tail` is the end of its output.
    pub fn upgrade_failed_msg(&self, tail: &str) -> (r: String)
        ensures
            r@ == text_upgrade_failed_msg(self.is_zh, tail@),
    {
        if self.is_zh {
            let mut s = String::from_str("升级失败(退出码非零)。\n\n");
            s.append(tail);
            s
        } else {
            let mut s = String::from_str("Upgrade failed (exit code non-zero).\n\n");
            s.append(tail);
            s
        }
    }

    /// The upgrade command could not run: `e`.
    pub fn upgrade_error_msg(&self, e: &str) -> (r: String)
        ensures
            r@ == text_upgrade_error_msg(self.is_zh, e@),
    {
        if self.is_zh {
            let mut s = String::from_str("升级失败:\n");
            s.append(e);
            s
        } else {
            let mut s = String::from_str("Upgrade failed:\n");
            s.append(e);
            s
        }
    }

    /// Menu item opening the about dialog.
    pub fn about(&self) -> (r: &'static str)
        ensures
            r@ == text_about(self.is_zh),
    {
        if self.is_zh { "关于 DeepSeek Harness" } else { "About DeepSeek Harness" }
    }

    /// Help menu item opening the project page.
    pub fn help(&self) -> (r: &'static str)
        ensures
            r@ == text_help(self.is_zh),
    {
        if self.is_zh { "帮助" } else { "Help" }
    }

    /// Help menu item opening a new issue.
    pub fn feedback(&self) -> (r: &'static str)
        ensures
            r@ == text_feedback(self.is_zh),
    {
        if self.is_zh { "提交反馈" } else { "Submit Feedback" }
    }

    /// Help menu item exporting the log file.
    pub fn export_logs(&self) -> (r: &'static str)
        ensures
            r@ == text_export_logs(self.is_zh),
    {
        if self.is_zh { "导出日志" } else { "Export Logs" }
    }

    /// Title of the Help menu.
    pub fn help_menu(&self) -> (r: &'static str)
        ensures
            r@ == text_help_menu(self.is_zh),
    {
        if self.is_zh { "帮助" } else { "Help" }
    }

    /// Title of the Edit menu.
    pub fn edit_menu(&self) -> (r: &'static str)
        ensures
            r@ == text_edit_menu(self.is_zh),
    {
        if self.is_zh { "编辑" } else { "Edit" }
    }

    /// Edit menu: undo.
    pub fn undo(&self) -> (r: &'static str)
        ensures
            r@ == text_undo(self.is_zh),
    {
        if self.is_zh { "撤销" } else { "Undo" }
    }

    /// Edit menu: redo.
    pub fn redo(&self) -> (r: &'static str)
        ensures
            r@ == text_redo(self.is_zh),
    {
        if self.is_zh { "重做" } else { "Redo" }
    }

    /// Edit menu: cut.
    pub fn cut(&self) -> (r: &'static str)
        ensures
            r@ == text_cut(self.is_zh),
    {
        if self.is_zh { "剪切" } else { "Cut" }
    }

    /// Edit menu: copy.
    pub fn copy(&self) -> (r: &'static str)
        ensures
            r@ == text_copy(self.is_zh),
    {
        if self.is_zh { "复制" } else { "Copy" }
    }

    /// Edit menu: paste.
    pub fn paste(&self) -> (r: &'static str)
        ensures
            r@ == text_paste(self.is_zh),
    {
        if self.is_zh { "粘贴" } else { "Paste" }
    }

    /// Edit menu: select all.
    pub fn select_all(&self) -> (r: &'static str)
        ensures
            r@ == text_select_all(self.is_zh),
    {
        if self.is_zh { "全选" } else { "Select All" }
    }

    /// App menu: hide the app.
    pub fn hide_app(&self) -> (r: &'static str)
        ensures
            r@ == text_hide_app(self.is_zh),
    {
        if self.is_zh { "隐藏" } else { "Hide" }
    }

    /// App menu: hide other apps.
    pub fn hide_others(&self) -> (r: &'static str)
        ensures
            r@ == text_hide_others(self.is_zh),
    {
        if self.is_zh { "隐藏其他" } else { "Hide Others" }
    }

    /// App menu: show all apps.
    pub fn show_all(&self) -> (r: &'static str)
        ensures
            r@ == text_show_all(self.is_zh),
    {
        if self.is_zh { "全部显示" } else { "Show All" }
    }

    /// Quit the app.
    pub fn quit(&self) -> (r: &'static str)
        ensures
            r@ == text_quit(self.is_zh),
    {
        if self.is_zh { "退出" } else { "Quit" }
    }

    /// App menu: services submenu.
    pub fn services(&self) -> (r: &'static str)
        ensures
            r@ == text_services(self.is_zh),
    {
        if self.is_zh { "服务" } else { "Services" }
    }

    /// Title of the File menu.
    pub fn file_menu(&self) -> (r: &'static str)
        ensures
            r@ == text_file_menu(self.is_zh),
    {
        if self.is_zh { "文件" } else { "File" }
    }

    /// Title of the View menu.
    pub fn view_menu(&self) -> (r: &'static str)
        ensures
            r@ == text_view_menu(self.is_zh),
    {
        if self.is_zh { "显示" } else { "View" }
    }

    /// View menu: full screen.
    pub fn enter_full_screen(&self) -> (r: &'static str)
        ensures
            r@ == text_enter_full_screen(self.is_zh),
    {
        if self.is_zh { "进入全屏" } else { "Enter Full Screen" }
    }

    /// Title of the Window menu.
    pub fn window_menu(&self) -> (r: &'static str)
        ensures
            r@ == text_window_menu(self.is_zh),
    {
        if self.is_zh { "窗口" } else { "Window" }
    }

    /// Window menu: minimize.
    pub fn minimize(&self) -> (r: &'static str)
        ensures
            r@ == text_minimize(self.is_zh),
    {
        if self.is_zh { "最小化" } else { "Minimize" }
    }

    /// Window menu: zoom.
    pub fn zoom(&self) -> (r: &'static str)
        ensures
            r@ == text_zoom(self.is_zh),
    {
        if self.is_zh { "缩放" } else { "Zoom" }
    }

    /// Close the window.
    pub fn close_window(&self) -> (r: &'static str)
        ensures
            r@ == text_close_window(self.is_zh),
    {
        if self.is_zh { "关闭窗口" } else { "Close Window" }
    }

    /// Body of the about dialog: app version and repository.
    pub fn about_msg(&self, version: &str) -> (r: String)
        ensures
            r@ == text_about_msg(self.is_zh, version@),
    {
        if self.is_zh {
            let mut s = String::from_str("DeepSeek Harness 桌面端\n\n  版本:  ");
            s.append(version);
            s.append("\n  仓库:  https://github.com/hialuoy/deepseek-harness-desktop");
            s
        } else {
            let mut s = String::from_str("DeepSeek Harness desktop\n\n  Version:  ");
            s.append(version);
            s.append("\n  Repo:  https://github.com/hialuoy/deepseek-harness-desktop");
            s
        }
    }

    /// Exporting the log failed with `e`.
    pub fn export_logs_failed_msg(&self, e: &str) -> (r: String)
        ensures
            r@ == text_export_logs_failed_msg(self.is_zh, e@),
    {
        if self.is_zh {
            let mut s = String::from_str("导出日志失败:\n");
            s.append(e);
            s
        } else {
            let mut s = String::from_str("Failed to export logs:\n");
            s.append(e);
            s
        }
    }

    /// dsh could not be started (`detail`), with installation guidance.
    pub fn start_failed_msg(&self, detail: &str) -> (r: String)
        ensures
            r@ == text_start_failed_msg(self.is_zh, detail@),
    {
        if self.is_zh {
            let mut s = String::from_str("无法启动 dsh:\n");
            s.append(detail);
            s.append("\n\n请确认已安装 Node.js(>=22)并全局安装 @deepseek-ai/dsh:\n  npm install -g @deepseek-ai/dsh");
            s
        } else {
            let mut s = String::from_str("Failed to start dsh:\n");
            s.append(detail);
            s.append("\n\nMake sure Node.js (>=22) is installed and @deepseek-ai/dsh is installed globally:\n  npm install -g @deepseek-ai/dsh");
            s
        }
    }

    /// Title of the first-launch setup window (English in every locale).
    pub fn bootstrap_title(&self) -> (r: &'static str)
        ensures
            r@ == text_bootstrap_title(self.is_zh),
    {
        "DeepSeek Harness Setup"
    }

    /// Progress text for a setup step.
    pub fn bootstrap_step(&self, step: Step) -> (r: String)
        ensures
            r@ == text_bootstrap_step(self.is_zh, step),
    {
        if self.is_zh {
            match step {
                Step::Download => String::from_str("正在下载 Node.js…"),
                Step::Extract => String::from_str("正在解压 Node.js…"),
                Step::Install => String::from_str("正在安装 dsh…"),
            }
        } else {
            match step {
                Step::Download => String::from_str("Downloading Node.js…"),
                Step::Extract => String::from_str("Extracting Node.js…"),
                Step::Install => String::from_str("Installing dsh…"),
            }
        }
    }

    /// Title of the setup failure dialog.
    pub fn bootstrap_failed_title(&self) -> (r: &'static str)
        ensures
            r@ == text_bootstrap_failed_title(self.is_zh),
    {
        if self.is_zh { "初始化失败" } else { "Setup Failed" }
    }

    /// Reassurance shown while the dsh install takes long.
    pub fn bootstrap_slow_msg(&self) -> (r: String)
        ensures
            r@ == text_bootstrap_slow_msg(self.is_zh),
    {
        if self.is_zh {
            let mut s = String::from_str("安装仍在进行,请耐心等待…(首次安装通常需要 1-2 分钟)");
            s
        } else {
            let mut s = String::from_str("Installation is still in progress, please wait… (first install usually takes 1-2 minutes)");
            s
        }
    }

    /// Setup failed (`tail` is the end of the error); offer a retry.
    pub fn bootstrap_failed_msg(&self, tail: &str) -> (r: String)
        ensures
            r@ == text_bootstrap_failed_msg(self.is_zh, tail@),
    {
        if self.is_zh {
            let mut s = String::from_str("安装 Node.js 与 dsh 失败。\n\n");
            s.append(tail);
            s.append("\n\n是否重试?(选择「No」将退出应用)");
            s
        } else {
            let mut s = String::from_str("Failed to install Node.js and dsh.\n\n");
            s.append(tail);
            s.append("\n\nRetry? (choosing \"No\" quits the app)");
            s
        }
    }

}

} // verus!
