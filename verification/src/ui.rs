//! Menus and dialogs: which entries the menus hold, what a menu command
//! does, and which dialog each outcome shows.
use vstd::prelude::*;

use crate::i18n::{
    I18n,
    text_check_updates,
    text_about,
    text_services,
    text_hide_app,
    text_hide_others,
    text_show_all,
    text_quit,
    text_help,
    text_feedback,
    text_export_logs,
    text_help_menu,
    text_edit_menu,
    text_undo,
    text_redo,
    text_cut,
    text_copy,
    text_paste,
    text_select_all,
    text_file_menu,
    text_close_window,
    text_view_menu,
    text_enter_full_screen,
    text_window_menu,
    text_minimize,
    text_zoom,
};
use crate::text::{chars_of, has_prefix, has_prefix_chars, str_eq};
use crate::i18n::{
    text_about_msg, text_app_up_to_date_msg, text_app_update_failed_msg, text_app_update_msg, text_app_update_title,
    text_bootstrap_failed_msg, text_bootstrap_failed_title, text_export_logs_failed_msg, text_start_failed_msg,
    text_up_to_date_msg, text_up_to_date_title, text_update_available_msg, text_update_available_title,
    text_upgrade_error_msg, text_upgrade_failed_msg, text_upgrade_success_msg, text_upgrade_title,
};
use crate::output::{cleaned_text, clean_output, tail_within, text_tail};
use crate::version::UpdateInfo;

verus! {

/// What `str::to_lowercase` makes of a text.
pub uninterp spec fn to_lowercase_text(s: Seq<char>) -> Seq<char>;

/// `str::to_lowercase`: the lowercase form of `s` by Unicode's rules. Only
/// its being the named result is claimed.
#[verifier::external_body]
fn lowercase(s: &str) -> (r: String)
    ensures
        r@ == to_lowercase_text(s@),
{
    s.to_lowercase()
}

/// Whether some locale, lowercased, starts with `zh`.
pub open spec fn any_chinese_locale(locales: Seq<Seq<char>>) -> bool {
    exists|i: int| 0 <= i < locales.len() && has_prefix(to_lowercase_text(#[trigger] locales[i]), "zh"@)
}

impl I18n {
    /// The language for the user's preferred locales: Simplified Chinese
    /// when any of them is a `zh*` locale, English otherwise.
    pub fn from_locales(locales: &Vec<String>) -> (r: I18n)
        ensures
            r.is_zh == any_chinese_locale(crate::text::strings(locales@)),
    {
        let ghost lv = crate::text::strings(locales@);
        let mut i: usize = 0;
        while i < locales.len()
            invariant
                i <= locales@.len(),
                lv == crate::text::strings(locales@),
                forall|j: int| 0 <= j < i ==> !has_prefix(to_lowercase_text(#[trigger] lv[j]), "zh"@),
            decreases locales.len() - i,
        {
            let low = lowercase(locales[i].as_str());
            let cs = chars_of(low.as_str());
            if has_prefix_chars(&cs, "zh") {
                assert(has_prefix(to_lowercase_text(lv[i as int]), "zh"@));
                return I18n { is_zh: true };
            }
            i = i + 1;
        }
        I18n { is_zh: false }
    }
}

/// A piece of menu text.
#[derive(Clone, Copy, Debug, PartialEq, Eq)]
pub enum Label {
    /// The app's name, the same in every language.
    AppName,
    CheckUpdates,
    About,
    Services,
    HideApp,
    HideOthers,
    ShowAll,
    Quit,
    Help,
    Feedback,
    ExportLogs,
    HelpMenu,
    EditMenu,
    Undo,
    Redo,
    Cut,
    Copy,
    Paste,
    SelectAll,
    FileMenu,
    CloseWindow,
    ViewMenu,
    EnterFullScreen,
    WindowMenu,
    Minimize,
    Zoom,
}

/// The text of a label in the chosen language.
pub open spec fn label_spec(is_zh: bool, label: Label) -> Seq<char> {
    match label {
        Label::AppName => "DeepSeek Harness"@,
        Label::CheckUpdates => text_check_updates(is_zh),
        Label::About => text_about(is_zh),
        Label::Services => text_services(is_zh),
        Label::HideApp => text_hide_app(is_zh),
        Label::HideOthers => text_hide_others(is_zh),
        Label::ShowAll => text_show_all(is_zh),
        Label::Quit => text_quit(is_zh),
        Label::Help => text_help(is_zh),
        Label::Feedback => text_feedback(is_zh),
        Label::ExportLogs => text_export_logs(is_zh),
        Label::HelpMenu => text_help_menu(is_zh),
        Label::EditMenu => text_edit_menu(is_zh),
        Label::Undo => text_undo(is_zh),
        Label::Redo => text_redo(is_zh),
        Label::Cut => text_cut(is_zh),
        Label::Copy => text_copy(is_zh),
        Label::Paste => text_paste(is_zh),
        Label::SelectAll => text_select_all(is_zh),
        Label::FileMenu => text_file_menu(is_zh),
        Label::CloseWindow => text_close_window(is_zh),
        Label::ViewMenu => text_view_menu(is_zh),
        Label::EnterFullScreen => text_enter_full_screen(is_zh),
        Label::WindowMenu => text_window_menu(is_zh),
        Label::Minimize => text_minimize(is_zh),
        Label::Zoom => text_zoom(is_zh),
    }
}

impl I18n {
    /// The text of a label.
    pub fn label(&self, label: Label) -> (r: &'static str)
        ensures
            r@ == label_spec(self.is_zh, label),
    {
        match label {
            Label::AppName => "DeepSeek Harness",
            Label::CheckUpdates => self.check_updates(),
            Label::About => self.about(),
            Label::Services => self.services(),
            Label::HideApp => self.hide_app(),
            Label::HideOthers => self.hide_others(),
            Label::ShowAll => self.show_all(),
            Label::Quit => self.quit(),
            Label::Help => self.help(),
            Label::Feedback => self.feedback(),
            Label::ExportLogs => self.export_logs(),
            Label::HelpMenu => self.help_menu(),
            Label::EditMenu => self.edit_menu(),
            Label::Undo => self.undo(),
            Label::Redo => self.redo(),
            Label::Cut => self.cut(),
            Label::Copy => self.copy(),
            Label::Paste => self.paste(),
            Label::SelectAll => self.select_all(),
            Label::FileMenu => self.file_menu(),
            Label::CloseWindow => self.close_window(),
            Label::ViewMenu => self.view_menu(),
            Label::EnterFullScreen => self.enter_full_screen(),
            Label::WindowMenu => self.window_menu(),
            Label::Minimize => self.minimize(),
            Label::Zoom => self.zoom(),
        }
    }
}

/// Menu items the platform provides, each with its localized label.
#[derive(Clone, Copy, Debug, PartialEq, Eq)]
pub enum Predefined {
    Services,
    Hide,
    HideOthers,
    ShowAll,
    Quit,
    Undo,
    Redo,
    Cut,
    Copy,
    Paste,
    SelectAll,
    CloseWindow,
    Fullscreen,
    Minimize,
    Maximize,
}

/// One entry of a native menu.
#[derive(Clone, Copy, Debug, PartialEq, Eq)]
pub enum MenuEntry {
    /// An item of the app's own, reported back by `id` when chosen.
    Item { id: &'static str, label: Label },
    Separator,
    Predefined { kind: Predefined, label: Label },
}

/// A submenu of the native menu bar.
pub struct Submenu {
    pub title: Label,
    pub entries: Vec<MenuEntry>,
}

/// The native menu bar (used off Windows): the app menu (about, check for
/// updates, services, hide / hide others / show all, quit), then File,
/// Edit, View, Window and Help.
pub open spec fn native_menu_layout() -> Seq<(Label, Seq<MenuEntry>)> {
    seq![
        (Label::AppName, seq![
            MenuEntry::Item { id: "about", label: Label::About },
            MenuEntry::Item { id: "check_updates", label: Label::CheckUpdates },
            MenuEntry::Separator,
            MenuEntry::Predefined { kind: Predefined::Services, label: Label::Services },
            MenuEntry::Separator,
            MenuEntry::Predefined { kind: Predefined::Hide, label: Label::HideApp },
            MenuEntry::Predefined { kind: Predefined::HideOthers, label: Label::HideOthers },
            MenuEntry::Predefined { kind: Predefined::ShowAll, label: Label::ShowAll },
            MenuEntry::Separator,
            MenuEntry::Predefined { kind: Predefined::Quit, label: Label::Quit },
        ]),
        (Label::FileMenu, seq![
            MenuEntry::Predefined { kind: Predefined::CloseWindow, label: Label::CloseWindow },
        ]),
        (Label::EditMenu, seq![
            MenuEntry::Predefined { kind: Predefined::Undo, label: Label::Undo },
            MenuEntry::Predefined { kind: Predefined::Redo, label: Label::Redo },
            MenuEntry::Separator,
            MenuEntry::Predefined { kind: Predefined::Cut, label: Label::Cut },
            MenuEntry::Predefined { kind: Predefined::Copy, label: Label::Copy },
            MenuEntry::Predefined { kind: Predefined::Paste, label: Label::Paste },
            MenuEntry::Separator,
            MenuEntry::Predefined { kind: Predefined::SelectAll, label: Label::SelectAll },
        ]),
        (Label::ViewMenu, seq![
            MenuEntry::Predefined { kind: Predefined::Fullscreen, label: Label::EnterFullScreen },
        ]),
        (Label::WindowMenu, seq![
            MenuEntry::Predefined { kind: Predefined::Minimize, label: Label::Minimize },
            MenuEntry::Predefined { kind: Predefined::Maximize, label: Label::Zoom },
            MenuEntry::Separator,
            MenuEntry::Predefined { kind: Predefined::CloseWindow, label: Label::CloseWindow },
        ]),
        (Label::HelpMenu, seq![
            MenuEntry::Item { id: "help", label: Label::Help },
            MenuEntry::Item { id: "feedback", label: Label::Feedback },
            MenuEntry::Item { id: "export_logs", label: Label::ExportLogs },
        ]),
    ]
}

pub open spec fn submenu_views(v: Seq<Submenu>) -> Seq<(Label, Seq<MenuEntry>)> {
    v.map_values(|m: Submenu| (m.title, m.entries@))
}

/// The native menu bar's submenus (see [`native_menu_layout`]).
pub fn native_menu() -> (r: Vec<Submenu>)
    ensures
        submenu_views(r@) == native_menu_layout(),
{
    let app = Submenu {
        title: Label::AppName,
        entries: vec![
            MenuEntry::Item { id: "about", label: Label::About },
            MenuEntry::Item { id: "check_updates", label: Label::CheckUpdates },
            MenuEntry::Separator,
            MenuEntry::Predefined { kind: Predefined::Services, label: Label::Services },
            MenuEntry::Separator,
            MenuEntry::Predefined { kind: Predefined::Hide, label: Label::HideApp },
            MenuEntry::Predefined { kind: Predefined::HideOthers, label: Label::HideOthers },
            MenuEntry::Predefined { kind: Predefined::ShowAll, label: Label::ShowAll },
            MenuEntry::Separator,
            MenuEntry::Predefined { kind: Predefined::Quit, label: Label::Quit },
        ],
    };
    let file = Submenu {
        title: Label::FileMenu,
        entries: vec![MenuEntry::Predefined { kind: Predefined::CloseWindow, label: Label::CloseWindow }],
    };
    let edit = Submenu {
        title: Label::EditMenu,
        entries: vec![
            MenuEntry::Predefined { kind: Predefined::Undo, label: Label::Undo },
            MenuEntry::Predefined { kind: Predefined::Redo, label: Label::Redo },
            MenuEntry::Separator,
            MenuEntry::Predefined { kind: Predefined::Cut, label: Label::Cut },
            MenuEntry::Predefined { kind: Predefined::Copy, label: Label::Copy },
            MenuEntry::Predefined { kind: Predefined::Paste, label: Label::Paste },
            MenuEntry::Separator,
            MenuEntry::Predefined { kind: Predefined::SelectAll, label: Label::SelectAll },
        ],
    };
    let view = Submenu {
        title: Label::ViewMenu,
        entries: vec![MenuEntry::Predefined { kind: Predefined::Fullscreen, label: Label::EnterFullScreen }],
    };
    let window = Submenu {
        title: Label::WindowMenu,
        entries: vec![
            MenuEntry::Predefined { kind: Predefined::Minimize, label: Label::Minimize },
            MenuEntry::Predefined { kind: Predefined::Maximize, label: Label::Zoom },
            MenuEntry::Separator,
            MenuEntry::Predefined { kind: Predefined::CloseWindow, label: Label::CloseWindow },
        ],
    };
    let help = Submenu {
        title: Label::HelpMenu,
        entries: vec![
            MenuEntry::Item { id: "help", label: Label::Help },
            MenuEntry::Item { id: "feedback", label: Label::Feedback },
            MenuEntry::Item { id: "export_logs", label: Label::ExportLogs },
        ],
    };
    let r = vec![app, file, edit, view, window, help];
    assert(submenu_views(r@) =~~= native_menu_layout());
    r
}

/// The project's home page.
pub const REPO_URL: &'static str = "https://github.com/hialuoy/deepseek-harness-desktop";

/// Where feedback is filed.
pub const FEEDBACK_URL: &'static str = "https://github.com/hialuoy/deepseek-harness-desktop/issues/new";

/// What a menu choice asks for.
#[derive(Clone, Copy, Debug, PartialEq, Eq)]
pub enum MenuCommand {
    /// Show the about dialog.
    About,
    /// Open a page in the browser.
    OpenUrl(&'static str),
    /// Save a copy of the log file.
    ExportLogs,
    /// Check dsh and the app for updates.
    CheckUpdates,
    /// Stop dsh and quit.
    Quit,
    /// Nothing (an id this app does not handle).
    Ignore,
}

pub open spec fn menu_command_spec(id: Seq<char>) -> MenuCommand {
    if id == "about"@ {
        MenuCommand::About
    } else if id == "help"@ {
        MenuCommand::OpenUrl(REPO_URL)
    } else if id == "feedback"@ {
        MenuCommand::OpenUrl(FEEDBACK_URL)
    } else if id == "export_logs"@ {
        MenuCommand::ExportLogs
    } else if id == "check_updates"@ {
        MenuCommand::CheckUpdates
    } else if id == "quit"@ {
        MenuCommand::Quit
    } else {
        MenuCommand::Ignore
    }
}

/// The command of a menu item id (from the native menu or the custom
/// title bar).
pub fn menu_command(id: &str) -> (r: MenuCommand)
    ensures
        r == menu_command_spec(id@),
{
    if str_eq(id, "about") {
        MenuCommand::About
    } else if str_eq(id, "help") {
        MenuCommand::OpenUrl(REPO_URL)
    } else if str_eq(id, "feedback") {
        MenuCommand::OpenUrl(FEEDBACK_URL)
    } else if str_eq(id, "export_logs") {
        MenuCommand::ExportLogs
    } else if str_eq(id, "check_updates") {
        MenuCommand::CheckUpdates
    } else if str_eq(id, "quit") {
        MenuCommand::Quit
    } else {
        MenuCommand::Ignore
    }
}

/// Icon of a message dialog.
#[derive(Clone, Copy, Debug, PartialEq, Eq)]
pub enum DialogKind {
    Info,
    Error,
}

/// A message dialog. With `yes_no` it asks a question whose "Yes" goes on
/// with the action the message offers.
pub struct Dialog {
    pub title: String,
    pub message: String,
    pub kind: DialogKind,
    pub yes_no: bool,
}

/// A dialog as plain values: title, message, kind, whether it asks yes/no.
pub open spec fn dialog_view(d: Dialog) -> (Seq<char>, Seq<char>, DialogKind, bool) {
    (d.title@, d.message@, d.kind, d.yes_no)
}

fn dialog(title: &str, message: String, kind: DialogKind, yes_no: bool) -> (r: Dialog)
    ensures
        dialog_view(r) == (title@, message@, kind, yes_no),
{
    Dialog { title: String::from_str(title), message, kind, yes_no }
}

impl I18n {
    /// The about dialog for app version `version`.
    pub fn about_dialog(&self, version: &str) -> (r: Dialog)
        ensures
            dialog_view(r) == (text_about(self.is_zh), text_about_msg(self.is_zh, version@), DialogKind::Info, false),
    {
        dialog(self.about(), self.about_msg(version), DialogKind::Info, false)
    }

    /// After a dsh version check: offer the upgrade when one is available,
    /// else say dsh is up to date.
    pub fn dsh_update_dialog(&self, info: &UpdateInfo) -> (r: Dialog)
        ensures
            dialog_view(r) == if info.update_available {
                (text_update_available_title(self.is_zh), text_update_available_msg(self.is_zh, info.current@, info.latest@),
                    DialogKind::Info, true)
            } else {
                (text_up_to_date_title(self.is_zh), text_up_to_date_msg(self.is_zh, info.current@), DialogKind::Info, false)
            },
    {
        if info.update_available {
            dialog(
                self.update_available_title(),
                self.update_available_msg(info.current.as_str(), info.latest.as_str()),
                DialogKind::Info,
                true,
            )
        } else {
            dialog(self.up_to_date_title(), self.up_to_date_msg(info.current.as_str()), DialogKind::Info, false)
        }
    }
}

/// Bytes kept from the end of a failure log shown in a dialog.
pub const DIALOG_TAIL_BYTES: usize = 1500;

/// The shown end of a failure log: its longest suffix of at most
/// [`DIALOG_TAIL_BYTES`] UTF-8 bytes. Where the last [`DIALOG_TAIL_BYTES`]
/// bytes start on a character boundary that is exactly those bytes (see
/// `output::law_tail_is_the_byte_cut`); where they do not, the cut moves to
/// the next character boundary instead of splitting a character.
pub open spec fn dialog_tail(text: Seq<char>) -> Seq<char> {
    tail_within(text, DIALOG_TAIL_BYTES as nat)
}

/// What an upgrade run's result is shown as.
pub open spec fn upgrade_dialog_ok(r: Dialog, is_zh: bool, result: Result<(bool, String), String>) -> bool {
    match result {
        Err(e) => dialog_view(r) == (text_upgrade_title(is_zh), text_upgrade_error_msg(is_zh, e@), DialogKind::Error, false),
        Ok((true, _)) => dialog_view(r) == (text_upgrade_title(is_zh), text_upgrade_success_msg(is_zh), DialogKind::Info, true),
        Ok((false, out)) => dialog_view(r) == (
            text_upgrade_title(is_zh),
            text_upgrade_failed_msg(is_zh, dialog_tail(cleaned_text(out@))),
            DialogKind::Error,
            false,
        ),
    }
}

/// Outcome of checking the updater endpoint for a newer app release.
pub enum AppUpdateCheck {
    /// A newer release is published: its version.
    Available(String),
    /// The running app is the newest release.
    UpToDate,
    /// The check failed (endpoint unreachable, manifest missing): why.
    Failed(String),
}

impl I18n {
    /// How an upgrade run's result is shown: an error dialog when it could
    /// not run; on success an offer to restart; on failure the end of its
    /// cleaned output (see [`dialog_tail`]).
    pub fn upgrade_result_dialog(&self, result: &Result<(bool, String), String>) -> (r: Dialog)
        ensures
            upgrade_dialog_ok(r, self.is_zh, *result),
    {
        match result {
            Err(e) => dialog(self.upgrade_title(), self.upgrade_error_msg(e.as_str()), DialogKind::Error, false),
            Ok((true, _)) => dialog(self.upgrade_title(), self.upgrade_success_msg(), DialogKind::Info, true),
            Ok((false, out)) => {
                let cleaned = clean_output(out.as_str());
                let tail = text_tail(cleaned.as_str(), DIALOG_TAIL_BYTES);
                dialog(self.upgrade_title(), self.upgrade_failed_msg(tail.as_str()), DialogKind::Error, false)
            },
        }
    }

    /// After an app update check: offer to install a newer release; when
    /// the app is current, say so only for a check the user asked for
    /// (`manual`); a failed check shows nothing.
    pub fn app_update_dialog(&self, check: &AppUpdateCheck, current: &str, manual: bool) -> (r: Option<Dialog>)
        ensures
            match *check {
                AppUpdateCheck::Available(latest) => r matches Some(d) && dialog_view(d) == (
                    text_app_update_title(self.is_zh),
                    text_app_update_msg(self.is_zh, current@, latest@),
                    DialogKind::Info,
                    true,
                ),
                AppUpdateCheck::UpToDate => if manual {
                    r matches Some(d) && dialog_view(d) == (
                        text_up_to_date_title(self.is_zh),
                        text_app_up_to_date_msg(self.is_zh, current@),
                        DialogKind::Info,
                        false,
                    )
                } else {
                    r is None
                },
                AppUpdateCheck::Failed(_) => r is None,
            },
    {
        match check {
            AppUpdateCheck::Available(latest) => Some(
                dialog(self.app_update_title(), self.app_update_msg(current, latest.as_str()), DialogKind::Info, true),
            ),
            AppUpdateCheck::UpToDate => if manual {
                Some(dialog(self.up_to_date_title(), self.app_up_to_date_msg(current), DialogKind::Info, false))
            } else {
                None
            },
            AppUpdateCheck::Failed(_) => None,
        }
    }

    /// Installing an app update failed with `e`.
    pub fn app_update_failed_dialog(&self, e: &str) -> (r: Dialog)
        ensures
            dialog_view(r) == (text_app_update_title(self.is_zh), text_app_update_failed_msg(self.is_zh, e@), DialogKind::Error, false),
    {
        dialog(self.app_update_title(), self.app_update_failed_msg(e), DialogKind::Error, false)
    }

    /// Exporting the log failed with `e`.
    pub fn export_logs_failed_dialog(&self, e: &str) -> (r: Dialog)
        ensures
            dialog_view(r) == (text_export_logs(self.is_zh), text_export_logs_failed_msg(self.is_zh, e@), DialogKind::Error, false),
    {
        dialog(self.export_logs(), self.export_logs_failed_msg(e), DialogKind::Error, false)
    }

    /// dsh could not be started (`detail`); the app quits after this.
    pub fn start_failed_dialog(&self, detail: &str) -> (r: Dialog)
        ensures
            dialog_view(r) == ("DeepSeek Harness"@, text_start_failed_msg(self.is_zh, detail@), DialogKind::Error, false),
    {
        dialog("DeepSeek Harness", self.start_failed_msg(detail), DialogKind::Error, false)
    }

    /// First-launch setup failed with `error`: the end of it and an offer
    /// to retry ("No" quits); see [`dialog_tail`].
    pub fn bootstrap_failed_dialog(&self, error: &str) -> (r: Dialog)
        ensures
            dialog_view(r) == (
                text_bootstrap_failed_title(self.is_zh),
                text_bootstrap_failed_msg(self.is_zh, dialog_tail(error@)),
                DialogKind::Error,
                true,
            ),
    {
        let tail = text_tail(error, DIALOG_TAIL_BYTES);
        dialog(self.bootstrap_failed_title(), self.bootstrap_failed_msg(tail.as_str()), DialogKind::Error, true)
    }
}

/// Why first-launch setup ends without a toolchain when the user declines
/// to retry.
pub const BOOTSTRAP_CANCELLED: &'static str = "bootstrap cancelled by user";

/// Whether first-launch setup must run: only when there is neither a
/// complete private toolchain nor a system Node.js new enough.
pub fn needs_bootstrap(private_complete: bool, system_node_ok: bool) -> (r: bool)
    ensures
        r == (!private_complete && !system_node_ok),
{
    !private_complete && !system_node_ok
}

/// What the setup loop does after the user answers the failure dialog:
/// `Ok` to install again, else the cancellation error.
pub fn bootstrap_retry_decision(retry: bool) -> (r: Result<(), String>)
    ensures
        retry ==> r is Ok,
        !retry ==> r is Err && r->Err_0@ == BOOTSTRAP_CANCELLED@,
{
    if retry {
        Ok(())
    } else {
        Err(String::from_str(BOOTSTRAP_CANCELLED))
    }
}

/// Toggling a window's maximized or full-screen state, given whether it is
/// in that state now (`None` when the window could not tell): the state to
/// set, if any, and the state reported back to the page.
pub fn toggle_decision(current: Option<bool>) -> (r: (Option<bool>, bool))
    ensures
        r == match current {
            Some(on) => (Some(!on), !on),
            None => (None::<bool>, false),
        },
{
    match current {
        Some(on) => (Some(!on), !on),
        None => (None, false),
    }
}

/// Window events the shell reacts to.
#[derive(Clone, Copy, Debug, PartialEq, Eq)]
pub enum WindowEvent {
    CloseRequested,
    Destroyed,
    Other,
}

/// What the shell does about a window event.
#[derive(Clone, Copy, Debug, PartialEq, Eq)]
pub enum WindowAction {
    /// Keep the window open (the bootstrap window cannot be closed while
    /// setup runs).
    PreventClose,
    /// Stop dsh and exit (the main window is gone).
    Shutdown,
    Nothing,
}

/// The reaction to `event` on the window labelled `label`.
pub fn window_event_action(label: &str, event: WindowEvent) -> (r: WindowAction)
    ensures
        r == if event == WindowEvent::CloseRequested && label@ == "bootstrap"@ {
            WindowAction::PreventClose
        } else if event == WindowEvent::Destroyed && label@ == "main"@ {
            WindowAction::Shutdown
        } else {
            WindowAction::Nothing
        },
{
    match event {
        WindowEvent::CloseRequested => if str_eq(label, "bootstrap") {
            WindowAction::PreventClose
        } else {
            WindowAction::Nothing
        },
        WindowEvent::Destroyed => if str_eq(label, "main") {
            WindowAction::Shutdown
        } else {
            WindowAction::Nothing
        },
        WindowEvent::Other => WindowAction::Nothing,
    }
}

} // verus!
