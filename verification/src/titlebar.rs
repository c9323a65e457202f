//! The title bar that the Windows build draws in the page itself: a script
//! template filled with the localized menu labels (as a JSON object) and
//! the application icon (as a data URL).
use vstd::prelude::*;

use crate::base64::{base64_encode, base64_text};
use crate::i18n::{
    text_about, text_check_updates, text_close_window, text_copy, text_cut, text_edit_menu, text_enter_full_screen, text_export_logs, text_feedback, text_file_menu, text_help, text_help_menu, text_minimize, text_paste, text_quit, text_redo, text_select_all, text_undo, text_view_menu, text_window_menu, text_zoom,
};
use crate::text::{chars_of, has_prefix, occurs_at, occurs_at_exec, push_char};
use crate::i18n::I18n;
use crate::json::{json_object_string, json_object_text};
use crate::version::pair_views;

verus! {

/// Injected script template: `__LABELS__` stands for the labels object and
/// `__APP_ICON__` for the icon's data URL.
pub const TITLEBAR_SCRIPT_TEMPLATE: &'static str = r#"(function () {
  if (window.__DSH_TITLEBAR__) return;
  window.__DSH_TITLEBAR__ = true;

  // 由 titlebar_script 注入的中英双语菜单文案。
  var LABELS = __LABELS__;
  var BAR_HEIGHT = 40;
  var maxBtnEl = null;

  // 通过 Tauri 内部 IPC 桥调用后端命令(与 withGlobalTauri 无关)。
  function invoke(cmd, args) {
    try {
      return window.__TAURI_INTERNALS__.invoke(cmd, args || {});
    } catch (e) {
      return Promise.reject(e);
    }
  }

  // 编辑类命令尽量贴近 WebView 原生编辑菜单行为。
  function exec(cmd) {
    return function () {
      try { document.execCommand(cmd); } catch (e) {}
    };
  }

  var CSS = [
    '#__dsh_titlebar__{--tb-bg:#f6f6f8;--tb-fg:#1b1b1f;--tb-hover:rgba(0,0,0,0.06);--tb-border:rgba(0,0,0,0.08);position:fixed;top:0;left:0;right:0;height:' + BAR_HEIGHT + 'px;display:flex;align-items:stretch;z-index:2147483000;background:var(--tb-bg);color:var(--tb-fg);font:13px/1 -apple-system,BlinkMacSystemFont,"Segoe UI","Microsoft YaHei",sans-serif;-webkit-user-select:none;user-select:none;}',
    '@media (prefers-color-scheme:dark){#__dsh_titlebar__{--tb-bg:#1f1f21;--tb-fg:#e9e9ec;--tb-hover:rgba(255,255,255,0.08);--tb-border:rgba(255,255,255,0.10);}}',
    '#__dsh_titlebar__ .tb-menus{display:flex;align-items:center;gap:2px;padding:0 8px;}',
    '#__dsh_titlebar__ .tb-menu{position:relative;display:flex;}',
    // 菜单按钮的悬浮背景尽量贴合文字(仅横向留少量余白),窗口按钮 .tb-wb 保持通高不变。
    '#__dsh_titlebar__ .tb-btn{display:flex;align-items:center;gap:7px;height:26px;padding:0 4px;border-radius:5px;background:none;border:none;color:inherit;font:inherit;cursor:pointer;}',
    '#__dsh_titlebar__ .tb-btn:hover,#__dsh_titlebar__ .tb-btn.open{background:var(--tb-hover);}',
    '#__dsh_titlebar__ .tb-app .tb-btn{font-weight:600;}',
    '#__dsh_titlebar__ .tb-appicon{width:16px;height:16px;border-radius:3px;display:block;pointer-events:none;}',
    '#__dsh_titlebar__ .tb-dropdown{position:absolute;top:calc(100% + 2px);left:0;min-width:232px;display:none;background:var(--tb-bg);border:1px solid var(--tb-border);border-radius:10px;box-shadow:0 12px 32px rgba(0,0,0,0.20);padding:6px;z-index:2147483001;}',
    '#__dsh_titlebar__ .tb-menu.open .tb-dropdown{display:block;}',
    '#__dsh_titlebar__ .tb-item{display:block;width:100%;padding:6px 10px;border-radius:4px;background:none;border:none;color:inherit;font:inherit;text-align:left;cursor:pointer;white-space:nowrap;}',
    '#__dsh_titlebar__ .tb-item:hover{background:var(--tb-hover);}',
    '#__dsh_titlebar__ .tb-sep{height:1px;margin:5px 8px;background:var(--tb-border);}',
    '#__dsh_titlebar__ .tb-drag{flex:1;}',
    '#__dsh_titlebar__ .tb-wins{display:flex;align-items:stretch;height:100%;}',
    '#__dsh_titlebar__ .tb-wb{display:flex;align-items:center;justify-content:center;width:46px;height:100%;border-radius:0;background:none;border:none;color:inherit;cursor:pointer;}',
    '#__dsh_titlebar__ .tb-wb:hover{background:var(--tb-hover);}',
    '#__dsh_titlebar__ .tb-wb.tb-close:hover{background:#e81123;color:#ffffff;}',
    '#__dsh_titlebar__ svg{display:block;}'
  ].join('\n');

  // 简洁自绘窗口按钮图标,随 currentColor 适配深浅主题;应用图标使用程序真实图标图片。
  var ICONS = {
    app: '__APP_ICON__',
    min: '<svg width="10" height="10" viewBox="0 0 10 10"><line x1="0" y1="5" x2="10" y2="5" stroke="currentColor" stroke-width="1"/></svg>',
    max: '<svg width="10" height="10" viewBox="0 0 10 10"><rect x="0.5" y="0.5" width="9" height="9" fill="none" stroke="currentColor" stroke-width="1"/></svg>',
    restore: '<svg width="10" height="10" viewBox="0 0 10 10"><path d="M2.5 2.5 V0.5 H9.5 V7.5 H7.5" fill="none" stroke="currentColor" stroke-width="1"/><rect x="0.5" y="2.5" width="7" height="7" fill="none" stroke="currentColor" stroke-width="1"/></svg>',
    close: '<svg width="10" height="10" viewBox="0 0 10 10"><path d="M0.5 0.5 L9.5 9.5 M9.5 0.5 L0.5 9.5" stroke="currentColor" stroke-width="1"/></svg>'
  };

  function item(label, action) { return { label: label, action: action }; }
  function separator() { return { separator: true }; }

  function buildMenus() {
    return [
      { label: '', icon: ICONS.app, items: [
        item(LABELS.about, function () { invoke('menu_action', { action: 'about' }); }),
        item(LABELS.checkUpdates, function () { invoke('menu_action', { action: 'check_updates' }); }),
        separator(),
        item(LABELS.quit, function () { invoke('menu_action', { action: 'quit' }); })
      ] },
      { label: LABELS.file, items: [
        item(LABELS.closeWindow, function () { invoke('window_close'); })
      ] },
      { label: LABELS.edit, items: [
        item(LABELS.undo, exec('undo')),
        item(LABELS.redo, exec('redo')),
        separator(),
        item(LABELS.cut, exec('cut')),
        item(LABELS.copy, exec('copy')),
        item(LABELS.paste, exec('paste')),
        separator(),
        item(LABELS.selectAll, exec('selectAll'))
      ] },
      { label: LABELS.view, items: [
        item(LABELS.fullscreen, function () { invoke('window_toggle_fullscreen'); })
      ] },
      { label: LABELS.windowMenu, items: [
        item(LABELS.minimize, function () { invoke('window_minimize'); }),
        item(LABELS.zoom, function () { toggleMaximize(); }),
        separator(),
        item(LABELS.closeWindow, function () { invoke('window_close'); })
      ] },
      { label: LABELS.help, items: [
        item(LABELS.helpItem, function () { invoke('menu_action', { action: 'help' }); }),
        item(LABELS.feedback, function () { invoke('menu_action', { action: 'feedback' }); }),
        item(LABELS.exportLogs, function () { invoke('menu_action', { action: 'export_logs' }); })
      ] }
    ];
  }

  function toggleMaximize() {
    invoke('window_toggle_maximize').then(function (isMax) {
      if (maxBtnEl) maxBtnEl.innerHTML = isMax ? ICONS.restore : ICONS.max;
    });
  }

  function closeAllMenus(root) {
    var open = root.querySelectorAll('.tb-menu.open');
    for (var i = 0; i < open.length; i++) open[i].classList.remove('open');
  }

  function mount() {
    if (document.getElementById('__dsh_titlebar__')) return;

    var style = document.createElement('style');
    style.textContent = CSS;
    (document.head || document.documentElement).appendChild(style);

    // 标题栏固定悬浮在顶部,内容区向下让出标题栏高度。
    document.body.style.boxSizing = 'border-box';
    document.body.style.paddingTop = BAR_HEIGHT + 'px';

    var bar = document.createElement('div');
    bar.id = '__dsh_titlebar__';

    var menusWrap = document.createElement('div');
    menusWrap.className = 'tb-menus';

    buildMenus().forEach(function (menu) {
      var holder = document.createElement('div');
      holder.className = menu.icon ? 'tb-menu tb-app' : 'tb-menu';

      var btn = document.createElement('button');
      btn.type = 'button';
      btn.className = 'tb-btn';
      if (menu.icon) {
        if (menu.icon.indexOf('data:') === 0) {
          var img = document.createElement('img');
          img.className = 'tb-appicon';
          img.src = menu.icon;
          img.alt = '';
          btn.appendChild(img);
        } else {
          var tmp = document.createElement('span');
          tmp.innerHTML = menu.icon;
          btn.appendChild(tmp);
        }
        if (menu.label) {
          var span = document.createElement('span');
          span.textContent = menu.label;
          btn.appendChild(span);
        }
      } else {
        btn.textContent = menu.label;
      }
      btn.addEventListener('click', function (e) {
        e.stopPropagation();
        var wasOpen = holder.classList.contains('open');
        closeAllMenus(bar);
        if (!wasOpen) holder.classList.add('open');
      });

      var dd = document.createElement('div');
      dd.className = 'tb-dropdown';
      menu.items.forEach(function (mi) {
        if (mi.separator) {
          var sep = document.createElement('div');
          sep.className = 'tb-sep';
          dd.appendChild(sep);
          return;
        }
        var it = document.createElement('button');
        it.type = 'button';
        it.className = 'tb-item';
        it.textContent = mi.label;
        it.addEventListener('click', function () {
          closeAllMenus(bar);
          mi.action();
        });
        dd.appendChild(it);
      });

      holder.appendChild(btn);
      holder.appendChild(dd);
      menusWrap.appendChild(holder);
    });

    var drag = document.createElement('div');
    drag.className = 'tb-drag';
    // 只有鼠标实际移动超过阈值才进入 OS 拖动循环:立即 start_dragging 会
    // 阻塞 JS 事件,导致空白区域双击切换最大化(全屏)永远不触发。
    drag.addEventListener('mousedown', function (e) {
      if (e.button !== 0) return;
      var startX = e.clientX, startY = e.clientY;
      function onMove(ev) {
        if (Math.abs(ev.clientX - startX) + Math.abs(ev.clientY - startY) > 3) {
          cleanup();
          invoke('window_start_dragging');
        }
      }
      function onUp() { cleanup(); }
      function cleanup() {
        document.removeEventListener('mousemove', onMove);
        document.removeEventListener('mouseup', onUp);
      }
      document.addEventListener('mousemove', onMove);
      document.addEventListener('mouseup', onUp);
    });
    drag.addEventListener('dblclick', toggleMaximize);

    var wins = document.createElement('div');
    wins.className = 'tb-wins';

    function winBtn(icon, extraClass, onClick) {
      var b = document.createElement('button');
      b.type = 'button';
      b.className = 'tb-wb' + (extraClass ? ' ' + extraClass : '');
      b.innerHTML = icon;
      b.addEventListener('click', onClick);
      return b;
    }

    var minBtn = winBtn(ICONS.min, '', function () { invoke('window_minimize'); });
    var maxBtn = winBtn(ICONS.max, '', toggleMaximize);
    maxBtnEl = maxBtn;
    var closeBtn = winBtn(ICONS.close, 'tb-close', function () { invoke('window_close'); });

    wins.appendChild(minBtn);
    wins.appendChild(maxBtn);
    wins.appendChild(closeBtn);

    bar.appendChild(menusWrap);
    bar.appendChild(drag);
    bar.appendChild(wins);

    document.body.appendChild(bar);

    document.addEventListener('click', function () { closeAllMenus(bar); });
  }

  if (document.readyState === 'loading') {
    document.addEventListener('DOMContentLoaded', mount);
  } else {
    mount();
  }
})();"#;

/// `s` with every occurrence of `from` replaced by `to`, scanning left to
/// right without overlaps (`str::replace`).
pub open spec fn replaced(s: Seq<char>, from: Seq<char>, to: Seq<char>) -> Seq<char>
    decreases s.len(),
{
    if s.len() == 0 || from.len() == 0 {
        s
    } else if has_prefix(s, from) {
        to + replaced(s.skip(from.len() as int), from, to)
    } else {
        seq![s[0]] + replaced(s.skip(1), from, to)
    }
}

/// Replaces every occurrence of the non-empty pattern `from` in `s` by `to`.
pub fn replace_all(s: &str, from: &str, to: &str) -> (r: String)
    requires
        from@.len() > 0,
    ensures
        r@ == replaced(s@, from@, to@),
{
    let cs = chars_of(s);
    let fs = chars_of(from);
    let mut out = String::new();
    let mut i: usize = 0;
    assert(s@.skip(0) == s@);
    while i < cs.len()
        invariant
            i <= cs@.len(),
            cs@ == s@,
            fs@ == from@,
            fs@.len() > 0,
            replaced(s@, from@, to@) == out@ + replaced(s@.skip(i as int), from@, to@),
        decreases cs.len() - i,
    {
        let ghost rest = s@.skip(i as int);
        if fs.len() <= cs.len() - i && occurs_at_exec(&cs, &fs, i) {
            assert(rest.take(from@.len() as int) == s@.subrange(i as int, i + from@.len()));
            assert(has_prefix(rest, from@));
            assert(rest.skip(from@.len() as int) == s@.skip(i + from@.len()));
            out.append(to);
            i = i + fs.len();
        } else {
            assert(!has_prefix(rest, from@)) by {
                if has_prefix(rest, from@) {
                    assert(rest.take(from@.len() as int) == s@.subrange(i as int, i + from@.len()));
                    assert(occurs_at(s@, from@, i as int));
                }
            }
            assert(rest[0] == cs@[i as int]);
            assert(rest.skip(1) == s@.skip(i + 1));
            push_char(&mut out, cs[i]);
            i = i + 1;
        }
    }
    assert(s@.skip(i as int).len() == 0);
    out
}

/// The labels the title bar's menus show, keyed as the script reads them.
pub open spec fn titlebar_labels(is_zh: bool) -> Seq<(Seq<char>, Seq<char>)> {
    seq![
        ("about"@, text_about(is_zh)),
        ("checkUpdates"@, text_check_updates(is_zh)),
        ("quit"@, text_quit(is_zh)),
        ("file"@, text_file_menu(is_zh)),
        ("closeWindow"@, text_close_window(is_zh)),
        ("edit"@, text_edit_menu(is_zh)),
        ("undo"@, text_undo(is_zh)),
        ("redo"@, text_redo(is_zh)),
        ("cut"@, text_cut(is_zh)),
        ("copy"@, text_copy(is_zh)),
        ("paste"@, text_paste(is_zh)),
        ("selectAll"@, text_select_all(is_zh)),
        ("view"@, text_view_menu(is_zh)),
        ("fullscreen"@, text_enter_full_screen(is_zh)),
        ("windowMenu"@, text_window_menu(is_zh)),
        ("minimize"@, text_minimize(is_zh)),
        ("zoom"@, text_zoom(is_zh)),
        ("help"@, text_help_menu(is_zh)),
        ("helpItem"@, text_help(is_zh)),
        ("feedback"@, text_feedback(is_zh)),
        ("exportLogs"@, text_export_logs(is_zh)),
    ]
}

/// The localized labels of the title bar's menus.
pub fn titlebar_label_members(i18n: &I18n) -> (r: Vec<(String, String)>)
    ensures
        pair_views(r@) == titlebar_labels(i18n.is_zh),
{
    let mut members: Vec<(String, String)> = Vec::new();
    members.push((String::from_str("about"), String::from_str(i18n.about())));
    members.push((String::from_str("checkUpdates"), String::from_str(i18n.check_updates())));
    members.push((String::from_str("quit"), String::from_str(i18n.quit())));
    members.push((String::from_str("file"), String::from_str(i18n.file_menu())));
    members.push((String::from_str("closeWindow"), String::from_str(i18n.close_window())));
    members.push((String::from_str("edit"), String::from_str(i18n.edit_menu())));
    members.push((String::from_str("undo"), String::from_str(i18n.undo())));
    members.push((String::from_str("redo"), String::from_str(i18n.redo())));
    members.push((String::from_str("cut"), String::from_str(i18n.cut())));
    members.push((String::from_str("copy"), String::from_str(i18n.copy())));
    members.push((String::from_str("paste"), String::from_str(i18n.paste())));
    members.push((String::from_str("selectAll"), String::from_str(i18n.select_all())));
    members.push((String::from_str("view"), String::from_str(i18n.view_menu())));
    members.push((String::from_str("fullscreen"), String::from_str(i18n.enter_full_screen())));
    members.push((String::from_str("windowMenu"), String::from_str(i18n.window_menu())));
    members.push((String::from_str("minimize"), String::from_str(i18n.minimize())));
    members.push((String::from_str("zoom"), String::from_str(i18n.zoom())));
    members.push((String::from_str("help"), String::from_str(i18n.help_menu())));
    members.push((String::from_str("helpItem"), String::from_str(i18n.help())));
    members.push((String::from_str("feedback"), String::from_str(i18n.feedback())));
    members.push((String::from_str("exportLogs"), String::from_str(i18n.export_logs())));
    assert(pair_views(members@) =~= titlebar_labels(i18n.is_zh));
    members
}

pub open spec fn icon_url_text(png: Seq<u8>) -> Seq<char> {
    "data:image/png;base64,"@ + base64_text(png)
}

/// The application icon (PNG bytes) as a `data:` URL.
pub fn icon_data_url(png: &[u8]) -> (r: String)
    ensures
        r@ == icon_url_text(png@),
{
    let mut out = String::from_str("data:image/png;base64,");
    let encoded = base64_encode(png);
    out.append(encoded.as_str());
    out
}

/// The title bar script for `i18n`'s language and the icon `png`: the
/// template with its labels placeholder replaced by the labels object and
/// then its icon placeholder by the icon's data URL.
pub fn titlebar_script(i18n: &I18n, png: &[u8]) -> (r: String)
    ensures
        r@ == replaced(
            replaced(TITLEBAR_SCRIPT_TEMPLATE@, "__LABELS__"@, json_object_text(titlebar_labels(i18n.is_zh))),
            "__APP_ICON__"@,
            icon_url_text(png@),
        ),
{
    proof {
        reveal_strlit("__LABELS__");
        reveal_strlit("__APP_ICON__");
    }
    let members = titlebar_label_members(i18n);
    let labels = json_object_string(&members);
    let with_labels = replace_all(TITLEBAR_SCRIPT_TEMPLATE, "__LABELS__", labels.as_str());
    let icon = icon_data_url(png);
    replace_all(with_labels.as_str(), "__APP_ICON__", icon.as_str())
}

} // verus!
