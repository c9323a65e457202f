//! The HTML pages the desktop shell serves to its windows while dsh is not
//! yet running.
use vstd::prelude::*;

use crate::bootstrap::Step;
use crate::json::{json_string, json_string_literal};

verus! {

/// Progress page of the first-launch bootstrap window; the page defines
/// `window.__dsbUpdate(state, percent)` to show a step and its progress.
pub const BOOTSTRAP_HTML: &'static str = r#"<!DOCTYPE html>
<html lang="en">
<head>
<meta charset="UTF-8" />
<title>DeepSeek Harness Setup</title>
<style>
body { font-family: -apple-system, BlinkMacSystemFont, "Segoe UI", sans-serif; background: #ffffff; color: #333333; margin: 0; display: flex; align-items: center; justify-content: center; height: 100vh; }
.wrap { width: 80%; }
p { font-size: 15px; text-align: center; margin: 0 0 18px; }
.bar { height: 6px; background: #e5e5e5; border-radius: 3px; overflow: hidden; }
#fill { height: 100%; width: 0; background: #4c8dff; border-radius: 3px; transition: width .2s ease; }
#fill.indeterminate { width: 40%; animation: slide 1.2s ease-in-out infinite; }
@keyframes slide { 0% { margin-left: -40%; } 100% { margin-left: 100%; } }
</style>
</head>
<body>
<div class="wrap">
  <p id="status">Preparing&hellip;</p>
  <div class="bar"><div id="fill"></div></div>
</div>
<script>
window.__dsbUpdate = function(state, percent) {
  document.getElementById('status').textContent = state;
  var fill = document.getElementById('fill');
  if (percent === null) {
    fill.classList.add('indeterminate');
  } else {
    fill.classList.remove('indeterminate');
    fill.style.width = Math.round(percent * 100) + '%';
  }
};
</script>
</body>
</html>"#;

/// Loading page shown while dsh starts in the background.
pub const LOADING_HTML: &'static str = r#"<!DOCTYPE html>
<html lang="en">
<head>
<meta charset="UTF-8" />
<title>DeepSeek Harness</title>
<style>
:root {
  --boot-bg: #fff;
  --boot-label-primary: #0f1115;
  --boot-label-tertiary: #81858c;
  --boot-border: rgb(0 0 0 / 10%);
  --boot-brand: #0f1115;
}
@media (prefers-color-scheme: dark) {
  :root {
    --boot-bg: #151517;
    --boot-label-primary: #f9fafb;
    --boot-label-tertiary: #adb2b8;
    --boot-border: rgb(255 255 255 / 12%);
    --boot-brand: #f9fafb;
  }
}
html, body { height: 100%; margin: 0; }
body {
  font-family: -apple-system, BlinkMacSystemFont, "Segoe UI", "PingFang SC", "Hiragino Sans GB", "Microsoft YaHei", "Helvetica Neue", Helvetica, Arial, sans-serif;
  -webkit-font-smoothing: antialiased;
  -moz-osx-font-smoothing: grayscale;
  color: var(--boot-label-primary);
  background: var(--boot-bg);
}
.boot { height: 100%; display: grid; place-items: center; }
.card { display: flex; flex-direction: column; align-items: center; gap: 16px; }
.wordmark { font-size: 16px; line-height: 24px; font-weight: 600; letter-spacing: 0.08em; color: var(--boot-label-primary); }
.hint { font-size: 12px; line-height: 18px; color: var(--boot-label-tertiary); }
.spinner {
  position: relative;
  width: 20px;
  height: 20px;
  border-radius: 50%;
  border: 2px solid var(--boot-border);
  animation: spin 0.8s linear infinite;
}
.spinner::after {
  content: '';
  position: absolute;
  inset: -2px;
  border-radius: inherit;
  background: conic-gradient(var(--boot-brand) var(--boot-arc, 72deg), transparent 0);
  -webkit-mask: radial-gradient(farthest-side, transparent calc(100% - 2px), #000 0);
  mask: radial-gradient(farthest-side, transparent calc(100% - 2px), #000 0);
}
@keyframes spin { to { transform: rotate(360deg); } }
</style>
</head>
<body>
<div class="boot">
  <div class="card">
    <div class="wordmark">HARNESS</div>
    <div class="spinner"></div>
    <div class="hint">Starting…</div>
  </div>
</div>
</body>
</html>"#;

/// The call `window.__dsbUpdate({message}, {percent})` of the bootstrap
/// page; `message` is a JavaScript string literal, and a missing percent is
/// `null` (an indeterminate bar).
pub open spec fn progress_call(message_literal: Seq<char>, percent: Option<Seq<char>>) -> Seq<char> {
    "window.__dsbUpdate("@ + message_literal + ", "@ + match percent {
        Some(p) => p,
        None => "null"@,
    } + ")"@
}

/// The bootstrap page call for a message already written as a string
/// literal and a percentage already written as a number.
pub fn progress_call_script(message_literal: &str, percent: Option<&str>) -> (r: String)
    ensures
        r@ == progress_call(message_literal@, match percent {
            Some(p) => Some(p@),
            None => None,
        }),
{
    let mut out = String::from_str("window.__dsbUpdate(");
    out.append(message_literal);
    out.append(", ");
    match percent {
        Some(p) => out.append(p),
        None => out.append("null"),
    }
    out.append(")");
    out
}

/// The bootstrap page call that shows `message`, as a JSON string literal,
/// and `percent`.
pub fn progress_update_script(message: &str, percent: Option<&str>) -> (r: String)
    ensures
        r@ == progress_call(json_string_literal(message@), match percent {
            Some(p) => Some(p@),
            None => None,
        }),
{
    let lit = json_string(message);
    progress_call_script(lit.as_str(), percent)
}

/// The one-shot "this takes a while" notice: it is scheduled the first time
/// the install step is reported. Given the reported step and whether it was
/// already scheduled, returns whether to schedule it now and the new
/// scheduled flag.
pub fn slow_notice_due(step: Step, armed: bool) -> (r: (bool, bool))
    ensures
        r == if step == Step::Install && !armed {
            (true, true)
        } else {
            (false, armed)
        },
{
    match step {
        Step::Install => if armed {
            (false, true)
        } else {
            (true, true)
        },
        _ => (false, armed),
    }
}

} // verus!
