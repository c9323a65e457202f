//! The desktop log file: when it is rotated and how a line looks.
use vstd::prelude::*;

verus! {

/// Size above which the log is rotated at startup (1 MiB).
pub const LOG_MAX_BYTES: u64 = 1048576;

/// True when a log file of `size` bytes exceeds the rotation cap.
pub fn should_rotate(size: u64, cap: u64) -> (r: bool)
    ensures
        r == (size > cap),
{
    size > cap
}

/// A log line: `[{timestamp}] [{prefix}] {msg}`.
pub fn log_line_text(timestamp: &str, prefix: &str, msg: &str) -> (r: String)
    ensures
        r@ == "["@ + timestamp@ + "] ["@ + prefix@ + "] "@ + msg@,
{
    let mut s = String::from_str("[");
    s.append(timestamp);
    s.append("] [");
    s.append(prefix);
    s.append("] ");
    s.append(msg);
    s
}

} // verus!
