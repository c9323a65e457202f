//! UTC timestamps for log lines and exported log file names.
use vstd::prelude::*;

use crate::civil::{civil_alg, civil_from_days, lemma_civil_from_days_is_alg, lemma_yoe_bounds, yoe_of};
use crate::text::{
    chars_of, decimal, digit_char, lemma_padded_len, padded_int, push_char, push_padded_int, push_range,
};

verus! {

/// `YYYYMMDD-HHMMSS` for second `secs` after the UNIX epoch (UTC): the
/// calendar date of day `secs / 86400` and the time of day `secs % 86400`,
/// with the year zero-padded to four places and the rest to two.
pub open spec fn compact_text(secs: int) -> Seq<char> {
    let days = secs / 86400;
    let rem = secs % 86400;
    let date = civil_from_days(days);
    padded_int(date.0, 4) + padded_int(date.1, 2) + padded_int(date.2, 2) + seq!['-']
        + padded_int(rem / 3600, 2) + padded_int((rem % 3600) / 60, 2) + padded_int(rem % 60, 2)
}

/// `YYYYMMDD-HHMMSS` (UTC) for a UNIX timestamp.
pub fn timestamp_compact(secs: i64) -> (out: String)
    ensures
        out@ == compact_text(secs as int),
{
    let days: i64 = match secs.checked_div_euclid(86_400) {
        Some(q) => q,
        None => 0,
    };
    let rem: i64 = match secs.checked_rem_euclid(86_400) {
        Some(r) => r,
        None => 0,
    };
    assert(days == secs as int / 86400 && rem == secs as int % 86400);
    let z: i64 = days + 719_468;
    let era: i64 = match z.checked_div_euclid(146_097) {
        Some(q) => q,
        None => 0,
    };
    let doe_i: i64 = match z.checked_rem_euclid(146_097) {
        Some(r) => r,
        None => 0,
    };
    let doe: u64 = doe_i as u64;
    let yoe: u64 = (doe - doe / 1460 + doe / 36_524 - doe / 146_096) / 365;
    proof {
        assert(yoe as int == yoe_of(doe as int));
        lemma_yoe_bounds(doe as int);
    }
    let doy: u64 = doe - (365 * yoe + yoe / 4 - yoe / 100);
    let mp: u64 = (5 * doy + 2) / 153;
    let d: u64 = doy - (153 * mp + 2) / 5 + 1;
    let m: u64 = if mp < 10 { mp + 3 } else { mp - 9 };
    let y: i64 = yoe as i64 + era * 400 + if m <= 2 { 1i64 } else { 0i64 };
    proof {
        assert((y as int, m as int, d as int) == civil_alg(days as int));
        lemma_civil_from_days_is_alg(days as int);
    }
    let mut out = String::new();
    push_padded_int(&mut out, y, 4);
    push_padded_int(&mut out, m as i64, 2);
    push_padded_int(&mut out, d as i64, 2);
    push_char(&mut out, '-');
    push_padded_int(&mut out, rem / 3600, 2);
    push_padded_int(&mut out, (rem % 3600) / 60, 2);
    push_padded_int(&mut out, rem % 60, 2);
    out
}

pub(crate) proof fn lemma_compact_text_len(secs: int)
    ensures
        compact_text(secs).len() >= 15,
{
    let days = secs / 86400;
    let rem = secs % 86400;
    let date = civil_from_days(days);
    lemma_padded_len(date.0, 4);
    lemma_padded_len(date.1, 2);
    lemma_padded_len(date.2, 2);
    lemma_padded_len(rem / 3600, 2);
    lemma_padded_len((rem % 3600) / 60, 2);
    lemma_padded_len(rem % 60, 2);
}

/// The value of the decimal digit `c`.
pub open spec fn digit_value(c: char) -> int {
    c as int - 48
}

pub open spec fn is_digit(c: char) -> bool {
    '0' <= c && c <= '9'
}

proof fn lemma_two_digits(v: int)
    requires
        0 <= v < 100,
    ensures
        padded_int(v, 2).len() == 2,
        is_digit(padded_int(v, 2)[0]) && is_digit(padded_int(v, 2)[1]),
        digit_value(padded_int(v, 2)[0]) * 10 + digit_value(padded_int(v, 2)[1]) == v,
{
    let t = v / 10;
    let u = v % 10;
    assert(digit_value(digit_char(t)) == t && is_digit(digit_char(t)));
    assert(digit_value(digit_char(u)) == u && is_digit(digit_char(u)));
    if v < 10 {
        assert(decimal(v as nat) == seq![digit_char(v)]);
        assert(padded_int(v, 2) =~= seq!['0', digit_char(v)]);
    } else {
        assert(decimal(v as nat) == decimal((v / 10) as nat).push(digit_char(v % 10)));
        assert(decimal((v / 10) as nat) == seq![digit_char(t)]);
        assert(padded_int(v, 2) =~= seq![digit_char(t), digit_char(u)]);
    }
}

/// The compact text ends in `-HHMMSS`: its last six characters are decimal
/// digits that read as the hour, the minute and the second of `secs` within
/// its UTC day, in that order.
pub proof fn law_compact_time_of_day(secs: int)
    ensures ({
        let t = compact_text(secs);
        let n = t.len() as int;
        &&& n >= 15
        &&& t[n - 7] == '-'
        &&& forall|k: int| n - 6 <= k < n ==> is_digit(#[trigger] t[k])
        &&& digit_value(t[n - 6]) * 10 + digit_value(t[n - 5]) == (secs % 86400) / 3600
        &&& digit_value(t[n - 4]) * 10 + digit_value(t[n - 3]) == (secs % 3600) / 60
        &&& digit_value(t[n - 2]) * 10 + digit_value(t[n - 1]) == secs % 60
    }),
{
    lemma_compact_text_len(secs);
    let rem = secs % 86400;
    let hh = padded_int(rem / 3600, 2);
    let mm = padded_int((rem % 3600) / 60, 2);
    let ss = padded_int(rem % 60, 2);
    lemma_two_digits(rem / 3600);
    lemma_two_digits((rem % 3600) / 60);
    lemma_two_digits(rem % 60);
    let date = civil_from_days(secs / 86400);
    let front = padded_int(date.0, 4) + padded_int(date.1, 2) + padded_int(date.2, 2) + seq!['-'];
    let t = compact_text(secs);
    assert(t == front + hh + mm + ss);
    let n = t.len() as int;
    assert(n == front.len() + 6);
    assert(t[n - 7] == '-');
    assert(t[n - 6] == hh[0] && t[n - 5] == hh[1]);
    assert(t[n - 4] == mm[0] && t[n - 3] == mm[1]);
    assert(t[n - 2] == ss[0] && t[n - 1] == ss[1]);
    vstd::arithmetic::div_mod::lemma_mod_mod(secs, 3600, 24);
    vstd::arithmetic::div_mod::lemma_mod_mod(secs, 60, 1440);
}

/// `YYYY-MM-DD HH:MM:SS.mmm`: the fields of [`compact_text`] taken by
/// position and joined with separators, then the milliseconds padded to three
/// places.
pub open spec fn log_timestamp_text(secs: int, millis: int) -> Seq<char> {
    let b = compact_text(secs);
    b.subrange(0, 4) + seq!['-'] + b.subrange(4, 6) + seq!['-'] + b.subrange(6, 8) + seq![' ']
        + b.subrange(9, 11) + seq![':'] + b.subrange(11, 13) + seq![':'] + b.subrange(13, 15)
        + seq!['.'] + padded_int(millis, 3)
}

/// Log timestamp `YYYY-MM-DD HH:MM:SS.mmm` (UTC) from UNIX seconds and a
/// millisecond part.
pub fn format_timestamp(secs: i64, millis: u32) -> (out: String)
    ensures
        out@ == log_timestamp_text(secs as int, millis as int),
{
    let base = timestamp_compact(secs);
    let cs = chars_of(base.as_str());
    proof {
        lemma_compact_text_len(secs as int);
    }
    let mut out = String::new();
    push_range(&mut out, &cs, 0, 4);
    push_char(&mut out, '-');
    push_range(&mut out, &cs, 4, 6);
    push_char(&mut out, '-');
    push_range(&mut out, &cs, 6, 8);
    push_char(&mut out, ' ');
    push_range(&mut out, &cs, 9, 11);
    push_char(&mut out, ':');
    push_range(&mut out, &cs, 11, 13);
    push_char(&mut out, ':');
    push_range(&mut out, &cs, 13, 15);
    push_char(&mut out, '.');
    push_padded_int(&mut out, millis as i64, 3);
    out
}

/// Default file name for an exported log: `dsh-desktop-YYYYMMDD-HHMMSS.log`.
pub fn export_filename(secs: i64) -> (out: String)
    ensures
        out@ == "dsh-desktop-"@ + compact_text(secs as int) + ".log"@,
{
    let mut out = String::from_str("dsh-desktop-");
    let stamp = timestamp_compact(secs);
    out.append(stamp.as_str());
    out.append(".log");
    out
}

} // verus!
