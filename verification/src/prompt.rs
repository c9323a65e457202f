//! Once-a-day limit on the startup update prompts.
use vstd::prelude::*;

use crate::text::str_eq;

verus! {

/// Seconds in a day: a version offered once is not offered again sooner.
pub const PROMPT_INTERVAL_SECS: u64 = 86400;

/// The last prompt for dsh and for the app: which version was offered and
/// when (UNIX seconds).
pub struct PromptState {
    pub last_prompted_version: String,
    pub last_prompted_at: u64,
    pub last_app_prompted_version: String,
    pub last_app_prompted_at: u64,
}

impl Default for PromptState {
    fn default() -> (r: Self)
        ensures
            r.last_prompted_version@ == Seq::<char>::empty(),
            r.last_prompted_at == 0,
            r.last_app_prompted_version@ == Seq::<char>::empty(),
            r.last_app_prompted_at == 0,
    {
        PromptState {
            last_prompted_version: String::new(),
            last_prompted_at: 0,
            last_app_prompted_version: String::new(),
            last_app_prompted_at: 0,
        }
    }
}

/// `now - then`, or 0 when `then` is later (a clock that went back).
pub open spec fn elapsed(then: u64, now: u64) -> int {
    if now >= then { now - then } else { 0 }
}

/// Prompt when `latest` differs from the version last offered, or the last
/// offer is at least a day old.
pub open spec fn prompt_due(recorded_version: Seq<char>, recorded_at: u64, latest: Seq<char>, now: u64) -> bool {
    recorded_version != latest || elapsed(recorded_at, now) >= PROMPT_INTERVAL_SECS
}

/// The once-a-day decision for one record (see [`prompt_due`]).
pub fn should_prompt_given(recorded_version: &str, recorded_at: u64, latest: &str, now: u64) -> (r: bool)
    ensures
        r == prompt_due(recorded_version@, recorded_at, latest@, now),
{
    !str_eq(recorded_version, latest) || now.saturating_sub(recorded_at) >= PROMPT_INTERVAL_SECS
}

/// The record for dsh (`is_app == false`) or the app.
pub open spec fn record_of(s: PromptState, is_app: bool) -> (Seq<char>, u64) {
    if is_app {
        (s.last_app_prompted_version@, s.last_app_prompted_at)
    } else {
        (s.last_prompted_version@, s.last_prompted_at)
    }
}

/// Whether the startup check may offer `latest` now, and the state to
/// keep: when it may, the offer is recorded (version and time) for dsh or
/// for the app as `is_app` says, and the other record is left alone; when
/// it may not, nothing changes.
pub fn auto_prompt(state: PromptState, latest: &str, is_app: bool, now: u64) -> (r: (bool, PromptState))
    ensures
        r.0 == prompt_due(record_of(state, is_app).0, record_of(state, is_app).1, latest@, now),
        r.0 ==> record_of(r.1, is_app) == (latest@, now) && record_of(r.1, !is_app) == record_of(state, !is_app),
        !r.0 ==> record_of(r.1, true) == record_of(state, true) && record_of(r.1, false) == record_of(state, false),
{
    let due = if is_app {
        should_prompt_given(state.last_app_prompted_version.as_str(), state.last_app_prompted_at, latest, now)
    } else {
        should_prompt_given(state.last_prompted_version.as_str(), state.last_prompted_at, latest, now)
    };
    if !due {
        return (false, state);
    }
    let mut next = state;
    if is_app {
        next.last_app_prompted_version = String::from_str(latest);
        next.last_app_prompted_at = now;
    } else {
        next.last_prompted_version = String::from_str(latest);
        next.last_prompted_at = now;
    }
    (true, next)
}

/// Once a version has been offered (the record `auto_prompt` keeps after
/// returning true), the same version is not due again for a day by the same
/// clock, while any other version is due at once.
pub proof fn law_prompt_once_a_day(next: PromptState, latest: Seq<char>, other: Seq<char>, is_app: bool, now: u64, later: u64)
    requires
        record_of(next, is_app) == (latest, now),
        now <= later,
        later - now < PROMPT_INTERVAL_SECS,
    ensures
        !prompt_due(record_of(next, is_app).0, record_of(next, is_app).1, latest, later),
        other != latest ==> prompt_due(record_of(next, is_app).0, record_of(next, is_app).1, other, later),
{
}

/// A day after an offer the same version is due again.
pub proof fn law_prompt_due_after_a_day(next: PromptState, latest: Seq<char>, is_app: bool, now: u64, later: u64)
    requires
        record_of(next, is_app) == (latest, now),
        later >= now + PROMPT_INTERVAL_SECS,
    ensures
        prompt_due(record_of(next, is_app).0, record_of(next, is_app).1, latest, later),
{
}

} // verus!
