//! One cycle of the idle clock: decide whether idleness has been reached
//! and how long to sleep before the next look.

use vstd::prelude::*;
use crate::state::{BacklightState, OFF_LEVEL, TIMEOUT, level_supported};
use crate::engine::{decision_state, decision_cmd, change_backlight, key_state, key_cmd};
use crate::keys::ActivityKey;

verus! {

/// What one cycle of the idle clock decided: the device command it issues,
/// if any, and how many seconds to sleep before the next cycle.
#[derive(Clone, Copy, Debug, PartialEq, Eq, Structural)]
pub struct TimerDecision {
    pub cmd: Option<u8>,
    pub sleep_secs: u64,
}

/// The record after one cycle at monotonic time `now`: untouched while
/// managing is disabled or the idle timeout has not elapsed, else the off
/// request is applied.
pub open spec fn timer_state(s: BacklightState, now: u64) -> BacklightState {
    if s.enabled && now - s.last_activity > TIMEOUT {
        decision_state(s, false)
    } else {
        s
    }
}

/// The device command one cycle issues: only the off request's command,
/// and only once the idle timeout has elapsed with managing enabled.
pub open spec fn timer_cmd(s: BacklightState, now: u64) -> Option<u8> {
    if s.enabled && now - s.last_activity > TIMEOUT {
        decision_cmd(s, false)
    } else {
        None
    }
}

/// How long one cycle sleeps: the full timeout while disabled or already
/// idle, and otherwise exactly the remainder of the idle window, so that
/// the next wake-up coincides with the moment idleness is reached.
pub open spec fn timer_sleep(s: BacklightState, now: u64) -> u64 {
    if !s.enabled {
        TIMEOUT
    } else if now - s.last_activity > TIMEOUT {
        TIMEOUT
    } else {
        (TIMEOUT - (now - s.last_activity)) as u64
    }
}

/// Run one cycle of the idle clock at monotonic time `now`.  While managing
/// is disabled the cycle is passive and sleeps the full timeout.  Otherwise
/// it measures the time since the last qualifying key press: past the
/// timeout it requests the backlight off and sleeps the full timeout, and
/// within it it issues nothing and sleeps just long enough to wake when the
/// window closes.
pub fn handle_backlight_timeout(state: &mut BacklightState, now: u64) -> (r: TimerDecision)
    requires
        old(state).enabled ==> now >= old(state).last_activity,
    ensures
        *final(state) == timer_state(*old(state), now),
        r.cmd == timer_cmd(*old(state), now),
        r.sleep_secs == timer_sleep(*old(state), now),
{
    if !state.enabled {
        return TimerDecision { cmd: None, sleep_secs: TIMEOUT };
    }
    let elapsed: u64 = now - state.last_activity;
    if elapsed > TIMEOUT {
        let cmd = change_backlight(state, false);
        TimerDecision { cmd, sleep_secs: TIMEOUT }
    } else {
        TimerDecision { cmd: None, sleep_secs: TIMEOUT - elapsed }
    }
}

/// Idle convergence.  With managing enabled: while the timeout has not yet
/// elapsed the cycle issues nothing and schedules its wake-up for the exact
/// moment the idle window closes; once the timeout has elapsed, an on
/// intent at a supported level is driven off at this very cycle.  No cycle
/// ever sleeps longer than the timeout, so the off transition lags idleness
/// by at most one further cycle.
pub proof fn lemma_idle_convergence(s: BacklightState, now: u64)
    requires
        s.enabled,
        now >= s.last_activity,
    ensures
        now - s.last_activity <= TIMEOUT ==> timer_cmd(s, now) is None && now + timer_sleep(
            s,
            now,
        ) == s.last_activity + TIMEOUT,
        now - s.last_activity > TIMEOUT && s.intent && level_supported(s.level) ==> timer_cmd(
            s,
            now,
        ) == Some(OFF_LEVEL) && !timer_state(s, now).intent,
        timer_sleep(s, now) <= TIMEOUT,
{
}

/// Enable gating.  While managing is disabled neither a key press nor an
/// idle cycle changes the record or issues a device command; and flipping
/// the flag back on resumes normal behaviour at once: if the idle window
/// has already closed, the very next cycle drives an on intent at a
/// supported level off, with no key press needed first.
pub proof fn lemma_disabled_gating(s: BacklightState, key: ActivityKey, time: u64, now: u64)
    requires
        !s.enabled,
    ensures
        key_state(s, key, time) == s,
        key_cmd(s, key, time) is None,
        timer_state(s, now) == s,
        timer_cmd(s, now) is None,
        timer_sleep(s, now) == TIMEOUT,
        ({
            let r = BacklightState { enabled: true, ..s };
            now - s.last_activity > TIMEOUT && s.intent && level_supported(s.level) ==> timer_cmd(
                r,
                now,
            ) == Some(OFF_LEVEL)
        }),
{
}

} // verus!
