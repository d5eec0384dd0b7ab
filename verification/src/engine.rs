//! The decision logic: how each event changes the shared record and which
//! device command, if any, it issues.
//!
//! Every function here returns the level to write to the device as an
//! `Option<u8>` — `None` means the event issues no device command at all.
//! The caller performs the actual (fire-and-forget) device write after
//! releasing the lock on the shared record.

use vstd::prelude::*;
use crate::state::{BacklightState, MIN_ON_LEVEL, OFF_LEVEL, level_supported};
use crate::keys::{ActivityKey, spec_is_excluded, is_excluded};

verus! {

/// The record after a request to drive the backlight on (`on == true`) or
/// off (`on == false`): the intent flips to the request unless the level is
/// unsupported or the intent already agrees.
pub open spec fn decision_state(s: BacklightState, on: bool) -> BacklightState {
    if level_supported(s.level) && s.intent != on {
        BacklightState { intent: on, ..s }
    } else {
        s
    }
}

/// The device command such a request issues: the remembered on-level when
/// turning on, the off level when turning off, and nothing when the level is
/// unsupported or the intent already agrees (idempotence).
pub open spec fn decision_cmd(s: BacklightState, on: bool) -> Option<u8> {
    if level_supported(s.level) && s.intent != on {
        if on {
            Some(s.level)
        } else {
            Some(OFF_LEVEL)
        }
    } else {
        None
    }
}

/// Request the backlight on or off.  At most one device write is issued per
/// actual transition: if the level is below the supported minimum, or the
/// intent already matches the request, nothing changes and no command is
/// issued; otherwise only the intent flips and the single command carries
/// the remembered on-level (on) or the off level (off).
pub fn change_backlight(state: &mut BacklightState, on: bool) -> (cmd: Option<u8>)
    ensures
        *final(state) == decision_state(*old(state), on),
        cmd == decision_cmd(*old(state), on),
{
    if state.level < MIN_ON_LEVEL {
        return None;
    }
    if state.intent == on {
        return None;
    }
    state.intent = on;
    if on {
        Some(state.level)
    } else {
        Some(OFF_LEVEL)
    }
}

/// The record after a key press: untouched when managing is disabled or the
/// key is excluded; otherwise the activity time is refreshed and the on
/// request is applied.
pub open spec fn key_state(s: BacklightState, key: ActivityKey, time: u64) -> BacklightState {
    if !s.enabled || spec_is_excluded(key) {
        s
    } else {
        decision_state(BacklightState { last_activity: time, ..s }, true)
    }
}

/// The device command a key press issues: none when managing is disabled or
/// the key is excluded, else whatever the on request issues.
pub open spec fn key_cmd(s: BacklightState, key: ActivityKey, time: u64) -> Option<u8> {
    if !s.enabled || spec_is_excluded(key) {
        None
    } else {
        decision_cmd(BacklightState { last_activity: time, ..s }, true)
    }
}

/// Process one key press reported by the activity source at monotonic time
/// `time`.  Disabled managing and excluded keys leave the record untouched
/// and issue nothing; a qualifying key refreshes the activity time and
/// requests the backlight on.
pub fn handle_key_press(state: &mut BacklightState, key: ActivityKey, time: u64) -> (cmd:
    Option<u8>)
    ensures
        *final(state) == key_state(*old(state), key, time),
        cmd == key_cmd(*old(state), key, time),
{
    if !state.enabled {
        return None;
    }
    if is_excluded(key) {
        return None;
    }
    state.last_activity = time;
    change_backlight(state, true)
}

/// The record after an out-of-band change notification made the device
/// report `level`: the level is adopted and the intent is on exactly when
/// the level is not the off level.
pub open spec fn notified_state(s: BacklightState, level: u8) -> BacklightState {
    BacklightState { level, intent: level != OFF_LEVEL, ..s }
}

/// Absorb one out-of-band brightness-change notification, `level` being
/// what the device reported when re-queried.  The record adopts the level
/// and derives the intent from it, so later decisions start from hardware
/// truth rather than from a stale mirror.
pub fn subscribe_on_change_backlight(state: &mut BacklightState, level: u8)
    ensures
        *final(state) == notified_state(*old(state), level),
        final(state).level == level,
        final(state).intent == (level != OFF_LEVEL),
        final(state).enabled == old(state).enabled,
        final(state).last_activity == old(state).last_activity,
{
    state.level = level;
    state.intent = level != OFF_LEVEL;
}

/// Requesting the same direction twice in succession, with no intervening
/// change of the record, issues a device command at most on the first
/// request: the second request always issues none.
pub proof fn lemma_decision_idempotent(s: BacklightState, on: bool)
    ensures
        decision_cmd(decision_state(s, on), on) is None,
{
}

/// A key press processed while managing is disabled, or carrying an
/// excluded key, neither updates the activity time nor issues any device
/// command.
pub proof fn lemma_key_press_filtered(s: BacklightState, key: ActivityKey, time: u64)
    requires
        !s.enabled || spec_is_excluded(key),
    ensures
        key_state(s, key, time) == s,
        key_cmd(s, key, time) is None,
{
}

/// While the level is below the supported minimum, no request changes the
/// record or touches the device.
pub proof fn lemma_unsupported_level(s: BacklightState, on: bool)
    requires
        !level_supported(s.level),
    ensures
        decision_state(s, on) == s,
        decision_cmd(s, on) is None,
{
}

/// A notification that reports the off level converges the record: the
/// intent is off and the level is the off level, and the very next off
/// request finds nothing to do.
pub proof fn lemma_external_off_converges(s: BacklightState)
    ensures
        notified_state(s, OFF_LEVEL).intent == false,
        notified_state(s, OFF_LEVEL).level == OFF_LEVEL,
        decision_cmd(notified_state(s, OFF_LEVEL), false) is None,
        decision_cmd(notified_state(s, OFF_LEVEL), true) is None,
{
}

} // verus!
