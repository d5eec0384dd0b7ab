//! The shared backlight record and its elementary writers.

use vstd::prelude::*;

verus! {

/// The level the device reports when the backlight is off (the lowest level).
pub const OFF_LEVEL: u8 = 1;

/// The smallest level at which the backlight is meaningfully on.  A device
/// that reports a level below this does not support the feature, and every
/// decision degenerates to a no-op on it.
pub const MIN_ON_LEVEL: u8 = 2;

/// Seconds of inactivity after which the backlight is driven off.
pub const TIMEOUT: u64 = 30;

/// The synchronized record that the three event loops share.
///
/// `level` mirrors the last brightness level learned from the device,
/// `intent` says whether the backlight should currently be on, `enabled` is
/// the global manage/ignore toggle, and `last_activity` is the monotonic
/// time (in seconds) of the last qualifying key press.
#[derive(Clone, Copy, Debug, PartialEq, Eq, Structural)]
pub struct BacklightState {
    pub level: u8,
    pub intent: bool,
    pub enabled: bool,
    pub last_activity: u64,
}

/// True when `level` is high enough for the backlight feature to be driven.
pub open spec fn level_supported(level: u8) -> bool {
    level >= MIN_ON_LEVEL
}

impl BacklightState {
    /// Seed the record from the level the device reported at startup: the
    /// intent is on exactly when the reported level is not the off level,
    /// and managing starts enabled.
    pub fn new(level: u8, now: u64) -> (s: BacklightState)
        ensures
            s.level == level,
            s.intent == (level != OFF_LEVEL),
            s.enabled,
            s.last_activity == now,
    {
        BacklightState { level, intent: level != OFF_LEVEL, enabled: true, last_activity: now }
    }

    /// Flip the global enable flag, leaving everything else untouched, and
    /// report the new flag so the caller can reflect it in the UI.
    pub fn toggle_enabled(&mut self) -> (enabled: bool)
        ensures
            final(self).enabled == !old(self).enabled,
            final(self).level == old(self).level,
            final(self).intent == old(self).intent,
            final(self).last_activity == old(self).last_activity,
            enabled == final(self).enabled,
    {
        self.enabled = !self.enabled;
        self.enabled
    }
}

} // verus!
