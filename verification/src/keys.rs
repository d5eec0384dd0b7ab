//! The key identities that the activity filter distinguishes.

use vstd::prelude::*;

verus! {

/// What the activity source reports about a pressed key, reduced to exactly
/// what the filter reads.  Modifier and navigation keys, and keys the
/// listener could not identify, are typically incidental (held while
/// reading, or part of a composed input) and must not count as activity;
/// every other key is `Other` and does.
#[derive(Clone, Copy, Debug, PartialEq, Eq, Structural)]
pub enum ActivityKey {
    DownArrow,
    UpArrow,
    LeftArrow,
    RightArrow,
    Alt,
    AltGr,
    ControlLeft,
    ControlRight,
    Escape,
    Space,
    Unknown,
    Other,
}

/// The fixed exclusion set: keys whose presses do not count as activity.
pub open spec fn spec_is_excluded(key: ActivityKey) -> bool {
    match key {
        ActivityKey::DownArrow => true,
        ActivityKey::UpArrow => true,
        ActivityKey::LeftArrow => true,
        ActivityKey::RightArrow => true,
        ActivityKey::Alt => true,
        ActivityKey::AltGr => true,
        ActivityKey::ControlLeft => true,
        ActivityKey::ControlRight => true,
        ActivityKey::Escape => true,
        ActivityKey::Space => true,
        ActivityKey::Unknown => true,
        ActivityKey::Other => false,
    }
}

/// Decide whether `key` belongs to the exclusion set.
pub fn is_excluded(key: ActivityKey) -> (r: bool)
    ensures
        r == spec_is_excluded(key),
{
    match key {
        ActivityKey::Other => false,
        _ => true,
    }
}

} // verus!
