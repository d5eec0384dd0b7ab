//! Keyboard backlight state-synchronization engine.
//!
//! Three event sources (key activity, out-of-band brightness-change
//! notifications, and an idle clock) all read and mutate one shared record of
//! the backlight: its level, the on/off intent, a global enable flag, and the
//! time of the last qualifying key press.  This crate holds that record and
//! the decision logic that turns events into idempotent device commands; the
//! blocking subscriptions, the device-control calls and the tray UI live in
//! the surrounding program and hand plain values in and out.

pub mod state;
pub mod keys;
pub mod engine;
pub mod timer;
pub mod parse;
