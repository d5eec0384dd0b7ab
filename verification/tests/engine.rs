use kbd_backlight::engine::{change_backlight, handle_key_press, subscribe_on_change_backlight};
use kbd_backlight::keys::{is_excluded, ActivityKey};
use kbd_backlight::state::BacklightState;
use kbd_backlight::timer::handle_backlight_timeout;

fn fresh(level: u8, intent: bool, enabled: bool, last_activity: u64) -> BacklightState {
    let mut s = BacklightState::new(level, last_activity);
    s.intent = intent;
    s.enabled = enabled;
    s
}

#[test]
fn seed_from_device() {
    let s = BacklightState::new(2, 7);
    assert_eq!(s.level, 2);
    assert!(s.intent);
    assert!(s.enabled);
    assert_eq!(s.last_activity, 7);
    let off = BacklightState::new(1, 0);
    assert!(!off.intent);
}

#[test]
fn toggle_flips_only_enabled() {
    let mut s = fresh(2, true, true, 5);
    assert!(!s.toggle_enabled());
    assert_eq!(s, fresh(2, true, false, 5));
    assert!(s.toggle_enabled());
    assert_eq!(s, fresh(2, true, true, 5));
}

#[test]
fn request_on_twice_writes_once() {
    let mut s = fresh(2, false, true, 0);
    let first = change_backlight(&mut s, true);
    assert_eq!(first, Some(2));
    let second = change_backlight(&mut s, true);
    assert_eq!(second, None);
}

#[test]
fn request_off_twice_writes_once() {
    let mut s = fresh(3, true, true, 0);
    assert_eq!(change_backlight(&mut s, false), Some(1));
    assert_eq!(change_backlight(&mut s, false), None);
}

#[test]
fn request_on_restores_remembered_level() {
    let mut s = fresh(3, false, true, 0);
    assert_eq!(change_backlight(&mut s, true), Some(3));
    assert_eq!(s.level, 3);
    assert!(s.intent);
}

#[test]
fn unsupported_level_never_writes() {
    for level in [0u8, 1u8] {
        for intent in [false, true] {
            let mut s = fresh(level, intent, true, 0);
            assert_eq!(change_backlight(&mut s, true), None);
            assert_eq!(s, fresh(level, intent, true, 0));
            assert_eq!(change_backlight(&mut s, false), None);
            assert_eq!(s, fresh(level, intent, true, 0));
        }
    }
}

#[test]
fn excluded_keys_do_nothing() {
    let excluded = [
        ActivityKey::DownArrow,
        ActivityKey::UpArrow,
        ActivityKey::LeftArrow,
        ActivityKey::RightArrow,
        ActivityKey::Alt,
        ActivityKey::AltGr,
        ActivityKey::ControlLeft,
        ActivityKey::ControlRight,
        ActivityKey::Escape,
        ActivityKey::Space,
        ActivityKey::Unknown,
    ];
    for key in excluded {
        assert!(is_excluded(key));
        let mut s = fresh(2, false, true, 0);
        let cmd = handle_key_press(&mut s, key, 99);
        assert_eq!(cmd, None);
        assert_eq!(s.last_activity, 0);
        assert_eq!(s, fresh(2, false, true, 0));
    }
    assert!(!is_excluded(ActivityKey::Other));
}

#[test]
fn qualifying_key_touches_and_turns_on() {
    let mut s = fresh(2, false, true, 0);
    let cmd = handle_key_press(&mut s, ActivityKey::Other, 41);
    assert_eq!(cmd, Some(2));
    assert_eq!(s.last_activity, 41);
    assert!(s.intent);
}

#[test]
fn qualifying_key_while_on_is_silent() {
    let mut s = fresh(2, true, true, 10);
    let cmd = handle_key_press(&mut s, ActivityKey::Other, 20);
    assert_eq!(cmd, None);
    assert_eq!(s.last_activity, 20);
}

#[test]
fn external_off_converges() {
    let mut s = fresh(2, true, true, 0);
    subscribe_on_change_backlight(&mut s, 1);
    assert!(!s.intent);
    assert_eq!(s.level, 1);
    // the very next decision observes the converged record
    assert_eq!(change_backlight(&mut s, false), None);
    assert_eq!(change_backlight(&mut s, true), None);
}

#[test]
fn external_on_adopts_level_and_intent() {
    let mut s = fresh(2, false, true, 0);
    subscribe_on_change_backlight(&mut s, 4);
    assert!(s.intent);
    assert_eq!(s.level, 4);
    assert_eq!(change_backlight(&mut s, true), None);
    assert_eq!(change_backlight(&mut s, false), Some(1));
}

#[test]
fn idle_timeout_drives_off_once() {
    let mut s = fresh(2, true, true, 0);
    let r = handle_backlight_timeout(&mut s, 31);
    assert_eq!(r.cmd, Some(1));
    assert_eq!(r.sleep_secs, 30);
    assert!(!s.intent);
    let again = handle_backlight_timeout(&mut s, 62);
    assert_eq!(again.cmd, None);
    assert_eq!(again.sleep_secs, 30);
}

#[test]
fn idle_timer_never_fires_early() {
    let mut s = fresh(2, true, true, 0);
    // exactly at the timeout boundary nothing fires yet
    let r = handle_backlight_timeout(&mut s, 30);
    assert_eq!(r.cmd, None);
    assert_eq!(r.sleep_secs, 0);
    assert!(s.intent);
    // within the window the wake-up lands on the window's close
    let mut s2 = fresh(2, true, true, 100);
    let r2 = handle_backlight_timeout(&mut s2, 112);
    assert_eq!(r2.cmd, None);
    assert_eq!(112 + r2.sleep_secs, 100 + 30);
}

#[test]
fn disabled_gates_key_and_timer() {
    let mut s = fresh(2, true, false, 0);
    let cmd = handle_key_press(&mut s, ActivityKey::Other, 50);
    assert_eq!(cmd, None);
    assert_eq!(s.last_activity, 0);
    let r = handle_backlight_timeout(&mut s, 1000);
    assert_eq!(r.cmd, None);
    assert_eq!(r.sleep_secs, 30);
    assert!(s.intent);
    // re-enabling resumes without a key press: the next cycle drives off
    s.toggle_enabled();
    let r2 = handle_backlight_timeout(&mut s, 1000);
    assert_eq!(r2.cmd, Some(1));
    assert!(!s.intent);
}

#[test]
fn scenario_idle_then_key() {
    // initial level 2, intent on, 30 s timeout
    let mut s = fresh(2, true, true, 0);
    let mut writes: Vec<u8> = Vec::new();
    // no activity for 31 s: the timer cycle at t = 31 issues exactly one off
    if let Some(level) = handle_backlight_timeout(&mut s, 31).cmd {
        writes.push(level);
    }
    assert_eq!(writes, vec![1]);
    // a qualifying key press at t = 32: exactly one write of level 2
    if let Some(level) = handle_key_press(&mut s, ActivityKey::Other, 32) {
        writes.push(level);
    }
    assert_eq!(writes, vec![1, 2]);
    assert_eq!(s.last_activity, 32);
}
