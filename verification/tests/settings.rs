//! Engine settings, their builders, and the message defaults.

use foxy::builder::{DebugInfo, FoxySettings, Polling};
use foxy::message::{RenderData, WindowMessage};
use foxy::time::TimeSettings;

#[test]
fn default_settings_hold_the_defaults() {
    let s = FoxySettings::default();
    assert_eq!(s.time.tick_rate, 128);
    assert_eq!(s.time.max_catch_up_ticks, 1024);
    assert_eq!(s.title, "Foxy Window");
    assert_eq!(s.width, 800);
    assert_eq!(s.height, 500);
    assert_eq!(s.polling, Polling::Wait);
    assert_eq!(s.debug_info, DebugInfo::Hidden);
}

#[test]
fn with_window_replaces_window_settings() {
    let s = FoxySettings::default().with_window(String::from("App"), 1280, 720, Polling::Poll);
    assert_eq!(s.title, "App");
    assert_eq!(s.width, 1280);
    assert_eq!(s.height, 720);
    assert_eq!(s.polling, Polling::Poll);
    // the rest is untouched
    assert_eq!(s.time.tick_rate, 128);
    assert_eq!(s.debug_info, DebugInfo::Hidden);
}

#[test]
fn with_time_replaces_clock_settings() {
    let s = FoxySettings::default()
        .with_time(TimeSettings { tick_rate: 60, max_catch_up_ticks: 8 });
    assert_eq!(s.time.tick_rate, 60);
    assert_eq!(s.time.max_catch_up_ticks, 8);
    assert_eq!(s.width, 800);
}

#[test]
fn with_debug_info_replaces_the_switch() {
    let s = FoxySettings::default().with_debug_info(DebugInfo::Shown);
    assert_eq!(s.debug_info, DebugInfo::Shown);
    assert_eq!(s.polling, Polling::Wait);
}

#[test]
fn message_defaults_are_the_placeholders() {
    // the placeholder left where a message was consumed, and the
    // never-handed-off frame input
    assert_eq!(WindowMessage::default(), WindowMessage::Empty);
    assert_eq!(RenderData::default(), RenderData { frame_number: 0 });
}

#[test]
fn settings_build_the_clock() {
    let t = TimeSettings { tick_rate: 1_000, max_catch_up_ticks: 16 }.build();
    assert_eq!(t.fixed_step_nanos, 1_000_000);
    assert_eq!(t.max_catch_up_ticks, 16);
}
