use screenshot_hero::settings::{
    color_scheme_at, color_scheme_index, log_level_at, log_level_from_name, log_level_index, log_level_name, ColorSchemePreference, LogLevel,
    PostCaptureEditing,
};

#[test]
fn color_scheme_round_trips() {
    for p in [ColorSchemePreference::FollowSystem, ColorSchemePreference::Light, ColorSchemePreference::Dark] {
        assert_eq!(ColorSchemePreference::from_str(p.as_str()), p);
    }
    assert_eq!(ColorSchemePreference::Dark.as_str(), "dark");
    assert_eq!(ColorSchemePreference::from_str("purple"), ColorSchemePreference::FollowSystem);
}

#[test]
fn preference_indices() {
    assert_eq!(color_scheme_index("light"), 1);
    assert_eq!(color_scheme_index("dark"), 2);
    assert_eq!(color_scheme_index("follow-system"), 0);
    assert_eq!(log_level_index("error"), 0);
    assert_eq!(log_level_index("warn"), 1);
    assert_eq!(log_level_index("info"), 2);
    assert_eq!(log_level_index("debug"), 3);
    assert_eq!(log_level_index("trace"), 4);
    assert_eq!(log_level_index("verbose"), 2);
}

#[test]
fn log_levels_round_trip() {
    for l in [LogLevel::Error, LogLevel::Warn, LogLevel::Info, LogLevel::Debug, LogLevel::Trace] {
        assert_eq!(log_level_from_name(log_level_name(l)), l);
    }
    assert_eq!(log_level_name(LogLevel::Off), "info");
    assert_eq!(log_level_from_name("nonsense"), LogLevel::Info);
}

fn temp(minutes: u32, seconds: u32, started_at: i64) -> PostCaptureEditing {
    PostCaptureEditing {
        disabled: false,
        temporary_enabled: true,
        temporary_minutes: minutes,
        temporary_seconds: seconds,
        temporary_started_at: started_at,
    }
}

#[test]
fn permanent_disable_wins() {
    let s = PostCaptureEditing { disabled: true, ..temp(0, 0, 0) };
    assert_eq!(s.effectively_disabled(100), (true, s));
}

#[test]
fn temporary_disable_runs_out() {
    let s = temp(1, 30, 1000);
    assert_eq!(s.effectively_disabled(1089), (true, s));
    let (off, after) = s.effectively_disabled(1090);
    assert!(!off);
    assert!(!after.temporary_enabled);
    assert_eq!(after.temporary_started_at, 0);
}

#[test]
fn temporary_disable_without_start_starts_now() {
    let (off, after) = temp(0, 0, 0).effectively_disabled(500);
    assert!(off);
    assert_eq!(after.temporary_started_at, 500);
}

#[test]
fn not_disabled_when_nothing_set() {
    let s = PostCaptureEditing { temporary_enabled: false, ..temp(5, 0, 0) };
    assert_eq!(s.effectively_disabled(10), (false, s));
}

#[test]
fn switching_temporary_disable() {
    let s = temp(1, 0, 0);
    assert_eq!(s.with_temporary_enabled(true, 42).temporary_started_at, 42);
    let off = s.with_temporary_enabled(false, 42);
    assert!(!off.temporary_enabled);
    assert_eq!(off.temporary_started_at, 0);
}

#[test]
fn preference_choices_store_values() {
    for i in 0..3 {
        assert_eq!(color_scheme_index(color_scheme_at(i)), i);
    }
    assert_eq!(color_scheme_at(1), "light");
    assert_eq!(color_scheme_at(7), "follow-system");
    for i in 0..5 {
        assert_eq!(log_level_index(log_level_at(i)), i);
    }
    assert_eq!(log_level_at(3), "debug");
    assert_eq!(log_level_at(9), "info");
}
