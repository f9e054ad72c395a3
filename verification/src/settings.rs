use vstd::prelude::*;

use crate::text::str_eq;

verus! {

/// The colour scheme the user picked.
#[derive(Clone, Copy, Debug, PartialEq, Eq, Structural)]
pub enum ColorSchemePreference {
    FollowSystem,
    Light,
    Dark,
}

/// The settings value stored for a colour scheme.
pub open spec fn scheme_name(p: ColorSchemePreference) -> Seq<char> {
    match p {
        ColorSchemePreference::FollowSystem => "follow-system"@,
        ColorSchemePreference::Light => "light"@,
        ColorSchemePreference::Dark => "dark"@,
    }
}

/// The colour scheme a stored value selects: `light` and `dark` select those,
/// anything else follows the system.
pub open spec fn scheme_from_name(s: Seq<char>) -> ColorSchemePreference {
    if s == "light"@ {
        ColorSchemePreference::Light
    } else if s == "dark"@ {
        ColorSchemePreference::Dark
    } else {
        ColorSchemePreference::FollowSystem
    }
}

impl ColorSchemePreference {
    /// The settings value stored for this scheme.
    pub fn as_str(&self) -> (r: &'static str)
        ensures
            r@ == scheme_name(*self),
    {
        match self {
            ColorSchemePreference::FollowSystem => "follow-system",
            ColorSchemePreference::Light => "light",
            ColorSchemePreference::Dark => "dark",
        }
    }

    /// The scheme a stored settings value selects.
    pub fn from_str(s: &str) -> (r: Self)
        ensures
            r == scheme_from_name(s@),
    {
        if str_eq(s, "light") {
            ColorSchemePreference::Light
        } else if str_eq(s, "dark") {
            ColorSchemePreference::Dark
        } else {
            ColorSchemePreference::FollowSystem
        }
    }
}

/// Reading back the stored value of a colour scheme gives that scheme.
pub proof fn law_color_scheme_round_trip(p: ColorSchemePreference)
    ensures
        scheme_from_name(scheme_name(p)) == p,
{
    reveal_strlit("follow-system");
    reveal_strlit("light");
    reveal_strlit("dark");
    assert("follow-system"@ != "light"@) by {
        assert("follow-system"@.len() != "light"@.len());
    }
    assert("follow-system"@ != "dark"@) by {
        assert("follow-system"@.len() != "dark"@.len());
    }
    assert("dark"@ != "light"@) by {
        assert("dark"@.len() != "light"@.len());
    }
}

/// Position of a stored colour scheme in the preferences' choice list
/// (follow system, light, dark); unknown values show as following the system.
pub open spec fn scheme_index(value: Seq<char>) -> u32 {
    if value == "light"@ {
        1u32
    } else if value == "dark"@ {
        2u32
    } else {
        0u32
    }
}

/// The colour scheme value stored when the preferences' choice at `index` is
/// picked.
pub open spec fn scheme_at(index: u32) -> Seq<char> {
    if index == 1 {
        "light"@
    } else if index == 2 {
        "dark"@
    } else {
        "follow-system"@
    }
}

/// The colour scheme value stored when the choice at `index` is picked.
pub fn color_scheme_at(index: u32) -> (r: &'static str)
    ensures
        r@ == scheme_at(index),
{
    if index == 1 {
        "light"
    } else if index == 2 {
        "dark"
    } else {
        "follow-system"
    }
}

/// The preferences show the choice that was picked: storing the value of
/// choice `index` and reading its position back gives `index`.
pub proof fn law_color_scheme_choice_round_trip(index: u32)
    requires
        index < 3,
    ensures
        scheme_index(scheme_at(index)) == index,
{
    reveal_strlit("follow-system");
    reveal_strlit("light");
    reveal_strlit("dark");
    assert("follow-system"@ != "light"@) by {
        assert("follow-system"@.len() != "light"@.len());
    }
    assert("follow-system"@ != "dark"@) by {
        assert("follow-system"@.len() != "dark"@.len());
    }
    assert("dark"@ != "light"@) by {
        assert("dark"@.len() != "light"@.len());
    }
}

/// Position of a stored colour scheme in the preferences' choice list.
pub fn color_scheme_index(value: &str) -> (r: u32)
    ensures
        r == scheme_index(value@),
{
    if str_eq(value, "light") {
        1
    } else if str_eq(value, "dark") {
        2
    } else {
        0
    }
}

/// How much is logged.
#[derive(Clone, Copy, Debug, PartialEq, Eq, Structural)]
pub enum LogLevel {
    Off,
    Error,
    Warn,
    Info,
    Debug,
    Trace,
}

/// The level a stored `log-level` value selects; unknown values select `Info`.
pub open spec fn level_from_name(s: Seq<char>) -> LogLevel {
    if s == "error"@ {
        LogLevel::Error
    } else if s == "warn"@ {
        LogLevel::Warn
    } else if s == "info"@ {
        LogLevel::Info
    } else if s == "debug"@ {
        LogLevel::Debug
    } else if s == "trace"@ {
        LogLevel::Trace
    } else {
        LogLevel::Info
    }
}

/// The value stored for a level; `Off` is stored as `info`.
pub open spec fn level_name(l: LogLevel) -> Seq<char> {
    match l {
        LogLevel::Error => "error"@,
        LogLevel::Warn => "warn"@,
        LogLevel::Info => "info"@,
        LogLevel::Debug => "debug"@,
        LogLevel::Trace => "trace"@,
        LogLevel::Off => "info"@,
    }
}

/// The level a stored `log-level` value selects.
pub fn log_level_from_name(s: &str) -> (r: LogLevel)
    ensures
        r == level_from_name(s@),
{
    if str_eq(s, "error") {
        LogLevel::Error
    } else if str_eq(s, "warn") {
        LogLevel::Warn
    } else if str_eq(s, "info") {
        LogLevel::Info
    } else if str_eq(s, "debug") {
        LogLevel::Debug
    } else if str_eq(s, "trace") {
        LogLevel::Trace
    } else {
        LogLevel::Info
    }
}

/// The value stored for a level.
pub fn log_level_name(l: LogLevel) -> (r: &'static str)
    ensures
        r@ == level_name(l),
{
    match l {
        LogLevel::Error => "error",
        LogLevel::Warn => "warn",
        LogLevel::Info => "info",
        LogLevel::Debug => "debug",
        LogLevel::Trace => "trace",
        LogLevel::Off => "info",
    }
}

/// Storing a level and reading it back gives that level, except that `Off`
/// comes back as `Info`.
pub proof fn law_log_level_round_trip(l: LogLevel)
    ensures
        level_from_name(level_name(l)) == (if l == LogLevel::Off { LogLevel::Info } else { l }),
{
    reveal_strlit("error");
    reveal_strlit("warn");
    reveal_strlit("info");
    reveal_strlit("debug");
    reveal_strlit("trace");
    assert("error"@ != "warn"@ && "error"@ != "info"@ && "error"@ != "debug"@ && "error"@ != "trace"@) by {
        assert("error"@[0] != "warn"@[0] && "error"@[0] != "info"@[0] && "error"@[0] != "debug"@[0] && "error"@[0] != "trace"@[0]);
    }
    assert("warn"@ != "info"@ && "warn"@ != "debug"@ && "warn"@ != "trace"@) by {
        assert("warn"@[0] != "info"@[0] && "warn"@[0] != "debug"@[0] && "warn"@[0] != "trace"@[0]);
    }
    assert("info"@ != "debug"@ && "info"@ != "trace"@) by {
        assert("info"@[0] != "debug"@[0] && "info"@[0] != "trace"@[0]);
    }
    assert("debug"@ != "trace"@) by {
        assert("debug"@[0] != "trace"@[0]);
    }
}

/// Position of a stored log level in the preferences' choice list
/// (error, warn, info, debug, trace); unknown values show as info.
pub open spec fn level_index(value: Seq<char>) -> u32 {
    if value == "error"@ {
        0u32
    } else if value == "warn"@ {
        1u32
    } else if value == "debug"@ {
        3u32
    } else if value == "trace"@ {
        4u32
    } else {
        2u32
    }
}

/// The log level value stored when the preferences' choice at `index` is
/// picked; positions past the list store `info`.
pub open spec fn level_at(index: u32) -> Seq<char> {
    if index == 0 {
        "error"@
    } else if index == 1 {
        "warn"@
    } else if index == 3 {
        "debug"@
    } else if index == 4 {
        "trace"@
    } else {
        "info"@
    }
}

/// The log level value stored when the choice at `index` is picked.
pub fn log_level_at(index: u32) -> (r: &'static str)
    ensures
        r@ == level_at(index),
{
    if index == 0 {
        "error"
    } else if index == 1 {
        "warn"
    } else if index == 3 {
        "debug"
    } else if index == 4 {
        "trace"
    } else {
        "info"
    }
}

/// The preferences show the log level that was picked: storing the value of
/// choice `index` and reading its position back gives `index`.
pub proof fn law_log_level_choice_round_trip(index: u32)
    requires
        index < 5,
    ensures
        level_index(level_at(index)) == index,
{
    reveal_strlit("error");
    reveal_strlit("warn");
    reveal_strlit("info");
    reveal_strlit("debug");
    reveal_strlit("trace");
    assert("error"@ != "warn"@ && "error"@ != "info"@ && "error"@ != "debug"@ && "error"@ != "trace"@) by {
        assert("error"@[0] != "warn"@[0] && "error"@[0] != "info"@[0] && "error"@[0] != "debug"@[0] && "error"@[0] != "trace"@[0]);
    }
    assert("warn"@ != "info"@ && "warn"@ != "debug"@ && "warn"@ != "trace"@) by {
        assert("warn"@[0] != "info"@[0] && "warn"@[0] != "debug"@[0] && "warn"@[0] != "trace"@[0]);
    }
    assert("info"@ != "debug"@ && "info"@ != "trace"@) by {
        assert("info"@[0] != "debug"@[0] && "info"@[0] != "trace"@[0]);
    }
    assert("debug"@ != "trace"@) by {
        assert("debug"@[0] != "trace"@[0]);
    }
}

/// Position of a stored log level in the preferences' choice list.
pub fn log_level_index(value: &str) -> (r: u32)
    ensures
        r == level_index(value@),
{
    if str_eq(value, "error") {
        0
    } else if str_eq(value, "warn") {
        1
    } else if str_eq(value, "debug") {
        3
    } else if str_eq(value, "trace") {
        4
    } else {
        2
    }
}

/// The post-capture editing settings.
#[derive(Clone, Copy, Debug, PartialEq, Eq, Structural)]
pub struct PostCaptureEditing {
    pub disabled: bool,
    pub temporary_enabled: bool,
    pub temporary_minutes: u32,
    pub temporary_seconds: u32,
    /// Unix time in seconds when the temporary disabling began; 0 when unset.
    pub temporary_started_at: i64,
}

/// Length in seconds of a temporary disabling: minutes and seconds, at least one.
pub open spec fn temporary_duration(s: PostCaptureEditing) -> int {
    let d = s.temporary_minutes as int * 60 + s.temporary_seconds as int;
    if d >= 1 {
        d
    } else {
        1
    }
}

/// Whether editing after a capture is off at time `now`, and the settings as
/// they are after the check: a temporary disabling with no start time starts
/// at `now`, and one whose time has run out is switched off and its start
/// cleared.
pub open spec fn post_capture_check(s: PostCaptureEditing, now: i64) -> (bool, PostCaptureEditing) {
    if s.disabled {
        (true, s)
    } else if !s.temporary_enabled {
        (false, s)
    } else {
        let started = if s.temporary_started_at <= 0 { now } else { s.temporary_started_at };
        let s1 = PostCaptureEditing { temporary_started_at: started, ..s };
        if now - started < temporary_duration(s) {
            (true, s1)
        } else {
            (false, PostCaptureEditing { temporary_enabled: false, temporary_started_at: 0, ..s1 })
        }
    }
}

impl PostCaptureEditing {
    /// Whether editing after a capture is effectively disabled at Unix time
    /// `now`, with the settings to store afterwards (see [`post_capture_check`]).
    pub fn effectively_disabled(self, now: i64) -> (r: (bool, PostCaptureEditing))
        ensures
            r == post_capture_check(self, now),
    {
        if self.disabled {
            return (true, self);
        }
        if !self.temporary_enabled {
            return (false, self);
        }
        let minutes = self.temporary_minutes as i64;
        let seconds = self.temporary_seconds as i64;
        let d = minutes * 60 + seconds;
        let duration = if d >= 1 { d } else { 1 };
        let started = if self.temporary_started_at <= 0 { now } else { self.temporary_started_at };
        let s1 = PostCaptureEditing { temporary_started_at: started, ..self };
        let elapsed = (now as i128) - (started as i128);
        if elapsed < (duration as i128) {
            (true, s1)
        } else {
            (false, PostCaptureEditing { temporary_enabled: false, temporary_started_at: 0, ..s1 })
        }
    }

    /// The settings after switching the temporary disabling on or off at Unix
    /// time `now`: switching on starts it at `now`, switching off clears the start.
    pub fn with_temporary_enabled(self, value: bool, now: i64) -> (r: PostCaptureEditing)
        ensures
            r == (PostCaptureEditing {
                temporary_enabled: value,
                temporary_started_at: if value { now } else { 0 },
                ..self
            }),
    {
        PostCaptureEditing { temporary_enabled: value, temporary_started_at: if value { now } else { 0 }, ..self }
    }
}

/// A temporary disabling switched on at `now` holds editing off at `now`.
pub proof fn law_temporary_disable_holds_at_start(s: PostCaptureEditing, now: i64)
    requires
        now > 0,
    ensures
        post_capture_check(
            PostCaptureEditing { temporary_enabled: true, temporary_started_at: now, ..s },
            now,
        ).0,
{
}

/// Once a temporary disabling has run out, the check switches it off, so the
/// next check (without the permanent switch) finds editing allowed.
pub proof fn law_expired_temporary_disable_is_cleared(s: PostCaptureEditing, now: i64, later: i64)
    requires
        !s.disabled,
        !post_capture_check(s, now).0,
    ensures
        !post_capture_check(post_capture_check(s, now).1, later).0,
{
}

} // verus!
