//! Light patterns shown by the buzzers, and the templates they are made from.
//!
//! A duty cycle is kept as the IEEE-754 bit pattern of its `f32` value.

use vstd::prelude::*;

use crate::game::TeamColor;

verus! {

/// Settings of a blinking or waving light.
#[derive(Clone, Copy, Debug, PartialEq)]
pub struct BuzzerPatternDetails {
    /// Duration of the effect in milliseconds (`0` means forever).
    pub duration_ms: usize,
    /// Length of one cycle in milliseconds.
    pub period_ms: usize,
    /// Bits of the duty cycle, between `0.0` and `1.0`.
    pub dc: u32,
    /// Color shown while the light is on.
    pub color: TeamColor,
}

/// Light pattern understood by the buzzer firmware.
#[derive(Clone, Copy, Debug, PartialEq)]
pub enum BuzzerPattern {
    /// Blink on and off.
    Blink(BuzzerPatternDetails),
    /// Lights off.
    Off,
    /// Smooth wave.
    Wave(BuzzerPatternDetails),
}

/// Message sent to a buzzer to set its light.
#[derive(Clone, Copy, Debug)]
pub struct BuzzerOutboundMessage {
    /// Pattern to show.
    pub pattern: BuzzerPattern,
}

/// Timing of a configured pattern.
#[derive(Clone, Copy, Debug, PartialEq, Eq, Structural)]
pub struct RawPatternDetails {
    /// Duration in milliseconds.
    pub duration_ms: usize,
    /// Cycle length in milliseconds.
    pub period_ms: usize,
    /// Bits of the duty cycle.
    pub dc: u32,
}

/// Kind of a configured pattern.
#[derive(Clone, Copy, Debug, PartialEq, Eq, Structural)]
pub enum RawPatternKind {
    /// Blinking light.
    Blink(RawPatternDetails),
    /// Waving light.
    Wave(RawPatternDetails),
    /// Lights off.
    Off,
}

/// A pattern as configured, with an optional color that overrides the team's.
#[derive(Clone, Copy, Debug, PartialEq)]
pub struct PatternTemplate {
    /// Kind and timing.
    pub kind: RawPatternKind,
    /// Color used whatever the team's color, if set.
    pub static_color: Option<TeamColor>,
}

/// Color used when neither the template nor the caller gives one: white (`h` 0, `s` 0, `v` 1).
pub open spec fn fallback_color() -> TeamColor {
    TeamColor { h: 0x0000_0000, s: 0x0000_0000, v: 0x3f80_0000 }
}

/// White, the color used when no other is known.
pub fn default_color() -> (c: TeamColor)
    ensures
        c == fallback_color(),
{
    TeamColor { h: 0x0000_0000, s: 0x0000_0000, v: 0x3f80_0000 }
}

/// Details of a configured timing shown in `color`.
pub open spec fn details_with(d: RawPatternDetails, color: TeamColor) -> BuzzerPatternDetails {
    BuzzerPatternDetails { duration_ms: d.duration_ms, period_ms: d.period_ms, dc: d.dc, color }
}

/// Color a template shows: its own static color, else `fallback`, else white.
pub open spec fn resolved_color(t: PatternTemplate, fallback: Option<TeamColor>) -> TeamColor {
    match t.static_color {
        Some(c) => c,
        None => match fallback {
            Some(c) => c,
            None => fallback_color(),
        },
    }
}

/// Pattern a template produces for a team of color `fallback` (if any).
pub open spec fn template_pattern(t: PatternTemplate, fallback: Option<TeamColor>) -> BuzzerPattern {
    match t.kind {
        RawPatternKind::Off => BuzzerPattern::Off,
        RawPatternKind::Blink(d) => BuzzerPattern::Blink(details_with(d, resolved_color(t, fallback))),
        RawPatternKind::Wave(d) => BuzzerPattern::Wave(details_with(d, resolved_color(t, fallback))),
    }
}

impl RawPatternDetails {
    /// The timing shown in `color`.
    pub fn to_buzzer_pattern_details(&self, color: TeamColor) -> (d: BuzzerPatternDetails)
        ensures
            d == details_with(*self, color),
    {
        BuzzerPatternDetails { duration_ms: self.duration_ms, period_ms: self.period_ms, dc: self.dc, color }
    }
}

impl PatternTemplate {
    /// A blinking template.
    pub fn blink(duration_ms: usize, period_ms: usize, dc: u32, static_color: Option<TeamColor>) -> (t: Self)
        ensures
            t == (PatternTemplate { kind: RawPatternKind::Blink(RawPatternDetails { duration_ms, period_ms, dc }), static_color }),
    {
        PatternTemplate { kind: RawPatternKind::Blink(RawPatternDetails { duration_ms, period_ms, dc }), static_color }
    }

    /// A waving template.
    pub fn wave(duration_ms: usize, period_ms: usize, dc: u32, static_color: Option<TeamColor>) -> (t: Self)
        ensures
            t == (PatternTemplate { kind: RawPatternKind::Wave(RawPatternDetails { duration_ms, period_ms, dc }), static_color }),
    {
        PatternTemplate { kind: RawPatternKind::Wave(RawPatternDetails { duration_ms, period_ms, dc }), static_color }
    }

    /// A template that switches the lights off.
    pub fn off() -> (t: Self)
        ensures
            t == (PatternTemplate { kind: RawPatternKind::Off, static_color: None }),
    {
        PatternTemplate { kind: RawPatternKind::Off, static_color: None }
    }

    /// Color shown: the static color, else `fallback`, else white.
    pub fn resolve_color(&self, fallback: Option<TeamColor>) -> (c: TeamColor)
        ensures
            c == resolved_color(*self, fallback),
    {
        match self.static_color {
            Some(c) => c,
            None => match fallback {
                Some(c) => c,
                None => default_color(),
            },
        }
    }

    /// The pattern this template produces for a team of color `fallback` (if any).
    pub fn pattern(&self, fallback: Option<TeamColor>) -> (p: BuzzerPattern)
        ensures
            p == template_pattern(*self, fallback),
    {
        match self.kind {
            RawPatternKind::Off => BuzzerPattern::Off,
            RawPatternKind::Blink(details) => BuzzerPattern::Blink(details.to_buzzer_pattern_details(self.resolve_color(fallback))),
            RawPatternKind::Wave(details) => BuzzerPattern::Wave(details.to_buzzer_pattern_details(self.resolve_color(fallback))),
        }
    }
}

/// The situations a buzzer light is set for.
#[derive(Clone, Copy, Debug, PartialEq)]
pub enum BuzzerPatternPreset {
    /// Waiting to be paired during preparation.
    WaitingForPairing,
    /// Standing by, in the team's color.
    Standby(TeamColor),
    /// Allowed to answer, in the team's color.
    Playing(TeamColor),
    /// Answering, in the team's color.
    Answering(TeamColor),
    /// Waiting for another team.
    Waiting,
}

/// One template per situation.
#[derive(Clone, Copy, Debug, PartialEq)]
pub struct PatternSet {
    /// While waiting for pairing.
    pub waiting_for_pairing: PatternTemplate,
    /// While standing by.
    pub standby: PatternTemplate,
    /// While allowed to answer.
    pub playing: PatternTemplate,
    /// While answering.
    pub answering: PatternTemplate,
    /// While another team answers.
    pub waiting: PatternTemplate,
}

/// Pattern shown in a situation, with the team color that the situation carries.
pub open spec fn preset_pattern(set: PatternSet, preset: BuzzerPatternPreset) -> BuzzerPattern {
    match preset {
        BuzzerPatternPreset::WaitingForPairing => template_pattern(set.waiting_for_pairing, None),
        BuzzerPatternPreset::Standby(c) => template_pattern(set.standby, Some(c)),
        BuzzerPatternPreset::Playing(c) => template_pattern(set.playing, Some(c)),
        BuzzerPatternPreset::Answering(c) => template_pattern(set.answering, Some(c)),
        BuzzerPatternPreset::Waiting => template_pattern(set.waiting, None),
    }
}

impl PatternSet {
    /// The pattern for a situation.
    pub fn pattern(&self, preset: BuzzerPatternPreset) -> (p: BuzzerPattern)
        ensures
            p == preset_pattern(*self, preset),
    {
        match preset {
            BuzzerPatternPreset::WaitingForPairing => self.waiting_for_pairing.pattern(None),
            BuzzerPatternPreset::Standby(color) => self.standby.pattern(Some(color)),
            BuzzerPatternPreset::Playing(color) => self.playing.pattern(Some(color)),
            BuzzerPatternPreset::Answering(color) => self.answering.pattern(Some(color)),
            BuzzerPatternPreset::Waiting => self.waiting.pattern(None),
        }
    }
}

/// Built-in templates: green blinking while waiting for pairing (one second, 200 ms period,
/// half duty), a slow wave on standby (5 s period, 0.2 duty), a faster wave when allowed to
/// answer (3 s, half duty), fast blinking while answering (500 ms, half duty), and lights off
/// while another team answers.
pub open spec fn builtin_patterns() -> PatternSet {
    PatternSet {
        waiting_for_pairing: PatternTemplate {
            kind: RawPatternKind::Blink(RawPatternDetails { duration_ms: 1000, period_ms: 200, dc: 0x3f00_0000 }),
            static_color: Some(TeamColor { h: 0x42fa_0000, s: 0x3f80_0000, v: 0x3f80_0000 }),
        },
        standby: PatternTemplate {
            kind: RawPatternKind::Wave(RawPatternDetails { duration_ms: 0, period_ms: 5000, dc: 0x3e4c_cccd }),
            static_color: None,
        },
        playing: PatternTemplate {
            kind: RawPatternKind::Wave(RawPatternDetails { duration_ms: 0, period_ms: 3000, dc: 0x3f00_0000 }),
            static_color: None,
        },
        answering: PatternTemplate {
            kind: RawPatternKind::Blink(RawPatternDetails { duration_ms: 0, period_ms: 500, dc: 0x3f00_0000 }),
            static_color: None,
        },
        waiting: PatternTemplate { kind: RawPatternKind::Off, static_color: None },
    }
}

/// The built-in templates (see [`builtin_patterns`]).
pub fn default_patterns() -> (p: PatternSet)
    ensures
        p == builtin_patterns(),
{
    PatternSet {
        waiting_for_pairing: PatternTemplate::blink(1_000, 200, 0x3f00_0000, Some(TeamColor { h: 0x42fa_0000, s: 0x3f80_0000, v: 0x3f80_0000 })),
        standby: PatternTemplate::wave(0, 5_000, 0x3e4c_cccd, None),
        playing: PatternTemplate::wave(0, 3_000, 0x3f00_0000, None),
        answering: PatternTemplate::blink(0, 500, 0x3f00_0000, None),
        waiting: PatternTemplate::off(),
    }
}

/// A configured template: its kind, and optionally a static color.
#[derive(Clone, Copy, Debug)]
pub struct RawPatternTemplate {
    /// Kind and timing.
    pub kind: RawPatternKind,
    /// Static color, if configured.
    pub static_color: Option<TeamColor>,
}

/// Template made from a configured one: its kind, and its static color or else the one of
/// `default`.
pub open spec fn overlaid(raw: RawPatternTemplate, default: PatternTemplate) -> PatternTemplate {
    PatternTemplate {
        kind: raw.kind,
        static_color: match raw.static_color {
            Some(c) => Some(c),
            None => default.static_color,
        },
    }
}

impl RawPatternTemplate {
    /// The template, inheriting the static color of `default` when none is configured.
    pub fn into_template(self, default: &PatternTemplate) -> (t: PatternTemplate)
        ensures
            t == overlaid(self, *default),
    {
        let static_color = match self.static_color {
            Some(c) => Some(c),
            None => default.static_color,
        };
        PatternTemplate { kind: self.kind, static_color }
    }
}

/// Configured templates, each optional.
#[derive(Clone, Copy, Debug)]
pub struct RawPatternSet {
    /// While waiting for pairing.
    pub waiting_for_pairing: Option<RawPatternTemplate>,
    /// While standing by.
    pub standby: Option<RawPatternTemplate>,
    /// While allowed to answer.
    pub playing: Option<RawPatternTemplate>,
    /// While answering.
    pub answering: Option<RawPatternTemplate>,
    /// While another team answers.
    pub waiting: Option<RawPatternTemplate>,
}

/// A configured template laid over a default one; absent, the default stays.
pub open spec fn overlaid_opt(raw: Option<RawPatternTemplate>, default: PatternTemplate) -> PatternTemplate {
    match raw {
        Some(r) => overlaid(r, default),
        None => default,
    }
}

/// Configured templates laid over `defaults`, situation by situation.
pub open spec fn merged(raw: RawPatternSet, defaults: PatternSet) -> PatternSet {
    PatternSet {
        waiting_for_pairing: overlaid_opt(raw.waiting_for_pairing, defaults.waiting_for_pairing),
        standby: overlaid_opt(raw.standby, defaults.standby),
        playing: overlaid_opt(raw.playing, defaults.playing),
        answering: overlaid_opt(raw.answering, defaults.answering),
        waiting: overlaid_opt(raw.waiting, defaults.waiting),
    }
}

impl RawPatternSet {
    /// Lay the configured templates over `defaults`.
    pub fn merge(self, defaults: PatternSet) -> (p: PatternSet)
        ensures
            p == merged(self, defaults),
    {
        let mut defaults = defaults;
        if let Some(pattern) = self.waiting_for_pairing {
            defaults.waiting_for_pairing = pattern.into_template(&defaults.waiting_for_pairing);
        }
        if let Some(pattern) = self.standby {
            defaults.standby = pattern.into_template(&defaults.standby);
        }
        if let Some(pattern) = self.playing {
            defaults.playing = pattern.into_template(&defaults.playing);
        }
        if let Some(pattern) = self.answering {
            defaults.answering = pattern.into_template(&defaults.answering);
        }
        if let Some(pattern) = self.waiting {
            defaults.waiting = pattern.into_template(&defaults.waiting);
        }
        defaults
    }
}

/// Lay configured templates over the built-in ones.
pub fn override_default_patterns(raw_pattern_set: RawPatternSet) -> (p: PatternSet)
    ensures
        p == merged(raw_pattern_set, builtin_patterns()),
{
    raw_pattern_set.merge(default_patterns())
}

} // verus!
