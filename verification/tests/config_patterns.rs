use neon_beat_back::config::{default_colors, AppConfig, RawColor, RawConfig};
use neon_beat_back::game::TeamColor;
use neon_beat_back::patterns::{
    default_patterns, BuzzerPattern, BuzzerPatternDetails, BuzzerPatternPreset, PatternTemplate, RawPatternKind,
    RawPatternSet, RawPatternTemplate,
};

fn hsv(h: f32, s: f32, v: f32) -> TeamColor {
    TeamColor { h: h.to_bits(), s: s.to_bits(), v: v.to_bits() }
}

#[test]
fn built_in_colors_match_their_values() {
    let colors = default_colors();
    assert_eq!(colors.len(), 20);
    assert_eq!(colors[0], hsv(-64.69388, 1.0, 1.0));
    assert_eq!(colors[7], hsv(-134.34782, 0.6, 1.0));
    assert_eq!(colors[19], hsv(-159.7051, 0.6, 1.0));
}

#[test]
fn first_unused_color_skips_taken_ones() {
    let config = AppConfig::default();
    let colors = default_colors();
    assert_eq!(config.first_unused_color(&[]), colors[0]);
    assert_eq!(config.first_unused_color(&[colors[0], colors[2]]), colors[1]);
}

#[test]
fn white_when_every_color_is_taken() {
    let config = AppConfig::from(RawConfig {
        colors: vec![RawColor { hue: 10.0f32.to_bits(), saturation: 1.0f32.to_bits(), value: 1.0f32.to_bits() }],
        patterns: None,
    });
    let only = hsv(10.0, 1.0, 1.0);
    assert_eq!(config.colors, vec![only]);
    assert_eq!(config.first_unused_color(&[only]), hsv(0.0, 0.0, 1.0));
}

#[test]
fn empty_color_list_falls_back_to_built_in_colors() {
    let config = AppConfig::from(RawConfig { colors: Vec::new(), patterns: None });
    assert_eq!(config.colors, default_colors());
    assert_eq!(config.patterns, default_patterns());
}

#[test]
fn patterns_take_the_team_color_unless_static() {
    let config = AppConfig::default();
    let red = hsv(0.0, 1.0, 1.0);
    assert_eq!(
        config.buzzer_pattern(BuzzerPatternPreset::Playing(red)),
        BuzzerPattern::Wave(BuzzerPatternDetails { duration_ms: 0, period_ms: 3000, dc: 0.5f32.to_bits(), color: red })
    );
    assert_eq!(
        config.buzzer_pattern(BuzzerPatternPreset::WaitingForPairing),
        BuzzerPattern::Blink(BuzzerPatternDetails {
            duration_ms: 1000,
            period_ms: 200,
            dc: 0.5f32.to_bits(),
            color: hsv(125.0, 1.0, 1.0)
        })
    );
    assert_eq!(config.buzzer_pattern(BuzzerPatternPreset::Waiting), BuzzerPattern::Off);
    assert_eq!(
        config.buzzer_pattern(BuzzerPatternPreset::Standby(red)),
        BuzzerPattern::Wave(BuzzerPatternDetails { duration_ms: 0, period_ms: 5000, dc: 0.2f32.to_bits(), color: red })
    );
}

#[test]
fn configured_patterns_overlay_the_defaults() {
    let blue = hsv(240.0, 1.0, 1.0);
    let raw = RawPatternSet {
        waiting_for_pairing: Some(RawPatternTemplate { kind: RawPatternKind::Off, static_color: None }),
        standby: None,
        playing: Some(RawPatternTemplate {
            kind: RawPatternKind::Blink(neon_beat_back::patterns::RawPatternDetails {
                duration_ms: 1,
                period_ms: 2,
                dc: 0.25f32.to_bits(),
            }),
            static_color: Some(blue),
        }),
        answering: None,
        waiting: None,
    };
    let config = AppConfig::from(RawConfig { colors: Vec::new(), patterns: Some(raw) });
    let defaults = default_patterns();
    assert_eq!(config.patterns.standby, defaults.standby);
    assert_eq!(
        config.patterns.waiting_for_pairing,
        PatternTemplate { kind: RawPatternKind::Off, static_color: defaults.waiting_for_pairing.static_color }
    );
    let red = hsv(0.0, 1.0, 1.0);
    assert_eq!(
        config.buzzer_pattern(BuzzerPatternPreset::Playing(red)),
        BuzzerPattern::Blink(BuzzerPatternDetails { duration_ms: 1, period_ms: 2, dc: 0.25f32.to_bits(), color: blue })
    );
}

#[test]
fn colors_compare_as_float_values() {
    let config = AppConfig::from(RawConfig {
        colors: vec![
            RawColor { hue: 0.0f32.to_bits(), saturation: 1.0f32.to_bits(), value: 1.0f32.to_bits() },
            RawColor { hue: 5.0f32.to_bits(), saturation: 1.0f32.to_bits(), value: 1.0f32.to_bits() },
        ],
        patterns: None,
    });
    assert_eq!(config.first_unused_color(&[hsv(-0.0, 1.0, 1.0)]), hsv(5.0, 1.0, 1.0));
    let nan = hsv(f32::NAN, 1.0, 1.0);
    let with_nan = AppConfig::from(RawConfig {
        colors: vec![RawColor { hue: f32::NAN.to_bits(), saturation: 1.0f32.to_bits(), value: 1.0f32.to_bits() }],
        patterns: None,
    });
    let chosen = with_nan.first_unused_color(&[nan]);
    assert!(chosen.h == f32::NAN.to_bits());
}
