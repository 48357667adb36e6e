//! Runtime configuration: the set of team colors and the buzzer light patterns.

use vstd::prelude::*;
use vstd::std_specs::convert::FromSpecImpl;

use crate::game::{same_color, TeamColor};
use crate::patterns::{
    builtin_patterns, default_color, default_patterns, fallback_color, merged, override_default_patterns,
    preset_pattern, BuzzerPattern, BuzzerPatternPreset, PatternSet, RawPatternSet,
};

verus! {

/// Configuration shared by the whole application.
#[derive(Clone, Debug)]
pub struct AppConfig {
    /// Colors handed to new teams, in order of preference.
    pub colors: Vec<TeamColor>,
    /// Buzzer light patterns.
    pub patterns: PatternSet,
}

/// The built-in color set: twenty well-separated hues, the first seven fully saturated.
pub open spec fn builtin_colors() -> Seq<TeamColor> {
    seq![
        TeamColor { h: 0xc281_6344, s: 0x3f80_0000, v: 0x3f80_0000 },
        TeamColor { h: 0x42ee_a9b7, s: 0x3f80_0000, v: 0x3f80_0000 },
        TeamColor { h: 0xc2e3_26b8, s: 0x3f80_0000, v: 0x3f80_0000 },
        TeamColor { h: 0x4209_7691, s: 0x3f80_0000, v: 0x3f80_0000 },
        TeamColor { h: 0xc329_6957, s: 0x3f80_0000, v: 0x3f80_0000 },
        TeamColor { h: 0xc198_aa74, s: 0x3f80_0000, v: 0x3f80_0000 },
        TeamColor { h: 0x426b_845f, s: 0x3f80_0000, v: 0x3f80_0000 },
        TeamColor { h: 0xc306_590b, s: 0x3f19_999a, v: 0x3f80_0000 },
        TeamColor { h: 0x4319_28f4, s: 0x3f19_999a, v: 0x3f80_0000 },
        TeamColor { h: 0xc217_bc09, s: 0x3f19_999a, v: 0x3f80_0000 },
        TeamColor { h: 0xc2b5_9860, s: 0x3f19_999a, v: 0x3f80_0000 },
        TeamColor { h: 0x4232_5106, s: 0x3f19_999a, v: 0x3f80_0000 },
        TeamColor { h: 0xc00f_5af2, s: 0x3f19_999a, v: 0x3f80_0000 },
        TeamColor { h: 0xc332_5237, s: 0x3f19_999a, v: 0x3f80_0000 },
        TeamColor { h: 0xc314_7918, s: 0x3f80_0000, v: 0x3f80_0000 },
        TeamColor { h: 0x414c_e662, s: 0x3f80_0000, v: 0x3f80_0000 },
        TeamColor { h: 0x42a4_cdcd, s: 0x3f19_999a, v: 0x3f80_0000 },
        TeamColor { h: 0x41c2_565e, s: 0x3f19_999a, v: 0x3f80_0000 },
        TeamColor { h: 0x432a_9e4e, s: 0x3f80_0000, v: 0x3f80_0000 },
        TeamColor { h: 0xc31f_b481, s: 0x3f19_999a, v: 0x3f80_0000 }
    ]
}

/// The built-in color set (see [`builtin_colors`]).
pub fn default_colors() -> (v: Vec<TeamColor>)
    ensures
        v@ == builtin_colors(),
{
    let v = vec![
        TeamColor { h: 0xc281_6344, s: 0x3f80_0000, v: 0x3f80_0000 },
        TeamColor { h: 0x42ee_a9b7, s: 0x3f80_0000, v: 0x3f80_0000 },
        TeamColor { h: 0xc2e3_26b8, s: 0x3f80_0000, v: 0x3f80_0000 },
        TeamColor { h: 0x4209_7691, s: 0x3f80_0000, v: 0x3f80_0000 },
        TeamColor { h: 0xc329_6957, s: 0x3f80_0000, v: 0x3f80_0000 },
        TeamColor { h: 0xc198_aa74, s: 0x3f80_0000, v: 0x3f80_0000 },
        TeamColor { h: 0x426b_845f, s: 0x3f80_0000, v: 0x3f80_0000 },
        TeamColor { h: 0xc306_590b, s: 0x3f19_999a, v: 0x3f80_0000 },
        TeamColor { h: 0x4319_28f4, s: 0x3f19_999a, v: 0x3f80_0000 },
        TeamColor { h: 0xc217_bc09, s: 0x3f19_999a, v: 0x3f80_0000 },
        TeamColor { h: 0xc2b5_9860, s: 0x3f19_999a, v: 0x3f80_0000 },
        TeamColor { h: 0x4232_5106, s: 0x3f19_999a, v: 0x3f80_0000 },
        TeamColor { h: 0xc00f_5af2, s: 0x3f19_999a, v: 0x3f80_0000 },
        TeamColor { h: 0xc332_5237, s: 0x3f19_999a, v: 0x3f80_0000 },
        TeamColor { h: 0xc314_7918, s: 0x3f80_0000, v: 0x3f80_0000 },
        TeamColor { h: 0x414c_e662, s: 0x3f80_0000, v: 0x3f80_0000 },
        TeamColor { h: 0x42a4_cdcd, s: 0x3f19_999a, v: 0x3f80_0000 },
        TeamColor { h: 0x41c2_565e, s: 0x3f19_999a, v: 0x3f80_0000 },
        TeamColor { h: 0x432a_9e4e, s: 0x3f80_0000, v: 0x3f80_0000 },
        TeamColor { h: 0xc31f_b481, s: 0x3f19_999a, v: 0x3f80_0000 },
    ];
    assert(v@ =~= builtin_colors());
    v
}

/// `used` holds a color equal to `c` (as `f32` values).
pub open spec fn holds_color(used: Seq<TeamColor>, c: TeamColor) -> bool {
    exists|i: int| 0 <= i < used.len() && same_color(#[trigger] used[i], c)
}

/// First color of `colors` that `used` does not hold; white when every one is taken.
pub open spec fn first_unused(colors: Seq<TeamColor>, used: Seq<TeamColor>) -> TeamColor
    decreases colors.len(),
{
    if colors.len() == 0 {
        fallback_color()
    } else if !holds_color(used, colors[0]) {
        colors[0]
    } else {
        first_unused(colors.drop_first(), used)
    }
}

/// Whether `used` holds a color equal to `c` (as `f32` values).
pub fn color_in(used: &[TeamColor], c: TeamColor) -> (b: bool)
    ensures
        b == holds_color(used@, c),
{
    let mut i: usize = 0;
    while i < used.len()
        invariant
            i <= used@.len(),
            forall|j: int| 0 <= j < i ==> !same_color(#[trigger] used@[j], c),
        decreases used@.len() - i,
    {
        if used[i] == c {
            assert(same_color(used@[i as int], c));
            return true;
        }
        i = i + 1;
    }
    false
}

impl AppConfig {
    /// The first configured color that no team uses yet; white when every configured color
    /// is taken.
    pub fn first_unused_color(&self, used: &[TeamColor]) -> (c: TeamColor)
        ensures
            c == first_unused(self.colors@, used@),
    {
        let n = self.colors.len();
        let mut i: usize = 0;
        assert(self.colors@.skip(0) =~= self.colors@);
        while i < n
            invariant
                n == self.colors@.len(),
                i <= n,
                first_unused(self.colors@, used@) == first_unused(self.colors@.skip(i as int), used@),
            decreases n - i,
        {
            let candidate = self.colors[i];
            assert(self.colors@.skip(i as int)[0] == candidate);
            if !color_in(used, candidate) {
                return candidate;
            }
            assert(self.colors@.skip(i as int).drop_first() =~= self.colors@.skip(i + 1));
            i = i + 1;
        }
        assert(self.colors@.skip(n as int).len() == 0);
        default_color()
    }

    /// Light pattern for a situation.
    pub fn buzzer_pattern(&self, preset: BuzzerPatternPreset) -> (p: BuzzerPattern)
        ensures
            p == preset_pattern(self.patterns, preset),
    {
        self.patterns.pattern(preset)
    }
}

impl Default for AppConfig {
    /// The built-in colors and patterns.
    fn default() -> (c: Self)
        ensures
            c.colors@ == builtin_colors(),
            c.patterns == builtin_patterns(),
    {
        AppConfig { colors: default_colors(), patterns: default_patterns() }
    }
}

/// A configured color, as the bits of its hue, saturation and value.
#[derive(Clone, Copy, Debug)]
pub struct RawColor {
    /// Bits of the hue.
    pub hue: u32,
    /// Bits of the saturation.
    pub saturation: u32,
    /// Bits of the value.
    pub value: u32,
}

/// The team color of a configured color.
pub open spec fn color_of(raw: RawColor) -> TeamColor {
    TeamColor { h: raw.hue, s: raw.saturation, v: raw.value }
}

impl FromSpecImpl<RawColor> for TeamColor {
    open spec fn obeys_from_spec() -> bool {
        true
    }

    open spec fn from_spec(v: RawColor) -> TeamColor {
        color_of(v)
    }
}

impl From<RawColor> for TeamColor {
    fn from(value: RawColor) -> Self {
        TeamColor { h: value.hue, s: value.saturation, v: value.value }
    }
}

/// Configuration as read from its file: colors (possibly none) and optional patterns.
#[derive(Clone, Debug)]
pub struct RawConfig {
    /// Configured colors.
    pub colors: Vec<RawColor>,
    /// Configured patterns.
    pub patterns: Option<RawPatternSet>,
}

/// Colors of a configuration: the configured ones in order, or the built-in set when none is
/// configured.
pub open spec fn configured_colors(raw: Seq<RawColor>) -> Seq<TeamColor> {
    if raw.len() == 0 {
        builtin_colors()
    } else {
        raw.map_values(|c: RawColor| color_of(c))
    }
}

/// Patterns of a configuration: the configured ones laid over the built-in set.
pub open spec fn configured_patterns(raw: Option<RawPatternSet>) -> PatternSet {
    match raw {
        Some(p) => merged(p, builtin_patterns()),
        None => builtin_patterns(),
    }
}

/// A configuration holds a `Vec`, which no spec value can construct; the conversion states
/// its result in its own `ensures`.
impl FromSpecImpl<RawConfig> for AppConfig {
    open spec fn obeys_from_spec() -> bool {
        false
    }

    open spec fn from_spec(v: RawConfig) -> AppConfig {
        arbitrary()
    }
}

impl From<RawConfig> for AppConfig {
    fn from(value: RawConfig) -> (c: Self)
        ensures
            c.colors@ == configured_colors(value.colors@),
            c.patterns == configured_patterns(value.patterns),
    {
        let colors = if value.colors.len() == 0 {
            default_colors()
        } else {
            let n = value.colors.len();
            let mut out: Vec<TeamColor> = Vec::new();
            let mut i: usize = 0;
            while i < n
                invariant
                    n == value.colors@.len(),
                    i <= n,
                    out@ == value.colors@.take(i as int).map_values(|c: RawColor| color_of(c)),
                decreases n - i,
            {
                out.push(TeamColor::from(value.colors[i]));
                assert(value.colors@.take(i + 1).map_values(|c: RawColor| color_of(c))
                    =~= value.colors@.take(i as int).map_values(|c: RawColor| color_of(c)).push(color_of(value.colors@[i as int])));
                i = i + 1;
            }
            assert(value.colors@.take(n as int) =~= value.colors@);
            out
        };
        let patterns = match value.patterns {
            Some(p) => override_default_patterns(p),
            None => default_patterns(),
        };
        AppConfig { colors, patterns }
    }
}

} // verus!
