//! Runtime model of a game: questions, teams and the session that ties them together.

use std::collections::HashMap;

use indexmap::IndexMap;
use vstd::prelude::*;

verus! {

broadcast use vstd::std_specs::hash::group_hash_axioms;

} // verus!

verus! {

/// HSV color kept as the IEEE-754 bit patterns of its three `f32` components
/// (hue in degrees, saturation and value in `0.0..=1.0`). Colors compare as `f32` values do
/// (see [`same_color`]).
#[derive(Clone, Copy, Debug)]
pub struct TeamColor {
    /// Bits of the hue component.
    pub h: u32,
    /// Bits of the saturation component.
    pub s: u32,
    /// Bits of the value (brightness) component.
    pub v: u32,
}

/// The `f32` with bits `b` is a NaN.
pub open spec fn f32_is_nan(b: u32) -> bool {
    b % 0x8000_0000 > 0x7f80_0000
}

/// The `f32` values with bits `a` and `b` are equal: neither is a NaN, and they have the same
/// bits or are both zeros (`0.0 == -0.0`).
pub open spec fn f32_eq(a: u32, b: u32) -> bool {
    !f32_is_nan(a) && !f32_is_nan(b) && (a == b || (a % 0x8000_0000 == 0 && b % 0x8000_0000 == 0))
}

/// Two colors are equal when their three components are equal as `f32` values.
pub open spec fn same_color(c: TeamColor, d: TeamColor) -> bool {
    f32_eq(c.h, d.h) && f32_eq(c.s, d.s) && f32_eq(c.v, d.v)
}

/// Executable form of [`f32_eq`].
fn f32_bits_eq(a: u32, b: u32) -> (r: bool)
    ensures
        r == f32_eq(a, b),
{
    let a_mag = a % 0x8000_0000;
    let b_mag = b % 0x8000_0000;
    a_mag <= 0x7f80_0000 && b_mag <= 0x7f80_0000 && (a == b || (a_mag == 0 && b_mag == 0))
}

impl PartialEq for TeamColor {
    fn eq(&self, other: &Self) -> (r: bool) {
        f32_bits_eq(self.h, other.h) && f32_bits_eq(self.s, other.s) && f32_bits_eq(self.v, other.v)
    }
}

impl vstd::std_specs::cmp::PartialEqSpecImpl for TeamColor {
    open spec fn obeys_eq_spec() -> bool {
        true
    }

    open spec fn eq_spec(&self, other: &Self) -> bool {
        same_color(*self, *other)
    }
}

/// Point in time relative to the Unix epoch: `secs` whole seconds (negative before the
/// epoch) plus `nanos` nanoseconds, so that the instant is `secs + nanos / 10^9` seconds.
#[derive(Clone, Copy, Debug, PartialEq, Eq, Structural)]
pub struct Timestamp {
    /// Whole seconds, rounded down, relative to the epoch.
    pub secs: i128,
    /// Nanoseconds after `secs`.
    pub nanos: u32,
}

/// The instant of `t` in nanoseconds relative to the Unix epoch.
pub open spec fn instant_nanos(t: Timestamp) -> int {
    t.secs * 1_000_000_000 + t.nanos
}

/// A team taking part in the game.
#[derive(Clone, Debug)]
pub struct Team {
    /// Identifier of the buzzer paired with this team, if any.
    pub buzzer_id: Option<String>,
    /// Display name.
    pub name: String,
    /// Current score.
    pub score: i32,
    /// Color assigned to the team.
    pub color: TeamColor,
    /// Last time the team changed.
    pub updated_at: Timestamp,
}

/// Hint text attached to a question.
#[derive(Clone, Debug)]
pub struct Hint(pub String);

/// One expected field of a blindtest answer (e.g. the artist).
#[derive(Clone, Debug)]
pub struct BlindTestAnswer {
    /// Name of the field.
    pub key: String,
    /// Expected value.
    pub value: String,
    /// Points awarded when found.
    pub points: u8,
    /// Whether this answer is a bonus.
    pub is_bonus: bool,
}

/// One choice of a multiple-choice question.
#[derive(Clone, Debug)]
pub struct MultipleChoiceAnswer {
    /// Choice text.
    pub text: String,
    /// Whether this choice is correct.
    pub is_correct: bool,
}

/// One accepted answer of an open question.
#[derive(Clone, Debug)]
pub struct OpenAnswer {
    /// Accepted text.
    pub text: String,
}

/// Music blindtest question.
#[derive(Clone, Debug)]
pub struct BlindTestQuestion {
    /// Where playback starts, in milliseconds.
    pub starts_at_ms: usize,
    /// Time allowed to answer, in milliseconds.
    pub guess_duration_ms: usize,
    /// Media URL.
    pub url: String,
    /// Answers keyed by their zero-based identifier.
    pub answers: HashMap<u8, BlindTestAnswer>,
}

/// Multiple-choice question.
#[derive(Clone, Debug)]
pub struct MultipleChoiceQuestion {
    /// Time allowed to answer, in milliseconds.
    pub guess_duration_ms: usize,
    /// Prompt shown to the players.
    pub prompt: String,
    /// Optional supporting media URL.
    pub url: Option<String>,
    /// Choices keyed by their zero-based identifier.
    pub answers: HashMap<u8, MultipleChoiceAnswer>,
    /// Hints keyed by their zero-based identifier.
    pub hints: HashMap<u8, Hint>,
}

/// Open text question.
#[derive(Clone, Debug)]
pub struct OpenQuestion {
    /// Time allowed to answer, in milliseconds.
    pub guess_duration_ms: usize,
    /// Prompt shown to the players.
    pub prompt: String,
    /// Optional supporting media URL.
    pub url: Option<String>,
    /// Accepted answers keyed by their zero-based identifier.
    pub answers: HashMap<u8, OpenAnswer>,
    /// Hints keyed by their zero-based identifier.
    pub hints: HashMap<u8, Hint>,
}

/// A question of any kind.
#[derive(Clone, Debug)]
pub enum Question {
    /// Music blindtest.
    BlindTest(BlindTestQuestion),
    /// Multiple choice.
    MultipleChoice(MultipleChoiceQuestion),
    /// Open text.
    Open(OpenQuestion),
}

/// Questions sequence: questions keyed by identifier, in import order.
#[derive(Debug)]
pub struct QuestionsSequence {
    /// Identifier of the sequence.
    pub id: u128,
    /// Display name.
    pub name: String,
    /// Questions in import order.
    pub questions: IndexMap<u32, Question>,
}

/// A loaded game.
#[derive(Debug)]
pub struct GameSession {
    /// Identifier of the game.
    pub id: u128,
    /// Display name.
    pub name: String,
    /// Creation time.
    pub created_at: Timestamp,
    /// Last update time.
    pub updated_at: Timestamp,
    /// Teams in display order.
    pub teams: IndexMap<u128, Team>,
    /// Questions played in this game.
    pub questions_sequence: QuestionsSequence,
    /// Question identifiers in play order.
    pub question_order: Vec<u32>,
    /// Position in `question_order` of the current question, if any.
    pub current_question_index: Option<usize>,
    /// Whether the current question has been revealed.
    pub current_question_revealed: bool,
    /// Answers already found for the current question.
    pub found_answer_ids: Vec<u8>,
    /// Hints already revealed for the current question.
    pub revealed_hint_ids: Vec<u8>,
}

/// Mathematical view of a question: its fields, with answer and hint maps as `Map`s.
pub enum QuestionView {
    BlindTest {
        starts_at_ms: usize,
        guess_duration_ms: usize,
        url: String,
        answers: Map<u8, BlindTestAnswer>,
    },
    MultipleChoice {
        guess_duration_ms: usize,
        prompt: String,
        url: Option<String>,
        answers: Map<u8, MultipleChoiceAnswer>,
        hints: Map<u8, Hint>,
    },
    Open {
        guess_duration_ms: usize,
        prompt: String,
        url: Option<String>,
        answers: Map<u8, OpenAnswer>,
        hints: Map<u8, Hint>,
    },
}

impl View for Question {
    type V = QuestionView;

    open spec fn view(&self) -> QuestionView {
        match self {
            Question::BlindTest(q) => QuestionView::BlindTest {
                starts_at_ms: q.starts_at_ms,
                guess_duration_ms: q.guess_duration_ms,
                url: q.url,
                answers: q.answers@,
            },
            Question::MultipleChoice(q) => QuestionView::MultipleChoice {
                guess_duration_ms: q.guess_duration_ms,
                prompt: q.prompt,
                url: q.url,
                answers: q.answers@,
                hints: q.hints@,
            },
            Question::Open(q) => QuestionView::Open {
                guess_duration_ms: q.guess_duration_ms,
                prompt: q.prompt,
                url: q.url,
                answers: q.answers@,
                hints: q.hints@,
            },
        }
    }
}

impl QuestionView {
    /// Identifiers of the answers of the question.
    pub open spec fn answer_ids(self) -> Set<u8> {
        match self {
            QuestionView::BlindTest { answers, .. } => answers.dom(),
            QuestionView::MultipleChoice { answers, .. } => answers.dom(),
            QuestionView::Open { answers, .. } => answers.dom(),
        }
    }

    /// Identifiers that can be revealed as hints: the hints of text questions, and for a
    /// blindtest the answers themselves (revealing an answer field shows it as a hint).
    pub open spec fn hint_ids(self) -> Set<u8> {
        match self {
            QuestionView::BlindTest { answers, .. } => answers.dom(),
            QuestionView::MultipleChoice { hints, .. } => hints.dom(),
            QuestionView::Open { hints, .. } => hints.dom(),
        }
    }

    /// Whether this is a blindtest question.
    pub open spec fn is_blindtest(self) -> bool {
        self is BlindTest
    }
}

impl Question {
    /// Whether the question has an answer with identifier `answer_id`.
    pub fn has_answer(&self, answer_id: u8) -> (b: bool)
        ensures
            b == self@.answer_ids().contains(answer_id),
    {
        match self {
            Question::BlindTest(q) => q.answers.contains_key(&answer_id),
            Question::MultipleChoice(q) => q.answers.contains_key(&answer_id),
            Question::Open(q) => q.answers.contains_key(&answer_id),
        }
    }

    /// Whether the question has a hint with identifier `hint_id` (for a blindtest, an answer).
    pub fn has_hint(&self, hint_id: u8) -> (b: bool)
        ensures
            b == self@.hint_ids().contains(hint_id),
    {
        match self {
            Question::BlindTest(q) => q.answers.contains_key(&hint_id),
            Question::MultipleChoice(q) => q.hints.contains_key(&hint_id),
            Question::Open(q) => q.hints.contains_key(&hint_id),
        }
    }

    /// A copy of the question.
    pub fn duplicate(&self) -> (r: Question)
        ensures
            r@ == self@,
    {
        match self {
            Question::BlindTest(q) => Question::BlindTest(BlindTestQuestion {
                starts_at_ms: q.starts_at_ms,
                guess_duration_ms: q.guess_duration_ms,
                url: q.url.clone(),
                answers: q.answers.clone(),
            }),
            Question::MultipleChoice(q) => Question::MultipleChoice(MultipleChoiceQuestion {
                guess_duration_ms: q.guess_duration_ms,
                prompt: q.prompt.clone(),
                url: q.url.clone(),
                answers: q.answers.clone(),
                hints: q.hints.clone(),
            }),
            Question::Open(q) => Question::Open(OpenQuestion {
                guess_duration_ms: q.guess_duration_ms,
                prompt: q.prompt.clone(),
                url: q.url.clone(),
                answers: q.answers.clone(),
                hints: q.hints.clone(),
            }),
        }
    }
}

impl Team {
    /// A copy of the team.
    pub fn duplicate(&self) -> (r: Team)
        ensures
            r == *self,
    {
        Team {
            buzzer_id: self.buzzer_id.clone(),
            name: self.name.clone(),
            score: self.score,
            color: self.color,
            updated_at: self.updated_at,
        }
    }
}

} // verus!
