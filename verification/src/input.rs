//! Question and team definitions submitted by administrators.

use vstd::prelude::*;

use crate::game::TeamColor;

verus! {

/// Questions sequence submitted for import.
#[derive(Debug)]
pub struct QuestionsSequenceInput {
    /// Display name of the sequence.
    pub name: String,
    /// Questions in import order.
    pub questions: Vec<QuestionInput>,
}

/// A submitted question of any kind.
#[derive(Debug)]
pub enum QuestionInput {
    /// Blindtest question.
    BlindTest(BlindTestQuestionInput),
    /// Multiple-choice question.
    MultipleChoice(MultipleChoiceQuestionInput),
    /// Open question.
    Open(OpenQuestionInput),
}

/// Submitted blindtest question.
#[derive(Debug)]
pub struct BlindTestQuestionInput {
    /// Where playback starts, in milliseconds.
    pub starts_at_ms: usize,
    /// Time allowed to answer, in milliseconds.
    pub guess_duration_ms: usize,
    /// Media URL.
    pub url: String,
    /// Answers in import order.
    pub answers: Vec<BlindTestAnswerInput>,
}

/// Submitted multiple-choice question.
#[derive(Debug)]
pub struct MultipleChoiceQuestionInput {
    /// Time allowed to answer, in milliseconds.
    pub guess_duration_ms: usize,
    /// Prompt shown to the players.
    pub prompt: String,
    /// Optional supporting media URL.
    pub url: Option<String>,
    /// Choices in import order.
    pub answers: Vec<MultipleChoiceAnswerInput>,
    /// Hints in import order.
    pub hints: Vec<String>,
}

/// Submitted open question.
#[derive(Debug)]
pub struct OpenQuestionInput {
    /// Time allowed to answer, in milliseconds.
    pub guess_duration_ms: usize,
    /// Prompt shown to the players.
    pub prompt: String,
    /// Optional supporting media URL.
    pub url: Option<String>,
    /// Accepted answers in import order.
    pub answers: Vec<OpenAnswerInput>,
    /// Hints in import order.
    pub hints: Vec<String>,
}

/// Submitted blindtest answer field.
#[derive(Debug)]
pub struct BlindTestAnswerInput {
    /// Name of the field.
    pub key: String,
    /// Expected value.
    pub value: String,
    /// Points awarded when found.
    pub points: u8,
    /// Whether this answer is a bonus.
    pub is_bonus: bool,
}

/// Submitted multiple-choice answer.
#[derive(Debug)]
pub struct MultipleChoiceAnswerInput {
    /// Choice text.
    pub text: String,
    /// Whether the choice is correct.
    pub is_correct: bool,
}

/// Submitted open answer.
#[derive(Debug)]
pub struct OpenAnswerInput {
    /// Accepted text.
    pub text: String,
}

/// Playlist in the older format: songs with point and bonus fields.
#[derive(Debug)]
pub struct LegacyPlaylistInput {
    /// Display name of the playlist.
    pub name: String,
    /// Songs in order.
    pub songs: Vec<LegacySongInput>,
}

/// Song in the older playlist format.
#[derive(Debug)]
pub struct LegacySongInput {
    /// Where playback starts, in milliseconds.
    pub starts_at_ms: usize,
    /// Time allowed to answer, in milliseconds.
    pub guess_duration_ms: usize,
    /// Media URL.
    pub url: String,
    /// Regular fields.
    pub point_fields: Vec<LegacyPointFieldInput>,
    /// Bonus fields.
    pub bonus_fields: Vec<LegacyPointFieldInput>,
}

/// Field of a song in the older playlist format.
#[derive(Debug)]
pub struct LegacyPointFieldInput {
    /// Name of the field.
    pub key: String,
    /// Expected value.
    pub value: String,
    /// Points awarded when found.
    pub points: u8,
}

/// Team definition submitted when creating or updating a team.
#[derive(Debug)]
pub struct TeamInput {
    /// Display name.
    pub name: String,
    /// Absent: leave as is; `Some(None)`: remove the buzzer; `Some(Some(id))`: set it.
    pub buzzer_id: Option<Option<String>>,
    /// Initial score (zero when absent).
    pub score: Option<i32>,
    /// Color (the first unused color of the configured set when absent).
    pub color: Option<TeamColor>,
}

/// Request to create a game together with a new questions sequence.
#[derive(Debug)]
pub struct CreateGameWithQuestionsSequenceRequest {
    /// Display name of the game.
    pub name: String,
    /// Teams taking part.
    pub teams: Vec<TeamInput>,
    /// The questions sequence to import.
    pub questions_sequence: QuestionsSequenceInput,
}

/// Request to create a game together with a playlist in the older format.
#[derive(Debug)]
pub struct LegacyCreateGameWithPlaylistRequest {
    /// Display name of the game.
    pub name: String,
    /// Teams taking part.
    pub teams: Vec<TeamInput>,
    /// The playlist to import.
    pub playlist: LegacyPlaylistInput,
}

/// Request to create a game from a stored questions sequence.
#[derive(Debug)]
pub struct CreateGameRequest {
    /// Display name of the game.
    pub name: String,
    /// Teams taking part.
    pub teams: Vec<TeamInput>,
    /// Identifier of the stored sequence.
    pub questions_sequence_id: u128,
}

} // verus!
