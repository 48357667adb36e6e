//! Requests and responses of the administration interface.

use vstd::prelude::*;

use crate::input::TeamInput;
use crate::summary::{QuestionSummary, TeamBriefSummary, TeamSummary};

verus! {

/// Mark an answer of the current question as found.
#[derive(Debug)]
pub struct AnswerFoundRequest {
    /// Question the answer belongs to.
    pub question_id: u32,
    /// Identifier of the answer.
    pub answer_id: u8,
}

/// Answers found so far for the current question.
#[derive(Debug)]
pub struct AnswersFoundResponse {
    /// Current question.
    pub question_id: u32,
    /// Identifiers of the answers found, in the order they were found.
    pub answers_ids: Vec<u8>,
}

/// Reveal a hint of the current question.
#[derive(Debug)]
pub struct QuestionHintRequest {
    /// Question the hint belongs to.
    pub question_id: u32,
    /// Identifier of the hint.
    pub hint_id: u8,
}

/// Hints revealed so far for the current question.
#[derive(Debug)]
pub struct QuestionHintsResponse {
    /// Current question.
    pub question_id: u32,
    /// Identifiers of the hints revealed, in the order they were revealed.
    pub hints_ids: Vec<u8>,
}

/// Verdict on an answer given after a buzz.
#[derive(Debug, Clone, Copy, PartialEq, Eq, Structural)]
pub enum QuestionValidation {
    /// Completely correct.
    Correct,
    /// Partially correct.
    Incomplete,
    /// Incorrect.
    Wrong,
}

/// Verdict on the answer to the current question.
#[derive(Debug)]
pub struct QuestionValidationRequest {
    /// Question being answered.
    pub question_id: u32,
    /// The verdict.
    pub valid: QuestionValidation,
}

/// Change a team's score by a delta.
#[derive(Debug)]
pub struct ScoreAdjustmentRequest {
    /// Points added (negative to subtract).
    pub delta: i32,
}

/// Acknowledgement of an administrative action.
#[derive(Debug)]
pub struct ActionResponse {
    /// What happened.
    pub message: String,
}

/// New score of a team.
#[derive(Debug)]
pub struct ScoreUpdateResponse {
    /// The team.
    pub team_id: u128,
    /// Its new score.
    pub score: i32,
}

/// Create a team during preparation.
#[derive(Debug)]
pub struct CreateTeamRequest(pub TeamInput);

/// Update a team during preparation.
#[derive(Debug)]
pub struct UpdateTeamRequest(pub TeamInput);

/// Start pairing buzzers, beginning with the given team.
#[derive(Debug)]
pub struct StartPairingRequest {
    /// First team expected to press its buzzer.
    pub first_team_id: u128,
}

/// First question of a started game.
#[derive(Debug)]
pub struct StartGameResponse {
    /// The question.
    pub question: QuestionSummary,
}

/// State of the sequence after moving to the next question.
#[derive(Debug)]
pub struct NextQuestionResponse {
    /// Whether the sequence is over.
    pub finished: bool,
    /// The next question, if any.
    pub question: Option<QuestionSummary>,
}

/// Standings when a game is stopped.
#[derive(Debug)]
pub struct StopGameResponse {
    /// Teams with their final scores.
    pub teams: Vec<TeamSummary>,
}

/// Options when creating a game.
#[derive(Debug)]
pub struct CreateGameQuery {
    /// Whether to shuffle the question order.
    pub shuffle: bool,
}

/// Options when loading a stored game.
#[derive(Debug)]
pub struct LoadGameQuery {
    /// Whether to shuffle the question order.
    pub shuffle: bool,
}

/// Query of routes that take no option.
#[derive(Debug)]
pub struct NoQuery {}

/// Stored questions sequence available for new games.
#[derive(Debug)]
pub struct QuestionsSequenceListItem {
    /// Identifier of the sequence.
    pub id: u128,
    /// Display name.
    pub name: String,
}

/// Stored sequence shown as a playlist in the older format.
#[derive(Debug)]
pub struct LegacyPlaylistListItem {
    /// Identifier of the sequence, hyphenated.
    pub id: String,
    /// Display name.
    pub name: String,
}

/// Stored game as listed to administrators.
#[derive(Debug)]
pub struct GameListItem {
    /// Identifier of the game.
    pub id: u128,
    /// Display name.
    pub name: String,
    /// Creation time, RFC 3339.
    pub created_at: String,
    /// Last update time, RFC 3339.
    pub updated_at: String,
    /// Teams of the game.
    pub teams: Vec<TeamBriefSummary>,
    /// The questions sequence of the game.
    pub questions_sequence: QuestionsSequenceListItem,
}

} // verus!
