//! Phases of the game state machine, as seen by the logic and by clients.

use indexmap::IndexMap;
use vstd::prelude::*;
use vstd::string::*;

use crate::error::{joined, joined3, ServiceError};
use crate::game::Team;

verus! {

/// Why gameplay is paused.
#[derive(Debug)]
pub enum PauseKind {
    /// Paused by an administrator.
    Manual,
    /// Paused because a buzzer was pressed.
    Buzz {
        /// Identifier of the buzzer.
        id: String,
    },
}

/// Buzzer pairing in progress: the team expected to press its buzzer next, and the teams as
/// they were when pairing started.
#[derive(Debug)]
pub struct PairingSession {
    /// Team whose buzzer is awaited.
    pub pairing_team_id: u128,
    /// Teams before pairing started.
    pub snapshot: IndexMap<u128, Team>,
}

/// Preparation sub-phase.
#[derive(Debug)]
pub enum PrepStatus {
    /// Ready to start.
    Ready,
    /// Pairing buzzers with teams.
    Pairing(PairingSession),
}

/// Sub-phase of a running game.
#[derive(Debug)]
pub enum GameRunningPhase {
    /// Preparation.
    Prep(PrepStatus),
    /// A question is being played.
    Playing,
    /// Gameplay is paused.
    Paused(PauseKind),
    /// The answer of the current question is shown.
    Reveal,
}

/// Phase of the game state machine.
#[derive(Debug)]
pub enum GamePhase {
    /// No game loaded.
    Idle,
    /// A game is loaded.
    GameRunning(GameRunningPhase),
    /// Final scores are shown.
    ShowScores,
}

/// Why a game finishes.
#[derive(Debug, Clone, Copy, PartialEq, Eq, Structural)]
pub enum FinishReason {
    /// Stopped by an administrator.
    ManualStop,
    /// Every question has been played.
    QuestionsSequenceCompleted,
}

/// Events driving the game state machine.
#[derive(Debug)]
pub enum GameEvent {
    /// A game is created or loaded.
    StartGame,
    /// Preparation is over; the first question is played.
    GameConfigured,
    /// Gameplay pauses.
    Pause(PauseKind),
    /// Gameplay resumes.
    ContinuePlaying,
    /// The answer is revealed.
    Reveal,
    /// The next question is played.
    NextQuestion,
    /// The game finishes.
    Finish(FinishReason),
    /// The game is unloaded.
    EndGame,
    /// Buzzer pairing starts.
    PairingStarted(PairingSession),
    /// Buzzer pairing ends.
    PairingFinished,
}

/// Phase as exposed to clients.
#[derive(Debug, Clone, Copy, PartialEq, Eq, Structural)]
pub enum VisibleGamePhase {
    /// No active game.
    Idle,
    /// Preparation, ready to start.
    PrepReady,
    /// Preparation, pairing buzzers.
    PrepPairing,
    /// A question is being played.
    Playing,
    /// Paused (manually or on a buzz).
    Pause,
    /// Answer revealed.
    Reveal,
    /// Final scores.
    Scores,
}

/// The visible phase of a phase.
pub open spec fn visible_phase(p: GamePhase) -> VisibleGamePhase {
    match p {
        GamePhase::Idle => VisibleGamePhase::Idle,
        GamePhase::ShowScores => VisibleGamePhase::Scores,
        GamePhase::GameRunning(GameRunningPhase::Prep(PrepStatus::Ready)) => VisibleGamePhase::PrepReady,
        GamePhase::GameRunning(GameRunningPhase::Prep(PrepStatus::Pairing(_))) => VisibleGamePhase::PrepPairing,
        GamePhase::GameRunning(GameRunningPhase::Playing) => VisibleGamePhase::Playing,
        GamePhase::GameRunning(GameRunningPhase::Paused(_)) => VisibleGamePhase::Pause,
        GamePhase::GameRunning(GameRunningPhase::Reveal) => VisibleGamePhase::Reveal,
    }
}

impl<'a> vstd::std_specs::convert::FromSpecImpl<&'a GamePhase> for VisibleGamePhase {
    open spec fn obeys_from_spec() -> bool {
        true
    }

    open spec fn from_spec(p: &'a GamePhase) -> VisibleGamePhase {
        visible_phase(*p)
    }
}

impl<'a> From<&'a GamePhase> for VisibleGamePhase {
    fn from(value: &'a GamePhase) -> Self {
        match value {
            GamePhase::Idle => VisibleGamePhase::Idle,
            GamePhase::ShowScores => VisibleGamePhase::Scores,
            GamePhase::GameRunning(GameRunningPhase::Prep(PrepStatus::Ready)) => VisibleGamePhase::PrepReady,
            GamePhase::GameRunning(GameRunningPhase::Prep(PrepStatus::Pairing(_))) => VisibleGamePhase::PrepPairing,
            GamePhase::GameRunning(GameRunningPhase::Playing) => VisibleGamePhase::Playing,
            GamePhase::GameRunning(GameRunningPhase::Paused(_)) => VisibleGamePhase::Pause,
            GamePhase::GameRunning(GameRunningPhase::Reveal) => VisibleGamePhase::Reveal,
        }
    }
}

/// Debug-style name of a phase, as used in error messages. A pause on a buzz shows the buzzer
/// identifier in quotes; a pairing session is shown without its team snapshot.
pub open spec fn phase_text(p: GamePhase) -> Seq<char> {
    match p {
        GamePhase::Idle => "Idle"@,
        GamePhase::ShowScores => "ShowScores"@,
        GamePhase::GameRunning(GameRunningPhase::Prep(PrepStatus::Ready)) => "GameRunning(Prep(Ready))"@,
        GamePhase::GameRunning(GameRunningPhase::Prep(PrepStatus::Pairing(_))) => "GameRunning(Prep(Pairing(PairingSession { .. })))"@,
        GamePhase::GameRunning(GameRunningPhase::Playing) => "GameRunning(Playing)"@,
        GamePhase::GameRunning(GameRunningPhase::Paused(PauseKind::Manual)) => "GameRunning(Paused(Manual))"@,
        GamePhase::GameRunning(GameRunningPhase::Paused(PauseKind::Buzz { id })) => "GameRunning(Paused(Buzz { id: \""@ + id@ + "\" }))"@,
        GamePhase::GameRunning(GameRunningPhase::Reveal) => "GameRunning(Reveal)"@,
    }
}

/// Debug-style name of a phase (see [`phase_text`]).
pub fn describe_phase(p: &GamePhase) -> (s: String)
    ensures
        s@ == phase_text(*p),
{
    match p {
        GamePhase::Idle => String::from_str("Idle"),
        GamePhase::ShowScores => String::from_str("ShowScores"),
        GamePhase::GameRunning(GameRunningPhase::Prep(PrepStatus::Ready)) => String::from_str("GameRunning(Prep(Ready))"),
        GamePhase::GameRunning(GameRunningPhase::Prep(PrepStatus::Pairing(_))) => String::from_str("GameRunning(Prep(Pairing(PairingSession { .. })))"),
        GamePhase::GameRunning(GameRunningPhase::Playing) => String::from_str("GameRunning(Playing)"),
        GamePhase::GameRunning(GameRunningPhase::Paused(PauseKind::Manual)) => String::from_str("GameRunning(Paused(Manual))"),
        GamePhase::GameRunning(GameRunningPhase::Paused(PauseKind::Buzz { id })) => joined3("GameRunning(Paused(Buzz { id: \"", id.as_str(), "\" }))"),
        GamePhase::GameRunning(GameRunningPhase::Reveal) => String::from_str("GameRunning(Reveal)"),
    }
}

/// Extract the running sub-phase, or refuse a phase where no game is running.
pub fn ensure_running_phase(phase: GamePhase) -> (r: Result<GameRunningPhase, ServiceError>)
    ensures
        match phase {
            GamePhase::GameRunning(sub) => r == Ok::<GameRunningPhase, ServiceError>(sub),
            _ => (r matches Err(ServiceError::InvalidState(m)) && m@ == "operation requires running phase, current: "@ + phase_text(phase)),
        },
{
    match phase {
        GamePhase::GameRunning(sub) => Ok(sub),
        other => {
            let text = describe_phase(&other);
            Err(ServiceError::InvalidState(joined("operation requires running phase, current: ", text.as_str())))
        },
    }
}

/// The preparation sub-phase, or a refusal outside preparation.
pub fn ensure_prep_phase(phase: GamePhase) -> (r: Result<PrepStatus, ServiceError>)
    ensures
        match phase {
            GamePhase::GameRunning(GameRunningPhase::Prep(status)) => r == Ok::<PrepStatus, ServiceError>(status),
            _ => (r matches Err(ServiceError::InvalidState(m)) && m@ == "operation requires prep phase, current phase "@ + phase_text(phase)),
        },
{
    match phase {
        GamePhase::GameRunning(GameRunningPhase::Prep(status)) => Ok(status),
        other => {
            let text = describe_phase(&other);
            Err(ServiceError::InvalidState(joined("operation requires prep phase, current phase ", text.as_str())))
        },
    }
}

/// Whether gameplay proper is running (a running phase other than preparation), where
/// answers can be marked and hints revealed.
pub open spec fn in_play(p: GamePhase) -> bool {
    p matches GamePhase::GameRunning(sub) && !(sub is Prep)
}

/// Public status of buzzer pairing.
#[derive(Debug)]
pub struct PairingStatusResponse {
    /// Whether pairing is active.
    pub is_pairing: bool,
    /// Team whose buzzer is awaited, while pairing.
    pub team_id: Option<u128>,
}

/// Pairing status for a phase: active with its awaited team during pairing, inactive
/// otherwise.
pub fn get_pairing_status(phase: &GamePhase) -> (r: PairingStatusResponse)
    ensures
        match phase {
            GamePhase::GameRunning(GameRunningPhase::Prep(PrepStatus::Pairing(session))) => r.is_pairing
                && r.team_id == Some(session.pairing_team_id),
            _ => !r.is_pairing && r.team_id is None,
        },
{
    match phase {
        GamePhase::GameRunning(GameRunningPhase::Prep(PrepStatus::Pairing(session))) => PairingStatusResponse {
            is_pairing: true,
            team_id: Some(session.pairing_team_id),
        },
        _ => PairingStatusResponse { is_pairing: false, team_id: None },
    }
}

} // verus!
