//! Notifications sent to clients over server-sent events: their names, their audiences and
//! their payloads; and the token that reserves the administrator stream.

use indexmap::IndexMap;
use vstd::prelude::*;
use vstd::string::*;

use crate::collections::team_entries;
use crate::error::{refused, AppError, Refusal, ServiceError};
use crate::game::{GameSession, Team};
use crate::ids::{hex_digit, new_random_id, nibble};
use crate::order::QuestionOrderError;
use crate::requests::{ActionResponse, QuestionValidation, QuestionValidationRequest};
use crate::phase::GamePhase;
use crate::play::{submit_question_validation, validation_refusal};
use crate::ids::hyphenated_uuid;
use crate::summary::{
    order_matches, summarizes_sequence, team_summaries, team_summaries_of, team_summary, timestamp_text, GameSummary,
    TeamSummary,
};

verus! {

/// An event as sent on a stream: its name, if any, and its JSON text.
#[derive(Clone, Debug)]
pub struct ServerEvent {
    /// Name of the event.
    pub event: Option<String>,
    /// JSON text of the payload.
    pub data: String,
}

/// First message of a stream.
#[derive(Debug)]
pub struct Handshake {
    /// `public` or `admin`.
    pub stream: String,
    /// Confirmation text.
    pub message: String,
    /// Whether the backend runs without storage.
    pub degraded: bool,
    /// Token of the administrator stream.
    pub token: Option<String>,
}

/// Whether the backend runs without storage.
#[derive(Debug, Clone, Copy)]
pub struct SystemStatus {
    /// Degraded mode.
    pub degraded: bool,
}

/// Answers found so far for a question.
#[derive(Debug)]
pub struct QuestionFoundAnswersEvent {
    /// The question.
    pub question_id: u32,
    /// Answers found.
    pub answers_ids: Vec<u8>,
}

/// Hints revealed so far for a question.
#[derive(Debug)]
pub struct QuestionHintsEvent {
    /// The question.
    pub question_id: u32,
    /// Hints revealed.
    pub hints_ids: Vec<u8>,
}

/// Verdict on an answer.
#[derive(Debug)]
pub struct AnswerValidationEvent {
    /// The question.
    pub question_id: u32,
    /// The verdict.
    pub valid: QuestionValidation,
}

/// Pairing waits for a team.
#[derive(Debug, Clone, Copy)]
pub struct PairingWaitingEvent {
    /// The team.
    pub team_id: u128,
}

/// A buzzer was paired with a team.
#[derive(Debug)]
pub struct PairingAssignedEvent {
    /// The team.
    pub team_id: u128,
    /// The buzzer.
    pub buzzer_id: String,
}

/// Pairing was aborted and the teams restored.
#[derive(Debug)]
pub struct PairingRestoredEvent {
    /// The restored teams.
    pub snapshot: Vec<TeamSummary>,
}

/// A paired buzzer was tested.
#[derive(Debug, Clone, Copy)]
pub struct TestBuzzEvent {
    /// The team.
    pub team_id: u128,
}

/// A team was created.
#[derive(Debug)]
pub struct TeamCreatedEvent {
    /// The team.
    pub team: TeamSummary,
}

/// A team was deleted.
#[derive(Debug, Clone, Copy)]
pub struct TeamDeletedEvent {
    /// The team.
    pub team_id: u128,
}

/// A team was updated.
#[derive(Debug)]
pub struct TeamUpdatedEvent {
    /// The team.
    pub team: TeamSummary,
}

/// Payload of a notification.
#[derive(Debug)]
pub enum EventPayload {
    QuestionFoundAnswers(QuestionFoundAnswersEvent),
    QuestionHints(QuestionHintsEvent),
    AnswerValidation(AnswerValidationEvent),
    ScoreAdjustment(TeamSummary),
    TeamCreated(TeamCreatedEvent),
    TeamDeleted(TeamDeletedEvent),
    TeamUpdated(TeamUpdatedEvent),
    GameSession(GameSummary),
    PairingWaiting(PairingWaitingEvent),
    PairingAssigned(PairingAssignedEvent),
    PairingRestored(PairingRestoredEvent),
    TestBuzz(TestBuzzEvent),
    Handshake(Handshake),
    SystemStatus(SystemStatus),
}

/// A notification: its event name, whether public and administrator subscribers get it, and
/// its payload.
#[derive(Debug)]
pub struct Broadcast {
    /// Event name.
    pub event: &'static str,
    /// Sent to public subscribers.
    pub to_public: bool,
    /// Sent to administrator subscribers.
    pub to_admin: bool,
    /// Payload.
    pub payload: EventPayload,
}

/// A copy of identifiers.
fn copy_ids(ids: &[u8]) -> (v: Vec<u8>)
    ensures
        v@ == ids@,
{
    let mut v: Vec<u8> = Vec::new();
    let mut i: usize = 0;
    while i < ids.len()
        invariant
            i <= ids@.len(),
            v@ == ids@.take(i as int),
        decreases ids@.len() - i,
    {
        v.push(ids[i]);
        assert(ids@.take(i + 1) =~= ids@.take(i as int).push(ids@[i as int]));
        i = i + 1;
    }
    assert(ids@.take(ids@.len() as int) =~= ids@);
    v
}

/// Answers found for a question, to public subscribers as `question.found_answers`.
pub fn broadcast_question_found_answers(question_id: u32, answers_ids: &[u8]) -> (b: Broadcast)
    ensures
        b.event@ == "question.found_answers"@,
        b.to_public && !b.to_admin,
        b.payload matches EventPayload::QuestionFoundAnswers(p) && p.question_id == question_id && p.answers_ids@ == answers_ids@,
{
    let payload = QuestionFoundAnswersEvent { question_id, answers_ids: copy_ids(answers_ids) };
    Broadcast { event: "question.found_answers", to_public: true, to_admin: false, payload: EventPayload::QuestionFoundAnswers(payload) }
}

/// Hints revealed for a question, to public subscribers as `question.hints`.
pub fn broadcast_question_hints(question_id: u32, hints_ids: &[u8]) -> (b: Broadcast)
    ensures
        b.event@ == "question.hints"@,
        b.to_public && !b.to_admin,
        b.payload matches EventPayload::QuestionHints(p) && p.question_id == question_id && p.hints_ids@ == hints_ids@,
{
    let payload = QuestionHintsEvent { question_id, hints_ids: copy_ids(hints_ids) };
    Broadcast { event: "question.hints", to_public: true, to_admin: false, payload: EventPayload::QuestionHints(payload) }
}

/// A verdict on an answer, to public subscribers as `question.validation`.
pub fn broadcast_answer_validation(question_id: u32, valid: QuestionValidation) -> (b: Broadcast)
    ensures
        b.event@ == "question.validation"@,
        b.to_public && !b.to_admin,
        b.payload matches EventPayload::AnswerValidation(p) && p.question_id == question_id && p.valid == valid,
{
    Broadcast {
        event: "question.validation",
        to_public: true,
        to_admin: false,
        payload: EventPayload::AnswerValidation(AnswerValidationEvent { question_id, valid }),
    }
}

/// Submit a verdict on the current answer (see [`submit_question_validation`]) and, when it
/// is accepted, the public `question.validation` notification of it.
pub fn submit_and_announce_validation(
    phase: &GamePhase,
    game: &GameSession,
    request: &QuestionValidationRequest,
) -> (r: Result<(ActionResponse, Broadcast), ServiceError>)
    ensures
        match validation_refusal(*phase, *game, request.question_id) {
            Some(f) => (r matches Err(e) && refused(e, f)),
            None => r matches Ok(v) && v.0.message@ == "answered"@ && v.1.event@ == "question.validation"@
                && v.1.to_public && !v.1.to_admin && (v.1.payload matches EventPayload::AnswerValidation(p)
                && p.question_id == request.question_id && p.valid == request.valid),
        },
{
    let response = submit_question_validation(phase, game, request)?;
    let event = broadcast_answer_validation(request.question_id, request.valid);
    Ok((response, event))
}

/// A new score, to public subscribers as `score_adjustment`.
pub fn broadcast_score_adjustment(team_id: u128, team: Team) -> (b: Broadcast)
    ensures
        b.event@ == "score_adjustment"@,
        b.to_public && !b.to_admin,
        b.payload == EventPayload::ScoreAdjustment(team_summary(team_id, team)),
{
    Broadcast {
        event: "score_adjustment",
        to_public: true,
        to_admin: false,
        payload: EventPayload::ScoreAdjustment(TeamSummary::from((team_id, team))),
    }
}

/// A new team, to everyone as `team.created`.
pub fn broadcast_team_created(team: TeamSummary) -> (b: Broadcast)
    ensures
        b.event@ == "team.created"@,
        b.to_public && b.to_admin,
        b.payload == EventPayload::TeamCreated(TeamCreatedEvent { team }),
{
    Broadcast { event: "team.created", to_public: true, to_admin: true, payload: EventPayload::TeamCreated(TeamCreatedEvent { team }) }
}

/// A deleted team, to public subscribers as `team.deleted`.
pub fn broadcast_team_deleted(team_id: u128) -> (b: Broadcast)
    ensures
        b.event@ == "team.deleted"@,
        b.to_public && !b.to_admin,
        b.payload == EventPayload::TeamDeleted(TeamDeletedEvent { team_id }),
{
    Broadcast { event: "team.deleted", to_public: true, to_admin: false, payload: EventPayload::TeamDeleted(TeamDeletedEvent { team_id }) }
}

/// An updated team, to public subscribers as `team.updated`.
pub fn broadcast_team_updated(team: TeamSummary) -> (b: Broadcast)
    ensures
        b.event@ == "team.updated"@,
        b.to_public && !b.to_admin,
        b.payload == EventPayload::TeamUpdated(TeamUpdatedEvent { team }),
{
    Broadcast { event: "team.updated", to_public: true, to_admin: false, payload: EventPayload::TeamUpdated(TeamUpdatedEvent { team }) }
}

/// The whole game, to public subscribers as `game.session`; refused when its play order
/// does not list exactly the questions of its sequence.
pub fn broadcast_game_session(session: GameSession) -> (r: Result<Broadcast, QuestionOrderError>)
    ensures
        order_matches(session.questions_sequence, session.question_order@) ==> (r matches Ok(b) && b.event@ == "game.session"@
            && b.to_public && !b.to_admin && (b.payload matches EventPayload::GameSession(s) && {
                &&& s.id@ == hyphenated_uuid(session.id)
                &&& s.name == session.name
                &&& s.created_at@ == timestamp_text(session.created_at)
                &&& s.updated_at@ == timestamp_text(session.updated_at)
                &&& s.teams@ == team_summaries_of(team_entries(session.teams))
                &&& summarizes_sequence(session.questions_sequence, session.question_order@, s.questions_sequence)
                &&& s.current_question_index == session.current_question_index
            })),
        !order_matches(session.questions_sequence, session.question_order@) ==> r is Err,
{
    let summary = GameSummary::try_from(session)?;
    Ok(Broadcast { event: "game.session", to_public: true, to_admin: false, payload: EventPayload::GameSession(summary) })
}

/// Pairing waits for a team, to everyone as `pairing.waiting`.
pub fn broadcast_pairing_waiting(team_id: u128) -> (b: Broadcast)
    ensures
        b.event@ == "pairing.waiting"@,
        b.to_public && b.to_admin,
        b.payload == EventPayload::PairingWaiting(PairingWaitingEvent { team_id }),
{
    Broadcast {
        event: "pairing.waiting",
        to_public: true,
        to_admin: true,
        payload: EventPayload::PairingWaiting(PairingWaitingEvent { team_id }),
    }
}

/// A buzzer paired with a team, to everyone as `pairing.assigned`.
pub fn broadcast_pairing_assigned(team_id: u128, buzzer_id: &str) -> (b: Broadcast)
    ensures
        b.event@ == "pairing.assigned"@,
        b.to_public && b.to_admin,
        b.payload matches EventPayload::PairingAssigned(p) && p.team_id == team_id && p.buzzer_id@ == buzzer_id@,
{
    Broadcast {
        event: "pairing.assigned",
        to_public: true,
        to_admin: true,
        payload: EventPayload::PairingAssigned(PairingAssignedEvent { team_id, buzzer_id: String::from_str(buzzer_id) }),
    }
}

/// The restored teams, to public subscribers as `pairing.restored`.
pub fn broadcast_pairing_restored(snapshot: &IndexMap<u128, Team>) -> (b: Broadcast)
    ensures
        b.event@ == "pairing.restored"@,
        b.to_public && !b.to_admin,
        b.payload matches EventPayload::PairingRestored(p) && p.snapshot@ == team_summaries_of(team_entries(*snapshot)),
{
    Broadcast {
        event: "pairing.restored",
        to_public: true,
        to_admin: false,
        payload: EventPayload::PairingRestored(PairingRestoredEvent { snapshot: team_summaries(snapshot) }),
    }
}

/// A tested buzzer, to everyone as `test.buzz`.
pub fn broadcast_test_buzz(team_id: u128) -> (b: Broadcast)
    ensures
        b.event@ == "test.buzz"@,
        b.to_public && b.to_admin,
        b.payload == EventPayload::TestBuzz(TestBuzzEvent { team_id }),
{
    Broadcast { event: "test.buzz", to_public: true, to_admin: true, payload: EventPayload::TestBuzz(TestBuzzEvent { team_id }) }
}

/// First message of the administrator stream, carrying its token, as `handshake`.
pub fn broadcast_admin_handshake(token: &str, degraded: bool) -> (b: Broadcast)
    ensures
        b.event@ == "handshake"@,
        !b.to_public && b.to_admin,
        b.payload matches EventPayload::Handshake(h) && h.stream@ == "admin"@ && h.message@ == "admin stream connected"@
            && h.degraded == degraded && (h.token matches Some(t) && t@ == token@),
{
    let handshake = Handshake {
        stream: String::from_str("admin"),
        message: String::from_str("admin stream connected"),
        degraded,
        token: Some(String::from_str(token)),
    };
    Broadcast { event: "handshake", to_public: false, to_admin: true, payload: EventPayload::Handshake(handshake) }
}

/// First message of the public stream, as `handshake`.
pub fn broadcast_public_handshake(degraded: bool) -> (b: Broadcast)
    ensures
        b.event@ == "handshake"@,
        b.to_public && !b.to_admin,
        b.payload matches EventPayload::Handshake(h) && h.stream@ == "public"@ && h.message@ == "public stream connected"@
            && h.degraded == degraded && h.token is None,
{
    let handshake = Handshake {
        stream: String::from_str("public"),
        message: String::from_str("public stream connected"),
        degraded,
        token: None,
    };
    Broadcast { event: "handshake", to_public: true, to_admin: false, payload: EventPayload::Handshake(handshake) }
}

/// Change of the degraded mode, as `system_status` (sent on each open stream).
pub fn system_status_event(degraded: bool) -> (b: Broadcast)
    ensures
        b.event@ == "system_status"@,
        b.to_public && b.to_admin,
        b.payload matches EventPayload::SystemStatus(s) && s.degraded == degraded,
{
    Broadcast { event: "system_status", to_public: true, to_admin: true, payload: EventPayload::SystemStatus(SystemStatus { degraded }) }
}

/// Simple notation of a UUID: its 32 lowercase hexadecimal digits, without hyphens.
pub open spec fn simple_uuid(id: u128) -> Seq<char> {
    Seq::new(32, |i: int| hex_digit(nibble(id, i as nat)))
}

/// `uuid::Uuid::from_u128(id).simple()` as text: the simple notation.
#[verifier::external_body]
fn uuid_simple_text(id: u128) -> (s: String)
    ensures
        s@ == simple_uuid(id),
{
    uuid::Uuid::from_u128(id).simple().to_string()
}

/// Reserve the administrator stream: when no token is held, a new random token (a UUID in
/// simple notation) is stored and returned; otherwise the stream is refused.
pub fn claim_admin_token(slot: &mut Option<String>) -> (r: Result<String, ServiceError>)
    ensures
        *old(slot) is Some ==> (r matches Err(e) && refused(e, Refusal::Unauthorized("Another admin SSE stream is already active"@)))
            && *final(slot) == *old(slot),
        *old(slot) is None ==> (r matches Ok(t) && *final(slot) == Some(t) && exists|id: u128| t@ == simple_uuid(id)),
{
    match slot {
        Some(_) => Err(ServiceError::Unauthorized(String::from_str("Another admin SSE stream is already active"))),
        None => {
            let id = new_random_id();
            let token = uuid_simple_text(id);
            *slot = Some(token.clone());
            Ok(token)
        },
    }
}

/// Release the administrator stream.
pub fn reset_admin_token(slot: &mut Option<String>)
    ensures
        *final(slot) is None,
{
    *slot = None;
}

/// The stream a client follows.
#[derive(Clone, Copy, Debug, PartialEq, Eq, Structural)]
pub enum StreamKind {
    /// The public stream.
    Public,
    /// The administrator stream, which holds the token.
    Admin,
}

/// Bookkeeping when a stream's client goes away: the administrator stream releases its
/// token, so that the next administrator gets a fresh one; the public stream changes nothing.
pub fn end_of_stream(kind: StreamKind, slot: &mut Option<String>)
    ensures
        kind == StreamKind::Admin ==> *final(slot) is None,
        kind == StreamKind::Public ==> *final(slot) == *old(slot),
{
    match kind {
        StreamKind::Public => {},
        StreamKind::Admin => reset_admin_token(slot),
    }
}

/// Why a request to the administration interface is refused, if it is: it must carry the
/// token of the administrator stream, which must have been claimed.
pub open spec fn token_refusal(provided: Option<Seq<char>>, expected: Option<Seq<char>>) -> Option<Seq<char>> {
    match provided {
        None => Some("missing admin token header `X-Admin-Token`"@),
        Some(p) => match expected {
            Some(t) => if t == p {
                None
            } else {
                Some("invalid admin token"@)
            },
            None => Some("admin SSE stream not initialised yet"@),
        },
    }
}

/// Check the token a request carries against the claimed one.
pub fn check_admin_token(provided: Option<&str>, expected: &Option<String>) -> (r: Result<(), AppError>)
    ensures
        match token_refusal(
            match provided {
                Some(p) => Some(p@),
                None => None,
            },
            match expected {
                Some(t) => Some(t@),
                None => None,
            },
        ) {
            Some(m) => (r matches Err(AppError::Unauthorized(x)) && x@ == m),
            None => r is Ok,
        },
{
    let provided = match provided {
        Some(p) => p,
        None => return Err(AppError::Unauthorized(String::from_str("missing admin token header `X-Admin-Token`"))),
    };
    match expected {
        Some(token) => {
            if crate::text::same_text(token.as_str(), provided) {
                Ok(())
            } else {
                Err(AppError::Unauthorized(String::from_str("invalid admin token")))
            }
        },
        None => Err(AppError::Unauthorized(String::from_str("admin SSE stream not initialised yet"))),
    }
}

} // verus!
