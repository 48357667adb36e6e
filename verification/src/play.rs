//! Gameplay on the loaded game: the current question, answers found, hints revealed and
//! verdicts on answers.

use vstd::prelude::*;
use vstd::string::*;

use crate::collections::{has_key, question_entries, question_map_get_index, question_map_get_index_of, value_of};
use crate::error::{joined, joined3, refused, Refusal, ServiceError};
use crate::game::{GameSession, Question};
use crate::phase::{describe_phase, phase_text, FinishReason, GameEvent, GamePhase, GameRunningPhase};
use crate::summary::{summarizes_question, QuestionSummary};
use crate::snapshot::{snapshots_question, QuestionSnapshot};
use crate::ids::current_time;
use crate::requests::{
    ActionResponse, AnswerFoundRequest, AnswersFoundResponse, QuestionHintRequest,
    QuestionHintsResponse, QuestionValidationRequest,
};
use crate::text::{decimal_digits, decimal_text};

verus! {

/// Entries of the questions of a game.
pub open spec fn game_questions(g: GameSession) -> Seq<(u32, crate::game::Question)> {
    question_entries(g.questions_sequence.questions)
}

/// Why `question_id` cannot be used as the current question of `g`, if it cannot.
pub open spec fn current_question_refusal(g: GameSession, question_id: u32) -> Option<Refusal> {
    match g.current_question_index {
        None => Some(Refusal::InvalidState("no active question: sequence is over"@)),
        Some(i) => if i >= g.question_order.len() {
            Some(Refusal::InvalidState("question index out of bounds"@))
        } else if g.question_order@[i as int] != question_id {
            Some(Refusal::InvalidInput("question id does not match the current question"@))
        } else if !has_key(game_questions(g), question_id) {
            Some(Refusal::InvalidState("question not found"@))
        } else {
            None
        },
    }
}

/// The current question of the game, after checking that `question_id` designates it.
pub fn current_question(game: &GameSession, question_id: u32) -> (r: Result<&Question, ServiceError>)
    ensures
        match current_question_refusal(*game, question_id) {
            Some(f) => (r matches Err(e) && refused(e, f)),
            None => (r matches Ok(q) && *q == value_of(game_questions(*game), question_id)),
        },
{
    let index = match game.current_question_index {
        Some(i) => i,
        None => return Err(ServiceError::InvalidState(String::from_str("no active question: sequence is over"))),
    };
    if index >= game.question_order.len() {
        return Err(ServiceError::InvalidState(String::from_str("question index out of bounds")));
    }
    let expected_question_id = game.question_order[index];
    if expected_question_id != question_id {
        return Err(ServiceError::InvalidInput(String::from_str("question id does not match the current question")));
    }
    match question_map_get_index_of(&game.questions_sequence.questions, &question_id) {
        Some(position) => {
            let (_, question) = question_map_get_index(&game.questions_sequence.questions, position).unwrap();
            assert(crate::collections::key_index(game_questions(*game), question_id) == position);
            Ok(question)
        },
        None => Err(ServiceError::InvalidState(String::from_str("question not found"))),
    }
}

/// Whether `x` occurs in `v`.
pub fn contains_id(v: &Vec<u8>, x: u8) -> (b: bool)
    ensures
        b == v@.contains(x),
{
    let mut i: usize = 0;
    while i < v.len()
        invariant
            i <= v.len(),
            forall|j: int| 0 <= j < i ==> v@[j] != x,
        decreases v.len() - i,
    {
        if v[i] == x {
            assert(v@[i as int] == x);
            return true;
        }
        i = i + 1;
    }
    false
}

/// Why gameplay actions are refused in `phase`, if they are: outside a running game, and
/// during preparation (with `prep_message`).
pub open spec fn in_play_refusal(phase: GamePhase, prep_message: Seq<char>) -> Option<Refusal> {
    match phase {
        GamePhase::GameRunning(GameRunningPhase::Prep(_)) => Some(Refusal::InvalidState(prep_message)),
        GamePhase::GameRunning(_) => None,
        _ => Some(Refusal::InvalidState("operation requires running phase, current: "@ + phase_text(phase))),
    }
}

/// Refuse gameplay actions outside play (see [`in_play_refusal`]).
fn ensure_in_play(phase: &GamePhase, prep_message: &str) -> (r: Result<(), ServiceError>)
    ensures
        match in_play_refusal(*phase, prep_message@) {
            Some(f) => (r matches Err(e) && refused(e, f)),
            None => r is Ok,
        },
{
    match phase {
        GamePhase::GameRunning(GameRunningPhase::Prep(_)) => Err(ServiceError::InvalidState(String::from_str(prep_message))),
        GamePhase::GameRunning(_) => Ok(()),
        _ => {
            let text = describe_phase(phase);
            Err(ServiceError::InvalidState(joined("operation requires running phase, current: ", text.as_str())))
        },
    }
}

/// Why an answer cannot be marked as found, if it cannot.
pub open spec fn mark_answer_refusal(phase: GamePhase, g: GameSession, question_id: u32, answer_id: u8) -> Option<Refusal> {
    if in_play_refusal(phase, "cannot mark answers during preparation"@) is Some {
        in_play_refusal(phase, "cannot mark answers during preparation"@)
    } else if current_question_refusal(g, question_id) is Some {
        current_question_refusal(g, question_id)
    } else {
        let q = value_of(game_questions(g), question_id)@;
        if !q.answer_ids().contains(answer_id) {
            Some(Refusal::InvalidInput("answer `"@ + decimal_digits(answer_id as nat) + "` does not exist for this question"@))
        } else if !g.found_answer_ids@.contains(answer_id) && q.is_blindtest()
            && g.revealed_hint_ids@.contains(answer_id) {
            Some(Refusal::InvalidState("cannot mark an answer as found if its corresponding hint has already been revealed"@))
        } else {
            None
        }
    }
}

/// `g` is `old` with only the found answers replaced by `found`.
pub open spec fn only_found_changed(old: GameSession, g: GameSession, found: Seq<u8>) -> bool {
    g == (GameSession { found_answer_ids: g.found_answer_ids, ..old }) && g.found_answer_ids@ == found
}

/// `g` is `old` with only the revealed hints replaced by `revealed`.
pub open spec fn only_revealed_changed(old: GameSession, g: GameSession, revealed: Seq<u8>) -> bool {
    g == (GameSession { revealed_hint_ids: g.revealed_hint_ids, ..old }) && g.revealed_hint_ids@ == revealed
}

/// `s` with `x` added at the end unless already present.
pub open spec fn with_id(s: Seq<u8>, x: u8) -> Seq<u8> {
    if s.contains(x) {
        s
    } else {
        s.push(x)
    }
}

/// Record an answer of the current question as found. Marking an answer twice changes
/// nothing. For a blindtest, an answer whose field was already revealed as a hint cannot be
/// marked. Returns the answers found so far.
pub fn mark_answer_found(phase: &GamePhase, game: &mut GameSession, request: AnswerFoundRequest) -> (r: Result<AnswersFoundResponse, ServiceError>)
    ensures
        match mark_answer_refusal(*phase, *old(game), request.question_id, request.answer_id) {
            Some(f) => (r matches Err(e) && refused(e, f)) && *final(game) == *old(game),
            None => {
                let found = with_id(old(game).found_answer_ids@, request.answer_id);
                &&& only_found_changed(*old(game), *final(game), found)
                &&& r matches Ok(resp) && resp.question_id == request.question_id && resp.answers_ids@ == found
            },
        },
{
    ensure_in_play(phase, "cannot mark answers during preparation")?;
    let AnswerFoundRequest { question_id, answer_id } = request;
    let (exists, is_blindtest) = {
        let question = current_question(game, question_id)?;
        (question.has_answer(answer_id), matches!(question, Question::BlindTest(_)))
    };
    if !exists {
        return Err(ServiceError::InvalidInput(joined3("answer `", decimal_text(answer_id as usize).as_str(), "` does not exist for this question")));
    }
    if !contains_id(&game.found_answer_ids, answer_id) {
        if is_blindtest && contains_id(&game.revealed_hint_ids, answer_id) {
            return Err(ServiceError::InvalidState(String::from_str("cannot mark an answer as found if its corresponding hint has already been revealed")));
        }
        game.found_answer_ids.push(answer_id);
    }
    Ok(AnswersFoundResponse { question_id, answers_ids: game.found_answer_ids.clone() })
}

/// Why a hint cannot be revealed, if it cannot.
pub open spec fn reveal_hint_refusal(phase: GamePhase, g: GameSession, question_id: u32, hint_id: u8) -> Option<Refusal> {
    if in_play_refusal(phase, "cannot reveal hints during preparation"@) is Some {
        in_play_refusal(phase, "cannot reveal hints during preparation"@)
    } else if current_question_refusal(g, question_id) is Some {
        current_question_refusal(g, question_id)
    } else {
        let q = value_of(game_questions(g), question_id)@;
        if !q.hint_ids().contains(hint_id) {
            Some(Refusal::InvalidInput("hint `"@ + decimal_digits(hint_id as nat) + "` does not exist for this question"@))
        } else if !g.revealed_hint_ids@.contains(hint_id) && q.is_blindtest()
            && g.found_answer_ids@.contains(hint_id) {
            Some(Refusal::InvalidState("cannot reveal a hint that corresponds to a found answer"@))
        } else {
            None
        }
    }
}

/// Reveal a hint of the current question (for a blindtest, one of its answer fields).
/// Revealing a hint twice changes nothing. For a blindtest, a field already found as an
/// answer cannot be revealed. Returns the hints revealed so far.
pub fn reveal_hint(phase: &GamePhase, game: &mut GameSession, request: QuestionHintRequest) -> (r: Result<QuestionHintsResponse, ServiceError>)
    ensures
        match reveal_hint_refusal(*phase, *old(game), request.question_id, request.hint_id) {
            Some(f) => (r matches Err(e) && refused(e, f)) && *final(game) == *old(game),
            None => {
                let revealed = with_id(old(game).revealed_hint_ids@, request.hint_id);
                &&& only_revealed_changed(*old(game), *final(game), revealed)
                &&& r matches Ok(resp) && resp.question_id == request.question_id && resp.hints_ids@ == revealed
            },
        },
{
    ensure_in_play(phase, "cannot reveal hints during preparation")?;
    let QuestionHintRequest { question_id, hint_id } = request;
    let (exists, is_blindtest) = {
        let question = current_question(game, question_id)?;
        (question.has_hint(hint_id), matches!(question, Question::BlindTest(_)))
    };
    if !exists {
        return Err(ServiceError::InvalidInput(joined3("hint `", decimal_text(hint_id as usize).as_str(), "` does not exist for this question")));
    }
    if !contains_id(&game.revealed_hint_ids, hint_id) {
        if is_blindtest && contains_id(&game.found_answer_ids, hint_id) {
            return Err(ServiceError::InvalidState(String::from_str("cannot reveal a hint that corresponds to a found answer")));
        }
        game.revealed_hint_ids.push(hint_id);
    }
    Ok(QuestionHintsResponse { question_id, hints_ids: game.revealed_hint_ids.clone() })
}

/// Why a verdict on the current answer cannot be submitted, if it cannot: only while paused,
/// and only for the current question.
pub open spec fn validation_refusal(phase: GamePhase, g: GameSession, question_id: u32) -> Option<Refusal> {
    match phase {
        GamePhase::GameRunning(GameRunningPhase::Paused(_)) => current_question_refusal(g, question_id),
        _ => Some(Refusal::InvalidState("cannot validate answer while in phase "@ + phase_text(phase))),
    }
}

/// Accept a verdict on the answer given after a buzz. The verdict itself is only broadcast
/// to clients; nothing in the game changes.
pub fn submit_question_validation(phase: &GamePhase, game: &GameSession, request: &QuestionValidationRequest) -> (r: Result<ActionResponse, ServiceError>)
    ensures
        match validation_refusal(*phase, *game, request.question_id) {
            Some(f) => (r matches Err(e) && refused(e, f)),
            None => (r matches Ok(resp) && resp.message@ == "answered"@),
        },
{
    match phase {
        GamePhase::GameRunning(GameRunningPhase::Paused(_)) => {
            current_question(game, request.question_id)?;
            Ok(ActionResponse { message: String::from_str("answered") })
        },
        _ => {
            let text = describe_phase(phase);
            Err(ServiceError::InvalidState(joined("cannot validate answer while in phase ", text.as_str())))
        },
    }
}

/// Question at position `index` of the play order: its identifier and the question, when
/// both exist.
pub open spec fn question_at(g: GameSession, index: int) -> Option<(u32, Question)> {
    if 0 <= index < g.question_order.len() && has_key(game_questions(g), g.question_order@[index]) {
        let id = g.question_order@[index];
        Some((id, value_of(game_questions(g), id)))
    } else {
        None
    }
}

impl GameSession {
    /// The question at position `index` of the play order, with its identifier.
    pub fn get_question(&self, index: usize) -> (r: Option<(u32, Question)>)
        ensures
            match question_at(*self, index as int) {
                Some(p) => (r matches Some(x) && x.0 == p.0 && x.1@ == p.1@),
                None => r is None,
            },
    {
        if index >= self.question_order.len() {
            return None;
        }
        let id = self.question_order[index];
        match question_map_get_index_of(&self.questions_sequence.questions, &id) {
            Some(position) => {
                let (_, question) = question_map_get_index(&self.questions_sequence.questions, position).unwrap();
                assert(crate::collections::key_index(game_questions(*self), id) == position);
                Some((id, question.duplicate()))
            },
            None => None,
        }
    }
}

/// Position of the question that comes next, and the event that moves there. Starting plays
/// the current question if it was not revealed, or the first one; otherwise the position after
/// the current one is played, starting over at the first question when starting a completed
/// sequence, and the sequence finishes when none is left.
pub open spec fn next_question_plan(current: Option<usize>, length: usize, revealed: bool, start: bool) -> Result<Option<usize>, Refusal> {
    if start && !revealed {
        match current {
            Some(i) => Ok(Some(i)),
            None => Ok(Some(0)),
        }
    } else {
        match current {
            None => Err(Refusal::InvalidState("no active question: sequence is over"@)),
            Some(i) => if i + 1 < length {
                Ok(Some((i + 1) as usize))
            } else if start {
                Ok(Some(0))
            } else {
                Ok(None)
            },
        }
    }
}

/// Choose the next question position and the state-machine event for it.
pub fn plan_next_question(current_question_index: Option<usize>, sequence_length: usize, current_question_revealed: bool, start: bool) -> (r: Result<(Option<usize>, GameEvent), ServiceError>)
    requires
        current_question_index matches Some(i) ==> i < usize::MAX,
    ensures
        match next_question_plan(current_question_index, sequence_length, current_question_revealed, start) {
            Err(f) => (r matches Err(e) && refused(e, f)),
            Ok(next) => (r matches Ok(p) && p.0 == next && (if start {
                p.1 is GameConfigured
            } else if next is Some {
                p.1 is NextQuestion
            } else {
                p.1 == GameEvent::Finish(FinishReason::QuestionsSequenceCompleted)
            })),
        },
        start && !current_question_revealed ==> (r matches Ok(p) && p.0 == (match current_question_index {
            Some(i) => Some(i),
            None => Some(0usize),
        })),
        forall|i: usize| !start && current_question_index == Some(i) ==> (r matches Ok(p) && p.0 == (if i + 1 < sequence_length {
            Some((i + 1) as usize)
        } else {
            None
        })),
{
    let next_question_index: Option<usize> = if start && !current_question_revealed {
        match current_question_index {
            Some(i) => Some(i),
            None => Some(0),
        }
    } else {
        let current = match current_question_index {
            Some(i) => i,
            None => return Err(ServiceError::InvalidState(String::from_str("no active question: sequence is over"))),
        };
        let next = current + 1;
        if next < sequence_length {
            Some(next)
        } else if start {
            Some(0)
        } else {
            None
        }
    };
    let event = if start {
        GameEvent::GameConfigured
    } else if next_question_index.is_some() {
        GameEvent::NextQuestion
    } else {
        GameEvent::Finish(FinishReason::QuestionsSequenceCompleted)
    };
    Ok((next_question_index, event))
}

/// Move the game to the question at `next` (or past the last one when `None`): a change of
/// question forgets the answers found and hints revealed, the question is not revealed yet,
/// and the update time is refreshed. Returns the summary of the new current question; fails
/// when `next` designates no question (the move is made all the same).
pub fn advance_to_question(game: &mut GameSession, next: Option<usize>) -> (r: Result<Option<QuestionSummary>, ServiceError>)
    ensures
        final(game).current_question_index == next,
        !final(game).current_question_revealed,
        old(game).current_question_index != next ==> final(game).found_answer_ids@.len() == 0
            && final(game).revealed_hint_ids@.len() == 0,
        old(game).current_question_index == next ==> final(game).found_answer_ids == old(game).found_answer_ids
            && final(game).revealed_hint_ids == old(game).revealed_hint_ids,
        final(game).id == old(game).id,
        final(game).name == old(game).name,
        final(game).created_at == old(game).created_at,
        final(game).teams == old(game).teams,
        final(game).questions_sequence == old(game).questions_sequence,
        final(game).question_order == old(game).question_order,
        match next {
            None => r == Ok::<Option<QuestionSummary>, ServiceError>(None),
            Some(i) => match question_at(*old(game), i as int) {
                Some(p) => (r matches Ok(Some(s)) && summarizes_question(p.0, p.1@, s)),
                None => (r matches Err(e) && refused(e, Refusal::InvalidState("question not found in sequence"@))),
            },
        },
{
    if game.current_question_index != next {
        game.found_answer_ids.clear();
        game.revealed_hint_ids.clear();
    }
    game.current_question_index = next;
    game.current_question_revealed = false;
    game.updated_at = current_time();
    match next {
        Some(index) => match game.get_question(index) {
            Some((question_id, question)) => Ok(Some(QuestionSummary::from((question_id, question)))),
            None => Err(ServiceError::InvalidState(String::from_str("question not found in sequence"))),
        },
        None => Ok(None),
    }
}

/// Mark the current question as revealed, refreshing the update time.
pub fn mark_revealed(game: &mut GameSession)
    ensures
        *final(game) == (GameSession { current_question_revealed: true, updated_at: final(game).updated_at, ..*old(game) }),
{
    game.current_question_revealed = true;
    game.updated_at = current_time();
}

/// The current question and the progress made on it, as shown to the public.
#[derive(Debug)]
pub struct CurrentQuestionResponse {
    /// The question.
    pub question: QuestionSnapshot,
    /// Answers found so far.
    pub answers_ids: Vec<u8>,
    /// Hints revealed so far.
    pub hints_ids: Vec<u8>,
}

/// The current question of the game with the answers found and hints revealed; not found
/// when the sequence is over.
pub fn get_current_question(game: &GameSession) -> (r: Result<CurrentQuestionResponse, ServiceError>)
    ensures
        match game.current_question_index {
            None => (r matches Err(e) && refused(e, Refusal::NotFound("no active question: sequence is over"@))),
            Some(i) => match question_at(*game, i as int) {
                None => (r matches Err(e) && refused(e, Refusal::InvalidState("question not found in sequence"@))),
                Some(p) => (r matches Ok(resp) && snapshots_question(p.0, p.1@, resp.question)
                    && resp.answers_ids@ == game.found_answer_ids@ && resp.hints_ids@ == game.revealed_hint_ids@),
            },
        },
{
    let index = match game.current_question_index {
        Some(i) => i,
        None => return Err(ServiceError::NotFound(String::from_str("no active question: sequence is over"))),
    };
    let (question_id, question) = match game.get_question(index) {
        Some(p) => p,
        None => return Err(ServiceError::InvalidState(String::from_str("question not found in sequence"))),
    };
    let snapshot = QuestionSnapshot::from_game_question(question_id, &question);
    Ok(CurrentQuestionResponse {
        question: snapshot,
        answers_ids: game.found_answer_ids.clone(),
        hints_ids: game.revealed_hint_ids.clone(),
    })
}

} // verus!
