use std::collections::HashMap;

use indexmap::IndexMap;
use neon_beat_back::game::{BlindTestAnswer, BlindTestQuestion, GameSession, Question, QuestionsSequence, Timestamp};
use neon_beat_back::events::{submit_and_announce_validation, EventPayload};
use neon_beat_back::phase::{GamePhase, GameRunningPhase, PauseKind, PrepStatus};
use neon_beat_back::play::{
    advance_to_question, get_current_question, mark_answer_found, plan_next_question, reveal_hint,
    submit_question_validation,
};
use neon_beat_back::requests::{AnswerFoundRequest, QuestionHintRequest, QuestionValidation, QuestionValidationRequest};

fn running_game() -> GameSession {
    let mut answers = HashMap::new();
    answers.insert(
        0,
        BlindTestAnswer { key: "title".to_string(), value: "Song title".to_string(), points: 2, is_bonus: false },
    );
    let mut questions = IndexMap::new();
    questions.insert(
        0,
        Question::BlindTest(BlindTestQuestion {
            starts_at_ms: 0,
            guess_duration_ms: 10_000,
            url: "https://example.com/song.mp3".to_string(),
            answers,
        }),
    );
    let sequence = QuestionsSequence::new("Quiz".to_string(), questions);
    GameSession {
        id: 7,
        name: "Game".to_string(),
        created_at: Timestamp { secs: 0, nanos: 0 },
        updated_at: Timestamp { secs: 0, nanos: 0 },
        teams: IndexMap::new(),
        questions_sequence: sequence,
        question_order: vec![0],
        current_question_index: Some(0),
        current_question_revealed: false,
        found_answer_ids: Vec::new(),
        revealed_hint_ids: Vec::new(),
    }
}

fn playing() -> GamePhase {
    GamePhase::GameRunning(GameRunningPhase::Playing)
}

#[test]
fn marks_answer_found_for_current_question() {
    let mut game = running_game();
    let response = mark_answer_found(&playing(), &mut game, AnswerFoundRequest { question_id: 0, answer_id: 0 }).unwrap();
    assert_eq!(response.answers_ids, vec![0]);
    assert_eq!(game.found_answer_ids, vec![0]);
}

#[test]
fn reveals_blindtest_answer_as_hint() {
    let mut game = running_game();
    let response = reveal_hint(&playing(), &mut game, QuestionHintRequest { question_id: 0, hint_id: 0 }).unwrap();
    assert_eq!(response.hints_ids, vec![0]);
    assert_eq!((game.found_answer_ids.clone(), game.revealed_hint_ids.clone()), (Vec::new(), vec![0]));
}

#[test]
fn rejects_unknown_answer_and_hint_ids() {
    let mut game = running_game();
    let answer_err = mark_answer_found(&playing(), &mut game, AnswerFoundRequest { question_id: 0, answer_id: 42 }).unwrap_err();
    assert!(answer_err.describe().contains("does not exist"));
    let hint_err = reveal_hint(&playing(), &mut game, QuestionHintRequest { question_id: 0, hint_id: 42 }).unwrap_err();
    assert!(hint_err.describe().contains("does not exist"));
}

#[test]
fn submits_question_validation_for_current_question_while_paused() {
    let game = running_game();
    let paused = GamePhase::GameRunning(GameRunningPhase::Paused(PauseKind::Manual));
    let response =
        submit_question_validation(&paused, &game, &QuestionValidationRequest { question_id: 0, valid: QuestionValidation::Correct })
            .unwrap();
    assert_eq!(response.message, "answered");
    let (response, event) =
        submit_and_announce_validation(&paused, &game, &QuestionValidationRequest { question_id: 0, valid: QuestionValidation::Correct })
            .unwrap();
    assert_eq!(response.message, "answered");
    assert_eq!(event.event, "question.validation");
    assert!(event.to_public && !event.to_admin);
    match event.payload {
        EventPayload::AnswerValidation(p) => {
            assert_eq!(p.question_id, 0);
            assert_eq!(p.valid, QuestionValidation::Correct);
        }
        other => panic!("unexpected payload {other:?}"),
    }
}

#[test]
fn refused_verdicts_are_not_announced() {
    let game = running_game();
    let err = submit_and_announce_validation(&playing(), &game, &QuestionValidationRequest { question_id: 0, valid: QuestionValidation::Wrong })
        .unwrap_err();
    assert_eq!(err.describe(), "invalid state: cannot validate answer while in phase GameRunning(Playing)");
}

#[test]
fn marking_an_answer_twice_changes_nothing() {
    let mut game = running_game();
    mark_answer_found(&playing(), &mut game, AnswerFoundRequest { question_id: 0, answer_id: 0 }).unwrap();
    let again = mark_answer_found(&playing(), &mut game, AnswerFoundRequest { question_id: 0, answer_id: 0 }).unwrap();
    assert_eq!(again.answers_ids, vec![0]);
    assert_eq!(game.found_answer_ids, vec![0]);
}

#[test]
fn found_answer_cannot_be_revealed_as_hint() {
    let mut game = running_game();
    mark_answer_found(&playing(), &mut game, AnswerFoundRequest { question_id: 0, answer_id: 0 }).unwrap();
    let err = reveal_hint(&playing(), &mut game, QuestionHintRequest { question_id: 0, hint_id: 0 }).unwrap_err();
    assert_eq!(err.describe(), "invalid state: cannot reveal a hint that corresponds to a found answer");
    assert!(game.revealed_hint_ids.is_empty());
}

#[test]
fn revealed_hint_cannot_be_marked_found() {
    let mut game = running_game();
    reveal_hint(&playing(), &mut game, QuestionHintRequest { question_id: 0, hint_id: 0 }).unwrap();
    let err = mark_answer_found(&playing(), &mut game, AnswerFoundRequest { question_id: 0, answer_id: 0 }).unwrap_err();
    assert_eq!(
        err.describe(),
        "invalid state: cannot mark an answer as found if its corresponding hint has already been revealed"
    );
}

#[test]
fn refuses_marking_during_preparation() {
    let mut game = running_game();
    let prep = GamePhase::GameRunning(GameRunningPhase::Prep(PrepStatus::Ready));
    let err = mark_answer_found(&prep, &mut game, AnswerFoundRequest { question_id: 0, answer_id: 0 }).unwrap_err();
    assert_eq!(err.describe(), "invalid state: cannot mark answers during preparation");
}

#[test]
fn refuses_another_question_than_the_current_one() {
    let mut game = running_game();
    let err = mark_answer_found(&playing(), &mut game, AnswerFoundRequest { question_id: 3, answer_id: 0 }).unwrap_err();
    assert_eq!(err.describe(), "invalid input: question id does not match the current question");
}

#[test]
fn validation_is_refused_while_playing() {
    let game = running_game();
    let err = submit_question_validation(&playing(), &game, &QuestionValidationRequest { question_id: 0, valid: QuestionValidation::Wrong })
        .unwrap_err();
    assert_eq!(err.describe(), "invalid state: cannot validate answer while in phase GameRunning(Playing)");
}

#[test]
fn plans_next_questions() {
    assert_eq!(plan_next_question(Some(0), 3, false, true).unwrap().0, Some(0));
    assert_eq!(plan_next_question(None, 3, false, true).unwrap().0, Some(0));
    assert_eq!(plan_next_question(Some(0), 3, true, false).unwrap().0, Some(1));
    assert_eq!(plan_next_question(Some(2), 3, true, false).unwrap().0, None);
    assert_eq!(plan_next_question(Some(2), 3, true, true).unwrap().0, Some(0));
    let err = plan_next_question(None, 3, true, false).unwrap_err();
    assert_eq!(err.describe(), "invalid state: no active question: sequence is over");
}

#[test]
fn moving_to_another_question_forgets_progress() {
    let mut game = running_game();
    mark_answer_found(&playing(), &mut game, AnswerFoundRequest { question_id: 0, answer_id: 0 }).unwrap();
    let summary = advance_to_question(&mut game, None).unwrap();
    assert!(summary.is_none());
    assert!(game.found_answer_ids.is_empty());
    assert_eq!(game.current_question_index, None);
    let err = get_current_question(&game).unwrap_err();
    assert_eq!(err.describe(), "not found: no active question: sequence is over");
}

#[test]
fn current_question_carries_progress() {
    let mut game = running_game();
    mark_answer_found(&playing(), &mut game, AnswerFoundRequest { question_id: 0, answer_id: 0 }).unwrap();
    let current = get_current_question(&game).unwrap();
    assert_eq!(current.answers_ids, vec![0]);
    assert!(current.hints_ids.is_empty());
}
