use std::collections::HashMap;

use indexmap::IndexMap;
use neon_beat_back::config::{default_colors, AppConfig};
use neon_beat_back::game::{GameSession, OpenQuestion, Question, QuestionsSequence, TeamColor, Timestamp};
use neon_beat_back::input::TeamInput;
use neon_beat_back::phase::{GamePhase, GameRunningPhase, PrepStatus};
use neon_beat_back::setup::{
    build_teams, build_teams_with, check_new_game, ensure_sequence_not_empty, prepare_new_game, resolve_questions_sequence,
    shuffle_question_order,
};

fn input(name: &str, buzzer: Option<&str>, color: Option<TeamColor>) -> TeamInput {
    TeamInput { name: name.to_string(), buzzer_id: Some(buzzer.map(|b| b.to_string())), score: None, color }
}

#[test]
fn teams_get_free_colors_in_order() {
    let config = AppConfig::default();
    let palette = default_colors();
    let times = vec![Timestamp { secs: 1, nanos: 0 }; 3];
    let teams = build_teams_with(
        vec![input("A", None, Some(palette[0])), input("B", None, None), input("C", Some("aaaaaaaaaaaa"), None)],
        &config,
        &vec![1, 2, 3],
        &times,
    )
    .unwrap();
    let colors: Vec<TeamColor> = teams.values().map(|t| t.color).collect();
    assert_eq!(colors, vec![palette[0], palette[1], palette[2]]);
    assert_eq!(teams.get(&3).unwrap().buzzer_id.as_deref(), Some("aaaaaaaaaaaa"));
    assert_eq!(teams.get(&2).unwrap().score, 0);
}

#[test]
fn game_setup_refuses_duplicate_buzzers_and_blank_names() {
    let config = AppConfig::default();
    let err = build_teams(vec![input("A", Some("aaaaaaaaaaaa"), None), input("B", Some("aaaaaaaaaaaa"), None)], &config)
        .unwrap_err();
    assert_eq!(err.describe(), "invalid input: duplicate buzzer id `aaaaaaaaaaaa` detected");
    let err = build_teams(vec![input("A", None, None), input(" ", None, None)], &config).unwrap_err();
    assert_eq!(err.describe(), "invalid input: team name must not be empty");
    assert_eq!(build_teams(vec![input("A", None, None), input("B", None, None)], &config).unwrap().len(), 2);
}

#[test]
fn games_are_set_up_only_while_idle() {
    assert!(check_new_game(&GamePhase::Idle, &"Game".to_string()).is_ok());
    let err = check_new_game(&GamePhase::Idle, &"".to_string()).unwrap_err();
    assert_eq!(err.describe(), "invalid input: game name must not be empty");
    let prep = GamePhase::GameRunning(GameRunningPhase::Prep(PrepStatus::Ready));
    let err = check_new_game(&prep, &"Game".to_string()).unwrap_err();
    assert_eq!(err.describe(), "invalid state: game can only be bootstrapped while idle");
    assert_eq!(
        ensure_sequence_not_empty(0).unwrap_err().describe(),
        "invalid input: questions sequence must contain at least one question"
    );
}

#[test]
fn shuffling_keeps_the_questions() {
    let mut questions = IndexMap::new();
    for i in 0..20u32 {
        questions.insert(
            i,
            Question::Open(OpenQuestion {
                guess_duration_ms: 1,
                prompt: "p".to_string(),
                url: None,
                answers: HashMap::new(),
                hints: HashMap::new(),
            }),
        );
    }
    let mut game = GameSession {
        id: 1,
        name: "Game".to_string(),
        created_at: Timestamp { secs: 0, nanos: 0 },
        updated_at: Timestamp { secs: 0, nanos: 0 },
        teams: IndexMap::new(),
        questions_sequence: QuestionsSequence::new("Quiz".to_string(), questions),
        question_order: (0..20).collect(),
        current_question_index: Some(0),
        current_question_revealed: false,
        found_answer_ids: Vec::new(),
        revealed_hint_ids: Vec::new(),
    };
    shuffle_question_order(&mut game);
    let mut order = game.question_order.clone();
    order.sort();
    assert_eq!(order, (0..20).collect::<Vec<u32>>());
    assert!(game.updated_at.secs > 0);
}

#[test]
fn distinct_ids_give_one_team_per_input() {
    let config = AppConfig::default();
    let times = vec![Timestamp { secs: 1, nanos: 0 }, Timestamp { secs: 2, nanos: 0 }, Timestamp { secs: 3, nanos: 0 }];
    let teams = build_teams_with(
        vec![input("A", None, None), input("B", None, None), input("C", None, None)],
        &config,
        &vec![30, 10, 20],
        &times,
    )
    .unwrap();
    let keys: Vec<u128> = teams.keys().copied().collect();
    assert_eq!(keys, vec![30, 10, 20]);
    let names: Vec<&str> = teams.values().map(|t| t.name.as_str()).collect();
    assert_eq!(names, vec!["A", "B", "C"]);
    assert_eq!(teams.get(&20).unwrap().updated_at, Timestamp { secs: 3, nanos: 0 });
}

#[test]
fn a_repeated_id_keeps_one_team() {
    let config = AppConfig::default();
    let times = vec![Timestamp { secs: 1, nanos: 0 }; 2];
    let teams = build_teams_with(vec![input("A", None, None), input("B", None, None)], &config, &vec![5, 5], &times).unwrap();
    assert_eq!(teams.len(), 1);
    assert_eq!(teams.get(&5).unwrap().name, "B");
}

fn quiz(count: u32) -> QuestionsSequence {
    let mut questions = IndexMap::new();
    for i in 0..count {
        questions.insert(
            i,
            Question::Open(OpenQuestion {
                guess_duration_ms: 1,
                prompt: "p".to_string(),
                url: None,
                answers: HashMap::new(),
                hints: HashMap::new(),
            }),
        );
    }
    QuestionsSequence::new("Quiz".to_string(), questions)
}

#[test]
fn a_missing_questions_sequence_is_not_found() {
    let err = resolve_questions_sequence(5, None, None).unwrap_err();
    assert_eq!(err.describe(), "not found: questions sequence `00000000-0000-0000-0000-000000000005` not found");
    let stored = quiz(2);
    let stored_id = stored.id;
    assert_eq!(resolve_questions_sequence(5, None, Some(stored)).unwrap().id, stored_id);
    let submitted = quiz(1);
    let submitted_id = submitted.id;
    assert_eq!(resolve_questions_sequence(5, Some(submitted), Some(quiz(3))).unwrap().id, submitted_id);
}

#[test]
fn new_games_are_checked_in_order() {
    let config = AppConfig::default();
    let name = "Game".to_string();
    let prep = GamePhase::GameRunning(GameRunningPhase::Prep(PrepStatus::Ready));
    let err = prepare_new_game(&prep, &config, &name, vec![], 5, None, None).unwrap_err();
    assert_eq!(err.describe(), "invalid state: game can only be bootstrapped while idle");
    let err = prepare_new_game(&GamePhase::Idle, &config, &" ".to_string(), vec![], 5, None, None).unwrap_err();
    assert_eq!(err.describe(), "invalid input: game name must not be empty");
    let err = prepare_new_game(&GamePhase::Idle, &config, &name, vec![input(" ", None, None)], 5, None, None).unwrap_err();
    assert_eq!(err.describe(), "invalid input: team name must not be empty");
    let err = prepare_new_game(&GamePhase::Idle, &config, &name, vec![input("A", None, None)], 5, None, None).unwrap_err();
    assert_eq!(err.describe(), "not found: questions sequence `00000000-0000-0000-0000-000000000005` not found");
    let err = prepare_new_game(&GamePhase::Idle, &config, &name, vec![input("A", None, None)], 5, None, Some(quiz(0))).unwrap_err();
    assert_eq!(err.describe(), "invalid input: questions sequence must contain at least one question");
    let (teams, sequence) =
        prepare_new_game(&GamePhase::Idle, &config, &name, vec![input("A", None, None), input("B", None, None)], 5, Some(quiz(3)), None)
            .unwrap();
    assert_eq!(teams.len(), 2);
    assert_eq!(sequence.questions.len(), 3);
}
