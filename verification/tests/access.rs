use indexmap::IndexMap;
use neon_beat_back::error::AppError;
use neon_beat_back::events::check_admin_token;
use neon_beat_back::game::{GameSession, QuestionsSequence, Team, TeamColor, Timestamp};
use neon_beat_back::models::questions_sequence_items;
use neon_beat_back::phase::{GamePhase, GameRunningPhase, PrepStatus};
use neon_beat_back::setup::{check_game_deletion, check_game_start, deletion_outcome};

fn unauthorized(r: Result<(), AppError>) -> String {
    match r {
        Err(AppError::Unauthorized(m)) => m,
        other => panic!("unexpected {other:?}"),
    }
}

#[test]
fn admin_requests_need_the_claimed_token() {
    let claimed = Some("abc".to_string());
    assert!(check_admin_token(Some("abc"), &claimed).is_ok());
    assert_eq!(unauthorized(check_admin_token(Some("abd"), &claimed)), "invalid admin token");
    assert_eq!(unauthorized(check_admin_token(None, &claimed)), "missing admin token header `X-Admin-Token`");
    assert_eq!(unauthorized(check_admin_token(Some("abc"), &None)), "admin SSE stream not initialised yet");
}

fn game(teams: Vec<Option<&str>>) -> GameSession {
    let mut map = IndexMap::new();
    for (i, b) in teams.into_iter().enumerate() {
        map.insert(
            i as u128,
            Team {
                buzzer_id: b.map(|s| s.to_string()),
                name: format!("T{i}"),
                score: 0,
                color: TeamColor { h: 0, s: 0, v: 0 },
                updated_at: Timestamp { secs: 0, nanos: 0 },
            },
        );
    }
    GameSession {
        id: 1,
        name: "Game".to_string(),
        created_at: Timestamp { secs: 0, nanos: 0 },
        updated_at: Timestamp { secs: 0, nanos: 0 },
        teams: map,
        questions_sequence: QuestionsSequence::new("Quiz".to_string(), IndexMap::new()),
        question_order: Vec::new(),
        current_question_index: None,
        current_question_revealed: false,
        found_answer_ids: Vec::new(),
        revealed_hint_ids: Vec::new(),
    }
}

#[test]
fn games_start_with_paired_teams_only() {
    let ready = GamePhase::GameRunning(GameRunningPhase::Prep(PrepStatus::Ready));
    assert_eq!(
        check_game_start(&ready, &game(vec![])).unwrap_err().describe(),
        "invalid input: cannot start a game without at least one team"
    );
    assert_eq!(
        check_game_start(&ready, &game(vec![Some("aaaaaaaaaaaa"), None])).unwrap_err().describe(),
        "invalid state: cannot start game while unpaired teams remain"
    );
    assert!(check_game_start(&ready, &game(vec![Some("aaaaaaaaaaaa")])).is_ok());
    assert!(check_game_start(&GamePhase::GameRunning(GameRunningPhase::Reveal), &game(vec![None])).is_ok());
}

#[test]
fn running_games_cannot_be_deleted() {
    let playing = GamePhase::GameRunning(GameRunningPhase::Playing);
    assert_eq!(
        check_game_deletion(&playing, Some(4), 4).unwrap_err().describe(),
        "invalid state: cannot delete a game that is currently running"
    );
    assert_eq!(check_game_deletion(&GamePhase::Idle, Some(4), 4).unwrap(), true);
    assert_eq!(check_game_deletion(&playing, Some(4), 5).unwrap(), false);
    assert_eq!(
        deletion_outcome(false, 4).unwrap_err().describe(),
        "not found: game `00000000-0000-0000-0000-000000000004` not found"
    );
    assert!(deletion_outcome(true, 4).is_ok());
}

#[test]
fn lists_questions_sequences_in_storage_order() {
    let items = questions_sequence_items(vec![(2, "B".to_string()), (1, "A".to_string())]);
    let ids: Vec<u128> = items.iter().map(|i| i.id).collect();
    assert_eq!(ids, vec![2, 1]);
    assert_eq!(items[1].name, "A");
}
