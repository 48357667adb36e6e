use indexmap::IndexMap;
use neon_beat_back::buzz::{complete_pairing_step, handle_buzz, BuzzError, BuzzOutcome};
use neon_beat_back::config::{default_colors, AppConfig};
use neon_beat_back::game::{GameSession, QuestionsSequence, Team, TeamColor, Timestamp};
use neon_beat_back::input::TeamInput;
use neon_beat_back::pairing::{
    abort_pairing, all_teams_paired, assign_buzzer, delete_team, next_unassigned_team, start_pairing, PairingProgress,
};
use neon_beat_back::patterns::BuzzerPatternPreset;
use neon_beat_back::phase::{GamePhase, GameRunningPhase, PauseKind, PrepStatus};
use neon_beat_back::requests::{CreateTeamRequest, ScoreAdjustmentRequest, StartPairingRequest, UpdateTeamRequest};
use neon_beat_back::teams::{adjust_score, assert_unique_buzzer, create_team, update_team};

const RED: TeamColor = TeamColor { h: 0, s: 0x3f80_0000, v: 0x3f80_0000 };

fn team(name: &str, buzzer: Option<&str>, score: i32) -> Team {
    Team {
        buzzer_id: buzzer.map(|b| b.to_string()),
        name: name.to_string(),
        score,
        color: RED,
        updated_at: Timestamp { secs: 1, nanos: 0 },
    }
}

fn game_with(teams: Vec<(u128, Team)>) -> GameSession {
    let mut map = IndexMap::new();
    for (id, t) in teams {
        map.insert(id, t);
    }
    GameSession {
        id: 1,
        name: "Game".to_string(),
        created_at: Timestamp { secs: 0, nanos: 0 },
        updated_at: Timestamp { secs: 0, nanos: 0 },
        teams: map,
        questions_sequence: QuestionsSequence::new("Quiz".to_string(), IndexMap::new()),
        question_order: Vec::new(),
        current_question_index: None,
        current_question_revealed: false,
        found_answer_ids: Vec::new(),
        revealed_hint_ids: Vec::new(),
    }
}

fn ready() -> GamePhase {
    GamePhase::GameRunning(GameRunningPhase::Prep(PrepStatus::Ready))
}

fn input(name: &str, buzzer: Option<Option<&str>>) -> TeamInput {
    TeamInput { name: name.to_string(), buzzer_id: buzzer.map(|b| b.map(|s| s.to_string())), score: None, color: None }
}

#[test]
fn creates_team_with_first_unused_color() {
    let config = AppConfig::default();
    let palette = default_colors();
    let mut first = team("A", None, 0);
    first.color = palette[0];
    let mut game = game_with(vec![(10, first)]);
    let summary = create_team(&ready(), &mut game, &config, CreateTeamRequest(input("B", Some(Some("aaaaaaaaaaaa"))))).unwrap();
    assert_eq!(summary.name, "B");
    assert_eq!(summary.score, 0);
    assert_eq!(summary.color, palette[1]);
    assert_eq!(summary.buzzer_id.as_deref(), Some("aaaaaaaaaaaa"));
    assert_eq!(game.teams.len(), 2);
    assert_eq!(game.teams.get_index(1).unwrap().1.name, "B");
}

#[test]
fn refuses_duplicate_buzzer_and_blank_name() {
    let config = AppConfig::default();
    let mut game = game_with(vec![(10, team("A", Some("aaaaaaaaaaaa"), 0))]);
    let err = create_team(&ready(), &mut game, &config, CreateTeamRequest(input("B", Some(Some("aaaaaaaaaaaa"))))).unwrap_err();
    assert_eq!(err.describe(), "invalid input: duplicate buzzer id `aaaaaaaaaaaa` detected");
    let err = create_team(&ready(), &mut game, &config, CreateTeamRequest(input("  ", None))).unwrap_err();
    assert_eq!(err.describe(), "invalid input: team name must not be empty");
    assert_eq!(game.teams.len(), 1);
}

#[test]
fn refuses_team_edits_while_pairing_or_playing() {
    let config = AppConfig::default();
    let mut game = game_with(vec![(10, team("A", None, 0))]);
    let mut phase = ready();
    start_pairing(&mut phase, &game, StartPairingRequest { first_team_id: 10 }).unwrap();
    let err = create_team(&phase, &mut game, &config, CreateTeamRequest(input("B", None))).unwrap_err();
    assert_eq!(err.describe(), "invalid state: cannot modify teams during active pairing");
    let playing = GamePhase::GameRunning(GameRunningPhase::Playing);
    let err = update_team(&playing, &mut game, 10, UpdateTeamRequest(input("B", None))).unwrap_err();
    assert_eq!(err.describe(), "invalid state: operation requires prep phase, current phase GameRunning(Playing)");
}

#[test]
fn updates_only_given_fields() {
    let mut game = game_with(vec![(10, team("A", Some("aaaaaaaaaaaa"), 5)), (11, team("B", None, 1))]);
    let mut request = input("Renamed", None);
    request.score = Some(9);
    let summary = update_team(&ready(), &mut game, 10, UpdateTeamRequest(request)).unwrap();
    assert_eq!(summary.name, "Renamed");
    assert_eq!(summary.score, 9);
    assert_eq!(summary.buzzer_id.as_deref(), Some("aaaaaaaaaaaa"));
    assert_eq!(game.teams.get_index(0).unwrap().1.name, "Renamed");
    assert_eq!(game.teams.get_index(1).unwrap().1.name, "B");
    let cleared = update_team(&ready(), &mut game, 10, UpdateTeamRequest(input("Renamed", Some(None)))).unwrap();
    assert_eq!(cleared.buzzer_id, None);
}

#[test]
fn update_of_unknown_team_names_it() {
    let mut game = game_with(vec![(10, team("A", None, 0))]);
    let err = update_team(&ready(), &mut game, 0x1234, UpdateTeamRequest(input("B", None))).unwrap_err();
    assert_eq!(err.describe(), "not found: team `00000000-0000-0000-0000-000000001234` not found");
}

#[test]
fn buzzer_may_stay_with_its_own_team() {
    let game = game_with(vec![(10, team("A", Some("aaaaaaaaaaaa"), 0))]);
    assert!(assert_unique_buzzer(&game, Some(10), &"aaaaaaaaaaaa".to_string()).is_ok());
    assert!(assert_unique_buzzer(&game, None, &"aaaaaaaaaaaa".to_string()).is_err());
}

#[test]
fn adjusts_scores_while_running() {
    let mut game = game_with(vec![(10, team("A", None, 5))]);
    let playing = GamePhase::GameRunning(GameRunningPhase::Playing);
    let response = adjust_score(&playing, &mut game, 10, ScoreAdjustmentRequest { delta: -7 }).unwrap();
    assert_eq!(response.score, -2);
    assert_eq!(game.teams.get(&10).unwrap().score, -2);
    let err = adjust_score(&playing, &mut game, 99, ScoreAdjustmentRequest { delta: 1 }).unwrap_err();
    assert_eq!(err.describe(), "not found: team not found");
    let err = adjust_score(&GamePhase::Idle, &mut game, 10, ScoreAdjustmentRequest { delta: 1 }).unwrap_err();
    assert_eq!(err.describe(), "invalid state: operation requires running phase, current: Idle");
}

#[test]
fn pairing_assigns_buzzers_in_order_and_finishes() {
    let config = AppConfig::default();
    let mut game = game_with(vec![(10, team("A", None, 0)), (11, team("B", None, 0))]);
    let mut phase = ready();
    start_pairing(&mut phase, &game, StartPairingRequest { first_team_id: 10 }).unwrap();

    let outcome = handle_buzz(&mut phase, &mut game, &config, &"aaaaaaaaaaaa".to_string()).unwrap();
    match outcome {
        BuzzOutcome::Paired { team_id, .. } => assert_eq!(team_id, 10),
        other => panic!("unexpected outcome {other:?}"),
    }
    assert_eq!(complete_pairing_step(&mut phase, &game, 10).unwrap(), PairingProgress::Wait(11));

    handle_buzz(&mut phase, &mut game, &config, &"bbbbbbbbbbbb".to_string()).unwrap();
    assert_eq!(complete_pairing_step(&mut phase, &game, 11).unwrap(), PairingProgress::Finish);
    assert!(matches!(phase, GamePhase::GameRunning(GameRunningPhase::Prep(PrepStatus::Ready))));
    assert!(all_teams_paired(&game.teams));
}

#[test]
fn a_buzzer_goes_to_one_team_only() {
    let mut game = game_with(vec![(10, team("A", Some("aaaaaaaaaaaa"), 0)), (11, team("B", None, 0))]);
    let (_, modified) = assign_buzzer(&mut game, 11, &"aaaaaaaaaaaa".to_string()).unwrap();
    assert_eq!(game.teams.get(&10).unwrap().buzzer_id, None);
    assert_eq!(game.teams.get(&11).unwrap().buzzer_id.as_deref(), Some("aaaaaaaaaaaa"));
    let ids: Vec<u128> = modified.iter().map(|(id, _)| *id).collect();
    assert_eq!(ids, vec![11, 10]);
}

#[test]
fn aborting_pairing_restores_the_teams() {
    let mut game = game_with(vec![(10, team("A", Some("aaaaaaaaaaaa"), 0)), (11, team("B", None, 0))]);
    let mut phase = ready();
    start_pairing(&mut phase, &game, StartPairingRequest { first_team_id: 11 }).unwrap();
    assign_buzzer(&mut game, 11, &"aaaaaaaaaaaa".to_string()).unwrap();
    let (teams, modified) = abort_pairing(&mut phase, &mut game).unwrap();
    assert_eq!(teams.len(), 2);
    assert_eq!(game.teams.get(&10).unwrap().buzzer_id.as_deref(), Some("aaaaaaaaaaaa"));
    assert_eq!(game.teams.get(&11).unwrap().buzzer_id, None);
    let ids: Vec<u128> = modified.iter().map(|(id, _)| *id).collect();
    assert_eq!(ids, vec![10, 11]);
    assert!(matches!(phase, GamePhase::GameRunning(GameRunningPhase::Prep(PrepStatus::Ready))));
    let err = abort_pairing(&mut phase, &mut game).unwrap_err();
    assert_eq!(err.describe(), "invalid state: no pairing session is active");
}

#[test]
fn deleting_the_awaited_team_moves_pairing_on() {
    let mut game = game_with(vec![(10, team("A", None, 0)), (11, team("B", None, 0))]);
    let mut phase = ready();
    start_pairing(&mut phase, &game, StartPairingRequest { first_team_id: 10 }).unwrap();
    let progress = delete_team(&mut phase, &mut game, 10).unwrap();
    assert_eq!(progress, Some(PairingProgress::Wait(11)));
    assert_eq!(game.teams.len(), 1);
    assert_eq!(next_unassigned_team(&game.teams), Some(11));
    let err = delete_team(&mut phase, &mut game, 10).unwrap_err();
    assert!(err.describe().starts_with("not found: team `"));
}

#[test]
fn starting_pairing_twice_is_refused() {
    let game = game_with(vec![(10, team("A", None, 0))]);
    let mut phase = ready();
    let err = start_pairing(&mut phase, &game, StartPairingRequest { first_team_id: 99 }).unwrap_err();
    assert!(err.describe().contains("not found"));
    start_pairing(&mut phase, &game, StartPairingRequest { first_team_id: 10 }).unwrap();
    let err = start_pairing(&mut phase, &game, StartPairingRequest { first_team_id: 10 }).unwrap_err();
    assert_eq!(err.describe(), "invalid state: pairing is already in progress");
}

#[test]
fn buzzes_during_preparation() {
    let config = AppConfig::default();
    let mut game = game_with(vec![(10, team("A", Some("aaaaaaaaaaaa"), 0))]);
    let mut phase = ready();
    match handle_buzz(&mut phase, &mut game, &config, &"aaaaaaaaaaaa".to_string()).unwrap() {
        BuzzOutcome::TestBuzz { team_id } => assert_eq!(team_id, 10),
        other => panic!("unexpected outcome {other:?}"),
    }
    match handle_buzz(&mut phase, &mut game, &config, &"bbbbbbbbbbbb".to_string()).unwrap() {
        BuzzOutcome::TeamCreated { team, .. } => {
            assert_eq!(team.name, "Team 2");
            assert_eq!(team.buzzer_id.as_deref(), Some("bbbbbbbbbbbb"));
        }
        other => panic!("unexpected outcome {other:?}"),
    }
    game.teams.get_index_mut(1).unwrap().1.buzzer_id = None;
    assert!(matches!(handle_buzz(&mut phase, &mut game, &config, &"cccccccccccc".to_string()).unwrap(), BuzzOutcome::Ignored));
}

#[test]
fn a_buzz_pauses_play() {
    let config = AppConfig::default();
    let mut game = game_with(vec![(10, team("A", Some("aaaaaaaaaaaa"), 0)), (11, team("B", Some("bbbbbbbbbbbb"), 0))]);
    let mut phase = GamePhase::GameRunning(GameRunningPhase::Playing);
    match handle_buzz(&mut phase, &mut game, &config, &"bbbbbbbbbbbb".to_string()).unwrap() {
        BuzzOutcome::Paused { patterns } => {
            assert_eq!(patterns.len(), 2);
            assert_eq!(patterns[0], ("aaaaaaaaaaaa".to_string(), BuzzerPatternPreset::Waiting));
            assert_eq!(patterns[1], ("bbbbbbbbbbbb".to_string(), BuzzerPatternPreset::Answering(RED)));
        }
        other => panic!("unexpected outcome {other:?}"),
    }
    match &phase {
        GamePhase::GameRunning(GameRunningPhase::Paused(PauseKind::Buzz { id })) => assert_eq!(id, "bbbbbbbbbbbb"),
        other => panic!("unexpected phase {other:?}"),
    }
    let err = handle_buzz(&mut phase, &mut game, &config, &"bbbbbbbbbbbb".to_string()).unwrap_err();
    assert!(matches!(err, BuzzError::NotRunningPhase));
}

#[test]
fn unknown_buzzer_cannot_pause_play() {
    let config = AppConfig::default();
    let mut game = game_with(vec![(10, team("A", Some("aaaaaaaaaaaa"), 0))]);
    let mut phase = GamePhase::GameRunning(GameRunningPhase::Playing);
    let err = handle_buzz(&mut phase, &mut game, &config, &"cccccccccccc".to_string()).unwrap_err();
    assert_eq!(err.describe(), "buzz ignored: unknown buzzer ID `cccccccccccc`");
    assert!(matches!(phase, GamePhase::GameRunning(GameRunningPhase::Playing)));
}
