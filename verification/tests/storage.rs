use neon_beat_back::couch::{
    extract_uuid, game_doc_id, questions_sequence_doc_id, team_doc_id, CouchDaoError, CouchGameDocument, CouchTeamDocument,
    GameBody, TeamBody,
};
use neon_beat_back::game::Timestamp;
use neon_beat_back::models::{
    check_loadable_game, is_legacy_playlist_sequence, validate_persisted_game, BlindTestQuestionEntity, ConversionError,
    GameEntity, GameListItemEntity, OpenQuestionEntity, QuestionEntity, QuestionsSequenceEntity, TeamColorEntity,
    TeamEntity, TeamSummaryEntity,
};
use neon_beat_back::requests::GameListItem;

const GAME: u128 = 0x1111_2222_3333_4444_5555_6666_7777_8888;

fn ts(secs: i128, nanos: u32) -> Timestamp {
    Timestamp { secs, nanos }
}

fn team_doc(team_id: u128, name: &str, updated: Timestamp) -> CouchTeamDocument {
    CouchTeamDocument {
        id: team_doc_id(GAME, team_id),
        rev: None,
        team: TeamBody {
            game_id: GAME,
            team_id,
            name: name.to_string(),
            score: 3,
            color: TeamColorEntity { h: 1, s: 2, v: 3 },
            updated_at: updated,
        },
    }
}

fn game_doc(team_ids: Vec<u128>) -> CouchGameDocument {
    CouchGameDocument {
        id: game_doc_id(GAME),
        rev: Some("1-a".to_string()),
        game: GameBody {
            name: "Game".to_string(),
            created_at: ts(1, 0),
            updated_at: ts(5, 10),
            team_ids,
            questions_sequence_id: 9,
            question_order: vec![0, 1],
            current_question_index: Some(1),
            current_question_revealed: true,
        },
    }
}

#[test]
fn document_identifiers() {
    assert_eq!(game_doc_id(GAME), "game::11112222-3333-4444-5555-666677778888");
    assert_eq!(questions_sequence_doc_id(1), "questions_sequence::00000000-0000-0000-0000-000000000001");
    assert_eq!(team_doc_id(1, 2), "team::00000000-0000-0000-0000-000000000001:00000000-0000-0000-0000-000000000002");
    assert_eq!(extract_uuid(&game_doc_id(GAME)).unwrap(), GAME);
}

#[test]
fn invalid_document_identifiers() {
    match extract_uuid("game-1234") {
        Err(CouchDaoError::InvalidDocId { kind, .. }) => assert_eq!(kind, "missing separator"),
        other => panic!("unexpected {other:?}"),
    }
    match extract_uuid("game::nope") {
        Err(CouchDaoError::InvalidDocId { doc_id, kind }) => {
            assert_eq!(kind, "invalid UUID");
            assert_eq!(doc_id, "game::nope");
        }
        other => panic!("unexpected {other:?}"),
    }
}

#[test]
fn rebuilds_games_in_team_order_with_latest_update() {
    let docs = vec![team_doc(2, "B", ts(7, 0)), team_doc(1, "A", ts(6, 99))];
    let game = game_doc(vec![1, 2]).try_into_entity(GAME, docs).unwrap();
    let names: Vec<&str> = game.teams.iter().map(|t| t.name.as_str()).collect();
    assert_eq!(names, vec!["A", "B"]);
    assert_eq!(game.updated_at, ts(7, 0));
    assert_eq!(game.question_order, vec![0, 1]);
    let older = game_doc(vec![1]).try_into_entity(GAME, vec![team_doc(1, "A", ts(2, 0))]).unwrap();
    assert_eq!(older.updated_at, ts(5, 10));
}

#[test]
fn missing_and_repeated_teams_are_refused() {
    match game_doc(vec![1, 3, 4]).try_into_entity(GAME, vec![team_doc(1, "A", ts(1, 0))]) {
        Err(CouchDaoError::MissingTeams { game_id, team_ids }) => {
            assert_eq!(game_id, game_doc_id(GAME));
            assert_eq!(team_ids, vec![3, 4]);
        }
        other => panic!("unexpected {other:?}"),
    }
    match game_doc(vec![1, 1]).try_into_entity(GAME, vec![team_doc(1, "A", ts(1, 0))]) {
        Err(CouchDaoError::MissingTeams { team_ids, .. }) => assert_eq!(team_ids, vec![1]),
        other => panic!("unexpected {other:?}"),
    }
}

fn entity(teams: usize, order: Vec<u32>) -> GameEntity {
    GameEntity {
        id: 5,
        name: "Game".to_string(),
        created_at: ts(0, 0),
        updated_at: ts(0, 0),
        teams: (0..teams)
            .map(|i| TeamEntity {
                id: i as u128,
                name: format!("T{i}"),
                score: 0,
                color: TeamColorEntity { h: 0, s: 0, v: 0 },
                updated_at: ts(0, 0),
            })
            .collect(),
        questions_sequence_id: 9,
        question_order: order,
        current_question_index: Some(0),
        current_question_revealed: false,
    }
}

fn open_question() -> QuestionEntity {
    QuestionEntity::Open(OpenQuestionEntity {
        guess_duration_ms: 1,
        prompt: "p".to_string(),
        url: None,
        answers: Vec::new(),
        hints: Vec::new(),
    })
}

fn sequence(questions: Vec<QuestionEntity>) -> QuestionsSequenceEntity {
    QuestionsSequenceEntity { id: 9, name: "Quiz".to_string(), questions }
}

#[test]
fn persisted_games_are_checked_against_their_sequence() {
    let seq = sequence(vec![open_question(), open_question()]);
    assert!(validate_persisted_game(&entity(1, vec![1, 0]), &seq).is_ok());
    let label = "game `00000000-0000-0000-0000-000000000005`";
    assert_eq!(
        validate_persisted_game(&entity(0, vec![1, 0]), &seq).unwrap_err().describe(),
        format!("invalid state: {label} has no registered teams")
    );
    assert_eq!(
        validate_persisted_game(&entity(1, vec![0]), &seq).unwrap_err().describe(),
        format!("invalid state: {label} question order is inconsistent (expected 2 entries, got 1)")
    );
    assert_eq!(
        validate_persisted_game(&entity(1, vec![0, 7]), &seq).unwrap_err().describe(),
        format!("invalid state: {label} question order references unknown question `7`")
    );
    assert_eq!(
        validate_persisted_game(&entity(1, vec![]), &sequence(vec![])).unwrap_err().describe(),
        format!("invalid state: {label} has an empty questions sequence")
    );
}

#[test]
fn started_games_cannot_be_shuffled() {
    let mut game = entity(1, vec![0, 1, 2]);
    assert!(check_loadable_game(&game, true).is_ok());
    game.current_question_index = Some(1);
    assert_eq!(
        check_loadable_game(&game, true).unwrap_err().describe(),
        "invalid input: shuffle parameter cannot be used: game is already in progress"
    );
    assert!(check_loadable_game(&game, false).is_ok());
    game.current_question_index = Some(2);
    game.current_question_revealed = true;
    assert!(check_loadable_game(&game, true).is_ok());
    let empty = entity(1, vec![]);
    assert_eq!(
        check_loadable_game(&empty, false).unwrap_err().describe(),
        "invalid state: game `00000000-0000-0000-0000-000000000005` has an empty question order"
    );
}

#[test]
fn only_blindtest_sequences_are_playlists() {
    let blindtest = QuestionEntity::BlindTest(BlindTestQuestionEntity {
        starts_at_ms: 0,
        guess_duration_ms: 1,
        url: "u".to_string(),
        answers: Vec::new(),
    });
    assert!(is_legacy_playlist_sequence(&sequence(vec![blindtest.clone()])));
    assert!(!is_legacy_playlist_sequence(&sequence(vec![blindtest, open_question()])));
    assert!(!is_legacy_playlist_sequence(&sequence(vec![])));
}

#[test]
fn listed_games_need_their_own_sequence() {
    let item = GameListItemEntity {
        id: 5,
        name: "Game".to_string(),
        created_at: ts(0, 0),
        updated_at: ts(86_400, 0),
        teams: vec![TeamSummaryEntity { id: 1, name: "A".to_string() }],
        questions_sequence_id: 9,
    };
    let listed = GameListItem::try_from((item.clone(), sequence(vec![]))).unwrap();
    assert_eq!(listed.teams.len(), 1);
    assert_eq!(listed.updated_at, "1970-01-02T00:00:00Z");
    let mut other = sequence(vec![]);
    other.id = 8;
    let err = GameListItem::try_from((item, other)).unwrap_err();
    assert_eq!(err, ConversionError::MismatchedQuestionsSequenceId { expected: 9, found: 8 });
    assert_eq!(
        err.describe(),
        "questions sequence id mismatch: expected 00000000-0000-0000-0000-000000000009, found 00000000-0000-0000-0000-000000000008"
    );
}
