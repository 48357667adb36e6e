use neon_beat_back::error::{ServiceError, StorageError};
use neon_beat_back::buzz::BuzzError;
use neon_beat_back::events::{
    broadcast_admin_handshake, broadcast_question_found_answers, broadcast_team_created, claim_admin_token,
    reset_admin_token, EventPayload,
};
use neon_beat_back::game::TeamColor;
use neon_beat_back::patterns::BuzzerPatternPreset;
use neon_beat_back::socket::{
    buzz_failure_ends_connection, initial_preset, socket_step, BuzzerInboundMessage, CloseFrameData, SocketAction,
    SocketEvent,
    SocketState,
};
use neon_beat_back::store::{
    default_store, health_status, is_couch, is_mongo, resolve_store, CouchConfig, RetryPolicy, StoreKind,
};
use neon_beat_back::summary::TeamSummary;

#[test]
fn store_names_are_trimmed_and_case_blind() {
    assert!(is_mongo("  MongoDB\n"));
    assert!(is_couch("couch"));
    assert!(!is_couch("couchy"));
    assert_eq!(resolve_store(" Couch "), Ok(StoreKind::Couch));
    assert_eq!(resolve_store("mongo"), Ok(StoreKind::Mongo));
    assert_eq!(
        resolve_store("redis"),
        Err("Invalid NEON_STORE value `redis` (expected `mongo` or `couch`)".to_string())
    );
    assert!(default_store().is_err());
}

#[test]
fn retry_delays_double_up_to_five_seconds() {
    assert_eq!(RetryPolicy::initial_delay(), 250);
    assert_eq!(RetryPolicy::next_delay(250), 500);
    assert_eq!(RetryPolicy::next_delay(4000), 5000);
    assert_eq!(RetryPolicy::next_delay(5000), 5000);
}

#[test]
fn couch_settings_and_health() {
    let config = CouchConfig::new("http://db".to_string(), "games".to_string()).with_credentials("u".to_string(), "p".to_string());
    assert_eq!(config.username.as_deref(), Some("u"));
    assert_eq!(config.database, "games");
    assert_eq!(health_status(true).status, "degraded");
    assert_eq!(health_status(false).status, "ok");
}

#[test]
fn admin_stream_is_reserved_once() {
    let mut slot = None;
    let token = claim_admin_token(&mut slot).unwrap();
    assert_eq!(token.len(), 32);
    assert!(token.chars().all(|c| c.is_ascii_hexdigit() && !c.is_ascii_uppercase()));
    let err = claim_admin_token(&mut slot).unwrap_err();
    assert_eq!(err.describe(), "unauthorized: Another admin SSE stream is already active");
    reset_admin_token(&mut slot);
    assert!(claim_admin_token(&mut slot).is_ok());
}

#[test]
fn notifications_name_their_audience() {
    let b = broadcast_question_found_answers(4, &[1, 2]);
    assert_eq!(b.event, "question.found_answers");
    assert!(b.to_public && !b.to_admin);
    match b.payload {
        EventPayload::QuestionFoundAnswers(p) => assert_eq!(p.answers_ids, vec![1, 2]),
        other => panic!("unexpected {other:?}"),
    }
    let team = TeamSummary { id: 1, buzzer_id: None, name: "A".to_string(), score: 0, color: TeamColor { h: 0, s: 0, v: 0 } };
    let created = broadcast_team_created(team);
    assert!(created.to_public && created.to_admin);
    let handshake = broadcast_admin_handshake("tok", false);
    match handshake.payload {
        EventPayload::Handshake(h) => {
            assert_eq!(h.stream, "admin");
            assert_eq!(h.token.as_deref(), Some("tok"));
        }
        other => panic!("unexpected {other:?}"),
    }
}

#[test]
fn buzzers_must_identify_first() {
    let mut state = SocketState::AwaitingIdentification;
    let action = socket_step(&mut state, SocketEvent::Text(Some(BuzzerInboundMessage::Buzz { id: "aaaaaaaaaaaa".to_string() })));
    assert!(matches!(action, SocketAction::Close { send_close: true, frame: None }));
    assert!(matches!(state, SocketState::Closed));

    let mut state = SocketState::AwaitingIdentification;
    let action = socket_step(&mut state, SocketEvent::TimedOut);
    assert!(matches!(action, SocketAction::Close { send_close: false, frame: None }));
}

#[test]
fn identified_buzzers_buzz_under_their_own_name() {
    let mut state = SocketState::AwaitingIdentification;
    let action =
        socket_step(&mut state, SocketEvent::Text(Some(BuzzerInboundMessage::Identification { id: "aaaaaaaaaaaa".to_string() })));
    assert!(matches!(action, SocketAction::Register { ref buzzer_id } if buzzer_id == "aaaaaaaaaaaa"));
    let action = socket_step(&mut state, SocketEvent::Text(Some(BuzzerInboundMessage::Buzz { id: "aaaaaaaaaaaa".to_string() })));
    assert!(matches!(action, SocketAction::HandleBuzz { .. }));
    let action = socket_step(&mut state, SocketEvent::Text(Some(BuzzerInboundMessage::Buzz { id: "bbbbbbbbbbbb".to_string() })));
    match action {
        SocketAction::Refuse(err) => {
            assert_eq!(err.describe(), "buzz ignored: mismatched ID (expected aaaaaaaaaaaa, got bbbbbbbbbbbb)")
        }
        other => panic!("unexpected {other:?}"),
    }
    assert!(matches!(socket_step(&mut state, SocketEvent::Ping(vec![1])), SocketAction::Pong(ref p) if p == &vec![1]));
    assert!(matches!(socket_step(&mut state, SocketEvent::Text(None)), SocketAction::Ignore));
    match socket_step(&mut state, SocketEvent::Close(Some(CloseFrameData { code: 1000, reason: "bye".to_string() }))) {
        SocketAction::Close { send_close, frame } => {
            assert!(send_close);
            let frame = frame.unwrap();
            assert_eq!((frame.code, frame.reason.as_str()), (1000, "bye"));
        }
        other => panic!("unexpected {other:?}"),
    }
    assert!(matches!(socket_step(&mut state, SocketEvent::Pong), SocketAction::Close { send_close: false, frame: None }));
}

#[test]
fn reconnecting_buzzers_get_their_last_light() {
    assert_eq!(initial_preset(None), BuzzerPatternPreset::WaitingForPairing);
    assert_eq!(initial_preset(Some(BuzzerPatternPreset::Waiting)), BuzzerPatternPreset::Waiting);
    assert!(buzz_failure_ends_connection(&BuzzError::ConnectionClosed));
    assert!(!buzz_failure_ends_connection(&BuzzError::NotRunningPhase));
}

#[test]
fn storage_errors_keep_their_cause() {
    let err = StorageError::unavailable("ping failed".to_string(), "connection refused".to_string());
    assert_eq!(err.describe(), "storage unavailable: ping failed");
    assert_eq!(err.source_text(), "connection refused");
    let service = ServiceError::from(err);
    assert!(matches!(service, ServiceError::Unavailable(_)));
}
