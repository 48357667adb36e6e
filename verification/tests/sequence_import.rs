use neon_beat_back::game::Question;
use neon_beat_back::input::{
    BlindTestAnswerInput, BlindTestQuestionInput, LegacyPlaylistInput, LegacyPointFieldInput, LegacySongInput,
    MultipleChoiceAnswerInput, MultipleChoiceQuestionInput, OpenAnswerInput, OpenQuestionInput, QuestionInput,
    QuestionsSequenceInput,
};
use neon_beat_back::sequence::build_questions_sequence;

fn blindtest_question() -> QuestionInput {
    QuestionInput::BlindTest(BlindTestQuestionInput {
        starts_at_ms: 1_000,
        guess_duration_ms: 15_000,
        url: "https://example.com/song.mp3".to_string(),
        answers: vec![
            BlindTestAnswerInput { key: "title".to_string(), value: "Song title".to_string(), points: 2, is_bonus: false },
            BlindTestAnswerInput { key: "year".to_string(), value: "1999".to_string(), points: 1, is_bonus: true },
        ],
    })
}

#[test]
fn imports_all_question_variants_with_auto_ids() {
    let input = QuestionsSequenceInput {
        name: "Quiz".to_string(),
        questions: vec![
            blindtest_question(),
            QuestionInput::MultipleChoice(MultipleChoiceQuestionInput {
                guess_duration_ms: 10_000,
                prompt: "Pick one".to_string(),
                url: None,
                answers: vec![
                    MultipleChoiceAnswerInput { text: "A".to_string(), is_correct: true },
                    MultipleChoiceAnswerInput { text: "B".to_string(), is_correct: false },
                ],
                hints: vec!["first hint".to_string()],
            }),
            QuestionInput::Open(OpenQuestionInput {
                guess_duration_ms: 10_000,
                prompt: "Write it".to_string(),
                url: Some("https://example.com/prompt.png".to_string()),
                answers: vec![OpenAnswerInput { text: "accepted".to_string() }],
                hints: vec!["open hint".to_string()],
            }),
        ],
    };

    input.validate().unwrap();
    let sequence = build_questions_sequence(input).unwrap();

    assert_eq!(sequence.questions.len(), 3);
    match sequence.questions.get(&0).unwrap() {
        Question::BlindTest(question) => {
            assert!(question.answers.contains_key(&0));
            assert!(question.answers.contains_key(&1));
            assert!(question.answers.get(&1).unwrap().is_bonus);
        }
        other => panic!("expected blindtest question, got {other:?}"),
    }
    match sequence.questions.get(&1).unwrap() {
        Question::MultipleChoice(question) => {
            assert!(question.answers.get(&0).unwrap().is_correct);
            assert!(!question.answers.get(&1).unwrap().is_correct);
            assert_eq!(question.hints.get(&0).unwrap().0, "first hint");
        }
        other => panic!("expected multiple-choice question, got {other:?}"),
    }
    match sequence.questions.get(&2).unwrap() {
        Question::Open(question) => {
            assert_eq!(question.answers.get(&0).unwrap().text, "accepted");
            assert_eq!(question.hints.get(&0).unwrap().0, "open hint");
        }
        other => panic!("expected open question, got {other:?}"),
    }
}

#[test]
fn rejects_empty_sequence() {
    let input = QuestionsSequenceInput { name: "Quiz".to_string(), questions: Vec::new() };

    input.validate().unwrap();
    let err = build_questions_sequence(input).unwrap_err();

    assert!(err.describe().contains("questions sequence"));
}

#[test]
fn rejects_multiple_choice_with_more_than_four_answers() {
    let input = QuestionsSequenceInput {
        name: "Quiz".to_string(),
        questions: vec![QuestionInput::MultipleChoice(MultipleChoiceQuestionInput {
            guess_duration_ms: 10_000,
            prompt: "Pick one".to_string(),
            url: None,
            answers: (0..5)
                .map(|index| MultipleChoiceAnswerInput { text: format!("answer {index}"), is_correct: index == 0 })
                .collect(),
            hints: Vec::new(),
        })],
    };

    input.validate().unwrap();
    let err = build_questions_sequence(input).unwrap_err();

    assert!(err.describe().contains("more than 4 answers"));
}

#[test]
fn rejects_invalid_url() {
    let input = QuestionsSequenceInput {
        name: "Quiz".to_string(),
        questions: vec![QuestionInput::BlindTest(BlindTestQuestionInput {
            starts_at_ms: 0,
            guess_duration_ms: 10_000,
            url: "not a url".to_string(),
            answers: vec![BlindTestAnswerInput {
                key: "title".to_string(),
                value: "Song".to_string(),
                points: 1,
                is_bonus: false,
            }],
        })],
    };

    let err = input.validate().unwrap_err();
    assert!(err.describe().contains("url"));
}

#[test]
fn converts_legacy_playlist_to_blindtest_questions() {
    let input = LegacyPlaylistInput {
        name: "Legacy".to_string(),
        songs: vec![LegacySongInput {
            starts_at_ms: 500,
            guess_duration_ms: 9_000,
            url: "https://example.com/legacy.mp3".to_string(),
            point_fields: vec![LegacyPointFieldInput { key: "artist".to_string(), value: "Artist".to_string(), points: 3 }],
            bonus_fields: vec![LegacyPointFieldInput { key: "year".to_string(), value: "2001".to_string(), points: 1 }],
        }],
    };

    let converted: QuestionsSequenceInput = input.into();
    converted.validate().unwrap();
    let sequence = build_questions_sequence(converted).unwrap();
    match sequence.questions.get(&0).unwrap() {
        Question::BlindTest(question) => {
            assert!(!question.answers.get(&0).unwrap().is_bonus);
            assert!(question.answers.get(&1).unwrap().is_bonus);
        }
        other => panic!("expected blindtest question, got {other:?}"),
    }
}

#[test]
fn rejects_blank_sequence_name() {
    let input = QuestionsSequenceInput { name: "   ".to_string(), questions: vec![blindtest_question()] };
    let err = build_questions_sequence(input).unwrap_err();
    assert_eq!(err.describe(), "invalid input: questions sequence name must not be empty");
}

#[test]
fn numbers_questions_in_import_order() {
    let input = QuestionsSequenceInput {
        name: "Quiz".to_string(),
        questions: vec![blindtest_question(), blindtest_question(), blindtest_question()],
    };
    let sequence = build_questions_sequence(input).unwrap();
    let keys: Vec<u32> = sequence.questions.keys().copied().collect();
    assert_eq!(keys, vec![0, 1, 2]);
}
