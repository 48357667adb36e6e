//! Snapshots of the current question shown to players and public screens.

use std::collections::HashMap;

use vstd::prelude::*;
use vstd::std_specs::convert::FromSpecImpl;

use crate::game::{BlindTestAnswer, Hint, MultipleChoiceAnswer, OpenAnswer, Question, QuestionView};

verus! {

broadcast use vstd::std_specs::hash::group_hash_axioms;

/// Snapshot of a blindtest answer.
#[derive(Clone, Debug)]
pub struct BlindTestAnswerSnapshot {
    /// Name of the field.
    pub key: String,
    /// Expected value.
    pub value: String,
    /// Points awarded when found.
    pub points: u8,
    /// Whether this answer is a bonus.
    pub is_bonus: bool,
}

/// Snapshot of a multiple-choice answer.
#[derive(Clone, Debug)]
pub struct MultipleChoiceAnswerSnapshot {
    /// Choice text.
    pub text: String,
    /// Whether the choice is correct.
    pub is_correct: bool,
}

/// Snapshot of an open answer.
#[derive(Clone, Debug)]
pub struct OpenAnswerSnapshot {
    /// Accepted text.
    pub text: String,
}

/// Snapshot of a hint.
#[derive(Clone, Debug)]
pub struct HintSnapshot {
    /// Hint text.
    pub text: String,
}

impl<'a> FromSpecImpl<&'a BlindTestAnswer> for BlindTestAnswerSnapshot {
    open spec fn obeys_from_spec() -> bool {
        true
    }

    open spec fn from_spec(a: &'a BlindTestAnswer) -> BlindTestAnswerSnapshot {
        BlindTestAnswerSnapshot { key: a.key, value: a.value, points: a.points, is_bonus: a.is_bonus }
    }
}

impl<'a> From<&'a BlindTestAnswer> for BlindTestAnswerSnapshot {
    fn from(answer: &'a BlindTestAnswer) -> Self {
        Self {
            key: answer.key.clone(),
            value: answer.value.clone(),
            points: answer.points,
            is_bonus: answer.is_bonus,
        }
    }
}

impl<'a> FromSpecImpl<&'a MultipleChoiceAnswer> for MultipleChoiceAnswerSnapshot {
    open spec fn obeys_from_spec() -> bool {
        true
    }

    open spec fn from_spec(a: &'a MultipleChoiceAnswer) -> MultipleChoiceAnswerSnapshot {
        MultipleChoiceAnswerSnapshot { text: a.text, is_correct: a.is_correct }
    }
}

impl<'a> From<&'a MultipleChoiceAnswer> for MultipleChoiceAnswerSnapshot {
    fn from(answer: &'a MultipleChoiceAnswer) -> Self {
        Self { text: answer.text.clone(), is_correct: answer.is_correct }
    }
}

impl<'a> FromSpecImpl<&'a OpenAnswer> for OpenAnswerSnapshot {
    open spec fn obeys_from_spec() -> bool {
        true
    }

    open spec fn from_spec(a: &'a OpenAnswer) -> OpenAnswerSnapshot {
        OpenAnswerSnapshot { text: a.text }
    }
}

impl<'a> From<&'a OpenAnswer> for OpenAnswerSnapshot {
    fn from(answer: &'a OpenAnswer) -> Self {
        Self { text: answer.text.clone() }
    }
}

impl<'a> FromSpecImpl<&'a Hint> for HintSnapshot {
    open spec fn obeys_from_spec() -> bool {
        true
    }

    open spec fn from_spec(h: &'a Hint) -> HintSnapshot {
        HintSnapshot { text: h.0 }
    }
}

impl<'a> From<&'a Hint> for HintSnapshot {
    fn from(hint: &'a Hint) -> Self {
        Self { text: hint.0.clone() }
    }
}

/// Convert every value of a map keyed by `u8` identifiers into its snapshot, keeping the keys.
pub fn map_snapshot_values<V, O>(values: &HashMap<u8, V>) -> (r: HashMap<u8, O>) where
    O: for <'a>From<&'a V>,
    requires
        forall|v: &V| #[trigger] call_requires(O::from, (v,)),
    ensures
        r@.dom() == values@.dom(),
        forall|k: u8| values@.contains_key(k) ==> call_ensures(O::from, (&values@[k],), #[trigger] r@[k]),
{
    let mut out: HashMap<u8, O> = HashMap::new();
    let mut k: u16 = 0;
    while k < 256
        invariant
            k <= 256,
            forall|v: &V| #[trigger] call_requires(O::from, (v,)),
            out@.dom() == Set::new(|j: u8| (j as int) < k && values@.contains_key(j)),
            forall|j: u8| (j as int) < k && values@.contains_key(j) ==> call_ensures(O::from, (&values@[j],), #[trigger] out@[j]),
        decreases 256 - k,
    {
        let key = k as u8;
        if let Some(value) = values.get(&key) {
            out.insert(key, O::from(value));
        }
        assert(out@.dom() =~= Set::new(|j: u8| (j as int) < k + 1 && values@.contains_key(j)));
        k = k + 1;
    }
    assert(out@.dom() =~= values@.dom());
    out
}

/// Snapshot of a blindtest question.
#[derive(Clone, Debug)]
pub struct BlindTestQuestionSnapshot {
    /// Identifier of the question.
    pub id: u32,
    /// Where playback starts, in milliseconds.
    pub starts_at_ms: usize,
    /// Time allowed to answer, in milliseconds.
    pub guess_duration_ms: usize,
    /// Media URL.
    pub url: String,
    /// Answers by identifier.
    pub answers: HashMap<u8, BlindTestAnswerSnapshot>,
}

/// Snapshot of a multiple-choice question.
#[derive(Clone, Debug)]
pub struct MultipleChoiceQuestionSnapshot {
    /// Identifier of the question.
    pub id: u32,
    /// Time allowed to answer, in milliseconds.
    pub guess_duration_ms: usize,
    /// Prompt shown to the players.
    pub prompt: String,
    /// Optional supporting media URL.
    pub url: Option<String>,
    /// Choices by identifier.
    pub answers: HashMap<u8, MultipleChoiceAnswerSnapshot>,
    /// Hints by identifier.
    pub hints: HashMap<u8, HintSnapshot>,
}

/// Snapshot of an open question.
#[derive(Clone, Debug)]
pub struct OpenQuestionSnapshot {
    /// Identifier of the question.
    pub id: u32,
    /// Time allowed to answer, in milliseconds.
    pub guess_duration_ms: usize,
    /// Prompt shown to the players.
    pub prompt: String,
    /// Optional supporting media URL.
    pub url: Option<String>,
    /// Accepted answers by identifier.
    pub answers: HashMap<u8, OpenAnswerSnapshot>,
    /// Hints by identifier.
    pub hints: HashMap<u8, HintSnapshot>,
}

/// Snapshot of a question of any kind.
#[derive(Clone, Debug)]
pub enum QuestionSnapshot {
    /// Blindtest question.
    BlindTest(BlindTestQuestionSnapshot),
    /// Multiple-choice question.
    MultipleChoice(MultipleChoiceQuestionSnapshot),
    /// Open question.
    Open(OpenQuestionSnapshot),
}

pub open spec fn blindtest_answer_snapshot(a: BlindTestAnswer) -> BlindTestAnswerSnapshot {
    BlindTestAnswerSnapshot { key: a.key, value: a.value, points: a.points, is_bonus: a.is_bonus }
}

pub open spec fn multiple_choice_answer_snapshot(a: MultipleChoiceAnswer) -> MultipleChoiceAnswerSnapshot {
    MultipleChoiceAnswerSnapshot { text: a.text, is_correct: a.is_correct }
}

pub open spec fn open_answer_snapshot(a: OpenAnswer) -> OpenAnswerSnapshot {
    OpenAnswerSnapshot { text: a.text }
}

pub open spec fn hint_snapshot(h: Hint) -> HintSnapshot {
    HintSnapshot { text: h.0 }
}

/// `s` is the snapshot of question `q` under identifier `id`: same kind, same fields, every
/// answer and hint under its identifier.
pub open spec fn snapshots_question(id: u32, q: QuestionView, s: QuestionSnapshot) -> bool {
    match (q, s) {
        (QuestionView::BlindTest { starts_at_ms, guess_duration_ms, url, answers }, QuestionSnapshot::BlindTest(x)) => {
            &&& x.id == id
            &&& x.starts_at_ms == starts_at_ms
            &&& x.guess_duration_ms == guess_duration_ms
            &&& x.url == url
            &&& x.answers@ == answers.map_values(|a: BlindTestAnswer| blindtest_answer_snapshot(a))
        },
        (QuestionView::MultipleChoice { guess_duration_ms, prompt, url, answers, hints }, QuestionSnapshot::MultipleChoice(x)) => {
            &&& x.id == id
            &&& x.guess_duration_ms == guess_duration_ms
            &&& x.prompt == prompt
            &&& x.url == url
            &&& x.answers@ == answers.map_values(|a: MultipleChoiceAnswer| multiple_choice_answer_snapshot(a))
            &&& x.hints@ == hints.map_values(|h: Hint| hint_snapshot(h))
        },
        (QuestionView::Open { guess_duration_ms, prompt, url, answers, hints }, QuestionSnapshot::Open(x)) => {
            &&& x.id == id
            &&& x.guess_duration_ms == guess_duration_ms
            &&& x.prompt == prompt
            &&& x.url == url
            &&& x.answers@ == answers.map_values(|a: OpenAnswer| open_answer_snapshot(a))
            &&& x.hints@ == hints.map_values(|h: Hint| hint_snapshot(h))
        },
        _ => false,
    }
}

impl QuestionSnapshot {
    /// Snapshot of a question of the running game under its identifier.
    pub fn from_game_question(id: u32, question: &Question) -> (s: Self)
        ensures
            snapshots_question(id, question@, s),
    {
        match question {
            Question::BlindTest(q) => {
                let answers: HashMap<u8, BlindTestAnswerSnapshot> = map_snapshot_values(&q.answers);
                assert(answers@ =~= q.answers@.map_values(|a: BlindTestAnswer| blindtest_answer_snapshot(a)));
                QuestionSnapshot::BlindTest(BlindTestQuestionSnapshot {
                    id,
                    starts_at_ms: q.starts_at_ms,
                    guess_duration_ms: q.guess_duration_ms,
                    url: q.url.clone(),
                    answers,
                })
            },
            Question::MultipleChoice(q) => {
                let answers: HashMap<u8, MultipleChoiceAnswerSnapshot> = map_snapshot_values(&q.answers);
                let hints: HashMap<u8, HintSnapshot> = map_snapshot_values(&q.hints);
                assert(answers@ =~= q.answers@.map_values(|a: MultipleChoiceAnswer| multiple_choice_answer_snapshot(a)));
                assert(hints@ =~= q.hints@.map_values(|h: Hint| hint_snapshot(h)));
                QuestionSnapshot::MultipleChoice(MultipleChoiceQuestionSnapshot {
                    id,
                    guess_duration_ms: q.guess_duration_ms,
                    prompt: q.prompt.clone(),
                    url: q.url.clone(),
                    answers,
                    hints,
                })
            },
            Question::Open(q) => {
                let answers: HashMap<u8, OpenAnswerSnapshot> = map_snapshot_values(&q.answers);
                let hints: HashMap<u8, HintSnapshot> = map_snapshot_values(&q.hints);
                assert(answers@ =~= q.answers@.map_values(|a: OpenAnswer| open_answer_snapshot(a)));
                assert(hints@ =~= q.hints@.map_values(|h: Hint| hint_snapshot(h)));
                QuestionSnapshot::Open(OpenQuestionSnapshot {
                    id,
                    guess_duration_ms: q.guess_duration_ms,
                    prompt: q.prompt.clone(),
                    url: q.url.clone(),
                    answers,
                    hints,
                })
            },
        }
    }
}

} // verus!
