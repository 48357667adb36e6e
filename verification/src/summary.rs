//! Summaries of questions, sequences and teams returned to administrators.

use std::collections::HashMap;

use vstd::prelude::*;
use vstd::std_specs::convert::{FromSpecImpl, IntoSpec};

use indexmap::IndexMap;
use vstd::std_specs::convert::TryFromSpecImpl;
use vstd::string::*;

use crate::collections::{question_entries, team_entries, team_map_get_index, team_map_len, value_of};
use crate::ids::{hyphenated_uuid, rfc3339_of, rfc3339_text, uuid_text};
use crate::order::{ordered_question_summaries, QuestionOrderError};
use crate::game::{instant_nanos, GameSession, QuestionsSequence, Timestamp,
    BlindTestAnswer, BlindTestQuestion, Hint, MultipleChoiceAnswer, MultipleChoiceQuestion,
    OpenAnswer, OpenQuestion, Question, QuestionView, Team, TeamColor,
};

verus! {

broadcast use vstd::std_specs::hash::group_hash_axioms;

/// Summary of a blindtest answer.
#[derive(Clone, Debug)]
pub struct BlindTestAnswerSummary {
    /// Name of the field.
    pub key: String,
    /// Expected value.
    pub value: String,
    /// Points awarded when found.
    pub points: u8,
    /// Whether this answer is a bonus.
    pub is_bonus: bool,
}

/// Summary of a multiple-choice answer.
#[derive(Clone, Debug)]
pub struct MultipleChoiceAnswerSummary {
    /// Choice text.
    pub text: String,
    /// Whether the choice is correct.
    pub is_correct: bool,
}

/// Summary of an open answer.
#[derive(Clone, Debug)]
pub struct OpenAnswerSummary {
    /// Accepted text.
    pub text: String,
}

/// Summary of a hint.
#[derive(Clone, Debug)]
pub struct HintSummary {
    /// Hint text.
    pub text: String,
}

impl FromSpecImpl<BlindTestAnswer> for BlindTestAnswerSummary {
    open spec fn obeys_from_spec() -> bool {
        true
    }

    open spec fn from_spec(a: BlindTestAnswer) -> BlindTestAnswerSummary {
        BlindTestAnswerSummary { key: a.key, value: a.value, points: a.points, is_bonus: a.is_bonus }
    }
}

impl From<BlindTestAnswer> for BlindTestAnswerSummary {
    fn from(answer: BlindTestAnswer) -> Self {
        Self { key: answer.key, value: answer.value, points: answer.points, is_bonus: answer.is_bonus }
    }
}

impl FromSpecImpl<MultipleChoiceAnswer> for MultipleChoiceAnswerSummary {
    open spec fn obeys_from_spec() -> bool {
        true
    }

    open spec fn from_spec(a: MultipleChoiceAnswer) -> MultipleChoiceAnswerSummary {
        MultipleChoiceAnswerSummary { text: a.text, is_correct: a.is_correct }
    }
}

impl From<MultipleChoiceAnswer> for MultipleChoiceAnswerSummary {
    fn from(answer: MultipleChoiceAnswer) -> Self {
        Self { text: answer.text, is_correct: answer.is_correct }
    }
}

impl FromSpecImpl<OpenAnswer> for OpenAnswerSummary {
    open spec fn obeys_from_spec() -> bool {
        true
    }

    open spec fn from_spec(a: OpenAnswer) -> OpenAnswerSummary {
        OpenAnswerSummary { text: a.text }
    }
}

impl From<OpenAnswer> for OpenAnswerSummary {
    fn from(answer: OpenAnswer) -> Self {
        Self { text: answer.text }
    }
}

impl FromSpecImpl<Hint> for HintSummary {
    open spec fn obeys_from_spec() -> bool {
        true
    }

    open spec fn from_spec(h: Hint) -> HintSummary {
        HintSummary { text: h.0 }
    }
}

impl From<Hint> for HintSummary {
    fn from(hint: Hint) -> Self {
        Self { text: hint.0 }
    }
}

/// Convert every value of a map keyed by `u8` identifiers, keeping the keys.
pub fn map_values<V, O>(values: HashMap<u8, V>) -> (r: HashMap<u8, O>) where V: Into<O>
    requires
        V::obeys_into_spec(),
    ensures
        r@ == values@.map_values(|v: V| v.into_spec()),
{
    let ghost orig = values@;
    let mut rest = values;
    let mut out: HashMap<u8, O> = HashMap::new();
    let mut k: u16 = 0;
    while k < 256
        invariant
            k <= 256,
            V::obeys_into_spec(),
            rest@ == Map::new(|j: u8| (j as int) >= k && orig.contains_key(j), |j: u8| orig[j]),
            out@ == Map::new(|j: u8| (j as int) < k && orig.contains_key(j), |j: u8| orig[j].into_spec()),
        decreases 256 - k,
    {
        let key = k as u8;
        if let Some(value) = rest.remove(&key) {
            out.insert(key, value.into());
        }
        assert(rest@ =~= Map::new(|j: u8| (j as int) >= k + 1 && orig.contains_key(j), |j: u8| orig[j]));
        assert(out@ =~= Map::new(|j: u8| (j as int) < k + 1 && orig.contains_key(j), |j: u8| orig[j].into_spec()));
        k = k + 1;
    }
    assert(out@ =~= orig.map_values(|v: V| v.into_spec()));
    out
}

/// Summary of a blindtest question.
#[derive(Clone, Debug)]
pub struct BlindTestQuestionSummary {
    /// Identifier of the question.
    pub id: u32,
    /// Where playback starts, in milliseconds.
    pub starts_at_ms: usize,
    /// Time allowed to answer, in milliseconds.
    pub guess_duration_ms: usize,
    /// Media URL.
    pub url: String,
    /// Answers by identifier.
    pub answers: HashMap<u8, BlindTestAnswerSummary>,
}

/// Summary of a multiple-choice question.
#[derive(Clone, Debug)]
pub struct MultipleChoiceQuestionSummary {
    /// Identifier of the question.
    pub id: u32,
    /// Time allowed to answer, in milliseconds.
    pub guess_duration_ms: usize,
    /// Prompt shown to the players.
    pub prompt: String,
    /// Optional supporting media URL.
    pub url: Option<String>,
    /// Choices by identifier.
    pub answers: HashMap<u8, MultipleChoiceAnswerSummary>,
    /// Hints by identifier.
    pub hints: HashMap<u8, HintSummary>,
}

/// Summary of an open question.
#[derive(Clone, Debug)]
pub struct OpenQuestionSummary {
    /// Identifier of the question.
    pub id: u32,
    /// Time allowed to answer, in milliseconds.
    pub guess_duration_ms: usize,
    /// Prompt shown to the players.
    pub prompt: String,
    /// Optional supporting media URL.
    pub url: Option<String>,
    /// Accepted answers by identifier.
    pub answers: HashMap<u8, OpenAnswerSummary>,
    /// Hints by identifier.
    pub hints: HashMap<u8, HintSummary>,
}

/// Summary of a question of any kind.
#[derive(Clone, Debug)]
pub enum QuestionSummary {
    /// Blindtest question.
    BlindTest(BlindTestQuestionSummary),
    /// Multiple-choice question.
    MultipleChoice(MultipleChoiceQuestionSummary),
    /// Open question.
    Open(OpenQuestionSummary),
}

/// Summary of a blindtest answer, as a function.
pub open spec fn blindtest_answer_summary(a: BlindTestAnswer) -> BlindTestAnswerSummary {
    BlindTestAnswerSummary { key: a.key, value: a.value, points: a.points, is_bonus: a.is_bonus }
}

/// Summary of a multiple-choice answer, as a function.
pub open spec fn multiple_choice_answer_summary(a: MultipleChoiceAnswer) -> MultipleChoiceAnswerSummary {
    MultipleChoiceAnswerSummary { text: a.text, is_correct: a.is_correct }
}

/// Summary of an open answer, as a function.
pub open spec fn open_answer_summary(a: OpenAnswer) -> OpenAnswerSummary {
    OpenAnswerSummary { text: a.text }
}

/// Summary of a hint, as a function.
pub open spec fn hint_summary(h: Hint) -> HintSummary {
    HintSummary { text: h.0 }
}

/// `s` summarizes question `q` under identifier `id`: same kind, same fields, every answer
/// and hint summarized under its identifier.
pub open spec fn summarizes_question(id: u32, q: QuestionView, s: QuestionSummary) -> bool {
    match (q, s) {
        (QuestionView::BlindTest { starts_at_ms, guess_duration_ms, url, answers }, QuestionSummary::BlindTest(x)) => {
            &&& x.id == id
            &&& x.starts_at_ms == starts_at_ms
            &&& x.guess_duration_ms == guess_duration_ms
            &&& x.url == url
            &&& x.answers@ == answers.map_values(|a: BlindTestAnswer| blindtest_answer_summary(a))
        },
        (QuestionView::MultipleChoice { guess_duration_ms, prompt, url, answers, hints }, QuestionSummary::MultipleChoice(x)) => {
            &&& x.id == id
            &&& x.guess_duration_ms == guess_duration_ms
            &&& x.prompt == prompt
            &&& x.url == url
            &&& x.answers@ == answers.map_values(|a: MultipleChoiceAnswer| multiple_choice_answer_summary(a))
            &&& x.hints@ == hints.map_values(|h: Hint| hint_summary(h))
        },
        (QuestionView::Open { guess_duration_ms, prompt, url, answers, hints }, QuestionSummary::Open(x)) => {
            &&& x.id == id
            &&& x.guess_duration_ms == guess_duration_ms
            &&& x.prompt == prompt
            &&& x.url == url
            &&& x.answers@ == answers.map_values(|a: OpenAnswer| open_answer_summary(a))
            &&& x.hints@ == hints.map_values(|h: Hint| hint_summary(h))
        },
        _ => false,
    }
}

/// The summary holds maps built at run time, which no spec value can construct; the
/// conversion is specified by `summarizes_question` instead.
impl FromSpecImpl<(u32, BlindTestQuestion)> for BlindTestQuestionSummary {
    open spec fn obeys_from_spec() -> bool {
        false
    }

    open spec fn from_spec(v: (u32, BlindTestQuestion)) -> BlindTestQuestionSummary {
        arbitrary()
    }
}

impl From<(u32, BlindTestQuestion)> for BlindTestQuestionSummary {
    fn from(value: (u32, BlindTestQuestion)) -> (s: Self)
        ensures
            summarizes_question(value.0, Question::BlindTest(value.1)@, QuestionSummary::BlindTest(s)),
    {
        let (id, question) = value;
        let answers = map_values(question.answers);
        assert(answers@ =~= question.answers@.map_values(|a: BlindTestAnswer| blindtest_answer_summary(a)));
        Self {
            id,
            starts_at_ms: question.starts_at_ms,
            guess_duration_ms: question.guess_duration_ms,
            url: question.url,
            answers,
        }
    }
}

/// The summary holds maps built at run time, which no spec value can construct; the
/// conversion is specified by `summarizes_question` instead.
impl FromSpecImpl<(u32, MultipleChoiceQuestion)> for MultipleChoiceQuestionSummary {
    open spec fn obeys_from_spec() -> bool {
        false
    }

    open spec fn from_spec(v: (u32, MultipleChoiceQuestion)) -> MultipleChoiceQuestionSummary {
        arbitrary()
    }
}

impl From<(u32, MultipleChoiceQuestion)> for MultipleChoiceQuestionSummary {
    fn from(value: (u32, MultipleChoiceQuestion)) -> (s: Self)
        ensures
            summarizes_question(value.0, Question::MultipleChoice(value.1)@, QuestionSummary::MultipleChoice(s)),
    {
        let (id, question) = value;
        let answers = map_values(question.answers);
        let hints = map_values(question.hints);
        assert(answers@ =~= question.answers@.map_values(|a: MultipleChoiceAnswer| multiple_choice_answer_summary(a)));
        assert(hints@ =~= question.hints@.map_values(|h: Hint| hint_summary(h)));
        Self {
            id,
            guess_duration_ms: question.guess_duration_ms,
            prompt: question.prompt,
            url: question.url,
            answers,
            hints,
        }
    }
}

/// The summary holds maps built at run time, which no spec value can construct; the
/// conversion is specified by `summarizes_question` instead.
impl FromSpecImpl<(u32, OpenQuestion)> for OpenQuestionSummary {
    open spec fn obeys_from_spec() -> bool {
        false
    }

    open spec fn from_spec(v: (u32, OpenQuestion)) -> OpenQuestionSummary {
        arbitrary()
    }
}

impl From<(u32, OpenQuestion)> for OpenQuestionSummary {
    fn from(value: (u32, OpenQuestion)) -> (s: Self)
        ensures
            summarizes_question(value.0, Question::Open(value.1)@, QuestionSummary::Open(s)),
    {
        let (id, question) = value;
        let answers = map_values(question.answers);
        let hints = map_values(question.hints);
        assert(answers@ =~= question.answers@.map_values(|a: OpenAnswer| open_answer_summary(a)));
        assert(hints@ =~= question.hints@.map_values(|h: Hint| hint_summary(h)));
        Self {
            id,
            guess_duration_ms: question.guess_duration_ms,
            prompt: question.prompt,
            url: question.url,
            answers,
            hints,
        }
    }
}

/// The summary holds maps built at run time, which no spec value can construct; the
/// conversion is specified by `summarizes_question` instead.
impl FromSpecImpl<(u32, Question)> for QuestionSummary {
    open spec fn obeys_from_spec() -> bool {
        false
    }

    open spec fn from_spec(v: (u32, Question)) -> QuestionSummary {
        arbitrary()
    }
}

impl From<(u32, Question)> for QuestionSummary {
    fn from(value: (u32, Question)) -> (s: Self)
        ensures
            summarizes_question(value.0, value.1@, s),
    {
        let (id, question) = value;
        match question {
            Question::BlindTest(q) => QuestionSummary::BlindTest(BlindTestQuestionSummary::from((id, q))),
            Question::MultipleChoice(q) => QuestionSummary::MultipleChoice(MultipleChoiceQuestionSummary::from((id, q))),
            Question::Open(q) => QuestionSummary::Open(OpenQuestionSummary::from((id, q))),
        }
    }
}

/// Public view of a team.
#[derive(Clone, Debug)]
pub struct TeamSummary {
    /// Identifier of the team.
    pub id: u128,
    /// Buzzer paired with the team, if any.
    pub buzzer_id: Option<String>,
    /// Display name.
    pub name: String,
    /// Current score.
    pub score: i32,
    /// Color of the team.
    pub color: TeamColor,
}

/// Summary of team `t` under identifier `id`.
pub open spec fn team_summary(id: u128, t: Team) -> TeamSummary {
    TeamSummary { id, buzzer_id: t.buzzer_id, name: t.name, score: t.score, color: t.color }
}

impl FromSpecImpl<(u128, Team)> for TeamSummary {
    open spec fn obeys_from_spec() -> bool {
        true
    }

    open spec fn from_spec(v: (u128, Team)) -> TeamSummary {
        team_summary(v.0, v.1)
    }
}

impl From<(u128, Team)> for TeamSummary {
    fn from(value: (u128, Team)) -> Self {
        let (id, team) = value;
        TeamSummary { id, buzzer_id: team.buzzer_id, name: team.name, score: team.score, color: team.color }
    }
}

/// Identifier and name of a team, without score or color.
#[derive(Clone, Debug)]
pub struct TeamBriefSummary {
    /// Identifier of the team.
    pub id: u128,
    /// Display name.
    pub name: String,
}

/// The instant lies in the years -9999 to 9999, the range of `time`'s dates (its whole
/// seconds from the start of -9999 to the end of 9999), with less than a second of nanoseconds.
pub open spec fn formattable(t: Timestamp) -> bool {
    -377705116800 <= t.secs < 253402300800 && t.nanos < 1_000_000_000
}

/// Text of an instant as RFC 3339, or `invalid-timestamp` when it cannot be formatted (the
/// years before 0). Instants outside the formattable range have no date at all; they read as
/// `invalid-timestamp` too.
pub open spec fn timestamp_text(t: Timestamp) -> Seq<char> {
    if formattable(t) {
        match rfc3339_of(instant_nanos(t) as i128) {
            Some(text) => text,
            None => "invalid-timestamp"@,
        }
    } else {
        "invalid-timestamp"@
    }
}

/// Format an instant as an RFC 3339 timestamp. The instant must have a date (see
/// [`formattable`]).
pub fn format_system_time(time: Timestamp) -> (s: String)
    requires
        formattable(time),
    ensures
        s@ == timestamp_text(time),
{
    let unix_nanos: i128 = time.secs * 1_000_000_000 + time.nanos as i128;
    match rfc3339_text(unix_nanos) {
        Some(text) => text,
        None => String::from_str("invalid-timestamp"),
    }
}

/// Text of a stored instant for a summary: as [`format_system_time`] gives it, and
/// `invalid-timestamp` for an instant without a date, which a summary cannot refuse.
pub(crate) fn timestamp_string(time: Timestamp) -> (s: String)
    ensures
        s@ == timestamp_text(time),
{
    if -377705116800 <= time.secs && time.secs < 253402300800 && time.nanos < 1_000_000_000 {
        format_system_time(time)
    } else {
        String::from_str("invalid-timestamp")
    }
}

/// Summaries of the teams of a map, in map order.
pub open spec fn team_summaries_of(entries: Seq<(u128, Team)>) -> Seq<TeamSummary> {
    entries.map_values(|e: (u128, Team)| team_summary(e.0, e.1))
}

/// Summaries of the teams of a map, in map order.
pub fn team_summaries(teams: &IndexMap<u128, Team>) -> (v: Vec<TeamSummary>)
    ensures
        v@ == team_summaries_of(team_entries(*teams)),
{
    let n = team_map_len(teams);
    let mut out: Vec<TeamSummary> = Vec::new();
    let mut i: usize = 0;
    while i < n
        invariant
            n == team_entries(*teams).len(),
            i <= n,
            out@ == team_summaries_of(team_entries(*teams).take(i as int)),
        decreases n - i,
    {
        let (id, team) = team_map_get_index(teams, i).unwrap();
        out.push(TeamSummary::from((*id, team.duplicate())));
        assert(team_summaries_of(team_entries(*teams).take(i + 1)) =~= team_summaries_of(team_entries(*teams).take(i as int)).push(team_summary(*id, *team)));
        i = i + 1;
    }
    assert(team_entries(*teams).take(n as int) =~= team_entries(*teams));
    out
}

/// Summary of a questions sequence with its questions in play order.
#[derive(Debug)]
pub struct QuestionsSequenceSummary {
    /// Identifier of the sequence.
    pub id: u128,
    /// Display name.
    pub name: String,
    /// Questions in play order.
    pub questions: Vec<QuestionSummary>,
}

/// `s` summarizes `sequence` played in `order`.
pub open spec fn summarizes_sequence(sequence: QuestionsSequence, order: Seq<u32>, s: QuestionsSequenceSummary) -> bool {
    &&& s.id == sequence.id
    &&& s.name == sequence.name
    &&& s.questions.len() == order.len()
    &&& forall|i: int| 0 <= i < order.len() ==> summarizes_question(
        order[i],
        value_of(question_entries(sequence.questions), order[i])@,
        #[trigger] s.questions@[i],
    )
}

/// The order lists exactly the question identifiers of the sequence.
pub open spec fn order_matches(sequence: QuestionsSequence, order: Seq<u32>) -> bool {
    crate::collections::key_set(question_entries(sequence.questions)) == order.to_set()
}

/// The summary holds maps built at run time, which no spec value can construct; the
/// conversion is specified in the `ensures` of `try_from` instead.
impl TryFromSpecImpl<(QuestionsSequence, Vec<u32>)> for QuestionsSequenceSummary {
    open spec fn obeys_try_from_spec() -> bool {
        false
    }

    open spec fn try_from_spec(v: (QuestionsSequence, Vec<u32>)) -> Result<QuestionsSequenceSummary, QuestionOrderError> {
        arbitrary()
    }
}

impl TryFrom<(QuestionsSequence, Vec<u32>)> for QuestionsSequenceSummary {
    type Error = QuestionOrderError;

    /// Summary of the sequence with its questions in the given order; fails when the order
    /// does not list exactly the question identifiers of the sequence.
    fn try_from(value: (QuestionsSequence, Vec<u32>)) -> (r: Result<Self, Self::Error>)
        ensures
            order_matches(value.0, value.1@) ==> (r matches Ok(s) && summarizes_sequence(value.0, value.1@, s)),
            !order_matches(value.0, value.1@) ==> r is Err,
    {
        let (sequence, order) = value;
        let questions = ordered_question_summaries(sequence.questions, order)?;
        Ok(QuestionsSequenceSummary { id: sequence.id, name: sequence.name, questions })
    }
}

/// Summary of a game returned once it is created or loaded.
#[derive(Debug)]
pub struct GameSummary {
    /// Identifier of the game, hyphenated.
    pub id: String,
    /// Display name.
    pub name: String,
    /// Creation time, RFC 3339.
    pub created_at: String,
    /// Last update time, RFC 3339.
    pub updated_at: String,
    /// Teams in display order.
    pub teams: Vec<TeamSummary>,
    /// Questions sequence with its questions in play order.
    pub questions_sequence: QuestionsSequenceSummary,
    /// Position of the current question, if any.
    pub current_question_index: Option<usize>,
}

/// The summary holds vectors built at run time, which no spec value can construct; the
/// conversion is specified in the `ensures` of `try_from` instead.
impl TryFromSpecImpl<GameSession> for GameSummary {
    open spec fn obeys_try_from_spec() -> bool {
        false
    }

    open spec fn try_from_spec(v: GameSession) -> Result<GameSummary, QuestionOrderError> {
        arbitrary()
    }
}

impl TryFrom<GameSession> for GameSummary {
    type Error = QuestionOrderError;

    /// Summary of the game; fails when its question order does not list exactly the question
    /// identifiers of its sequence.
    fn try_from(session: GameSession) -> (r: Result<Self, Self::Error>)
        ensures
            order_matches(session.questions_sequence, session.question_order@) ==> (r matches Ok(s) && {
                &&& s.id@ == hyphenated_uuid(session.id)
                &&& s.name == session.name
                &&& s.created_at@ == timestamp_text(session.created_at)
                &&& s.updated_at@ == timestamp_text(session.updated_at)
                &&& s.teams@ == team_summaries_of(team_entries(session.teams))
                &&& summarizes_sequence(session.questions_sequence, session.question_order@, s.questions_sequence)
                &&& s.current_question_index == session.current_question_index
            }),
            !order_matches(session.questions_sequence, session.question_order@) ==> r is Err,
    {
        let teams = team_summaries(&session.teams);
        let questions_sequence = QuestionsSequenceSummary::try_from((session.questions_sequence, session.question_order))?;
        Ok(GameSummary {
            id: uuid_text(session.id),
            name: session.name,
            created_at: timestamp_string(session.created_at),
            updated_at: timestamp_string(session.updated_at),
            teams,
            questions_sequence,
            current_question_index: session.current_question_index,
        })
    }
}

} // verus!
