//! Records as stored by the storage backends, and the checks made on them when they are
//! loaded back.

use vstd::prelude::*;
use vstd::std_specs::convert::{FromSpecImpl, TryFromSpecImpl};
use vstd::string::*;

use crate::error::{joined, joined3, refused, Refusal, ServiceError};
use crate::game::Timestamp;
use crate::ids::{hyphenated_uuid, uuid_text};
use crate::requests::{GameListItem, LegacyPlaylistListItem, QuestionsSequenceListItem};
use crate::summary::{timestamp_string, timestamp_text, TeamBriefSummary};
use crate::text::{decimal_digits, decimal_text};

verus! {

/// Stored questions sequence.
#[derive(Clone, Debug)]
pub struct QuestionsSequenceEntity {
    /// Identifier of the sequence.
    pub id: u128,
    /// Display name.
    pub name: String,
    /// Questions in import order; their identifiers are their positions.
    pub questions: Vec<QuestionEntity>,
}

/// Stored question.
#[derive(Clone, Debug)]
pub enum QuestionEntity {
    /// Music blindtest question.
    BlindTest(BlindTestQuestionEntity),
    /// Multiple-choice question.
    MultipleChoice(MultipleChoiceQuestionEntity),
    /// Open question.
    Open(OpenQuestionEntity),
}

/// Stored blindtest question.
#[derive(Clone, Debug)]
pub struct BlindTestQuestionEntity {
    /// Where the preview starts, in milliseconds.
    pub starts_at_ms: usize,
    /// Time allowed to answer, in milliseconds.
    pub guess_duration_ms: usize,
    /// Media to play.
    pub url: String,
    /// Expected fields, in import order.
    pub answers: Vec<BlindTestAnswerEntity>,
}

/// Stored multiple-choice question.
#[derive(Clone, Debug)]
pub struct MultipleChoiceQuestionEntity {
    /// Time allowed to answer, in milliseconds.
    pub guess_duration_ms: usize,
    /// Text of the question.
    pub prompt: String,
    /// Supporting resource, if any.
    pub url: Option<String>,
    /// Choices, in import order.
    pub answers: Vec<MultipleChoiceAnswerEntity>,
    /// Hints, in import order.
    pub hints: Vec<HintEntity>,
}

/// Stored open question.
#[derive(Clone, Debug)]
pub struct OpenQuestionEntity {
    /// Time allowed to answer, in milliseconds.
    pub guess_duration_ms: usize,
    /// Text of the question.
    pub prompt: String,
    /// Supporting resource, if any.
    pub url: Option<String>,
    /// Accepted answers, in import order.
    pub answers: Vec<OpenAnswerEntity>,
    /// Hints, in import order.
    pub hints: Vec<HintEntity>,
}

/// Stored blindtest field.
#[derive(Clone, Debug)]
pub struct BlindTestAnswerEntity {
    /// Name of the field.
    pub key: String,
    /// Expected value.
    pub value: String,
    /// Points awarded.
    pub points: u8,
    /// Whether it is a bonus.
    pub is_bonus: bool,
}

/// Stored choice.
#[derive(Clone, Debug)]
pub struct MultipleChoiceAnswerEntity {
    /// Text of the choice.
    pub text: String,
    /// Whether it is correct.
    pub is_correct: bool,
}

/// Stored accepted answer.
#[derive(Clone, Debug)]
pub struct OpenAnswerEntity {
    /// Accepted text.
    pub text: String,
}

/// Stored hint.
#[derive(Clone, Debug)]
pub struct HintEntity {
    /// Text of the hint.
    pub text: String,
}

/// Stored team color, compared by the bits of its components.
#[derive(Clone, Copy, Debug, PartialEq, Eq, Structural)]
pub struct TeamColorEntity {
    /// Bits of the hue.
    pub h: u32,
    /// Bits of the saturation.
    pub s: u32,
    /// Bits of the value.
    pub v: u32,
}

/// Stored team (buzzers are not stored).
#[derive(Clone, Debug)]
pub struct TeamEntity {
    /// Identifier of the team.
    pub id: u128,
    /// Display name.
    pub name: String,
    /// Score.
    pub score: i32,
    /// Color.
    pub color: TeamColorEntity,
    /// Last update time.
    pub updated_at: Timestamp,
}

/// Identifier and name of a stored team.
#[derive(Clone, Debug)]
pub struct TeamSummaryEntity {
    /// Identifier of the team.
    pub id: u128,
    /// Display name.
    pub name: String,
}

/// Stored game.
#[derive(Clone, Debug)]
pub struct GameEntity {
    /// Identifier of the game.
    pub id: u128,
    /// Display name.
    pub name: String,
    /// Creation time.
    pub created_at: Timestamp,
    /// Last update time.
    pub updated_at: Timestamp,
    /// Teams, in display order.
    pub teams: Vec<TeamEntity>,
    /// Questions sequence played.
    pub questions_sequence_id: u128,
    /// Question identifiers in play order.
    pub question_order: Vec<u32>,
    /// Position of the current question in the play order, if any.
    pub current_question_index: Option<usize>,
    /// Whether the current question was revealed.
    pub current_question_revealed: bool,
}

/// Stored game as listed: without scores or progress.
#[derive(Clone, Debug)]
pub struct GameListItemEntity {
    /// Identifier of the game.
    pub id: u128,
    /// Display name.
    pub name: String,
    /// Creation time.
    pub created_at: Timestamp,
    /// Last update time.
    pub updated_at: Timestamp,
    /// Teams, in display order.
    pub teams: Vec<TeamSummaryEntity>,
    /// Questions sequence played.
    pub questions_sequence_id: u128,
}

/// Identifier and name of a stored team.
pub open spec fn team_summary_entity(t: TeamEntity) -> TeamSummaryEntity {
    TeamSummaryEntity { id: t.id, name: t.name }
}

impl FromSpecImpl<TeamEntity> for TeamSummaryEntity {
    open spec fn obeys_from_spec() -> bool {
        true
    }

    open spec fn from_spec(v: TeamEntity) -> TeamSummaryEntity {
        team_summary_entity(v)
    }
}

impl From<TeamEntity> for TeamSummaryEntity {
    fn from(value: TeamEntity) -> Self {
        TeamSummaryEntity { id: value.id, name: value.name }
    }
}

/// The list item holds a `Vec` built at run time, which no spec value can construct; the
/// conversion states its result in its own `ensures`.
impl FromSpecImpl<GameEntity> for GameListItemEntity {
    open spec fn obeys_from_spec() -> bool {
        false
    }

    open spec fn from_spec(v: GameEntity) -> GameListItemEntity {
        arbitrary()
    }
}

impl From<GameEntity> for GameListItemEntity {
    fn from(entity: GameEntity) -> (r: Self)
        ensures
            r.id == entity.id,
            r.name == entity.name,
            r.created_at == entity.created_at,
            r.updated_at == entity.updated_at,
            r.teams@ == entity.teams@.map_values(|t: TeamEntity| team_summary_entity(t)),
            r.questions_sequence_id == entity.questions_sequence_id,
    {
        let GameEntity { id, name, created_at, updated_at, teams: source, questions_sequence_id, .. } = entity;
        let n = source.len();
        let mut teams: Vec<TeamSummaryEntity> = Vec::new();
        let mut i: usize = 0;
        while i < n
            invariant
                n == source@.len(),
                i <= n,
                teams@ == source@.take(i as int).map_values(|t: TeamEntity| team_summary_entity(t)),
            decreases n - i,
        {
            let t = &source[i];
            teams.push(TeamSummaryEntity { id: t.id, name: t.name.clone() });
            assert(source@.take(i + 1).map_values(|t: TeamEntity| team_summary_entity(t)) =~= source@.take(i as int).map_values(
                |t: TeamEntity| team_summary_entity(t),
            ).push(team_summary_entity(source@[i as int])));
            i = i + 1;
        }
        assert(source@.take(n as int) =~= source@);
        GameListItemEntity { id, name, created_at, updated_at, teams, questions_sequence_id }
    }
}

impl FromSpecImpl<TeamSummaryEntity> for TeamBriefSummary {
    open spec fn obeys_from_spec() -> bool {
        true
    }

    open spec fn from_spec(v: TeamSummaryEntity) -> TeamBriefSummary {
        TeamBriefSummary { id: v.id, name: v.name }
    }
}

impl From<TeamSummaryEntity> for TeamBriefSummary {
    fn from(value: TeamSummaryEntity) -> Self {
        TeamBriefSummary { id: value.id, name: value.name }
    }
}

/// Text naming a game in messages: "game `<id>`".
pub open spec fn game_label(id: u128) -> Seq<char> {
    "game `"@ + hyphenated_uuid(id) + "`"@
}

/// First question identifier of `order` that is not below `bound`, if any.
pub open spec fn first_unknown(order: Seq<u32>, bound: u32) -> Option<u32>
    decreases order.len(),
{
    if order.len() == 0 {
        None
    } else if order[0] >= bound {
        Some(order[0])
    } else {
        first_unknown(order.drop_first(), bound)
    }
}

/// Why a stored game cannot be played with its stored questions sequence, if it cannot: it
/// must have teams, the sequence questions, and its play order exactly one entry per question,
/// each a valid question identifier.
pub open spec fn persisted_game_refusal(game: GameEntity, sequence: QuestionsSequenceEntity) -> Option<Refusal> {
    let n = sequence.questions@.len();
    let order = game.question_order@;
    if game.teams@.len() == 0 {
        Some(Refusal::InvalidState(game_label(game.id) + " has no registered teams"@))
    } else if n == 0 {
        Some(Refusal::InvalidState(game_label(game.id) + " has an empty questions sequence"@))
    } else if order.len() != n {
        Some(
            Refusal::InvalidState(
                game_label(game.id) + " question order is inconsistent (expected "@ + decimal_digits(n) + " entries, got "@
                    + decimal_digits(order.len()) + ")"@,
            ),
        )
    } else {
        match first_unknown(order, n as u32) {
            Some(q) => Some(
                Refusal::InvalidState(
                    game_label(game.id) + " question order references unknown question `"@ + decimal_digits(q as nat) + "`"@,
                ),
            ),
            None => None,
        }
    }
}

/// Check that a stored game can be played with its stored questions sequence.
pub fn validate_persisted_game(game: &GameEntity, questions_sequence: &QuestionsSequenceEntity) -> (r: Result<(), ServiceError>)
    ensures
        match persisted_game_refusal(*game, *questions_sequence) {
            Some(f) => (r matches Err(e) && refused(e, f)),
            None => r is Ok,
        },
{
    let label = joined3("game `", uuid_text(game.id).as_str(), "`");
    if game.teams.len() == 0 {
        return Err(ServiceError::InvalidState(joined(label.as_str(), " has no registered teams")));
    }
    let n = questions_sequence.questions.len();
    if n == 0 {
        return Err(ServiceError::InvalidState(joined(label.as_str(), " has an empty questions sequence")));
    }
    let order = &game.question_order;
    if order.len() != n {
        let head = joined3(label.as_str(), " question order is inconsistent (expected ", decimal_text(n).as_str());
        let middle = joined3(head.as_str(), " entries, got ", decimal_text(order.len()).as_str());
        return Err(ServiceError::InvalidState(joined(middle.as_str(), ")")));
    }
    let bound = n as u32;
    assert(bound == (questions_sequence.questions@.len() as u32));
    let mut i: usize = 0;
    assert(order@.skip(0) =~= order@);
    while i < order.len()
        invariant
            i <= order@.len(),
            first_unknown(order@, bound) == first_unknown(order@.skip(i as int), bound),
            game.teams@.len() > 0,
            n == questions_sequence.questions@.len(),
            n > 0,
            order@.len() == n,
            order@ == game.question_order@,
            bound == (questions_sequence.questions@.len() as u32),
            label@ == game_label(game.id),
        decreases order@.len() - i,
    {
        let question_id = order[i];
        assert(order@.skip(i as int)[0] == question_id);
        if question_id >= bound {
            let head = joined(label.as_str(), " question order references unknown question `");
            return Err(ServiceError::InvalidState(joined3(head.as_str(), decimal_text(question_id as usize).as_str(), "`")));
        }
        assert(order@.skip(i as int).drop_first() =~= order@.skip(i + 1));
        i = i + 1;
    }
    assert(order@.skip(order@.len() as int).len() == 0);
    Ok(())
}

/// Whether a stored game stopped in the middle of its sequence: it has a current question,
/// and is neither on the last question revealed nor on the first question not yet revealed.
pub open spec fn in_progress(current_question_index: Option<usize>, revealed: bool, order_len: nat) -> bool {
    match current_question_index {
        Some(i) => !(revealed && i >= order_len - 1) && !(!revealed && i == 0),
        None => false,
    }
}

/// Whether a stored game stopped in the middle of its sequence (see [`in_progress`]).
pub fn sequence_in_progress(current_question_index: Option<usize>, revealed: bool, order_len: usize) -> (b: bool)
    requires
        order_len >= 1,
    ensures
        b == in_progress(current_question_index, revealed, order_len as nat),
        b == (current_question_index matches Some(i) && ((revealed && i + 1 < order_len) || (!revealed && i > 0))),
{
    match current_question_index {
        Some(i) => {
            if revealed && i >= order_len - 1 {
                false
            } else if !revealed && i == 0 {
                false
            } else {
                true
            }
        },
        None => false,
    }
}

/// Why a stored game cannot be loaded, if it cannot: its play order must not be empty, and
/// its questions cannot be shuffled once it has started.
pub open spec fn load_refusal(game: GameEntity, shuffle_questions: bool) -> Option<Refusal> {
    if game.question_order@.len() == 0 {
        Some(Refusal::InvalidState(game_label(game.id) + " has an empty question order"@))
    } else if shuffle_questions && in_progress(game.current_question_index, game.current_question_revealed, game.question_order@.len()) {
        Some(Refusal::InvalidInput("shuffle parameter cannot be used: game is already in progress"@))
    } else {
        None
    }
}

/// Check a stored game before loading it.
pub fn check_loadable_game(game: &GameEntity, shuffle_questions: bool) -> (r: Result<(), ServiceError>)
    ensures
        match load_refusal(*game, shuffle_questions) {
            Some(f) => (r matches Err(e) && refused(e, f)),
            None => r is Ok,
        },
{
    if game.question_order.len() == 0 {
        let label = joined3("game `", uuid_text(game.id).as_str(), "`");
        return Err(ServiceError::InvalidState(joined(label.as_str(), " has an empty question order")));
    }
    if shuffle_questions && sequence_in_progress(game.current_question_index, game.current_question_revealed, game.question_order.len()) {
        return Err(ServiceError::InvalidInput(String::from_str("shuffle parameter cannot be used: game is already in progress")));
    }
    Ok(())
}

/// Whether a stored sequence can be shown as a playlist: it has questions, all blindtests.
pub open spec fn is_legacy_playlist(questions: Seq<QuestionEntity>) -> bool {
    questions.len() > 0 && forall|i: int| 0 <= i < questions.len() ==> (#[trigger] questions[i]) is BlindTest
}

/// Whether a stored sequence can be shown as a playlist (see [`is_legacy_playlist`]).
pub fn is_legacy_playlist_sequence(sequence: &QuestionsSequenceEntity) -> (b: bool)
    ensures
        b == is_legacy_playlist(sequence.questions@),
{
    if sequence.questions.len() == 0 {
        return false;
    }
    let mut i: usize = 0;
    while i < sequence.questions.len()
        invariant
            i <= sequence.questions@.len(),
            forall|j: int| 0 <= j < i ==> (#[trigger] sequence.questions@[j]) is BlindTest,
        decreases sequence.questions@.len() - i,
    {
        match &sequence.questions[i] {
            QuestionEntity::BlindTest(_) => {},
            _ => return false,
        }
        i = i + 1;
    }
    true
}

/// Listed questions sequences, from the identifiers and names the storage lists, in order.
pub fn questions_sequence_items(entries: Vec<(u128, String)>) -> (v: Vec<QuestionsSequenceListItem>)
    ensures
        v@ == entries@.map_values(|e: (u128, String)| QuestionsSequenceListItem { id: e.0, name: e.1 }),
{
    let ghost all = entries@;
    let n = entries.len();
    let mut rest = entries;
    let mut out: Vec<QuestionsSequenceListItem> = Vec::new();
    let mut i: usize = 0;
    while i < n
        invariant
            n == all.len(),
            i <= n,
            rest@ == all.skip(i as int),
            out@ == all.take(i as int).map_values(|e: (u128, String)| QuestionsSequenceListItem { id: e.0, name: e.1 }),
        decreases n - i,
    {
        let (id, name) = rest.remove(0);
        assert(all.skip(i as int)[0] == (id, name));
        assert(all.skip(i as int).drop_first() =~= all.skip(i + 1));
        out.push(QuestionsSequenceListItem { id, name });
        assert(all.take(i + 1).map_values(|e: (u128, String)| QuestionsSequenceListItem { id: e.0, name: e.1 })
            =~= all.take(i as int).map_values(|e: (u128, String)| QuestionsSequenceListItem { id: e.0, name: e.1 }).push(
            QuestionsSequenceListItem { id: all[i as int].0, name: all[i as int].1 },
        ));
        i = i + 1;
    }
    assert(all.take(n as int) =~= all);
    out
}

/// Hyphenated identifier and name of a listed sequence.
pub open spec fn legacy_item(v: QuestionsSequenceListItem) -> (Seq<char>, Seq<char>) {
    (hyphenated_uuid(v.id), v.name@)
}

/// The playlist item holds a `String` built at run time; the conversion states its result in
/// its own `ensures`.
impl FromSpecImpl<QuestionsSequenceListItem> for LegacyPlaylistListItem {
    open spec fn obeys_from_spec() -> bool {
        false
    }

    open spec fn from_spec(v: QuestionsSequenceListItem) -> LegacyPlaylistListItem {
        arbitrary()
    }
}

impl From<QuestionsSequenceListItem> for LegacyPlaylistListItem {
    fn from(value: QuestionsSequenceListItem) -> (r: Self)
        ensures
            r.id@ == hyphenated_uuid(value.id),
            r.name == value.name,
    {
        LegacyPlaylistListItem { id: uuid_text(value.id), name: value.name }
    }
}

/// Why a stored game cannot be listed with a sequence.
#[derive(Debug, Clone, Copy, PartialEq, Eq, Structural)]
pub enum ConversionError {
    /// The sequence is not the one of the game.
    MismatchedQuestionsSequenceId {
        /// Sequence of the game.
        expected: u128,
        /// Sequence given.
        found: u128,
    },
}

impl ConversionError {
    /// Rendered text of the error.
    pub open spec fn spec_text(&self) -> Seq<char> {
        match self {
            ConversionError::MismatchedQuestionsSequenceId { expected, found } => "questions sequence id mismatch: expected "@
                + hyphenated_uuid(*expected) + ", found "@ + hyphenated_uuid(*found),
        }
    }

    /// Human-readable text of the error.
    pub fn describe(&self) -> (s: String)
        ensures
            s@ == self.spec_text(),
    {
        match self {
            ConversionError::MismatchedQuestionsSequenceId { expected, found } => {
                let head = joined3("questions sequence id mismatch: expected ", uuid_text(*expected).as_str(), ", found ");
                joined(head.as_str(), uuid_text(*found).as_str())
            },
        }
    }
}

/// The service error holds a `String` built at run time; the conversion states its result in
/// its own `ensures`.
impl FromSpecImpl<ConversionError> for ServiceError {
    open spec fn obeys_from_spec() -> bool {
        false
    }

    open spec fn from_spec(v: ConversionError) -> ServiceError {
        arbitrary()
    }
}

impl From<ConversionError> for ServiceError {
    /// An invalid state, with the text of the conversion error.
    fn from(err: ConversionError) -> (e: ServiceError)
        ensures
            e matches ServiceError::InvalidState(m) && m@ == err.spec_text(),
    {
        ServiceError::InvalidState(err.describe())
    }
}

/// The list item holds `String`s and a `Vec` built at run time; the conversion states its
/// result in its own `ensures`.
impl TryFromSpecImpl<(GameListItemEntity, QuestionsSequenceEntity)> for GameListItem {
    open spec fn obeys_try_from_spec() -> bool {
        false
    }

    open spec fn try_from_spec(v: (GameListItemEntity, QuestionsSequenceEntity)) -> Result<GameListItem, ConversionError> {
        arbitrary()
    }
}

impl TryFrom<(GameListItemEntity, QuestionsSequenceEntity)> for GameListItem {
    type Error = ConversionError;

    /// The listed game with its sequence, refused when the sequence is not the game's.
    fn try_from(value: (GameListItemEntity, QuestionsSequenceEntity)) -> (r: Result<Self, Self::Error>)
        ensures
            value.1.id != value.0.questions_sequence_id ==> r == Err::<GameListItem, ConversionError>(
                ConversionError::MismatchedQuestionsSequenceId { expected: value.0.questions_sequence_id, found: value.1.id },
            ),
            value.1.id == value.0.questions_sequence_id ==> (r matches Ok(item) && item.id == value.0.id && item.name == value.0.name
                && item.created_at@ == timestamp_text(value.0.created_at) && item.updated_at@ == timestamp_text(value.0.updated_at)
                && item.teams@ == value.0.teams@.map_values(|t: TeamSummaryEntity| TeamBriefSummary { id: t.id, name: t.name })
                && item.questions_sequence.id == value.1.id && item.questions_sequence.name == value.1.name),
    {
        let (game_list_item, questions_sequence) = value;
        if questions_sequence.id != game_list_item.questions_sequence_id {
            return Err(ConversionError::MismatchedQuestionsSequenceId {
                expected: game_list_item.questions_sequence_id,
                found: questions_sequence.id,
            });
        }
        let GameListItemEntity { id, name, created_at, updated_at, teams: source, .. } = game_list_item;
        let n = source.len();
        let mut teams: Vec<TeamBriefSummary> = Vec::new();
        let mut i: usize = 0;
        while i < n
            invariant
                n == source@.len(),
                i <= n,
                teams@ == source@.take(i as int).map_values(|t: TeamSummaryEntity| TeamBriefSummary { id: t.id, name: t.name }),
            decreases n - i,
        {
            let t = &source[i];
            teams.push(TeamBriefSummary { id: t.id, name: t.name.clone() });
            assert(source@.take(i + 1).map_values(|t: TeamSummaryEntity| TeamBriefSummary { id: t.id, name: t.name })
                =~= source@.take(i as int).map_values(|t: TeamSummaryEntity| TeamBriefSummary { id: t.id, name: t.name }).push(
                TeamBriefSummary { id: source@[i as int].id, name: source@[i as int].name },
            ));
            i = i + 1;
        }
        assert(source@.take(n as int) =~= source@);
        Ok(GameListItem {
            id,
            name,
            created_at: timestamp_string(created_at),
            updated_at: timestamp_string(updated_at),
            teams,
            questions_sequence: QuestionsSequenceListItem { id: questions_sequence.id, name: questions_sequence.name },
        })
    }
}

} // verus!
