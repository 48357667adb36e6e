//! Documents of the CouchDB backend: their identifiers, and how games, teams and questions
//! sequences are split into documents and put back together.

use std::collections::HashMap;

use vstd::prelude::*;
use vstd::std_specs::convert::{FromSpecImpl, TryFromSpecImpl};
use vstd::string::*;

use crate::game::Timestamp;
use crate::ids::{hyphenated_uuid, nibble, uuid_text};
use crate::models::{GameEntity, QuestionEntity, QuestionsSequenceEntity, TeamColorEntity, TeamEntity};

verus! {

broadcast use vstd::std_specs::hash::group_hash_axioms;

/// Prefix of game document identifiers.
pub const GAME_PREFIX: &'static str = "game::";

/// Prefix of questions sequence document identifiers.
pub const QUESTIONS_SEQUENCE_PREFIX: &'static str = "questions_sequence::";

/// Prefix of team document identifiers.
pub const TEAM_PREFIX: &'static str = "team::";

/// Failures of the CouchDB backend that its documents themselves cause.
#[derive(Debug)]
pub enum CouchDaoError {
    /// Some team documents of a game are missing.
    MissingTeams {
        /// Document identifier of the game.
        game_id: String,
        /// Teams without a document.
        team_ids: Vec<u128>,
    },
    /// A document identifier does not hold an identifier.
    InvalidDocId {
        /// The document identifier.
        doc_id: String,
        /// What is wrong with it.
        kind: &'static str,
    },
}

/// Fields of a stored game, besides its teams.
#[derive(Clone, Debug)]
pub struct GameBody {
    /// Display name.
    pub name: String,
    /// Creation time.
    pub created_at: Timestamp,
    /// Last update time of the game itself.
    pub updated_at: Timestamp,
    /// Teams, in display order.
    pub team_ids: Vec<u128>,
    /// Questions sequence played.
    pub questions_sequence_id: u128,
    /// Question identifiers in play order.
    pub question_order: Vec<u32>,
    /// Position of the current question, if any.
    pub current_question_index: Option<usize>,
    /// Whether the current question was revealed.
    pub current_question_revealed: bool,
}

/// Document of a game.
#[derive(Clone, Debug)]
pub struct CouchGameDocument {
    /// Document identifier.
    pub id: String,
    /// Document revision, if known.
    pub rev: Option<String>,
    /// Fields of the game.
    pub game: GameBody,
}

/// Fields of a stored team.
#[derive(Clone, Debug)]
pub struct TeamBody {
    /// Game the team belongs to.
    pub game_id: u128,
    /// Identifier of the team.
    pub team_id: u128,
    /// Display name.
    pub name: String,
    /// Score.
    pub score: i32,
    /// Color.
    pub color: TeamColorEntity,
    /// Last update time.
    pub updated_at: Timestamp,
}

/// Document of a team.
#[derive(Clone, Debug)]
pub struct CouchTeamDocument {
    /// Document identifier.
    pub id: String,
    /// Document revision, if known.
    pub rev: Option<String>,
    /// Fields of the team.
    pub team: TeamBody,
}

/// Fields of a stored questions sequence.
#[derive(Clone, Debug)]
pub struct QuestionsSequenceBody {
    /// Display name.
    pub name: String,
    /// Questions.
    pub questions: Vec<QuestionEntity>,
}

/// Document of a questions sequence.
#[derive(Clone, Debug)]
pub struct CouchQuestionsSequenceDocument {
    /// Document identifier.
    pub id: String,
    /// Document revision, if known.
    pub rev: Option<String>,
    /// Fields of the sequence.
    pub questions_sequence: QuestionsSequenceBody,
}

/// Document identifier of game `id`: `game::<id>`.
pub open spec fn game_doc_text(id: u128) -> Seq<char> {
    "game::"@ + hyphenated_uuid(id)
}

/// Document identifier of questions sequence `id`: `questions_sequence::<id>`.
pub open spec fn questions_sequence_doc_text(id: u128) -> Seq<char> {
    "questions_sequence::"@ + hyphenated_uuid(id)
}

/// Document identifier of team `team_id` of game `game_id`: `team::<game>:<team>`.
pub open spec fn team_doc_text(game_id: u128, team_id: u128) -> Seq<char> {
    "team::"@ + hyphenated_uuid(game_id) + ":"@ + hyphenated_uuid(team_id)
}

/// Document identifier of a game.
pub fn game_doc_id(id: u128) -> (s: String)
    ensures
        s@ == game_doc_text(id),
{
    crate::error::joined(GAME_PREFIX, uuid_text(id).as_str())
}

/// Document identifier of a questions sequence.
pub fn questions_sequence_doc_id(id: u128) -> (s: String)
    ensures
        s@ == questions_sequence_doc_text(id),
{
    crate::error::joined(QUESTIONS_SEQUENCE_PREFIX, uuid_text(id).as_str())
}

/// Document identifier of a team of a game.
pub fn team_doc_id(game_id: u128, team_id: u128) -> (s: String)
    ensures
        s@ == team_doc_text(game_id, team_id),
{
    let head = crate::error::joined3(TEAM_PREFIX, uuid_text(game_id).as_str(), ":");
    crate::error::joined(head.as_str(), uuid_text(team_id).as_str())
}

/// `s` holds `::` at position `i`.
pub open spec fn separator_at(s: Seq<char>, i: int) -> bool {
    0 <= i && i + 1 < s.len() && s[i] == ':' && s[i + 1] == ':'
}

/// `i` is the first position of `::` in `s`.
pub open spec fn first_separator(s: Seq<char>, i: int) -> bool {
    separator_at(s, i) && forall|j: int| 0 <= j < i ==> !separator_at(s, j)
}

/// What follows the first `::` of `s`, if `s` holds one.
pub open spec fn after_separator(s: Seq<char>) -> Option<Seq<char>> {
    if exists|i: int| first_separator(s, i) {
        Some(s.skip((choose|i: int| first_separator(s, i)) + 2))
    } else {
        None
    }
}

/// What follows the first `::` of `s`, if `s` holds one.
pub fn split_after_separator(s: &str) -> (r: Option<&str>)
    ensures
        match after_separator(s@) {
            Some(rest) => r matches Some(t) && t@ == rest,
            None => r is None,
        },
{
    let n = s.unicode_len();
    if n < 2 {
        assert(forall|i: int| !separator_at(s@, i));
        return None;
    }
    let mut i: usize = 0;
    while i + 1 < n
        invariant
            n == s@.len(),
            n >= 2,
            i + 1 <= n,
            forall|j: int| 0 <= j < i ==> !separator_at(s@, j),
        decreases n - i,
    {
        if s.get_char(i) == ':' && s.get_char(i + 1) == ':' {
            assert(first_separator(s@, i as int));
            proof {
                let c = choose|j: int| first_separator(s@, j);
                assert(c == i) by {
                    if c < i {
                        assert(!separator_at(s@, c));
                    } else if c > i {
                        assert(!separator_at(s@, i as int));
                    }
                }
            }
            return Some(s.substring_char(i + 2, n));
        }
        i = i + 1;
    }
    assert(forall|j: int| first_separator(s@, j) ==> j < i);
    None
}

/// What `uuid::Uuid::parse_str` reads from a text, as an integer, if it reads an identifier.
pub uninterp spec fn uuid_parse_of(text: Seq<char>) -> Option<u128>;

/// `uuid::Uuid::parse_str`, as an integer: the result is named by `uuid_parse_of`; the
/// hyphenated form that `Uuid` displays reads back as the same identifier.
#[verifier::external_body]
fn parse_uuid(text: &str) -> (r: Option<u128>)
    ensures
        r == uuid_parse_of(text@),
        forall|id: u128| text@ == hyphenated_uuid(id) ==> r == Some(id),
{
    uuid::Uuid::parse_str(text).ok().map(|u| u.as_u128())
}

/// Identifier held by a document identifier: what follows its first `::`, read as an
/// identifier.
pub open spec fn doc_uuid(doc_id: Seq<char>) -> Result<u128, &'static str> {
    match after_separator(doc_id) {
        None => Err("missing separator"),
        Some(rest) => match uuid_parse_of(rest) {
            Some(id) => Ok(id),
            None => Err("invalid UUID"),
        },
    }
}

/// The hyphenated notation of an identifier holds no `:`.
proof fn lemma_uuid_text_has_no_colon(id: u128)
    ensures
        forall|i: int| 0 <= i < hyphenated_uuid(id).len() ==> hyphenated_uuid(id)[i] != ':',
{
    assert forall|i: int| 0 <= i < hyphenated_uuid(id).len() implies hyphenated_uuid(id)[i] != ':' by {
        if !(i == 8 || i == 13 || i == 18 || i == 23) {
            let d = nibble(id, (i - crate::ids::hyphens_before(i)) as nat);
            assert(d < 16);
        }
    }
}

/// After a prefix ending in its only `::`, followed by a text without `:`, what follows the
/// separator is that text.
proof fn lemma_after_prefix(prefix: Seq<char>, rest: Seq<char>)
    requires
        prefix.len() >= 2,
        prefix[prefix.len() - 2] == ':',
        prefix[prefix.len() - 1] == ':',
        forall|j: int| 0 <= j < prefix.len() - 2 ==> prefix[j] != ':',
        forall|j: int| 0 <= j < rest.len() ==> rest[j] != ':',
    ensures
        after_separator(prefix + rest) == Some(rest),
{
    let s = prefix + rest;
    let k = prefix.len() - 2;
    assert(separator_at(s, k));
    assert forall|j: int| 0 <= j < k implies !separator_at(s, j) by {
        assert(s[j] == prefix[j]);
    }
    assert(first_separator(s, k));
    let c = choose|i: int| first_separator(s, i);
    assert(c == k) by {
        if c < k {
            assert(s[c] == prefix[c]);
        } else if c > k {
            assert(!separator_at(s, k));
        }
    }
    assert(s.skip(k + 2) =~= rest);
}

/// What follows the separator of a game or questions sequence document identifier is the
/// hyphenated identifier.
proof fn lemma_doc_ids_split(id: u128)
    ensures
        after_separator(game_doc_text(id)) == Some(hyphenated_uuid(id)),
        after_separator(questions_sequence_doc_text(id)) == Some(hyphenated_uuid(id)),
{
    reveal_strlit("game::");
    reveal_strlit("questions_sequence::");
    lemma_uuid_text_has_no_colon(id);
    lemma_after_prefix("game::"@, hyphenated_uuid(id));
    lemma_after_prefix("questions_sequence::"@, hyphenated_uuid(id));
}

/// Identifier held by a document identifier (see [`doc_uuid`]). The identifier of a game
/// or questions sequence document reads back as the identifier it was made from.
pub fn extract_uuid(doc_id: &str) -> (r: Result<u128, CouchDaoError>)
    ensures
        match doc_uuid(doc_id@) {
            Ok(id) => r matches Ok(x) && x == id,
            Err(kind) => r matches Err(CouchDaoError::InvalidDocId { doc_id: d, kind: k }) && d@ == doc_id@ && k == kind,
        },
        forall|id: u128| doc_id@ == game_doc_text(id) || doc_id@ == questions_sequence_doc_text(id) ==> r == Ok::<u128, CouchDaoError>(id),
{
    let rest = match split_after_separator(doc_id) {
        Some(rest) => rest,
        None => {
            proof {
                assert forall|id: u128| !(doc_id@ == game_doc_text(id) || doc_id@ == questions_sequence_doc_text(id)) by {
                    lemma_doc_ids_split(id);
                }
            }
            return Err(CouchDaoError::InvalidDocId { doc_id: String::from_str(doc_id), kind: "missing separator" });
        },
    };
    proof {
        assert forall|id: u128| doc_id@ == game_doc_text(id) || doc_id@ == questions_sequence_doc_text(id) implies rest@ == hyphenated_uuid(id) by {
            lemma_doc_ids_split(id);
        }
    }
    match parse_uuid(rest) {
        Some(id) => Ok(id),
        None => Err(CouchDaoError::InvalidDocId { doc_id: String::from_str(doc_id), kind: "invalid UUID" }),
    }
}

/// The stored team a team document holds.
pub open spec fn team_of_doc(doc: CouchTeamDocument) -> TeamEntity {
    TeamEntity {
        id: doc.team.team_id,
        name: doc.team.name,
        score: doc.team.score,
        color: doc.team.color,
        updated_at: doc.team.updated_at,
    }
}

impl FromSpecImpl<CouchTeamDocument> for TeamEntity {
    open spec fn obeys_from_spec() -> bool {
        true
    }

    open spec fn from_spec(v: CouchTeamDocument) -> TeamEntity {
        team_of_doc(v)
    }
}

impl From<CouchTeamDocument> for TeamEntity {
    fn from(doc: CouchTeamDocument) -> (t: Self)
        ensures
            t.id == doc.team.team_id,
            t.name == doc.team.name,
            t.score == doc.team.score,
            t.color == doc.team.color,
            t.updated_at == doc.team.updated_at,
    {
        TeamEntity {
            id: doc.team.team_id,
            name: doc.team.name,
            score: doc.team.score,
            color: doc.team.color,
            updated_at: doc.team.updated_at,
        }
    }
}

/// The document holds a `String` built at run time; the conversion states its result in its
/// own `ensures`.
impl FromSpecImpl<(u128, TeamEntity, Option<String>)> for CouchTeamDocument {
    open spec fn obeys_from_spec() -> bool {
        false
    }

    open spec fn from_spec(v: (u128, TeamEntity, Option<String>)) -> CouchTeamDocument {
        arbitrary()
    }
}

impl From<(u128, TeamEntity, Option<String>)> for CouchTeamDocument {
    /// Document of team `team` of game `game_id`, at revision `rev`.
    fn from(value: (u128, TeamEntity, Option<String>)) -> (d: Self)
        ensures
            d.id@ == team_doc_text(value.0, value.1.id),
            d.rev == value.2,
            d.team == (TeamBody {
                game_id: value.0,
                team_id: value.1.id,
                name: value.1.name,
                score: value.1.score,
                color: value.1.color,
                updated_at: value.1.updated_at,
            }),
    {
        let (game_id, team, rev) = value;
        CouchTeamDocument {
            id: team_doc_id(game_id, team.id),
            rev,
            team: TeamBody {
                game_id,
                team_id: team.id,
                name: team.name,
                score: team.score,
                color: team.color,
                updated_at: team.updated_at,
            },
        }
    }
}

/// The document holds a `String` and a `Vec` built at run time; the conversion states its
/// result in its own `ensures`.
impl FromSpecImpl<(GameEntity, Option<String>)> for CouchGameDocument {
    open spec fn obeys_from_spec() -> bool {
        false
    }

    open spec fn from_spec(v: (GameEntity, Option<String>)) -> CouchGameDocument {
        arbitrary()
    }
}

impl From<(GameEntity, Option<String>)> for CouchGameDocument {
    /// Document of a game at revision `rev`: its fields, with its teams by identifier only.
    fn from(value: (GameEntity, Option<String>)) -> (d: Self)
        ensures
            d.id@ == game_doc_text(value.0.id),
            d.rev == value.1,
            d.game.name == value.0.name,
            d.game.created_at == value.0.created_at,
            d.game.updated_at == value.0.updated_at,
            d.game.team_ids@ == value.0.teams@.map_values(|t: TeamEntity| t.id),
            d.game.questions_sequence_id == value.0.questions_sequence_id,
            d.game.question_order == value.0.question_order,
            d.game.current_question_index == value.0.current_question_index,
            d.game.current_question_revealed == value.0.current_question_revealed,
    {
        let (game, rev) = value;
        let n = game.teams.len();
        let mut team_ids: Vec<u128> = Vec::new();
        let mut i: usize = 0;
        while i < n
            invariant
                n == game.teams@.len(),
                i <= n,
                team_ids@ == game.teams@.take(i as int).map_values(|t: TeamEntity| t.id),
            decreases n - i,
        {
            team_ids.push(game.teams[i].id);
            assert(game.teams@.take(i + 1).map_values(|t: TeamEntity| t.id) =~= game.teams@.take(i as int).map_values(
                |t: TeamEntity| t.id,
            ).push(game.teams@[i as int].id));
            i = i + 1;
        }
        assert(game.teams@.take(n as int) =~= game.teams@);
        CouchGameDocument {
            id: game_doc_id(game.id),
            rev,
            game: GameBody {
                name: game.name,
                created_at: game.created_at,
                updated_at: game.updated_at,
                team_ids,
                questions_sequence_id: game.questions_sequence_id,
                question_order: game.question_order,
                current_question_index: game.current_question_index,
                current_question_revealed: game.current_question_revealed,
            },
        }
    }
}

/// The later of two instants.
pub open spec fn later(a: Timestamp, b: Timestamp) -> Timestamp {
    if b.secs > a.secs || (b.secs == a.secs && b.nanos > a.nanos) {
        b
    } else {
        a
    }
}

/// Latest of `base` and the update times of the team documents.
pub open spec fn latest_update(docs: Seq<CouchTeamDocument>, base: Timestamp) -> Timestamp
    decreases docs.len(),
{
    if docs.len() == 0 {
        base
    } else {
        later(latest_update(docs.drop_last(), base), docs.last().team.updated_at)
    }
}

/// Teams of the documents by identifier; of two documents of one team, the later one counts.
pub open spec fn teams_by_id(docs: Seq<CouchTeamDocument>) -> Map<u128, TeamEntity>
    decreases docs.len(),
{
    if docs.len() == 0 {
        Map::empty()
    } else {
        teams_by_id(docs.drop_last()).insert(docs.last().team.team_id, team_of_doc(docs.last()))
    }
}

/// Identifiers of `ids`, in order, that `teams` lacks.
pub open spec fn missing_ids(ids: Seq<u128>, teams: Map<u128, TeamEntity>) -> Seq<u128>
    decreases ids.len(),
{
    if ids.len() == 0 {
        Seq::empty()
    } else if teams.contains_key(ids.last()) {
        missing_ids(ids.drop_last(), teams)
    } else {
        missing_ids(ids.drop_last(), teams).push(ids.last())
    }
}

/// The first identifier of `ids` that occurs a second time, at that second occurrence.
pub open spec fn first_repeat(ids: Seq<u128>) -> Option<u128>
    decreases ids.len(),
{
    if ids.len() == 0 {
        None
    } else {
        match first_repeat(ids.drop_last()) {
            Some(x) => Some(x),
            None => if ids.drop_last().contains(ids.last()) {
                Some(ids.last())
            } else {
                None
            },
        }
    }
}

/// Rebuild the teams of a game from the documents of its teams, checked against the team
/// identifiers of the game document.
fn teams_from_docs(game_doc_id: &String, team_ids: &Vec<u128>, team_docs: Vec<CouchTeamDocument>) -> (r: Result<Vec<TeamEntity>, CouchDaoError>)
    ensures
        ({
            let teams = teams_by_id(team_docs@);
            let missing = missing_ids(team_ids@, teams);
            if missing.len() > 0 {
                r matches Err(CouchDaoError::MissingTeams { game_id, team_ids: ids }) && game_id@ == game_doc_id@ && ids@ == missing
            } else {
                match first_repeat(team_ids@) {
                    Some(x) => r matches Err(CouchDaoError::MissingTeams { game_id, team_ids: ids }) && game_id@ == game_doc_id@
                        && ids@ == seq![x],
                    None => r matches Ok(v) && v@ == team_ids@.map_values(|k: u128| teams[k]),
                }
            }
        }),
{
    let ghost docs = team_docs@;
    let mut team_map: HashMap<u128, TeamEntity> = HashMap::new();
    let n = team_docs.len();
    let mut i: usize = 0;
    let mut remaining = team_docs;
    let mut taken: Vec<CouchTeamDocument> = Vec::new();
    while i < n
        invariant
            n == docs.len(),
            i <= n,
            team_map@ == teams_by_id(docs.take(i as int)),
            remaining@ == docs.skip(i as int),
        decreases n - i,
    {
        let doc = remaining.remove(0);
        assert(docs.skip(i as int)[0] == doc);
        assert(docs.skip(i as int).drop_first() =~= docs.skip(i + 1));
        assert(docs.take(i + 1).drop_last() =~= docs.take(i as int));
        let entity = TeamEntity::from(doc);
        team_map.insert(entity.id, entity);
        i = i + 1;
    }
    assert(docs.take(n as int) =~= docs);
    let ghost teams = team_map@;
    let m = team_ids.len();
    let mut missing: Vec<u128> = Vec::new();
    let mut j: usize = 0;
    while j < m
        invariant
            m == team_ids@.len(),
            j <= m,
            teams == team_map@,
            missing@ == missing_ids(team_ids@.take(j as int), teams),
        decreases m - j,
    {
        let id = team_ids[j];
        assert(team_ids@.take(j + 1).drop_last() =~= team_ids@.take(j as int));
        if !team_map.contains_key(&id) {
            missing.push(id);
        }
        j = j + 1;
    }
    assert(team_ids@.take(m as int) =~= team_ids@);
    if missing.len() > 0 {
        return Err(CouchDaoError::MissingTeams { game_id: game_doc_id.clone(), team_ids: missing });
    }
    proof {
        lemma_none_missing(team_ids@, teams);
    }
    let mut out: Vec<TeamEntity> = Vec::new();
    let mut k: usize = 0;
    while k < m
        invariant
            m == team_ids@.len(),
            k <= m,
            forall|x: u128| team_ids@.contains(x) ==> teams.contains_key(x),
            missing_ids(team_ids@, teams).len() == 0,
            teams == teams_by_id(team_docs@),
            first_repeat(team_ids@.take(k as int)) is None,
            forall|x: u128| #[trigger] team_map@.contains_key(x) <==> teams.contains_key(x) && !team_ids@.take(k as int).contains(x),
            forall|x: u128| #[trigger] team_map@.contains_key(x) ==> team_map@[x] == teams[x],
            out@ == team_ids@.take(k as int).map_values(|x: u128| teams[x]),
        decreases m - k,
    {
        let id = team_ids[k];
        assert(team_ids@.take(k + 1).drop_last() =~= team_ids@.take(k as int));
        assert(team_ids@.take(k + 1).last() == id);
        assert(team_ids@.contains(id));
        match team_map.remove(&id) {
            Some(entity) => {
                out.push(entity);
                assert(team_ids@.take(k + 1).map_values(|x: u128| teams[x]) =~= team_ids@.take(k as int).map_values(|x: u128| teams[x]).push(teams[id]));
                assert(team_ids@.take(k + 1) =~= team_ids@.take(k as int).push(id));
                assert forall|x: u128| #[trigger] team_map@.contains_key(x) <==> teams.contains_key(x) && !team_ids@.take(k + 1).contains(x) by {
                    broadcast use vstd::seq_lib::group_seq_properties;
                }
            },
            None => {
                proof {
                    assert(team_ids@.take(k as int).contains(id));
                    assert(first_repeat(team_ids@.take(k + 1)) == Some(id));
                    lemma_first_repeat_prefix(team_ids@, k + 1);
                }
                return Err(CouchDaoError::MissingTeams { game_id: game_doc_id.clone(), team_ids: vec![id] });
            },
        }
        k = k + 1;
    }
    assert(team_ids@.take(m as int) =~= team_ids@);
    Ok(out)
}

/// A repeat found in a prefix is the first repeat of the whole sequence.
proof fn lemma_first_repeat_prefix(ids: Seq<u128>, k: int)
    requires
        0 <= k <= ids.len(),
        first_repeat(ids.take(k)) is Some,
    ensures
        first_repeat(ids) == first_repeat(ids.take(k)),
    decreases ids.len() - k,
{
    if k < ids.len() {
        assert(ids.drop_last().take(k) =~= ids.take(k));
        lemma_first_repeat_prefix(ids.drop_last(), k);
    } else {
        assert(ids.take(k) =~= ids);
    }
}

/// With no identifier missing, every identifier has a team.
proof fn lemma_none_missing(ids: Seq<u128>, teams: Map<u128, TeamEntity>)
    requires
        missing_ids(ids, teams).len() == 0,
    ensures
        forall|x: u128| ids.contains(x) ==> teams.contains_key(x),
    decreases ids.len(),
{
    if ids.len() > 0 {
        assert(teams.contains_key(ids.last()));
        lemma_none_missing(ids.drop_last(), teams);
        assert forall|x: u128| ids.contains(x) implies teams.contains_key(x) by {
            let w = choose|w: int| 0 <= w < ids.len() && ids[w] == x;
            if w < ids.len() - 1 {
                assert(ids.drop_last()[w] == x);
                assert(ids.drop_last().contains(x));
            } else {
                assert(x == ids.last());
            }
        }
    }
}

/// Latest of `base` and the update times of the team documents.
fn latest_of(docs: &Vec<CouchTeamDocument>, base: Timestamp) -> (t: Timestamp)
    ensures
        t == latest_update(docs@, base),
{
    let mut latest = base;
    let mut i: usize = 0;
    while i < docs.len()
        invariant
            i <= docs@.len(),
            latest == latest_update(docs@.take(i as int), base),
        decreases docs@.len() - i,
    {
        assert(docs@.take(i + 1).drop_last() =~= docs@.take(i as int));
        let t = docs[i].team.updated_at;
        if t.secs > latest.secs || (t.secs == latest.secs && t.nanos > latest.nanos) {
            latest = t;
        }
        i = i + 1;
    }
    assert(docs@.take(docs@.len() as int) =~= docs@);
    latest
}

impl CouchGameDocument {
    /// Put a game back together from its document and the documents of its teams: the teams
    /// in the order of the game document, and as update time the latest of the game's and
    /// its teams'. Refused, with the identifiers concerned, when team documents are missing.
    pub fn try_into_entity(self, id: u128, team_docs: Vec<CouchTeamDocument>) -> (r: Result<GameEntity, CouchDaoError>)
        ensures
            ({
                let teams = teams_by_id(team_docs@);
                let missing = missing_ids(self.game.team_ids@, teams);
                if missing.len() > 0 {
                    r matches Err(CouchDaoError::MissingTeams { game_id, team_ids }) && game_id@ == self.id@ && team_ids@ == missing
                } else {
                    match first_repeat(self.game.team_ids@) {
                        Some(x) => r matches Err(CouchDaoError::MissingTeams { game_id, team_ids }) && game_id@ == self.id@
                            && team_ids@ == seq![x],
                        None => r matches Ok(g) && g.id == id && g.name == self.game.name && g.created_at == self.game.created_at
                            && g.updated_at == latest_update(team_docs@, self.game.updated_at)
                            && g.teams@ == self.game.team_ids@.map_values(|k: u128| teams[k])
                            && g.questions_sequence_id == self.game.questions_sequence_id
                            && g.question_order == self.game.question_order
                            && g.current_question_index == self.game.current_question_index
                            && g.current_question_revealed == self.game.current_question_revealed,
                    }
                }
            }),
    {
        let updated_at = latest_of(&team_docs, self.game.updated_at);
        let teams = teams_from_docs(&self.id, &self.game.team_ids, team_docs)?;
        Ok(GameEntity {
            id,
            name: self.game.name,
            created_at: self.game.created_at,
            updated_at,
            teams,
            questions_sequence_id: self.game.questions_sequence_id,
            question_order: self.game.question_order,
            current_question_index: self.game.current_question_index,
            current_question_revealed: self.game.current_question_revealed,
        })
    }
}

/// The document holds a `String` built at run time; the conversion states its result in its
/// own `ensures`.
impl FromSpecImpl<(QuestionsSequenceEntity, Option<String>)> for CouchQuestionsSequenceDocument {
    open spec fn obeys_from_spec() -> bool {
        false
    }

    open spec fn from_spec(v: (QuestionsSequenceEntity, Option<String>)) -> CouchQuestionsSequenceDocument {
        arbitrary()
    }
}

impl From<(QuestionsSequenceEntity, Option<String>)> for CouchQuestionsSequenceDocument {
    /// Document of a questions sequence at revision `rev`.
    fn from(value: (QuestionsSequenceEntity, Option<String>)) -> (d: Self)
        ensures
            d.id@ == questions_sequence_doc_text(value.0.id),
            d.rev == value.1,
            d.questions_sequence.name == value.0.name,
            d.questions_sequence.questions == value.0.questions,
    {
        let (sequence, rev) = value;
        CouchQuestionsSequenceDocument {
            id: questions_sequence_doc_id(sequence.id),
            rev,
            questions_sequence: QuestionsSequenceBody { name: sequence.name, questions: sequence.questions },
        }
    }
}

/// The sequence holds a `Vec` built at run time; the conversion states its result in its own
/// `ensures`.
impl TryFromSpecImpl<CouchQuestionsSequenceDocument> for QuestionsSequenceEntity {
    open spec fn obeys_try_from_spec() -> bool {
        false
    }

    open spec fn try_from_spec(v: CouchQuestionsSequenceDocument) -> Result<QuestionsSequenceEntity, CouchDaoError> {
        arbitrary()
    }
}

impl TryFrom<CouchQuestionsSequenceDocument> for QuestionsSequenceEntity {
    type Error = CouchDaoError;

    /// The sequence a document holds, with the identifier read from the document identifier.
    fn try_from(doc: CouchQuestionsSequenceDocument) -> (r: Result<Self, Self::Error>)
        ensures
            match doc_uuid(doc.id@) {
                Ok(id) => r matches Ok(s) && s.id == id && s.name == doc.questions_sequence.name
                    && s.questions == doc.questions_sequence.questions,
                Err(kind) => r matches Err(CouchDaoError::InvalidDocId { doc_id, kind: k }) && doc_id@ == doc.id@ && k == kind,
            },
    {
        let id = extract_uuid(doc.id.as_str())?;
        Ok(QuestionsSequenceEntity { id, name: doc.questions_sequence.name, questions: doc.questions_sequence.questions })
    }
}

} // verus!
