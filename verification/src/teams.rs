//! Teams of the loaded game: creation, edition, deletion and scores.

use indexmap::IndexMap;
use vstd::prelude::*;
use vstd::string::*;

use crate::collections::{
    has_key, key_index, team_entries, team_map_get_index, team_map_get_index_of, team_map_insert, team_map_len,
    team_map_new, team_map_shift_remove, value_of,
};
use crate::config::{first_unused, AppConfig};
use crate::error::{joined3, refused, Refusal, ServiceError};
use crate::game::{GameSession, Team, TeamColor, Timestamp};
use crate::ids::{current_time, hyphenated_uuid, new_random_id, uuid_text};
use crate::input::TeamInput;
use crate::phase::{phase_text, GamePhase, GameRunningPhase, PrepStatus};
use crate::requests::{CreateTeamRequest, ScoreAdjustmentRequest, ScoreUpdateResponse, UpdateTeamRequest};
use crate::summary::{team_summary, TeamSummary};
use crate::text::{decimal_digits, decimal_text, is_blank, is_blank_text};

verus! {

/// Team `t` is paired with buzzer `buzzer`.
pub open spec fn holds_buzzer(t: Team, buzzer: Seq<char>) -> bool {
    t.buzzer_id matches Some(b) && b@ == buzzer
}

/// Some team other than `exclude` is paired with buzzer `buzzer`.
pub open spec fn buzzer_taken(entries: Seq<(u128, Team)>, exclude: Option<u128>, buzzer: Seq<char>) -> bool {
    exists|i: int| 0 <= i < entries.len() && holds_buzzer(#[trigger] entries[i].1, buzzer) && Some(entries[i].0) != exclude
}

/// Refusal of a buzzer that another team already uses.
pub open spec fn duplicate_buzzer(buzzer: Seq<char>) -> Refusal {
    Refusal::InvalidInput("duplicate buzzer id `"@ + buzzer + "` detected"@)
}

/// Refuse buzzer `buzzer_id` when a team other than `exclude` already uses it.
pub fn assert_unique_buzzer(game: &GameSession, exclude: Option<u128>, buzzer_id: &String) -> (r: Result<(), ServiceError>)
    ensures
        !buzzer_taken(team_entries(game.teams), exclude, buzzer_id@) ==> r is Ok,
        buzzer_taken(team_entries(game.teams), exclude, buzzer_id@) ==> (r matches Err(e) && refused(e, duplicate_buzzer(buzzer_id@))),
{
    let n = team_map_len(&game.teams);
    let ghost entries = team_entries(game.teams);
    let mut i: usize = 0;
    while i < n
        invariant
            n == entries.len(),
            entries == team_entries(game.teams),
            i <= n,
            forall|j: int| 0 <= j < i ==> !(holds_buzzer(#[trigger] entries[j].1, buzzer_id@) && Some(entries[j].0) != exclude),
        decreases n - i,
    {
        let (id, team) = team_map_get_index(&game.teams, i).unwrap();
        let holds = match &team.buzzer_id {
            Some(b) => *b == *buzzer_id,
            None => false,
        };
        let other = match exclude {
            Some(x) => x != *id,
            None => true,
        };
        if holds && other {
            assert(holds_buzzer(entries[i as int].1, buzzer_id@));
            return Err(ServiceError::InvalidInput(joined3("duplicate buzzer id `", buzzer_id.as_str(), "` detected")));
        }
        i = i + 1;
    }
    Ok(())
}

/// Why teams cannot be edited in `phase`, if they cannot: only in preparation, and not while
/// buzzers are being paired.
pub open spec fn edit_refusal(phase: GamePhase) -> Option<Refusal> {
    match phase {
        GamePhase::GameRunning(GameRunningPhase::Prep(PrepStatus::Ready)) => None,
        GamePhase::GameRunning(GameRunningPhase::Prep(PrepStatus::Pairing(_))) => Some(
            Refusal::InvalidState("cannot modify teams during active pairing"@),
        ),
        _ => Some(Refusal::InvalidState("operation requires prep phase, current phase "@ + phase_text(phase))),
    }
}

/// Refuse edits of teams outside preparation or while pairing.
pub fn ensure_team_editing(phase: &GamePhase) -> (r: Result<(), ServiceError>)
    ensures
        match edit_refusal(*phase) {
            Some(f) => (r matches Err(e) && refused(e, f)),
            None => r is Ok,
        },
{
    match phase {
        GamePhase::GameRunning(GameRunningPhase::Prep(PrepStatus::Ready)) => Ok(()),
        GamePhase::GameRunning(GameRunningPhase::Prep(PrepStatus::Pairing(_))) => Err(
            ServiceError::InvalidState(String::from_str("cannot modify teams during active pairing")),
        ),
        _ => {
            let text = crate::phase::describe_phase(phase);
            Err(ServiceError::InvalidState(crate::error::joined("operation requires prep phase, current phase ", text.as_str())))
        },
    }
}

/// Entries after inserting `(k, v)`: a present key keeps its position and takes the new
/// value; an absent one is appended.
pub open spec fn inserted(entries: Seq<(u128, Team)>, k: u128, v: Team) -> Seq<(u128, Team)> {
    if has_key(entries, k) {
        entries.update(key_index(entries, k), (k, v))
    } else {
        entries.push((k, v))
    }
}

/// Insert into a team map, stated over [`inserted`].
pub(crate) fn insert_team(teams: &mut IndexMap<u128, Team>, k: u128, v: Team)
    ensures
        team_entries(*final(teams)) == inserted(team_entries(*old(teams)), k, v),
        has_key(team_entries(*final(teams)), k),
        value_of(team_entries(*final(teams)), k) == v,
{
    let ghost before = team_entries(*teams);
    let found = team_map_get_index_of(teams, &k);
    let _ = team_map_insert(teams, k, v);
    let ghost after = team_entries(*teams);
    proof {
        match found {
            Some(i) => {
                assert(before[key_index(before, k)].0 == k);
                assert(after[i as int].0 == k);
                assert(forall|j: int| 0 <= j < after.len() && j != i ==> after[j].0 != k);
            },
            None => {
                assert(after[before.len() as int].0 == k);
                assert(forall|j: int| 0 <= j < before.len() ==> after[j] == before[j]);
            },
        }
        assert(after[key_index(after, k)].0 == k);
    }
}

/// Entries after removing key `k`, the others keeping their order.
pub open spec fn removed(entries: Seq<(u128, Team)>, k: u128) -> Seq<(u128, Team)> {
    if has_key(entries, k) {
        entries.remove(key_index(entries, k))
    } else {
        entries
    }
}

/// Remove key `k` from a team map, stated over [`removed`]; returns its value if it was
/// present.
pub(crate) fn remove_team(teams: &mut IndexMap<u128, Team>, k: u128) -> (r: Option<Team>)
    ensures
        team_entries(*final(teams)) == removed(team_entries(*old(teams)), k),
        r is Some <==> has_key(team_entries(*old(teams)), k),
        !has_key(team_entries(*final(teams)), k),
{
    let ghost before = team_entries(*teams);
    let found = team_map_get_index_of(teams, &k);
    let r = team_map_shift_remove(teams, &k);
    let ghost after = team_entries(*teams);
    proof {
        if let Some(i) = found {
            assert(before[key_index(before, k)].0 == k);
            assert forall|j: int| 0 <= j < after.len() implies after[j].0 != k by {
                if j < i {
                    assert(after[j] == before[j]);
                } else {
                    assert(after[j] == before[j + 1]);
                }
            }
        }
    }
    r
}

/// Replace the value of the entry at position `i`, whose key is `k`.
pub(crate) fn replace_team_at(teams: &mut IndexMap<u128, Team>, i: usize, k: u128, v: Team)
    requires
        i < team_entries(*old(teams)).len(),
        team_entries(*old(teams))[i as int].0 == k,
    ensures
        team_entries(*final(teams)) == team_entries(*old(teams)).update(i as int, (k, v)),
{
    let ghost before = team_entries(*teams);
    let found = team_map_get_index_of(teams, &k);
    assert(found == Some(i));
    let _ = team_map_insert(teams, k, v);
}

/// A copy of a team map, entry for entry.
pub fn copy_teams(teams: &IndexMap<u128, Team>) -> (r: IndexMap<u128, Team>)
    ensures
        team_entries(r) == team_entries(*teams),
{
    let n = team_map_len(teams);
    let ghost src = team_entries(*teams);
    let mut out = team_map_new();
    let mut i: usize = 0;
    while i < n
        invariant
            n == src.len(),
            src == team_entries(*teams),
            i <= n,
            team_entries(out) == src.take(i as int),
        decreases n - i,
    {
        let (id, team) = team_map_get_index(teams, i).unwrap();
        let found = team_map_get_index_of(teams, id);
        proof {
            assert(src[i as int].0 == *id);
            assert(found == Some(i));
            assert forall|j: int| 0 <= j < i implies src.take(i as int)[j].0 != *id by {
                assert(src.take(i as int)[j] == src[j]);
            }
        }
        let _ = team_map_insert(&mut out, *id, team.duplicate());
        assert(team_entries(out) =~= src.take(i + 1));
        i = i + 1;
    }
    assert(src.take(n as int) =~= src);
    out
}

/// Colors of the teams, in order.
pub open spec fn colors_of(entries: Seq<(u128, Team)>) -> Seq<TeamColor> {
    entries.map_values(|e: (u128, Team)| e.1.color)
}

/// Name given to a team created without one: `Team <n>`, `n` counting it with the others.
pub open spec fn default_team_name(count: nat) -> Seq<char> {
    "Team "@ + decimal_digits(count + 1)
}

/// `a` and `b` differ in their teams at most.
pub open spec fn same_but_teams(a: GameSession, b: GameSession) -> bool {
    &&& a.id == b.id
    &&& a.name == b.name
    &&& a.created_at == b.created_at
    &&& a.updated_at == b.updated_at
    &&& a.questions_sequence == b.questions_sequence
    &&& a.question_order == b.question_order
    &&& a.current_question_index == b.current_question_index
    &&& a.current_question_revealed == b.current_question_revealed
    &&& a.found_answer_ids == b.found_answer_ids
    &&& a.revealed_hint_ids == b.revealed_hint_ids
}

impl GameSession {
    /// Colors used by the teams, in team order.
    pub fn team_colors(&self) -> (v: Vec<TeamColor>)
        ensures
            v@ == colors_of(team_entries(self.teams)),
    {
        let n = team_map_len(&self.teams);
        let mut out: Vec<TeamColor> = Vec::new();
        let mut i: usize = 0;
        while i < n
            invariant
                n == team_entries(self.teams).len(),
                i <= n,
                out@ == colors_of(team_entries(self.teams).take(i as int)),
            decreases n - i,
        {
            let (_, team) = team_map_get_index(&self.teams, i).unwrap();
            out.push(team.color);
            assert(colors_of(team_entries(self.teams).take(i + 1)) =~= colors_of(team_entries(self.teams).take(i as int)).push(team.color));
            i = i + 1;
        }
        assert(team_entries(self.teams).take(n as int) =~= team_entries(self.teams));
        out
    }

    /// Add a team under `id`: its name (`Team <n>` when none is given), buzzer, score (zero
    /// when none is given) and color (the first configured color no team uses, when none is
    /// given). An `id` already present is replaced in place.
    pub fn add_team(
        &mut self,
        config: &AppConfig,
        id: u128,
        name: Option<String>,
        buzzer_id: Option<String>,
        score: Option<i32>,
        color: Option<TeamColor>,
        now: Timestamp,
    ) -> (r: (u128, Team))
        requires
            team_entries(old(self).teams).len() < usize::MAX,
        ensures
            r.0 == id,
            r.1.buzzer_id == buzzer_id,
            r.1.score == (match score {
                Some(s) => s,
                None => 0i32,
            }),
            r.1.color == (match color {
                Some(c) => c,
                None => first_unused(config.colors@, colors_of(team_entries(old(self).teams))),
            }),
            r.1.updated_at == now,
            match name {
                Some(n) => r.1.name == n,
                None => r.1.name@ == default_team_name(team_entries(old(self).teams).len()),
            },
            team_entries(final(self).teams) == inserted(team_entries(old(self).teams), id, r.1),
            value_of(team_entries(final(self).teams), id) == r.1,
            same_but_teams(*old(self), *final(self)),
    {
        let count = team_map_len(&self.teams);
        let name = match name {
            Some(n) => n,
            None => {
                let number = decimal_text(count + 1);
                crate::error::joined("Team ", number.as_str())
            },
        };
        let color = match color {
            Some(c) => c,
            None => {
                let used = self.team_colors();
                config.first_unused_color(used.as_slice())
            },
        };
        let score = match score {
            Some(s) => s,
            None => 0,
        };
        let team = Team { buzzer_id, name, score, color, updated_at: now };
        insert_team(&mut self.teams, id, team.duplicate());
        (id, team)
    }
}

/// Buzzer of a team made from an input: a given buzzer, or none.
pub open spec fn input_buzzer(buzzer: Option<Option<String>>) -> Option<String> {
    match buzzer {
        Some(b) => b,
        None => None,
    }
}

/// Refusal of a buzzer of an input that a team other than `exclude` already uses, if any.
pub open spec fn input_buzzer_refusal(entries: Seq<(u128, Team)>, exclude: Option<u128>, buzzer: Option<Option<String>>) -> Option<Refusal> {
    match buzzer {
        Some(Some(b)) => if buzzer_taken(entries, exclude, b@) {
            Some(duplicate_buzzer(b@))
        } else {
            None
        },
        _ => None,
    }
}

/// Why a team cannot be created from `input`, if it cannot.
pub open spec fn create_refusal(phase: GamePhase, g: GameSession, input: TeamInput) -> Option<Refusal> {
    if edit_refusal(phase) is Some {
        edit_refusal(phase)
    } else if is_blank_text(input.name@) {
        Some(Refusal::InvalidInput("team name must not be empty"@))
    } else {
        input_buzzer_refusal(team_entries(g.teams), None, input.buzzer_id)
    }
}

/// Refuse a buzzer of an input that a team other than `exclude` already uses.
fn check_input_buzzer(game: &GameSession, exclude: Option<u128>, buzzer: &Option<Option<String>>) -> (r: Result<(), ServiceError>)
    ensures
        match input_buzzer_refusal(team_entries(game.teams), exclude, *buzzer) {
            Some(f) => (r matches Err(e) && refused(e, f)),
            None => r is Ok,
        },
{
    match buzzer {
        Some(Some(b)) => assert_unique_buzzer(game, exclude, b),
        _ => Ok(()),
    }
}

/// Create a team during preparation (not while pairing), under a new random identifier and
/// stamped with the current time. A team without a color gets the first configured color no
/// team uses; without a score it starts at zero.
pub fn create_team(phase: &GamePhase, game: &mut GameSession, config: &AppConfig, request: CreateTeamRequest) -> (r: Result<TeamSummary, ServiceError>)
    requires
        team_entries(old(game).teams).len() < usize::MAX,
    ensures
        match create_refusal(*phase, *old(game), request.0) {
            Some(f) => (r matches Err(e) && refused(e, f)) && *final(game) == *old(game),
            None => r matches Ok(s) && {
                let t = Team {
                    buzzer_id: input_buzzer(request.0.buzzer_id),
                    name: request.0.name,
                    score: match request.0.score {
                        Some(v) => v,
                        None => 0i32,
                    },
                    color: match request.0.color {
                        Some(c) => c,
                        None => first_unused(config.colors@, colors_of(team_entries(old(game).teams))),
                    },
                    updated_at: value_of(team_entries(final(game).teams), s.id).updated_at,
                };
                &&& s == team_summary(s.id, t)
                &&& team_entries(final(game).teams) == inserted(team_entries(old(game).teams), s.id, t)
                &&& same_but_teams(*old(game), *final(game))
            },
        },
{
    ensure_team_editing(phase)?;
    let CreateTeamRequest(TeamInput { name, buzzer_id, score, color }) = request;
    if is_blank(name.as_str()) {
        return Err(ServiceError::InvalidInput(String::from_str("team name must not be empty")));
    }
    check_input_buzzer(game, None, &buzzer_id)?;
    let buzzer = match buzzer_id {
        Some(b) => b,
        None => None,
    };
    let id = new_random_id();
    let now = current_time();
    let (team_id, team) = game.add_team(config, id, Some(name), buzzer, score, color, now);
    Ok(TeamSummary::from((team_id, team)))
}

/// Refusal of an unknown team, naming its identifier.
pub open spec fn unknown_team(team_id: u128) -> Refusal {
    Refusal::NotFound("team `"@ + hyphenated_uuid(team_id) + "` not found"@)
}

/// Why team `team_id` cannot be updated from `input`, if it cannot.
pub open spec fn update_refusal(phase: GamePhase, g: GameSession, team_id: u128, input: TeamInput) -> Option<Refusal> {
    if edit_refusal(phase) is Some {
        edit_refusal(phase)
    } else if is_blank_text(input.name@) {
        Some(Refusal::InvalidInput("team name must not be empty"@))
    } else if input_buzzer_refusal(team_entries(g.teams), Some(team_id), input.buzzer_id) is Some {
        input_buzzer_refusal(team_entries(g.teams), Some(team_id), input.buzzer_id)
    } else if !has_key(team_entries(g.teams), team_id) {
        Some(unknown_team(team_id))
    } else {
        None
    }
}

/// Team `t` updated from `input` at time `now`: the new name; the buzzer, score and color
/// where the input gives them, the old ones elsewhere.
pub open spec fn updated_team(t: Team, input: TeamInput, now: Timestamp) -> Team {
    Team {
        buzzer_id: match input.buzzer_id {
            Some(b) => b,
            None => t.buzzer_id,
        },
        name: input.name,
        score: match input.score {
            Some(v) => v,
            None => t.score,
        },
        color: match input.color {
            Some(c) => c,
            None => t.color,
        },
        updated_at: now,
    }
}

/// Position and copy of team `team_id`, or the refusal of an unknown team.
pub(crate) fn find_team(game: &GameSession, team_id: u128) -> (r: Result<Team, ServiceError>)
    ensures
        has_key(team_entries(game.teams), team_id) ==> r == Ok::<Team, ServiceError>(value_of(team_entries(game.teams), team_id)),
        !has_key(team_entries(game.teams), team_id) ==> (r matches Err(e) && refused(e, unknown_team(team_id))),
{
    match team_map_get_index_of(&game.teams, &team_id) {
        Some(i) => {
            let (_, team) = team_map_get_index(&game.teams, i).unwrap();
            proof {
                let entries = team_entries(game.teams);
                assert(entries[key_index(entries, team_id)].0 == team_id);
            }
            Ok(team.duplicate())
        },
        None => Err(ServiceError::NotFound(joined3("team `", uuid_text(team_id).as_str(), "` not found"))),
    }
}

/// Update a team during preparation (not while pairing): its name, and its buzzer, score and
/// color where the request gives them; stamped with the current time.
pub fn update_team(phase: &GamePhase, game: &mut GameSession, team_id: u128, request: UpdateTeamRequest) -> (r: Result<TeamSummary, ServiceError>)
    ensures
        match update_refusal(*phase, *old(game), team_id, request.0) {
            Some(f) => (r matches Err(e) && refused(e, f)) && *final(game) == *old(game),
            None => {
                let now = value_of(team_entries(final(game).teams), team_id).updated_at;
                let t = updated_team(value_of(team_entries(old(game).teams), team_id), request.0, now);
                &&& r matches Ok(s) && s == team_summary(team_id, t)
                &&& team_entries(final(game).teams) == inserted(team_entries(old(game).teams), team_id, t)
                &&& same_but_teams(*old(game), *final(game))
            },
        },
{
    ensure_team_editing(phase)?;
    let UpdateTeamRequest(TeamInput { name, buzzer_id, score, color }) = request;
    if is_blank(name.as_str()) {
        return Err(ServiceError::InvalidInput(String::from_str("team name must not be empty")));
    }
    check_input_buzzer(game, Some(team_id), &buzzer_id)?;
    let mut team = find_team(game, team_id)?;
    team.name = name;
    if let Some(b) = buzzer_id {
        team.buzzer_id = b;
    }
    if let Some(v) = score {
        team.score = v;
    }
    if let Some(c) = color {
        team.color = c;
    }
    team.updated_at = current_time();
    insert_team(&mut game.teams, team_id, team.duplicate());
    Ok(TeamSummary::from((team_id, team)))
}

/// Why the score of team `team_id` cannot be adjusted, if it cannot: only while a game runs,
/// and only for a known team.
pub open spec fn score_refusal(phase: GamePhase, g: GameSession, team_id: u128) -> Option<Refusal> {
    if !(phase is GameRunning) {
        Some(Refusal::InvalidState("operation requires running phase, current: "@ + phase_text(phase)))
    } else if !has_key(team_entries(g.teams), team_id) {
        Some(Refusal::NotFound("team not found"@))
    } else {
        None
    }
}

/// Add `delta` to the score of a team while a game runs; the team is stamped with the current
/// time. The new score must fit an `i32`.
pub fn adjust_score(phase: &GamePhase, game: &mut GameSession, team_id: u128, request: ScoreAdjustmentRequest) -> (r: Result<ScoreUpdateResponse, ServiceError>)
    requires
        has_key(team_entries(old(game).teams), team_id) ==> i32::MIN <= value_of(team_entries(old(game).teams), team_id).score
            + request.delta <= i32::MAX,
    ensures
        match score_refusal(*phase, *old(game), team_id) {
            Some(f) => (r matches Err(e) && refused(e, f)) && *final(game) == *old(game),
            None => {
                let t0 = value_of(team_entries(old(game).teams), team_id);
                let t = Team {
                    buzzer_id: t0.buzzer_id,
                    name: t0.name,
                    score: (t0.score + request.delta) as i32,
                    color: t0.color,
                    updated_at: value_of(team_entries(final(game).teams), team_id).updated_at,
                };
                &&& r matches Ok(resp) && resp.team_id == team_id && resp.score == t.score
                &&& team_entries(final(game).teams) == inserted(team_entries(old(game).teams), team_id, t)
                &&& same_but_teams(*old(game), *final(game))
            },
        },
{
    match phase {
        GamePhase::GameRunning(_) => {},
        _ => {
            let text = crate::phase::describe_phase(phase);
            return Err(ServiceError::InvalidState(crate::error::joined("operation requires running phase, current: ", text.as_str())));
        },
    }
    let mut team = match find_team(game, team_id) {
        Ok(t) => t,
        Err(_) => return Err(ServiceError::NotFound(String::from_str("team not found"))),
    };
    team.score = team.score + request.delta;
    team.updated_at = current_time();
    let score = team.score;
    insert_team(&mut game.teams, team_id, team);
    Ok(ScoreUpdateResponse { team_id, score })
}

} // verus!
