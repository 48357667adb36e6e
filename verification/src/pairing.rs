//! Pairing buzzers with teams during preparation.
//!
//! While pairing, one team at a time is expected to press its buzzer. The session also keeps
//! the teams as they were when pairing started, so that aborting restores them.

use indexmap::IndexMap;
use vstd::prelude::*;
use vstd::string::*;

use crate::collections::{has_key, key_index, team_entries, team_map_get_index, team_map_get_index_of, team_map_len, value_of};
use crate::error::{joined, refused, Refusal, ServiceError};
use crate::game::{GameSession, Team, TeamColor};
use crate::laws::{buzzers_distinct, law_paired_buzzers_stay_distinct};
use crate::phase::{describe_phase, phase_text, GamePhase, GameRunningPhase, PairingSession, PrepStatus};
use crate::requests::StartPairingRequest;
use crate::summary::{team_summaries, team_summaries_of, TeamSummary};
use crate::teams::{copy_teams, holds_buzzer, remove_team, removed, same_but_teams, unknown_team};

verus! {

/// Outcome of moving pairing forward.
#[derive(Debug, Clone, Copy, PartialEq, Eq, Structural)]
pub enum PairingProgress {
    /// Waiting for the buzzer of this team.
    Wait(u128),
    /// Every team has a buzzer.
    Finish,
}

/// Change of the teams that the pairing session must follow.
#[derive(Debug)]
pub enum PairingSessionUpdate {
    /// A buzzer was assigned to `team_id`; `roster` holds the teams afterwards.
    Assigned { team_id: u128, roster: IndexMap<u128, Team> },
    /// Team `team_id` was deleted; `roster` holds the teams afterwards.
    Deleted { team_id: u128, roster: IndexMap<u128, Team> },
}

/// First team, in order, without a buzzer.
pub open spec fn first_unassigned(entries: Seq<(u128, Team)>) -> Option<u128>
    decreases entries.len(),
{
    if entries.len() == 0 {
        None
    } else if entries[0].1.buzzer_id is None {
        Some(entries[0].0)
    } else {
        first_unassigned(entries.drop_first())
    }
}

/// Identifier of the first team without a buzzer, if any.
pub fn next_unassigned_team(teams: &IndexMap<u128, Team>) -> (r: Option<u128>)
    ensures
        r == first_unassigned(team_entries(*teams)),
{
    let n = team_map_len(teams);
    let ghost entries = team_entries(*teams);
    let mut i: usize = 0;
    assert(entries.skip(0) =~= entries);
    while i < n
        invariant
            n == entries.len(),
            entries == team_entries(*teams),
            i <= n,
            first_unassigned(entries) == first_unassigned(entries.skip(i as int)),
        decreases n - i,
    {
        let (id, team) = team_map_get_index(teams, i).unwrap();
        assert(entries.skip(i as int)[0] == entries[i as int]);
        if team.buzzer_id.is_none() {
            return Some(*id);
        }
        assert(entries.skip(i as int).drop_first() =~= entries.skip(i + 1));
        i = i + 1;
    }
    assert(entries.skip(n as int).len() == 0);
    None
}

/// Progress of pairing over `entries`: waiting for the first team without a buzzer, or done.
pub open spec fn progress_of(entries: Seq<(u128, Team)>) -> PairingProgress {
    match first_unassigned(entries) {
        Some(id) => PairingProgress::Wait(id),
        None => PairingProgress::Finish,
    }
}

/// Team awaited after `progress`: the one it waits for, or `current` when pairing is done.
pub open spec fn awaited_after(progress: PairingProgress, current: u128) -> u128 {
    match progress {
        PairingProgress::Wait(id) => id,
        PairingProgress::Finish => current,
    }
}

/// Move pairing to the first team of `teams` without a buzzer.
pub fn advance_pairing(session: &mut PairingSession, teams: &IndexMap<u128, Team>) -> (r: PairingProgress)
    ensures
        r == progress_of(team_entries(*teams)),
        final(session).pairing_team_id == awaited_after(r, old(session).pairing_team_id),
        final(session).snapshot == old(session).snapshot,
{
    match next_unassigned_team(teams) {
        Some(next) => {
            session.pairing_team_id = next;
            PairingProgress::Wait(next)
        },
        None => PairingProgress::Finish,
    }
}

/// Team and roster of an update.
pub open spec fn update_parts(update: PairingSessionUpdate) -> (u128, IndexMap<u128, Team>) {
    match update {
        PairingSessionUpdate::Assigned { team_id, roster } => (team_id, roster),
        PairingSessionUpdate::Deleted { team_id, roster } => (team_id, roster),
    }
}

/// Follow a change of the teams. A deleted team leaves the snapshot. When the change concerns
/// the awaited team, pairing moves on over the roster and its progress is returned; otherwise
/// nothing else changes and `None` is returned.
pub fn apply_pairing_update(session: &mut PairingSession, update: PairingSessionUpdate) -> (r: Option<PairingProgress>)
    ensures
        match update {
            PairingSessionUpdate::Deleted { team_id, .. } => team_entries(final(session).snapshot) == removed(team_entries(old(session).snapshot), team_id),
            PairingSessionUpdate::Assigned { .. } => final(session).snapshot == old(session).snapshot,
        },
        old(session).pairing_team_id == update_parts(update).0 ==> r == Some(progress_of(team_entries(update_parts(update).1)))
            && final(session).pairing_team_id == awaited_after(progress_of(team_entries(update_parts(update).1)), old(session).pairing_team_id),
        old(session).pairing_team_id != update_parts(update).0 ==> r is None && final(session).pairing_team_id == old(session).pairing_team_id,
{
    let (team_id, roster) = match update {
        PairingSessionUpdate::Assigned { team_id, roster } => (team_id, roster),
        PairingSessionUpdate::Deleted { team_id, roster } => {
            let _ = remove_team(&mut session.snapshot, team_id);
            (team_id, roster)
        },
    };
    if session.pairing_team_id == team_id {
        Some(advance_pairing(session, &roster))
    } else {
        None
    }
}

/// Every team has a buzzer.
pub open spec fn all_paired(entries: Seq<(u128, Team)>) -> bool {
    forall|i: int| 0 <= i < entries.len() ==> (#[trigger] entries[i]).1.buzzer_id is Some
}

/// Whether every team has a buzzer.
pub fn all_teams_paired(teams: &IndexMap<u128, Team>) -> (b: bool)
    ensures
        b == all_paired(team_entries(*teams)),
{
    let n = team_map_len(teams);
    let mut i: usize = 0;
    while i < n
        invariant
            n == team_entries(*teams).len(),
            i <= n,
            forall|j: int| 0 <= j < i ==> (#[trigger] team_entries(*teams)[j]).1.buzzer_id is Some,
        decreases n - i,
    {
        let (_, team) = team_map_get_index(teams, i).unwrap();
        if team.buzzer_id.is_none() {
            return false;
        }
        i = i + 1;
    }
    true
}

/// Refusal outside preparation.
pub open spec fn prep_refusal(phase: GamePhase) -> Refusal {
    Refusal::InvalidState("operation requires prep phase, current phase "@ + phase_text(phase))
}

/// Error refusing a phase outside preparation.
fn not_prep(phase: &GamePhase) -> (e: ServiceError)
    ensures
        refused(e, prep_refusal(*phase)),
{
    let text = describe_phase(phase);
    ServiceError::InvalidState(joined("operation requires prep phase, current phase ", text.as_str()))
}

/// Why team `team_id` cannot be deleted, if it cannot: only in preparation, and only a known
/// team.
pub open spec fn delete_refusal(phase: GamePhase, g: GameSession, team_id: u128) -> Option<Refusal> {
    if !(phase matches GamePhase::GameRunning(GameRunningPhase::Prep(_))) {
        Some(prep_refusal(phase))
    } else if !has_key(team_entries(g.teams), team_id) {
        Some(unknown_team(team_id))
    } else {
        None
    }
}

/// Delete a team during preparation. While pairing, the team also leaves the snapshot, and
/// when it was the awaited one, pairing moves on to the first team left without a buzzer;
/// that progress is returned.
pub fn delete_team(phase: &mut GamePhase, game: &mut GameSession, team_id: u128) -> (r: Result<Option<PairingProgress>, ServiceError>)
    ensures
        match delete_refusal(*old(phase), *old(game), team_id) {
            Some(f) => (r matches Err(e) && refused(e, f)) && *final(game) == *old(game) && *final(phase) == *old(phase),
            None => {
                &&& team_entries(final(game).teams) == removed(team_entries(old(game).teams), team_id)
                &&& same_but_teams(*old(game), *final(game))
                &&& match *old(phase) {
                    GamePhase::GameRunning(GameRunningPhase::Prep(PrepStatus::Pairing(s))) => *final(phase) matches GamePhase::GameRunning(
                        GameRunningPhase::Prep(PrepStatus::Pairing(s2)),
                    ) && team_entries(s2.snapshot) == removed(team_entries(s.snapshot), team_id) && if s.pairing_team_id == team_id {
                        let p = progress_of(team_entries(final(game).teams));
                        r == Ok::<Option<PairingProgress>, ServiceError>(Some(p)) && s2.pairing_team_id == awaited_after(p, team_id)
                    } else {
                        r == Ok::<Option<PairingProgress>, ServiceError>(None) && s2.pairing_team_id == s.pairing_team_id
                    },
                    _ => r == Ok::<Option<PairingProgress>, ServiceError>(None) && *final(phase) == *old(phase),
                }
            },
        },
{
    let in_prep = match phase {
        GamePhase::GameRunning(GameRunningPhase::Prep(_)) => true,
        _ => false,
    };
    if !in_prep {
        return Err(not_prep(phase));
    }
    if team_map_get_index_of(&game.teams, &team_id).is_none() {
        return Err(ServiceError::NotFound(crate::error::joined3("team `", crate::ids::uuid_text(team_id).as_str(), "` not found")));
    }
    let _ = remove_team(&mut game.teams, team_id);
    let mut taken = GamePhase::Idle;
    std::mem::swap(&mut taken, phase);
    let (restored, progress) = match taken {
        GamePhase::GameRunning(GameRunningPhase::Prep(PrepStatus::Pairing(session))) => {
            let mut session = session;
            let roster = copy_teams(&game.teams);
            let p = apply_pairing_update(&mut session, PairingSessionUpdate::Deleted { team_id, roster });
            (GamePhase::GameRunning(GameRunningPhase::Prep(PrepStatus::Pairing(session))), p)
        },
        other => (other, None),
    };
    *phase = restored;
    Ok(progress)
}

/// Teams stored by the pairing session of a phase, if pairing is running.
pub open spec fn pairing_snapshot(p: GamePhase) -> Option<Seq<(u128, Team)>> {
    match p {
        GamePhase::GameRunning(GameRunningPhase::Prep(PrepStatus::Pairing(s))) => Some(team_entries(s.snapshot)),
        _ => None,
    }
}

/// Why pairing cannot start with team `first`, if it cannot: only in preparation, not while
/// already pairing, and only with a known team.
pub open spec fn start_pairing_refusal(phase: GamePhase, g: GameSession, first: u128) -> Option<Refusal> {
    match phase {
        GamePhase::GameRunning(GameRunningPhase::Prep(PrepStatus::Ready)) => if !has_key(team_entries(g.teams), first) {
            Some(unknown_team(first))
        } else {
            None
        },
        GamePhase::GameRunning(GameRunningPhase::Prep(PrepStatus::Pairing(_))) => Some(
            Refusal::InvalidState("pairing is already in progress"@),
        ),
        _ => Some(prep_refusal(phase)),
    }
}

/// Start pairing buzzers, awaiting the buzzer of `first_team_id` first; the session keeps the
/// teams as they are now.
pub fn start_pairing(phase: &mut GamePhase, game: &GameSession, request: StartPairingRequest) -> (r: Result<(), ServiceError>)
    ensures
        match start_pairing_refusal(*old(phase), *game, request.first_team_id) {
            Some(f) => (r matches Err(e) && refused(e, f)) && *final(phase) == *old(phase),
            None => r is Ok && (*final(phase) matches GamePhase::GameRunning(GameRunningPhase::Prep(PrepStatus::Pairing(s)))
                && s.pairing_team_id == request.first_team_id && team_entries(s.snapshot) == team_entries(game.teams))
                && pairing_snapshot(*final(phase)) == Some(team_entries(game.teams)),
        },
{
    match phase {
        GamePhase::GameRunning(GameRunningPhase::Prep(PrepStatus::Ready)) => {},
        GamePhase::GameRunning(GameRunningPhase::Prep(PrepStatus::Pairing(_))) => {
            return Err(ServiceError::InvalidState(String::from_str("pairing is already in progress")));
        },
        _ => return Err(not_prep(phase)),
    }
    let first_team_id = request.first_team_id;
    if team_map_get_index_of(&game.teams, &first_team_id).is_none() {
        return Err(ServiceError::NotFound(crate::error::joined3("team `", crate::ids::uuid_text(first_team_id).as_str(), "` not found")));
    }
    let snapshot = copy_teams(&game.teams);
    *phase = GamePhase::GameRunning(GameRunningPhase::Prep(PrepStatus::Pairing(PairingSession { pairing_team_id: first_team_id, snapshot })));
    Ok(())
}

/// Buzzer of a team, by its text.
pub open spec fn buzzer_view(b: Option<String>) -> Option<Seq<char>> {
    match b {
        Some(s) => Some(s@),
        None => None,
    }
}

/// Whether two teams have the same buzzer (or both none).
pub fn same_buzzer(a: &Option<String>, b: &Option<String>) -> (r: bool)
    ensures
        r == (buzzer_view(*a) == buzzer_view(*b)),
{
    match (a, b) {
        (Some(x), Some(y)) => *x == *y,
        (None, None) => true,
        _ => false,
    }
}

/// Teams of the snapshot, in snapshot order, whose buzzer differs from the one they have now
/// (teams deleted meanwhile are left out), with their snapshot values.
pub open spec fn changed_during_pairing(snapshot: Seq<(u128, Team)>, current: Seq<(u128, Team)>) -> Seq<(u128, Team)>
    decreases snapshot.len(),
{
    if snapshot.len() == 0 {
        Seq::empty()
    } else {
        let rest = changed_during_pairing(snapshot.drop_last(), current);
        let e = snapshot.last();
        if has_key(current, e.0) && buzzer_view(value_of(current, e.0).buzzer_id) != buzzer_view(e.1.buzzer_id) {
            rest.push(e)
        } else {
            rest
        }
    }
}

/// Why pairing cannot be aborted, if it cannot: only while pairing.
pub open spec fn abort_refusal(phase: GamePhase) -> Option<Refusal> {
    match phase {
        GamePhase::GameRunning(GameRunningPhase::Prep(PrepStatus::Pairing(_))) => None,
        GamePhase::GameRunning(GameRunningPhase::Prep(PrepStatus::Ready)) => Some(
            Refusal::InvalidState("no pairing session is active"@),
        ),
        _ => Some(prep_refusal(phase)),
    }
}

/// Abort pairing: the teams go back to the snapshot taken when pairing started, and
/// preparation is ready again. Returns the restored teams and, with their snapshot values,
/// the teams whose buzzer had changed meanwhile.
pub fn abort_pairing(phase: &mut GamePhase, game: &mut GameSession) -> (r: Result<(Vec<TeamSummary>, Vec<(u128, Team)>), ServiceError>)
    ensures
        match abort_refusal(*old(phase)) {
            Some(f) => (r matches Err(e) && refused(e, f)) && *final(phase) == *old(phase) && *final(game) == *old(game),
            None => {
                let snapshot = team_entries(old(phase)->GameRunning_0->Prep_0->Pairing_0.snapshot);
                &&& *final(phase) == GamePhase::GameRunning(GameRunningPhase::Prep(PrepStatus::Ready))
                &&& team_entries(final(game).teams) == snapshot
                &&& same_but_teams(*old(game), *final(game))
                &&& (r matches Ok(v) && v.0@ == team_summaries_of(snapshot)
                    && v.1@ == changed_during_pairing(snapshot, team_entries(old(game).teams)))
                &&& pairing_snapshot(*old(phase)) == Some(snapshot)
            },
        },
{
    match phase {
        GamePhase::GameRunning(GameRunningPhase::Prep(PrepStatus::Pairing(_))) => {},
        GamePhase::GameRunning(GameRunningPhase::Prep(PrepStatus::Ready)) => {
            return Err(ServiceError::InvalidState(String::from_str("no pairing session is active")));
        },
        _ => return Err(not_prep(phase)),
    }
    let mut taken = GamePhase::GameRunning(GameRunningPhase::Prep(PrepStatus::Ready));
    std::mem::swap(&mut taken, phase);
    let snapshot = match taken {
        GamePhase::GameRunning(GameRunningPhase::Prep(PrepStatus::Pairing(session))) => session.snapshot,
        _ => {
            assert(false);
            copy_teams(&game.teams)
        },
    };
    let ghost snap = team_entries(snapshot);
    let ghost current = team_entries(game.teams);
    let n = team_map_len(&snapshot);
    let mut modified: Vec<(u128, Team)> = Vec::new();
    let mut i: usize = 0;
    while i < n
        invariant
            n == snap.len(),
            snap == team_entries(snapshot),
            current == team_entries(game.teams),
            i <= n,
            modified@ == changed_during_pairing(snap.take(i as int), current),
        decreases n - i,
    {
        let (id, snapshot_team) = team_map_get_index(&snapshot, i).unwrap();
        assert(snap.take(i + 1).drop_last() =~= snap.take(i as int));
        match team_map_get_index_of(&game.teams, id) {
            Some(j) => {
                let (_, current_team) = team_map_get_index(&game.teams, j).unwrap();
                assert(current[key_index(current, *id)].0 == *id);
                if !same_buzzer(&current_team.buzzer_id, &snapshot_team.buzzer_id) {
                    modified.push((*id, snapshot_team.duplicate()));
                }
            },
            None => {},
        }
        i = i + 1;
    }
    assert(snap.take(n as int) =~= snap);
    game.teams = snapshot;
    let teams = team_summaries(&game.teams);
    Ok((teams, modified))
}

/// Team `t` with buzzer `b`.
pub open spec fn with_buzzer(t: Team, b: Option<String>) -> Team {
    Team { buzzer_id: b, name: t.name, score: t.score, color: t.color, updated_at: t.updated_at }
}

/// Entry after buzzer `b` goes to team `team_id`: that team gets it, any other team holding
/// it loses it.
pub open spec fn reassigned(e: (u128, Team), team_id: u128, b: String) -> (u128, Team) {
    if e.0 == team_id {
        (e.0, with_buzzer(e.1, Some(b)))
    } else if holds_buzzer(e.1, b@) {
        (e.0, with_buzzer(e.1, None))
    } else {
        e
    }
}

/// Entries after buzzer `b` goes to team `team_id`.
pub open spec fn assigned(entries: Seq<(u128, Team)>, team_id: u128, b: String) -> Seq<(u128, Team)> {
    entries.map_values(|e: (u128, Team)| reassigned(e, team_id, b))
}

/// Teams other than `team_id` that lose buzzer `b`, in order, as they are afterwards.
pub open spec fn cleared(entries: Seq<(u128, Team)>, team_id: u128, b: String) -> Seq<(u128, Team)>
    decreases entries.len(),
{
    if entries.len() == 0 {
        Seq::empty()
    } else {
        let rest = cleared(entries.drop_last(), team_id, b);
        let e = entries.last();
        if e.0 != team_id && holds_buzzer(e.1, b@) {
            rest.push((e.0, with_buzzer(e.1, None)))
        } else {
            rest
        }
    }
}

/// Whether team `t` holds buzzer `b`.
fn team_holds(t: &Team, b: &String) -> (r: bool)
    ensures
        r == holds_buzzer(*t, b@),
{
    match &t.buzzer_id {
        Some(x) => *x == *b,
        None => false,
    }
}

/// Give buzzer `buzzer_id` to team `team_id`, taking it from any other team. Returns the
/// color of the team and the teams that changed: that team first, then those that lost the
/// buzzer, in order. When no two teams shared a buzzer before, none do afterwards.
pub fn assign_buzzer(game: &mut GameSession, team_id: u128, buzzer_id: &String) -> (r: Result<(TeamColor, Vec<(u128, Team)>), ServiceError>)
    ensures
        !has_key(team_entries(old(game).teams), team_id) ==> (r matches Err(e) && refused(e, unknown_team(team_id)))
            && *final(game) == *old(game),
        has_key(team_entries(old(game).teams), team_id) ==> {
            let old_entries = team_entries(old(game).teams);
            let t = value_of(old_entries, team_id);
            &&& team_entries(final(game).teams) == assigned(old_entries, team_id, *buzzer_id)
            &&& same_but_teams(*old(game), *final(game))
            &&& (r matches Ok(v) && v.0 == t.color
                && v.1@ == seq![(team_id, with_buzzer(t, Some(*buzzer_id)))] + cleared(old_entries, team_id, *buzzer_id))
            &&& buzzers_distinct(old_entries) ==> buzzers_distinct(team_entries(final(game).teams))
        },
{
    let ghost old_entries = team_entries(game.teams);
    let index = match team_map_get_index_of(&game.teams, &team_id) {
        Some(i) => i,
        None => return Err(ServiceError::NotFound(crate::error::joined3("team `", crate::ids::uuid_text(team_id).as_str(), "` not found"))),
    };
    proof {
        assert(old_entries[key_index(old_entries, team_id)].0 == team_id);
    }
    let (_, current) = team_map_get_index(&game.teams, index).unwrap();
    let mut team = current.duplicate();
    team.buzzer_id = Some(buzzer_id.clone());
    let color = team.color;
    let mut modified: Vec<(u128, Team)> = Vec::new();
    modified.push((team_id, team.duplicate()));
    crate::teams::replace_team_at(&mut game.teams, index, team_id, team);
    let n = team_map_len(&game.teams);
    let mut i: usize = 0;
    while i < n
        invariant
            n == old_entries.len(),
            i <= n,
            index < n,
            old_entries[index as int].0 == team_id,
            forall|j: int| 0 <= j < n && j != index ==> old_entries[j].0 != team_id,
            team_entries(game.teams).len() == n,
            forall|j: int| 0 <= j < i ==> team_entries(game.teams)[j] == reassigned(old_entries[j], team_id, *buzzer_id),
            forall|j: int| i <= j < n && j != index ==> team_entries(game.teams)[j] == old_entries[j],
            i <= index ==> team_entries(game.teams)[index as int] == reassigned(old_entries[index as int], team_id, *buzzer_id),
            modified@ == seq![(team_id, with_buzzer(value_of(old_entries, team_id), Some(*buzzer_id)))] + cleared(old_entries.take(i as int), team_id, *buzzer_id),
            same_but_teams(*old(game), *game),
        decreases n - i,
    {
        assert(old_entries.take(i + 1).drop_last() =~= old_entries.take(i as int));
        let (id, t) = team_map_get_index(&game.teams, i).unwrap();
        let id = *id;
        if id != team_id && team_holds(t, buzzer_id) {
            let mut cleared_team = t.duplicate();
            cleared_team.buzzer_id = None;
            modified.push((id, cleared_team.duplicate()));
            crate::teams::replace_team_at(&mut game.teams, i, id, cleared_team);
        }
        i = i + 1;
    }
    assert(old_entries.take(n as int) =~= old_entries);
    assert(team_entries(game.teams) =~= assigned(old_entries, team_id, *buzzer_id));
    proof {
        if buzzers_distinct(old_entries) {
            law_paired_buzzers_stay_distinct(old_entries, team_id, *buzzer_id);
        }
    }
    Ok((color, modified))
}

} // verus!
