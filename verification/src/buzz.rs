//! What a buzz does, depending on the phase: a test during preparation, a pairing while
//! pairing, a pause while playing.

use indexmap::IndexMap;
use vstd::prelude::*;
use vstd::string::*;

use crate::collections::{has_key, team_entries, team_map_get_index, team_map_len, value_of};
use crate::config::AppConfig;
use crate::error::{joined, joined3, ServiceError};
use crate::game::{GameSession, Team, TeamColor};
use crate::ids::{current_time, new_random_id};
use crate::pairing::{
    all_paired, all_teams_paired, apply_pairing_update, assign_buzzer, pairing_snapshot, progress_of, PairingProgress,
    PairingSessionUpdate,
};
use crate::patterns::BuzzerPatternPreset;
use crate::phase::{GamePhase, GameRunningPhase, PauseKind, PrepStatus};
use crate::teams::{copy_teams, holds_buzzer};

verus! {

/// Why a buzz could not be handled.
#[derive(Debug)]
pub enum BuzzError {
    /// The connection to the buzzer is closed.
    ConnectionClosed,
    /// A message names another buzzer than the connection's.
    MismatchedId { expected: String, got: String },
    /// Buzzes count only while a game runs.
    NotRunningPhase,
    /// The pairing session is gone.
    PairingSessionLost,
    /// The awaited team changed meanwhile.
    PairingTargetChanged,
    /// No team has this buzzer.
    UnknownBuzzerId(String),
    /// A service operation failed.
    Service(ServiceError),
}

impl BuzzError {
    /// Rendered text of the error.
    pub open spec fn spec_text(&self) -> Seq<char> {
        match self {
            BuzzError::ConnectionClosed => "connection closed"@,
            BuzzError::MismatchedId { expected, got } => "buzz ignored: mismatched ID (expected "@ + expected@ + ", got "@ + got@ + ")"@,
            BuzzError::NotRunningPhase => "buzz events are ignored outside of running phases"@,
            BuzzError::PairingSessionLost => "pairing workflow lost session state"@,
            BuzzError::PairingTargetChanged => "pairing target changed during update"@,
            BuzzError::UnknownBuzzerId(id) => "buzz ignored: unknown buzzer ID `"@ + id@ + "`"@,
            BuzzError::Service(e) => "service error: "@ + e.spec_text(),
        }
    }

    /// Human-readable text of the error.
    pub fn describe(&self) -> (s: String)
        ensures
            s@ == self.spec_text(),
    {
        match self {
            BuzzError::ConnectionClosed => String::from_str("connection closed"),
            BuzzError::MismatchedId { expected, got } => {
                let head = joined3("buzz ignored: mismatched ID (expected ", expected.as_str(), ", got ");
                joined3(head.as_str(), got.as_str(), ")")
            },
            BuzzError::NotRunningPhase => String::from_str("buzz events are ignored outside of running phases"),
            BuzzError::PairingSessionLost => String::from_str("pairing workflow lost session state"),
            BuzzError::PairingTargetChanged => String::from_str("pairing target changed during update"),
            BuzzError::UnknownBuzzerId(id) => joined3("buzz ignored: unknown buzzer ID `", id.as_str(), "`"),
            BuzzError::Service(e) => {
                let text = e.describe();
                joined("service error: ", text.as_str())
            },
        }
    }
}

impl vstd::std_specs::convert::FromSpecImpl<ServiceError> for BuzzError {
    open spec fn obeys_from_spec() -> bool {
        true
    }

    open spec fn from_spec(v: ServiceError) -> BuzzError {
        BuzzError::Service(v)
    }
}

impl From<ServiceError> for BuzzError {
    fn from(err: ServiceError) -> (e: BuzzError)
        ensures
            e == BuzzError::Service(err),
    {
        BuzzError::Service(err)
    }
}

/// First team, in order, paired with buzzer `b`.
pub open spec fn holder_of(entries: Seq<(u128, Team)>, b: Seq<char>) -> Option<u128>
    decreases entries.len(),
{
    if entries.len() == 0 {
        None
    } else if holds_buzzer(entries[0].1, b) {
        Some(entries[0].0)
    } else {
        holder_of(entries.drop_first(), b)
    }
}

/// Identifier of the first team paired with buzzer `buzzer_id`, if any.
pub fn team_with_buzzer(teams: &IndexMap<u128, Team>, buzzer_id: &String) -> (r: Option<u128>)
    ensures
        r == holder_of(team_entries(*teams), buzzer_id@),
{
    let n = team_map_len(teams);
    let ghost entries = team_entries(*teams);
    let mut i: usize = 0;
    assert(entries.skip(0) =~= entries);
    while i < n
        invariant
            n == entries.len(),
            entries == team_entries(*teams),
            i <= n,
            holder_of(entries, buzzer_id@) == holder_of(entries.skip(i as int), buzzer_id@),
        decreases n - i,
    {
        let (id, team) = team_map_get_index(teams, i).unwrap();
        assert(entries.skip(i as int)[0] == entries[i as int]);
        let holds = match &team.buzzer_id {
            Some(b) => *b == *buzzer_id,
            None => false,
        };
        if holds {
            return Some(*id);
        }
        assert(entries.skip(i as int).drop_first() =~= entries.skip(i + 1));
        i = i + 1;
    }
    assert(entries.skip(n as int).len() == 0);
    None
}

/// Light to set on each paired buzzer after buzzer `b` pressed: answering (in the team's
/// color) for its own team, waiting for the others; teams without a buzzer are left out.
pub open spec fn buzz_presets(entries: Seq<(u128, Team)>, b: Seq<char>) -> Seq<(Seq<char>, BuzzerPatternPreset)>
    decreases entries.len(),
{
    if entries.len() == 0 {
        Seq::empty()
    } else {
        let rest = buzz_presets(entries.drop_last(), b);
        let t = entries.last().1;
        match t.buzzer_id {
            Some(x) => rest.push(
                (x@, if x@ == b {
                    BuzzerPatternPreset::Answering(t.color)
                } else {
                    BuzzerPatternPreset::Waiting
                }),
            ),
            None => rest,
        }
    }
}

/// Lights as texts and presets.
pub open spec fn preset_views(v: Seq<(String, BuzzerPatternPreset)>) -> Seq<(Seq<char>, BuzzerPatternPreset)> {
    v.map_values(|p: (String, BuzzerPatternPreset)| (p.0@, p.1))
}

/// Lights to set after buzzer `buzzer_id` pressed (see [`buzz_presets`]).
pub fn patterns_after_buzz(teams: &IndexMap<u128, Team>, buzzer_id: &String) -> (v: Vec<(String, BuzzerPatternPreset)>)
    ensures
        preset_views(v@) == buzz_presets(team_entries(*teams), buzzer_id@),
{
    let n = team_map_len(teams);
    let ghost entries = team_entries(*teams);
    let mut out: Vec<(String, BuzzerPatternPreset)> = Vec::new();
    let mut i: usize = 0;
    while i < n
        invariant
            n == entries.len(),
            entries == team_entries(*teams),
            i <= n,
            preset_views(out@) == buzz_presets(entries.take(i as int), buzzer_id@),
        decreases n - i,
    {
        let (_, team) = team_map_get_index(teams, i).unwrap();
        assert(entries.take(i + 1).drop_last() =~= entries.take(i as int));
        assert(entries.take(i + 1).last() == entries[i as int]);
        match &team.buzzer_id {
            Some(b) => {
                let preset = if *b == *buzzer_id {
                    BuzzerPatternPreset::Answering(team.color)
                } else {
                    BuzzerPatternPreset::Waiting
                };
                out.push((b.clone(), preset));
                assert(preset_views(out@) =~= buzz_presets(entries.take(i as int), buzzer_id@).push((b@, preset)));
            },
            None => {},
        }
        i = i + 1;
    }
    assert(entries.take(n as int) =~= entries);
    out
}

/// Light set on every paired buzzer after a change of phase.
#[derive(Debug, Clone, Copy, PartialEq, Eq, Structural)]
pub enum TeamLight {
    /// Waiting for pairing (the game ended).
    WaitingForPairing,
    /// Standing by, in the team's color (the answer is revealed).
    Standby,
    /// Allowed to answer, in the team's color (a question is played).
    Playing,
    /// Waiting (gameplay is paused).
    Waiting,
}

/// Preset of a light for a team of color `color`.
pub open spec fn light_preset(light: TeamLight, color: TeamColor) -> BuzzerPatternPreset {
    match light {
        TeamLight::WaitingForPairing => BuzzerPatternPreset::WaitingForPairing,
        TeamLight::Standby => BuzzerPatternPreset::Standby(color),
        TeamLight::Playing => BuzzerPatternPreset::Playing(color),
        TeamLight::Waiting => BuzzerPatternPreset::Waiting,
    }
}

/// Buzzers of the teams, in order, each with the light for its team; teams without a buzzer
/// are left out.
pub open spec fn team_lights(entries: Seq<(u128, Team)>, light: TeamLight) -> Seq<(Seq<char>, BuzzerPatternPreset)>
    decreases entries.len(),
{
    if entries.len() == 0 {
        Seq::empty()
    } else {
        let rest = team_lights(entries.drop_last(), light);
        let t = entries.last().1;
        match t.buzzer_id {
            Some(b) => rest.push((b@, light_preset(light, t.color))),
            None => rest,
        }
    }
}

/// The light to send to each paired buzzer (see [`team_lights`]).
pub fn lights_for_teams(teams: &IndexMap<u128, Team>, light: TeamLight) -> (v: Vec<(String, BuzzerPatternPreset)>)
    ensures
        preset_views(v@) == team_lights(team_entries(*teams), light),
{
    let n = team_map_len(teams);
    let ghost entries = team_entries(*teams);
    let mut out: Vec<(String, BuzzerPatternPreset)> = Vec::new();
    let mut i: usize = 0;
    while i < n
        invariant
            n == entries.len(),
            entries == team_entries(*teams),
            i <= n,
            preset_views(out@) == team_lights(entries.take(i as int), light),
        decreases n - i,
    {
        let (_, team) = team_map_get_index(teams, i).unwrap();
        assert(entries.take(i + 1).drop_last() =~= entries.take(i as int));
        assert(entries.take(i + 1).last() == entries[i as int]);
        match &team.buzzer_id {
            Some(b) => {
                let preset = match light {
                    TeamLight::WaitingForPairing => BuzzerPatternPreset::WaitingForPairing,
                    TeamLight::Standby => BuzzerPatternPreset::Standby(team.color),
                    TeamLight::Playing => BuzzerPatternPreset::Playing(team.color),
                    TeamLight::Waiting => BuzzerPatternPreset::Waiting,
                };
                out.push((b.clone(), preset));
                assert(preset_views(out@) =~= team_lights(entries.take(i as int), light).push((b@, preset)));
            },
            None => {},
        }
        i = i + 1;
    }
    assert(entries.take(n as int) =~= entries);
    out
}

/// What a buzz led to.
#[derive(Debug)]
pub enum BuzzOutcome {
    /// During preparation, a paired buzzer was tested by its team.
    TestBuzz { team_id: u128 },
    /// During preparation, with every team paired, an unknown buzzer created a team.
    TeamCreated { team_id: u128, team: Team },
    /// During preparation, an unknown buzzer pressed while some team still has no buzzer.
    Ignored,
    /// While pairing, the buzzer went to the awaited team (of the given color); `modified`
    /// holds the teams that changed.
    Paired { team_id: u128, color: TeamColor, modified: Vec<(u128, Team)> },
    /// While playing, gameplay paused on this buzz; `patterns` are the lights to set.
    Paused { patterns: Vec<(String, BuzzerPatternPreset)> },
}

/// Handle a buzz of buzzer `buzzer_id`.
///
/// - Preparation, ready: the team holding the buzzer makes a test buzz; with no such team and
///   every team paired, a new team is created with this buzzer (new random identifier,
///   current time, default name, score and color); otherwise the buzz is ignored.
/// - Pairing: the buzzer goes to the awaited team and leaves any other team (see
///   [`assign_buzzer`]); pairing itself moves on in [`complete_pairing_step`], once the
///   buzzer has been told.
/// - Playing: a buzzer that no team holds is refused; otherwise gameplay pauses on this buzz
///   and every paired buzzer gets its light.
/// - Any other phase: refused.
pub fn handle_buzz(phase: &mut GamePhase, game: &mut GameSession, config: &AppConfig, buzzer_id: &String) -> (r: Result<BuzzOutcome, BuzzError>)
    requires
        team_entries(old(game).teams).len() < usize::MAX,
    ensures
        match *old(phase) {
            GamePhase::GameRunning(GameRunningPhase::Prep(PrepStatus::Ready)) => {
                &&& *final(phase) == *old(phase)
                &&& match holder_of(team_entries(old(game).teams), buzzer_id@) {
                    Some(id) => (r matches Ok(BuzzOutcome::TestBuzz { team_id }) && team_id == id) && *final(game) == *old(game),
                    None => if all_paired(team_entries(old(game).teams)) {
                        r matches Ok(BuzzOutcome::TeamCreated { team_id, team }) && team.buzzer_id == Some(*buzzer_id)
                            && team.name@ == crate::teams::default_team_name(team_entries(old(game).teams).len())
                            && team.score == 0
                            && team.color == crate::config::first_unused(config.colors@, crate::teams::colors_of(team_entries(old(game).teams)))
                            && team_entries(final(game).teams) == crate::teams::inserted(team_entries(old(game).teams), team_id, team)
                            && crate::teams::same_but_teams(*old(game), *final(game))
                    } else {
                        (r matches Ok(BuzzOutcome::Ignored)) && *final(game) == *old(game)
                    },
                }
            },
            GamePhase::GameRunning(GameRunningPhase::Prep(PrepStatus::Pairing(s))) => {
                let entries = team_entries(old(game).teams);
                &&& *final(phase) == *old(phase)
                &&& if has_key(entries, s.pairing_team_id) {
                    &&& team_entries(final(game).teams) == crate::pairing::assigned(entries, s.pairing_team_id, *buzzer_id)
                    &&& crate::teams::same_but_teams(*old(game), *final(game))
                    &&& r matches Ok(BuzzOutcome::Paired { team_id, color, modified }) && team_id == s.pairing_team_id
                        && color == value_of(entries, s.pairing_team_id).color
                        && modified@ == seq![(team_id, crate::pairing::with_buzzer(value_of(entries, team_id), Some(*buzzer_id)))]
                            + crate::pairing::cleared(entries, team_id, *buzzer_id)
                    &&& crate::laws::buzzers_distinct(entries) ==> crate::laws::buzzers_distinct(team_entries(final(game).teams))
                } else {
                    (r matches Err(BuzzError::Service(e)) && crate::error::refused(e, crate::teams::unknown_team(s.pairing_team_id)))
                        && *final(game) == *old(game)
                }
            },
            GamePhase::GameRunning(GameRunningPhase::Playing) => {
                &&& *final(game) == *old(game)
                &&& if holder_of(team_entries(old(game).teams), buzzer_id@) is None {
                    (r matches Err(BuzzError::UnknownBuzzerId(id)) && id@ == buzzer_id@) && *final(phase) == *old(phase)
                } else {
                    &&& (*final(phase) matches GamePhase::GameRunning(GameRunningPhase::Paused(PauseKind::Buzz { id })) && id@ == buzzer_id@)
                    &&& (r matches Ok(BuzzOutcome::Paused { patterns }) && preset_views(patterns@) == buzz_presets(team_entries(old(game).teams), buzzer_id@))
                }
            },
            _ => (r matches Err(BuzzError::NotRunningPhase)) && *final(phase) == *old(phase) && *final(game) == *old(game),
        },
{
    match phase {
        GamePhase::GameRunning(GameRunningPhase::Prep(PrepStatus::Ready)) => {
            match team_with_buzzer(&game.teams, buzzer_id) {
                Some(team_id) => Ok(BuzzOutcome::TestBuzz { team_id }),
                None => {
                    if all_teams_paired(&game.teams) {
                        let id = new_random_id();
                        let now = current_time();
                        let (team_id, team) = game.add_team(config, id, None, Some(buzzer_id.clone()), None, None, now);
                        Ok(BuzzOutcome::TeamCreated { team_id, team })
                    } else {
                        Ok(BuzzOutcome::Ignored)
                    }
                },
            }
        },
        GamePhase::GameRunning(GameRunningPhase::Prep(PrepStatus::Pairing(session))) => {
            let team_id = session.pairing_team_id;
            match assign_buzzer(game, team_id, buzzer_id) {
                Ok((color, modified)) => Ok(BuzzOutcome::Paired { team_id, color, modified }),
                Err(e) => Err(BuzzError::Service(e)),
            }
        },
        GamePhase::GameRunning(GameRunningPhase::Playing) => {
            if team_with_buzzer(&game.teams, buzzer_id).is_none() {
                return Err(BuzzError::UnknownBuzzerId(buzzer_id.clone()));
            }
            *phase = GamePhase::GameRunning(GameRunningPhase::Paused(PauseKind::Buzz { id: buzzer_id.clone() }));
            let patterns = patterns_after_buzz(&game.teams, buzzer_id);
            Ok(BuzzOutcome::Paused { patterns })
        },
        _ => Err(BuzzError::NotRunningPhase),
    }
}

/// After the buzzer of team `team_id` was paired (and told), move pairing on over the current
/// teams: to the first team without a buzzer, or, when every team has one, back to a ready
/// preparation. Refused when pairing is no longer running or awaits another team.
pub fn complete_pairing_step(phase: &mut GamePhase, game: &GameSession, team_id: u128) -> (r: Result<PairingProgress, BuzzError>)
    ensures
        match *old(phase) {
            GamePhase::GameRunning(GameRunningPhase::Prep(PrepStatus::Pairing(s))) => if s.pairing_team_id == team_id {
                let p = progress_of(team_entries(game.teams));
                &&& r == Ok::<PairingProgress, BuzzError>(p)
                &&& match p {
                    PairingProgress::Finish => *final(phase) == GamePhase::GameRunning(GameRunningPhase::Prep(PrepStatus::Ready)),
                    PairingProgress::Wait(next) => *final(phase) matches GamePhase::GameRunning(
                        GameRunningPhase::Prep(PrepStatus::Pairing(s2)),
                    ) && s2.pairing_team_id == next && s2.snapshot == s.snapshot,
                }
            } else {
                (r matches Err(BuzzError::PairingTargetChanged)) && *final(phase) == *old(phase)
            },
            _ => (r matches Err(BuzzError::PairingSessionLost)) && *final(phase) == *old(phase),
        },
        pairing_snapshot(*final(phase)) is Some ==> pairing_snapshot(*final(phase)) == pairing_snapshot(*old(phase)),
{
    let mut taken = GamePhase::Idle;
    std::mem::swap(&mut taken, phase);
    match taken {
        GamePhase::GameRunning(GameRunningPhase::Prep(PrepStatus::Pairing(session))) => {
            let mut session = session;
            let roster = copy_teams(&game.teams);
            match apply_pairing_update(&mut session, PairingSessionUpdate::Assigned { team_id, roster }) {
                Some(PairingProgress::Finish) => {
                    *phase = GamePhase::GameRunning(GameRunningPhase::Prep(PrepStatus::Ready));
                    Ok(PairingProgress::Finish)
                },
                Some(PairingProgress::Wait(next)) => {
                    *phase = GamePhase::GameRunning(GameRunningPhase::Prep(PrepStatus::Pairing(session)));
                    Ok(PairingProgress::Wait(next))
                },
                None => {
                    *phase = GamePhase::GameRunning(GameRunningPhase::Prep(PrepStatus::Pairing(session)));
                    Err(BuzzError::PairingTargetChanged)
                },
            }
        },
        other => {
            *phase = other;
            Err(BuzzError::PairingSessionLost)
        },
    }
}

} // verus!
