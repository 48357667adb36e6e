//! Setting up a game: the checks made before one is created or loaded, its teams, and the
//! shuffling of its questions.

use indexmap::IndexMap;
use rand::seq::SliceRandom;
use vstd::prelude::*;
use vstd::string::*;

use crate::collections::{question_entries, question_map_len, team_entries};
use crate::config::{first_unused, AppConfig};
use crate::error::{joined3, refused, Refusal, ServiceError};
use crate::game::{GameSession, QuestionsSequence, Team, TeamColor, Timestamp};
use crate::ids::{current_time, hyphenated_uuid, new_random_id, uuid_text};
use crate::input::TeamInput;
use crate::pairing::{all_paired, all_teams_paired};
use crate::phase::{GamePhase, GameRunningPhase, PrepStatus};
use crate::teams::{duplicate_buzzer, input_buzzer, inserted, insert_team};
use crate::text::{is_blank, is_blank_text};

verus! {

/// Refuse to set up a game unless no game is running.
pub fn ensure_idle(phase: &GamePhase) -> (r: Result<(), ServiceError>)
    ensures
        *phase is Idle ==> r is Ok,
        !(*phase is Idle) ==> (r matches Err(e) && refused(e, Refusal::InvalidState("game can only be bootstrapped while idle"@))),
{
    match phase {
        GamePhase::Idle => Ok(()),
        _ => Err(ServiceError::InvalidState(String::from_str("game can only be bootstrapped while idle"))),
    }
}

/// Why a game named `name` cannot be created in `phase`, before its teams are looked at.
pub open spec fn new_game_refusal(phase: GamePhase, name: Seq<char>) -> Option<Refusal> {
    if !(phase is Idle) {
        Some(Refusal::InvalidState("game can only be bootstrapped while idle"@))
    } else if is_blank_text(name) {
        Some(Refusal::InvalidInput("game name must not be empty"@))
    } else {
        None
    }
}

/// Check that a game named `name` can be created in `phase`.
pub fn check_new_game(phase: &GamePhase, name: &String) -> (r: Result<(), ServiceError>)
    ensures
        match new_game_refusal(*phase, name@) {
            Some(f) => (r matches Err(e) && refused(e, f)),
            None => r is Ok,
        },
{
    ensure_idle(phase)?;
    if is_blank(name.as_str()) {
        return Err(ServiceError::InvalidInput(String::from_str("game name must not be empty")));
    }
    Ok(())
}

/// Refuse a questions sequence without questions.
pub fn ensure_sequence_not_empty(question_count: usize) -> (r: Result<(), ServiceError>)
    ensures
        question_count > 0 ==> r is Ok,
        question_count == 0 ==> (r matches Err(e) && refused(e, Refusal::InvalidInput("questions sequence must contain at least one question"@))),
{
    if question_count == 0 {
        return Err(ServiceError::InvalidInput(String::from_str("questions sequence must contain at least one question")));
    }
    Ok(())
}

/// Questions sequence of a new game: the one submitted with it; else the stored one under
/// `questions_sequence_id`, where `stored` is what the storage lookup found; refused as
/// unknown when neither exists.
pub fn resolve_questions_sequence(
    questions_sequence_id: u128,
    submitted: Option<QuestionsSequence>,
    stored: Option<QuestionsSequence>,
) -> (r: Result<QuestionsSequence, ServiceError>)
    ensures
        submitted is Some ==> r == Ok::<QuestionsSequence, ServiceError>(submitted->Some_0),
        submitted is None && stored is Some ==> r == Ok::<QuestionsSequence, ServiceError>(stored->Some_0),
        submitted is None && stored is None ==> (r matches Err(e) && refused(
            e,
            Refusal::NotFound("questions sequence `"@ + hyphenated_uuid(questions_sequence_id) + "` not found"@),
        )),
{
    match submitted {
        Some(sequence) => Ok(sequence),
        None => match stored {
            Some(sequence) => Ok(sequence),
            None => Err(ServiceError::NotFound(joined3(
                "questions sequence `",
                uuid_text(questions_sequence_id).as_str(),
                "` not found",
            ))),
        },
    }
}

/// Buzzer of a team input, by its text.
pub open spec fn input_buzzer_text(t: TeamInput) -> Option<Seq<char>> {
    match t.buzzer_id {
        Some(Some(b)) => Some(b@),
        _ => None,
    }
}

/// Buzzers of team inputs, in order.
pub open spec fn buzzers_of(inputs: Seq<TeamInput>) -> Seq<Seq<char>>
    decreases inputs.len(),
{
    if inputs.len() == 0 {
        Seq::empty()
    } else {
        match input_buzzer_text(inputs.last()) {
            Some(b) => buzzers_of(inputs.drop_last()).push(b),
            None => buzzers_of(inputs.drop_last()),
        }
    }
}

/// Why the last of `inputs` is refused, the others being accepted: a buzzer that an earlier
/// team has, then a blank name.
pub open spec fn last_input_refusal(inputs: Seq<TeamInput>) -> Option<Refusal> {
    let t = inputs.last();
    match input_buzzer_text(t) {
        Some(b) => if buzzers_of(inputs.drop_last()).contains(b) {
            Some(duplicate_buzzer(b))
        } else if is_blank_text(t.name@) {
            Some(Refusal::InvalidInput("team name must not be empty"@))
        } else {
            None
        },
        None => if is_blank_text(t.name@) {
            Some(Refusal::InvalidInput("team name must not be empty"@))
        } else {
            None
        },
    }
}

/// Refusal of the first refused team input, if any.
pub open spec fn teams_refusal(inputs: Seq<TeamInput>) -> Option<Refusal>
    decreases inputs.len(),
{
    if inputs.len() == 0 {
        None
    } else {
        match teams_refusal(inputs.drop_last()) {
            Some(f) => Some(f),
            None => last_input_refusal(inputs),
        }
    }
}

/// Colors given to the teams of `inputs`: its own color, else the first color of `palette`
/// that no earlier team has.
pub open spec fn team_colors_for(inputs: Seq<TeamInput>, palette: Seq<TeamColor>) -> Seq<TeamColor>
    decreases inputs.len(),
{
    if inputs.len() == 0 {
        Seq::empty()
    } else {
        let before = team_colors_for(inputs.drop_last(), palette);
        before.push(
            match inputs.last().color {
                Some(c) => c,
                None => first_unused(palette, before),
            },
        )
    }
}

/// The team made from an input, with its color and time.
pub open spec fn team_of_input(t: TeamInput, color: TeamColor, now: Timestamp) -> Team {
    Team {
        buzzer_id: input_buzzer(t.buzzer_id),
        name: t.name,
        score: match t.score {
            Some(v) => v,
            None => 0i32,
        },
        color,
        updated_at: now,
    }
}

/// Entries of the map built by inserting, in order, the team of each input under its
/// identifier.
pub open spec fn built_entries(inputs: Seq<TeamInput>, palette: Seq<TeamColor>, ids: Seq<u128>, times: Seq<Timestamp>) -> Seq<(u128, Team)>
    decreases inputs.len(),
{
    if inputs.len() == 0 {
        Seq::empty()
    } else {
        let k = inputs.len() - 1;
        inserted(
            built_entries(inputs.drop_last(), palette, ids, times),
            ids[k],
            team_of_input(inputs[k], team_colors_for(inputs, palette)[k], times[k]),
        )
    }
}

/// Texts of strings.
pub open spec fn texts_of(v: Seq<String>) -> Seq<Seq<char>> {
    v.map_values(|s: String| s@)
}

/// Whether `seen` holds `b`.
fn seen_contains(seen: &Vec<String>, b: &String) -> (r: bool)
    ensures
        r == texts_of(seen@).contains(b@),
{
    let mut i: usize = 0;
    while i < seen.len()
        invariant
            i <= seen@.len(),
            forall|j: int| 0 <= j < i ==> seen@[j]@ != b@,
        decreases seen@.len() - i,
    {
        if seen[i] == *b {
            assert(texts_of(seen@)[i as int] == b@);
            return true;
        }
        i = i + 1;
    }
    assert(!texts_of(seen@).contains(b@)) by {
        assert forall|j: int| 0 <= j < seen@.len() implies #[trigger] texts_of(seen@)[j] != b@ by {}
    }
    false
}

/// Build the teams of a new game from inputs, under the identifiers `ids` and stamped with
/// `times`, in order. A buzzer used by an earlier team, or a blank name, is refused (the first
/// refused team decides). A team without a color gets the first configured color that no
/// earlier team has; without a score it starts at zero.
pub fn build_teams_with(inputs: Vec<TeamInput>, config: &AppConfig, ids: &Vec<u128>, times: &Vec<Timestamp>) -> (r: Result<IndexMap<u128, Team>, ServiceError>)
    requires
        ids@.len() == inputs@.len(),
        times@.len() == inputs@.len(),
    ensures
        match teams_refusal(inputs@) {
            Some(f) => (r matches Err(e) && refused(e, f)),
            None => (r matches Ok(m) && team_entries(m) == built_entries(inputs@, config.colors@, ids@, times@)),
        },
        teams_refusal(inputs@) is None && (forall|a: int, b: int| 0 <= a < b < inputs@.len() ==> ids@[a] != ids@[b])
            ==> (r matches Ok(m) && team_entries(m).len() == inputs@.len() && forall|i: int| 0 <= i < inputs@.len()
            ==> (#[trigger] team_entries(m)[i]).0 == ids@[i] && team_entries(m)[i].1.name == inputs@[i].name
                && team_entries(m)[i].1.score == (match inputs@[i].score {
                    Some(v) => v,
                    None => 0i32,
                })),
{
    let ghost all = inputs@;
    let n = inputs.len();
    let mut rest = inputs;
    let mut seen: Vec<String> = Vec::new();
    let mut used_colors: Vec<TeamColor> = Vec::new();
    let mut teams = crate::collections::team_map_new();
    let mut i: usize = 0;
    while i < n
        invariant
            n == all.len(),
            all == inputs@,
            ids@.len() == n,
            times@.len() == n,
            i <= n,
            rest@ == all.skip(i as int),
            teams_refusal(all.take(i as int)) is None,
            texts_of(seen@) == buzzers_of(all.take(i as int)),
            used_colors@ == team_colors_for(all.take(i as int), config.colors@),
            used_colors@.len() == i,
            team_entries(teams) == built_entries(all.take(i as int), config.colors@, ids@, times@),
        decreases n - i,
    {
        let team = rest.remove(0);
        proof {
            assert(all.skip(i as int)[0] == team);
            assert(all.skip(i as int).drop_first() =~= all.skip(i + 1));
            assert(all.take(i + 1).drop_last() =~= all.take(i as int));
            assert(all.take(i + 1).last() == team);
        }
        let TeamInput { name, buzzer_id, score, color } = team;
        let buzzer = match buzzer_id {
            Some(b) => b,
            None => None,
        };
        if let Some(b) = &buzzer {
            if seen_contains(&seen, b) {
                proof {
                    lemma_refusal_extends(all, i as int);
                    assert(input_buzzer_text(all.take(i + 1).last()) == Some(b@));
                    assert(buzzers_of(all.take(i + 1).drop_last()).contains(b@));
                    assert(last_input_refusal(all.take(i + 1)) == Some(duplicate_buzzer(b@)));
                }
                return Err(ServiceError::InvalidInput(joined3("duplicate buzzer id `", b.as_str(), "` detected")));
            }
            seen.push(b.clone());
        }
        if is_blank(name.as_str()) {
            proof {
                lemma_refusal_extends(all, i as int);
                assert(all.take(i + 1).last().name@ == name@);
                assert(last_input_refusal(all.take(i + 1)) == Some(Refusal::InvalidInput("team name must not be empty"@)));
            }
            return Err(ServiceError::InvalidInput(String::from_str("team name must not be empty")));
        }
        let ghost colors_before = used_colors@;
        let chosen = match color {
            Some(c) => c,
            None => config.first_unused_color(used_colors.as_slice()),
        };
        used_colors.push(chosen);
        let new_team = Team { buzzer_id: buzzer, name, score: match score {
            Some(v) => v,
            None => 0,
        }, color: chosen, updated_at: times[i] };
        proof {
            assert(texts_of(seen@) =~= buzzers_of(all.take(i + 1)));
            assert(team_colors_for(all.take(i + 1), config.colors@) == colors_before.push(chosen));
            assert(team_colors_for(all.take(i + 1), config.colors@)[i as int] == chosen);
        }
        insert_team(&mut teams, ids[i], new_team);
        i = i + 1;
    }
    proof {
        assert(all.take(n as int) =~= all);
        if forall|a: int, b: int| 0 <= a < b < all.len() ==> ids@[a] != ids@[b] {
            crate::laws::law_distinct_ids_give_one_team_per_input(all, config.colors@, ids@, times@);
            assert forall|i: int| 0 <= i < all.len() implies (#[trigger] team_entries(teams)[i]).0 == ids@[i]
                && team_entries(teams)[i].1.name == all[i].name
                && team_entries(teams)[i].1.score == (match all[i].score {
                    Some(v) => v,
                    None => 0i32,
                }) by {
                crate::laws::law_built_teams_keep_submitted_fields(all, config.colors@, ids@, times@, i);
            }
        }
    }
    Ok(teams)
}

/// A refusal found for the inputs up to position `i` is the first refusal of all inputs.
proof fn lemma_refusal_extends(all: Seq<TeamInput>, i: int)
    requires
        0 <= i < all.len(),
        teams_refusal(all.take(i)) is None,
    ensures
        teams_refusal(all.take(i + 1)) == last_input_refusal(all.take(i + 1)),
        last_input_refusal(all.take(i + 1)) is Some ==> teams_refusal(all) == last_input_refusal(all.take(i + 1)),
{
    assert(all.take(i + 1).drop_last() =~= all.take(i));
    if last_input_refusal(all.take(i + 1)) is Some {
        lemma_refusal_prefix(all, i + 1);
    }
}

/// A refusal of a prefix of the inputs is the refusal of all of them.
proof fn lemma_refusal_prefix(all: Seq<TeamInput>, k: int)
    requires
        0 <= k <= all.len(),
        teams_refusal(all.take(k)) is Some,
    ensures
        teams_refusal(all) == teams_refusal(all.take(k)),
    decreases all.len() - k,
{
    if k < all.len() {
        assert(all.drop_last().take(k) =~= all.take(k));
        lemma_refusal_prefix(all.drop_last(), k);
    } else {
        assert(all.take(k) =~= all);
    }
}

/// Build the teams of a new game (see [`build_teams_with`]), each under a new random
/// identifier and stamped with the current time.
pub fn build_teams(inputs: Vec<TeamInput>, config: &AppConfig) -> (r: Result<IndexMap<u128, Team>, ServiceError>)
    ensures
        match teams_refusal(inputs@) {
            Some(f) => (r matches Err(e) && refused(e, f)),
            None => (r matches Ok(m) && exists|ids: Seq<u128>, times: Seq<Timestamp>|
                ids.len() == inputs@.len() && times.len() == inputs@.len()
                    && team_entries(m) == built_entries(inputs@, config.colors@, ids, times)),
        },
{
    let n = inputs.len();
    let mut ids: Vec<u128> = Vec::new();
    let mut times: Vec<Timestamp> = Vec::new();
    let mut i: usize = 0;
    while i < n
        invariant
            i <= n,
            ids@.len() == i,
            times@.len() == i,
        decreases n - i,
    {
        ids.push(new_random_id());
        times.push(current_time());
        i = i + 1;
    }
    let r = build_teams_with(inputs, config, &ids, &times);
    proof {
        if teams_refusal(inputs@) is None {
            assert(team_entries(r->Ok_0) == built_entries(inputs@, config.colors@, ids@, times@));
        }
    }
    r
}

/// Why a new game cannot be set up from a questions sequence, if it cannot: refused as
/// unknown when none was submitted nor found in storage, and refused when it has no question.
pub open spec fn sequence_refusal(
    questions_sequence_id: u128,
    submitted: Option<QuestionsSequence>,
    stored: Option<QuestionsSequence>,
) -> Option<Refusal> {
    let chosen = match submitted {
        Some(s) => Some(s),
        None => stored,
    };
    match chosen {
        None => Some(Refusal::NotFound("questions sequence `"@ + hyphenated_uuid(questions_sequence_id) + "` not found"@)),
        Some(s) => if question_entries(s.questions).len() == 0 {
            Some(Refusal::InvalidInput("questions sequence must contain at least one question"@))
        } else {
            None
        },
    }
}

/// Everything a new game is made of, checked in order: the phase and the name, then the teams
/// (built as [`build_teams`] does), then the questions sequence (the submitted one, else the
/// one that the storage lookup found, `stored`), which must hold a question. Returns the
/// teams and the sequence; nothing else changes.
pub fn prepare_new_game(
    phase: &GamePhase,
    config: &AppConfig,
    name: &String,
    teams: Vec<TeamInput>,
    questions_sequence_id: u128,
    submitted: Option<QuestionsSequence>,
    stored: Option<QuestionsSequence>,
) -> (r: Result<(IndexMap<u128, Team>, QuestionsSequence), ServiceError>)
    ensures
        match new_game_refusal(*phase, name@) {
            Some(f) => (r matches Err(e) && refused(e, f)),
            None => match teams_refusal(teams@) {
                Some(f) => (r matches Err(e) && refused(e, f)),
                None => match sequence_refusal(questions_sequence_id, submitted, stored) {
                    Some(f) => (r matches Err(e) && refused(e, f)),
                    None => r matches Ok(v) && v.1 == (match submitted {
                        Some(q) => q,
                        None => stored->Some_0,
                    }) && exists|ids: Seq<u128>, times: Seq<Timestamp>|
                        ids.len() == teams@.len() && times.len() == teams@.len()
                            && team_entries(v.0) == built_entries(teams@, config.colors@, ids, times),
                },
            },
        },
{
    check_new_game(phase, name)?;
    let built = build_teams(teams, config)?;
    let sequence = resolve_questions_sequence(questions_sequence_id, submitted, stored)?;
    ensure_sequence_not_empty(question_map_len(&sequence.questions))?;
    Ok((built, sequence))
}

/// `rand`'s `SliceRandom::shuffle` with the thread-local generator: the elements end up in an
/// order that chance decides; the same elements remain, as many times each.
#[verifier::external_body]
fn shuffle_ids(order: &mut Vec<u32>)
    ensures
        final(order)@.to_multiset() == old(order)@.to_multiset(),
        final(order)@.len() == old(order)@.len(),
{
    let mut rng = rand::rng();
    order.shuffle(&mut rng);
}

/// Shuffle the play order of a game and refresh its update time; the same questions remain,
/// as many times each. The order is chance's and the new update time a reading of the clock,
/// of which only that its nanoseconds stay below one second is known.
pub fn shuffle_question_order(game: &mut GameSession)
    ensures
        final(game).question_order@.to_multiset() == old(game).question_order@.to_multiset(),
        final(game).updated_at.nanos < 1_000_000_000,
        final(game).question_order@.len() == old(game).question_order@.len(),
        final(game).id == old(game).id,
        final(game).name == old(game).name,
        final(game).created_at == old(game).created_at,
        final(game).teams == old(game).teams,
        final(game).questions_sequence == old(game).questions_sequence,
        final(game).current_question_index == old(game).current_question_index,
        final(game).current_question_revealed == old(game).current_question_revealed,
        final(game).found_answer_ids == old(game).found_answer_ids,
        final(game).revealed_hint_ids == old(game).revealed_hint_ids,
{
    shuffle_ids(&mut game.question_order);
    game.updated_at = current_time();
}

/// Why a game cannot start, if it cannot: from a ready preparation, it needs teams, each
/// paired with a buzzer. In other phases nothing is checked here.
pub open spec fn start_refusal(phase: GamePhase, g: GameSession) -> Option<Refusal> {
    if phase matches GamePhase::GameRunning(GameRunningPhase::Prep(PrepStatus::Ready)) {
        if team_entries(g.teams).len() == 0 {
            Some(Refusal::InvalidInput("cannot start a game without at least one team"@))
        } else if !all_paired(team_entries(g.teams)) {
            Some(Refusal::InvalidState("cannot start game while unpaired teams remain"@))
        } else {
            None
        }
    } else {
        None
    }
}

/// Check that a game can start (see [`start_refusal`]).
pub fn check_game_start(phase: &GamePhase, game: &GameSession) -> (r: Result<(), ServiceError>)
    ensures
        match start_refusal(*phase, *game) {
            Some(f) => (r matches Err(e) && refused(e, f)),
            None => r is Ok,
        },
{
    match phase {
        GamePhase::GameRunning(GameRunningPhase::Prep(PrepStatus::Ready)) => {
            if crate::collections::team_map_len(&game.teams) == 0 {
                return Err(ServiceError::InvalidInput(String::from_str("cannot start a game without at least one team")));
            }
            if !all_teams_paired(&game.teams) {
                return Err(ServiceError::InvalidState(String::from_str("cannot start game while unpaired teams remain")));
            }
            Ok(())
        },
        _ => Ok(()),
    }
}

/// Whether game `id` may be deleted, and whether the loaded game must be unloaded first:
/// the loaded game can be deleted only while no game runs.
pub fn check_game_deletion(phase: &GamePhase, current_game_id: Option<u128>, id: u128) -> (r: Result<bool, ServiceError>)
    ensures
        current_game_id == Some(id) && !(*phase is Idle) ==> (r matches Err(e) && refused(e, Refusal::InvalidState("cannot delete a game that is currently running"@))),
        current_game_id == Some(id) && *phase is Idle ==> r == Ok::<bool, ServiceError>(true),
        current_game_id != Some(id) ==> r == Ok::<bool, ServiceError>(false),
{
    match current_game_id {
        Some(current) => {
            if current == id {
                match phase {
                    GamePhase::Idle => Ok(true),
                    _ => Err(ServiceError::InvalidState(String::from_str("cannot delete a game that is currently running"))),
                }
            } else {
                Ok(false)
            }
        },
        None => Ok(false),
    }
}

/// Outcome of deleting game `id` from storage: refused as unknown when nothing was deleted.
pub fn deletion_outcome(deleted: bool, id: u128) -> (r: Result<(), ServiceError>)
    ensures
        deleted ==> r is Ok,
        !deleted ==> (r matches Err(e) && refused(e, Refusal::NotFound(crate::models::game_label(id) + " not found"@))),
{
    if deleted {
        Ok(())
    } else {
        let label = joined3("game `", crate::ids::uuid_text(id).as_str(), "`");
        Err(ServiceError::NotFound(crate::error::joined(label.as_str(), " not found")))
    }
}

} // verus!
