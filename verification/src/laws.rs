//! Properties that hold across the operations of the library.

use vstd::prelude::*;

use crate::collections::{has_key, key_index, keys_unique, value_of};
use crate::config::{first_unused, holds_color};
use crate::couch::{latest_update, teams_by_id, CouchTeamDocument};
use crate::store::next_delay_ms;
use crate::supervisor::{
    connect_next, doubled_delay, supervisor_next, supervisor_well_formed, ConnectAttempts, ConnectDecision, Supervisor,
    SupervisorEvent, SupervisorPhase,
};
use crate::game::{GameSession, Team, TeamColor, Timestamp};
use crate::pairing::{abort_refusal, all_paired, assigned, first_unassigned, pairing_snapshot, progress_of, reassigned, PairingProgress};
use crate::summary::{
    blindtest_answer_summary, hint_summary, multiple_choice_answer_summary, open_answer_summary, team_summaries_of, team_summary,
};
use crate::snapshot::{blindtest_answer_snapshot, hint_snapshot, multiple_choice_answer_snapshot, open_answer_snapshot};
use crate::models::team_summary_entity;
use crate::models::TeamEntity;
use crate::patterns::fallback_color;
use crate::phase::GamePhase;
use crate::play::{game_questions, mark_answer_refusal, next_question_plan, reveal_hint_refusal, with_id};
use crate::models::{in_progress, load_refusal, GameEntity};
use crate::error::Refusal;
use crate::sequence::imported_question;
use crate::input::{BlindTestQuestionInput, MultipleChoiceQuestionInput, OpenQuestionInput, QuestionInput};
use crate::game::{BlindTestAnswer, BlindTestQuestion, Hint, MultipleChoiceAnswer, MultipleChoiceQuestion, OpenAnswer, OpenQuestion, Question};
use crate::text::is_blank_text;
use crate::setup::{buzzers_of, built_entries, input_buzzer_text, team_colors_for, team_of_input, teams_refusal};
use crate::input::TeamInput;
use crate::teams::{holds_buzzer, inserted, removed, updated_team};

verus! {

/// Recording an identifier twice is the same as recording it once, and a recorded identifier
/// is held.
pub proof fn law_recording_is_idempotent(s: Seq<u8>, x: u8)
    ensures
        with_id(with_id(s, x), x) == with_id(s, x),
        with_id(s, x).contains(x),
{
    if !s.contains(x) {
        assert(s.push(x)[s.len() as int] == x);
    }
}

/// Recording an identifier never makes one occur twice.
pub proof fn law_recorded_ids_stay_distinct(s: Seq<u8>, x: u8)
    requires
        s.no_duplicates(),
    ensures
        with_id(s, x).no_duplicates(),
{
    if !s.contains(x) {
        let t = s.push(x);
        assert forall|i: int, j: int| 0 <= i < t.len() && 0 <= j < t.len() && i != j implies t[i] != t[j] by {
            if i == s.len() {
                assert(s[j] == t[j]);
            } else if j == s.len() {
                assert(s[i] == t[i]);
            }
        }
    }
}

/// For a blindtest, no field is at once found as an answer and revealed as a hint: marking an
/// answer that is accepted keeps the two apart.
pub proof fn law_marking_keeps_found_and_revealed_apart(phase: GamePhase, g: GameSession, question_id: u32, answer_id: u8)
    requires
        forall|x: u8| !(g.found_answer_ids@.contains(x) && g.revealed_hint_ids@.contains(x)),
        mark_answer_refusal(phase, g, question_id, answer_id) is None,
        value_of(game_questions(g), question_id)@.is_blindtest(),
    ensures
        forall|x: u8| !(with_id(g.found_answer_ids@, answer_id).contains(x) && g.revealed_hint_ids@.contains(x)),
{
    let found = g.found_answer_ids@;
    if !found.contains(answer_id) {
        assert forall|x: u8| !(found.push(answer_id).contains(x) && g.revealed_hint_ids@.contains(x)) by {
            if found.push(answer_id).contains(x) && x != answer_id {
                let i = choose|i: int| 0 <= i < found.len() + 1 && found.push(answer_id)[i] == x;
                assert(found[i] == x);
            }
        }
    }
}

/// For a blindtest, revealing a hint that is accepted keeps found answers and revealed hints
/// apart.
pub proof fn law_revealing_keeps_found_and_revealed_apart(phase: GamePhase, g: GameSession, question_id: u32, hint_id: u8)
    requires
        forall|x: u8| !(g.found_answer_ids@.contains(x) && g.revealed_hint_ids@.contains(x)),
        reveal_hint_refusal(phase, g, question_id, hint_id) is None,
        value_of(game_questions(g), question_id)@.is_blindtest(),
    ensures
        forall|x: u8| !(g.found_answer_ids@.contains(x) && with_id(g.revealed_hint_ids@, hint_id).contains(x)),
{
    let revealed = g.revealed_hint_ids@;
    if !revealed.contains(hint_id) {
        assert forall|x: u8| !(g.found_answer_ids@.contains(x) && revealed.push(hint_id).contains(x)) by {
            if revealed.push(hint_id).contains(x) && x != hint_id {
                let i = choose|i: int| 0 <= i < revealed.len() + 1 && revealed.push(hint_id)[i] == x;
                assert(revealed[i] == x);
            }
        }
    }
}

/// After a buzzer is paired with a team, that team, and no other, holds it.
pub proof fn law_paired_buzzer_has_one_holder(entries: Seq<(u128, Team)>, team_id: u128, buzzer: String)
    ensures
        forall|j: int| 0 <= j < entries.len() ==> (holds_buzzer(#[trigger] assigned(entries, team_id, buzzer)[j].1, buzzer@)
            <==> assigned(entries, team_id, buzzer)[j].0 == team_id),
        assigned(entries, team_id, buzzer).len() == entries.len(),
        forall|j: int| 0 <= j < entries.len() ==> (#[trigger] assigned(entries, team_id, buzzer)[j]).0 == entries[j].0,
{
}

/// No two teams hold the same buzzer.
pub open spec fn buzzers_distinct(entries: Seq<(u128, Team)>) -> bool {
    forall|i: int, j: int|
        0 <= i < entries.len() && 0 <= j < entries.len() && i != j && (#[trigger] entries[i]).1.buzzer_id is Some
            && (#[trigger] entries[j]).1.buzzer_id is Some ==> entries[i].1.buzzer_id->0@ != entries[j].1.buzzer_id->0@
}

/// Pairing a buzzer with a team keeps buzzers distinct: in a map (no identifier twice) where
/// no two teams share a buzzer, no two share one afterwards either.
pub proof fn law_paired_buzzers_stay_distinct(entries: Seq<(u128, Team)>, team_id: u128, buzzer: String)
    requires
        keys_unique(entries),
        buzzers_distinct(entries),
    ensures
        buzzers_distinct(assigned(entries, team_id, buzzer)),
{
    let a = assigned(entries, team_id, buzzer);
    assert forall|i: int, j: int|
        0 <= i < a.len() && 0 <= j < a.len() && i != j && (#[trigger] a[i]).1.buzzer_id is Some
            && (#[trigger] a[j]).1.buzzer_id is Some implies a[i].1.buzzer_id->0@ != a[j].1.buzzer_id->0@ by {
        assert(a[i] == reassigned(entries[i], team_id, buzzer));
        assert(a[j] == reassigned(entries[j], team_id, buzzer));
        if entries[i].0 == team_id {
            assert(entries[j].0 != team_id);
        } else if entries[j].0 == team_id {
            assert(entries[i].0 != team_id);
        } else {
            assert(entries[i].1.buzzer_id is Some && entries[j].1.buzzer_id is Some);
        }
    }
}

/// Pairing is over exactly when every team has a buzzer; otherwise it waits for a team
/// without one.
pub proof fn law_pairing_finishes_when_all_paired(entries: Seq<(u128, Team)>)
    ensures
        (progress_of(entries) == PairingProgress::Finish) <==> all_paired(entries),
        progress_of(entries) matches PairingProgress::Wait(id) ==> exists|i: int|
            0 <= i < entries.len() && entries[i].0 == id && (#[trigger] entries[i]).1.buzzer_id is None,
    decreases entries.len(),
{
    if entries.len() > 0 {
        let rest = entries.drop_first();
        law_pairing_finishes_when_all_paired(rest);
        if entries[0].1.buzzer_id is Some {
            assert(all_paired(entries) <==> all_paired(rest)) by {
                if all_paired(rest) {
                    assert forall|i: int| 0 <= i < entries.len() implies (#[trigger] entries[i]).1.buzzer_id is Some by {
                        if i > 0 {
                            assert(entries[i] == rest[i - 1]);
                        }
                    }
                }
                if all_paired(entries) {
                    assert forall|i: int| 0 <= i < rest.len() implies (#[trigger] rest[i]).1.buzzer_id is Some by {
                        assert(rest[i] == entries[i + 1]);
                    }
                }
            }
            if first_unassigned(rest) is Some {
                let i = choose|i: int| 0 <= i < rest.len() && rest[i].0 == first_unassigned(rest)->0 && (#[trigger] rest[i]).1.buzzer_id is None;
                assert(entries[i + 1] == rest[i]);
            }
        } else {
            assert(!all_paired(entries)) by {
                assert(entries[0].1.buzzer_id is None);
            }
            assert(entries[0].1.buzzer_id is None);
        }
    }
}

/// A deleted team is gone and every other team stays; nothing else changes order.
pub proof fn law_deleting_removes_only_that_team(entries: Seq<(u128, Team)>, k: u128)
    requires
        keys_unique(entries),
    ensures
        !has_key(removed(entries, k), k),
        forall|k2: u128| k2 != k ==> (has_key(removed(entries, k), k2) <==> has_key(entries, k2)),
        has_key(entries, k) ==> removed(entries, k).len() + 1 == entries.len(),
        !has_key(entries, k) ==> removed(entries, k) == entries,
{
    if has_key(entries, k) {
        let i = key_index(entries, k);
        let after = entries.remove(i);
        assert forall|j: int| 0 <= j < after.len() implies after[j].0 != k by {
            if j < i {
                assert(after[j] == entries[j]);
            } else {
                assert(after[j] == entries[j + 1]);
            }
        }
        assert forall|k2: u128| k2 != k implies (has_key(after, k2) <==> has_key(entries, k2)) by {
            if has_key(entries, k2) {
                let w = choose|w: int| 0 <= w < entries.len() && entries[w].0 == k2;
                if w < i {
                    assert(after[w] == entries[w]);
                } else {
                    assert(w != i);
                    assert(after[w - 1] == entries[w]);
                }
            }
            if has_key(after, k2) {
                let w = choose|w: int| 0 <= w < after.len() && after[w].0 == k2;
                if w < i {
                    assert(after[w] == entries[w]);
                } else {
                    assert(after[w] == entries[w + 1]);
                }
            }
        }
    }
}

/// Putting a team under a known identifier changes that team only; under a new identifier,
/// it is added last.
pub proof fn law_inserting_changes_one_team(entries: Seq<(u128, Team)>, k: u128, v: Team)
    ensures
        has_key(entries, k) ==> inserted(entries, k, v).len() == entries.len() && forall|j: int|
            0 <= j < entries.len() && entries[j].0 != k ==> #[trigger] inserted(entries, k, v)[j] == entries[j],
        !has_key(entries, k) ==> inserted(entries, k, v) == entries.push((k, v)),
{
    if has_key(entries, k) {
        let i = key_index(entries, k);
        assert(entries[i].0 == k);
    }
}

/// The color given to a team without one is a configured color equal to none that a team
/// uses (colors compare as `f32` values), as long as one is left; otherwise white.
pub proof fn law_first_unused_color_is_free(colors: Seq<TeamColor>, used: Seq<TeamColor>)
    ensures
        (exists|i: int| 0 <= i < colors.len() && !holds_color(used, #[trigger] colors[i])) ==> colors.contains(first_unused(colors, used))
            && !holds_color(used, first_unused(colors, used)),
        !(exists|i: int| 0 <= i < colors.len() && !holds_color(used, #[trigger] colors[i])) ==> first_unused(colors, used)
            == fallback_color(),
    decreases colors.len(),
{
    if colors.len() > 0 {
        let rest = colors.drop_first();
        law_first_unused_color_is_free(rest, used);
        if holds_color(used, colors[0]) {
            if exists|i: int| 0 <= i < colors.len() && !holds_color(used, #[trigger] colors[i]) {
                let i = choose|i: int| 0 <= i < colors.len() && !holds_color(used, #[trigger] colors[i]);
                assert(i > 0);
                assert(rest[i - 1] == colors[i]);
                let c = first_unused(rest, used);
                let w = choose|w: int| 0 <= w < rest.len() && rest[w] == c;
                assert(colors[w + 1] == c);
            } else {
                assert forall|i: int| 0 <= i < rest.len() implies holds_color(used, #[trigger] rest[i]) by {
                    assert(rest[i] == colors[i + 1]);
                }
            }
        } else {
            assert(colors[0] == first_unused(colors, used));
        }
    }
}

/// The teams of an accepted game setup have distinct buzzers.
pub proof fn law_accepted_teams_have_distinct_buzzers(inputs: Seq<TeamInput>)
    requires
        teams_refusal(inputs) is None,
    ensures
        buzzers_of(inputs).no_duplicates(),
    decreases inputs.len(),
{
    if inputs.len() > 0 {
        let before = inputs.drop_last();
        assert(teams_refusal(before) is None);
        law_accepted_teams_have_distinct_buzzers(before);
        match input_buzzer_text(inputs.last()) {
            Some(b) => {
                assert(!buzzers_of(before).contains(b));
                let s = buzzers_of(before);
                let t = s.push(b);
                assert forall|i: int, j: int| 0 <= i < t.len() && 0 <= j < t.len() && i != j implies t[i] != t[j] by {
                    if i == s.len() {
                        assert(t[j] == s[j]);
                    } else if j == s.len() {
                        assert(t[i] == s[i]);
                    }
                }
            },
            None => {},
        }
    }
}

/// Rebuilding teams from their documents files each team under its own identifier.
pub proof fn law_rebuilt_teams_match_their_ids(docs: Seq<CouchTeamDocument>, k: u128)
    ensures
        teams_by_id(docs).contains_key(k) ==> teams_by_id(docs)[k].id == k,
    decreases docs.len(),
{
    if docs.len() > 0 {
        law_rebuilt_teams_match_their_ids(docs.drop_last(), k);
    }
}

/// `a` is not before `b`.
pub open spec fn not_before(a: Timestamp, b: Timestamp) -> bool {
    a.secs > b.secs || (a.secs == b.secs && a.nanos >= b.nanos)
}

/// The update time of a rebuilt game is not before the game's own, nor before any of its
/// team documents', and it is one of them.
pub proof fn law_latest_update_is_latest(docs: Seq<CouchTeamDocument>, base: Timestamp)
    ensures
        not_before(latest_update(docs, base), base),
        forall|i: int| 0 <= i < docs.len() ==> not_before(latest_update(docs, base), #[trigger] docs[i].team.updated_at),
        latest_update(docs, base) == base || exists|i: int| 0 <= i < docs.len() && latest_update(docs, base) == #[trigger] docs[i].team.updated_at,
    decreases docs.len(),
{
    if docs.len() > 0 {
        let rest = docs.drop_last();
        law_latest_update_is_latest(rest, base);
        assert forall|i: int| 0 <= i < docs.len() implies not_before(latest_update(docs, base), #[trigger] docs[i].team.updated_at) by {
            if i < docs.len() - 1 {
                assert(docs[i] == rest[i]);
            }
        }
        if latest_update(docs, base) != base && latest_update(docs, base) != docs.last().team.updated_at {
            let i = choose|i: int| 0 <= i < rest.len() && latest_update(rest, base) == #[trigger] rest[i].team.updated_at;
            assert(docs[i] == rest[i]);
        }
    }
}

/// Retry delays grow, doubling, up to five seconds and never beyond.
pub proof fn law_retry_delays_are_capped(current: u64)
    requires
        current <= 5000,
    ensures
        current <= next_delay_ms(current) <= 5000,
        current > 0 && 2 * current <= 5000 ==> next_delay_ms(current) == 2 * current,
{
}

/// After a failed health check the supervisor asks the backend to reconnect at most three
/// times: the first failure switches to degraded mode, the waits double from one second, and
/// after the third failure it connects afresh, having also waited its connection delay, which
/// then doubles (up to ten seconds).
pub proof fn law_reconnection_gives_up_after_three_failures(s: Supervisor)
    requires
        supervisor_well_formed(s),
        s.phase == SupervisorPhase::Monitoring,
    ensures
        ({
            let (s1, a1) = supervisor_next(s, SupervisorEvent::HealthFailed);
            let (s2, a2) = supervisor_next(s1, SupervisorEvent::ReconnectFailed);
            let (s3, a3) = supervisor_next(s2, SupervisorEvent::ReconnectFailed);
            let (s4, a4) = supervisor_next(s3, SupervisorEvent::ReconnectFailed);
            &&& s1.phase is Reconnecting && a1.sleep_ms == 0
            &&& a2.set_degraded == Some(true) && a2.sleep_ms == 1000 && s2.phase is Reconnecting
            &&& a3.set_degraded is None && a3.sleep_ms == 2000 && s3.phase is Reconnecting
            &&& a4.set_degraded is None && a4.sleep_ms == 4000 + s.delay_ms
            &&& s4.phase == SupervisorPhase::Connecting && s4.delay_ms == doubled_delay(s.delay_ms)
        }),
{
}

/// A successful reconnection or health check leaves degraded mode: the first switches it off
/// in any case, the second whenever it is on; a healthy backend that is not degraded is left
/// as it is.
pub proof fn law_health_leaves_degraded_mode(s: Supervisor, degraded: bool)
    requires
        supervisor_well_formed(s),
    ensures
        s.phase is Reconnecting ==> supervisor_next(s, SupervisorEvent::ReconnectSucceeded).1.set_degraded == Some(false)
            && supervisor_next(s, SupervisorEvent::ReconnectSucceeded).0.phase == SupervisorPhase::Monitoring,
        s.phase == SupervisorPhase::Monitoring ==> supervisor_next(s, SupervisorEvent::HealthOk { degraded }).1.set_degraded
            == (if degraded { Some(false) } else { None }),
{
}

/// The supervisor's waits double and never exceed ten seconds, whatever happens.
pub proof fn law_supervisor_waits_are_capped(s: Supervisor, e: SupervisorEvent)
    requires
        supervisor_well_formed(s),
    ensures
        supervisor_well_formed(supervisor_next(s, e).0),
        supervisor_next(s, e).1.sleep_ms <= 20000,
        s.delay_ms <= doubled_delay(s.delay_ms) <= 10000,
{
}

/// The first connection gives up on the tenth failed ping, and not before.
pub proof fn law_connection_gives_up_on_tenth_failure(c: ConnectAttempts)
    requires
        c.failures < 10,
    ensures
        (connect_next(c, false).1 is GiveUp) <==> c.failures == 9,
        c.failures == 9 ==> connect_next(c, false).1 == (ConnectDecision::GiveUp { attempts: 10 }),
        connect_next(c, true).1 == ConnectDecision::Connected,
{
}

/// One color per team input.
proof fn lemma_team_colors_len(inputs: Seq<TeamInput>, palette: Seq<TeamColor>)
    ensures
        team_colors_for(inputs, palette).len() == inputs.len(),
    decreases inputs.len(),
{
    if inputs.len() > 0 {
        lemma_team_colors_len(inputs.drop_last(), palette);
    }
}

/// Built under pairwise distinct identifiers, the teams of a new game are one per input, in
/// input order: the `i`-th is the team of the `i`-th input under the `i`-th identifier.
pub proof fn law_distinct_ids_give_one_team_per_input(
    inputs: Seq<TeamInput>,
    palette: Seq<TeamColor>,
    ids: Seq<u128>,
    times: Seq<Timestamp>,
)
    requires
        ids.len() >= inputs.len(),
        times.len() >= inputs.len(),
        forall|i: int, j: int| 0 <= i < j < inputs.len() ==> ids[i] != ids[j],
    ensures
        built_entries(inputs, palette, ids, times).len() == inputs.len(),
        forall|i: int| 0 <= i < inputs.len() ==> #[trigger] built_entries(inputs, palette, ids, times)[i]
            == (ids[i], team_of_input(inputs[i], team_colors_for(inputs, palette)[i], times[i])),
    decreases inputs.len(),
{
    if inputs.len() > 0 {
        let k = inputs.len() - 1;
        let before = built_entries(inputs.drop_last(), palette, ids, times);
        law_distinct_ids_give_one_team_per_input(inputs.drop_last(), palette, ids, times);
        assert(!has_key(before, ids[k])) by {
            if has_key(before, ids[k]) {
                let w = choose|w: int| 0 <= w < before.len() && before[w].0 == ids[k];
                assert(before[w] == (ids[w], team_of_input(inputs.drop_last()[w], team_colors_for(inputs.drop_last(), palette)[w], times[w])));
            }
        }
        let colors = team_colors_for(inputs, palette);
        let colors_before = team_colors_for(inputs.drop_last(), palette);
        lemma_team_colors_len(inputs.drop_last(), palette);
        assert(colors == colors_before.push(colors[k]));
        assert(built_entries(inputs, palette, ids, times) == before.push((ids[k], team_of_input(inputs[k], colors[k], times[k]))));
        assert forall|i: int| 0 <= i < inputs.len() implies #[trigger] built_entries(inputs, palette, ids, times)[i]
            == (ids[i], team_of_input(inputs[i], team_colors_for(inputs, palette)[i], times[i])) by {
            if i < k {
                assert(before[i] == (ids[i], team_of_input(inputs.drop_last()[i], colors_before[i], times[i])));
                assert(inputs.drop_last()[i] == inputs[i]);
                assert(colors_before[i] == colors[i]);
            }
        }
    }
}

/// Pairing steps that keep pairing running keep the teams stored when it started. So after
/// starting pairing on teams `teams_at_start` and any number of such steps (buzzers paired,
/// no team deleted), aborting is accepted and gives back exactly those teams, and their
/// summaries in order.
pub proof fn law_abort_after_start_restores_teams(teams_at_start: Seq<(u128, Team)>, phases: Seq<GamePhase>)
    requires
        phases.len() > 0,
        pairing_snapshot(phases[0]) == Some(teams_at_start),
        forall|i: int| 0 <= i < phases.len() - 1 ==> #[trigger] pairing_snapshot(phases[i + 1]) is Some
            && pairing_snapshot(phases[i + 1]) == pairing_snapshot(phases[i]),
    ensures
        abort_refusal(phases.last()) is None,
        pairing_snapshot(phases.last()) == Some(teams_at_start),
        team_summaries_of(pairing_snapshot(phases.last())->Some_0) == team_summaries_of(teams_at_start),
    decreases phases.len(),
{
    if phases.len() > 1 {
        let shorter = phases.drop_last();
        assert forall|i: int| 0 <= i < shorter.len() - 1 implies #[trigger] pairing_snapshot(shorter[i + 1]) is Some
            && pairing_snapshot(shorter[i + 1]) == pairing_snapshot(shorter[i]) by {
            assert(pairing_snapshot(phases[i + 1]) is Some);
        }
        law_abort_after_start_restores_teams(teams_at_start, shorter);
        let j = phases.len() - 2;
        assert(pairing_snapshot(phases[j + 1]) is Some);
        assert(shorter.last() == phases[j]);
        assert(phases.last() == phases[j + 1]);
    }
}

/// Importing a blindtest question keeps every submitted answer as it was: the answer at
/// position `k` is found under identifier `k` with the submitted key as its key, the submitted
/// value as its value, and the submitted points and bonus flag.
pub proof fn law_imported_blindtest_answers_keep_their_fields(b: BlindTestQuestionInput, x: BlindTestQuestion, k: u8)
    requires
        imported_question(QuestionInput::BlindTest(b), Question::BlindTest(x)),
        (k as int) < b.answers@.len(),
    ensures
        x.answers@.contains_key(k),
        x.answers@[k].key == b.answers@[k as int].key,
        x.answers@[k].value == b.answers@[k as int].value,
        x.answers@[k].points == b.answers@[k as int].points,
        x.answers@[k].is_bonus == b.answers@[k as int].is_bonus,
        forall|j: u8| #[trigger] x.answers@.contains_key(j) <==> (j as int) < b.answers@.len(),
{
}

/// Starting the game plays the current question again when it was not revealed (the first
/// question when there is none); moving on plays the question right after the current one,
/// or finishes after the last; starting after a revealed last question plays the first one.
pub proof fn law_next_question_positions(current: Option<usize>, length: usize, revealed: bool, start: bool)
    ensures
        start && !revealed ==> next_question_plan(current, length, revealed, start) == Ok::<Option<usize>, Refusal>(
            match current {
                Some(i) => Some(i),
                None => Some(0usize),
            },
        ),
        (!start || revealed) && current is None ==> next_question_plan(current, length, revealed, start) is Err,
        (!start || revealed) ==> forall|i: usize, j: usize| current == Some(i)
            && #[trigger] next_question_plan(current, length, revealed, start) == Ok::<Option<usize>, Refusal>(Some(j))
            ==> (j == i + 1 && j < length) || (start && j == 0 && i + 1 >= length),
        !start && (current matches Some(i) && i + 1 >= length) ==> next_question_plan(current, length, revealed, start)
            == Ok::<Option<usize>, Refusal>(None),
{
}

/// A stored game is in progress exactly when it has a current question that is either
/// revealed but not the last of its order, or not revealed and past the first question.
pub proof fn law_in_progress_exactly_mid_sequence(current: Option<usize>, revealed: bool, order_len: nat)
    requires
        order_len >= 1,
    ensures
        in_progress(current, revealed, order_len) <==> (current matches Some(i) && (
            (revealed && i + 1 < order_len) || (!revealed && i > 0))),
{
}

/// Loading a stored game with shuffling is refused when the game stopped in the middle of its
/// sequence, in particular on a revealed question before the last one.
pub proof fn law_shuffle_refused_mid_sequence(game: GameEntity, i: usize)
    requires
        game.question_order@.len() > 0,
        game.current_question_index == Some(i),
        game.current_question_revealed,
        i + 1 < game.question_order@.len(),
    ensures
        load_refusal(game, true) == Some(Refusal::InvalidInput("shuffle parameter cannot be used: game is already in progress"@)),
        load_refusal(game, false) is None,
{
}

/// A team rebuilt from its documents carries the fields of its last document: its identifier,
/// name, score, color and update time.
pub proof fn law_rebuilt_teams_keep_document_fields(docs: Seq<CouchTeamDocument>, j: int)
    requires
        0 <= j < docs.len(),
        forall|i: int| j < i < docs.len() ==> (#[trigger] docs[i]).team.team_id != docs[j].team.team_id,
    ensures
        teams_by_id(docs).contains_key(docs[j].team.team_id),
        teams_by_id(docs)[docs[j].team.team_id].id == docs[j].team.team_id,
        teams_by_id(docs)[docs[j].team.team_id].name == docs[j].team.name,
        teams_by_id(docs)[docs[j].team.team_id].score == docs[j].team.score,
        teams_by_id(docs)[docs[j].team.team_id].color == docs[j].team.color,
        teams_by_id(docs)[docs[j].team.team_id].updated_at == docs[j].team.updated_at,
    decreases docs.len(),
{
    if j < docs.len() - 1 {
        let shorter = docs.drop_last();
        assert forall|i: int| j < i < shorter.len() implies (#[trigger] shorter[i]).team.team_id != shorter[j].team.team_id by {
            assert(shorter[i] == docs[i]);
        }
        law_rebuilt_teams_keep_document_fields(shorter, j);
        assert(docs.last() == docs[docs.len() - 1]);
    }
}

/// A team made from a submitted team keeps its name, its buzzer and its score (zero when
/// none was given), with the given color and time.
pub proof fn law_team_of_input_keeps_fields(t: TeamInput, color: TeamColor, now: Timestamp)
    ensures
        team_of_input(t, color, now).name == t.name,
        t.score matches Some(v) ==> team_of_input(t, color, now).score == v,
        t.score is None ==> team_of_input(t, color, now).score == 0,
        t.buzzer_id matches Some(Some(b)) ==> team_of_input(t, color, now).buzzer_id == Some(b),
        !(t.buzzer_id matches Some(Some(_))) ==> team_of_input(t, color, now).buzzer_id is None,
        team_of_input(t, color, now).color == color,
        team_of_input(t, color, now).updated_at == now,
{
}

/// Built under pairwise distinct identifiers, the `i`-th team of a new game has the name and
/// the submitted score (zero when none) of the `i`-th input, and the `i`-th time.
pub proof fn law_built_teams_keep_submitted_fields(
    inputs: Seq<TeamInput>,
    palette: Seq<TeamColor>,
    ids: Seq<u128>,
    times: Seq<Timestamp>,
    i: int,
)
    requires
        ids.len() >= inputs.len(),
        times.len() >= inputs.len(),
        forall|a: int, b: int| 0 <= a < b < inputs.len() ==> ids[a] != ids[b],
        0 <= i < inputs.len(),
    ensures
        built_entries(inputs, palette, ids, times)[i].0 == ids[i],
        built_entries(inputs, palette, ids, times)[i].1.name == inputs[i].name,
        inputs[i].score matches Some(v) ==> built_entries(inputs, palette, ids, times)[i].1.score == v,
        inputs[i].score is None ==> built_entries(inputs, palette, ids, times)[i].1.score == 0,
        built_entries(inputs, palette, ids, times)[i].1.updated_at == times[i],
{
    law_distinct_ids_give_one_team_per_input(inputs, palette, ids, times);
    assert(built_entries(inputs, palette, ids, times)[i]
        == (ids[i], team_of_input(inputs[i], team_colors_for(inputs, palette)[i], times[i])));
    law_team_of_input_keeps_fields(inputs[i], team_colors_for(inputs, palette)[i], times[i]);
}

/// Importing a blindtest question keeps its start, duration and URL as submitted.
pub proof fn law_imported_blindtest_question_keeps_its_settings(b: BlindTestQuestionInput, x: BlindTestQuestion)
    requires
        imported_question(QuestionInput::BlindTest(b), Question::BlindTest(x)),
    ensures
        x.starts_at_ms == b.starts_at_ms,
        x.guess_duration_ms == b.guess_duration_ms,
        x.url == b.url,
{
}

/// Importing a multiple-choice question keeps its duration and prompt, its URL unless blank,
/// each choice's text and correctness, and each hint's text, every one under its position.
pub proof fn law_imported_multiple_choice_question_keeps_its_fields(m: MultipleChoiceQuestionInput, x: MultipleChoiceQuestion)
    requires
        imported_question(QuestionInput::MultipleChoice(m), Question::MultipleChoice(x)),
    ensures
        x.guess_duration_ms == m.guess_duration_ms,
        x.prompt == m.prompt,
        m.url is None ==> x.url is None,
        forall|u: String| m.url == Some(u) ==> (x.url == (if is_blank_text(u@) { None } else { Some(u) })),
        forall|k: u8| #[trigger] x.answers@.contains_key(k) <==> (k as int) < m.answers@.len(),
        forall|k: u8| (k as int) < m.answers@.len() ==> (#[trigger] x.answers@[k]).text == m.answers@[k as int].text
            && x.answers@[k].is_correct == m.answers@[k as int].is_correct,
        forall|k: u8| #[trigger] x.hints@.contains_key(k) <==> (k as int) < m.hints@.len(),
        forall|k: u8| (k as int) < m.hints@.len() ==> (#[trigger] x.hints@[k]).0 == m.hints@[k as int],
{
}

/// Importing an open question keeps its duration and prompt, its URL unless blank, each
/// accepted answer's text and each hint's text, every one under its position.
pub proof fn law_imported_open_question_keeps_its_fields(o: OpenQuestionInput, x: OpenQuestion)
    requires
        imported_question(QuestionInput::Open(o), Question::Open(x)),
    ensures
        x.guess_duration_ms == o.guess_duration_ms,
        x.prompt == o.prompt,
        o.url is None ==> x.url is None,
        forall|u: String| o.url == Some(u) ==> (x.url == (if is_blank_text(u@) { None } else { Some(u) })),
        forall|k: u8| #[trigger] x.answers@.contains_key(k) <==> (k as int) < o.answers@.len(),
        forall|k: u8| (k as int) < o.answers@.len() ==> (#[trigger] x.answers@[k]).text == o.answers@[k as int].text,
        forall|k: u8| #[trigger] x.hints@.contains_key(k) <==> (k as int) < o.hints@.len(),
        forall|k: u8| (k as int) < o.hints@.len() ==> (#[trigger] x.hints@[k]).0 == o.hints@[k as int],
{
}

/// Updating a team takes the submitted name, and the submitted buzzer, score and color where
/// given (the team's own elsewhere), and stamps it with the update time.
pub proof fn law_update_takes_given_fields(t: Team, input: TeamInput, now: Timestamp)
    ensures
        updated_team(t, input, now).name == input.name,
        input.score matches Some(v) ==> updated_team(t, input, now).score == v,
        input.score is None ==> updated_team(t, input, now).score == t.score,
        input.buzzer_id matches Some(b) ==> updated_team(t, input, now).buzzer_id == b,
        input.buzzer_id is None ==> updated_team(t, input, now).buzzer_id == t.buzzer_id,
        input.color matches Some(c) ==> updated_team(t, input, now).color == c,
        input.color is None ==> updated_team(t, input, now).color == t.color,
        updated_team(t, input, now).updated_at == now,
{
}

/// The summary of a team shows its identifier, buzzer, name, score and color.
pub proof fn law_team_summary_shows_the_team(id: u128, t: Team)
    ensures
        team_summary(id, t).id == id,
        team_summary(id, t).buzzer_id == t.buzzer_id,
        team_summary(id, t).name == t.name,
        team_summary(id, t).score == t.score,
        team_summary(id, t).color == t.color,
{
}

/// The stored summary of a team shows its identifier and name.
pub proof fn law_team_summary_entity_shows_the_team(t: TeamEntity)
    ensures
        team_summary_entity(t).id == t.id,
        team_summary_entity(t).name == t.name,
{
}

/// Summaries and snapshots of answers and hints show their fields as they are.
pub proof fn law_answer_views_keep_fields(a: BlindTestAnswer, m: MultipleChoiceAnswer, o: OpenAnswer, h: Hint)
    ensures
        blindtest_answer_summary(a).key == a.key && blindtest_answer_summary(a).value == a.value,
        blindtest_answer_summary(a).points == a.points && blindtest_answer_summary(a).is_bonus == a.is_bonus,
        blindtest_answer_snapshot(a).key == a.key && blindtest_answer_snapshot(a).value == a.value,
        blindtest_answer_snapshot(a).points == a.points && blindtest_answer_snapshot(a).is_bonus == a.is_bonus,
        multiple_choice_answer_summary(m).text == m.text && multiple_choice_answer_summary(m).is_correct == m.is_correct,
        multiple_choice_answer_snapshot(m).text == m.text && multiple_choice_answer_snapshot(m).is_correct == m.is_correct,
        open_answer_summary(o).text == o.text,
        open_answer_snapshot(o).text == o.text,
        hint_summary(h).text == h.0,
        hint_snapshot(h).text == h.0,
{
}

} // verus!
