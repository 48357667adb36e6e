//! Conversion of playlists in the older format into questions sequences: every song becomes
//! a blindtest question whose answers are its regular fields followed by its bonus fields.

use vstd::prelude::*;
use vstd::std_specs::convert::FromSpecImpl;

use crate::input::{
    BlindTestAnswerInput, BlindTestQuestionInput, CreateGameWithQuestionsSequenceRequest,
    LegacyCreateGameWithPlaylistRequest, LegacyPlaylistInput, LegacyPointFieldInput,
    LegacySongInput, QuestionInput, QuestionsSequenceInput,
};

verus! {

/// Answer made from a field of a song, marked as bonus or not.
pub open spec fn field_answer(f: LegacyPointFieldInput, is_bonus: bool) -> BlindTestAnswerInput {
    BlindTestAnswerInput { key: f.key, value: f.value, points: f.points, is_bonus }
}

/// Answers made from a list of fields, all marked `is_bonus`.
pub open spec fn field_answers(fields: Seq<LegacyPointFieldInput>, is_bonus: bool) -> Seq<BlindTestAnswerInput> {
    fields.map_values(|f: LegacyPointFieldInput| field_answer(f, is_bonus))
}

/// `q` is the blindtest question made from `song`: same timing and URL, answers being the
/// regular fields (not bonus) followed by the bonus fields (bonus), in order.
pub open spec fn converted_song(song: LegacySongInput, q: QuestionInput) -> bool {
    q matches QuestionInput::BlindTest(b) && b.starts_at_ms == song.starts_at_ms
        && b.guess_duration_ms == song.guess_duration_ms && b.url == song.url && b.answers@
        == field_answers(song.point_fields@, false) + field_answers(song.bonus_fields@, true)
}

/// `out` is the questions sequence made from the playlist `p`: same name, one converted
/// question per song, in order.
pub open spec fn converted_playlist(p: LegacyPlaylistInput, out: QuestionsSequenceInput) -> bool {
    &&& out.name == p.name
    &&& out.questions.len() == p.songs.len()
    &&& forall|i: int| 0 <= i < p.songs.len() ==> converted_song(p.songs[i], #[trigger] out.questions[i])
}

/// Move the fields of `fields` onto `answers`, marked `is_bonus`.
fn push_field_answers(answers: &mut Vec<BlindTestAnswerInput>, fields: Vec<LegacyPointFieldInput>, is_bonus: bool)
    ensures
        final(answers)@ == old(answers)@ + field_answers(fields@, is_bonus),
{
    let ghost start = answers@;
    let ghost all = fields@;
    let n = fields.len();
    let mut rest = fields;
    let mut k: usize = 0;
    while k < n
        invariant
            n == all.len(),
            k <= n,
            rest@ == all.skip(k as int),
            answers@ == start + field_answers(all.take(k as int), is_bonus),
        decreases n - k,
    {
        let field = rest.remove(0);
        assert(field == all[k as int]);
        answers.push(BlindTestAnswerInput {
            key: field.key,
            value: field.value,
            points: field.points,
            is_bonus,
        });
        assert(field_answers(all.take(k + 1), is_bonus) =~= field_answers(all.take(k as int), is_bonus).push(field_answer(all[k as int], is_bonus)));
        assert(rest@ =~= all.skip(k + 1));
        k = k + 1;
    }
    assert(all.take(n as int) =~= all);
}

/// Blindtest question made from a song.
pub fn convert_song(song: LegacySongInput) -> (q: QuestionInput)
    ensures
        converted_song(song, q),
{
    let mut answers: Vec<BlindTestAnswerInput> = Vec::new();
    push_field_answers(&mut answers, song.point_fields, false);
    push_field_answers(&mut answers, song.bonus_fields, true);
    assert(answers@ =~= field_answers(song.point_fields@, false) + field_answers(song.bonus_fields@, true));
    QuestionInput::BlindTest(BlindTestQuestionInput {
        starts_at_ms: song.starts_at_ms,
        guess_duration_ms: song.guess_duration_ms,
        url: song.url,
        answers,
    })
}

/// The converted value holds vectors built at run time, which no spec value can construct;
/// the conversion is specified by `converted_playlist` instead.
impl FromSpecImpl<LegacyPlaylistInput> for QuestionsSequenceInput {
    open spec fn obeys_from_spec() -> bool {
        false
    }

    open spec fn from_spec(v: LegacyPlaylistInput) -> QuestionsSequenceInput {
        arbitrary()
    }
}

impl From<LegacyPlaylistInput> for QuestionsSequenceInput {
    /// One blindtest question per song, in order.
    fn from(value: LegacyPlaylistInput) -> (out: QuestionsSequenceInput)
        ensures
            converted_playlist(value, out),
    {
        let LegacyPlaylistInput { name, songs } = value;
        let ghost all = songs@;
        let n = songs.len();
        let mut rest = songs;
        let mut questions: Vec<QuestionInput> = Vec::new();
        let mut k: usize = 0;
        while k < n
            invariant
                n == all.len(),
                all == value.songs@,
                k <= n,
                rest@ == all.skip(k as int),
                questions.len() == k,
                forall|i: int| 0 <= i < k ==> converted_song(all[i], #[trigger] questions@[i]),
            decreases n - k,
        {
            let song = rest.remove(0);
            assert(song == all[k as int]);
            questions.push(convert_song(song));
            assert(rest@ =~= all.skip(k + 1));
            k = k + 1;
        }
        QuestionsSequenceInput { name, questions }
    }
}

/// The converted value holds vectors built at run time, which no spec value can construct;
/// the conversion is specified in the `ensures` of `from` instead.
impl FromSpecImpl<LegacyCreateGameWithPlaylistRequest> for CreateGameWithQuestionsSequenceRequest {
    open spec fn obeys_from_spec() -> bool {
        false
    }

    open spec fn from_spec(v: LegacyCreateGameWithPlaylistRequest) -> CreateGameWithQuestionsSequenceRequest {
        arbitrary()
    }
}

impl From<LegacyCreateGameWithPlaylistRequest> for CreateGameWithQuestionsSequenceRequest {
    /// Same name and teams; the playlist becomes a questions sequence.
    fn from(value: LegacyCreateGameWithPlaylistRequest) -> (out: CreateGameWithQuestionsSequenceRequest)
        ensures
            out.name == value.name,
            out.teams == value.teams,
            converted_playlist(value.playlist, out.questions_sequence),
    {
        CreateGameWithQuestionsSequenceRequest {
            name: value.name,
            teams: value.teams,
            questions_sequence: QuestionsSequenceInput::from(value.playlist),
        }
    }
}

} // verus!
