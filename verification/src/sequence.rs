//! Building questions sequences from submitted definitions: every question is checked, and
//! answers and hints receive zero-based identifiers in import order.

use std::collections::HashMap;

use indexmap::IndexMap;
use vstd::prelude::*;
use vstd::string::*;

use crate::collections::{question_entries, question_map_insert, question_map_new};
use crate::error::{is_invalid_input, joined, ServiceError};
use crate::game::{
    BlindTestAnswer, BlindTestQuestion, Hint, MultipleChoiceAnswer, MultipleChoiceQuestion,
    OpenAnswer, OpenQuestion, Question, QuestionsSequence,
};
use crate::ids::new_random_id;
use crate::input::{
    BlindTestAnswerInput, MultipleChoiceAnswerInput, OpenAnswerInput, QuestionInput,
    QuestionsSequenceInput,
};
use crate::text::{is_blank, is_blank_text};

verus! {

broadcast use vstd::std_specs::hash::group_hash_axioms;

/// Largest number of answers or hints a question may declare (one per `u8` identifier).
pub const MAX_U8_ENTRIES: usize = 256;

/// Largest number of choices a multiple-choice question may declare.
pub const MAX_MULTIPLE_CHOICE_ANSWERS: usize = 4;

/// First problem met when checking `s` item by item with `problem`, if any.
pub open spec fn first_problem<T>(s: Seq<T>, problem: spec_fn(T) -> Option<Seq<char>>) -> Option<Seq<char>>
    decreases s.len(),
{
    if s.len() == 0 {
        None
    } else {
        match first_problem(s.drop_last(), problem) {
            Some(m) => Some(m),
            None => problem(s.last()),
        }
    }
}

/// A problem found in a prefix is the first problem of the whole sequence.
pub proof fn lemma_first_problem_prefix<T>(s: Seq<T>, k: int, problem: spec_fn(T) -> Option<Seq<char>>)
    requires
        0 <= k <= s.len(),
        first_problem(s.take(k), problem) is Some,
    ensures
        first_problem(s, problem) == first_problem(s.take(k), problem),
    decreases s.len(),
{
    if k < s.len() {
        assert(s.drop_last().take(k) =~= s.take(k));
        lemma_first_problem_prefix(s.drop_last(), k, problem);
    } else {
        assert(s.take(k) =~= s);
    }
}

/// Map from the identifiers `0..s.len()` to the items of `s` converted by `make`.
pub open spec fn numbered<T, U>(s: Seq<T>, make: spec_fn(T) -> U) -> Map<u8, U> {
    Map::new(|k: u8| (k as int) < s.len(), |k: u8| make(s[k as int]))
}

/// Message of the error raised when a collection declares too many entries.
pub open spec fn too_many_entries_message(label: Seq<char>) -> Seq<char> {
    label + " cannot declare more than 256 entries"@
}

/// Assign zero-based `u8` identifiers to `values` in order, converting each one with `build`.
///
/// `build` must behave as `problem` and `make` describe: it fails with the message given by
/// `problem` and otherwise returns `make` of its argument.
pub(crate) fn assign_ids<T, U, F: Fn(T) -> Result<U, ServiceError>>(
    values: Vec<T>,
    label: &str,
    build: F,
    Ghost(problem): Ghost<spec_fn(T) -> Option<Seq<char>>>,
    Ghost(make): Ghost<spec_fn(T) -> U>,
) -> (r: Result<HashMap<u8, U>, ServiceError>)
    requires
        forall|t: T| call_requires(build, (t,)),
        forall|t: T, r: Result<U, ServiceError>|
            call_ensures(build, (t,), r) ==> match r {
                Ok(u) => problem(t) is None && u == make(t),
                Err(e) => (problem(t) matches Some(m) && is_invalid_input(e, m)),
            },
    ensures
        values.len() > MAX_U8_ENTRIES ==> (r matches Err(e) && is_invalid_input(
            e,
            too_many_entries_message(label@),
        )),
        values.len() <= MAX_U8_ENTRIES ==> match first_problem(values@, problem) {
            Some(m) => (r matches Err(e) && is_invalid_input(e, m)),
            None => (r matches Ok(m) && m@ == numbered(values@, make)),
        },
{
    if values.len() > MAX_U8_ENTRIES {
        return Err(ServiceError::InvalidInput(joined(label, " cannot declare more than 256 entries")));
    }
    let ghost all = values@;
    let n = values.len();
    let mut rest = values;
    let mut out: HashMap<u8, U> = HashMap::new();
    let mut i: usize = 0;
    while i < n
        invariant
            n == all.len(),
            all == values@,
            n <= MAX_U8_ENTRIES,
            i <= n,
            rest@ == all.skip(i as int),
            first_problem(all.take(i as int), problem) is None,
            out@ == numbered(all.take(i as int), make),
            forall|t: T| call_requires(build, (t,)),
            forall|t: T, r: Result<U, ServiceError>|
                call_ensures(build, (t,), r) ==> match r {
                    Ok(u) => problem(t) is None && u == make(t),
                    Err(e) => (problem(t) matches Some(m) && is_invalid_input(e, m)),
                },
        decreases n - i,
    {
        let value = rest.remove(0);
        assert(value == all[i as int]);
        assert(all.take(i + 1).drop_last() =~= all.take(i as int));
        match build(value) {
            Ok(built) => {
                out.insert(i as u8, built);
                assert(out@ =~= numbered(all.take(i + 1), make));
            },
            Err(e) => {
                proof {
                    lemma_first_problem_prefix(all, i + 1, problem);
                }
                return Err(e);
            },
        }
        assert(rest@ =~= all.skip(i + 1));
        i = i + 1;
    }
    assert(all.take(n as int) =~= all);
    Ok(out)
}

/// Problem of a submitted blindtest answer: a blank key or a blank value.
pub open spec fn blindtest_answer_problem(a: BlindTestAnswerInput) -> Option<Seq<char>> {
    if is_blank_text(a.key@) {
        Some("blindtest answer key must not be empty"@)
    } else if is_blank_text(a.value@) {
        Some("blindtest answer value must not be empty"@)
    } else {
        None
    }
}

/// Runtime answer made from a submitted blindtest answer.
pub open spec fn blindtest_answer_of(a: BlindTestAnswerInput) -> BlindTestAnswer {
    BlindTestAnswer { key: a.key, value: a.value, points: a.points, is_bonus: a.is_bonus }
}

/// Problem of a submitted multiple-choice answer: a blank text.
pub open spec fn multiple_choice_answer_problem(a: MultipleChoiceAnswerInput) -> Option<Seq<char>> {
    if is_blank_text(a.text@) {
        Some("multiple-choice answer text must not be empty"@)
    } else {
        None
    }
}

/// Runtime answer made from a submitted multiple-choice answer.
pub open spec fn multiple_choice_answer_of(a: MultipleChoiceAnswerInput) -> MultipleChoiceAnswer {
    MultipleChoiceAnswer { text: a.text, is_correct: a.is_correct }
}

/// Problem of a submitted open answer: a blank text.
pub open spec fn open_answer_problem(a: OpenAnswerInput) -> Option<Seq<char>> {
    if is_blank_text(a.text@) {
        Some("open answer text must not be empty"@)
    } else {
        None
    }
}

/// Runtime answer made from a submitted open answer.
pub open spec fn open_answer_of(a: OpenAnswerInput) -> OpenAnswer {
    OpenAnswer { text: a.text }
}

/// Problem of a submitted hint: a blank text.
pub open spec fn hint_problem(text: String) -> Option<Seq<char>> {
    if is_blank_text(text@) {
        Some("question hint text must not be empty"@)
    } else {
        None
    }
}

/// Runtime hint made from a submitted hint text.
pub open spec fn hint_of(text: String) -> Hint {
    Hint(text)
}

/// Problem checkers and converters as values, for [`first_problem`] and [`numbered`].
pub open spec fn blindtest_answer_checker() -> spec_fn(BlindTestAnswerInput) -> Option<Seq<char>> {
    |a: BlindTestAnswerInput| blindtest_answer_problem(a)
}

pub open spec fn blindtest_answer_maker() -> spec_fn(BlindTestAnswerInput) -> BlindTestAnswer {
    |a: BlindTestAnswerInput| blindtest_answer_of(a)
}

pub open spec fn multiple_choice_answer_checker() -> spec_fn(MultipleChoiceAnswerInput) -> Option<Seq<char>> {
    |a: MultipleChoiceAnswerInput| multiple_choice_answer_problem(a)
}

pub open spec fn multiple_choice_answer_maker() -> spec_fn(MultipleChoiceAnswerInput) -> MultipleChoiceAnswer {
    |a: MultipleChoiceAnswerInput| multiple_choice_answer_of(a)
}

pub open spec fn open_answer_checker() -> spec_fn(OpenAnswerInput) -> Option<Seq<char>> {
    |a: OpenAnswerInput| open_answer_problem(a)
}

pub open spec fn open_answer_maker() -> spec_fn(OpenAnswerInput) -> OpenAnswer {
    |a: OpenAnswerInput| open_answer_of(a)
}

pub open spec fn hint_checker() -> spec_fn(String) -> Option<Seq<char>> {
    |t: String| hint_problem(t)
}

pub open spec fn hint_maker() -> spec_fn(String) -> Hint {
    |t: String| hint_of(t)
}

/// Optional text with blank text treated as absent.
pub open spec fn blank_as_none(value: Option<String>) -> Option<String> {
    match value {
        Some(text) => if is_blank_text(text@) {
            None
        } else {
            Some(text)
        },
        None => None,
    }
}

/// Message of the error raised for a zero guess duration.
pub open spec fn guess_duration_message() -> Seq<char> {
    "guess duration must be strictly positive"@
}

/// Message of the error raised for a blank prompt.
pub open spec fn prompt_message() -> Seq<char> {
    "question prompt must not be empty"@
}

/// First problem of a submitted question, in the order the checks are made; `None` when the
/// question can be imported.
pub open spec fn question_problem(q: QuestionInput) -> Option<Seq<char>> {
    match q {
        QuestionInput::BlindTest(b) => if is_blank_text(b.url@) {
            Some("blindtest question url must not be empty"@)
        } else if b.guess_duration_ms == 0 {
            Some(guess_duration_message())
        } else if b.answers.len() == 0 {
            Some("blindtest question answers"@ + " must not be empty"@)
        } else if b.answers.len() > 256 {
            Some(too_many_entries_message("blindtest question answers"@))
        } else {
            first_problem(b.answers@, blindtest_answer_checker())
        },
        QuestionInput::MultipleChoice(m) => if m.guess_duration_ms == 0 {
            Some(guess_duration_message())
        } else if is_blank_text(m.prompt@) {
            Some(prompt_message())
        } else if m.answers.len() == 0 {
            Some("multiple-choice question answers"@ + " must not be empty"@)
        } else if m.answers.len() > 4 {
            Some("multiple-choice questions cannot declare more than 4 answers"@)
        } else if first_problem(m.answers@, multiple_choice_answer_checker()) is Some {
            first_problem(m.answers@, multiple_choice_answer_checker())
        } else if m.hints.len() > 256 {
            Some(too_many_entries_message("multiple-choice question hints"@))
        } else {
            first_problem(m.hints@, hint_checker())
        },
        QuestionInput::Open(o) => if o.guess_duration_ms == 0 {
            Some(guess_duration_message())
        } else if is_blank_text(o.prompt@) {
            Some(prompt_message())
        } else if o.answers.len() == 0 {
            Some("open question answers"@ + " must not be empty"@)
        } else if o.answers.len() > 256 {
            Some(too_many_entries_message("open question answers"@))
        } else if first_problem(o.answers@, open_answer_checker()) is Some {
            first_problem(o.answers@, open_answer_checker())
        } else if o.hints.len() > 256 {
            Some(too_many_entries_message("open question hints"@))
        } else {
            first_problem(o.hints@, hint_checker())
        },
    }
}

/// `q` is the runtime question imported from the submitted question `input`: same kind, same
/// fields, blank optional URLs dropped, answers and hints numbered from zero in order.
pub open spec fn imported_question(input: QuestionInput, q: Question) -> bool {
    match (input, q) {
        (QuestionInput::BlindTest(b), Question::BlindTest(x)) => {
            &&& x.starts_at_ms == b.starts_at_ms
            &&& x.guess_duration_ms == b.guess_duration_ms
            &&& x.url == b.url
            &&& x.answers@ == numbered(b.answers@, blindtest_answer_maker())
        },
        (QuestionInput::MultipleChoice(m), Question::MultipleChoice(x)) => {
            &&& x.guess_duration_ms == m.guess_duration_ms
            &&& x.prompt == m.prompt
            &&& x.url == blank_as_none(m.url)
            &&& x.answers@ == numbered(m.answers@, multiple_choice_answer_maker())
            &&& x.hints@ == numbered(m.hints@, hint_maker())
        },
        (QuestionInput::Open(o), Question::Open(x)) => {
            &&& x.guess_duration_ms == o.guess_duration_ms
            &&& x.prompt == o.prompt
            &&& x.url == blank_as_none(o.url)
            &&& x.answers@ == numbered(o.answers@, open_answer_maker())
            &&& x.hints@ == numbered(o.hints@, hint_maker())
        },
        _ => false,
    }
}

/// Problem checker for whole questions, as a value.
pub open spec fn question_checker() -> spec_fn(QuestionInput) -> Option<Seq<char>> {
    |q: QuestionInput| question_problem(q)
}

/// First problem of a submitted questions sequence; `None` when it can be imported.
pub open spec fn sequence_problem(input: QuestionsSequenceInput) -> Option<Seq<char>> {
    if is_blank_text(input.name@) {
        Some("questions sequence name must not be empty"@)
    } else if input.questions.len() == 0 {
        Some("questions sequence must not be empty"@)
    } else {
        first_problem(input.questions@, question_checker())
    }
}

/// Build a runtime blindtest answer, refusing a blank key or value.
pub fn build_blindtest_answer(answer: BlindTestAnswerInput) -> (r: Result<BlindTestAnswer, ServiceError>)
    ensures
        match r {
            Ok(x) => blindtest_answer_problem(answer) is None && x == blindtest_answer_of(answer),
            Err(e) => (blindtest_answer_problem(answer) matches Some(m) && is_invalid_input(e, m)),
        },
        r matches Ok(x) ==> x.key == answer.key && x.value == answer.value && x.points == answer.points
            && x.is_bonus == answer.is_bonus,
{
    if is_blank(answer.key.as_str()) {
        return Err(ServiceError::InvalidInput(String::from_str("blindtest answer key must not be empty")));
    }
    if is_blank(answer.value.as_str()) {
        return Err(ServiceError::InvalidInput(String::from_str("blindtest answer value must not be empty")));
    }
    Ok(BlindTestAnswer {
        key: answer.key,
        value: answer.value,
        points: answer.points,
        is_bonus: answer.is_bonus,
    })
}

/// Build a runtime multiple-choice answer, refusing a blank text.
pub fn build_multiple_choice_answer(answer: MultipleChoiceAnswerInput) -> (r: Result<MultipleChoiceAnswer, ServiceError>)
    ensures
        match r {
            Ok(x) => multiple_choice_answer_problem(answer) is None && x == multiple_choice_answer_of(answer),
            Err(e) => (multiple_choice_answer_problem(answer) matches Some(m) && is_invalid_input(e, m)),
        },
{
    if is_blank(answer.text.as_str()) {
        return Err(ServiceError::InvalidInput(String::from_str("multiple-choice answer text must not be empty")));
    }
    Ok(MultipleChoiceAnswer { text: answer.text, is_correct: answer.is_correct })
}

/// Build a runtime open answer, refusing a blank text.
pub fn build_open_answer(answer: OpenAnswerInput) -> (r: Result<OpenAnswer, ServiceError>)
    ensures
        match r {
            Ok(x) => open_answer_problem(answer) is None && x == open_answer_of(answer),
            Err(e) => (open_answer_problem(answer) matches Some(m) && is_invalid_input(e, m)),
        },
{
    if is_blank(answer.text.as_str()) {
        return Err(ServiceError::InvalidInput(String::from_str("open answer text must not be empty")));
    }
    Ok(OpenAnswer { text: answer.text })
}

/// Build a runtime hint, refusing a blank text.
pub fn build_hint(text: String) -> (r: Result<Hint, ServiceError>)
    ensures
        match r {
            Ok(x) => hint_problem(text) is None && x == hint_of(text),
            Err(e) => (hint_problem(text) matches Some(m) && is_invalid_input(e, m)),
        },
{
    if is_blank(text.as_str()) {
        return Err(ServiceError::InvalidInput(String::from_str("question hint text must not be empty")));
    }
    Ok(Hint(text))
}

/// Refuse a zero guess duration.
pub fn ensure_guess_duration(guess_duration_ms: usize) -> (r: Result<(), ServiceError>)
    ensures
        guess_duration_ms == 0 ==> (r matches Err(e) && is_invalid_input(e, guess_duration_message())),
        guess_duration_ms != 0 ==> r is Ok,
{
    if guess_duration_ms == 0 {
        return Err(ServiceError::InvalidInput(String::from_str("guess duration must be strictly positive")));
    }
    Ok(())
}

/// Refuse a blank prompt.
pub fn ensure_prompt(prompt: &str) -> (r: Result<(), ServiceError>)
    ensures
        is_blank_text(prompt@) ==> (r matches Err(e) && is_invalid_input(e, prompt_message())),
        !is_blank_text(prompt@) ==> r is Ok,
{
    if is_blank(prompt) {
        return Err(ServiceError::InvalidInput(String::from_str("question prompt must not be empty")));
    }
    Ok(())
}

/// Refuse an empty collection, naming it with `label`.
pub fn ensure_not_empty(count: usize, label: &str) -> (r: Result<(), ServiceError>)
    ensures
        count == 0 ==> (r matches Err(e) && is_invalid_input(e, label@ + " must not be empty"@)),
        count != 0 ==> r is Ok,
{
    if count == 0 {
        return Err(ServiceError::InvalidInput(joined(label, " must not be empty")));
    }
    Ok(())
}

/// Treat a blank optional text as absent.
pub fn empty_string_as_none(value: Option<String>) -> (r: Option<String>)
    ensures
        r == blank_as_none(value),
{
    match value {
        Some(url) => if is_blank(url.as_str()) {
            None
        } else {
            Some(url)
        },
        None => None,
    }
}

/// Build a runtime question from a submitted one, checking it and numbering its answers and
/// hints.
pub fn build_question(question: QuestionInput) -> (r: Result<Question, ServiceError>)
    ensures
        match r {
            Ok(q) => question_problem(question) is None && imported_question(question, q),
            Err(e) => (question_problem(question) matches Some(m) && is_invalid_input(e, m)),
        },
{
    match question {
        QuestionInput::BlindTest(question) => {
            if is_blank(question.url.as_str()) {
                return Err(ServiceError::InvalidInput(String::from_str("blindtest question url must not be empty")));
            }
            ensure_guess_duration(question.guess_duration_ms)?;
            ensure_not_empty(question.answers.len(), "blindtest question answers")?;
            let answers = assign_ids(
                question.answers,
                "blindtest question answers",
                build_blindtest_answer,
                Ghost(blindtest_answer_checker()),
                Ghost(blindtest_answer_maker()),
            )?;
            Ok(Question::BlindTest(BlindTestQuestion {
                starts_at_ms: question.starts_at_ms,
                guess_duration_ms: question.guess_duration_ms,
                url: question.url,
                answers,
            }))
        },
        QuestionInput::MultipleChoice(question) => {
            ensure_guess_duration(question.guess_duration_ms)?;
            ensure_prompt(question.prompt.as_str())?;
            ensure_not_empty(question.answers.len(), "multiple-choice question answers")?;
            if question.answers.len() > MAX_MULTIPLE_CHOICE_ANSWERS {
                return Err(ServiceError::InvalidInput(String::from_str("multiple-choice questions cannot declare more than 4 answers")));
            }
            let answers = assign_ids(
                question.answers,
                "multiple-choice question answers",
                build_multiple_choice_answer,
                Ghost(multiple_choice_answer_checker()),
                Ghost(multiple_choice_answer_maker()),
            )?;
            let hints = assign_ids(
                question.hints,
                "multiple-choice question hints",
                build_hint,
                Ghost(hint_checker()),
                Ghost(hint_maker()),
            )?;
            Ok(Question::MultipleChoice(MultipleChoiceQuestion {
                guess_duration_ms: question.guess_duration_ms,
                prompt: question.prompt,
                url: empty_string_as_none(question.url),
                answers,
                hints,
            }))
        },
        QuestionInput::Open(question) => {
            ensure_guess_duration(question.guess_duration_ms)?;
            ensure_prompt(question.prompt.as_str())?;
            ensure_not_empty(question.answers.len(), "open question answers")?;
            let answers = assign_ids(
                question.answers,
                "open question answers",
                build_open_answer,
                Ghost(open_answer_checker()),
                Ghost(open_answer_maker()),
            )?;
            let hints = assign_ids(
                question.hints,
                "open question hints",
                build_hint,
                Ghost(hint_checker()),
                Ghost(hint_maker()),
            )?;
            Ok(Question::Open(OpenQuestion {
                guess_duration_ms: question.guess_duration_ms,
                prompt: question.prompt,
                url: empty_string_as_none(question.url),
                answers,
                hints,
            }))
        },
    }
}

/// `entries` numbers the questions of `inputs` from zero, in order, each imported from the
/// submitted question at the same position.
pub open spec fn imported_questions(inputs: Seq<QuestionInput>, entries: Seq<(u32, Question)>) -> bool {
    &&& entries.len() == inputs.len()
    &&& forall|i: int|
        0 <= i < inputs.len() ==> (#[trigger] entries[i]).0 == i && imported_question(
            inputs[i],
            entries[i].1,
        )
}

impl QuestionsSequence {
    /// New questions sequence with a fresh random identifier.
    pub fn new(name: String, questions: IndexMap<u32, Question>) -> (s: QuestionsSequence)
        ensures
            s.name == name,
            s.questions == questions,
    {
        QuestionsSequence { id: new_random_id(), name, questions }
    }
}

/// Build a questions sequence from its submitted definition: the name must not be blank,
/// there must be at least one question and every question must pass its checks. Questions
/// are numbered from zero in import order.
pub fn build_questions_sequence(input: QuestionsSequenceInput) -> (r: Result<QuestionsSequence, ServiceError>)
    requires
        input.questions.len() <= u32::MAX,
    ensures
        match r {
            Ok(s) => {
                &&& sequence_problem(input) is None
                &&& s.name == input.name
                &&& imported_questions(input.questions@, question_entries(s.questions))
            },
            Err(e) => (sequence_problem(input) matches Some(m) && is_invalid_input(e, m)),
        },
{
    let QuestionsSequenceInput { name, questions } = input;
    if is_blank(name.as_str()) {
        return Err(ServiceError::InvalidInput(String::from_str("questions sequence name must not be empty")));
    }
    if questions.len() == 0 {
        return Err(ServiceError::InvalidInput(String::from_str("questions sequence must not be empty")));
    }
    let ghost all = questions@;
    let n = questions.len();
    let mut rest = questions;
    let mut built = question_map_new();
    let mut i: usize = 0;
    while i < n
        invariant
            n == all.len(),
            n <= u32::MAX,
            all == input.questions@,
            !is_blank_text(input.name@),
            n > 0,
            i <= n,
            rest@ == all.skip(i as int),
            first_problem(all.take(i as int), question_checker()) is None,
            imported_questions(all.take(i as int), question_entries(built)),
        decreases n - i,
    {
        let question = rest.remove(0);
        assert(question == all[i as int]);
        assert(all.take(i + 1).drop_last() =~= all.take(i as int));
        let ghost before = question_entries(built);
        match build_question(question) {
            Ok(q) => {
                let ghost before_keys = question_entries(built);
                assert(!crate::collections::has_key(before_keys, i as u32)) by {
                    if crate::collections::has_key(before_keys, i as u32) {
                        let j = choose|j: int| 0 <= j < before_keys.len() && before_keys[j].0 == i as u32;
                        assert(before_keys[j].0 == j);
                    }
                }
                question_map_insert(&mut built, i as u32, q);
                assert(imported_questions(all.take(i + 1), question_entries(built))) by {
                    assert forall|k: int| 0 <= k < i + 1 implies (#[trigger] question_entries(built)[k]).0 == k
                        && imported_question(all.take(i + 1)[k], question_entries(built)[k].1) by {
                        if k < i {
                            assert(question_entries(built)[k] == before[k]);
                            assert(all.take(i + 1)[k] == all.take(i as int)[k]);
                        }
                    }
                }
            },
            Err(e) => {
                proof {
                    assert(all.take(i + 1).last() == all[i as int]);
                    assert(first_problem(all.take(i + 1), question_checker()) == question_problem(all[i as int]));
                    lemma_first_problem_prefix(all, i + 1, question_checker());
                }
                return Err(e);
            },
        }
        assert(rest@ =~= all.skip(i + 1));
        i = i + 1;
    }
    assert(all.take(n as int) =~= all);
    Ok(QuestionsSequence::new(name, built))
}

} // verus!
