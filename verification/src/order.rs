//! Question order of a game checked against its questions sequence, and the summaries of
//! the questions in play order.

use indexmap::IndexMap;
use vstd::prelude::*;

use crate::collections::{
    has_key, key_index, key_set, question_entries, question_map_get_index,
    question_map_get_index_of, question_map_len, value_of,
};
use crate::game::Question;
use crate::summary::{summarizes_question, QuestionSummary};

verus! {

/// Errors raised when a question order does not match its questions sequence.
#[derive(Debug)]
pub enum QuestionOrderError {
    /// Identifiers of the sequence missing from the order, and identifiers of the order not in
    /// the sequence, each in increasing order.
    MismatchedIds {
        missing: Vec<u32>,
        extra: Vec<u32>,
    },
}

/// Every item is smaller than the items after it.
pub open spec fn strictly_increasing(s: Seq<u32>) -> bool {
    forall|i: int, j: int| 0 <= i < j < s.len() ==> s[i] < s[j]
}

/// Add `x` to a strictly increasing list, keeping it strictly increasing (and without
/// adding it twice).
pub fn insert_sorted(v: &mut Vec<u32>, x: u32)
    requires
        strictly_increasing(old(v)@),
    ensures
        strictly_increasing(final(v)@),
        final(v)@.to_set() == old(v)@.to_set().insert(x),
{
    let mut p: usize = 0;
    while p < v.len() && v[p] < x
        invariant
            p <= v.len(),
            forall|j: int| 0 <= j < p ==> v@[j] < x,
        decreases v.len() - p,
    {
        p = p + 1;
    }
    if p < v.len() && v[p] == x {
        assert(v@.to_set().insert(x) =~= v@.to_set()) by {
            assert(v@.contains(x)) by {
                assert(v@[p as int] == x);
            }
        }
        return;
    }
    let ghost before = v@;
    v.insert(p, x);
    assert(v@.to_set() =~= before.to_set().insert(x)) by {
        assert forall|y: u32| v@.to_set().contains(y) <==> before.to_set().insert(x).contains(y) by {
            if v@.contains(y) {
                let j = choose|j: int| 0 <= j < v@.len() && v@[j] == y;
                if j < p {
                    assert(before[j] == y);
                } else if j > p {
                    assert(before[j - 1] == y);
                }
            }
            if before.contains(y) {
                let j = choose|j: int| 0 <= j < before.len() && before[j] == y;
                if j < p {
                    assert(v@[j] == y);
                } else {
                    assert(v@[j + 1] == y);
                }
            }
            if y == x {
                assert(v@[p as int] == x);
            }
        }
    }
}

/// Whether `x` occurs in `v`.
pub fn vec_contains(v: &Vec<u32>, x: u32) -> (b: bool)
    ensures
        b == v@.contains(x),
{
    let mut i: usize = 0;
    while i < v.len()
        invariant
            i <= v.len(),
            forall|j: int| 0 <= j < i ==> v@[j] != x,
        decreases v.len() - i,
    {
        if v[i] == x {
            assert(v@[i as int] == x);
            return true;
        }
        i = i + 1;
    }
    false
}

/// Summaries of the questions of a sequence in the given play order. The order must list
/// exactly the question identifiers of the sequence (as sets); otherwise the identifiers
/// missing from the order and those unknown to the sequence are reported, each sorted.
pub fn ordered_question_summaries(sequence_questions: IndexMap<u32, Question>, order: Vec<u32>) -> (r: Result<Vec<QuestionSummary>, QuestionOrderError>)
    ensures
        ({
            let entries = question_entries(sequence_questions);
            let keys = key_set(entries);
            let listed = order@.to_set();
            &&& keys == listed ==> (r matches Ok(v) && v.len() == order.len() && forall|i: int|
                0 <= i < order.len() ==> summarizes_question(
                    order@[i],
                    value_of(entries, order@[i])@,
                    #[trigger] v@[i],
                ))
            &&& keys != listed ==> (r matches Err(QuestionOrderError::MismatchedIds { missing, extra })
                && strictly_increasing(missing@) && missing@.to_set() == keys.difference(listed)
                && strictly_increasing(extra@) && extra@.to_set() == listed.difference(keys))
        }),
{
    let ghost entries = question_entries(sequence_questions);
    let n = question_map_len(&sequence_questions);
    let mut missing: Vec<u32> = Vec::new();
    let mut i: usize = 0;
    while i < n
        invariant
            n == entries.len(),
            entries == question_entries(sequence_questions),
            i <= n,
            strictly_increasing(missing@),
            missing@.to_set() == Set::new(|k: u32| has_key(entries.take(i as int), k)).difference(order@.to_set()),
        decreases n - i,
    {
        let (key, _) = question_map_get_index(&sequence_questions, i).unwrap();
        let key = *key;
        assert(key == entries[i as int].0);
        let ghost before = missing@.to_set();
        let ghost prev_keys = Set::new(|k: u32| has_key(entries.take(i as int), k));
        let ghost next_keys = Set::new(|k: u32| has_key(entries.take(i + 1), k));
        let listed_here = vec_contains(&order, key);
        assert(listed_here == order@.to_set().contains(key));
        if !listed_here {
            insert_sorted(&mut missing, key);
        }
        assert(missing@.to_set() =~= Set::new(|k: u32| has_key(entries.take(i + 1), k)).difference(order@.to_set())) by {
            assert forall|k: u32| next_keys.contains(k) <==> prev_keys.contains(k) || k == key by {
                if has_key(entries.take(i + 1), k) {
                    let j = choose|j: int| 0 <= j < i + 1 && (#[trigger] entries.take(i + 1)[j]).0 == k;
                    if j < i {
                        assert(entries.take(i as int)[j].0 == k);
                    }
                }
                if has_key(entries.take(i as int), k) {
                    let j = choose|j: int| 0 <= j < i && (#[trigger] entries.take(i as int)[j]).0 == k;
                    assert(entries.take(i + 1)[j].0 == k);
                }
                if k == key {
                    assert(entries.take(i + 1)[i as int].0 == k);
                }
            }
            assert(next_keys =~= prev_keys.insert(key));
        }
        i = i + 1;
    }
    assert(entries.take(n as int) =~= entries);
    let ghost keys = key_set(entries);
    assert(missing@.to_set() =~= keys.difference(order@.to_set()));

    let mut extra: Vec<u32> = Vec::new();
    let mut j: usize = 0;
    while j < order.len()
        invariant
            j <= order.len(),
            entries == question_entries(sequence_questions),
            keys == key_set(entries),
            strictly_increasing(extra@),
            extra@.to_set() == order@.take(j as int).to_set().difference(keys),
        decreases order.len() - j,
    {
        let o = order[j];
        match question_map_get_index_of(&sequence_questions, &o) {
            Some(_) => {},
            None => {
                insert_sorted(&mut extra, o);
            },
        }
        assert(extra@.to_set() =~= order@.take(j + 1).to_set().difference(keys)) by {
            assert(order@.take(j + 1) =~= order@.take(j as int).push(o));
            assert(order@.take(j + 1).to_set() =~= order@.take(j as int).to_set().insert(o)) by {
                order@.take(j as int).lemma_push_to_set_commute(o);
            }
        }
        j = j + 1;
    }
    assert(order@.take(order.len() as int) =~= order@);
    let ghost listed = order@.to_set();

    if missing.len() > 0 || extra.len() > 0 {
        proof {
            if keys == listed {
                assert(missing@.to_set() =~= Set::<u32>::empty());
                assert(extra@.to_set() =~= Set::<u32>::empty());
                if missing.len() > 0 {
                    assert(missing@.to_set().contains(missing@[0]));
                } else {
                    assert(extra@.to_set().contains(extra@[0]));
                }
            }
        }
        return Err(QuestionOrderError::MismatchedIds { missing, extra });
    }
    proof {
        assert(missing@ =~= Seq::<u32>::empty());
        assert(extra@ =~= Seq::<u32>::empty());
        assert(keys =~= listed) by {
            assert forall|k: u32| keys.contains(k) <==> listed.contains(k) by {
                if keys.contains(k) && !listed.contains(k) {
                    assert(missing@.to_set().contains(k));
                }
                if listed.contains(k) && !keys.contains(k) {
                    assert(extra@.to_set().contains(k));
                }
            }
        }
    }

    let mut out: Vec<QuestionSummary> = Vec::new();
    let mut t: usize = 0;
    while t < order.len()
        invariant
            t <= order.len(),
            entries == question_entries(sequence_questions),
            keys == key_set(entries),
            keys == order@.to_set(),
            out.len() == t,
            forall|i: int| 0 <= i < t ==> summarizes_question(
                order@[i],
                value_of(entries, order@[i])@,
                #[trigger] out@[i],
            ),
        decreases order.len() - t,
    {
        let question_id = order[t];
        assert(order@.to_set().contains(question_id)) by {
            assert(order@[t as int] == question_id);
        }
        match question_map_get_index_of(&sequence_questions, &question_id) {
            Some(index) => {
                let (_, question_ref) = question_map_get_index(&sequence_questions, index).unwrap();
                assert(key_index(entries, question_id) == index);
                out.push(QuestionSummary::from((question_id, question_ref.duplicate())));
            },
            None => {
                assert(keys.contains(question_id));
                assert(false);
                let mut missing_id = Vec::new();
                missing_id.push(question_id);
                return Err(QuestionOrderError::MismatchedIds { missing: missing_id, extra: Vec::new() });
            },
        }
        t = t + 1;
    }
    Ok(out)
}

} // verus!
