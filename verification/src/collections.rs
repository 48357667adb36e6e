//! Ordered maps from the `indexmap` crate, as the game model uses them.
//!
//! An `IndexMap` keeps its entries in insertion order and never holds a key twice. Its
//! contents are named as the sequence of `(key, value)` entries in that order.

use indexmap::IndexMap;
use vstd::prelude::*;

use crate::game::{Question, Team};

verus! {

#[verifier::external_type_specification]
#[verifier::external_body]
#[verifier::reject_recursive_types(K)]
#[verifier::reject_recursive_types(V)]
#[verifier::reject_recursive_types(S)]
pub struct ExIndexMap<K, V, S>(IndexMap<K, V, S>);

/// Entries of a team map, in order.
pub uninterp spec fn team_entries(m: IndexMap<u128, Team>) -> Seq<(u128, Team)>;

/// Entries of a question map, in order.
pub uninterp spec fn question_entries(m: IndexMap<u32, Question>) -> Seq<(u32, Question)>;

/// No key occurs twice.
pub open spec fn keys_unique<K, V>(s: Seq<(K, V)>) -> bool {
    forall|i: int, j: int| 0 <= i < s.len() && 0 <= j < s.len() && i != j ==> s[i].0 != s[j].0
}

/// Some entry has key `k`.
pub open spec fn has_key<K, V>(s: Seq<(K, V)>, k: K) -> bool {
    exists|i: int| 0 <= i < s.len() && s[i].0 == k
}

/// Keys of the entries, as a set.
pub open spec fn key_set<K, V>(s: Seq<(K, V)>) -> Set<K> {
    Set::new(|k: K| has_key(s, k))
}

/// Position of an entry with key `k`.
pub open spec fn key_index<K, V>(s: Seq<(K, V)>, k: K) -> int {
    choose|i: int| 0 <= i < s.len() && s[i].0 == k
}

/// Value stored under key `k`.
pub open spec fn value_of<K, V>(s: Seq<(K, V)>, k: K) -> V {
    s[key_index(s, k)].1
}

/// `IndexMap::new` for teams: an empty map.
#[verifier::external_body]
pub(crate) fn team_map_new() -> (m: IndexMap<u128, Team>)
    ensures
        team_entries(m) == Seq::<(u128, Team)>::empty(),
        keys_unique(team_entries(m)),
{
    IndexMap::new()
}

/// `IndexMap::len` for teams: the number of entries.
#[verifier::external_body]
pub(crate) fn team_map_len(m: &IndexMap<u128, Team>) -> (n: usize)
    ensures
        n == team_entries(*m).len(),
{
    m.len()
}

/// `IndexMap::get_index` for teams: the entry at position `i`, if `i` is in range.
#[verifier::external_body]
pub(crate) fn team_map_get_index(m: &IndexMap<u128, Team>, i: usize) -> (r: Option<(&u128, &Team)>)
    ensures
        i < team_entries(*m).len() ==> r == Some((&team_entries(*m)[i as int].0, &team_entries(*m)[i as int].1)),
        i >= team_entries(*m).len() ==> r is None,
{
    m.get_index(i)
}

/// `IndexMap::get_index_of` for teams: the position of key `k`, if present; no key occurs
/// twice in the map.
#[verifier::external_body]
pub(crate) fn team_map_get_index_of(m: &IndexMap<u128, Team>, k: &u128) -> (r: Option<usize>)
    ensures
        match r {
            Some(i) => i < team_entries(*m).len() && team_entries(*m)[i as int].0 == *k && (forall|j: int|
                0 <= j < team_entries(*m).len() && j != i ==> team_entries(*m)[j].0 != *k)
                && keys_unique(team_entries(*m)),
            None => !has_key(team_entries(*m), *k) && keys_unique(team_entries(*m)),
        },
{
    m.get_index_of(k)
}

/// `IndexMap::insert` for teams: a present key keeps its position and takes the new value
/// (the old one is returned); an absent key is appended last.
#[verifier::external_body]
pub(crate) fn team_map_insert(m: &mut IndexMap<u128, Team>, k: u128, v: Team) -> (r: Option<Team>)
    ensures
        match r {
            Some(old_v) => exists|i: int|
                0 <= i < team_entries(*old(m)).len() && team_entries(*old(m))[i].0 == k
                    && team_entries(*old(m))[i].1 == old_v
                    && team_entries(*final(m)) == team_entries(*old(m)).update(i, (k, v)),
            None => !has_key(team_entries(*old(m)), k)
                && team_entries(*final(m)) == team_entries(*old(m)).push((k, v)),
        },
        keys_unique(team_entries(*old(m))) && keys_unique(team_entries(*final(m))),
{
    m.insert(k, v)
}

/// `IndexMap::shift_remove` for teams: removes the entry of key `k`, keeping the order of
/// the others, and returns its value; leaves the map alone when `k` is absent.
#[verifier::external_body]
pub(crate) fn team_map_shift_remove(m: &mut IndexMap<u128, Team>, k: &u128) -> (r: Option<Team>)
    ensures
        match r {
            Some(old_v) => exists|i: int|
                0 <= i < team_entries(*old(m)).len() && team_entries(*old(m))[i].0 == *k
                    && team_entries(*old(m))[i].1 == old_v
                    && team_entries(*final(m)) == team_entries(*old(m)).remove(i),
            None => !has_key(team_entries(*old(m)), *k)
                && team_entries(*final(m)) == team_entries(*old(m)),
        },
        keys_unique(team_entries(*old(m))) && keys_unique(team_entries(*final(m))),
{
    m.shift_remove(k)
}

/// `IndexMap::new` for questions: an empty map.
#[verifier::external_body]
pub(crate) fn question_map_new() -> (m: IndexMap<u32, Question>)
    ensures
        question_entries(m) == Seq::<(u32, Question)>::empty(),
        keys_unique(question_entries(m)),
{
    IndexMap::new()
}

/// `IndexMap::len` for questions: the number of entries.
#[verifier::external_body]
pub(crate) fn question_map_len(m: &IndexMap<u32, Question>) -> (n: usize)
    ensures
        n == question_entries(*m).len(),
{
    m.len()
}

/// `IndexMap::get_index` for questions: the entry at position `i`, if `i` is in range.
#[verifier::external_body]
pub(crate) fn question_map_get_index(m: &IndexMap<u32, Question>, i: usize) -> (r: Option<(&u32, &Question)>)
    ensures
        i < question_entries(*m).len() ==> r == Some((&question_entries(*m)[i as int].0, &question_entries(*m)[i as int].1)),
        i >= question_entries(*m).len() ==> r is None,
{
    m.get_index(i)
}

/// `IndexMap::get_index_of` for questions: the position of key `k`, if present; no key
/// occurs twice in the map.
#[verifier::external_body]
pub(crate) fn question_map_get_index_of(m: &IndexMap<u32, Question>, k: &u32) -> (r: Option<usize>)
    ensures
        match r {
            Some(i) => i < question_entries(*m).len() && question_entries(*m)[i as int].0 == *k
                && (forall|j: int|
                0 <= j < question_entries(*m).len() && j != i ==> question_entries(*m)[j].0 != *k)
                && keys_unique(question_entries(*m)),
            None => !has_key(question_entries(*m), *k) && keys_unique(question_entries(*m)),
        },
{
    m.get_index_of(k)
}

/// `IndexMap::insert` for questions: a present key keeps its position and takes the new
/// value (the old one is returned); an absent key is appended last.
#[verifier::external_body]
pub(crate) fn question_map_insert(m: &mut IndexMap<u32, Question>, k: u32, v: Question) -> (r: Option<Question>)
    ensures
        match r {
            Some(old_v) => exists|i: int|
                0 <= i < question_entries(*old(m)).len() && question_entries(*old(m))[i].0 == k
                    && question_entries(*old(m))[i].1 == old_v
                    && question_entries(*final(m)) == question_entries(*old(m)).update(i, (k, v)),
            None => !has_key(question_entries(*old(m)), k)
                && question_entries(*final(m)) == question_entries(*old(m)).push((k, v)),
        },
        keys_unique(question_entries(*old(m))) && keys_unique(question_entries(*final(m))),
{
    m.insert(k, v)
}

} // verus!
