//! The insertion-ordered map that holds the cards of a simulation.
//!
//! The map is `indexmap::IndexMap`, keyed by the number of the card
//! identifier. What it holds is modelled as the sequence of its key-value
//! pairs in insertion order; each function of this file states what the
//! method of the map that it calls does to that sequence.

use crate::card::base_card::{Card, CardView};
use indexmap::IndexMap;
use vstd::prelude::*;

verus! {

/// `indexmap::IndexMap`: a hash map that keeps its entries in the order in
/// which their keys were first inserted.
#[verifier::external_type_specification]
#[verifier::external_body]
#[verifier::reject_recursive_types(K)]
#[verifier::reject_recursive_types(V)]
#[verifier::reject_recursive_types(S)]
pub struct ExIndexMap<K, V, S>(IndexMap<K, V, S>);

/// The key-value pairs of the map, in the order of the map.
pub uninterp spec fn board_entries(board: IndexMap<u64, Card>) -> Seq<(u64, Card)>;

/// The entries with each card replaced by what it is.
pub open spec fn entry_views(entries: Seq<(u64, Card)>) -> Seq<(u64, CardView)> {
    Seq::new(entries.len(), |i: int| (entries[i].0, entries[i].1@))
}

/// The first position at which `key` occurs among `entries`, if it occurs.
pub open spec fn position_of<V>(entries: Seq<(u64, V)>, key: u64) -> Option<int>
    decreases entries.len(),
{
    if entries.len() == 0 {
        None
    } else {
        match position_of(entries.drop_last(), key) {
            Some(i) => Some(i),
            None => if entries.last().0 == key {
                Some(entries.len() - 1)
            } else {
                None
            },
        }
    }
}

/// `IndexMap::new`: a map without entries.
#[verifier::external_body]
pub(crate) fn board_new() -> (board: IndexMap<u64, Card>)
    ensures
        board_entries(board) == Seq::<(u64, Card)>::empty(),
{
    IndexMap::new()
}

/// `IndexMap::len`: the number of entries.
#[verifier::external_body]
pub(crate) fn board_len(board: &IndexMap<u64, Card>) -> (len: usize)
    ensures
        len == board_entries(*board).len(),
{
    board.len()
}

/// `IndexMap::insert`: where the key is in the map, its value is replaced in
/// place and the old value returned; else the pair is added last and nothing
/// is returned.
#[verifier::external_body]
pub(crate) fn board_insert(board: &mut IndexMap<u64, Card>, key: u64, card: Card) -> (replaced:
    Option<Card>)
    ensures
        match position_of(board_entries(*old(board)), key) {
            Some(i) => replaced == Some(board_entries(*old(board))[i].1) && board_entries(
                *final(board),
            ) == board_entries(*old(board)).update(i, (key, card)),
            None => replaced is None && board_entries(*final(board)) == board_entries(
                *old(board),
            ).push((key, card)),
        },
{
    board.insert(key, card)
}

/// `IndexMap::get_index_of`: the position of the entry with the given key.
#[verifier::external_body]
pub(crate) fn board_index_of(board: &IndexMap<u64, Card>, key: u64) -> (index: Option<usize>)
    ensures
        match index {
            Some(i) => position_of(board_entries(*board), key) == Some(i as int),
            None => position_of(board_entries(*board), key) is None,
        },
{
    board.get_index_of(&key)
}

/// `IndexMap::get_index`: the key and the value of the entry at a position
/// of the map.
#[verifier::external_body]
pub(crate) fn board_entry_at(board: &IndexMap<u64, Card>, index: usize) -> (entry: (u64, &Card))
    requires
        index < board_entries(*board).len(),
    ensures
        entry.0 == board_entries(*board)[index as int].0,
        *entry.1 == board_entries(*board)[index as int].1,
{
    let (key, card) = board.get_index(index).unwrap();
    (*key, card)
}

/// `IndexMap::get_index_mut`: the value of the entry at a position of the
/// map, to be changed in place. The key and the other entries stay.
#[verifier::external_body]
pub(crate) fn board_card_at_mut(board: &mut IndexMap<u64, Card>, index: usize) -> (card: &mut Card)
    requires
        index < board_entries(*old(board)).len(),
    ensures
        *card == board_entries(*old(board))[index as int].1,
        board_entries(*final(board)) == board_entries(*old(board)).update(
            index as int,
            (board_entries(*old(board))[index as int].0, *final(card)),
        ),
{
    board.get_index_mut(index).unwrap().1
}

/// `IndexMap::clone`: a map with the same keys in the same order, each value
/// a clone of the value it stands for.
#[verifier::external_body]
pub(crate) fn board_clone(board: &IndexMap<u64, Card>) -> (copy: IndexMap<u64, Card>)
    ensures
        board_entries(copy).len() == board_entries(*board).len(),
        forall|i: int|
            0 <= i < board_entries(*board).len() ==> (#[trigger] board_entries(copy)[i]).0
                == board_entries(*board)[i].0 && cloned::<Card>(
                board_entries(*board)[i].1,
                board_entries(copy)[i].1,
            ),
{
    board.clone()
}

/// A key that occurs among the entries has a position, and the entry at that
/// position holds the key; a key that does not occur has none. No entry
/// before the position holds the key.
pub proof fn position_of_finds<V>(entries: Seq<(u64, V)>, key: u64)
    ensures
        position_of(entries, key) matches Some(i) ==> 0 <= i < entries.len() && entries[i].0
            == key,
        forall|j: int|
            0 <= j < entries.len() && #[trigger] entries[j].0 == key ==> (position_of(
                entries,
                key,
            ) matches Some(i) && i <= j),
    decreases entries.len(),
{
    if entries.len() > 0 {
        let front = entries.drop_last();
        position_of_finds(front, key);
        assert forall|j: int| 0 <= j < entries.len() && #[trigger] entries[j].0 == key implies (
        position_of(entries, key) matches Some(i) && i <= j) by {
            if j < front.len() {
                assert(front[j].0 == key);
            }
        }
    }
}

/// A key has the same position among the entries and among their views.
pub proof fn position_of_views(entries: Seq<(u64, Card)>, key: u64)
    ensures
        position_of(entry_views(entries), key) == position_of(entries, key),
    decreases entries.len(),
{
    if entries.len() > 0 {
        position_of_views(entries.drop_last(), key);
        assert(entry_views(entries).drop_last() =~= entry_views(entries.drop_last()));
    }
}

} // verus!
