//! The keys of the climbs that a gym's sheets already hold.

use vstd::prelude::*;
use crate::sheet_row::{is_dated, key_of_climb, keys_of, ClimbSheetRow, RowKey};
use crate::vertical_life::types::Climb;

verus! {

/// A set of row keys. It only grows.
#[derive(Debug, Clone)]
pub struct KeySet {
    pub rows: Vec<ClimbSheetRow>,
}

impl View for KeySet {
    type V = Set<RowKey>;

    open spec fn view(&self) -> Set<RowKey> {
        keys_of(self.rows@).to_set()
    }
}

impl KeySet {
    /// The empty set.
    pub fn new() -> (keys: KeySet)
        ensures
            keys@ == Set::<RowKey>::empty(),
    {
        let keys = KeySet { rows: Vec::new() };
        assert(keys@ =~= Set::<RowKey>::empty());
        keys
    }

    /// The set of the keys of some rows.
    pub fn from_rows(rows: Vec<ClimbSheetRow>) -> (keys: KeySet)
        ensures
            keys@ == keys_of(rows@).to_set(),
    {
        KeySet { rows }
    }

    /// Whether a row with the key of `row` is in the set.
    pub fn contains(&self, row: &ClimbSheetRow) -> (found: bool)
        ensures
            found == self@.contains(row@),
    {
        let mut i: usize = 0;
        while i < self.rows.len()
            invariant
                i <= self.rows.len(),
                forall|j: int| 0 <= j < i ==> keys_of(self.rows@)[j] != row@,
            decreases self.rows.len() - i,
        {
            if self.rows[i].same_key(row) {
                assert(keys_of(self.rows@)[i as int] == row@);
                return true;
            }
            i += 1;
        }
        false
    }

    /// Adds the key of a row to the set.
    pub fn insert(&mut self, row: ClimbSheetRow)
        ensures
            final(self)@ == old(self)@.insert(row@),
    {
        self.rows.push(row);
        proof {
            let before = keys_of(old(self).rows@);
            let after = keys_of(self.rows@);
            assert(after =~= before.push(row@));
            assert forall|k: RowKey| after.to_set().contains(k) <==> before.to_set().insert(
                row@,
            ).contains(k) by {
                if after.contains(k) {
                    let i = choose|i: int| 0 <= i < after.len() && after[i] == k;
                    if i < before.len() {
                        assert(before[i] == k);
                    }
                }
                if before.contains(k) {
                    let i = choose|i: int| 0 <= i < before.len() && before[i] == k;
                    assert(after[i] == k);
                }
                if k == row@ {
                    assert(after[before.len() as int] == k);
                }
            }
            assert(self@ =~= old(self)@.insert(row@));
        }
    }
}

/// The climbs that a sync appends, in their order: each climb whose key is
/// neither among the existing keys nor the key of a climb before it.
pub open spec fn new_climbs(existing: Set<RowKey>, climbs: Seq<Climb>) -> Seq<Climb>
    decreases climbs.len(),
{
    if climbs.len() == 0 {
        Seq::empty()
    } else if existing.contains(key_of_climb(climbs[0])) {
        new_climbs(existing, climbs.drop_first())
    } else {
        seq![climbs[0]] + new_climbs(
            existing.insert(key_of_climb(climbs[0])),
            climbs.drop_first(),
        )
    }
}

/// The existing keys together with the keys of some climbs.
pub open spec fn keys_with(existing: Set<RowKey>, climbs: Seq<Climb>) -> Set<RowKey>
    decreases climbs.len(),
{
    if climbs.len() == 0 {
        existing
    } else {
        keys_with(existing.insert(key_of_climb(climbs[0])), climbs.drop_first())
    }
}

/// Whether the creation time of every climb can be written as a date.
pub open spec fn all_dated(climbs: Seq<Climb>) -> bool {
    forall|i: int| 0 <= i < climbs.len() ==> is_dated(#[trigger] climbs[i])
}

/// After a sync the set holds what it held before and the key of every
/// climb of the wall, and nothing else.
pub proof fn lemma_keys_with(existing: Set<RowKey>, climbs: Seq<Climb>, key: RowKey)
    ensures
        keys_with(existing, climbs).contains(key) <==> existing.contains(key) || exists|i: int|
            0 <= i < climbs.len() && key_of_climb(#[trigger] climbs[i]) == key,
    decreases climbs.len(),
{
    if climbs.len() > 0 {
        let rest = climbs.drop_first();
        let grown = existing.insert(key_of_climb(climbs[0]));
        lemma_keys_with(grown, rest, key);
        if keys_with(existing, climbs).contains(key) && !existing.contains(key) {
            if key != key_of_climb(climbs[0]) {
                let i = choose|i: int| 0 <= i < rest.len() && key_of_climb(#[trigger] rest[i]) == key;
                assert(climbs[i + 1] == rest[i]);
            }
        }
        if exists|i: int| 0 <= i < climbs.len() && key_of_climb(#[trigger] climbs[i]) == key {
            let i = choose|i: int| 0 <= i < climbs.len() && key_of_climb(#[trigger] climbs[i]) == key;
            if i > 0 {
                assert(rest[i - 1] == climbs[i]);
            }
        }
    }
}

/// Syncing is idempotent: where the key of every climb is among the
/// existing keys, nothing is appended.
pub proof fn lemma_nothing_new(existing: Set<RowKey>, climbs: Seq<Climb>)
    requires
        forall|i: int| 0 <= i < climbs.len() ==> existing.contains(key_of_climb(#[trigger] climbs[i])),
    ensures
        new_climbs(existing, climbs) == Seq::<Climb>::empty(),
    decreases climbs.len(),
{
    if climbs.len() > 0 {
        let rest = climbs.drop_first();
        assert forall|i: int| 0 <= i < rest.len() implies existing.contains(
            key_of_climb(#[trigger] rest[i]),
        ) by {
            assert(rest[i] == climbs[i + 1]);
        }
        lemma_nothing_new(existing, rest);
    }
}

/// Within one run no climb is appended twice: once a wall was synced, a
/// second sync of it against the keys that the first one left appends
/// nothing.
pub proof fn lemma_second_sync_appends_nothing(existing: Set<RowKey>, climbs: Seq<Climb>)
    ensures
        new_climbs(keys_with(existing, climbs), climbs) == Seq::<Climb>::empty(),
{
    assert forall|i: int| 0 <= i < climbs.len() implies keys_with(existing, climbs).contains(
        key_of_climb(#[trigger] climbs[i]),
    ) by {
        lemma_keys_with(existing, climbs, key_of_climb(climbs[i]));
    }
    lemma_nothing_new(keys_with(existing, climbs), climbs);
}

/// A key that was just added is found: a climb that was appended is
/// present for the rest of the run, without reading the sheet again.
pub proof fn lemma_appended_is_present(existing: Set<RowKey>, climb: Climb, later: Seq<Climb>)
    ensures
        new_climbs(existing.insert(key_of_climb(climb)), seq![climb] + later) == new_climbs(
            existing.insert(key_of_climb(climb)),
            later,
        ),
{
    let climbs = seq![climb] + later;
    assert(climbs.drop_first() =~= later);
    assert(climbs[0] == climb);
}

/// Every climb that a sync appends was missing from the existing keys, and
/// no two of them share a key.
pub proof fn lemma_new_climbs_are_new(existing: Set<RowKey>, climbs: Seq<Climb>)
    ensures
        forall|i: int|
            0 <= i < new_climbs(existing, climbs).len() ==> !existing.contains(
                key_of_climb(#[trigger] new_climbs(existing, climbs)[i]),
            ),
        forall|i: int, j: int|
            0 <= i < j < new_climbs(existing, climbs).len() ==> key_of_climb(
                #[trigger] new_climbs(existing, climbs)[i],
            ) != key_of_climb(#[trigger] new_climbs(existing, climbs)[j]),
    decreases climbs.len(),
{
    let all = new_climbs(existing, climbs);
    if climbs.len() > 0 {
        let rest = climbs.drop_first();
        let key = key_of_climb(climbs[0]);
        if existing.contains(key) {
            lemma_new_climbs_are_new(existing, rest);
            assert(all == new_climbs(existing, rest));
        } else {
            let grown = existing.insert(key);
            lemma_new_climbs_are_new(grown, rest);
            let tail = new_climbs(grown, rest);
            assert(all =~= seq![climbs[0]] + tail);
            assert forall|i: int| 0 <= i < all.len() implies !existing.contains(
                key_of_climb(#[trigger] all[i]),
            ) by {
                if i > 0 {
                    assert(all[i] == tail[i - 1]);
                    assert(!grown.contains(key_of_climb(tail[i - 1])));
                }
            }
            assert forall|i: int, j: int| 0 <= i < j < all.len() implies key_of_climb(
                #[trigger] all[i],
            ) != key_of_climb(#[trigger] all[j]) by {
                assert(all[j] == tail[j - 1]);
                assert(!grown.contains(key_of_climb(tail[j - 1])));
                if i > 0 {
                    assert(all[i] == tail[i - 1]);
                }
            }
        }
    }
}

} // verus!
