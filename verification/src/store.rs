//! The row store: one table of feature rows, kept in insertion order, with
//! keys that the store hands out itself.

use vstd::prelude::*;
use crate::kind::FeatureKind;
use crate::models::{contents, Feature, FeatureView, NewFeature, NewFeatureView};
use crate::reconstruct::{products_of, rows_of_kind, select_kind, select_products};

verus! {

/// Why the store refused rows.
#[derive(Clone, Copy, Debug, PartialEq, Eq, Structural)]
pub enum StoreError {
    /// Every key up to the largest one has been handed out.
    KeysExhausted,
    /// Rows offered as the contents of a store are not in the order of their
    /// keys, or carry a key below 1.
    KeysNotAscending,
}

/// Why a feature was not switched.
#[derive(Clone, Copy, Debug, PartialEq, Eq, Structural)]
pub enum ToggleError {
    /// No row carries the feature id.
    NotFound,
    /// More than one row carries the feature id.
    MultipleMatches,
}

/// A table of feature rows. Rows keep the order in which they were inserted.
/// Every row gets a key of its own on insertion, larger than every key handed
/// out before; a key is never changed and never handed out again.
pub struct RowStore {
    rows: Vec<Feature>,
    last_id: i32,
}

/// Mathematical value of a [`RowStore`]: its rows in stored order, and the last
/// key it has handed out (`0` before the first).
pub struct RowStoreView {
    pub rows: Seq<FeatureView>,
    pub last_id: i32,
}

/// Keys are at least 1, at most `last_id`, and ascend along the rows; so no two
/// rows share a key.
pub open spec fn well_keyed(rows: Seq<FeatureView>, last_id: i32) -> bool {
    &&& 0 <= last_id
    &&& forall|i: int| 0 <= i < rows.len() ==> 1 <= (#[trigger] rows[i]).id <= last_id
    &&& forall|i: int, j: int|
        0 <= i < j < rows.len() ==> (#[trigger] rows[i]).id < (#[trigger] rows[j]).id
}

/// Whether keys that are at least 1 ascend along the rows.
pub open spec fn keys_ascend(rows: Seq<FeatureView>) -> bool {
    &&& forall|i: int| 0 <= i < rows.len() ==> 1 <= (#[trigger] rows[i]).id
    &&& forall|i: int, j: int|
        0 <= i < j < rows.len() ==> (#[trigger] rows[i]).id < (#[trigger] rows[j]).id
}

/// The rows that carry `feature_id`, in stored order.
pub open spec fn matching(rows: Seq<FeatureView>, feature_id: Seq<char>) -> Seq<FeatureView> {
    rows.filter(|row: FeatureView| row.feature_id == feature_id)
}

/// `row` switched to `is_active` at the moment `stamp`: these two columns
/// change, every other column stays, the key too.
pub open spec fn switched(row: FeatureView, is_active: bool, stamp: Seq<char>) -> FeatureView {
    FeatureView { is_active, updated_date_time: stamp, ..row }
}

/// The rows with every row that carries `feature_id` switched, and every
/// other row as it was.
pub open spec fn toggled(
    rows: Seq<FeatureView>,
    feature_id: Seq<char>,
    is_active: bool,
    stamp: Seq<char>,
) -> Seq<FeatureView> {
    rows.map_values(
        |row: FeatureView|
            if row.feature_id == feature_id {
                switched(row, is_active, stamp)
            } else {
                row
            },
    )
}

impl RowStoreView {
    /// How many more rows the store can take before its keys run out.
    pub open spec fn room(self) -> int {
        i32::MAX - self.last_id
    }

    /// How many of `count` rows the store takes before its keys run out.
    pub open spec fn takes(self, count: nat) -> int {
        if count <= self.room() {
            count as int
        } else {
            self.room()
        }
    }

    /// The store after `rows` were inserted one by one, each under the key
    /// that follows the last. Meant for `rows.len() <= self.room()`.
    pub open spec fn inserted(self, rows: Seq<NewFeatureView>) -> RowStoreView {
        RowStoreView {
            rows: self.rows + Seq::new(
                rows.len(),
                |k: int| rows[k].stored((self.last_id + 1 + k) as i32),
            ),
            last_id: (self.last_id + rows.len()) as i32,
        }
    }

    /// The store after every row was deleted. The keys handed out so far stay
    /// used.
    pub open spec fn emptied(self) -> RowStoreView {
        RowStoreView { rows: Seq::empty(), last_id: self.last_id }
    }
}

/// Extending the rows by one extends the rows that carry a feature id by that
/// row, or leaves them as they were.
pub proof fn lemma_matching_push(rows: Seq<FeatureView>, row: FeatureView, feature_id: Seq<char>)
    ensures
        matching(rows.push(row), feature_id) == if row.feature_id == feature_id {
            matching(rows, feature_id).push(row)
        } else {
            matching(rows, feature_id)
        },
{
    rows.lemma_filter_push(row, |r: FeatureView| r.feature_id == feature_id);
}

/// Rows whose keys are in order have a key each: no two rows share one.
pub proof fn lemma_keys_distinct(rows: Seq<FeatureView>, last_id: i32)
    requires
        well_keyed(rows, last_id),
    ensures
        forall|i: int, j: int|
            0 <= i < rows.len() && 0 <= j < rows.len() && i != j ==> (#[trigger] rows[i]).id
                != (#[trigger] rows[j]).id,
{
}

/// Inserting rows and then more rows is inserting them all.
pub proof fn lemma_inserted_more(
    store: RowStoreView,
    rows: Seq<NewFeatureView>,
    more: Seq<NewFeatureView>,
)
    requires
        0 <= store.last_id,
        rows.len() + more.len() <= store.room(),
    ensures
        store.inserted(rows).inserted(more) == store.inserted(rows + more),
{
    let left = store.inserted(rows).inserted(more);
    let right = store.inserted(rows + more);
    assert(left.rows =~= right.rows);
}

/// Inserted rows hold what was handed over, behind what was there, and keep
/// the keys in order.
pub proof fn lemma_inserted_contents(store: RowStoreView, rows: Seq<NewFeatureView>)
    requires
        well_keyed(store.rows, store.last_id),
        rows.len() <= store.room(),
    ensures
        contents(store.inserted(rows).rows) == contents(store.rows) + rows,
        well_keyed(store.inserted(rows).rows, store.inserted(rows).last_id),
{
    assert(contents(store.inserted(rows).rows) =~= contents(store.rows) + rows);
}

impl View for RowStore {
    type V = RowStoreView;

    closed spec fn view(&self) -> RowStoreView {
        RowStoreView { rows: self.rows.deep_view(), last_id: self.last_id }
    }
}

impl RowStore {
    /// What every store keeps: its keys are in order. The constructors
    /// establish it and every operation preserves it.
    pub open spec fn wf(&self) -> bool {
        well_keyed(self@.rows, self@.last_id)
    }

    /// An empty store that has handed out no key yet.
    pub fn new() -> (store: RowStore)
        ensures
            store@ == (RowStoreView { rows: Seq::empty(), last_id: 0 }),
            store.wf(),
    {
        let store = RowStore { rows: Vec::new(), last_id: 0 };
        assert(store.rows.deep_view() =~= Seq::<FeatureView>::empty());
        store
    }

    /// A store that holds `rows` as they are, keys included. The rows must be
    /// in the order of their keys, which start at 1 or above: the order in
    /// which a store returns what it holds.
    pub fn from_rows(rows: Vec<Feature>) -> (result: Result<RowStore, StoreError>)
        ensures
            match result {
                Ok(store) => {
                    &&& keys_ascend(rows.deep_view())
                    &&& store@.rows == rows.deep_view()
                    &&& store@.last_id == if rows.len() == 0 {
                        0
                    } else {
                        rows[rows.len() - 1].id
                    }
                    &&& store.wf()
                },
                Err(error) => error == StoreError::KeysNotAscending && !keys_ascend(
                    rows.deep_view(),
                ),
            },
    {
        let mut last_id: i32 = 0;
        let mut i: usize = 0;
        while i < rows.len()
            invariant
                i <= rows.len(),
                0 <= last_id,
                i == 0 ==> last_id == 0,
                i > 0 ==> last_id == rows[i - 1].id,
                keys_ascend(rows.deep_view().take(i as int)),
            decreases rows.len() - i,
        {
            if rows[i].id <= last_id {
                proof {
                    let all = rows.deep_view();
                    if i > 0 {
                        assert(all[i - 1].id >= all[i as int].id);
                    }
                }
                return Err(StoreError::KeysNotAscending);
            }
            proof {
                let all = rows.deep_view();
                let next = all.take(i + 1);
                assert forall|a: int, b: int| 0 <= a < b < next.len() implies (#[trigger] next[a]).id
                    < (#[trigger] next[b]).id by {
                    if b >= i && i > 0 {
                        assert(all.take(i as int)[i - 1] == all[i - 1]);
                        if a < i - 1 {
                            assert(all.take(i as int)[a] == next[a]);
                        }
                    }
                }
            }
            last_id = rows[i].id;
            i += 1;
        }
        proof {
            let all = rows.deep_view();
            assert(all.take(rows.len() as int) =~= all);
            assert forall|a: int| 0 <= a < all.len() implies (#[trigger] all[a]).id <= last_id by {
                if a < all.len() - 1 {
                    assert(all[a].id < all[all.len() - 1].id);
                }
            }
        }
        Ok(RowStore { rows, last_id })
    }

    /// The rows, in stored order.
    pub fn rows(&self) -> (rows: &Vec<Feature>)
        ensures
            rows.deep_view() == self@.rows,
    {
        &self.rows
    }

    /// The number of rows.
    pub fn len(&self) -> (count: usize)
        ensures
            count == self@.rows.len(),
    {
        self.rows.len()
    }

    /// The last key handed out, `0` before the first.
    pub fn last_id(&self) -> (key: i32)
        ensures
            key == self@.last_id,
    {
        self.last_id
    }

    /// Deletes every row and says how many there were.
    pub fn delete_all(&mut self) -> (deleted: usize)
        requires
            old(self).wf(),
        ensures
            final(self).wf(),
            final(self)@ == old(self)@.emptied(),
            deleted == old(self)@.rows.len(),
    {
        let deleted = self.rows.len();
        self.rows = Vec::new();
        assert(self.rows.deep_view() =~= Seq::<FeatureView>::empty());
        deleted
    }

    /// The rows of kind `kind`, in stored order.
    pub fn select_kind(&self, kind: FeatureKind) -> (selected: Vec<Feature>)
        ensures
            selected.deep_view() == rows_of_kind(self@.rows, kind),
    {
        select_kind(&self.rows, kind)
    }

    /// The product rows filed under `category_id`, in stored order.
    pub fn select_products(&self, category_id: i32) -> (selected: Vec<Feature>)
        ensures
            selected.deep_view() == products_of(self@.rows, category_id),
    {
        select_products(&self.rows, category_id)
    }

    /// Switches the one row that carries `feature_id` to `is_active` and marks
    /// it as updated at `now`. Returns the row as it now stands.
    ///
    /// Fails, and leaves every row as it was, when no row carries the id
    /// (`NotFound`) and when more than one does (`MultipleMatches`).
    pub fn set_active_at(&mut self, feature_id: &str, is_active: bool, now: &str) -> (result: Result<
        Feature,
        ToggleError,
    >)
        requires
            old(self).wf(),
        ensures
            final(self).wf(),
            final(self)@.last_id == old(self)@.last_id,
            match result {
                Ok(row) => {
                    &&& matching(old(self)@.rows, feature_id@).len() == 1
                    &&& final(self)@.rows == toggled(old(self)@.rows, feature_id@, is_active, now@)
                    &&& row@ == switched(matching(old(self)@.rows, feature_id@)[0], is_active, now@)
                },
                Err(ToggleError::NotFound) => {
                    &&& matching(old(self)@.rows, feature_id@).len() == 0
                    &&& final(self)@ == old(self)@
                },
                Err(ToggleError::MultipleMatches) => {
                    &&& matching(old(self)@.rows, feature_id@).len() >= 2
                    &&& final(self)@ == old(self)@
                },
            },
    {
        let wanted = feature_id.to_owned();
        let ghost before = self.rows.deep_view();
        let mut count: usize = 0;
        let mut found: usize = 0;
        let mut i: usize = 0;
        while i < self.rows.len()
            invariant
                *self == *old(self),
                before == self.rows.deep_view(),
                wanted@ == feature_id@,
                i <= self.rows.len(),
                count <= i,
                count == matching(before.take(i as int), feature_id@).len(),
                count >= 1 ==> found < i && before[found as int].feature_id == feature_id@
                    && matching(before.take(i as int), feature_id@)[0] == before[found as int],
                count <= 1 ==> forall|j: int|
                    0 <= j < i && (count == 0 || j != found) ==> (#[trigger] before[j]).feature_id
                        != feature_id@,
            decreases self.rows.len() - i,
        {
            proof {
                assert(before.take(i + 1) =~= before.take(i as int).push(before[i as int]));
                lemma_matching_push(before.take(i as int), before[i as int], feature_id@);
            }
            if self.rows[i].feature_id == wanted {
                if count == 0 {
                    found = i;
                }
                count += 1;
            }
            i += 1;
        }
        assert(before.take(self.rows.len() as int) =~= before);
        if count == 0 {
            Err(ToggleError::NotFound)
        } else if count > 1 {
            Err(ToggleError::MultipleMatches)
        } else {
            let current = &self.rows[found];
            let row = Feature {
                id: current.id,
                feature_id: current.feature_id.clone(),
                category_id: current.category_id,
                product_id: current.product_id.clone(),
                code: current.code.clone(),
                name_th: current.name_th.clone(),
                name_en: current.name_en.clone(),
                is_active,
                updated_date_time: now.to_owned(),
                updated_by_id: current.updated_by_id.clone(),
                updated_by_name: current.updated_by_name.clone(),
                sorting_order: current.sorting_order,
                feature_type: current.feature_type.clone(),
            };
            let copy = row.clone();
            self.rows.set(found, row);
            proof {
                let after = self.rows.deep_view();
                assert forall|a: int| 0 <= a < after.len() implies (#[trigger] after[a]).id
                    == before[a].id by {}
            }
            Ok(copy)
        }
    }
}

/// Inserts one row into `store`, under the key that follows the last key
/// handed out, and returns the row as stored.
///
/// Fails, and leaves the store as it was, when the keys have run out.
pub fn create_feature(store: &mut RowStore, feature: &NewFeature) -> (result: Result<
    Feature,
    StoreError,
>)
    requires
        old(store).wf(),
    ensures
        final(store).wf(),
        match result {
            Ok(row) => {
                &&& old(store)@.room() > 0
                &&& row@ == feature@.stored((old(store)@.last_id + 1) as i32)
                &&& final(store)@ == old(store)@.inserted(seq![feature@])
                &&& final(store)@.rows == old(store)@.rows.push(row@)
            },
            Err(error) => {
                &&& error == StoreError::KeysExhausted
                &&& old(store)@.room() == 0
                &&& final(store)@ == old(store)@
            },
        },
{
    store.insert(feature)
}

impl RowStore {
    fn insert(&mut self, feature: &NewFeature) -> (result: Result<Feature, StoreError>)
        requires
            old(self).wf(),
        ensures
            final(self).wf(),
            match result {
                Ok(row) => {
                    &&& old(self)@.room() > 0
                    &&& row@ == feature@.stored((old(self)@.last_id + 1) as i32)
                    &&& final(self)@ == old(self)@.inserted(seq![feature@])
                    &&& final(self)@.rows == old(self)@.rows.push(row@)
                },
                Err(error) => {
                    &&& error == StoreError::KeysExhausted
                    &&& old(self)@.room() == 0
                    &&& final(self)@ == old(self)@
                },
            },
    {
        if self.last_id == i32::MAX {
            return Err(StoreError::KeysExhausted);
        }
        let id = self.last_id + 1;
        let row = Feature {
            id,
            feature_id: feature.feature_id.clone(),
            category_id: feature.category_id,
            product_id: feature.product_id.clone(),
            code: feature.code.clone(),
            name_th: feature.name_th.clone(),
            name_en: feature.name_en.clone(),
            is_active: feature.is_active,
            updated_date_time: feature.updated_date_time.clone(),
            updated_by_id: feature.updated_by_id.clone(),
            updated_by_name: feature.updated_by_name.clone(),
            sorting_order: feature.sorting_order,
            feature_type: feature.feature_type.clone(),
        };
        let copy = row.clone();
        self.last_id = id;
        self.rows.push(row);
        proof {
            assert(self@.rows =~= old(self)@.inserted(seq![feature@]).rows);
        }
        Ok(copy)
    }

    /// Inserts `rows` one by one, in list order, each under the key that
    /// follows the last.
    ///
    /// Fails when the keys run out on the way. The rows inserted until then
    /// stay in.
    pub fn insert_many(&mut self, rows: &Vec<NewFeature>) -> (result: Result<(), StoreError>)
        requires
            old(self).wf(),
        ensures
            final(self).wf(),
            final(self)@ == old(self)@.inserted(
                rows.deep_view().take(old(self)@.takes(rows.len() as nat)),
            ),
            match result {
                Ok(_) => rows.len() <= old(self)@.room(),
                Err(error) => error == StoreError::KeysExhausted && rows.len() > old(self)@.room(),
            },
    {
        let ghost base = self@;
        let ghost flat = rows.deep_view();
        let mut i: usize = 0;
        while i < rows.len()
            invariant
                i <= rows.len(),
                self.wf(),
                flat == rows.deep_view(),
                base == old(self)@,
                0 <= base.last_id,
                i <= base.room(),
                self@ == base.inserted(flat.take(i as int)),
            decreases rows.len() - i,
        {
            match self.insert(&rows[i]) {
                Ok(_) => {
                    proof {
                        lemma_inserted_more(base, flat.take(i as int), seq![flat[i as int]]);
                        assert(flat.take(i as int) + seq![flat[i as int]] =~= flat.take(i + 1));
                    }
                },
                Err(error) => {
                    return Err(error);
                },
            }
            i += 1;
        }
        Ok(())
    }
}

} // verus!
