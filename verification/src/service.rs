//! The operations on the catalog as a whole: replace it, read it back.

use vstd::prelude::*;
use crate::catalog::{Data, DataView};
use crate::envelope::{success_status, PostFeaturesTogglesRequest, PostFeaturesTogglesResponse,
    PostFeaturesTogglesResponseView};
use crate::flatten::{flatten, flatten_catalog};
use crate::models::contents;
use crate::reconstruct::{reconstruct, reconstruct_catalog};
use crate::round_trip::{lemma_reconstruct_of_flattened, lemma_regrouped_fixed, regrouped,
    well_grouped};
use crate::store::{lemma_inserted_contents, well_keyed, RowStore, RowStoreView, StoreError};

verus! {

/// The store after its catalog was replaced by `data`: every row deleted, then
/// the rows of `data` inserted in flattened order, as many as the keys last.
pub open spec fn replaced(store: RowStoreView, data: DataView) -> RowStoreView {
    let flat = flatten(data);
    store.emptied().inserted(flat.take(store.takes(flat.len())))
}

/// Replaces the whole catalog: deletes every row, then inserts the rows of
/// `data` in flattened order.
///
/// Fails when the keys run out on the way. The store is then left as far as
/// it got: the old rows gone, the first rows of `data` in.
pub fn replace_catalog(store: &mut RowStore, data: &Data) -> (result: Result<(), StoreError>)
    requires
        old(store).wf(),
    ensures
        final(store).wf(),
        final(store)@ == replaced(old(store)@, data@),
        match result {
            Ok(_) => {
                &&& flatten(data@).len() <= old(store)@.room()
                &&& contents(final(store)@.rows) == flatten(data@)
            },
            Err(error) => {
                &&& error == StoreError::KeysExhausted
                &&& flatten(data@).len() > old(store)@.room()
                &&& contents(final(store)@.rows) == flatten(data@).take(old(store)@.room())
            },
        },
{
    let rows = flatten_catalog(data);
    store.delete_all();
    let result = store.insert_many(&rows);
    proof {
        let base = old(store)@.emptied();
        let flat = flatten(data@);
        lemma_inserted_contents(base, flat.take(base.takes(flat.len())));
    }
    result
}

/// Reads the whole catalog back from the rows of `store`, under the status
/// of a served request.
pub fn read_catalog(store: &RowStore) -> (response: PostFeaturesTogglesResponse)
    ensures
        response@ == (PostFeaturesTogglesResponseView {
            status: success_status(),
            data: reconstruct(store@.rows),
        }),
{
    PostFeaturesTogglesResponse::success(reconstruct_catalog(store.rows()))
}

/// The acknowledgement of a replaced catalog: the text `Success`.
pub open spec fn acknowledgement() -> Seq<char> {
    "Success"@
}

/// Serves a request to replace the catalog by the one in `payload`, as
/// [`replace_catalog`] does, and acknowledges it. The status that `payload`
/// carries is not looked at.
pub fn put_features_toggles(store: &mut RowStore, payload: &PostFeaturesTogglesResponse) -> (result:
    Result<&'static str, StoreError>)
    requires
        old(store).wf(),
    ensures
        final(store).wf(),
        final(store)@ == replaced(old(store)@, payload.data@),
        match result {
            Ok(text) => {
                &&& text@ == acknowledgement()
                &&& flatten(payload.data@).len() <= old(store)@.room()
                &&& contents(final(store)@.rows) == flatten(payload.data@)
            },
            Err(error) => {
                &&& error == StoreError::KeysExhausted
                &&& flatten(payload.data@).len() > old(store)@.room()
                &&& contents(final(store)@.rows) == flatten(payload.data@).take(
                    old(store)@.room(),
                )
            },
        },
{
    match replace_catalog(store, &payload.data) {
        Ok(_) => Ok("Success"),
        Err(error) => Err(error),
    }
}

/// Serves an inquiry: the whole catalog, as [`read_catalog`] gives it. The
/// categories named in `payload` are accepted and make no difference.
pub fn post_features_toggles(store: &RowStore, payload: &PostFeaturesTogglesRequest) -> (response:
    PostFeaturesTogglesResponse)
    ensures
        response@ == (PostFeaturesTogglesResponseView {
            status: success_status(),
            data: reconstruct(store@.rows),
        }),
{
    read_catalog(store)
}

/// Replacing is destructive. After the catalog was replaced by `first` and
/// then by `second`, the store holds rows of `second` alone, whatever it held
/// before and whatever `first` was: all of them where the keys last, and reading
/// them back gives `second` regrouped, which is `second` itself exactly when
/// its groups answer its categories one for one.
pub proof fn lemma_replace_is_destructive(store: RowStoreView, first: DataView, second: DataView)
    requires
        well_keyed(store.rows, store.last_id),
    ensures
        ({
            let once = replaced(store, first);
            let twice = replaced(once, second);
            let flat = flatten(second);
            &&& contents(twice.rows) == flat.take(once.takes(flat.len()))
            &&& flat.len() <= once.room() ==> {
                &&& contents(twice.rows) == flat
                &&& reconstruct(twice.rows) == regrouped(second)
                &&& reconstruct(twice.rows) == second <==> well_grouped(second)
            }
        }),
{
    let once = replaced(store, first);
    let twice = replaced(once, second);
    let flat = flatten(second);
    let first_flat = flatten(first);
    lemma_inserted_contents(store.emptied(), first_flat.take(store.takes(first_flat.len())));
    lemma_inserted_contents(once.emptied(), flat.take(once.takes(flat.len())));
    if flat.len() <= once.room() {
        assert(flat.take(flat.len() as int) =~= flat);
        lemma_reconstruct_of_flattened(second, twice.rows);
        lemma_regrouped_fixed(second);
    }
}

} // verus!
