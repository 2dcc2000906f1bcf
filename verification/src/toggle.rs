//! Switching single features on and off.

use vstd::prelude::*;
use crate::clock::{current_timestamp, is_utc_text};
use crate::envelope::{bad_request_status, no_payload, success_status, FeatureRequest,
    FeatureRequestView, PatchFeaturesTogglesRequest, PatchFeaturesTogglesResponse,
    PatchFeaturesTogglesResponseView};
use crate::models::{Feature, FeatureView};
use crate::store::{lemma_matching_push, matching, switched, toggled, RowStore, ToggleError};

verus! {

/// Whether a request can be served from `rows`: exactly one row carries its
/// feature id.
pub open spec fn serviceable(rows: Seq<FeatureView>, request: FeatureRequestView) -> bool {
    matching(rows, request.feature_id).len() == 1
}

/// The rows after `requests` were applied in order, the `k`-th at the moment
/// `stamps[k]`.
pub open spec fn toggled_all(
    rows: Seq<FeatureView>,
    requests: Seq<FeatureRequestView>,
    stamps: Seq<Seq<char>>,
) -> Seq<FeatureView>
    decreases requests.len(),
{
    if requests.len() == 0 {
        rows
    } else {
        toggled(
            toggled_all(rows, requests.drop_last(), stamps.drop_last()),
            requests.last().feature_id,
            requests.last().is_active,
            stamps.last(),
        )
    }
}

/// The moment at which each of `rows` was last updated.
pub open spec fn stamps_of(rows: Seq<FeatureView>) -> Seq<Seq<char>> {
    rows.map_values(|row: FeatureView| row.updated_date_time)
}

/// Switching a feature touches nothing else. Every row keeps its place and
/// every column but `is_active` and `updated_date_time`; a row that does not
/// carry the feature id stays as it was in these two also; a row that carries
/// it gets the new state and the moment of the update.
pub proof fn lemma_toggle_isolation(
    rows: Seq<FeatureView>,
    feature_id: Seq<char>,
    is_active: bool,
    stamp: Seq<char>,
)
    ensures
        toggled(rows, feature_id, is_active, stamp).len() == rows.len(),
        forall|k: int|
            0 <= k < rows.len() ==> {
                let before = rows[k];
                let after = #[trigger] toggled(rows, feature_id, is_active, stamp)[k];
                &&& after.id == before.id
                &&& after.feature_id == before.feature_id
                &&& after.category_id == before.category_id
                &&& after.product_id == before.product_id
                &&& after.code == before.code
                &&& after.name_th == before.name_th
                &&& after.name_en == before.name_en
                &&& after.updated_by_id == before.updated_by_id
                &&& after.updated_by_name == before.updated_by_name
                &&& after.sorting_order == before.sorting_order
                &&& after.feature_type == before.feature_type
                &&& before.feature_id != feature_id ==> after == before
                &&& before.feature_id == feature_id ==> after.is_active == is_active
                    && after.updated_date_time == stamp
            },
{
}

/// Switching a feature changes no feature id, so as many rows carry any
/// given id after it as before.
pub proof fn lemma_toggled_keeps_matching(
    rows: Seq<FeatureView>,
    feature_id: Seq<char>,
    is_active: bool,
    stamp: Seq<char>,
    wanted: Seq<char>,
)
    ensures
        matching(toggled(rows, feature_id, is_active, stamp), wanted).len() == matching(
            rows,
            wanted,
        ).len(),
    decreases rows.len(),
{
    let after = toggled(rows, feature_id, is_active, stamp);
    if rows.len() > 0 {
        let init = rows.drop_last();
        lemma_toggled_keeps_matching(init, feature_id, is_active, stamp, wanted);
        assert(rows =~= init.push(rows.last()));
        assert(after =~= toggled(init, feature_id, is_active, stamp).push(after.last()));
        lemma_matching_push(init, rows.last(), wanted);
        lemma_matching_push(toggled(init, feature_id, is_active, stamp), after.last(), wanted);
    }
}

/// Applying requests changes no feature id either.
pub proof fn lemma_toggled_all_keeps_matching(
    rows: Seq<FeatureView>,
    requests: Seq<FeatureRequestView>,
    stamps: Seq<Seq<char>>,
    wanted: Seq<char>,
)
    ensures
        matching(toggled_all(rows, requests, stamps), wanted).len() == matching(rows, wanted).len(),
    decreases requests.len(),
{
    if requests.len() > 0 {
        lemma_toggled_all_keeps_matching(rows, requests.drop_last(), stamps.drop_last(), wanted);
        lemma_toggled_keeps_matching(
            toggled_all(rows, requests.drop_last(), stamps.drop_last()),
            requests.last().feature_id,
            requests.last().is_active,
            stamps.last(),
            wanted,
        );
    }
}

/// Switches the one row of `store` that carries `feature_id` to `is_active`
/// and marks it as updated now. Returns the row as it now stands; its
/// `updated_date_time` is the moment that was taken, a text that ends in
/// ` UTC`.
///
/// Fails, and leaves every row as it was, when no row carries the id
/// (`NotFound`) and when more than one does (`MultipleMatches`).
pub fn set_active(store: &mut RowStore, feature_id: &str, is_active: bool) -> (result: Result<
    Feature,
    ToggleError,
>)
    requires
        old(store).wf(),
    ensures
        final(store).wf(),
        final(store)@.last_id == old(store)@.last_id,
        match result {
            Ok(row) => {
                &&& matching(old(store)@.rows, feature_id@).len() == 1
                &&& is_utc_text(row@.updated_date_time)
                &&& final(store)@.rows == toggled(
                    old(store)@.rows,
                    feature_id@,
                    is_active,
                    row@.updated_date_time,
                )
                &&& row@ == switched(
                    matching(old(store)@.rows, feature_id@)[0],
                    is_active,
                    row@.updated_date_time,
                )
            },
            Err(ToggleError::NotFound) => {
                &&& matching(old(store)@.rows, feature_id@).len() == 0
                &&& final(store)@ == old(store)@
            },
            Err(ToggleError::MultipleMatches) => {
                &&& matching(old(store)@.rows, feature_id@).len() >= 2
                &&& final(store)@ == old(store)@
            },
        },
{
    let now = current_timestamp();
    store.set_active_at(feature_id, is_active, now.as_str())
}

/// What became of a list of requests: the rows that were switched, in the
/// order of the requests, and why the request after them failed, if one did.
#[derive(Debug, PartialEq, Eq)]
pub struct ToggleReport {
    pub updated: Vec<Feature>,
    pub failure: Option<ToggleError>,
}

/// Applies `requests` to `store` one after the other, in list order, each on
/// its own. Stops at the first request that fails: the requests before it
/// stay applied, those after it are not tried.
///
/// A request fails when no row, or more than one, carries its feature id.
/// Switching changes no feature id, so which requests can be served is settled
/// by the rows as they were at the start.
pub fn apply_toggles(store: &mut RowStore, requests: &Vec<FeatureRequest>) -> (report: ToggleReport)
    requires
        old(store).wf(),
    ensures
        final(store).wf(),
        final(store)@.last_id == old(store)@.last_id,
        report.updated.len() <= requests.len(),
        forall|k: int|
            0 <= k < report.updated.len() ==> serviceable(
                old(store)@.rows,
                #[trigger] requests.deep_view()[k],
            ),
        forall|k: int|
            0 <= k < report.updated.len() ==> is_utc_text(
                #[trigger] stamps_of(report.updated.deep_view())[k],
            ),
        final(store)@.rows == toggled_all(
            old(store)@.rows,
            requests.deep_view().take(report.updated.len() as int),
            stamps_of(report.updated.deep_view()),
        ),
        forall|k: int|
            0 <= k < report.updated.len() ==> (#[trigger] report.updated.deep_view()[k]) == switched(
                matching(
                    toggled_all(
                        old(store)@.rows,
                        requests.deep_view().take(k),
                        stamps_of(report.updated.deep_view()).take(k),
                    ),
                    requests.deep_view()[k].feature_id,
                )[0],
                requests.deep_view()[k].is_active,
                stamps_of(report.updated.deep_view())[k],
            ),
        match report.failure {
            None => report.updated.len() == requests.len(),
            Some(ToggleError::NotFound) => report.updated.len() < requests.len() && matching(
                old(store)@.rows,
                requests.deep_view()[report.updated.len() as int].feature_id,
            ).len() == 0,
            Some(ToggleError::MultipleMatches) => report.updated.len() < requests.len()
                && matching(
                old(store)@.rows,
                requests.deep_view()[report.updated.len() as int].feature_id,
            ).len() >= 2,
        },
{
    let ghost before = store@.rows;
    let ghost asked = requests.deep_view();
    let mut updated: Vec<Feature> = Vec::new();
    let mut i: usize = 0;
    while i < requests.len()
        invariant
            i <= requests.len(),
            updated.len() == i,
            store.wf(),
            store@.last_id == old(store)@.last_id,
            before == old(store)@.rows,
            asked == requests.deep_view(),
            forall|k: int| 0 <= k < i ==> serviceable(before, #[trigger] asked[k]),
            forall|k: int|
                0 <= k < i ==> is_utc_text(#[trigger] stamps_of(updated.deep_view())[k]),
            store@.rows == toggled_all(
                before,
                asked.take(i as int),
                stamps_of(updated.deep_view()),
            ),
            forall|k: int|
                0 <= k < i ==> (#[trigger] updated.deep_view()[k]) == switched(
                    matching(
                        toggled_all(before, asked.take(k), stamps_of(updated.deep_view()).take(k)),
                        asked[k].feature_id,
                    )[0],
                    asked[k].is_active,
                    stamps_of(updated.deep_view())[k],
                ),
        decreases requests.len() - i,
    {
        let request = &requests[i];
        let ghost stamps = stamps_of(updated.deep_view());
        proof {
            lemma_toggled_all_keeps_matching(
                before,
                asked.take(i as int),
                stamps,
                request@.feature_id,
            );
        }
        match set_active(store, request.feature_id.as_str(), request.is_active) {
            Ok(row) => {
                let ghost stamp = row@.updated_date_time;
                updated.push(row);
                proof {
                    let next = stamps_of(updated.deep_view());
                    assert(next =~= stamps.push(stamp));
                    assert(asked.take(i + 1).drop_last() =~= asked.take(i as int));
                    assert(next.take(i as int) =~= stamps);
                    assert forall|k: int| 0 <= k < i implies next.take(k) == stamps.take(k) by {
                        assert(next.take(k) =~= stamps.take(k));
                    }
                }
            },
            Err(error) => {
                return ToggleReport { updated, failure: Some(error) };
            },
        }
        i += 1;
    }
    ToggleReport { updated, failure: None }
}

/// What became of an update.
#[derive(Debug, PartialEq, Eq)]
pub enum UpdateOutcome {
    /// Every request was applied. `updated` holds the rows that were switched,
    /// in the order of the requests.
    Done { updated: Vec<Feature>, response: PatchFeaturesTogglesResponse },
    /// The body of the update could not be read. Nothing was tried.
    Malformed { response: PatchFeaturesTogglesResponse },
    /// The request at position `updated.len()` failed. The requests before it
    /// stay applied and `updated` holds their rows.
    Failed { updated: Vec<Feature>, error: ToggleError },
}

/// Serves an update. `payload` is the body as far as it could be read: `None`
/// stands for a body that was malformed.
///
/// A malformed body is answered with the status of a bad request and leaves
/// the store untouched. A body that was read has its requests applied as
/// [`apply_toggles`] does, and is answered with the status of a served request
/// when all of them went through.
pub fn patch_features_toggles(
    store: &mut RowStore,
    payload: Option<PatchFeaturesTogglesRequest>,
) -> (outcome: UpdateOutcome)
    requires
        old(store).wf(),
    ensures
        final(store).wf(),
        final(store)@.last_id == old(store)@.last_id,
        match payload {
            None => {
                &&& final(store)@ == old(store)@
                &&& outcome matches UpdateOutcome::Malformed { response }
                &&& response@ == (PatchFeaturesTogglesResponseView {
                    status: bad_request_status(),
                    data: no_payload(),
                })
            },
            Some(body) => {
                let asked = body.feature_list.deep_view();
                let all = forall|k: int|
                    0 <= k < asked.len() ==> serviceable(old(store)@.rows, #[trigger] asked[k]);
                match outcome {
                    UpdateOutcome::Done { updated, response } => {
                        &&& all
                        &&& updated.len() == asked.len()
                        &&& final(store)@.rows == toggled_all(
                            old(store)@.rows,
                            asked,
                            stamps_of(updated.deep_view()),
                        )
                        &&& response@ == (PatchFeaturesTogglesResponseView {
                            status: success_status(),
                            data: no_payload(),
                        })
                    },
                    UpdateOutcome::Failed { updated, error } => {
                        &&& updated.len() < asked.len()
                        &&& forall|k: int|
                            0 <= k < updated.len() ==> serviceable(
                                old(store)@.rows,
                                #[trigger] asked[k],
                            )
                        &&& !serviceable(old(store)@.rows, asked[updated.len() as int])
                        &&& error == ToggleError::NotFound <==> matching(
                            old(store)@.rows,
                            asked[updated.len() as int].feature_id,
                        ).len() == 0
                        &&& final(store)@.rows == toggled_all(
                            old(store)@.rows,
                            asked.take(updated.len() as int),
                            stamps_of(updated.deep_view()),
                        )
                    },
                    UpdateOutcome::Malformed { .. } => false,
                }
            },
        },
{
    match payload {
        None => UpdateOutcome::Malformed { response: PatchFeaturesTogglesResponse::bad_request() },
        Some(body) => {
            let report = apply_toggles(store, &body.feature_list);
            match report.failure {
                None => {
                    proof {
                        let asked = body.feature_list.deep_view();
                        assert(asked.take(asked.len() as int) =~= asked);
                    }
                    UpdateOutcome::Done {
                        updated: report.updated,
                        response: PatchFeaturesTogglesResponse::success(),
                    }
                },
                Some(error) => UpdateOutcome::Failed { updated: report.updated, error },
            }
        },
    }
}

} // verus!
