//! Each list of the nested catalog is made of the rows of its own kind and of
//! no others.

use vstd::prelude::*;
use crate::kind::FeatureKind;
use crate::models::FeatureView;
use crate::reconstruct::{category_entries, category_entry, groups_for, has_kind, is_product_of,
    lemma_products_of_add, lemma_products_of_push, lemma_rows_of_kind_add, lemma_rows_of_kind_push,
    non_category_entries, non_category_entry, product_group, product_groups, products_of,
    reconstruct, rows_of_kind};

verus! {

/// The rows `before`, then `row`, then the rows `after`.
pub open spec fn with_row(before: Seq<FeatureView>, row: FeatureView, after: Seq<FeatureView>) -> Seq<
    FeatureView,
> {
    before + seq![row] + after
}

/// Selecting a kind from rows with one row put in between: the selection
/// gains that row at its place if the row has the kind, and is as without the
/// row if not.
pub proof fn lemma_rows_of_kind_with_row(
    before: Seq<FeatureView>,
    row: FeatureView,
    after: Seq<FeatureView>,
    kind: FeatureKind,
)
    ensures
        has_kind(row, kind) ==> rows_of_kind(with_row(before, row, after), kind) == rows_of_kind(
            before,
            kind,
        ).push(row) + rows_of_kind(after, kind),
        !has_kind(row, kind) ==> rows_of_kind(with_row(before, row, after), kind) == rows_of_kind(
            before + after,
            kind,
        ),
{
    assert(before + seq![row] =~= before.push(row));
    lemma_rows_of_kind_add(before.push(row), after, kind);
    lemma_rows_of_kind_push(before, row, kind);
    lemma_rows_of_kind_add(before, after, kind);
}

/// The products of a category among rows with one row put in between: they
/// gain that row at its place if it is a product of the category, and are as
/// without the row if not.
pub proof fn lemma_products_of_with_row(
    before: Seq<FeatureView>,
    row: FeatureView,
    after: Seq<FeatureView>,
    category_id: i32,
)
    ensures
        is_product_of(row, category_id) ==> products_of(with_row(before, row, after), category_id)
            == products_of(before, category_id).push(row) + products_of(after, category_id),
        !is_product_of(row, category_id) ==> products_of(with_row(before, row, after), category_id)
            == products_of(before + after, category_id),
{
    assert(before + seq![row] =~= before.push(row));
    lemma_products_of_add(before.push(row), after, category_id);
    lemma_products_of_push(before, row, category_id);
    lemma_products_of_add(before, after, category_id);
}

/// Rows that agree on their category rows and on the products of every
/// category give the same groups.
proof fn lemma_same_groups(rows: Seq<FeatureView>, others: Seq<FeatureView>)
    requires
        rows_of_kind(rows, FeatureKind::Category) == rows_of_kind(others, FeatureKind::Category),
        forall|category_id: i32| #[trigger]
            products_of(rows, category_id) == products_of(others, category_id),
    ensures
        product_groups(rows) == product_groups(others),
{
    let categories = rows_of_kind(rows, FeatureKind::Category);
}

/// A row shows in the list of its own kind and nowhere else. Put a row
/// anywhere among stored rows and compare the catalog read with it and without
/// it:
/// - a service row adds its entry to `service_list`, at its place among the
///   services, and a system row does so in `system_list`; the categories and
///   the groups are as without it, and so is the other of the two lists;
/// - a product row leaves the categories, the services and the system
///   features as without it, and the groups as many, with the same ids;
/// - a category row leaves the services and the system features as without
///   it, and is no group's product: the group of every category id holds the
///   same products;
/// - a row of no kind changes nothing.
pub proof fn lemma_type_isolation(
    before: Seq<FeatureView>,
    row: FeatureView,
    after: Seq<FeatureView>,
)
    ensures
        ({
            let with = reconstruct(with_row(before, row, after));
            let without = reconstruct(before + after);
            &&& has_kind(row, FeatureKind::Service) ==> {
                &&& with.product_category_list == without.product_category_list
                &&& with.product_list == without.product_list
                &&& with.system_list == without.system_list
                &&& with.service_list == non_category_entries(before, FeatureKind::Service).push(
                    non_category_entry(row),
                ) + non_category_entries(after, FeatureKind::Service)
            }
            &&& has_kind(row, FeatureKind::System) ==> {
                &&& with.product_category_list == without.product_category_list
                &&& with.product_list == without.product_list
                &&& with.service_list == without.service_list
                &&& with.system_list == non_category_entries(before, FeatureKind::System).push(
                    non_category_entry(row),
                ) + non_category_entries(after, FeatureKind::System)
            }
            &&& has_kind(row, FeatureKind::Product) ==> {
                &&& with.product_category_list == without.product_category_list
                &&& with.service_list == without.service_list
                &&& with.system_list == without.system_list
                &&& with.product_list.len() == without.product_list.len()
                &&& forall|i: int|
                    0 <= i < with.product_list.len() ==> (#[trigger] with.product_list[i]).category_id
                        == without.product_list[i].category_id
            }
            &&& has_kind(row, FeatureKind::Category) ==> {
                &&& with.service_list == without.service_list
                &&& with.system_list == without.system_list
                &&& with.product_category_list == category_entries(before).push(category_entry(row))
                    + category_entries(after)
                &&& forall|category_id: i32| #[trigger]
                    product_group(with_row(before, row, after), category_id) == product_group(
                        before + after,
                        category_id,
                    )
            }
            &&& FeatureKind::of_tag(row.feature_type) is None ==> with == without
        }),
{
    FeatureKind::lemma_tags_distinct();
    let rows = with_row(before, row, after);
    let others = before + after;
    lemma_rows_of_kind_with_row(before, row, after, FeatureKind::Category);
    lemma_rows_of_kind_with_row(before, row, after, FeatureKind::Service);
    lemma_rows_of_kind_with_row(before, row, after, FeatureKind::System);
    assert forall|category_id: i32|
        !has_kind(row, FeatureKind::Product) implies #[trigger] products_of(rows, category_id)
        == products_of(others, category_id) by {
        lemma_products_of_with_row(before, row, after, category_id);
    }
    if !has_kind(row, FeatureKind::Category) && !has_kind(row, FeatureKind::Product) {
        lemma_same_groups(rows, others);
    }
}

} // verus!
