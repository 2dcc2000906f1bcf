//! How the groups of the catalog follow its categories.

use vstd::prelude::*;
use crate::kind::FeatureKind;
use crate::models::FeatureView;
use crate::reconstruct::{as_sub_products, is_product_of, lemma_products_of_none, products_of,
    reconstruct, rows_of_kind, sub_product_entry};

verus! {

/// The catalog read from any rows has one group per category, at the
/// category's position and under its id. The group holds the products filed
/// under that id, all of them and in stored order, and is empty when no
/// product row carries the id.
pub proof fn lemma_groups_follow_categories(rows: Seq<FeatureView>)
    ensures
        ({
            let data = reconstruct(rows);
            let categories = rows_of_kind(rows, FeatureKind::Category);
            &&& data.product_category_list.len() == categories.len()
            &&& data.product_list.len() == categories.len()
            &&& forall|i: int|
                0 <= i < categories.len() ==> {
                    let group = #[trigger] data.product_list[i];
                    let category_id = data.product_category_list[i].category_id;
                    &&& category_id == categories[i].category_id
                    &&& group.category_id == category_id
                    &&& group.sub_product_list == as_sub_products(products_of(rows, category_id))
                    &&& (forall|k: int|
                        0 <= k < rows.len() ==> !is_product_of(#[trigger] rows[k], category_id))
                        ==> group.sub_product_list.len() == 0
                    &&& forall|k: int|
                        0 <= k < rows.len() && is_product_of(#[trigger] rows[k], category_id)
                            ==> group.sub_product_list.contains(sub_product_entry(rows[k]))
                }
        }),
{
    let data = reconstruct(rows);
    let categories = rows_of_kind(rows, FeatureKind::Category);
    assert forall|i: int| 0 <= i < categories.len() implies {
        let group = #[trigger] data.product_list[i];
        let category_id = data.product_category_list[i].category_id;
        &&& (forall|k: int| 0 <= k < rows.len() ==> !is_product_of(#[trigger] rows[k], category_id))
            ==> group.sub_product_list.len() == 0
        &&& forall|k: int|
            0 <= k < rows.len() && is_product_of(#[trigger] rows[k], category_id)
                ==> group.sub_product_list.contains(sub_product_entry(rows[k]))
    } by {
        let category_id = categories[i].category_id;
        let products = products_of(rows, category_id);
        if forall|k: int| 0 <= k < rows.len() ==> !is_product_of(#[trigger] rows[k], category_id) {
            lemma_products_of_none(rows, category_id);
        }
        assert forall|k: int|
            0 <= k < rows.len() && is_product_of(#[trigger] rows[k], category_id) implies as_sub_products(
            products,
        ).contains(sub_product_entry(rows[k])) by {
            rows.lemma_filter_contains(|r: FeatureView| is_product_of(r, category_id), k);
            let at = choose|at: int| 0 <= at < products.len() && products[at] == rows[k];
            assert(as_sub_products(products)[at] == sub_product_entry(rows[k]));
        }
    }
}

} // verus!
