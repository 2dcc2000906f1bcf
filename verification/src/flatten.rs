//! From the nested catalog to rows: every entry becomes one row, tagged with
//! its kind, with sentinels in the columns that its kind does not use.

use vstd::prelude::*;
use crate::catalog::{Data, DataView, NonCategory, NonCategoryView, Product, ProductCategory,
    ProductCategoryView, ProductView, SubProduct, SubProductView};
use crate::kind::FeatureKind;
use crate::models::{NewFeature, NewFeatureView};

verus! {

/// The row of a category: its own `category_id`, no product columns, and
/// `category_sorting_order` as the sorting order.
pub open spec fn category_row(entry: ProductCategoryView) -> NewFeatureView {
    NewFeatureView {
        feature_id: entry.feature_id,
        category_id: entry.category_id,
        product_id: Seq::empty(),
        code: Seq::empty(),
        name_th: entry.name_th,
        name_en: entry.name_en,
        is_active: entry.is_active,
        updated_date_time: entry.updated_date_time,
        updated_by_id: entry.updated_by_id,
        updated_by_name: entry.updated_by_name,
        sorting_order: entry.category_sorting_order,
        feature_type: FeatureKind::Category.tag(),
    }
}

/// The row of a product listed in the group of category `category_id`.
pub open spec fn sub_product_row(category_id: i32, entry: SubProductView) -> NewFeatureView {
    NewFeatureView {
        feature_id: entry.feature_id,
        category_id,
        product_id: entry.product_id,
        code: entry.code,
        name_th: entry.name_th,
        name_en: entry.name_en,
        is_active: entry.is_active,
        updated_date_time: entry.updated_date_time,
        updated_by_id: entry.updated_by_id,
        updated_by_name: entry.updated_by_name,
        sorting_order: entry.sorting_order,
        feature_type: FeatureKind::Product.tag(),
    }
}

/// The row of a service (`kind` is `Service`) or of a system feature (`kind`
/// is `System`): category `0` and no product columns.
pub open spec fn non_category_row(entry: NonCategoryView, kind: FeatureKind) -> NewFeatureView {
    NewFeatureView {
        feature_id: entry.feature_id,
        category_id: 0,
        product_id: Seq::empty(),
        code: Seq::empty(),
        name_th: entry.name_th,
        name_en: entry.name_en,
        is_active: entry.is_active,
        updated_date_time: entry.updated_date_time,
        updated_by_id: entry.updated_by_id,
        updated_by_name: entry.updated_by_name,
        sorting_order: entry.sorting_order,
        feature_type: kind.tag(),
    }
}

/// The rows of a list of categories, in list order.
pub open spec fn category_rows(entries: Seq<ProductCategoryView>) -> Seq<NewFeatureView> {
    entries.map_values(|entry: ProductCategoryView| category_row(entry))
}

/// The rows of one group: its products in list order, each under the group's
/// `category_id`.
pub open spec fn group_rows(group: ProductView) -> Seq<NewFeatureView> {
    group.sub_product_list.map_values(
        |entry: SubProductView| sub_product_row(group.category_id, entry),
    )
}

/// The rows of a list of groups: group after group.
pub open spec fn product_rows(groups: Seq<ProductView>) -> Seq<NewFeatureView>
    decreases groups.len(),
{
    if groups.len() == 0 {
        Seq::empty()
    } else {
        product_rows(groups.drop_last()) + group_rows(groups.last())
    }
}

/// The rows of a list of services or of system features, in list order.
pub open spec fn non_category_rows(entries: Seq<NonCategoryView>, kind: FeatureKind) -> Seq<
    NewFeatureView,
> {
    entries.map_values(|entry: NonCategoryView| non_category_row(entry, kind))
}

/// The rows of a whole catalog: categories, then products group by group,
/// then services, then system features.
pub open spec fn flatten(data: DataView) -> Seq<NewFeatureView> {
    category_rows(data.product_category_list) + product_rows(data.product_list)
        + non_category_rows(data.service_list, FeatureKind::Service) + non_category_rows(
        data.system_list,
        FeatureKind::System,
    )
}

/// One more group adds its rows behind those of the groups before it.
pub proof fn lemma_product_rows_push(groups: Seq<ProductView>, group: ProductView)
    ensures
        product_rows(groups.push(group)) == product_rows(groups) + group_rows(group),
{
    assert(groups.push(group).drop_last() =~= groups);
}

/// Whether the columns of a row fit its kind: the row has one of the four
/// kinds, and holds the sentinels where its kind has no use for a column (no
/// product columns but in a product, category `0` in a service and in a system
/// feature).
pub open spec fn fits_its_kind(row: NewFeatureView) -> bool {
    match FeatureKind::of_tag(row.feature_type) {
        Some(FeatureKind::Category) => row.product_id.len() == 0 && row.code.len() == 0,
        Some(FeatureKind::Product) => true,
        Some(FeatureKind::Service) | Some(FeatureKind::System) => row.category_id == 0
            && row.product_id.len() == 0 && row.code.len() == 0,
        None => false,
    }
}

/// Every row of a list of groups is a product.
pub proof fn lemma_product_rows_are_products(groups: Seq<ProductView>)
    ensures
        forall|i: int|
            0 <= i < product_rows(groups).len() ==> (#[trigger] product_rows(
                groups,
            )[i]).feature_type == FeatureKind::Product.tag(),
    decreases groups.len(),
{
    if groups.len() > 0 {
        let before = product_rows(groups.drop_last());
        let last = group_rows(groups.last());
        lemma_product_rows_are_products(groups.drop_last());
        assert forall|i: int| 0 <= i < product_rows(groups).len() implies (#[trigger] product_rows(
            groups,
        )[i]).feature_type == FeatureKind::Product.tag() by {
            if i < before.len() {
                assert(product_rows(groups)[i] == before[i]);
            } else {
                assert(product_rows(groups)[i] == last[i - before.len()]);
            }
        }
    }
}

/// Every row of a flattened catalog fits its kind.
pub proof fn lemma_flattened_rows_fit(data: DataView)
    ensures
        forall|i: int| 0 <= i < flatten(data).len() ==> fits_its_kind(#[trigger] flatten(data)[i]),
{
    FeatureKind::lemma_tags_distinct();
    lemma_product_rows_are_products(data.product_list);
    let a = category_rows(data.product_category_list);
    let b = product_rows(data.product_list);
    let c = non_category_rows(data.service_list, FeatureKind::Service);
    let d = non_category_rows(data.system_list, FeatureKind::System);
    assert forall|i: int| 0 <= i < flatten(data).len() implies fits_its_kind(
        #[trigger] flatten(data)[i],
    ) by {
        let row = flatten(data)[i];
        if i < a.len() {
            assert(row == a[i]);
        } else if i < a.len() + b.len() {
            assert(row == b[i - a.len()]);
        } else if i < a.len() + b.len() + c.len() {
            assert(row == c[i - a.len() - b.len()]);
        } else {
            assert(row == d[i - a.len() - b.len() - c.len()]);
        }
    }
}

/// The row of a category entry.
pub fn flatten_category(entry: &ProductCategory) -> (row: NewFeature)
    ensures
        row@ == category_row(entry@),
{
    NewFeature {
        feature_id: entry.feature_id.clone(),
        category_id: entry.category_id,
        product_id: String::new(),
        code: String::new(),
        name_th: entry.name_th.clone(),
        name_en: entry.name_en.clone(),
        is_active: entry.is_active,
        updated_date_time: entry.updated_date_time.clone(),
        updated_by_id: entry.updated_by_id.clone(),
        updated_by_name: entry.updated_by_name.clone(),
        sorting_order: entry.category_sorting_order,
        feature_type: FeatureKind::Category.name(),
    }
}

/// The row of a product entry found in the group of category `category_id`.
pub fn flatten_sub_product(category_id: i32, entry: &SubProduct) -> (row: NewFeature)
    ensures
        row@ == sub_product_row(category_id, entry@),
{
    NewFeature {
        feature_id: entry.feature_id.clone(),
        category_id,
        product_id: entry.product_id.clone(),
        code: entry.code.clone(),
        name_th: entry.name_th.clone(),
        name_en: entry.name_en.clone(),
        is_active: entry.is_active,
        updated_date_time: entry.updated_date_time.clone(),
        updated_by_id: entry.updated_by_id.clone(),
        updated_by_name: entry.updated_by_name.clone(),
        sorting_order: entry.sorting_order,
        feature_type: FeatureKind::Product.name(),
    }
}

/// The row of a service entry.
pub fn flatten_service(entry: &NonCategory) -> (row: NewFeature)
    ensures
        row@ == non_category_row(entry@, FeatureKind::Service),
{
    flatten_non_category(entry, FeatureKind::Service)
}

/// The row of a system entry.
pub fn flatten_system(entry: &NonCategory) -> (row: NewFeature)
    ensures
        row@ == non_category_row(entry@, FeatureKind::System),
{
    flatten_non_category(entry, FeatureKind::System)
}

fn flatten_non_category(entry: &NonCategory, kind: FeatureKind) -> (row: NewFeature)
    ensures
        row@ == non_category_row(entry@, kind),
{
    NewFeature {
        feature_id: entry.feature_id.clone(),
        category_id: 0,
        product_id: String::new(),
        code: String::new(),
        name_th: entry.name_th.clone(),
        name_en: entry.name_en.clone(),
        is_active: entry.is_active,
        updated_date_time: entry.updated_date_time.clone(),
        updated_by_id: entry.updated_by_id.clone(),
        updated_by_name: entry.updated_by_name.clone(),
        sorting_order: entry.sorting_order,
        feature_type: kind.name(),
    }
}

/// Flattens a whole catalog into the rows to be stored, in the order in which
/// they are to be inserted: categories, then the products group by group, then
/// services, then system features; within each list, in list order.
pub fn flatten_catalog(data: &Data) -> (rows: Vec<NewFeature>)
    ensures
        rows.deep_view() == flatten(data@),
{
    let mut rows: Vec<NewFeature> = Vec::new();
    let ghost categories = category_rows(data@.product_category_list);
    let mut i: usize = 0;
    while i < data.product_category_list.len()
        invariant
            i <= data.product_category_list.len(),
            categories == category_rows(data@.product_category_list),
            rows.deep_view() == categories.take(i as int),
        decreases data.product_category_list.len() - i,
    {
        let ghost before = rows.deep_view();
        rows.push(flatten_category(&data.product_category_list[i]));
        assert(rows.deep_view() =~= before.push(category_row(data.product_category_list[i as int]@)));
        i += 1;
    }

    let ghost groups = data@.product_list;
    let mut g: usize = 0;
    while g < data.product_list.len()
        invariant
            g <= data.product_list.len(),
            groups == data@.product_list,
            rows.deep_view() == categories + product_rows(groups.take(g as int)),
        decreases data.product_list.len() - g,
    {
        let product = &data.product_list[g];
        let ghost done = categories + product_rows(groups.take(g as int));
        let ghost current = group_rows(product@);
        let mut j: usize = 0;
        while j < product.sub_product_list.len()
            invariant
                j <= product.sub_product_list.len(),
                current == group_rows(product@),
                rows.deep_view() == done + current.take(j as int),
            decreases product.sub_product_list.len() - j,
        {
            let ghost before = rows.deep_view();
            rows.push(flatten_sub_product(product.category_id, &product.sub_product_list[j]));
            assert(rows.deep_view() =~= before.push(
                sub_product_row(product.category_id, product.sub_product_list[j as int]@),
            ));
            j += 1;
        }
        proof {
            assert(groups.take(g + 1) =~= groups.take(g as int).push(product@));
            lemma_product_rows_push(groups.take(g as int), product@);
        }
        g += 1;
    }
    assert(groups.take(data.product_list.len() as int) =~= groups);

    let ghost services = non_category_rows(data@.service_list, FeatureKind::Service);
    let ghost head = categories + product_rows(groups);
    let mut s: usize = 0;
    while s < data.service_list.len()
        invariant
            s <= data.service_list.len(),
            services == non_category_rows(data@.service_list, FeatureKind::Service),
            rows.deep_view() == head + services.take(s as int),
        decreases data.service_list.len() - s,
    {
        let ghost before = rows.deep_view();
        rows.push(flatten_service(&data.service_list[s]));
        assert(rows.deep_view() =~= before.push(
            non_category_row(data.service_list[s as int]@, FeatureKind::Service),
        ));
        s += 1;
    }

    let ghost systems = non_category_rows(data@.system_list, FeatureKind::System);
    let ghost body = head + services;
    let mut t: usize = 0;
    while t < data.system_list.len()
        invariant
            t <= data.system_list.len(),
            systems == non_category_rows(data@.system_list, FeatureKind::System),
            rows.deep_view() == body + systems.take(t as int),
        decreases data.system_list.len() - t,
    {
        let ghost before = rows.deep_view();
        rows.push(flatten_system(&data.system_list[t]));
        assert(rows.deep_view() =~= before.push(
            non_category_row(data.system_list[t as int]@, FeatureKind::System),
        ));
        t += 1;
    }
    rows
}

} // verus!
