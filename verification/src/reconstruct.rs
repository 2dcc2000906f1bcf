//! From stored rows back to the nested catalog: select by kind, then group the
//! products under their categories.

use vstd::prelude::*;
use crate::catalog::{Data, DataView, NonCategory, NonCategoryView, Product, ProductCategory,
    ProductCategoryView, ProductView, SubProduct, SubProductView};
use crate::kind::FeatureKind;
use crate::models::{Feature, FeatureView};
use crate::seq_facts::{lemma_filter_drops_all, lemma_filter_keeps_all};

verus! {

/// Whether `row` is tagged as a feature of kind `kind`.
pub open spec fn has_kind(row: FeatureView, kind: FeatureKind) -> bool {
    row.feature_type == kind.tag()
}

/// Whether `row` is a product filed under category `category_id`.
pub open spec fn is_product_of(row: FeatureView, category_id: i32) -> bool {
    has_kind(row, FeatureKind::Product) && row.category_id == category_id
}

/// The rows of kind `kind`, in stored order.
pub open spec fn rows_of_kind(rows: Seq<FeatureView>, kind: FeatureKind) -> Seq<FeatureView> {
    rows.filter(|row: FeatureView| has_kind(row, kind))
}

/// The product rows filed under category `category_id`, in stored order.
pub open spec fn products_of(rows: Seq<FeatureView>, category_id: i32) -> Seq<FeatureView> {
    rows.filter(|row: FeatureView| is_product_of(row, category_id))
}

/// The category entry that a row stands for.
pub open spec fn category_entry(row: FeatureView) -> ProductCategoryView {
    ProductCategoryView {
        feature_id: row.feature_id,
        category_id: row.category_id,
        name_th: row.name_th,
        name_en: row.name_en,
        category_sorting_order: row.sorting_order,
        is_active: row.is_active,
        updated_date_time: row.updated_date_time,
        updated_by_id: row.updated_by_id,
        updated_by_name: row.updated_by_name,
    }
}

/// The product entry that a row stands for.
pub open spec fn sub_product_entry(row: FeatureView) -> SubProductView {
    SubProductView {
        feature_id: row.feature_id,
        product_id: row.product_id,
        code: row.code,
        name_th: row.name_th,
        name_en: row.name_en,
        sorting_order: row.sorting_order,
        is_active: row.is_active,
        updated_date_time: row.updated_date_time,
        updated_by_id: row.updated_by_id,
        updated_by_name: row.updated_by_name,
    }
}

/// The service or system entry that a row stands for.
pub open spec fn non_category_entry(row: FeatureView) -> NonCategoryView {
    NonCategoryView {
        feature_id: row.feature_id,
        name_th: row.name_th,
        name_en: row.name_en,
        sorting_order: row.sorting_order,
        is_active: row.is_active,
        updated_date_time: row.updated_date_time,
        updated_by_id: row.updated_by_id,
        updated_by_name: row.updated_by_name,
    }
}

/// Each row read as a category.
pub open spec fn as_categories(rows: Seq<FeatureView>) -> Seq<ProductCategoryView> {
    rows.map_values(|row: FeatureView| category_entry(row))
}

/// Each row read as a product.
pub open spec fn as_sub_products(rows: Seq<FeatureView>) -> Seq<SubProductView> {
    rows.map_values(|row: FeatureView| sub_product_entry(row))
}

/// Each row read as a service or a system feature.
pub open spec fn as_non_categories(rows: Seq<FeatureView>) -> Seq<NonCategoryView> {
    rows.map_values(|row: FeatureView| non_category_entry(row))
}

/// The category entries of `rows`, one per category row, in stored order.
pub open spec fn category_entries(rows: Seq<FeatureView>) -> Seq<ProductCategoryView> {
    as_categories(rows_of_kind(rows, FeatureKind::Category))
}

/// The entries of the rows of kind `kind`, read as services or system features.
pub open spec fn non_category_entries(rows: Seq<FeatureView>, kind: FeatureKind) -> Seq<
    NonCategoryView,
> {
    as_non_categories(rows_of_kind(rows, kind))
}

/// The group of category `category_id`: every product row of `rows` filed
/// under it, in stored order. Empty when there is none.
pub open spec fn product_group(rows: Seq<FeatureView>, category_id: i32) -> ProductView {
    ProductView {
        category_id,
        sub_product_list: as_sub_products(products_of(rows, category_id)),
    }
}

/// For each of `categories`, the group of its `category_id` among `rows`.
pub open spec fn groups_for(categories: Seq<FeatureView>, rows: Seq<FeatureView>) -> Seq<
    ProductView,
> {
    categories.map_values(|category: FeatureView| product_group(rows, category.category_id))
}

/// One group per category row of `rows`, in the order of the category rows.
/// Two category rows with one `category_id` get the same products each.
pub open spec fn product_groups(rows: Seq<FeatureView>) -> Seq<ProductView> {
    groups_for(rows_of_kind(rows, FeatureKind::Category), rows)
}

/// Whether every one of `rows` has kind `kind`.
#[verifier::opaque]
pub open spec fn all_of_kind(rows: Seq<FeatureView>, kind: FeatureKind) -> bool {
    forall|i: int| 0 <= i < rows.len() ==> has_kind(#[trigger] rows[i], kind)
}

/// The nested catalog that `rows` stand for.
pub open spec fn reconstruct(rows: Seq<FeatureView>) -> DataView {
    DataView {
        product_category_list: category_entries(rows),
        product_list: product_groups(rows),
        service_list: non_category_entries(rows, FeatureKind::Service),
        system_list: non_category_entries(rows, FeatureKind::System),
    }
}

/// Extending the rows by one extends the selection of a kind by that row, or
/// leaves it as it was.
pub proof fn lemma_rows_of_kind_push(rows: Seq<FeatureView>, row: FeatureView, kind: FeatureKind)
    ensures
        rows_of_kind(rows.push(row), kind) == if has_kind(row, kind) {
            rows_of_kind(rows, kind).push(row)
        } else {
            rows_of_kind(rows, kind)
        },
{
    rows.lemma_filter_push(row, |r: FeatureView| has_kind(r, kind));
}

/// Extending the rows by one extends the products of a category by that row,
/// or leaves them as they were.
pub proof fn lemma_products_of_push(rows: Seq<FeatureView>, row: FeatureView, category_id: i32)
    ensures
        products_of(rows.push(row), category_id) == if is_product_of(row, category_id) {
            products_of(rows, category_id).push(row)
        } else {
            products_of(rows, category_id)
        },
{
    rows.lemma_filter_push(row, |r: FeatureView| is_product_of(r, category_id));
}

/// Selecting a kind from rows laid end to end selects it from each part.
pub proof fn lemma_rows_of_kind_add(a: Seq<FeatureView>, b: Seq<FeatureView>, kind: FeatureKind)
    ensures
        rows_of_kind(a + b, kind) == rows_of_kind(a, kind) + rows_of_kind(b, kind),
{
    Seq::filter_distributes_over_add(a, b, |r: FeatureView| has_kind(r, kind));
}

/// The products of a category among rows laid end to end are its products
/// in each part.
pub proof fn lemma_products_of_add(a: Seq<FeatureView>, b: Seq<FeatureView>, category_id: i32)
    ensures
        products_of(a + b, category_id) == products_of(a, category_id) + products_of(
            b,
            category_id,
        ),
{
    Seq::filter_distributes_over_add(a, b, |r: FeatureView| is_product_of(r, category_id));
}

/// Among rows that all have kind `kind`, selecting `kind` keeps them all and
/// selecting another kind keeps none.
pub proof fn lemma_rows_of_kind_uniform(rows: Seq<FeatureView>, kind: FeatureKind, wanted: FeatureKind)
    requires
        all_of_kind(rows, kind),
    ensures
        wanted == kind ==> rows_of_kind(rows, wanted) == rows,
        wanted != kind ==> rows_of_kind(rows, wanted) == Seq::<FeatureView>::empty(),
{
    reveal(all_of_kind);
    FeatureKind::lemma_tags_distinct();
    if wanted == kind {
        lemma_filter_keeps_all(rows, |r: FeatureView| has_kind(r, wanted));
    } else {
        lemma_filter_drops_all(rows, |r: FeatureView| has_kind(r, wanted));
    }
}

/// Rows of a kind other than product hold no product of any category.
pub proof fn lemma_products_of_other_kind(
    rows: Seq<FeatureView>,
    kind: FeatureKind,
    category_id: i32,
)
    requires
        all_of_kind(rows, kind),
        kind != FeatureKind::Product,
    ensures
        products_of(rows, category_id) == Seq::<FeatureView>::empty(),
{
    reveal(all_of_kind);
    FeatureKind::lemma_tags_distinct();
    lemma_filter_drops_all(rows, |r: FeatureView| is_product_of(r, category_id));
}

/// Rows of which none is a product of category `category_id` hold no product
/// of that category.
pub proof fn lemma_products_of_none(rows: Seq<FeatureView>, category_id: i32)
    requires
        forall|i: int| 0 <= i < rows.len() ==> !is_product_of(#[trigger] rows[i], category_id),
    ensures
        products_of(rows, category_id) == Seq::<FeatureView>::empty(),
{
    lemma_filter_drops_all(rows, |r: FeatureView| is_product_of(r, category_id));
}

/// Rows that are all products of category `category_id` are its products.
pub proof fn lemma_products_of_all(rows: Seq<FeatureView>, category_id: i32)
    requires
        forall|i: int| 0 <= i < rows.len() ==> is_product_of(#[trigger] rows[i], category_id),
    ensures
        products_of(rows, category_id) == rows,
{
    lemma_filter_keeps_all(rows, |r: FeatureView| is_product_of(r, category_id));
}

/// The rows of kind `kind`, copied out in stored order.
pub fn select_kind(rows: &Vec<Feature>, kind: FeatureKind) -> (selected: Vec<Feature>)
    ensures
        selected.deep_view() == rows_of_kind(rows.deep_view(), kind),
{
    let mut selected: Vec<Feature> = Vec::new();
    let mut i: usize = 0;
    while i < rows.len()
        invariant
            i <= rows.len(),
            selected.deep_view() == rows_of_kind(rows.deep_view().take(i as int), kind),
        decreases rows.len() - i,
    {
        proof {
            assert(rows.deep_view().take(i + 1) =~= rows.deep_view().take(i as int).push(rows[i as int]@));
            lemma_rows_of_kind_push(rows.deep_view().take(i as int), rows[i as int]@, kind);
        }
        if kind.matches_tag(&rows[i].feature_type) {
            selected.push(rows[i].clone());
        }
        i += 1;
    }
    assert(rows.deep_view().take(rows.len() as int) =~= rows.deep_view());
    selected
}

/// The product rows filed under `category_id`, copied out in stored order.
pub fn select_products(rows: &Vec<Feature>, category_id: i32) -> (selected: Vec<Feature>)
    ensures
        selected.deep_view() == products_of(rows.deep_view(), category_id),
{
    let mut selected: Vec<Feature> = Vec::new();
    let mut i: usize = 0;
    while i < rows.len()
        invariant
            i <= rows.len(),
            selected.deep_view() == products_of(rows.deep_view().take(i as int), category_id),
        decreases rows.len() - i,
    {
        proof {
            assert(rows.deep_view().take(i + 1) =~= rows.deep_view().take(i as int).push(rows[i as int]@));
            lemma_products_of_push(rows.deep_view().take(i as int), rows[i as int]@, category_id);
        }
        if FeatureKind::Product.matches_tag(&rows[i].feature_type) && rows[i].category_id
            == category_id {
            selected.push(rows[i].clone());
        }
        i += 1;
    }
    assert(rows.deep_view().take(rows.len() as int) =~= rows.deep_view());
    selected
}

/// Reads a row as a category.
pub fn category_from_row(row: &Feature) -> (entry: ProductCategory)
    ensures
        entry@ == category_entry(row@),
{
    ProductCategory {
        feature_id: row.feature_id.clone(),
        category_id: row.category_id,
        name_th: row.name_th.clone(),
        name_en: row.name_en.clone(),
        category_sorting_order: row.sorting_order,
        is_active: row.is_active,
        updated_date_time: row.updated_date_time.clone(),
        updated_by_id: row.updated_by_id.clone(),
        updated_by_name: row.updated_by_name.clone(),
    }
}

/// Reads a row as a product.
pub fn sub_product_from_row(row: &Feature) -> (entry: SubProduct)
    ensures
        entry@ == sub_product_entry(row@),
{
    SubProduct {
        feature_id: row.feature_id.clone(),
        product_id: row.product_id.clone(),
        code: row.code.clone(),
        name_th: row.name_th.clone(),
        name_en: row.name_en.clone(),
        sorting_order: row.sorting_order,
        is_active: row.is_active,
        updated_date_time: row.updated_date_time.clone(),
        updated_by_id: row.updated_by_id.clone(),
        updated_by_name: row.updated_by_name.clone(),
    }
}

/// Reads a row as a service or a system feature.
pub fn non_category_from_row(row: &Feature) -> (entry: NonCategory)
    ensures
        entry@ == non_category_entry(row@),
{
    NonCategory {
        feature_id: row.feature_id.clone(),
        name_th: row.name_th.clone(),
        name_en: row.name_en.clone(),
        sorting_order: row.sorting_order,
        is_active: row.is_active,
        updated_date_time: row.updated_date_time.clone(),
        updated_by_id: row.updated_by_id.clone(),
        updated_by_name: row.updated_by_name.clone(),
    }
}

/// The group of one category: its products among `rows`, in stored order.
pub fn group_products(rows: &Vec<Feature>, category_id: i32) -> (group: Product)
    ensures
        group@ == product_group(rows.deep_view(), category_id),
{
    let products = select_products(rows, category_id);
    let mut sub_product_list: Vec<SubProduct> = Vec::new();
    let mut i: usize = 0;
    while i < products.len()
        invariant
            i <= products.len(),
            sub_product_list.len() == i,
            forall|j: int|
                0 <= j < i ==> (#[trigger] sub_product_list[j])@ == sub_product_entry(products[j]@),
        decreases products.len() - i,
    {
        sub_product_list.push(sub_product_from_row(&products[i]));
        i += 1;
    }
    let group = Product { category_id, sub_product_list };
    assert(group@.sub_product_list =~= product_group(
        rows.deep_view(),
        category_id,
    ).sub_product_list);
    group
}

/// The services (`FeatureKind::Service`) or system features
/// (`FeatureKind::System`) among `rows`, in stored order.
pub fn collect_non_category(rows: &Vec<Feature>, kind: FeatureKind) -> (entries: Vec<NonCategory>)
    ensures
        entries.deep_view() == non_category_entries(rows.deep_view(), kind),
{
    let selected = select_kind(rows, kind);
    let mut entries: Vec<NonCategory> = Vec::new();
    let mut i: usize = 0;
    while i < selected.len()
        invariant
            i <= selected.len(),
            entries.len() == i,
            forall|j: int| 0 <= j < i ==> (#[trigger] entries[j])@ == non_category_entry(selected[j]@),
        decreases selected.len() - i,
    {
        entries.push(non_category_from_row(&selected[i]));
        i += 1;
    }
    entries
}

/// Rebuilds the nested catalog from stored rows.
///
/// The category rows become `product_category_list`, in stored order. Each
/// category row also yields one group of `product_list`, at the same
/// position, holding the product rows that carry its `category_id` (none,
/// when there is no such row). Service and system rows fill their own lists.
/// Rows of no known kind are passed over.
pub fn reconstruct_catalog(rows: &Vec<Feature>) -> (data: Data)
    ensures
        data@ == reconstruct(rows.deep_view()),
{
    let categories = select_kind(rows, FeatureKind::Category);
    let mut product_category_list: Vec<ProductCategory> = Vec::new();
    let mut product_list: Vec<Product> = Vec::new();
    let mut i: usize = 0;
    while i < categories.len()
        invariant
            i <= categories.len(),
            product_category_list.len() == i,
            product_list.len() == i,
            forall|j: int|
                0 <= j < i ==> (#[trigger] product_category_list[j])@ == category_entry(
                    categories[j]@,
                ),
            forall|j: int|
                0 <= j < i ==> (#[trigger] product_list[j])@ == product_group(
                    rows.deep_view(),
                    categories[j].category_id,
                ),
        decreases categories.len() - i,
    {
        product_category_list.push(category_from_row(&categories[i]));
        product_list.push(group_products(rows, categories[i].category_id));
        i += 1;
    }
    let service_list = collect_non_category(rows, FeatureKind::Service);
    let system_list = collect_non_category(rows, FeatureKind::System);
    let data = Data { product_category_list, product_list, service_list, system_list };
    proof {
        let expected = reconstruct(rows.deep_view());
        assert(data@.product_category_list =~= expected.product_category_list);
        assert(data@.product_list =~= expected.product_list);
    }
    data
}

} // verus!
