//! What reading back gives after a flattened catalog was stored, and when that
//! is the catalog that went in.

use vstd::prelude::*;
use crate::catalog::{DataView, NonCategoryView, ProductCategoryView, ProductView, SubProductView};
use crate::flatten::{category_row, category_rows, flatten, group_rows, non_category_row,
    non_category_rows, product_rows, sub_product_row};
use crate::kind::FeatureKind;
use crate::models::{contents, FeatureView, NewFeatureView};
use crate::reconstruct::{all_of_kind, as_categories, as_non_categories, category_entry, groups_for,
    has_kind, lemma_products_of_add, lemma_products_of_all, lemma_products_of_none,
    lemma_products_of_other_kind, lemma_rows_of_kind_add, lemma_rows_of_kind_uniform,
    non_category_entry, product_group, products_of, reconstruct, rows_of_kind, sub_product_entry};

verus! {

/// Every product that the groups `groups` list under `category_id`, group
/// after group.
pub open spec fn filed_under(groups: Seq<ProductView>, category_id: i32) -> Seq<SubProductView>
    decreases groups.len(),
{
    if groups.len() == 0 {
        Seq::empty()
    } else if groups.last().category_id == category_id {
        filed_under(groups.drop_last(), category_id) + groups.last().sub_product_list
    } else {
        filed_under(groups.drop_last(), category_id)
    }
}

/// The catalog with its products regrouped by category: one group per
/// category, in the order of the categories, holding every product that any
/// group lists under that category's id. Groups whose id no category has are
/// gone.
pub open spec fn regrouped(data: DataView) -> DataView {
    DataView {
        product_category_list: data.product_category_list,
        product_list: data.product_category_list.map_values(
            |category: ProductCategoryView|
                ProductView {
                    category_id: category.category_id,
                    sub_product_list: filed_under(data.product_list, category.category_id),
                },
        ),
        service_list: data.service_list,
        system_list: data.system_list,
    }
}

/// The groups of `data` answer its categories one for one: as many groups as
/// categories, the group at each position carrying the id of the category at
/// that position, and no products in a group whose id another group carries
/// too.
pub open spec fn well_grouped(data: DataView) -> bool {
    let categories = data.product_category_list;
    let groups = data.product_list;
    &&& groups.len() == categories.len()
    &&& forall|i: int|
        0 <= i < groups.len() ==> (#[trigger] groups[i]).category_id == categories[i].category_id
    &&& forall|i: int, j: int|
        0 <= i < groups.len() && 0 <= j < groups.len() && i != j && (#[trigger] groups[i]).category_id
            == (#[trigger] groups[j]).category_id ==> groups[i].sub_product_list.len() == 0
}

/// What `filed_under` gives where no group but those without products carries
/// the id: nothing.
proof fn lemma_filed_under_empty(groups: Seq<ProductView>, category_id: i32)
    requires
        forall|j: int|
            0 <= j < groups.len() && (#[trigger] groups[j]).category_id == category_id
                ==> groups[j].sub_product_list.len() == 0,
    ensures
        filed_under(groups, category_id) == Seq::<SubProductView>::empty(),
    decreases groups.len(),
{
    if groups.len() > 0 {
        lemma_filed_under_empty(groups.drop_last(), category_id);
    }
}

/// Where group `i` is the only group with products under its id, the products
/// filed under that id are those of group `i`.
proof fn lemma_filed_under_single(groups: Seq<ProductView>, i: int)
    requires
        0 <= i < groups.len(),
        forall|j: int|
            0 <= j < groups.len() && j != i && (#[trigger] groups[j]).category_id
                == groups[i].category_id ==> groups[j].sub_product_list.len() == 0,
    ensures
        filed_under(groups, groups[i].category_id) == groups[i].sub_product_list,
    decreases groups.len(),
{
    let category_id = groups[i].category_id;
    let init = groups.drop_last();
    let last = groups.len() - 1;
    if i == last {
        lemma_filed_under_empty(init, category_id);
    } else {
        lemma_filed_under_single(init, i);
        if groups.last().category_id == category_id {
            assert(filed_under(groups, category_id) =~= groups[i].sub_product_list);
        }
    }
}

/// The products filed under an id are at least as many as those of any one
/// group that carries it.
proof fn lemma_filed_under_covers(groups: Seq<ProductView>, i: int)
    requires
        0 <= i < groups.len(),
    ensures
        filed_under(groups, groups[i].category_id).len() >= groups[i].sub_product_list.len(),
    decreases groups.len(),
{
    let last = groups.len() - 1;
    if i != last {
        let init = groups.drop_last();
        assert(init[i] == groups[i]);
        lemma_filed_under_covers(init, i);
    }
}

/// The products filed under an id are at least as many as those of any two
/// groups that carry it, taken together.
proof fn lemma_filed_under_covers_two(groups: Seq<ProductView>, i: int, j: int)
    requires
        0 <= i < j < groups.len(),
        groups[i].category_id == groups[j].category_id,
    ensures
        filed_under(groups, groups[i].category_id).len() >= groups[i].sub_product_list.len()
            + groups[j].sub_product_list.len(),
    decreases groups.len(),
{
    let last = groups.len() - 1;
    let init = groups.drop_last();
    if j == last {
        lemma_filed_under_covers(init, i);
    } else {
        assert(init[j] == groups[j]);
        lemma_filed_under_covers_two(init, i, j);
    }
}

/// Regrouping leaves a catalog as it is exactly when its groups answer its
/// categories one for one.
pub proof fn lemma_regrouped_fixed(data: DataView)
    ensures
        regrouped(data) == data <==> well_grouped(data),
{
    let groups = data.product_list;
    let again = regrouped(data).product_list;
    if well_grouped(data) {
        assert forall|i: int| 0 <= i < groups.len() implies again[i] == groups[i] by {
            lemma_filed_under_single(groups, i);
        }
        assert(again =~= groups);
    }
    if regrouped(data) == data {
        assert forall|i: int, j: int|
            0 <= i < groups.len() && 0 <= j < groups.len() && i != j && (#[trigger] groups[i]).category_id
                == (#[trigger] groups[j]).category_id implies groups[i].sub_product_list.len()
            == 0 by {
            if i < j {
                lemma_filed_under_covers_two(groups, i, j);
            } else {
                lemma_filed_under_covers_two(groups, j, i);
            }
        }
    }
}

/// Rows whose contents are `front` followed by `back` fall into the rows that
/// hold `front` and the rows that hold `back`.
proof fn lemma_contents_split(
    stored: Seq<FeatureView>,
    front: Seq<NewFeatureView>,
    back: Seq<NewFeatureView>,
)
    requires
        contents(stored) == front + back,
    ensures
        stored == stored.take(front.len() as int) + stored.skip(front.len() as int),
        contents(stored.take(front.len() as int)) == front,
        contents(stored.skip(front.len() as int)) == back,
{
    let split = front.len() as int;
    let head = stored.take(split);
    let tail = stored.skip(split);
    assert(stored.len() == contents(stored).len());
    assert forall|i: int| 0 <= i < head.len() implies contents(head)[i] == front[i] by {
        assert((front + back)[i] == front[i]);
    }
    assert forall|i: int| 0 <= i < tail.len() implies contents(tail)[i] == back[i] by {
        assert((front + back)[split + i] == back[i]);
    }
}

/// Rows that hold the flattened groups `groups` are all products, and the
/// group read from them for any category id holds what the groups file
/// under that id.
proof fn lemma_group_of_product_rows(
    stored: Seq<FeatureView>,
    groups: Seq<ProductView>,
    category_id: i32,
)
    requires
        contents(stored) == product_rows(groups),
    ensures
        all_of_kind(stored, FeatureKind::Product),
        product_group(stored, category_id).sub_product_list == filed_under(groups, category_id),
    decreases groups.len(),
{
    reveal(all_of_kind);
    assert(stored.len() == contents(stored).len());
    if groups.len() == 0 {
        lemma_products_of_none(stored, category_id);
    } else {
        let init = groups.drop_last();
        let last = groups.last();
        let split = product_rows(init).len() as int;
        let head = stored.take(split);
        let tail = stored.skip(split);
        lemma_contents_split(stored, product_rows(init), group_rows(last));
        lemma_group_of_product_rows(head, init, category_id);
        assert forall|i: int| 0 <= i < tail.len() implies has_kind(
            #[trigger] tail[i],
            FeatureKind::Product,
        ) && tail[i].category_id == last.category_id && sub_product_entry(tail[i])
            == last.sub_product_list[i] by {
            assert(tail[i].content() == contents(tail)[i]);
        }
        lemma_products_of_add(head, tail, category_id);
        if last.category_id == category_id {
            lemma_products_of_all(tail, category_id);
        } else {
            lemma_products_of_none(tail, category_id);
        }
        assert(product_group(stored, category_id).sub_product_list =~= filed_under(
            groups,
            category_id,
        ));
    }
}

/// The rows of a flattened catalog fall into four parts, laid end to end: the
/// rows of its categories, of its products, of its services and of its
/// system features.
proof fn lemma_parts(data: DataView, rows: Seq<FeatureView>) -> (parts: (
    Seq<FeatureView>,
    Seq<FeatureView>,
    Seq<FeatureView>,
    Seq<FeatureView>,
))
    requires
        contents(rows) == flatten(data),
    ensures
        rows == parts.0 + parts.1 + parts.2 + parts.3,
        contents(parts.0) == category_rows(data.product_category_list),
        contents(parts.1) == product_rows(data.product_list),
        contents(parts.2) == non_category_rows(data.service_list, FeatureKind::Service),
        contents(parts.3) == non_category_rows(data.system_list, FeatureKind::System),
{
    let flat_categories = category_rows(data.product_category_list);
    let flat_products = product_rows(data.product_list);
    let flat_services = non_category_rows(data.service_list, FeatureKind::Service);
    let flat_systems = non_category_rows(data.system_list, FeatureKind::System);
    let na = flat_categories.len() as int;
    let nab = (flat_categories + flat_products).len() as int;
    let nabc = (flat_categories + flat_products + flat_services).len() as int;
    let abc = rows.take(nabc);
    let d = rows.skip(nabc);
    lemma_contents_split(rows, flat_categories + flat_products + flat_services, flat_systems);
    let ab = abc.take(nab);
    let c = abc.skip(nab);
    lemma_contents_split(abc, flat_categories + flat_products, flat_services);
    let a = ab.take(na);
    let b = ab.skip(na);
    lemma_contents_split(ab, flat_categories, flat_products);
    (a, b, c, d)
}

/// Among parts laid end to end, the rows of kind `wanted` are those of the
/// one part that has this kind; parts of other kinds add nothing.
proof fn lemma_select_part(
    a: Seq<FeatureView>,
    b: Seq<FeatureView>,
    c: Seq<FeatureView>,
    d: Seq<FeatureView>,
    wanted: FeatureKind,
)
    requires
        all_of_kind(a, FeatureKind::Category),
        all_of_kind(b, FeatureKind::Product),
        all_of_kind(c, FeatureKind::Service),
        all_of_kind(d, FeatureKind::System),
    ensures
        rows_of_kind(a + b + c + d, wanted) == match wanted {
            FeatureKind::Category => a,
            FeatureKind::Product => b,
            FeatureKind::Service => c,
            FeatureKind::System => d,
        },
{
    lemma_rows_of_kind_add(a + b + c, d, wanted);
    lemma_rows_of_kind_add(a + b, c, wanted);
    lemma_rows_of_kind_add(a, b, wanted);
    lemma_rows_of_kind_uniform(a, FeatureKind::Category, wanted);
    lemma_rows_of_kind_uniform(b, FeatureKind::Product, wanted);
    lemma_rows_of_kind_uniform(c, FeatureKind::Service, wanted);
    lemma_rows_of_kind_uniform(d, FeatureKind::System, wanted);
}

/// Among such parts, the products of a category are its products in the part
/// of the products.
proof fn lemma_products_in_parts(
    a: Seq<FeatureView>,
    b: Seq<FeatureView>,
    c: Seq<FeatureView>,
    d: Seq<FeatureView>,
    category_id: i32,
)
    requires
        all_of_kind(a, FeatureKind::Category),
        all_of_kind(c, FeatureKind::Service),
        all_of_kind(d, FeatureKind::System),
    ensures
        products_of(a + b + c + d, category_id) == products_of(b, category_id),
{
    lemma_products_of_add(a + b + c, d, category_id);
    lemma_products_of_add(a + b, c, category_id);
    lemma_products_of_add(a, b, category_id);
    lemma_products_of_other_kind(a, FeatureKind::Category, category_id);
    lemma_products_of_other_kind(c, FeatureKind::Service, category_id);
    lemma_products_of_other_kind(d, FeatureKind::System, category_id);
}

/// Rows that hold flattened categories are category rows and read back as
/// those categories.
proof fn lemma_categories_back(stored: Seq<FeatureView>, entries: Seq<ProductCategoryView>)
    requires
        contents(stored) == category_rows(entries),
    ensures
        all_of_kind(stored, FeatureKind::Category),
        as_categories(stored) == entries,
{
    reveal(all_of_kind);
    assert(stored.len() == contents(stored).len());
    assert forall|i: int| 0 <= i < stored.len() implies has_kind(
        #[trigger] stored[i],
        FeatureKind::Category,
    ) && category_entry(stored[i]) == entries[i] by {
        assert(stored[i].content() == contents(stored)[i]);
    }
}

/// Rows that hold flattened services, or system features, have that kind and
/// read back as those entries.
proof fn lemma_non_categories_back(
    stored: Seq<FeatureView>,
    entries: Seq<NonCategoryView>,
    kind: FeatureKind,
)
    requires
        contents(stored) == non_category_rows(entries, kind),
    ensures
        all_of_kind(stored, kind),
        as_non_categories(stored) == entries,
{
    reveal(all_of_kind);
    assert(stored.len() == contents(stored).len());
    assert forall|i: int| 0 <= i < stored.len() implies has_kind(#[trigger] stored[i], kind)
        && non_category_entry(stored[i]) == entries[i] by {
        assert(stored[i].content() == contents(stored)[i]);
    }
}

/// The groups read for the category rows `a` of a flattened catalog, from
/// rows whose products are those of the part `b`, are the regrouped groups.
proof fn lemma_groups_back(
    data: DataView,
    rows: Seq<FeatureView>,
    a: Seq<FeatureView>,
    b: Seq<FeatureView>,
)
    requires
        contents(a) == category_rows(data.product_category_list),
        contents(b) == product_rows(data.product_list),
        forall|category_id: i32| #[trigger]
            products_of(rows, category_id) == products_of(b, category_id),
    ensures
        groups_for(a, rows) == regrouped(data).product_list,
{
    let expected = regrouped(data).product_list;
    assert(a.len() == contents(a).len());
    assert forall|i: int| 0 <= i < a.len() implies product_group(rows, a[i].category_id)
        == expected[i] by {
        let category_id = a[i].category_id;
        assert(a[i].content() == contents(a)[i]);
        lemma_group_of_product_rows(b, data.product_list, category_id);
    }
}

/// Reading back the rows of a flattened catalog gives the catalog regrouped,
/// under whatever keys the rows were stored: the categories, services and
/// system features come back as they went in, and each category comes back
/// with one group that holds every product filed under its id.
pub proof fn lemma_reconstruct_of_flattened(data: DataView, rows: Seq<FeatureView>)
    requires
        contents(rows) == flatten(data),
    ensures
        reconstruct(rows) == regrouped(data),
{
    let (a, b, c, d) = lemma_parts(data, rows);
    lemma_categories_back(a, data.product_category_list);
    lemma_group_of_product_rows(b, data.product_list, 0);
    lemma_non_categories_back(c, data.service_list, FeatureKind::Service);
    lemma_non_categories_back(d, data.system_list, FeatureKind::System);
    lemma_select_part(a, b, c, d, FeatureKind::Category);
    lemma_select_part(a, b, c, d, FeatureKind::Service);
    lemma_select_part(a, b, c, d, FeatureKind::System);
    assert forall|category_id: i32| #[trigger]
        products_of(rows, category_id) == products_of(b, category_id) by {
        lemma_products_in_parts(a, b, c, d, category_id);
    }
    lemma_groups_back(data, rows, a, b);
}

/// Storing a flattened catalog and reading it back gives the same catalog,
/// field for field, exactly when its groups answer its categories one for
/// one. The keys under which the rows were stored make no difference.
pub proof fn lemma_round_trip(data: DataView, rows: Seq<FeatureView>)
    requires
        contents(rows) == flatten(data),
    ensures
        reconstruct(rows) == data <==> well_grouped(data),
{
    lemma_reconstruct_of_flattened(data, rows);
    lemma_regrouped_fixed(data);
}

} // verus!
