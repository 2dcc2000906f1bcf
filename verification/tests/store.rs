use features_toggles::catalog::{Data, NonCategory, Product, ProductCategory, SubProduct};
use features_toggles::create_feature;
use features_toggles::envelope::{ApiResponse, PostFeaturesTogglesRequest, PostFeaturesTogglesResponse};
use features_toggles::flatten::flatten_catalog;
use features_toggles::kind::FeatureKind;
use features_toggles::models::{Feature, NewFeature};
use features_toggles::service::{post_features_toggles, put_features_toggles, read_catalog,
    replace_catalog};
use features_toggles::store::{RowStore, StoreError};

fn new_row(feature_id: &str, kind: &str, category_id: i32) -> NewFeature {
    NewFeature {
        feature_id: feature_id.to_string(),
        category_id,
        product_id: "".to_string(),
        code: "".to_string(),
        name_th: "ชื่อ".to_string(),
        name_en: "name".to_string(),
        is_active: false,
        updated_date_time: "t0".to_string(),
        updated_by_id: "U".to_string(),
        updated_by_name: "Someone".to_string(),
        sorting_order: 1,
        feature_type: kind.to_string(),
    }
}

fn row(id: i32, feature_id: &str, kind: &str, category_id: i32) -> Feature {
    Feature {
        id,
        feature_id: feature_id.to_string(),
        category_id,
        product_id: "".to_string(),
        code: "".to_string(),
        name_th: "ชื่อ".to_string(),
        name_en: "name".to_string(),
        is_active: false,
        updated_date_time: "t0".to_string(),
        updated_by_id: "U".to_string(),
        updated_by_name: "Someone".to_string(),
        sorting_order: 1,
        feature_type: kind.to_string(),
    }
}

fn a_category(feature_id: &str, category_id: i32) -> ProductCategory {
    ProductCategory {
        feature_id: feature_id.to_string(),
        category_id,
        name_th: "หมวด".to_string(),
        name_en: "Category".to_string(),
        category_sorting_order: 1,
        is_active: true,
        updated_date_time: "2024-01-01".to_string(),
        updated_by_id: "U1".to_string(),
        updated_by_name: "Alice".to_string(),
    }
}

fn a_product(feature_id: &str, product_id: &str) -> SubProduct {
    SubProduct {
        feature_id: feature_id.to_string(),
        product_id: product_id.to_string(),
        code: "C".to_string(),
        name_th: "สินค้า".to_string(),
        name_en: "Product".to_string(),
        sorting_order: 1,
        is_active: true,
        updated_date_time: "2024-01-01".to_string(),
        updated_by_id: "U1".to_string(),
        updated_by_name: "Alice".to_string(),
    }
}

fn an_entry(feature_id: &str) -> NonCategory {
    NonCategory {
        feature_id: feature_id.to_string(),
        name_th: "บริการ".to_string(),
        name_en: "Entry".to_string(),
        sorting_order: 1,
        is_active: true,
        updated_date_time: "2024-01-01".to_string(),
        updated_by_id: "U1".to_string(),
        updated_by_name: "Alice".to_string(),
    }
}

fn first_catalog() -> Data {
    Data {
        product_category_list: vec![a_category("A1", 10), a_category("A2", 20)],
        product_list: vec![
            Product { category_id: 10, sub_product_list: vec![a_product("A3", "PA")] },
            Product { category_id: 20, sub_product_list: vec![a_product("A4", "PB")] },
        ],
        service_list: vec![an_entry("A5")],
        system_list: vec![an_entry("A6"), an_entry("A7")],
    }
}

fn second_catalog() -> Data {
    Data {
        product_category_list: vec![a_category("B1", 1)],
        product_list: vec![Product { category_id: 1, sub_product_list: vec![] }],
        service_list: vec![],
        system_list: vec![an_entry("B2")],
    }
}

fn success_status() -> ApiResponse {
    ApiResponse {
        code: "0000".to_string(),
        header: "".to_string(),
        description: "Success".to_string(),
    }
}

#[test]
fn a_new_store_is_empty() {
    let store = RowStore::new();
    assert_eq!(store.len(), 0);
    assert_eq!(store.last_id(), 0);
    assert_eq!(store.rows(), &Vec::<Feature>::new());
}

#[test]
fn create_feature_hands_out_keys_from_one() {
    let mut store = RowStore::new();
    let first = create_feature(&mut store, &new_row("F1", "category", 1));
    let second = create_feature(&mut store, &new_row("F2", "service", 0));
    assert_eq!(first, Ok(row(1, "F1", "category", 1)));
    assert_eq!(second, Ok(row(2, "F2", "service", 0)));
    assert_eq!(store.rows(), &vec![row(1, "F1", "category", 1), row(2, "F2", "service", 0)]);
    assert_eq!(store.last_id(), 2);
    assert_eq!(store.len(), 2);
}

#[test]
fn keys_are_not_handed_out_again_after_delete_all() {
    let mut store = RowStore::new();
    create_feature(&mut store, &new_row("F1", "category", 1)).unwrap();
    create_feature(&mut store, &new_row("F2", "category", 2)).unwrap();
    assert_eq!(store.delete_all(), 2);
    assert_eq!(store.len(), 0);
    assert_eq!(store.delete_all(), 0);
    let next = create_feature(&mut store, &new_row("F3", "system", 0)).unwrap();
    assert_eq!(next.id, 3);
    assert_eq!(store.rows(), &vec![row(3, "F3", "system", 0)]);
}

#[test]
fn from_rows_takes_rows_in_the_order_of_their_keys() {
    let rows = vec![row(2, "F1", "category", 1), row(5, "F2", "product", 1), row(9, "F3", "system", 0)];
    let store = RowStore::from_rows(rows).unwrap();
    assert_eq!(store.len(), 3);
    assert_eq!(store.last_id(), 9);
    assert_eq!(store.rows()[1], row(5, "F2", "product", 1));
    let empty = RowStore::from_rows(Vec::new()).unwrap();
    assert_eq!(empty.len(), 0);
    assert_eq!(empty.last_id(), 0);
}

#[test]
fn from_rows_refuses_keys_out_of_order() {
    let twice = vec![row(1, "F1", "category", 1), row(1, "F2", "category", 2)];
    assert!(matches!(RowStore::from_rows(twice), Err(StoreError::KeysNotAscending)));
    let falling = vec![row(4, "F1", "category", 1), row(3, "F2", "category", 2)];
    assert!(matches!(RowStore::from_rows(falling), Err(StoreError::KeysNotAscending)));
    let zero = vec![row(0, "F1", "category", 1)];
    assert!(matches!(RowStore::from_rows(zero), Err(StoreError::KeysNotAscending)));
    let negative = vec![row(-3, "F1", "category", 1), row(2, "F2", "category", 2)];
    assert!(matches!(RowStore::from_rows(negative), Err(StoreError::KeysNotAscending)));
}

#[test]
fn create_feature_fails_when_the_keys_have_run_out() {
    let mut store = RowStore::from_rows(vec![row(i32::MAX, "F1", "category", 1)]).unwrap();
    let result = create_feature(&mut store, &new_row("F2", "category", 2));
    assert_eq!(result, Err(StoreError::KeysExhausted));
    assert_eq!(store.rows(), &vec![row(i32::MAX, "F1", "category", 1)]);
    assert_eq!(store.last_id(), i32::MAX);
}

#[test]
fn store_selects_by_kind_and_by_category() {
    let mut store = RowStore::new();
    create_feature(&mut store, &new_row("F1", "category", 1)).unwrap();
    create_feature(&mut store, &new_row("F2", "product", 1)).unwrap();
    create_feature(&mut store, &new_row("F3", "product", 2)).unwrap();
    create_feature(&mut store, &new_row("F4", "product", 1)).unwrap();
    assert_eq!(store.select_kind(FeatureKind::Category), vec![row(1, "F1", "category", 1)]);
    assert_eq!(
        store.select_products(1),
        vec![row(2, "F2", "product", 1), row(4, "F4", "product", 1)]
    );
    assert_eq!(store.select_kind(FeatureKind::Service), Vec::<Feature>::new());
}

#[test]
fn replace_stores_the_flattened_catalog_under_fresh_keys() {
    let mut store = RowStore::new();
    let data = first_catalog();
    assert_eq!(replace_catalog(&mut store, &data), Ok(()));
    let flat = flatten_catalog(&data);
    assert_eq!(store.len(), flat.len());
    assert_eq!(store.len(), 7);
    for (at, stored) in store.rows().iter().enumerate() {
        assert_eq!(stored.id, at as i32 + 1);
        assert_eq!(stored.feature_id, flat[at].feature_id);
        assert_eq!(stored.feature_type, flat[at].feature_type);
        assert_eq!(stored.category_id, flat[at].category_id);
        assert_eq!(stored.product_id, flat[at].product_id);
    }
    let ids: Vec<&str> = store.rows().iter().map(|r| r.feature_id.as_str()).collect();
    assert_eq!(ids, vec!["A1", "A2", "A3", "A4", "A5", "A6", "A7"]);
}

#[test]
fn replace_is_destructive() {
    let mut store = RowStore::new();
    replace_catalog(&mut store, &first_catalog()).unwrap();
    replace_catalog(&mut store, &second_catalog()).unwrap();
    let response = read_catalog(&store);
    assert_eq!(response.data, second_catalog());
    assert_eq!(response.status, success_status());
    let ids: Vec<&str> = store.rows().iter().map(|r| r.feature_id.as_str()).collect();
    assert_eq!(ids, vec!["B1", "B2"]);
    let keys: Vec<i32> = store.rows().iter().map(|r| r.id).collect();
    assert_eq!(keys, vec![8, 9]);
}

#[test]
fn replace_then_read_gives_the_catalog_back() {
    let mut store = RowStore::new();
    replace_catalog(&mut store, &first_catalog()).unwrap();
    assert_eq!(read_catalog(&store).data, first_catalog());
}

#[test]
fn replace_by_an_empty_catalog_empties_the_store() {
    let mut store = RowStore::new();
    replace_catalog(&mut store, &first_catalog()).unwrap();
    let nothing = Data {
        product_category_list: vec![],
        product_list: vec![],
        service_list: vec![],
        system_list: vec![],
    };
    assert_eq!(replace_catalog(&mut store, &nothing), Ok(()));
    assert_eq!(store.len(), 0);
    assert_eq!(read_catalog(&store).data, nothing);
}

#[test]
fn replace_that_runs_out_of_keys_leaves_the_first_rows() {
    let mut store =
        RowStore::from_rows(vec![row(i32::MAX - 3, "OLD", "service", 0)]).unwrap();
    let result = replace_catalog(&mut store, &first_catalog());
    assert_eq!(result, Err(StoreError::KeysExhausted));
    let ids: Vec<&str> = store.rows().iter().map(|r| r.feature_id.as_str()).collect();
    assert_eq!(ids, vec!["A1", "A2", "A3"]);
    let keys: Vec<i32> = store.rows().iter().map(|r| r.id).collect();
    assert_eq!(keys, vec![i32::MAX - 2, i32::MAX - 1, i32::MAX]);
}

#[test]
fn replace_example_one_category_one_product() {
    let mut store = RowStore::new();
    let data = Data {
        product_category_list: vec![a_category("F1", 1)],
        product_list: vec![Product { category_id: 1, sub_product_list: vec![a_product("F2", "P1")] }],
        service_list: vec![],
        system_list: vec![],
    };
    let payload = PostFeaturesTogglesResponse { status: success_status(), data };
    assert_eq!(put_features_toggles(&mut store, &payload), Ok("Success"));
    let inquiry = PostFeaturesTogglesRequest { feature_category: vec![] };
    let response = post_features_toggles(&store, &inquiry);
    assert_eq!(response.status, success_status());
    assert_eq!(response.data.product_category_list, vec![a_category("F1", 1)]);
    assert_eq!(
        response.data.product_list,
        vec![Product { category_id: 1, sub_product_list: vec![a_product("F2", "P1")] }]
    );
    assert_eq!(response.data.service_list, vec![]);
    assert_eq!(response.data.system_list, vec![]);
    assert_eq!(response.data.product_list[0].sub_product_list[0].feature_id, "F2");
    assert_eq!(response.data.product_list[0].sub_product_list[0].product_id, "P1");
}

#[test]
fn inquiry_ignores_the_categories_asked_for() {
    let mut store = RowStore::new();
    replace_catalog(&mut store, &first_catalog()).unwrap();
    let all = post_features_toggles(&store, &PostFeaturesTogglesRequest { feature_category: vec![] });
    let some = post_features_toggles(
        &store,
        &PostFeaturesTogglesRequest { feature_category: vec!["service".to_string(), "nothing".to_string()] },
    );
    assert_eq!(all, some);
    assert_eq!(all.data, first_catalog());
}

#[test]
fn put_does_not_look_at_the_status_it_is_handed() {
    let mut store = RowStore::new();
    let payload = PostFeaturesTogglesResponse { status: ApiResponse::bad_request(), data: second_catalog() };
    assert_eq!(put_features_toggles(&mut store, &payload), Ok("Success"));
    assert_eq!(read_catalog(&store).data, second_catalog());
}

#[test]
fn put_reports_keys_that_ran_out() {
    let mut store = RowStore::from_rows(vec![row(i32::MAX, "OLD", "service", 0)]).unwrap();
    let payload = PostFeaturesTogglesResponse { status: success_status(), data: second_catalog() };
    assert_eq!(put_features_toggles(&mut store, &payload), Err(StoreError::KeysExhausted));
    assert_eq!(store.len(), 0);
}

#[test]
fn insert_many_keeps_list_order_and_counts_keys_on() {
    let mut store = RowStore::new();
    create_feature(&mut store, &new_row("F0", "system", 0)).unwrap();
    let rows = vec![new_row("F1", "category", 1), new_row("F2", "product", 1), new_row("F3", "service", 0)];
    assert_eq!(store.insert_many(&rows), Ok(()));
    assert_eq!(
        store.rows(),
        &vec![
            row(1, "F0", "system", 0),
            row(2, "F1", "category", 1),
            row(3, "F2", "product", 1),
            row(4, "F3", "service", 0),
        ]
    );
    assert_eq!(store.insert_many(&Vec::new()), Ok(()));
    assert_eq!(store.len(), 4);
    assert_eq!(store.last_id(), 4);
}

#[test]
fn insert_many_stops_where_the_keys_run_out() {
    let mut store = RowStore::from_rows(vec![row(i32::MAX - 1, "F0", "system", 0)]).unwrap();
    let rows = vec![new_row("F1", "category", 1), new_row("F2", "product", 1)];
    assert_eq!(store.insert_many(&rows), Err(StoreError::KeysExhausted));
    assert_eq!(
        store.rows(),
        &vec![row(i32::MAX - 1, "F0", "system", 0), row(i32::MAX, "F1", "category", 1)]
    );
}
