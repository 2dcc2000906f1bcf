use features_toggles::catalog::{Data, NonCategory, Product, ProductCategory, SubProduct};
use features_toggles::flatten::{flatten_catalog, flatten_category, flatten_service,
    flatten_sub_product, flatten_system};
use features_toggles::kind::FeatureKind;
use features_toggles::models::{Feature, NewFeature};
use features_toggles::reconstruct::{category_from_row, collect_non_category, group_products,
    non_category_from_row, reconstruct_catalog, select_kind, select_products, sub_product_from_row};

fn category(feature_id: &str, category_id: i32, order: i32) -> ProductCategory {
    ProductCategory {
        feature_id: feature_id.to_string(),
        category_id,
        name_th: format!("th-{}", feature_id),
        name_en: format!("en-{}", feature_id),
        category_sorting_order: order,
        is_active: true,
        updated_date_time: "2024-01-01 00:00:00".to_string(),
        updated_by_id: "U1".to_string(),
        updated_by_name: "Alice".to_string(),
    }
}

fn sub_product(feature_id: &str, product_id: &str, order: i32) -> SubProduct {
    SubProduct {
        feature_id: feature_id.to_string(),
        product_id: product_id.to_string(),
        code: format!("code-{}", product_id),
        name_th: format!("th-{}", feature_id),
        name_en: format!("en-{}", feature_id),
        sorting_order: order,
        is_active: false,
        updated_date_time: "2024-02-02 00:00:00".to_string(),
        updated_by_id: "U2".to_string(),
        updated_by_name: "Bob".to_string(),
    }
}

fn non_category(feature_id: &str, order: i32) -> NonCategory {
    NonCategory {
        feature_id: feature_id.to_string(),
        name_th: format!("th-{}", feature_id),
        name_en: format!("en-{}", feature_id),
        sorting_order: order,
        is_active: true,
        updated_date_time: "2024-03-03 00:00:00".to_string(),
        updated_by_id: "U3".to_string(),
        updated_by_name: "Carol".to_string(),
    }
}

fn stored(id: i32, row: &NewFeature) -> Feature {
    Feature {
        id,
        feature_id: row.feature_id.clone(),
        category_id: row.category_id,
        product_id: row.product_id.clone(),
        code: row.code.clone(),
        name_th: row.name_th.clone(),
        name_en: row.name_en.clone(),
        is_active: row.is_active,
        updated_date_time: row.updated_date_time.clone(),
        updated_by_id: row.updated_by_id.clone(),
        updated_by_name: row.updated_by_name.clone(),
        sorting_order: row.sorting_order,
        feature_type: row.feature_type.clone(),
    }
}

fn stored_all(rows: &Vec<NewFeature>, first_id: i32) -> Vec<Feature> {
    let mut out = Vec::new();
    let mut id = first_id;
    for row in rows {
        out.push(stored(id, row));
        id += 3;
    }
    out
}

fn sample_catalog() -> Data {
    Data {
        product_category_list: vec![category("F1", 1, 10), category("F2", 2, 20)],
        product_list: vec![
            Product {
                category_id: 1,
                sub_product_list: vec![sub_product("F3", "PA", 2), sub_product("F4", "PB", 1)],
            },
            Product { category_id: 2, sub_product_list: vec![] },
        ],
        service_list: vec![non_category("F5", 1), non_category("F6", 2)],
        system_list: vec![non_category("F7", 1)],
    }
}

#[test]
fn category_row_has_its_id_and_no_product_columns() {
    let row = flatten_category(&category("F1", 42, 7));
    let expected = NewFeature {
        feature_id: "F1".to_string(),
        category_id: 42,
        product_id: "".to_string(),
        code: "".to_string(),
        name_th: "th-F1".to_string(),
        name_en: "en-F1".to_string(),
        is_active: true,
        updated_date_time: "2024-01-01 00:00:00".to_string(),
        updated_by_id: "U1".to_string(),
        updated_by_name: "Alice".to_string(),
        sorting_order: 7,
        feature_type: "category".to_string(),
    };
    assert_eq!(row, expected);
}

#[test]
fn sub_product_row_takes_the_id_of_its_group() {
    let row = flatten_sub_product(9, &sub_product("F3", "PA", 5));
    let expected = NewFeature {
        feature_id: "F3".to_string(),
        category_id: 9,
        product_id: "PA".to_string(),
        code: "code-PA".to_string(),
        name_th: "th-F3".to_string(),
        name_en: "en-F3".to_string(),
        is_active: false,
        updated_date_time: "2024-02-02 00:00:00".to_string(),
        updated_by_id: "U2".to_string(),
        updated_by_name: "Bob".to_string(),
        sorting_order: 5,
        feature_type: "product".to_string(),
    };
    assert_eq!(row, expected);
}

#[test]
fn service_and_system_rows_carry_the_sentinels() {
    let service = flatten_service(&non_category("F5", 3));
    let system = flatten_system(&non_category("F5", 3));
    let expected_service = NewFeature {
        feature_id: "F5".to_string(),
        category_id: 0,
        product_id: "".to_string(),
        code: "".to_string(),
        name_th: "th-F5".to_string(),
        name_en: "en-F5".to_string(),
        is_active: true,
        updated_date_time: "2024-03-03 00:00:00".to_string(),
        updated_by_id: "U3".to_string(),
        updated_by_name: "Carol".to_string(),
        sorting_order: 3,
        feature_type: "service".to_string(),
    };
    assert_eq!(service, expected_service);
    assert_eq!(system.feature_type, "system");
    assert_eq!(system.category_id, 0);
    assert_eq!(system.product_id, "");
    assert_eq!(system.code, "");
    assert_eq!(system.feature_id, "F5");
    assert_eq!(system.sorting_order, 3);
}

#[test]
fn flatten_emits_categories_products_services_systems_in_order() {
    let rows = flatten_catalog(&sample_catalog());
    let ids: Vec<&str> = rows.iter().map(|r| r.feature_id.as_str()).collect();
    assert_eq!(ids, vec!["F1", "F2", "F3", "F4", "F5", "F6", "F7"]);
    let kinds: Vec<&str> = rows.iter().map(|r| r.feature_type.as_str()).collect();
    assert_eq!(
        kinds,
        vec!["category", "category", "product", "product", "service", "service", "system"]
    );
    let category_ids: Vec<i32> = rows.iter().map(|r| r.category_id).collect();
    assert_eq!(category_ids, vec![1, 2, 1, 1, 0, 0, 0]);
    let orders: Vec<i32> = rows.iter().map(|r| r.sorting_order).collect();
    assert_eq!(orders, vec![10, 20, 2, 1, 1, 2, 1]);
}

#[test]
fn flatten_of_an_empty_catalog_is_empty() {
    let data = Data {
        product_category_list: vec![],
        product_list: vec![],
        service_list: vec![],
        system_list: vec![],
    };
    assert_eq!(flatten_catalog(&data), Vec::<NewFeature>::new());
}

#[test]
fn flatten_keeps_groups_without_a_category() {
    let data = Data {
        product_category_list: vec![],
        product_list: vec![Product { category_id: 5, sub_product_list: vec![sub_product("F9", "PZ", 1)] }],
        service_list: vec![],
        system_list: vec![],
    };
    let rows = flatten_catalog(&data);
    assert_eq!(rows.len(), 1);
    assert_eq!(rows[0].category_id, 5);
    assert_eq!(rows[0].feature_type, "product");
    let back = reconstruct_catalog(&stored_all(&rows, 1));
    assert_eq!(back.product_category_list, vec![]);
    assert_eq!(back.product_list, vec![]);
}

#[test]
fn round_trip_reproduces_a_well_grouped_catalog() {
    let data = sample_catalog();
    let rows = stored_all(&flatten_catalog(&data), 100);
    assert_eq!(reconstruct_catalog(&rows), data);
}

#[test]
fn round_trip_does_not_depend_on_the_keys() {
    let data = sample_catalog();
    let flat = flatten_catalog(&data);
    assert_eq!(reconstruct_catalog(&stored_all(&flat, 1)), reconstruct_catalog(&stored_all(&flat, 5000)));
}

#[test]
fn round_trip_regroups_a_catalog_whose_groups_are_out_of_step() {
    let data = Data {
        product_category_list: vec![category("F1", 1, 1), category("F2", 2, 2)],
        product_list: vec![
            Product { category_id: 2, sub_product_list: vec![sub_product("F3", "PA", 1)] },
            Product { category_id: 1, sub_product_list: vec![sub_product("F4", "PB", 1)] },
            Product { category_id: 2, sub_product_list: vec![sub_product("F5", "PC", 1)] },
        ],
        service_list: vec![],
        system_list: vec![],
    };
    let back = reconstruct_catalog(&stored_all(&flatten_catalog(&data), 1));
    assert_eq!(back.product_category_list, data.product_category_list);
    assert_eq!(
        back.product_list,
        vec![
            Product { category_id: 1, sub_product_list: vec![sub_product("F4", "PB", 1)] },
            Product {
                category_id: 2,
                sub_product_list: vec![sub_product("F3", "PA", 1), sub_product("F5", "PC", 1)],
            },
        ]
    );
}

#[test]
fn grouping_gives_an_empty_group_to_a_category_without_products() {
    let c1 = flatten_category(&category("C1", 1, 1));
    let c2 = flatten_category(&category("C2", 2, 2));
    let p1 = flatten_sub_product(1, &sub_product("X1", "PA", 1));
    let p2 = flatten_sub_product(1, &sub_product("X2", "PB", 2));
    let rows = vec![stored(1, &c1), stored(2, &p1), stored(3, &c2), stored(4, &p2)];
    let data = reconstruct_catalog(&rows);
    assert_eq!(data.product_category_list, vec![category("C1", 1, 1), category("C2", 2, 2)]);
    assert_eq!(
        data.product_list,
        vec![
            Product {
                category_id: 1,
                sub_product_list: vec![sub_product("X1", "PA", 1), sub_product("X2", "PB", 2)],
            },
            Product { category_id: 2, sub_product_list: vec![] },
        ]
    );
}

#[test]
fn categories_that_share_an_id_get_the_same_products_each() {
    let c1 = flatten_category(&category("C1", 1, 1));
    let c2 = flatten_category(&category("C2", 1, 2));
    let p1 = flatten_sub_product(1, &sub_product("X1", "PA", 1));
    let rows = vec![stored(1, &c1), stored(2, &c2), stored(3, &p1)];
    let data = reconstruct_catalog(&rows);
    let group = Product { category_id: 1, sub_product_list: vec![sub_product("X1", "PA", 1)] };
    assert_eq!(data.product_list.len(), 2);
    assert_eq!(data.product_list[0], group);
    assert_eq!(data.product_list[1], group);
}

#[test]
fn a_service_row_shows_in_the_service_list_only() {
    let service = flatten_service(&non_category("S1", 1));
    let base = stored_all(&flatten_catalog(&sample_catalog()), 1);
    let mut rows = stored_all(&flatten_catalog(&sample_catalog()), 1);
    rows.insert(2, stored(2, &service));
    let with = reconstruct_catalog(&rows);
    let without = reconstruct_catalog(&base);
    assert_eq!(with.product_category_list, without.product_category_list);
    assert_eq!(with.product_list, without.product_list);
    assert_eq!(with.system_list, without.system_list);
    assert_eq!(
        with.service_list,
        vec![non_category("S1", 1), non_category("F5", 1), non_category("F6", 2)]
    );
}

#[test]
fn a_system_row_shows_in_the_system_list_only() {
    let system = flatten_system(&non_category("Y1", 4));
    let base = stored_all(&flatten_catalog(&sample_catalog()), 1);
    let mut rows = stored_all(&flatten_catalog(&sample_catalog()), 1);
    rows.push(stored(1000, &system));
    let with = reconstruct_catalog(&rows);
    let without = reconstruct_catalog(&base);
    assert_eq!(with.product_category_list, without.product_category_list);
    assert_eq!(with.product_list, without.product_list);
    assert_eq!(with.service_list, without.service_list);
    assert_eq!(with.system_list, vec![non_category("F7", 1), non_category("Y1", 4)]);
}

#[test]
fn a_product_row_is_no_category_service_or_system() {
    let product = flatten_sub_product(2, &sub_product("X9", "PZ", 1));
    let base = stored_all(&flatten_catalog(&sample_catalog()), 1);
    let mut rows = stored_all(&flatten_catalog(&sample_catalog()), 1);
    rows.insert(0, stored(0, &product));
    let with = reconstruct_catalog(&rows);
    let without = reconstruct_catalog(&base);
    assert_eq!(with.product_category_list, without.product_category_list);
    assert_eq!(with.service_list, without.service_list);
    assert_eq!(with.system_list, without.system_list);
    assert_eq!(with.product_list[0], without.product_list[0]);
    assert_eq!(
        with.product_list[1],
        Product { category_id: 2, sub_product_list: vec![sub_product("X9", "PZ", 1)] }
    );
}

#[test]
fn a_category_row_is_no_product_service_or_system() {
    let extra = flatten_category(&category("C9", 1, 9));
    let base = stored_all(&flatten_catalog(&sample_catalog()), 1);
    let mut rows = stored_all(&flatten_catalog(&sample_catalog()), 1);
    rows.push(stored(999, &extra));
    let with = reconstruct_catalog(&rows);
    let without = reconstruct_catalog(&base);
    assert_eq!(with.service_list, without.service_list);
    assert_eq!(with.system_list, without.system_list);
    assert_eq!(with.product_category_list.len(), 3);
    assert_eq!(with.product_list.len(), 3);
    assert_eq!(with.product_list[0], without.product_list[0]);
    assert_eq!(with.product_list[1], without.product_list[1]);
    assert_eq!(with.product_list[2], without.product_list[0]);
}

#[test]
fn a_row_of_no_kind_is_passed_over() {
    let mut odd = stored(50, &flatten_service(&non_category("Z1", 1)));
    odd.feature_type = "Category".to_string();
    let base = stored_all(&flatten_catalog(&sample_catalog()), 1);
    let mut rows = stored_all(&flatten_catalog(&sample_catalog()), 1);
    rows.insert(3, odd);
    assert_eq!(reconstruct_catalog(&rows), reconstruct_catalog(&base));
}

#[test]
fn select_kind_keeps_stored_order() {
    let rows = stored_all(&flatten_catalog(&sample_catalog()), 1);
    let services = select_kind(&rows, FeatureKind::Service);
    let ids: Vec<&str> = services.iter().map(|r| r.feature_id.as_str()).collect();
    assert_eq!(ids, vec!["F5", "F6"]);
    assert_eq!(services[0], rows[4]);
    assert_eq!(select_kind(&rows, FeatureKind::Category).len(), 2);
    assert_eq!(select_kind(&rows, FeatureKind::Product).len(), 2);
    assert_eq!(select_kind(&rows, FeatureKind::System).len(), 1);
    assert_eq!(select_kind(&Vec::new(), FeatureKind::System), Vec::<Feature>::new());
}

#[test]
fn select_products_wants_the_kind_and_the_category() {
    let mut rows = stored_all(&flatten_catalog(&sample_catalog()), 1);
    let mut service_with_id = stored(77, &flatten_service(&non_category("S1", 1)));
    service_with_id.category_id = 1;
    rows.push(service_with_id);
    let products = select_products(&rows, 1);
    let ids: Vec<&str> = products.iter().map(|r| r.feature_id.as_str()).collect();
    assert_eq!(ids, vec!["F3", "F4"]);
    assert_eq!(select_products(&rows, 2), Vec::<Feature>::new());
    assert_eq!(select_products(&rows, 0), Vec::<Feature>::new());
}

#[test]
fn rows_read_back_field_for_field() {
    let c = category("F1", 3, 8);
    assert_eq!(category_from_row(&stored(1, &flatten_category(&c))), c);
    let p = sub_product("F2", "PA", 4);
    assert_eq!(sub_product_from_row(&stored(2, &flatten_sub_product(3, &p))), p);
    let s = non_category("F3", 6);
    assert_eq!(non_category_from_row(&stored(3, &flatten_service(&s))), s);
    assert_eq!(non_category_from_row(&stored(4, &flatten_system(&s))), s);
}

#[test]
fn group_products_and_collect_non_category_follow_the_rows() {
    let rows = stored_all(&flatten_catalog(&sample_catalog()), 1);
    assert_eq!(
        group_products(&rows, 1),
        Product {
            category_id: 1,
            sub_product_list: vec![sub_product("F3", "PA", 2), sub_product("F4", "PB", 1)],
        }
    );
    assert_eq!(group_products(&rows, 8), Product { category_id: 8, sub_product_list: vec![] });
    assert_eq!(collect_non_category(&rows, FeatureKind::System), vec![non_category("F7", 1)]);
    assert_eq!(
        collect_non_category(&rows, FeatureKind::Service),
        vec![non_category("F5", 1), non_category("F6", 2)]
    );
}

#[test]
fn kinds_are_read_from_their_tags_only() {
    assert_eq!(FeatureKind::parse(&"category".to_string()), Some(FeatureKind::Category));
    assert_eq!(FeatureKind::parse(&"product".to_string()), Some(FeatureKind::Product));
    assert_eq!(FeatureKind::parse(&"service".to_string()), Some(FeatureKind::Service));
    assert_eq!(FeatureKind::parse(&"system".to_string()), Some(FeatureKind::System));
    assert_eq!(FeatureKind::parse(&"".to_string()), None);
    assert_eq!(FeatureKind::parse(&"Service".to_string()), None);
    assert_eq!(FeatureKind::parse(&"services".to_string()), None);
    assert_eq!(FeatureKind::Category.name(), "category");
    assert_eq!(FeatureKind::Product.name(), "product");
    assert_eq!(FeatureKind::Service.name(), "service");
    assert_eq!(FeatureKind::System.name(), "system");
    assert!(FeatureKind::System.matches_tag(&"system".to_string()));
    assert!(!FeatureKind::System.matches_tag(&"service".to_string()));
}

#[test]
fn round_trip_keeps_empty_groups_of_categories_that_share_an_id() {
    let data = Data {
        product_category_list: vec![category("C1", 4, 1), category("C2", 4, 2)],
        product_list: vec![
            Product { category_id: 4, sub_product_list: vec![] },
            Product { category_id: 4, sub_product_list: vec![] },
        ],
        service_list: vec![non_category("S1", 1)],
        system_list: vec![],
    };
    assert_eq!(reconstruct_catalog(&stored_all(&flatten_catalog(&data), 1)), data);
}

#[test]
fn round_trip_adds_the_group_that_a_category_lacks() {
    let data = Data {
        product_category_list: vec![category("C1", 4, 1)],
        product_list: vec![],
        service_list: vec![],
        system_list: vec![non_category("Y1", 1)],
    };
    let back = reconstruct_catalog(&stored_all(&flatten_catalog(&data), 1));
    assert_eq!(back.product_category_list, data.product_category_list);
    assert_eq!(back.product_list, vec![Product { category_id: 4, sub_product_list: vec![] }]);
    assert_eq!(back.system_list, data.system_list);
}
