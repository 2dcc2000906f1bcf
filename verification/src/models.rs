//! The storage representation: one row layout shared by every kind of feature.

use vstd::prelude::*;

verus! {

/// A feature as the row store holds it. `feature_type` says which of
/// `category_id`, `product_id` and `code` carry meaning; the others hold a
/// sentinel (`0` or the empty string).
#[derive(Debug, PartialEq, Eq)]
pub struct Feature {
    pub id: i32,
    pub feature_id: String,
    pub category_id: i32,
    pub product_id: String,
    pub code: String,
    pub name_th: String,
    pub name_en: String,
    pub is_active: bool,
    pub updated_date_time: String,
    pub updated_by_id: String,
    pub updated_by_name: String,
    pub sorting_order: i32,
    pub feature_type: String,
}

/// A feature on its way into the row store: every column but the surrogate key,
/// which the store assigns.
#[derive(Debug, PartialEq, Eq)]
pub struct NewFeature {
    pub feature_id: String,
    pub category_id: i32,
    pub product_id: String,
    pub code: String,
    pub name_th: String,
    pub name_en: String,
    pub is_active: bool,
    pub updated_date_time: String,
    pub updated_by_id: String,
    pub updated_by_name: String,
    pub sorting_order: i32,
    pub feature_type: String,
}

/// Mathematical value of a [`NewFeature`]: texts are sequences of characters.
pub struct NewFeatureView {
    pub feature_id: Seq<char>,
    pub category_id: i32,
    pub product_id: Seq<char>,
    pub code: Seq<char>,
    pub name_th: Seq<char>,
    pub name_en: Seq<char>,
    pub is_active: bool,
    pub updated_date_time: Seq<char>,
    pub updated_by_id: Seq<char>,
    pub updated_by_name: Seq<char>,
    pub sorting_order: i32,
    pub feature_type: Seq<char>,
}

/// Mathematical value of a [`Feature`].
pub struct FeatureView {
    pub id: i32,
    pub feature_id: Seq<char>,
    pub category_id: i32,
    pub product_id: Seq<char>,
    pub code: Seq<char>,
    pub name_th: Seq<char>,
    pub name_en: Seq<char>,
    pub is_active: bool,
    pub updated_date_time: Seq<char>,
    pub updated_by_id: Seq<char>,
    pub updated_by_name: Seq<char>,
    pub sorting_order: i32,
    pub feature_type: Seq<char>,
}

impl FeatureView {
    /// The columns of the row other than its surrogate key.
    pub open spec fn content(self) -> NewFeatureView {
        NewFeatureView {
            feature_id: self.feature_id,
            category_id: self.category_id,
            product_id: self.product_id,
            code: self.code,
            name_th: self.name_th,
            name_en: self.name_en,
            is_active: self.is_active,
            updated_date_time: self.updated_date_time,
            updated_by_id: self.updated_by_id,
            updated_by_name: self.updated_by_name,
            sorting_order: self.sorting_order,
            feature_type: self.feature_type,
        }
    }
}

impl NewFeatureView {
    /// The row that results when the store files these columns under key `id`.
    pub open spec fn stored(self, id: i32) -> FeatureView {
        FeatureView {
            id,
            feature_id: self.feature_id,
            category_id: self.category_id,
            product_id: self.product_id,
            code: self.code,
            name_th: self.name_th,
            name_en: self.name_en,
            is_active: self.is_active,
            updated_date_time: self.updated_date_time,
            updated_by_id: self.updated_by_id,
            updated_by_name: self.updated_by_name,
            sorting_order: self.sorting_order,
            feature_type: self.feature_type,
        }
    }
}

/// The columns of each row, keys left out, row by row.
pub open spec fn contents(rows: Seq<FeatureView>) -> Seq<NewFeatureView> {
    rows.map_values(|row: FeatureView| row.content())
}

impl View for NewFeature {
    type V = NewFeatureView;

    open spec fn view(&self) -> NewFeatureView {
        NewFeatureView {
            feature_id: self.feature_id@,
            category_id: self.category_id,
            product_id: self.product_id@,
            code: self.code@,
            name_th: self.name_th@,
            name_en: self.name_en@,
            is_active: self.is_active,
            updated_date_time: self.updated_date_time@,
            updated_by_id: self.updated_by_id@,
            updated_by_name: self.updated_by_name@,
            sorting_order: self.sorting_order,
            feature_type: self.feature_type@,
        }
    }
}

impl DeepView for NewFeature {
    type V = NewFeatureView;

    open spec fn deep_view(&self) -> NewFeatureView {
        self@
    }
}

impl View for Feature {
    type V = FeatureView;

    open spec fn view(&self) -> FeatureView {
        FeatureView {
            id: self.id,
            feature_id: self.feature_id@,
            category_id: self.category_id,
            product_id: self.product_id@,
            code: self.code@,
            name_th: self.name_th@,
            name_en: self.name_en@,
            is_active: self.is_active,
            updated_date_time: self.updated_date_time@,
            updated_by_id: self.updated_by_id@,
            updated_by_name: self.updated_by_name@,
            sorting_order: self.sorting_order,
            feature_type: self.feature_type@,
        }
    }
}

impl DeepView for Feature {
    type V = FeatureView;

    open spec fn deep_view(&self) -> FeatureView {
        self@
    }
}

impl Clone for NewFeature {
    fn clone(&self) -> (copy: Self)
        ensures
            copy == *self,
    {
        NewFeature {
            feature_id: self.feature_id.clone(),
            category_id: self.category_id,
            product_id: self.product_id.clone(),
            code: self.code.clone(),
            name_th: self.name_th.clone(),
            name_en: self.name_en.clone(),
            is_active: self.is_active,
            updated_date_time: self.updated_date_time.clone(),
            updated_by_id: self.updated_by_id.clone(),
            updated_by_name: self.updated_by_name.clone(),
            sorting_order: self.sorting_order,
            feature_type: self.feature_type.clone(),
        }
    }
}

impl Clone for Feature {
    fn clone(&self) -> (copy: Self)
        ensures
            copy == *self,
    {
        Feature {
            id: self.id,
            feature_id: self.feature_id.clone(),
            category_id: self.category_id,
            product_id: self.product_id.clone(),
            code: self.code.clone(),
            name_th: self.name_th.clone(),
            name_en: self.name_en.clone(),
            is_active: self.is_active,
            updated_date_time: self.updated_date_time.clone(),
            updated_by_id: self.updated_by_id.clone(),
            updated_by_name: self.updated_by_name.clone(),
            sorting_order: self.sorting_order,
            feature_type: self.feature_type.clone(),
        }
    }
}

} // verus!
