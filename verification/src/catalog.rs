//! The nested catalog: the shape in which callers hand the catalog over and
//! get it back. It is derived from the stored rows and has no identity of its
//! own.

use vstd::prelude::*;

verus! {

/// A product category.
#[derive(Debug, PartialEq, Eq)]
pub struct ProductCategory {
    pub feature_id: String,
    pub category_id: i32,
    pub name_th: String,
    pub name_en: String,
    pub category_sorting_order: i32,
    pub is_active: bool,
    pub updated_date_time: String,
    pub updated_by_id: String,
    pub updated_by_name: String,
}

/// A product, listed under the group of its category.
#[derive(Debug, PartialEq, Eq)]
pub struct SubProduct {
    pub feature_id: String,
    pub product_id: String,
    pub code: String,
    pub name_th: String,
    pub name_en: String,
    pub sorting_order: i32,
    pub is_active: bool,
    pub updated_date_time: String,
    pub updated_by_id: String,
    pub updated_by_name: String,
}

/// The products of one category.
#[derive(Debug, PartialEq, Eq)]
pub struct Product {
    pub category_id: i32,
    pub sub_product_list: Vec<SubProduct>,
}

/// A service or a system feature: an entry that belongs to no category.
#[derive(Debug, PartialEq, Eq)]
pub struct NonCategory {
    pub feature_id: String,
    pub name_th: String,
    pub name_en: String,
    pub sorting_order: i32,
    pub is_active: bool,
    pub updated_date_time: String,
    pub updated_by_id: String,
    pub updated_by_name: String,
}

/// The whole catalog in nested form.
#[derive(Debug, PartialEq, Eq)]
pub struct Data {
    pub product_category_list: Vec<ProductCategory>,
    pub product_list: Vec<Product>,
    pub service_list: Vec<NonCategory>,
    pub system_list: Vec<NonCategory>,
}

/// Mathematical value of a [`ProductCategory`].
pub struct ProductCategoryView {
    pub feature_id: Seq<char>,
    pub category_id: i32,
    pub name_th: Seq<char>,
    pub name_en: Seq<char>,
    pub category_sorting_order: i32,
    pub is_active: bool,
    pub updated_date_time: Seq<char>,
    pub updated_by_id: Seq<char>,
    pub updated_by_name: Seq<char>,
}

/// Mathematical value of a [`SubProduct`].
pub struct SubProductView {
    pub feature_id: Seq<char>,
    pub product_id: Seq<char>,
    pub code: Seq<char>,
    pub name_th: Seq<char>,
    pub name_en: Seq<char>,
    pub sorting_order: i32,
    pub is_active: bool,
    pub updated_date_time: Seq<char>,
    pub updated_by_id: Seq<char>,
    pub updated_by_name: Seq<char>,
}

/// Mathematical value of a [`Product`].
pub struct ProductView {
    pub category_id: i32,
    pub sub_product_list: Seq<SubProductView>,
}

/// Mathematical value of a [`NonCategory`].
pub struct NonCategoryView {
    pub feature_id: Seq<char>,
    pub name_th: Seq<char>,
    pub name_en: Seq<char>,
    pub sorting_order: i32,
    pub is_active: bool,
    pub updated_date_time: Seq<char>,
    pub updated_by_id: Seq<char>,
    pub updated_by_name: Seq<char>,
}

/// Mathematical value of a [`Data`].
pub struct DataView {
    pub product_category_list: Seq<ProductCategoryView>,
    pub product_list: Seq<ProductView>,
    pub service_list: Seq<NonCategoryView>,
    pub system_list: Seq<NonCategoryView>,
}

impl View for ProductCategory {
    type V = ProductCategoryView;

    open spec fn view(&self) -> ProductCategoryView {
        ProductCategoryView {
            feature_id: self.feature_id@,
            category_id: self.category_id,
            name_th: self.name_th@,
            name_en: self.name_en@,
            category_sorting_order: self.category_sorting_order,
            is_active: self.is_active,
            updated_date_time: self.updated_date_time@,
            updated_by_id: self.updated_by_id@,
            updated_by_name: self.updated_by_name@,
        }
    }
}

impl DeepView for ProductCategory {
    type V = ProductCategoryView;

    open spec fn deep_view(&self) -> ProductCategoryView {
        self@
    }
}

impl View for SubProduct {
    type V = SubProductView;

    open spec fn view(&self) -> SubProductView {
        SubProductView {
            feature_id: self.feature_id@,
            product_id: self.product_id@,
            code: self.code@,
            name_th: self.name_th@,
            name_en: self.name_en@,
            sorting_order: self.sorting_order,
            is_active: self.is_active,
            updated_date_time: self.updated_date_time@,
            updated_by_id: self.updated_by_id@,
            updated_by_name: self.updated_by_name@,
        }
    }
}

impl DeepView for SubProduct {
    type V = SubProductView;

    open spec fn deep_view(&self) -> SubProductView {
        self@
    }
}

impl View for Product {
    type V = ProductView;

    open spec fn view(&self) -> ProductView {
        ProductView {
            category_id: self.category_id,
            sub_product_list: self.sub_product_list.deep_view(),
        }
    }
}

impl DeepView for Product {
    type V = ProductView;

    open spec fn deep_view(&self) -> ProductView {
        self@
    }
}

impl View for NonCategory {
    type V = NonCategoryView;

    open spec fn view(&self) -> NonCategoryView {
        NonCategoryView {
            feature_id: self.feature_id@,
            name_th: self.name_th@,
            name_en: self.name_en@,
            sorting_order: self.sorting_order,
            is_active: self.is_active,
            updated_date_time: self.updated_date_time@,
            updated_by_id: self.updated_by_id@,
            updated_by_name: self.updated_by_name@,
        }
    }
}

impl DeepView for NonCategory {
    type V = NonCategoryView;

    open spec fn deep_view(&self) -> NonCategoryView {
        self@
    }
}

impl View for Data {
    type V = DataView;

    open spec fn view(&self) -> DataView {
        DataView {
            product_category_list: self.product_category_list.deep_view(),
            product_list: self.product_list.deep_view(),
            service_list: self.service_list.deep_view(),
            system_list: self.system_list.deep_view(),
        }
    }
}

impl DeepView for Data {
    type V = DataView;

    open spec fn deep_view(&self) -> DataView {
        self@
    }
}

} // verus!
