use vstd::prelude::*;

use crate::models::AssetId;

verus! {

/// A developer product as the developer-products API describes it.
#[derive(Clone)]
pub struct DeveloperProductConfigResponse {
    pub product_id: AssetId,
    pub name: String,
    pub description: String,
    pub icon_image_asset_id: Option<AssetId>,
    pub price_information: Option<PriceInformation>,
}

/// A developer product's price.
#[derive(Clone)]
pub struct PriceInformation {
    pub default_price_in_robux: Option<u32>,
}

/// One page of an experience's developer products.
pub struct ListDeveloperProductsResponse {
    pub developer_products: Vec<DeveloperProductConfigResponse>,
    pub next_page_token: Option<String>,
}

} // verus!
