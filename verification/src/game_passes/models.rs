use vstd::prelude::*;

use crate::models::AssetId;

verus! {

/// A game pass as the game-passes API describes it.
#[derive(Clone)]
pub struct GetGamePassResponse {
    pub target_id: AssetId,
    pub name: String,
    pub description: String,
    pub icon_image_asset_id: AssetId,
    pub price_information: Option<PriceInformation>,
}

/// A game pass's price.
#[derive(Clone)]
pub struct PriceInformation {
    pub default_price_in_robux: Option<u32>,
}

/// One page of an experience's game passes.
pub struct ListGamePassesResponse {
    pub next_page_token: Option<String>,
    pub game_passes: Vec<GetGamePassResponse>,
}

} // verus!
