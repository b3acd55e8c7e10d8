pub mod text;
pub mod errors;
pub mod models;
pub mod helpers;
pub mod pagination;
pub mod request;
pub mod badges;
pub mod developer_products;
pub mod game_passes;
pub mod experiences;
pub mod thumbnails;
pub mod assets;
