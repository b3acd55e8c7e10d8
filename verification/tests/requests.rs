use rbx_api::assets::{
    archive_asset_request, asset_operation_request, create_audio_asset_request, create_image_asset_request,
    get_create_asset_quota_request, Creator,
};
use rbx_api::badges::{
    create_badge_request, get_create_badge_free_quota_request, list_badges_request, update_badge_icon_request,
    update_badge_request,
};
use rbx_api::developer_products::{
    create_developer_product_icon_request, create_developer_product_request, disable_developer_product_request, get_developer_product_request,
    list_developer_products_request, update_developer_product_request,
};
use rbx_api::errors::RobloxApiError;
use rbx_api::experiences::{
    configure_experience_request, create_experience_request, get_experience_configuration_request,
    get_experience_request, set_experience_active_request,
};
use rbx_api::game_passes::{create_game_pass_request, get_game_pass_request, list_game_passes_request, update_game_pass_request};
use rbx_api::models::CreatorType;
use rbx_api::request::{ApiRequest, Credentials, FormPart, HttpMethod, JsonValue, RequestBody};
use rbx_api::thumbnails::{
    delete_experience_thumbnail_request, get_experience_thumbnails_request, remove_experience_icon_request,
    set_experience_thumbnail_order_request, upload_icon_request, upload_thumbnail_request,
};

fn texts(request: &ApiRequest) -> Vec<(String, String)> {
    match &request.body {
        RequestBody::Multipart(parts) => parts
            .iter()
            .filter_map(|p| match p {
                FormPart::Text { name, value } => Some((name.clone(), value.clone())),
                _ => None,
            })
            .collect(),
        _ => panic!("not a form"),
    }
}

fn scope(request: &ApiRequest) -> Option<&str> {
    match &request.credentials {
        Credentials::OpenCloud { scope } => Some(scope.as_str()),
        Credentials::Cookie => None,
    }
}

fn pairs(items: &[(&str, &str)]) -> Vec<(String, String)> {
    items.iter().map(|(a, b)| (a.to_string(), b.to_string())).collect()
}

fn key_required(error: RobloxApiError) -> (String, String) {
    match error {
        RobloxApiError::OpenCloudApiKeyRequired { operation, scope } => (operation, scope),
        _ => panic!("expected OpenCloudApiKeyRequired"),
    }
}

#[test]
fn create_badge_request_builds_form() {
    let request = create_badge_request(
        123,
        "Winner".to_owned(),
        "Won".to_owned(),
        "icon.png".to_owned(),
        CreatorType::Group,
        100,
        true,
    )
    .unwrap();
    assert_eq!(request.method, HttpMethod::Post);
    assert_eq!(request.method.as_str(), "POST");
    assert_eq!(request.url, "https://apis.roblox.com/legacy-badges/v1/universes/123/badges");
    assert_eq!(scope(&request), Some("legacy-universe.badge:manage-and-spend-robux"));
    assert_eq!(
        texts(&request),
        pairs(&[("name", "Winner"), ("description", "Won"), ("paymentSourceType", "2"), ("expectedCost", "100"), ("isActive", "true")])
    );
    match &request.body {
        RequestBody::Multipart(parts) => {
            assert!(matches!(&parts[0], FormPart::StreamedFile { name, path } if name == "files" && path == "icon.png"))
        },
        _ => panic!("not a form"),
    }
    let user = create_badge_request(1, "a".to_owned(), "b".to_owned(), "i".to_owned(), CreatorType::User, 0, true).unwrap();
    assert_eq!(texts(&user)[2], ("paymentSourceType".to_owned(), "1".to_owned()));
}

#[test]
fn create_badge_request_needs_open_cloud_key() {
    let error = create_badge_request(7, "a".to_owned(), "b".to_owned(), "i".to_owned(), CreatorType::User, 0, false).unwrap_err();
    assert_eq!(
        key_required(error),
        ("badge creation for universe 7".to_owned(), "legacy-universe.badge:manage-and-spend-robux".to_owned())
    );
}

#[test]
fn update_badge_request_sends_json() {
    let request = update_badge_request(55, "N".to_owned(), "D".to_owned(), false, true).unwrap();
    assert_eq!(request.method, HttpMethod::Patch);
    assert_eq!(request.url, "https://apis.roblox.com/legacy-badges/v1/badges/55");
    match &request.body {
        RequestBody::Json(JsonValue::Object(members)) => {
            assert_eq!(members.len(), 3);
            assert!(matches!(&members[0], (k, JsonValue::Text(v)) if k == "name" && v == "N"));
            assert!(matches!(&members[1], (k, JsonValue::Text(v)) if k == "description" && v == "D"));
            assert!(matches!(&members[2], (k, JsonValue::Bool(false)) if k == "enabled"));
        },
        _ => panic!("not json"),
    }
    let error = update_badge_request(55, "N".to_owned(), "D".to_owned(), false, false).unwrap_err();
    assert_eq!(key_required(error), ("badge 55 update".to_owned(), "legacy-universe.badge:write".to_owned()));
}

#[test]
fn badge_listing_requests() {
    let quota = get_create_badge_free_quota_request(9);
    assert_eq!(quota.url, "https://badges.roblox.com/v1/universes/9/free-badges-quota");
    assert!(matches!(quota.credentials, Credentials::Cookie));
    let first = list_badges_request(9, None);
    assert_eq!(first.url, "https://badges.roblox.com/v1/universes/9/badges");
    assert!(first.query.is_empty());
    let next = list_badges_request(9, Some("abc".to_owned()));
    assert_eq!(next.query, pairs(&[("cursor", "abc")]));
    let icon = update_badge_icon_request(4, "i.png".to_owned(), true).unwrap();
    assert_eq!(icon.url, "https://apis.roblox.com/legacy-publish/v1/badges/4/icon");
    assert_eq!(scope(&icon), Some("legacy-badge:manage"));
    let error = update_badge_icon_request(4, "i.png".to_owned(), false).unwrap_err();
    assert_eq!(key_required(error), ("badge 4 icon update".to_owned(), "legacy-badge:manage".to_owned()));
}

#[test]
fn developer_product_requests() {
    let create = create_developer_product_request(10, "Gem".to_owned(), 25, "Shiny".to_owned(), true).unwrap();
    assert_eq!(create.url, "https://apis.roblox.com/developer-products/v2/universes/10/developer-products");
    assert_eq!(
        texts(&create),
        pairs(&[("name", "Gem"), ("description", "Shiny"), ("isForSale", "true"), ("price", "25")])
    );
    let list = list_developer_products_request(10, Some("tok".to_owned()), true).unwrap();
    assert_eq!(list.url, "https://apis.roblox.com/developer-products/v2/universes/10/developer-products/creator");
    assert_eq!(list.query, pairs(&[("pageSize", "100"), ("pageToken", "tok")]));
    assert_eq!(scope(&list), Some("developer-product:read"));
    let update = update_developer_product_request(10, 20, "Gem".to_owned(), 0, "".to_owned(), true, true).unwrap();
    assert_eq!(update.method, HttpMethod::Patch);
    assert_eq!(update.url, "https://apis.roblox.com/developer-products/v2/universes/10/developer-products/20");
    let icon = create_developer_product_icon_request(10, 20, "p.png".to_owned(), true).unwrap();
    assert_eq!(icon.url, "https://apis.roblox.com/developer-products/v2/universes/10/developer-products/20");
    let get = get_developer_product_request(10, 20, true).unwrap();
    assert_eq!(get.url, "https://apis.roblox.com/developer-products/v2/universes/10/developer-products/20/creator");
    assert_eq!(
        key_required(get_developer_product_request(10, 20, false).unwrap_err()),
        ("developer product 20 lookup".to_owned(), "developer-product:read".to_owned())
    );
    assert_eq!(
        key_required(create_developer_product_request(10, "a".to_owned(), 1, "b".to_owned(), false).unwrap_err()),
        ("developer product creation for universe 10".to_owned(), "developer-product:write".to_owned())
    );
}

#[test]
fn game_pass_forms_follow_the_price() {
    let on_sale = create_game_pass_request(3, "VIP".to_owned(), "d".to_owned(), Some(99), "v.png".to_owned(), true).unwrap();
    assert_eq!(on_sale.url, "https://apis.roblox.com/game-passes/v1/universes/3/game-passes");
    assert_eq!(
        texts(&on_sale),
        pairs(&[("name", "VIP"), ("description", "d"), ("isForSale", "true"), ("price", "99")])
    );
    let off_sale = create_game_pass_request(3, "VIP".to_owned(), "d".to_owned(), None, "v.png".to_owned(), true).unwrap();
    assert_eq!(texts(&off_sale), pairs(&[("name", "VIP"), ("description", "d"), ("isForSale", "false")]));

    let update = update_game_pass_request(3, 8, "VIP".to_owned(), "d".to_owned(), None, Some("v.png".to_owned()), true).unwrap();
    assert_eq!(update.url, "https://apis.roblox.com/game-passes/v1/universes/3/game-passes/8");
    assert_eq!(texts(&update), pairs(&[("name", "VIP"), ("description", "d"), ("isForSale", "false")]));
    match &update.body {
        RequestBody::Multipart(parts) => {
            assert!(matches!(parts.last(), Some(FormPart::File { name, path }) if name == "imageFile" && path == "v.png"))
        },
        _ => panic!("not a form"),
    }
    let priced = update_game_pass_request(3, 8, "VIP".to_owned(), "d".to_owned(), Some(5), None, true).unwrap();
    assert_eq!(texts(&priced), pairs(&[("name", "VIP"), ("description", "d"), ("isForSale", "true"), ("price", "5")]));
    let list = list_game_passes_request(3, None, true).unwrap();
    assert_eq!(list.query, pairs(&[("pageSize", "100")]));
    let get = get_game_pass_request(3, 8, true).unwrap();
    assert_eq!(get.url, "https://apis.roblox.com/game-passes/v1/universes/3/game-passes/8/creator");
    assert_eq!(
        key_required(update_game_pass_request(3, 8, "a".to_owned(), "b".to_owned(), None, None, false).unwrap_err()),
        ("game pass 8 update".to_owned(), "game-pass:write".to_owned())
    );
}

#[test]
fn experience_requests() {
    let create = create_experience_request(Some(42));
    assert_eq!(create.url, "https://apis.roblox.com/universes/v1/universes/create");
    assert_eq!(create.query, pairs(&[("groupId", "42")]));
    assert!(matches!(&create.body, RequestBody::Json(JsonValue::Object(m)) if matches!(&m[0], (k, JsonValue::Number(95206881)) if k == "templatePlaceId")));
    assert!(create_experience_request(None).query.is_empty());
    assert_eq!(get_experience_request(5).url, "https://develop.roblox.com/v1/universes/5");
    assert_eq!(get_experience_configuration_request(5).url, "https://develop.roblox.com/v1/universes/5/configuration");
    let configure = configure_experience_request(5);
    assert_eq!(configure.url, "https://develop.roblox.com/v2/universes/5/configuration");
    assert!(matches!(configure.body, RequestBody::CallerJson));
    let activate = set_experience_active_request(5, true, true).unwrap();
    assert_eq!(activate.url, "https://apis.roblox.com/legacy-develop/v1/universes/5/activate");
    assert!(matches!(activate.body, RequestBody::ContentLengthZero));
    let deactivate = set_experience_active_request(5, false, true).unwrap();
    assert_eq!(deactivate.url, "https://apis.roblox.com/legacy-develop/v1/universes/5/deactivate");
    assert_eq!(
        key_required(set_experience_active_request(5, false, false).unwrap_err()),
        ("universe 5 deactivate".to_owned(), "legacy-universe:manage".to_owned())
    );
}

#[test]
fn thumbnail_requests() {
    assert_eq!(upload_icon_request(6, "i.png".to_owned()).url, "https://publish.roblox.com/v1/games/6/icon");
    assert_eq!(upload_thumbnail_request(6, "t.png".to_owned()).url, "https://publish.roblox.com/v1/games/6/thumbnail/image");
    let remove = remove_experience_icon_request(6, true).unwrap();
    assert_eq!(remove.method, HttpMethod::Delete);
    assert_eq!(
        remove.url,
        "https://apis.roblox.com/legacy-game-internationalization/v1/game-icon/games/6/language-codes/en"
    );
    assert_eq!(
        key_required(remove_experience_icon_request(6, false).unwrap_err()),
        ("experience 6 icon removal".to_owned(), "legacy-universe:manage".to_owned())
    );
    assert_eq!(get_experience_thumbnails_request(6).url, "https://games.roblox.com/v2/games/6/media");
    let order = set_experience_thumbnail_order_request(6, &[3, 1, 2]);
    assert_eq!(order.url, "https://develop.roblox.com/v1/universes/6/thumbnails/order");
    match &order.body {
        RequestBody::Json(JsonValue::Object(members)) => match &members[0] {
            (k, JsonValue::Array(ids)) => {
                assert_eq!(k, "thumbnailIds");
                let ids: Vec<u64> = ids
                    .iter()
                    .map(|v| match v {
                        JsonValue::Number(n) => *n,
                        _ => panic!("not a number"),
                    })
                    .collect();
                assert_eq!(ids, vec![3, 1, 2]);
            },
            _ => panic!("not an array"),
        },
        _ => panic!("not json"),
    }
    assert_eq!(
        delete_experience_thumbnail_request(6, 77).url,
        "https://develop.roblox.com/v1/universes/6/thumbnails/77"
    );
}

#[test]
fn asset_requests() {
    let open_cloud = create_image_asset_request("art/logo.png".to_owned(), Creator::UserId("99".to_owned()), true);
    assert_eq!(open_cloud.url, "https://apis.roblox.com/assets/v1/assets");
    assert_eq!(scope(&open_cloud), Some("asset:write"));
    let cookie = create_image_asset_request("art/logo.png".to_owned(), Creator::GroupId("5".to_owned()), false);
    assert_eq!(cookie.url, "https://apis.roblox.com/assets/user-auth/v1/assets");
    assert!(matches!(cookie.credentials, Credentials::Cookie));
    assert_eq!(asset_operation_request("operations/abc", true).url, "https://apis.roblox.com/assets/v1/operations/abc");
    assert_eq!(
        asset_operation_request("operations/abc", false).url,
        "https://apis.roblox.com/assets/user-auth/v1/operations/abc"
    );
    let quota = get_create_asset_quota_request(13);
    assert_eq!(quota.query, pairs(&[("resourceType", "1"), ("assetType", "13")]));
    assert_eq!(archive_asset_request(31).url, "https://develop.roblox.com/v1/assets/31/archive");
}

#[test]
fn audio_request_encodes_the_file() {
    let request = create_audio_asset_request("sounds/boom.ogg", b"hi", None, CreatorType::User).unwrap();
    assert_eq!(request.url, "https://publish.roblox.com/v1/audio");
    match &request.body {
        RequestBody::Json(JsonValue::Object(members)) => {
            assert!(matches!(&members[0], (k, JsonValue::Text(v)) if k == "name" && v == "Audio/boom"));
            assert!(matches!(&members[1], (k, JsonValue::Text(v)) if k == "file" && v == "aGk="));
            assert!(matches!(&members[2], (k, JsonValue::Null) if k == "groupId"));
            assert!(matches!(&members[3], (k, JsonValue::Text(v)) if k == "paymentSource" && v == "User"));
        },
        _ => panic!("not json"),
    }
    let group = create_audio_asset_request("a.mp3", b"", Some(12), CreatorType::Group).unwrap();
    match &group.body {
        RequestBody::Json(JsonValue::Object(members)) => {
            assert!(matches!(&members[2], (_, JsonValue::Number(12))));
            assert!(matches!(&members[3], (_, JsonValue::Text(v)) if v == "Group"));
        },
        _ => panic!("not json"),
    }
    assert!(create_audio_asset_request("..", b"", None, CreatorType::User).is_none());
    assert!(create_audio_asset_request("/", b"", None, CreatorType::User).is_none());
    assert!(create_audio_asset_request("music/..", b"", None, CreatorType::User).is_none());
}

#[test]
fn audio_request_of_paths_with_directories_uses_the_last_stem() {
    for (path, name) in [
        ("sounds/boom.ogg", "Audio/boom"),
        ("a.b/c/track.tar.gz", "Audio/track.tar"),
        ("x/.env", "Audio/.env"),
        ("/music/song.mp3", "Audio/song"),
        ("./song.mp3/.", "Audio/song"),
    ] {
        let request = create_audio_asset_request(path, b"", None, CreatorType::User).unwrap();
        match &request.body {
            RequestBody::Json(JsonValue::Object(members)) => {
                assert!(matches!(&members[0], (k, JsonValue::Text(v)) if k == "name" && v == name))
            },
            _ => panic!("not json"),
        }
    }
}

#[test]
fn audio_request_of_plain_file_names_uses_the_stem() {
    for (path, name) in [("boom.ogg", "Audio/boom"), ("a.tar.gz", "Audio/a.tar"), (".env", "Audio/.env"), ("noext", "Audio/noext")] {
        let request = create_audio_asset_request(path, b"", None, CreatorType::User).unwrap();
        match &request.body {
            RequestBody::Json(JsonValue::Object(members)) => {
                assert!(matches!(&members[0], (k, JsonValue::Text(v)) if k == "name" && v == name))
            },
            _ => panic!("not json"),
        }
    }
}

#[test]
fn developer_product_teardown_takes_it_off_sale_with_a_valid_price() {
    let free = disable_developer_product_request(10, 20, "Gem".to_owned(), 0, "d".to_owned(), true).unwrap();
    assert_eq!(free.method, HttpMethod::Patch);
    assert_eq!(free.url, "https://apis.roblox.com/developer-products/v2/universes/10/developer-products/20");
    assert_eq!(texts(&free), pairs(&[("name", "Gem"), ("description", "d"), ("isForSale", "false"), ("price", "1")]));
    let priced = disable_developer_product_request(10, 20, "Gem".to_owned(), 75, "d".to_owned(), true).unwrap();
    assert_eq!(texts(&priced), pairs(&[("name", "Gem"), ("description", "d"), ("isForSale", "false"), ("price", "75")]));
    let on_sale = update_developer_product_request(10, 20, "Gem".to_owned(), 5, "d".to_owned(), true, true).unwrap();
    assert_eq!(texts(&on_sale)[2], ("isForSale".to_owned(), "true".to_owned()));
    assert!(matches!(
        disable_developer_product_request(10, 20, "Gem".to_owned(), 0, "d".to_owned(), false),
        Err(RobloxApiError::OpenCloudApiKeyRequired { .. })
    ));
}
