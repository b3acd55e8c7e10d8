use rbx_api::errors::{status_code_text, with_required_scope, RobloxApiError, RobloxApiErrorResponse};
use rbx_api::helpers::parse_roblox_api_error;

fn empty_response() -> RobloxApiErrorResponse {
    RobloxApiErrorResponse {
        message: None,
        title: None,
        errors: None,
        success: None,
        error_code: None,
        error_message: None,
        field: None,
        hint: None,
    }
}

#[test]
fn reports_open_cloud_error_fields() {
    let body = r#"{"errorCode":"UniverseNotFound","errorMessage":"The universe was not found.","field":"universeId"}"#;
    let parsed = RobloxApiErrorResponse {
        error_code: Some("UniverseNotFound".to_owned()),
        error_message: Some("The universe was not found.".to_owned()),
        field: Some("universeId".to_owned()),
        ..empty_response()
    };

    let error = parse_roblox_api_error(
        404,
        "POST",
        "https://apis.roblox.com/game-passes/v1/universes/123/game-passes",
        Some("application/json"),
        body,
        Some(parsed),
    );

    assert_eq!(
        error.message(),
        "Roblox API request failed: POST https://apis.roblox.com/game-passes/v1/universes/123/game-passes (404 Not Found): code: UniverseNotFound; The universe was not found.; field: universeId"
    );
}

#[test]
fn reports_url_and_empty_response() {
    let error = parse_roblox_api_error(404, "GET", "https://apis.roblox.com/example", None, "", None);

    assert_eq!(
        error.message(),
        "Roblox API request failed: GET https://apis.roblox.com/example (404 Not Found): Roblox returned no diagnostic details."
    );
}

#[test]
fn reason_of_empty_body_is_none() {
    assert_eq!(empty_response().reason(), None);
}

#[test]
fn reason_orders_every_part() {
    let nested = RobloxApiErrorResponse { message: Some("inner one".to_owned()), ..empty_response() };
    let silent = empty_response();
    let nested_two = RobloxApiErrorResponse { title: Some("inner two".to_owned()), ..empty_response() };
    let response = RobloxApiErrorResponse {
        message: Some("msg".to_owned()),
        title: Some("Title".to_owned()),
        errors: Some(vec![nested, silent, nested_two]),
        success: Some(false),
        error_code: Some("Code".to_owned()),
        error_message: Some("error message".to_owned()),
        field: Some("f".to_owned()),
        hint: Some("h".to_owned()),
    };
    assert_eq!(
        response.reason().as_deref(),
        Some("code: Code; error message; field: f; hint: h; msg; Title; inner one; inner two; success: false")
    );
}

#[test]
fn reason_notes_only_false_success() {
    let ok = RobloxApiErrorResponse { success: Some(true), ..empty_response() };
    assert_eq!(ok.reason(), None);
    let failed = RobloxApiErrorResponse { success: Some(false), ..empty_response() };
    assert_eq!(failed.reason().as_deref(), Some("success: false"));
}

#[test]
fn reason_keeps_nested_reasons_of_nested_errors() {
    let deepest = RobloxApiErrorResponse { hint: Some("deep".to_owned()), ..empty_response() };
    let middle = RobloxApiErrorResponse { errors: Some(vec![deepest]), ..empty_response() };
    let top = RobloxApiErrorResponse { errors: Some(vec![middle]), ..empty_response() };
    assert_eq!(top.reason().as_deref(), Some("hint: deep"));
}

#[test]
fn status_text_uses_reason_phrase() {
    assert_eq!(status_code_text(404), "404 Not Found");
    assert_eq!(status_code_text(401), "401 Unauthorized");
    assert_eq!(status_code_text(599), "599 <unknown status code>");
    assert_eq!(status_code_text(42), "42 <unknown status code>");
}

#[test]
fn messages_of_own_errors() {
    assert_eq!(
        RobloxApiError::Authorization.message(),
        "Authorization has been denied for this request. Check your ROBLOSECURITY cookie."
    );
    assert_eq!(
        RobloxApiError::OpenCloudApiKeyRequired { operation: "badge 5 update".to_owned(), scope: "legacy-universe.badge:write".to_owned() }
            .message(),
        "Open Cloud API key is required for badge 5 update; configure ROBLOX_OPEN_CLOUD_API_KEY (or the legacy MANTLE_OPEN_CLOUD_API_KEY alias) with the legacy-universe.badge:write scope."
    );
    assert_eq!(RobloxApiError::ParseHtml.message(), "Failed to parse HTML response.");
    assert_eq!(RobloxApiError::ParseAssetId.message(), "Failed to parse AssetId.");
    assert_eq!(
        RobloxApiError::NoFileName("dir/".to_owned()).message(),
        "Failed to determine file name for path dir/."
    );
    assert_eq!(
        RobloxApiError::InvalidFileExtension("a.txt".to_owned()).message(),
        "Invalid file extension for path a.txt."
    );
    assert_eq!(RobloxApiError::MissingCreateQuota(13).message(), "No create quotas found for asset type 13");
    assert_eq!(
        RobloxApiError::RbxlxPlaceFileSizeTooLarge.message(),
        "Place file size is too large. Consider switching to the rbxl format."
    );
    assert_eq!(
        RobloxApiError::RbxlxPlaceFileSizeMayBeTooLarge.message(),
        "Place file size may be too large. Consider switching to the rbxl format."
    );
    assert_eq!(RobloxApiError::RbxlPlaceFileSizeTooLarge.message(), "Place file size is too large.");
    assert_eq!(RobloxApiError::RbxlPlaceFileSizeMayBeTooLarge.message(), "Place file size may be too large.");
}

#[test]
fn messages_of_carried_errors() {
    let json_error = serde_json::from_str::<serde_json::Value>("{").unwrap_err();
    let expected = format!("Failed to parse JSON response: {}", json_error);
    assert_eq!(RobloxApiError::ParseJson(json_error).message(), expected);

    let io_error = std::io::Error::new(std::io::ErrorKind::NotFound, "gone");
    assert_eq!(RobloxApiError::ReadFile(io_error).message(), "Failed to read file: gone");

    let utf8_error = String::from_utf8(vec![0xff]).unwrap_err();
    let expected = format!("Failed to read utf8 data: {}", utf8_error);
    assert_eq!(RobloxApiError::InvalidUtf8(utf8_error).message(), expected);

    assert_eq!(RobloxApiError::Other("plain".to_owned()).message(), "plain");
}

#[test]
fn required_scope_marks_only_authorization_failures() {
    let forbidden = RobloxApiError::Roblox {
        status_code: 403,
        request_method: "GET".to_owned(),
        request_url: "https://x".to_owned(),
        reason: "Forbidden".to_owned(),
    };
    match with_required_scope(forbidden, "game-pass:read") {
        RobloxApiError::Roblox { status_code, request_method, request_url, reason } => {
            assert_eq!(status_code, 403);
            assert_eq!(request_method, "GET");
            assert_eq!(request_url, "https://x");
            assert_eq!(reason, "Forbidden; the Open Cloud API key requires the game-pass:read scope");
        },
        _ => panic!("not a Roblox error"),
    }
    let unauthorized = RobloxApiError::Roblox {
        status_code: 401,
        request_method: "GET".to_owned(),
        request_url: "https://x".to_owned(),
        reason: "No".to_owned(),
    };
    assert_eq!(
        with_required_scope(unauthorized, "asset:write").message(),
        "Roblox API request failed: GET https://x (401 Unauthorized): No; the Open Cloud API key requires the asset:write scope"
    );
    let missing = RobloxApiError::Roblox {
        status_code: 404,
        request_method: "GET".to_owned(),
        request_url: "https://x".to_owned(),
        reason: "Gone".to_owned(),
    };
    assert!(matches!(with_required_scope(missing, "s"), RobloxApiError::Roblox { ref reason, .. } if reason == "Gone"));
    assert!(matches!(with_required_scope(RobloxApiError::ParseHtml, "s"), RobloxApiError::ParseHtml));
}

#[test]
fn status_line_renders_code_and_phrase() {
    assert_eq!(rbx_api::errors::status_line(418, Some("I'm a teapot")), "418 I'm a teapot");
    assert_eq!(rbx_api::errors::status_line(7, None), "7 <unknown status code>");
}
