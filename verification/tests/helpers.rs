use rbx_api::errors::{RobloxApiError, RobloxApiErrorResponse};
use rbx_api::helpers::{
    file_upload_info, parse_html_error, parse_roblox_api_error, response_disposition,
    roblox_api_error_from_response, truncate_body, ResponseDisposition, MAX_ERROR_BODY_LENGTH,
};

fn reason_of(error: RobloxApiError) -> String {
    match error {
        RobloxApiError::Roblox { reason, .. } => reason,
        _ => panic!("not a Roblox error"),
    }
}

#[test]
fn truncate_body_of_blank_body_is_none() {
    assert_eq!(truncate_body(""), None);
    assert_eq!(truncate_body(" \t\r\n\u{3000}\u{a0}"), None);
}

#[test]
fn truncate_body_trims_short_bodies() {
    assert_eq!(truncate_body("  Bad Request\n").as_deref(), Some("Bad Request"));
    assert_eq!(truncate_body("\u{2003}x y\u{85}").as_deref(), Some("x y"));
}

#[test]
fn truncate_body_cuts_long_bodies_by_characters() {
    let exact: String = std::iter::repeat('é').take(MAX_ERROR_BODY_LENGTH).collect();
    assert_eq!(truncate_body(&exact).as_deref(), Some(exact.as_str()));

    let long: String = std::iter::repeat('é').take(MAX_ERROR_BODY_LENGTH + 1).collect();
    let truncated = truncate_body(&format!("  {}  ", long)).unwrap();
    assert_eq!(truncated.chars().count(), MAX_ERROR_BODY_LENGTH + 1);
    assert!(truncated.ends_with('…'));
    assert_eq!(truncated.chars().filter(|c| *c == 'é').count(), MAX_ERROR_BODY_LENGTH);
}

#[test]
fn parse_html_error_reads_error_message_element() {
    let body = r#"<div class="request-error-page-content"><p class="error-message">
        Something   <b>went</b> wrong
    </p></div>"#;
    assert_eq!(parse_html_error(body).as_deref(), Some("Something went wrong"));
}

#[test]
fn parse_html_error_without_element_is_none() {
    assert_eq!(parse_html_error("<p class=\"error-message\">outside</p>"), None);
    assert_eq!(
        parse_html_error("<div class=\"request-error-page-content\"><p class=\"error-message\">  </p></div>"),
        None
    );
}

#[test]
fn html_error_pages_report_their_message() {
    let body = r#"<html><body><div class="request-error-page-content"><h3 class="error-message">Page cannot be found</h3></div></body></html>"#;
    let error = parse_roblox_api_error(404, "GET", "https://www.roblox.com/x", Some("Text/HTML; charset=utf-8"), body, None);
    assert_eq!(reason_of(error), "Page cannot be found");
}

#[test]
fn json_content_type_is_matched_case_insensitively() {
    let parsed = RobloxApiErrorResponse {
        message: Some("Forbidden".to_owned()),
        title: None,
        errors: None,
        success: None,
        error_code: None,
        error_message: None,
        field: None,
        hint: None,
    };
    let error = parse_roblox_api_error(403, "PATCH", "https://x", Some("Application/JSON; charset=utf-8"), "{\"message\":\"Forbidden\"}", Some(parsed));
    assert_eq!(reason_of(error), "Forbidden");
}

#[test]
fn unparsed_json_falls_back_to_the_body() {
    let error = parse_roblox_api_error(500, "GET", "https://x", Some("application/json"), "  not json  ", None);
    assert_eq!(reason_of(error), "not json");
}

#[test]
fn other_content_types_quote_the_body() {
    let parsed = RobloxApiErrorResponse {
        message: Some("ignored".to_owned()),
        title: None,
        errors: None,
        success: None,
        error_code: None,
        error_message: None,
        field: None,
        hint: None,
    };
    let error = parse_roblox_api_error(502, "GET", "https://x", Some("text/plain"), "Bad Gateway", Some(parsed));
    match error {
        RobloxApiError::Roblox { status_code, request_method, request_url, reason } => {
            assert_eq!(status_code, 502);
            assert_eq!(request_method, "GET");
            assert_eq!(request_url, "https://x");
            assert_eq!(reason, "Bad Gateway");
        },
        _ => panic!("not a Roblox error"),
    }
}

#[test]
fn error_from_response_drops_the_query() {
    let error = roblox_api_error_from_response(
        400,
        "GET",
        "https://apis.roblox.com/list?pageToken=secret&x=1#frag",
        None,
        "",
        None,
    );
    assert_eq!(
        error.message(),
        "Roblox API request failed: GET https://apis.roblox.com/list#frag (400 Bad Request): Roblox returned no diagnostic details."
    );
}

#[test]
fn error_from_response_keeps_unparsable_urls() {
    let error = roblox_api_error_from_response(400, "GET", "not a url", None, "x", None);
    assert!(matches!(error, RobloxApiError::Roblox { ref request_url, .. } if request_url == "not a url"));
}

#[test]
fn login_redirect_is_an_authorization_failure() {
    assert_eq!(response_disposition(Some("www.roblox.com"), "/NewLogin", 200), ResponseDisposition::LoginRedirect);
    assert_eq!(response_disposition(Some("www.roblox.com"), "/NewLogin", 404), ResponseDisposition::LoginRedirect);
}

#[test]
fn response_disposition_by_status() {
    assert_eq!(response_disposition(Some("apis.roblox.com"), "/NewLogin", 200), ResponseDisposition::Success);
    assert_eq!(response_disposition(Some("www.roblox.com"), "/home", 204), ResponseDisposition::Success);
    assert_eq!(response_disposition(None, "/NewLogin", 299), ResponseDisposition::Success);
    assert_eq!(response_disposition(None, "/", 300), ResponseDisposition::Failure);
    assert_eq!(response_disposition(None, "/", 199), ResponseDisposition::Failure);
    assert_eq!(response_disposition(Some("www.roblox.com"), "/NewLogin/", 500), ResponseDisposition::Failure);
}

#[test]
fn file_upload_info_names_and_types_files() {
    let (name, mime) = file_upload_info("icons/badge.png").unwrap();
    assert_eq!(name, "badge.png");
    assert_eq!(mime, "image/png");
    let (name, mime) = file_upload_info("data.unknownextension").unwrap();
    assert_eq!(name, "data.unknownextension");
    assert_eq!(mime, "application/octet-stream");
}

#[test]
fn file_upload_info_without_file_name_fails() {
    match file_upload_info("icons/..") {
        Err(RobloxApiError::NoFileName(path)) => assert_eq!(path, "icons/.."),
        _ => panic!("expected NoFileName"),
    }
    assert!(matches!(file_upload_info(""), Err(RobloxApiError::NoFileName(_))));
}

#[test]
fn html_error_message_joins_trimmed_texts() {
    let texts = vec!["  Something ".to_owned(), "went".to_owned(), "\nwrong\t".to_owned()];
    assert_eq!(rbx_api::helpers::html_error_message(&texts).as_deref(), Some("Something went wrong"));
    assert_eq!(rbx_api::helpers::html_error_message(&vec![]), None);
    assert_eq!(rbx_api::helpers::html_error_message(&vec![" ".to_owned()]), None);
    assert_eq!(
        rbx_api::helpers::html_error_message(&vec!["a".to_owned(), " ".to_owned(), "b".to_owned()]).as_deref(),
        Some("a  b")
    );
}

#[test]
fn blank_bodies_report_no_details() {
    let error = parse_roblox_api_error(500, "DELETE", "https://x", Some("text/plain"), " \n ", None);
    assert_eq!(reason_of(error), "Roblox returned no diagnostic details.");
}

#[test]
fn plain_file_names_upload_under_their_own_name() {
    let (name, mime) = file_upload_info("badge.png").unwrap();
    assert_eq!((name.as_str(), mime.as_str()), ("badge.png", "image/png"));
    let (name, mime) = file_upload_info("README").unwrap();
    assert_eq!((name.as_str(), mime.as_str()), ("README", "application/octet-stream"));
    let (name, mime) = file_upload_info(".env").unwrap();
    assert_eq!((name.as_str(), mime.as_str()), (".env", "application/octet-stream"));
    let (name, mime) = file_upload_info("song.mp3").unwrap();
    assert_eq!((name.as_str(), mime.as_str()), ("song.mp3", "audio/mpeg"));
}

#[test]
fn paths_with_directories_upload_under_their_last_component() {
    let (name, mime) = file_upload_info("assets/icon.png").unwrap();
    assert_eq!((name.as_str(), mime.as_str()), ("icon.png", "image/png"));
    let (name, mime) = file_upload_info("a/b.c/README").unwrap();
    assert_eq!((name.as_str(), mime.as_str()), ("README", "application/octet-stream"));
    let (name, mime) = file_upload_info("media/sounds/song.mp3").unwrap();
    assert_eq!((name.as_str(), mime.as_str()), ("song.mp3", "audio/mpeg"));
}

#[test]
fn absolute_and_dotted_paths_upload_under_their_file_name() {
    for (path, expected) in [
        ("/home/u/icon.png", "icon.png"),
        ("./icon.png", "icon.png"),
        ("a/./b.png/.", "b.png"),
        ("a//b.txt//", "b.txt"),
        ("../up/icon.png", "icon.png"),
    ] {
        let (name, _) = file_upload_info(path).unwrap();
        assert_eq!(name, expected);
    }
    let (_, mime) = file_upload_info("/home/u/icon.png").unwrap();
    assert_eq!(mime, "image/png");
    for path in ["/", ".", "a/..", "./", ""] {
        assert!(matches!(file_upload_info(path), Err(RobloxApiError::NoFileName(p)) if p == path));
    }
}

#[test]
fn mime_for_extensions() {
    assert_eq!(rbx_api::helpers::mime_for(Some("png".to_owned())), "image/png");
    assert_eq!(rbx_api::helpers::mime_for(Some("nosuchext".to_owned())), "application/octet-stream");
    assert_eq!(rbx_api::helpers::mime_for(None), "application/octet-stream");
}
