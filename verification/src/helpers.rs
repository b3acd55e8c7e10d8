use vstd::prelude::*;

use crate::errors::{spec_reason, RobloxApiError, RobloxApiErrorResponse, RobloxApiResult};
use crate::text::{
    ascii_lowercase, file_name_extension, has_infix, has_prefix, is_portable_path, join, join_strings,
    portable_extension, portable_file_name, push_char, starts_with, str_eq, to_ascii_lowercase, trim, trim_str,
    views,
};

verus! {

/// The longest error body, in characters, that is quoted in an error.
pub const MAX_ERROR_BODY_LENGTH: usize = 2048;

/// The trimmed body, cut to `MAX_ERROR_BODY_LENGTH` characters and marked
/// with '…' when it was longer; nothing when the trimmed body is empty.
pub open spec fn spec_truncate_body(body: Seq<char>) -> Option<Seq<char>> {
    let t = trim(body);
    if t.len() == 0 {
        None
    } else if t.len() > MAX_ERROR_BODY_LENGTH {
        Some(t.take(MAX_ERROR_BODY_LENGTH as int).push('…'))
    } else {
        Some(t)
    }
}

/// Quotes a response body in an error: trimmed, and cut to
/// `MAX_ERROR_BODY_LENGTH` characters followed by '…' when longer.
pub fn truncate_body(body: &str) -> (res: Option<String>)
    ensures
        match res {
            Some(t) => spec_truncate_body(body@) == Some(t@),
            None => spec_truncate_body(body@) is None,
        },
{
    let body = trim_str(body);
    let count: usize = body.unicode_len();
    if count == 0 {
        return None;
    }
    if count > MAX_ERROR_BODY_LENGTH {
        let mut truncated = body.substring_char(0, MAX_ERROR_BODY_LENGTH).to_owned();
        push_char(&mut truncated, '…');
        Some(truncated)
    } else {
        Some(body.to_owned())
    }
}

/// Quoting law: a quoted body is never empty and never longer than
/// `MAX_ERROR_BODY_LENGTH` characters plus the '…' mark; it is the whole
/// trimmed body when that fits, and otherwise the body's first
/// `MAX_ERROR_BODY_LENGTH` characters followed by '…'.
pub proof fn lemma_quoted_body_is_bounded(body: Seq<char>)
    ensures
        spec_truncate_body(body) matches Some(t) ==> 0 < t.len() <= MAX_ERROR_BODY_LENGTH + 1,
        spec_truncate_body(body) matches Some(t) ==> (trim(body).len() <= MAX_ERROR_BODY_LENGTH ==> t
            == trim(body)),
        spec_truncate_body(body) matches Some(t) ==> (trim(body).len() > MAX_ERROR_BODY_LENGTH ==> (t.len()
            == MAX_ERROR_BODY_LENGTH + 1 && t.last() == '…' && t.drop_last() == trim(body).take(
            MAX_ERROR_BODY_LENGTH as int,
        ))),
        spec_truncate_body(body) is None <==> trim(body).len() == 0,
{
    let t = trim(body);
    if t.len() > MAX_ERROR_BODY_LENGTH {
        assert(t.take(MAX_ERROR_BODY_LENGTH as int).push('…').drop_last() =~= t.take(MAX_ERROR_BODY_LENGTH as int));
    }
}

/// The CSS selector of the message on Roblox's HTML error pages.
pub open spec fn error_message_selector() -> Seq<char> {
    ".request-error-page-content .error-message"@
}

/// What `scraper` finds in `html` (parsed as an HTML fragment) for
/// `selector`: the text nodes, in document order, of the first element that
/// the selector matches; nothing when the selector does not parse or
/// matches no element.
pub uninterp spec fn html_first_match_texts(html: Seq<char>, selector: Seq<char>) -> Option<Seq<Seq<char>>>;

/// `scraper::Html::parse_fragment`, `Selector::parse`, `Html::select` and
/// `ElementRef::text`: the text nodes of the first element of `html` that
/// `selector` matches. The result is left to the name
/// `html_first_match_texts`.
#[verifier::external_body]
fn first_match_texts(html: &str, selector: &str) -> (res: Option<Vec<String>>)
    ensures
        match res {
            Some(texts) => html_first_match_texts(html@, selector@) == Some(views(texts@)),
            None => html_first_match_texts(html@, selector@) is None,
        },
{
    let document = scraper::Html::parse_fragment(html);
    let selector = scraper::Selector::parse(selector).ok()?;
    let element = document.select(&selector).next()?;
    Some(element.text().map(|text| text.to_string()).collect())
}

/// Each text trimmed.
pub open spec fn trim_all(texts: Seq<Seq<char>>) -> Seq<Seq<char>> {
    texts.map_values(|t: Seq<char>| trim(t))
}

/// The message of a Roblox HTML error page: the trimmed texts of its error
/// message element joined by single spaces; nothing when there is no such
/// element or the message is empty.
pub open spec fn spec_parse_html_error(body: Seq<char>) -> Option<Seq<char>> {
    match html_first_match_texts(body, error_message_selector()) {
        Some(texts) => message_from_texts(texts),
        None => None,
    }
}

/// The message that the texts of an error message element make: each text
/// trimmed, joined by single spaces; nothing when that is empty.
pub open spec fn message_from_texts(texts: Seq<Seq<char>>) -> Option<Seq<char>> {
    let m = join(trim_all(texts), " "@);
    if m.len() == 0 {
        None
    } else {
        Some(m)
    }
}

/// Makes the message of an HTML error page out of the text nodes of its
/// error message element.
pub fn html_error_message(texts: &Vec<String>) -> (res: Option<String>)
    ensures
        match res {
            Some(m) => message_from_texts(views(texts@)) == Some(m@),
            None => message_from_texts(views(texts@)) is None,
        },
{
    let mut trimmed: Vec<String> = Vec::new();
    let mut i: usize = 0;
    while i < texts.len()
        invariant
            i <= texts.len(),
            views(trimmed@) == trim_all(views(texts@)).take(i as int),
        decreases texts.len() - i,
    {
        let t = trim_str(texts[i].as_str()).to_owned();
        let ghost prev = trimmed@;
        trimmed.push(t);
        assert(trimmed@ == prev.push(t));
        assert(views(trimmed@) =~= views(prev).push(t@));
        assert(views(texts@)[i as int] == texts@[i as int]@);
        assert(trim_all(views(texts@))[i as int] == trim(texts@[i as int]@));
        assert(views(trimmed@) =~= trim_all(views(texts@)).take(i + 1));
        i = i + 1;
    }
    assert(trim_all(views(texts@)).take(texts.len() as int) =~= trim_all(views(texts@)));
    let message = join_strings(&trimmed, " ");
    if message.as_str().is_empty() {
        None
    } else {
        Some(message)
    }
}

/// Reads the error message out of a Roblox HTML error page.
pub fn parse_html_error(body: &str) -> (res: Option<String>)
    ensures
        match res {
            Some(m) => spec_parse_html_error(body@) == Some(m@),
            None => spec_parse_html_error(body@) is None,
        },
{
    proof {
        reveal_strlit(".request-error-page-content .error-message");
    }
    match first_match_texts(body, ".request-error-page-content .error-message") {
        Some(texts) => html_error_message(&texts),
        None => None,
    }
}

/// The content type, lower-cased, that an error response declared.
pub open spec fn declared_content_type(content_type: Option<Seq<char>>) -> Seq<char> {
    match content_type {
        Some(c) => ascii_lowercase(c),
        None => Seq::empty(),
    }
}

/// The diagnostic that the body of an error response gives by its declared
/// kind: the reason of a JSON error body, or the message of an HTML error
/// page.
pub open spec fn body_diagnostic(
    content_type: Option<Seq<char>>,
    body: Seq<char>,
    parsed_json: Option<RobloxApiErrorResponse>,
) -> Option<Seq<char>> {
    let ct = declared_content_type(content_type);
    if has_prefix(ct, "application/json"@) {
        match parsed_json {
            Some(r) => spec_reason(r),
            None => None,
        }
    } else if has_prefix(ct, "text/html"@) {
        spec_parse_html_error(body)
    } else {
        None
    }
}

/// The reason reported for an error response: the body's diagnostic, else
/// the quoted body, else a note that Roblox gave no details.
pub open spec fn error_reason(
    content_type: Option<Seq<char>>,
    body: Seq<char>,
    parsed_json: Option<RobloxApiErrorResponse>,
) -> Seq<char> {
    match body_diagnostic(content_type, body, parsed_json) {
        Some(r) => r,
        None => match spec_truncate_body(body) {
            Some(t) => t,
            None => "Roblox returned no diagnostic details."@,
        },
    }
}

/// Diagnostic law: the reason reported for a failed request is never empty,
/// unless the body is a JSON error body whose own reason is empty (one whose
/// only parts are empty texts, such as `{"message": ""}`).
pub proof fn lemma_error_reason_is_never_empty(
    content_type: Option<Seq<char>>,
    body: Seq<char>,
    parsed_json: Option<RobloxApiErrorResponse>,
)
    requires
        body_diagnostic(content_type, body, parsed_json) != Some(Seq::<char>::empty()),
    ensures
        error_reason(content_type, body, parsed_json).len() > 0,
{
    reveal_strlit("Roblox returned no diagnostic details.");
    match body_diagnostic(content_type, body, parsed_json) {
        Some(r) => {
            assert(r.len() != 0) by {
                if r.len() == 0 {
                    assert(r =~= Seq::<char>::empty());
                }
            }
        },
        None => {},
    }
}

/// Content-type law: the declared content type is compared without regard
/// to ASCII case, so two spellings that differ only in case give the same
/// reason.
pub proof fn lemma_content_type_ignores_ascii_case(
    first: Seq<char>,
    second: Seq<char>,
    body: Seq<char>,
    parsed_json: Option<RobloxApiErrorResponse>,
)
    requires
        ascii_lowercase(first) == ascii_lowercase(second),
    ensures
        error_reason(Some(first), body, parsed_json) == error_reason(Some(second), body, parsed_json),
{
}

/// Builds the error for a failed Roblox request.
///
/// `content_type` is the response's `Content-Type` header, when present and
/// readable as text; `parsed_json` is the body read as a JSON error body,
/// when it is one.
pub fn parse_roblox_api_error(
    status_code: u16,
    request_method: &str,
    request_url: &str,
    content_type: Option<&str>,
    body: &str,
    parsed_json: Option<RobloxApiErrorResponse>,
) -> (res: RobloxApiError)
    ensures
        res matches RobloxApiError::Roblox { status_code: s, request_method: m, request_url: u, reason: r }
            && s == status_code
            && m@ == request_method@
            && u@ == request_url@
            && r@ == error_reason(
                match content_type { Some(c) => Some(c@), None => None },
                body@,
                parsed_json,
            ),
{
    let ghost ct_view = match content_type { Some(c) => Some(c@), None => None };
    let content_type = match content_type {
        Some(c) => to_ascii_lowercase(c),
        None => String::new(),
    };
    assert(content_type@ =~= declared_content_type(ct_view));
    let diagnostic = if starts_with(content_type.as_str(), "application/json") {
        match parsed_json {
            Some(r) => r.reason(),
            None => None,
        }
    } else if starts_with(content_type.as_str(), "text/html") {
        parse_html_error(body)
    } else {
        None
    };
    let reason = match diagnostic {
        Some(r) => r,
        None => match truncate_body(body) {
            Some(t) => t,
            None => "Roblox returned no diagnostic details.".to_owned(),
        },
    };
    RobloxApiError::Roblox {
        status_code,
        request_method: request_method.to_owned(),
        request_url: request_url.to_owned(),
        reason,
    }
}


/// What a response to a Roblox request amounts to.
#[derive(Clone, Copy, Debug, PartialEq, Eq, Structural)]
pub enum ResponseDisposition {
    /// Roblox redirected the request to its login page.
    LoginRedirect,
    /// The request succeeded (a 2xx status).
    Success,
    /// Roblox answered with an error status.
    Failure,
}

/// Whether a response URL is Roblox's login page.
pub open spec fn is_login_page(domain: Option<Seq<char>>, path: Seq<char>) -> bool {
    domain == Some("www.roblox.com"@) && path == "/NewLogin"@
}

/// Whether a status code is in the 2xx range.
pub open spec fn is_success_status(status_code: u16) -> bool {
    200 <= status_code < 300
}

/// Classifies a response by the domain and path of its final URL and its
/// status: a redirect to the login page is an authorization failure,
/// whatever its status; otherwise a 2xx status is success.
pub fn response_disposition(domain: Option<&str>, path: &str, status_code: u16) -> (res: ResponseDisposition)
    ensures
        res == (if is_login_page(match domain { Some(d) => Some(d@), None => None }, path@) {
            ResponseDisposition::LoginRedirect
        } else if is_success_status(status_code) {
            ResponseDisposition::Success
        } else {
            ResponseDisposition::Failure
        }),
{
    let on_login_domain = match domain {
        Some(d) => str_eq(d, "www.roblox.com"),
        None => false,
    };
    if on_login_domain && str_eq(path, "/NewLogin") {
        ResponseDisposition::LoginRedirect
    } else if 200 <= status_code && status_code < 300 {
        ResponseDisposition::Success
    } else {
        ResponseDisposition::Failure
    }
}

/// What `url` gives for `url` parsed by `Url::parse` and serialized again
/// after `set_query(None)`: the URL without its query; nothing when it does
/// not parse.
pub uninterp spec fn url_without_query(url: Seq<char>) -> Option<Seq<char>>;

/// `url::Url::parse`, `Url::set_query(None)` and the URL's serialization.
/// The result is left to the name `url_without_query`.
#[verifier::external_body]
fn strip_query(url: &str) -> (res: Option<String>)
    ensures
        match res {
            Some(u) => url_without_query(url@) == Some(u@),
            None => url_without_query(url@) is None,
        },
{
    let mut parsed = url::Url::parse(url).ok()?;
    parsed.set_query(None);
    Some(parsed.to_string())
}

/// The URL reported in an error: the request URL without its query (which
/// may hold credentials or paging tokens); an unparsable URL is reported as
/// it is.
pub open spec fn reported_url(url: Seq<char>) -> Seq<char> {
    match url_without_query(url) {
        Some(u) => u,
        None => url,
    }
}

/// Builds the error for a failed response, from the response's status,
/// final URL, `Content-Type` header and body, and the request's method.
pub fn roblox_api_error_from_response(
    status_code: u16,
    request_method: &str,
    response_url: &str,
    content_type: Option<&str>,
    body: &str,
    parsed_json: Option<RobloxApiErrorResponse>,
) -> (res: RobloxApiError)
    ensures
        res matches RobloxApiError::Roblox { status_code: s, request_method: m, request_url: u, reason: r }
            && s == status_code
            && m@ == request_method@
            && u@ == reported_url(response_url@)
            && r@ == error_reason(
                match content_type { Some(c) => Some(c@), None => None },
                body@,
                parsed_json,
            ),
{
    let url = match strip_query(response_url) {
        Some(u) => u,
        None => response_url.to_owned(),
    };
    parse_roblox_api_error(status_code, request_method, url.as_str(), content_type, body, parsed_json)
}

/// `std::path::Path::file_name`: the last normal component of the path, as
/// text. It is always a non-empty part of the path. For a portable path
/// (`is_portable_path`) the documentation gives the same answer on every
/// platform, `portable_file_name`; for a path with '\\', ':' or a leading
/// "//" the answer depends on the platform's path syntax and is left
/// unsaid.
#[verifier::external_body]
fn path_file_name(path: &str) -> (res: Option<String>)
    ensures
        res matches Some(n) ==> n@.len() > 0 && has_infix(path@, n@),
        is_portable_path(path@) ==> match res {
            Some(n) => portable_file_name(path@) == Some(n@),
            None => portable_file_name(path@) is None,
        },
{
    std::path::Path::new(path).file_name().and_then(|n| n.to_str()).map(|n| n.to_string())
}

/// `std::path::Path::extension`, as text: always a part of the path. For a
/// portable path it is the extension of its file name on every platform
/// (`portable_extension`); for other paths it depends on the platform's path
/// syntax and is left unsaid.
#[verifier::external_body]
fn path_extension(path: &str) -> (res: Option<String>)
    ensures
        res matches Some(e) ==> has_infix(path@, e@),
        is_portable_path(path@) ==> match res {
            Some(e) => portable_extension(path@) == Some(e@),
            None => portable_extension(path@) is None,
        },
{
    std::path::Path::new(path).extension().and_then(|e| e.to_str()).map(|e| e.to_string())
}

/// What `mime_guess::from_ext(ext).first_or_octet_stream()` gives: the first
/// MIME type of mime_guess's table for the extension, or
/// "application/octet-stream" when the table has none.
pub uninterp spec fn mime_for_extension(ext: Seq<char>) -> Seq<char>;

/// `mime_guess::from_ext(ext).first_or_octet_stream()`, as text. The table
/// is left to the name `mime_for_extension`.
#[verifier::external_body]
fn guess_mime_for_extension(ext: &str) -> (res: String)
    ensures
        res@ == mime_for_extension(ext@),
{
    mime_guess::from_ext(ext).first_or_octet_stream().to_string()
}

/// The MIME type under which a file with the given extension is uploaded,
/// as `mime_guess::from_path(..).first_or_octet_stream()` gives it: the
/// type for the extension, or "application/octet-stream" without one.
pub open spec fn upload_mime(ext: Option<Seq<char>>) -> Seq<char> {
    match ext {
        Some(e) => mime_for_extension(e),
        None => "application/octet-stream"@,
    }
}

/// The MIME type for a file with the given extension.
pub fn mime_for(ext: Option<String>) -> (res: String)
    ensures
        res@ == upload_mime(match ext { Some(e) => Some(e@), None => None }),
{
    match ext {
        Some(e) => guess_mime_for_extension(e.as_str()),
        None => "application/octet-stream".to_owned(),
    }
}

/// The file name and MIME type under which a file at `path` is uploaded,
/// or `NoFileName` when the path has no file name. A portable path
/// (`is_portable_path`), relative or absolute, is uploaded under its file
/// name (`portable_file_name`), with the MIME type of that name's extension,
/// and fails exactly when it has none.
pub fn file_upload_info(path: &str) -> (res: RobloxApiResult<(String, String)>)
    ensures
        match res {
            Ok((name, _)) => name@.len() > 0 && has_infix(path@, name@),
            Err(e) => e matches RobloxApiError::NoFileName(p) && p@ == path@,
        },
        is_portable_path(path@) ==> match portable_file_name(path@) {
            Some(n) => res matches Ok((name, mime)) && name@ == n && mime@ == upload_mime(file_name_extension(n)),
            None => res is Err,
        },
{
    let name = match path_file_name(path) {
        Some(n) => n,
        None => return Err(RobloxApiError::NoFileName(path.to_owned())),
    };
    Ok((name, mime_for(path_extension(path))))
}

} // verus!
