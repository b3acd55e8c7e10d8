use vstd::prelude::*;

use crate::models::AssetTypeId;
use crate::text::{decimal, has_infix, has_prefix, join, u64_to_decimal, views};

verus! {

#[verifier::external_type_specification]
#[verifier::external_body]
pub struct ExHttpClientError(reqwest::Error);

#[verifier::external_type_specification]
#[verifier::external_body]
pub struct ExJsonError(serde_json::Error);

#[verifier::external_type_specification]
#[verifier::external_body]
pub struct ExIoError(std::io::Error);

#[verifier::external_type_specification]
#[verifier::external_body]
pub struct ExUtf8Error(std::string::FromUtf8Error);

/// Everything that can go wrong when talking to Roblox.
#[derive(Debug)]
pub enum RobloxApiError {
    /// The HTTP client failed.
    HttpClient(reqwest::Error),
    /// Roblox redirected the request to its login page.
    Authorization,
    /// An operation needs an Open Cloud API key with `scope`.
    OpenCloudApiKeyRequired { operation: String, scope: String },
    /// Roblox answered with an error status.
    Roblox { status_code: u16, request_method: String, request_url: String, reason: String },
    /// A response body was not the JSON that was expected.
    ParseJson(serde_json::Error),
    ParseHtml,
    ParseAssetId,
    ReadFile(std::io::Error),
    NoFileName(String),
    InvalidFileExtension(String),
    InvalidUtf8(std::string::FromUtf8Error),
    MissingCreateQuota(AssetTypeId),
    RbxlxPlaceFileSizeTooLarge,
    RbxlxPlaceFileSizeMayBeTooLarge,
    RbxlPlaceFileSizeTooLarge,
    RbxlPlaceFileSizeMayBeTooLarge,
    /// Any other failure, by its message.
    Other(String),
}

/// The result of a Roblox API operation.
pub type RobloxApiResult<T> = Result<T, RobloxApiError>;

/// What `http::StatusCode::canonical_reason` gives for a code (nothing for
/// codes that `StatusCode::from_u16` refuses).
pub uninterp spec fn http_reason_phrase(code: u16) -> Option<Seq<char>>;

/// `reqwest::StatusCode::from_u16` followed by `canonical_reason`: the
/// reason phrase of the code's canonical table entry, if it has one.
/// `from_u16` refuses codes below 100 and from 1000 up, so those
/// have none. The table itself is left to the name.
#[verifier::external_body]
fn canonical_reason(code: u16) -> (res: Option<String>)
    ensures
        match res {
            Some(r) => http_reason_phrase(code) == Some(r@),
            None => http_reason_phrase(code) is None,
        },
        (code < 100 || code >= 1000) ==> res is None,
{
    reqwest::StatusCode::from_u16(code).ok().and_then(|s| s.canonical_reason()).map(|r| r.to_string())
}

/// How a status code is displayed: the number, a space, and its reason
/// phrase (or "<unknown status code>").
pub open spec fn status_text(code: u16) -> Seq<char> {
    status_line_text(code, http_reason_phrase(code))
}

/// A status line: the code, a space, and the reason phrase (or
/// "<unknown status code>" without one).
pub open spec fn status_line_text(code: u16, reason_phrase: Option<Seq<char>>) -> Seq<char> {
    decimal(code as nat) + " "@ + match reason_phrase {
        Some(r) => r,
        None => "<unknown status code>"@,
    }
}

/// Renders a status code with the given reason phrase.
pub fn status_line(code: u16, reason_phrase: Option<&str>) -> (res: String)
    ensures
        res@ == status_line_text(code, match reason_phrase { Some(r) => Some(r@), None => None }),
{
    let mut res = u64_to_decimal(code as u64);
    res.append(" ");
    match reason_phrase {
        Some(r) => res.append(r),
        None => res.append("<unknown status code>"),
    }
    res
}

/// Renders a status code as `StatusCode`'s `Display` does.
pub fn status_code_text(code: u16) -> (res: String)
    ensures
        res@ == status_text(code),
{
    let phrase = canonical_reason(code);
    match phrase {
        Some(r) => status_line(code, Some(r.as_str())),
        None => status_line(code, None),
    }
}

/// The message of an error that carries only the library's own data.
pub open spec fn own_message(e: RobloxApiError) -> Option<Seq<char>> {
    match e {
        RobloxApiError::Authorization => Some(
            "Authorization has been denied for this request. Check your ROBLOSECURITY cookie."@,
        ),
        RobloxApiError::OpenCloudApiKeyRequired { operation, scope } => Some(
            "Open Cloud API key is required for "@ + operation@
                + "; configure ROBLOX_OPEN_CLOUD_API_KEY (or the legacy MANTLE_OPEN_CLOUD_API_KEY alias) with the "@
                + scope@ + " scope."@,
        ),
        RobloxApiError::Roblox { status_code, request_method, request_url, reason } => Some(
            "Roblox API request failed: "@ + request_method@ + " "@ + request_url@ + " ("@
                + status_text(status_code) + "): "@ + reason@,
        ),
        RobloxApiError::ParseHtml => Some("Failed to parse HTML response."@),
        RobloxApiError::ParseAssetId => Some("Failed to parse AssetId."@),
        RobloxApiError::NoFileName(path) => Some(
            "Failed to determine file name for path "@ + path@ + "."@,
        ),
        RobloxApiError::InvalidFileExtension(path) => Some(
            "Invalid file extension for path "@ + path@ + "."@,
        ),
        RobloxApiError::MissingCreateQuota(asset_type) => Some(
            "No create quotas found for asset type "@ + decimal(asset_type as nat),
        ),
        RobloxApiError::RbxlxPlaceFileSizeTooLarge => Some(
            "Place file size is too large. Consider switching to the rbxl format."@,
        ),
        RobloxApiError::RbxlxPlaceFileSizeMayBeTooLarge => Some(
            "Place file size may be too large. Consider switching to the rbxl format."@,
        ),
        RobloxApiError::RbxlPlaceFileSizeTooLarge => Some("Place file size is too large."@),
        RobloxApiError::RbxlPlaceFileSizeMayBeTooLarge => Some("Place file size may be too large."@),
        RobloxApiError::Other(message) => Some(message@),
        _ => None,
    }
}

/// The fixed text that precedes the description of a carried outside error.
pub open spec fn carried_prefix(e: RobloxApiError) -> Seq<char> {
    match e {
        RobloxApiError::HttpClient(_) => "HTTP client error: "@,
        RobloxApiError::ParseJson(_) => "Failed to parse JSON response: "@,
        RobloxApiError::ReadFile(_) => "Failed to read file: "@,
        RobloxApiError::InvalidUtf8(_) => "Failed to read utf8 data: "@,
        _ => Seq::empty(),
    }
}

/// `reqwest::Error`'s `Display` text. Nothing is stated of it.
#[verifier::external_body]
fn describe_http_client_error(e: &reqwest::Error) -> String {
    format!("{}", e)
}

/// `serde_json::Error`'s `Display` text. Nothing is stated of it.
#[verifier::external_body]
fn describe_json_error(e: &serde_json::Error) -> String {
    format!("{}", e)
}

/// `std::io::Error`'s `Display` text. Nothing is stated of it.
#[verifier::external_body]
fn describe_io_error(e: &std::io::Error) -> String {
    format!("{}", e)
}

/// `FromUtf8Error`'s `Display` text. Nothing is stated of it.
#[verifier::external_body]
fn describe_utf8_error(e: &std::string::FromUtf8Error) -> String {
    format!("{}", e)
}

impl RobloxApiError {
    /// The human-readable message of this error.
    pub fn message(&self) -> (res: String)
        ensures
            own_message(*self) is Some ==> res@ == own_message(*self)->0,
            own_message(*self) is None ==> has_prefix(res@, carried_prefix(*self)),
    {
        match self {
            RobloxApiError::HttpClient(e) => {
prefixed("HTTP client error: ", describe_http_client_error(e))
            },
            RobloxApiError::Authorization => {
                "Authorization has been denied for this request. Check your ROBLOSECURITY cookie.".to_owned()
            },
            RobloxApiError::OpenCloudApiKeyRequired { operation, scope } => {
                let mut res = "Open Cloud API key is required for ".to_owned();
                res.append(operation.as_str());
                res.append("; configure ROBLOX_OPEN_CLOUD_API_KEY (or the legacy MANTLE_OPEN_CLOUD_API_KEY alias) with the ");
                res.append(scope.as_str());
                res.append(" scope.");
                res
            },
            RobloxApiError::Roblox { status_code, request_method, request_url, reason } => {
                let mut res = "Roblox API request failed: ".to_owned();
                res.append(request_method.as_str());
                res.append(" ");
                res.append(request_url.as_str());
                res.append(" (");
                let status = status_code_text(*status_code);
                res.append(status.as_str());
                res.append("): ");
                res.append(reason.as_str());
                res
            },
            RobloxApiError::ParseJson(e) => prefixed("Failed to parse JSON response: ", describe_json_error(e)),
            RobloxApiError::ParseHtml => "Failed to parse HTML response.".to_owned(),
            RobloxApiError::ParseAssetId => "Failed to parse AssetId.".to_owned(),
            RobloxApiError::ReadFile(e) => prefixed("Failed to read file: ", describe_io_error(e)),
            RobloxApiError::NoFileName(path) => {
                let mut res = "Failed to determine file name for path ".to_owned();
                res.append(path.as_str());
                res.append(".");
                res
            },
            RobloxApiError::InvalidFileExtension(path) => {
                let mut res = "Invalid file extension for path ".to_owned();
                res.append(path.as_str());
                res.append(".");
                res
            },
            RobloxApiError::InvalidUtf8(e) => prefixed("Failed to read utf8 data: ", describe_utf8_error(e)),
            RobloxApiError::MissingCreateQuota(asset_type) => {
                let mut res = "No create quotas found for asset type ".to_owned();
                let n = u64_to_decimal(*asset_type as u64);
                res.append(n.as_str());
                res
            },
            RobloxApiError::RbxlxPlaceFileSizeTooLarge => {
                "Place file size is too large. Consider switching to the rbxl format.".to_owned()
            },
            RobloxApiError::RbxlxPlaceFileSizeMayBeTooLarge => {
                "Place file size may be too large. Consider switching to the rbxl format.".to_owned()
            },
            RobloxApiError::RbxlPlaceFileSizeTooLarge => "Place file size is too large.".to_owned(),
            RobloxApiError::RbxlPlaceFileSizeMayBeTooLarge => "Place file size may be too large.".to_owned(),
            RobloxApiError::Other(message) => message.clone(),
        }
    }
}

/// What an Open Cloud failure is told about the scope that the request
/// needs.
pub open spec fn scope_note(scope: Seq<char>) -> Seq<char> {
    "; the Open Cloud API key requires the "@ + scope + " scope"@
}

/// Whether `marked` is `error` marked as needing `scope`: an unauthorized
/// (401) or forbidden (403) answer with the scope note added to its reason,
/// any other error unchanged.
pub open spec fn is_scoped_error(error: RobloxApiError, marked: RobloxApiError, scope: Seq<char>) -> bool {
    match error {
        RobloxApiError::Roblox { status_code, request_method, request_url, reason } => if status_code == 401
            || status_code == 403 {
            marked matches RobloxApiError::Roblox { status_code: s, request_method: m, request_url: u, reason: r }
                && s == status_code && m@ == request_method@ && u@ == request_url@ && r@ == reason@
                + scope_note(scope)
        } else {
            marked == error
        },
        _ => marked == error,
    }
}

/// Scope law: marking an unauthorized (401) or forbidden (403) answer as
/// needing a scope keeps its status, method and URL, keeps its reason as the
/// start of the new reason and names the scope in it; every other error is
/// left as it was.
pub proof fn lemma_scoped_error_names_the_scope(error: RobloxApiError, marked: RobloxApiError, scope: Seq<char>)
    requires
        is_scoped_error(error, marked, scope),
    ensures
        match error {
            RobloxApiError::Roblox { status_code, request_method, request_url, reason } => if status_code == 401
                || status_code == 403 {
                marked matches RobloxApiError::Roblox { status_code: s, request_method: m, request_url: u, reason: r }
                    && s == status_code && m@ == request_method@ && u@ == request_url@ && has_prefix(r@, reason@)
                    && has_infix(r@, scope)
            } else {
                marked == error
            },
            _ => marked == error,
        },
{
    if let RobloxApiError::Roblox { status_code, reason, .. } = error {
        if status_code == 401 || status_code == 403 {
            let r = marked->Roblox_reason@;
            let lead = "; the Open Cloud API key requires the "@;
            reveal_strlit("; the Open Cloud API key requires the ");
            assert(lead.len() == 38);
            assert(r =~= reason@ + lead + scope + " scope"@);
            let i: int = reason@.len() + 38int;
            assert(r.subrange(0, reason@.len() as int) =~= reason@);
            assert(r.subrange(i, i + scope.len() as int) =~= scope);
        }
    }
}

/// Marks a failed Open Cloud request as needing `scope`: an unauthorized
/// (401) or forbidden (403) answer names the scope that the API key must
/// have. Every other error is returned unchanged.
pub fn with_required_scope(error: RobloxApiError, scope: &str) -> (res: RobloxApiError)
    ensures
        is_scoped_error(error, res, scope@),
{
    match error {
        RobloxApiError::Roblox { status_code, request_method, request_url, reason } => {
            if status_code == 401 || status_code == 403 {
                let ghost given = reason@;
                let mut reason = reason;
                reason.append("; the Open Cloud API key requires the ");
                reason.append(scope);
                reason.append(" scope");
                assert(reason@ =~= given + scope_note(scope@));
                RobloxApiError::Roblox { status_code, request_method, request_url, reason }
            } else {
                RobloxApiError::Roblox { status_code, request_method, request_url, reason }
            }
        },
        other => other,
    }
}

/// `prefix` followed by `rest`.
fn prefixed(prefix: &str, rest: String) -> (res: String)
    ensures
        res@ == prefix@ + rest@,
        has_prefix(res@, prefix@),
{
    let mut res = prefix.to_owned();
    res.append(rest.as_str());
    assert(res@.subrange(0, prefix@.len() as int) =~= prefix@);
    res
}

/// The error body that Roblox APIs return. Each field is one of the shapes
/// that the various Roblox error models use; any of them may be absent.
#[derive(Debug)]
pub struct RobloxApiErrorResponse {
    /// Most error models carry a `message`.
    pub message: Option<String>,
    /// Some error models (500) carry a `title` instead.
    pub title: Option<String>,
    /// Older APIs nest an `errors` array.
    pub errors: Option<Vec<RobloxApiErrorResponse>>,
    /// Some errors carry a `success` flag.
    pub success: Option<bool>,
    /// Open Cloud `errorCode`.
    pub error_code: Option<String>,
    /// Open Cloud `errorMessage`.
    pub error_message: Option<String>,
    /// Open Cloud `field`.
    pub field: Option<String>,
    /// Open Cloud `hint`.
    pub hint: Option<String>,
}

/// `label` followed by the field's text, when the field is present.
pub open spec fn labelled_part(label: Seq<char>, value: Option<String>) -> Seq<Seq<char>> {
    match value {
        Some(v) => seq![label + v@],
        None => Seq::empty(),
    }
}

/// The field's text, when the field is present.
pub open spec fn plain_part(value: Option<String>) -> Seq<Seq<char>> {
    match value {
        Some(v) => seq![v@],
        None => Seq::empty(),
    }
}

/// The diagnostic parts of an error body, in the order in which they are
/// reported: code, error message, field, hint, message, title, the reasons
/// of the nested errors, and a note when `success` is false.
pub open spec fn reason_parts(r: RobloxApiErrorResponse) -> Seq<Seq<char>>
    decreases r, 1nat,
{
    labelled_part("code: "@, r.error_code)
        + plain_part(r.error_message)
        + labelled_part("field: "@, r.field)
        + labelled_part("hint: "@, r.hint)
        + plain_part(r.message)
        + plain_part(r.title)
        + match r.errors {
            Some(errors) => nested_reasons(errors@),
            None => Seq::empty(),
        }
        + if r.success == Some(false) { seq!["success: false"@] } else { Seq::empty() }
}

/// The reasons of the nested errors that have one, in order.
pub open spec fn nested_reasons(errors: Seq<RobloxApiErrorResponse>) -> Seq<Seq<char>>
    decreases errors, 0nat,
{
    if errors.len() == 0 {
        Seq::empty()
    } else {
        nested_reasons(errors.drop_last()) + match spec_reason(errors.last()) {
            Some(m) => seq![m],
            None => Seq::empty(),
        }
    }
}

/// The reason of an error body: its parts joined by "; ", or nothing when
/// it has no part.
pub open spec fn spec_reason(r: RobloxApiErrorResponse) -> Option<Seq<char>>
    decreases r, 2nat,
{
    let parts = reason_parts(r);
    if parts.len() == 0 {
        None
    } else {
        Some(join(parts, "; "@))
    }
}


/// Appends `label` followed by the field's text, when the field is present.
fn push_labelled(parts: &mut Vec<String>, label: &str, value: &Option<String>)
    ensures
        views(final(parts)@) == views(old(parts)@) + labelled_part(label@, *value),
{
    match value {
        Some(v) => {
            let mut part = label.to_owned();
            part.append(v.as_str());
            parts.push(part);
        },
        None => {},
    }
    assert(views(parts@) =~= views(old(parts)@) + labelled_part(label@, *value));
}

/// Appends the field's text, when the field is present.
fn push_plain(parts: &mut Vec<String>, value: &Option<String>)
    ensures
        views(final(parts)@) == views(old(parts)@) + plain_part(*value),
{
    match value {
        Some(v) => {
            parts.push(v.clone());
        },
        None => {},
    }
    assert(views(parts@) =~= views(old(parts)@) + plain_part(*value));
}

/// The reason of an error body, computed without consuming it.
fn reason_of(r: &RobloxApiErrorResponse) -> (res: Option<String>)
    ensures
        match res {
            Some(m) => spec_reason(*r) == Some(m@),
            None => spec_reason(*r) is None,
        },
    decreases r,
{
    let mut parts: Vec<String> = Vec::new();
    push_labelled(&mut parts, "code: ", &r.error_code);
    push_plain(&mut parts, &r.error_message);
    push_labelled(&mut parts, "field: ", &r.field);
    push_labelled(&mut parts, "hint: ", &r.hint);
    push_plain(&mut parts, &r.message);
    push_plain(&mut parts, &r.title);
    let ghost before_nested = views(parts@);
    match &r.errors {
        Some(errors) => {
            let mut i: usize = 0;
            while i < errors.len()
                invariant
                    i <= errors.len(),
                    r.errors == Some(*errors),
                    views(parts@) == before_nested + nested_reasons(errors@.take(i as int)),
                decreases errors.len() - i,
            {
                proof {
                    assert(decreases_to!(*r => r.errors));
                    assert(decreases_to!(r.errors => r.errors->0));
                    assert(decreases_to!(r.errors->0 => errors@));
                    assert(decreases_to!(errors@ => errors@[i as int]));
                }
                let nested = reason_of(&errors[i]);
                let ghost prev = views(parts@);
                match nested {
                    Some(m) => {
                        parts.push(m);
                    },
                    None => {},
                }
                proof {
                    let t = errors@.take(i + 1);
                    assert(t.drop_last() =~= errors@.take(i as int));
                    assert(t.last() == errors@[i as int]);
                    assert(nested_reasons(t) == nested_reasons(errors@.take(i as int)) + match spec_reason(errors@[i as int]) {
                        Some(m) => seq![m],
                        None => Seq::<Seq<char>>::empty(),
                    });
                    assert(views(parts@) =~= prev + match spec_reason(errors@[i as int]) {
                        Some(m) => seq![m],
                        None => Seq::<Seq<char>>::empty(),
                    });
                    assert(views(parts@) =~= before_nested + nested_reasons(t));
                }
                i = i + 1;
            }
            assert(errors@.take(errors.len() as int) =~= errors@);
        },
        None => {},
    }
    let ghost before_success = views(parts@);
    if r.success == Some(false) {
        parts.push("success: false".to_owned());
    }
    assert(views(parts@) =~= reason_parts(*r));
    if parts.len() == 0 {
        None
    } else {
        Some(crate::text::join_strings(&parts, "; "))
    }
}

impl RobloxApiErrorResponse {
    /// The diagnostic text of this error body: its code, error message,
    /// field, hint, message, title, nested reasons and a note when
    /// `success` is false, joined by "; "; nothing when it has none of them.
    pub fn reason(self) -> (res: Option<String>)
        ensures
            match res {
                Some(m) => spec_reason(self) == Some(m@),
                None => spec_reason(self) is None,
            },
    {
        reason_of(&self)
    }
}

} // verus!
