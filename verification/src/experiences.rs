use vstd::prelude::*;

use crate::errors::{RobloxApiError, RobloxApiResult};
use crate::models::AssetId;
use crate::request::{
    is_key_required_error, lemma_members_view, json_members_view, open_cloud,
    push_optional_param, require_open_cloud, simple_request, text_with_id, with_id, ApiRequest,
    BodyView, Credentials, CredentialsView, HttpMethod, JsonValue, JsonView, RequestBody,
    RequestView,
};
use crate::text::{has_infix, u64_to_decimal};

verus! {

/// The place that new experiences are created from.
pub const TEMPLATE_PLACE_ID: u64 = 95206881;

/// The `groupId` parameter, in decimal, when a group owns the experience.
pub open spec fn group_param(group_id: Option<AssetId>) -> Seq<(Seq<char>, Seq<char>)> {
    match group_id {
        Some(g) => seq![("groupId"@, crate::text::decimal(g as nat))],
        None => Seq::empty(),
    }
}

/// Group ownership law: a new experience is created with a `groupId`
/// parameter exactly when a group owns it, holding that group's id in
/// decimal; one owned by the user carries no parameter.
pub proof fn lemma_group_param_names_the_owner(group_id: Option<AssetId>)
    ensures
        group_param(group_id).len() == if group_id is Some { 1int } else { 0 },
        group_id matches Some(g) ==> group_param(group_id)[0] == ("groupId"@, crate::text::decimal(g as nat)),
{
}

/// Creates an experience from the template place, owned by the group when
/// one is given and by the user otherwise.
pub fn create_experience_request(group_id: Option<AssetId>) -> (res: ApiRequest)
    ensures
        res@ == (RequestView {
            method: HttpMethod::Post,
            url: "https://apis.roblox.com/universes/v1/universes/create"@,
            query: group_param(group_id),
            body: BodyView::Json(JsonView::Object(seq![
                ("templatePlaceId"@, JsonView::Number(TEMPLATE_PLACE_ID as nat)),
            ])),
            credentials: CredentialsView::Cookie,
        }),
{
    let mut members: Vec<(String, JsonValue)> = Vec::new();
    members.push(("templatePlaceId".to_owned(), JsonValue::Number(TEMPLATE_PLACE_ID)));
    proof {
        lemma_members_view(members@);
        assert(json_members_view(members@) =~= seq![
            ("templatePlaceId"@, JsonView::Number(TEMPLATE_PLACE_ID as nat)),
        ]);
    }
    let mut query: Vec<(String, String)> = Vec::new();
    let group = match group_id {
        Some(g) => Some(u64_to_decimal(g)),
        None => None,
    };
    push_optional_param(&mut query, "groupId", group);
    assert(crate::request::query_view(query@) =~= group_param(group_id));
    ApiRequest {
        method: HttpMethod::Post,
        url: "https://apis.roblox.com/universes/v1/universes/create".to_owned(),
        query,
        body: RequestBody::Json(JsonValue::Object(members)),
        credentials: Credentials::Cookie,
    }
}

/// Reads an experience.
pub fn get_experience_request(experience_id: AssetId) -> (res: ApiRequest)
    ensures
        res@ == (RequestView {
            method: HttpMethod::Get,
            url: with_id("https://develop.roblox.com/v1/universes/"@, experience_id, ""@),
            query: Seq::empty(),
            body: BodyView::Empty,
            credentials: CredentialsView::Cookie,
        }),
{
    simple_request(
        HttpMethod::Get,
        text_with_id("https://develop.roblox.com/v1/universes/", experience_id, ""),
        RequestBody::Empty,
        Credentials::Cookie,
    )
}

/// Reads an experience's configuration.
pub fn get_experience_configuration_request(experience_id: AssetId) -> (res: ApiRequest)
    ensures
        res@ == (RequestView {
            method: HttpMethod::Get,
            url: with_id("https://develop.roblox.com/v1/universes/"@, experience_id, "/configuration"@),
            query: Seq::empty(),
            body: BodyView::Empty,
            credentials: CredentialsView::Cookie,
        }),
{
    simple_request(
        HttpMethod::Get,
        text_with_id("https://develop.roblox.com/v1/universes/", experience_id, "/configuration"),
        RequestBody::Empty,
        Credentials::Cookie,
    )
}

/// Writes an experience's configuration; the body is the configuration
/// that the caller supplies.
pub fn configure_experience_request(experience_id: AssetId) -> (res: ApiRequest)
    ensures
        res@ == (RequestView {
            method: HttpMethod::Patch,
            url: with_id("https://develop.roblox.com/v2/universes/"@, experience_id, "/configuration"@),
            query: Seq::empty(),
            body: BodyView::CallerJson,
            credentials: CredentialsView::Cookie,
        }),
{
    simple_request(
        HttpMethod::Patch,
        text_with_id("https://develop.roblox.com/v2/universes/", experience_id, "/configuration"),
        RequestBody::CallerJson,
        Credentials::Cookie,
    )
}

/// The endpoint that activates or deactivates an experience.
pub open spec fn activation_endpoint(active: bool) -> Seq<char> {
    if active { "activate"@ } else { "deactivate"@ }
}

/// Activation law: activating and deactivating an experience use different
/// endpoints, "activate" and "deactivate".
pub proof fn lemma_activation_endpoints_differ(active: bool)
    ensures
        activation_endpoint(active) == if active { "activate"@ } else { "deactivate"@ },
        activation_endpoint(true) != activation_endpoint(false),
{
    reveal_strlit("activate");
    reveal_strlit("deactivate");
    assert("activate"@.len() != "deactivate"@.len());
}

/// Activates or deactivates an experience. Needs an Open Cloud API key.
pub fn set_experience_active_request(
    experience_id: AssetId,
    active: bool,
    open_cloud_available: bool,
) -> (res: RobloxApiResult<ApiRequest>)
    ensures
        open_cloud_available <==> res is Ok,
        res matches Err(e) ==> is_key_required_error(
            e,
            with_id("universe "@, experience_id, " "@) + activation_endpoint(active),
            "legacy-universe:manage"@,
        ),
        res matches Ok(r) ==> r@ == (RequestView {
            method: HttpMethod::Post,
            url: with_id("https://apis.roblox.com/legacy-develop/v1/universes/"@, experience_id, "/"@)
                + activation_endpoint(active),
            query: Seq::empty(),
            body: BodyView::ContentLengthZero,
            credentials: CredentialsView::OpenCloud { scope: "legacy-universe:manage"@ },
        }),
{
    let endpoint = if active { "activate" } else { "deactivate" };
    let mut operation = text_with_id("universe ", experience_id, " ");
    operation.append(endpoint);
    require_open_cloud(open_cloud_available, operation, "legacy-universe:manage")?;
    let mut url = text_with_id("https://apis.roblox.com/legacy-develop/v1/universes/", experience_id, "/");
    url.append(endpoint);
    Ok(simple_request(HttpMethod::Post, url, RequestBody::ContentLengthZero, open_cloud("legacy-universe:manage")))
}

/// The advice added to a failed activation or deactivation, by status.
pub open spec fn activation_advice(status_code: u16) -> Option<Seq<char>> {
    if status_code == 401 {
        Some("; verify the Open Cloud API key is active and was copied without quotes or a session-cookie value"@)
    } else if status_code == 403 {
        Some("; verify the key has the legacy-universe:manage scope and access to this universe"@)
    } else {
        None
    }
}

/// Activation advice law: only unauthorized (401) and forbidden (403)
/// refusals get advice; the two get different advice, and the advice for a
/// forbidden one names the `legacy-universe:manage` scope.
pub proof fn lemma_activation_advice(status_code: u16)
    ensures
        activation_advice(status_code) is Some <==> (status_code == 401 || status_code == 403),
        activation_advice(401) != activation_advice(403),
        activation_advice(403) matches Some(advice) && has_infix(advice, "legacy-universe:manage"@),
{
    reveal_strlit("; verify the key has the legacy-universe:manage scope and access to this universe");
    reveal_strlit("legacy-universe:manage");
    reveal_strlit("; verify the Open Cloud API key is active and was copied without quotes or a session-cookie value");
    let advice = "; verify the key has the legacy-universe:manage scope and access to this universe"@;
    let other = "; verify the Open Cloud API key is active and was copied without quotes or a session-cookie value"@;
    assert(advice.len() != other.len());
    assert(advice.subrange(25, 25 + "legacy-universe:manage"@.len() as int) =~= "legacy-universe:manage"@);
}

/// Adds advice to an activation or deactivation that Roblox refused: an
/// unauthorized (401) answer points at the API key itself, a forbidden (403)
/// one at its scope. Every other error is returned unchanged.
pub fn advise_activation_error(error: RobloxApiError) -> (res: RobloxApiError)
    ensures
        match error {
            RobloxApiError::Roblox { status_code, request_method, request_url, reason } => match activation_advice(status_code) {
                Some(advice) => res matches RobloxApiError::Roblox { status_code: s, request_method: m, request_url: u, reason: r }
                    && s == status_code && m@ == request_method@ && u@ == request_url@ && r@ == reason@ + advice,
                None => res == error,
            },
            _ => res == error,
        },
{
    match error {
        RobloxApiError::Roblox { status_code, request_method, request_url, reason } => {
            if status_code == 401 {
                let mut reason = reason;
                reason.append("; verify the Open Cloud API key is active and was copied without quotes or a session-cookie value");
                RobloxApiError::Roblox { status_code, request_method, request_url, reason }
            } else if status_code == 403 {
                let mut reason = reason;
                reason.append("; verify the key has the legacy-universe:manage scope and access to this universe");
                RobloxApiError::Roblox { status_code, request_method, request_url, reason }
            } else {
                RobloxApiError::Roblox { status_code, request_method, request_url, reason }
            }
        },
        other => other,
    }
}

} // verus!
