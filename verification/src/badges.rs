use vstd::prelude::*;

use crate::errors::RobloxApiResult;
use crate::models::{AssetId, CreatorType};
use crate::request::{
    is_key_required_error, open_cloud, require_open_cloud, simple_request, text_part, text_with_id,
    with_id, ApiRequest, BodyView, Credentials, CredentialsView, FormPart, FormPartView, HttpMethod,
    JsonValue, JsonView, RequestBody, RequestView, parts_view, push_optional_param, optional_param, query_view,
};
use crate::text::{decimal, u64_to_decimal};

verus! {

/// The code by which the badge API names who pays for a badge.
pub open spec fn payment_source_type(payment_source: CreatorType) -> u64 {
    match payment_source {
        CreatorType::User => 1,
        CreatorType::Group => 2,
    }
}

/// Badge payment law: a badge paid by the user is sent with payment source
/// type 1 and one paid by the group with type 2, so the two payers are
/// never confused.
pub proof fn lemma_badge_payment_source_codes(payment_source: CreatorType)
    ensures
        payment_source_type(payment_source) == match payment_source {
            CreatorType::User => 1u64,
            CreatorType::Group => 2u64,
        },
        payment_source_type(CreatorType::User) != payment_source_type(CreatorType::Group),
{
}

/// The scope that badge creation needs.
pub open spec fn badge_creation_scope() -> Seq<char> {
    "legacy-universe.badge:manage-and-spend-robux"@
}

/// Creates a badge for an experience, paid by `payment_source`, with the
/// icon at `icon_file_path`. Needs an Open Cloud API key.
pub fn create_badge_request(
    experience_id: AssetId,
    name: String,
    description: String,
    icon_file_path: String,
    payment_source: CreatorType,
    expected_cost: u32,
    open_cloud_available: bool,
) -> (res: RobloxApiResult<ApiRequest>)
    ensures
        open_cloud_available <==> res is Ok,
        res matches Err(e) ==> is_key_required_error(
            e,
            with_id("badge creation for universe "@, experience_id, ""@),
            badge_creation_scope(),
        ),
        res matches Ok(r) ==> r@ == (RequestView {
            method: HttpMethod::Post,
            url: with_id("https://apis.roblox.com/legacy-badges/v1/universes/"@, experience_id, "/badges"@),
            query: Seq::empty(),
            body: BodyView::Multipart(seq![
                FormPartView::StreamedFile { name: "files"@, path: icon_file_path@ },
                FormPartView::Text { name: "name"@, value: name@ },
                FormPartView::Text { name: "description"@, value: description@ },
                FormPartView::Text { name: "paymentSourceType"@, value: decimal(payment_source_type(payment_source) as nat) },
                FormPartView::Text { name: "expectedCost"@, value: decimal(expected_cost as nat) },
                FormPartView::Text { name: "isActive"@, value: "true"@ },
            ]),
            credentials: CredentialsView::OpenCloud { scope: badge_creation_scope() },
        }),
{
    require_open_cloud(
        open_cloud_available,
        text_with_id("badge creation for universe ", experience_id, ""),
        "legacy-universe.badge:manage-and-spend-robux",
    )?;
    let payment_source_type: u64 = match payment_source {
        CreatorType::User => 1,
        CreatorType::Group => 2,
    };
    let mut parts: Vec<FormPart> = Vec::new();
    parts.push(FormPart::StreamedFile { name: "files".to_owned(), path: icon_file_path });
    parts.push(text_part("name", name));
    parts.push(text_part("description", description));
    parts.push(text_part("paymentSourceType", u64_to_decimal(payment_source_type)));
    parts.push(text_part("expectedCost", u64_to_decimal(expected_cost as u64)));
    parts.push(text_part("isActive", "true".to_owned()));
    assert(parts_view(parts@) =~= seq![
        FormPartView::StreamedFile { name: "files"@, path: icon_file_path@ },
        FormPartView::Text { name: "name"@, value: name@ },
        FormPartView::Text { name: "description"@, value: description@ },
        FormPartView::Text { name: "paymentSourceType"@, value: decimal(payment_source_type as nat) },
        FormPartView::Text { name: "expectedCost"@, value: decimal(expected_cost as nat) },
        FormPartView::Text { name: "isActive"@, value: "true"@ },
    ]);
    let res = simple_request(
        HttpMethod::Post,
        text_with_id("https://apis.roblox.com/legacy-badges/v1/universes/", experience_id, "/badges"),
        RequestBody::Multipart(parts),
        open_cloud("legacy-universe.badge:manage-and-spend-robux"),
    );
    Ok(res)
}


/// Renames a badge, rewrites its description and enables or disables it.
/// Needs an Open Cloud API key.
pub fn update_badge_request(
    badge_id: AssetId,
    name: String,
    description: String,
    enabled: bool,
    open_cloud_available: bool,
) -> (res: RobloxApiResult<ApiRequest>)
    ensures
        open_cloud_available <==> res is Ok,
        res matches Err(e) ==> is_key_required_error(
            e,
            with_id("badge "@, badge_id, " update"@),
            "legacy-universe.badge:write"@,
        ),
        res matches Ok(r) ==> r@ == (RequestView {
            method: HttpMethod::Patch,
            url: with_id("https://apis.roblox.com/legacy-badges/v1/badges/"@, badge_id, ""@),
            query: Seq::empty(),
            body: BodyView::Json(JsonView::Object(seq![
                ("name"@, JsonView::Text(name@)),
                ("description"@, JsonView::Text(description@)),
                ("enabled"@, JsonView::Bool(enabled)),
            ])),
            credentials: CredentialsView::OpenCloud { scope: "legacy-universe.badge:write"@ },
        }),
{
    require_open_cloud(
        open_cloud_available,
        text_with_id("badge ", badge_id, " update"),
        "legacy-universe.badge:write",
    )?;
    let mut members: Vec<(String, JsonValue)> = Vec::new();
    members.push(("name".to_owned(), JsonValue::Text(name)));
    members.push(("description".to_owned(), JsonValue::Text(description)));
    members.push(("enabled".to_owned(), JsonValue::Bool(enabled)));
    let body = JsonValue::Object(members);
    proof {
        crate::request::lemma_members_view(members@);
        assert(crate::request::json_members_view(members@) =~= seq![
            ("name"@, JsonView::Text(name@)),
            ("description"@, JsonView::Text(description@)),
            ("enabled"@, JsonView::Bool(enabled)),
        ]);
        assert(body@ == JsonView::Object(seq![
            ("name"@, JsonView::Text(name@)),
            ("description"@, JsonView::Text(description@)),
            ("enabled"@, JsonView::Bool(enabled)),
        ]));
    }
    Ok(simple_request(
        HttpMethod::Patch,
        text_with_id("https://apis.roblox.com/legacy-badges/v1/badges/", badge_id, ""),
        RequestBody::Json(body),
        open_cloud("legacy-universe.badge:write"),
    ))
}

/// Asks how many badges the experience can still create for free.
pub fn get_create_badge_free_quota_request(experience_id: AssetId) -> (res: ApiRequest)
    ensures
        res@ == (RequestView {
            method: HttpMethod::Get,
            url: with_id("https://badges.roblox.com/v1/universes/"@, experience_id, "/free-badges-quota"@),
            query: Seq::empty(),
            body: BodyView::Empty,
            credentials: CredentialsView::Cookie,
        }),
{
    simple_request(
        HttpMethod::Get,
        text_with_id("https://badges.roblox.com/v1/universes/", experience_id, "/free-badges-quota"),
        RequestBody::Empty,
        Credentials::Cookie,
    )
}

/// Lists one page of an experience's badges, from `page_cursor` when given.
pub fn list_badges_request(experience_id: AssetId, page_cursor: Option<String>) -> (res: ApiRequest)
    ensures
        res@ == (RequestView {
            method: HttpMethod::Get,
            url: with_id("https://badges.roblox.com/v1/universes/"@, experience_id, "/badges"@),
            query: optional_param("cursor"@, page_cursor),
            body: BodyView::Empty,
            credentials: CredentialsView::Cookie,
        }),
{
    let mut query: Vec<(String, String)> = Vec::new();
    push_optional_param(&mut query, "cursor", page_cursor);
    assert(query_view(query@) =~= optional_param("cursor"@, page_cursor));
    ApiRequest {
        method: HttpMethod::Get,
        url: text_with_id("https://badges.roblox.com/v1/universes/", experience_id, "/badges"),
        query,
        body: RequestBody::Empty,
        credentials: Credentials::Cookie,
    }
}

/// Replaces a badge's icon with the image at `icon_file`. Needs an Open
/// Cloud API key.
pub fn update_badge_icon_request(
    badge_id: AssetId,
    icon_file: String,
    open_cloud_available: bool,
) -> (res: RobloxApiResult<ApiRequest>)
    ensures
        open_cloud_available <==> res is Ok,
        res matches Err(e) ==> is_key_required_error(
            e,
            with_id("badge "@, badge_id, " icon update"@),
            "legacy-badge:manage"@,
        ),
        res matches Ok(r) ==> r@ == (RequestView {
            method: HttpMethod::Post,
            url: with_id("https://apis.roblox.com/legacy-publish/v1/badges/"@, badge_id, "/icon"@),
            query: Seq::empty(),
            body: BodyView::Multipart(seq![FormPartView::StreamedFile { name: "Files"@, path: icon_file@ }]),
            credentials: CredentialsView::OpenCloud { scope: "legacy-badge:manage"@ },
        }),
{
    require_open_cloud(
        open_cloud_available,
        text_with_id("badge ", badge_id, " icon update"),
        "legacy-badge:manage",
    )?;
    let mut parts: Vec<FormPart> = Vec::new();
    parts.push(FormPart::StreamedFile { name: "Files".to_owned(), path: icon_file });
    assert(parts_view(parts@) =~= seq![FormPartView::StreamedFile { name: "Files"@, path: icon_file@ }]);
    Ok(simple_request(
        HttpMethod::Post,
        text_with_id("https://apis.roblox.com/legacy-publish/v1/badges/", badge_id, "/icon"),
        RequestBody::Multipart(parts),
        open_cloud("legacy-badge:manage"),
    ))
}

} // verus!
