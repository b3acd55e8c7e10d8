use vstd::prelude::*;

use crate::errors::{is_scoped_error, with_required_scope, RobloxApiError, RobloxApiResult};
use crate::models::AssetId;
use crate::request::{
    is_key_required_error, json_members_view, json_view, json_views, lemma_items_view,
    lemma_members_view, open_cloud, parts_view, require_open_cloud, simple_request, text_with_id,
    text_with_ids, with_id, with_ids, ApiRequest, BodyView, Credentials, CredentialsView, FormPart,
    FormPartView, HttpMethod, JsonValue, JsonView, RequestBody, RequestView,
};
use crate::text::{contains_str, has_infix};

verus! {

/// A multipart form that uploads the file at `path` as `request.files`.
fn image_upload_form(path: String) -> (res: RequestBody)
    ensures
        res@ == BodyView::Multipart(seq![FormPartView::StreamedFile { name: "request.files"@, path: path@ }]),
{
    let mut parts: Vec<FormPart> = Vec::new();
    parts.push(FormPart::StreamedFile { name: "request.files".to_owned(), path });
    assert(parts_view(parts@) =~= seq![FormPartView::StreamedFile { name: "request.files"@, path: path@ }]);
    RequestBody::Multipart(parts)
}

/// Uploads the image at `icon_file` as an experience's icon.
pub fn upload_icon_request(experience_id: AssetId, icon_file: String) -> (res: ApiRequest)
    ensures
        res@ == (RequestView {
            method: HttpMethod::Post,
            url: with_id("https://publish.roblox.com/v1/games/"@, experience_id, "/icon"@),
            query: Seq::empty(),
            body: BodyView::Multipart(seq![FormPartView::StreamedFile { name: "request.files"@, path: icon_file@ }]),
            credentials: CredentialsView::Cookie,
        }),
{
    simple_request(
        HttpMethod::Post,
        text_with_id("https://publish.roblox.com/v1/games/", experience_id, "/icon"),
        image_upload_form(icon_file),
        Credentials::Cookie,
    )
}

/// Uploads the image at `thumbnail_file` as a new thumbnail of an experience.
pub fn upload_thumbnail_request(experience_id: AssetId, thumbnail_file: String) -> (res: ApiRequest)
    ensures
        res@ == (RequestView {
            method: HttpMethod::Post,
            url: with_id("https://publish.roblox.com/v1/games/"@, experience_id, "/thumbnail/image"@),
            query: Seq::empty(),
            body: BodyView::Multipart(seq![FormPartView::StreamedFile { name: "request.files"@, path: thumbnail_file@ }]),
            credentials: CredentialsView::Cookie,
        }),
{
    simple_request(
        HttpMethod::Post,
        text_with_id("https://publish.roblox.com/v1/games/", experience_id, "/thumbnail/image"),
        image_upload_form(thumbnail_file),
        Credentials::Cookie,
    )
}

/// Removes an experience's icon in its source language ("en"). Needs an
/// Open Cloud API key.
pub fn remove_experience_icon_request(
    experience_id: AssetId,
    open_cloud_available: bool,
) -> (res: RobloxApiResult<ApiRequest>)
    ensures
        open_cloud_available <==> res is Ok,
        res matches Err(e) ==> is_key_required_error(
            e,
            with_id("experience "@, experience_id, " icon removal"@),
            "legacy-universe:manage"@,
        ),
        res matches Ok(r) ==> r@ == (RequestView {
            method: HttpMethod::Delete,
            url: with_id(
                "https://apis.roblox.com/legacy-game-internationalization/v1/game-icon/games/"@,
                experience_id,
                "/language-codes/en"@,
            ),
            query: Seq::empty(),
            body: BodyView::Empty,
            credentials: CredentialsView::OpenCloud { scope: "legacy-universe:manage"@ },
        }),
{
    let url = text_with_id(
        "https://apis.roblox.com/legacy-game-internationalization/v1/game-icon/games/",
        experience_id,
        "/language-codes/en",
    );
    require_open_cloud(
        open_cloud_available,
        text_with_id("experience ", experience_id, " icon removal"),
        "legacy-universe:manage",
    )?;
    Ok(simple_request(HttpMethod::Delete, url, RequestBody::Empty, open_cloud("legacy-universe:manage")))
}

/// Whether a failed icon removal means that there was nothing to remove:
/// the icon is not found (404), or Roblox refuses (400) because the icon is
/// the one of the source language.
pub open spec fn icon_already_absent(error: RobloxApiError) -> bool {
    match error {
        RobloxApiError::Roblox { status_code, reason, .. } => status_code == 404 || (status_code == 400
            && has_infix(reason@, "source language"@)),
        _ => false,
    }
}

/// Absent icon law: a "not found" (404) answer means the icon is already
/// gone whatever its reason; a refused request (400) means so exactly when
/// its reason mentions the source language; no other answer, and no other
/// kind of error, does.
pub proof fn lemma_icon_absence(status_code: u16, request_method: String, request_url: String, reason: String)
    ensures
        icon_already_absent(RobloxApiError::Roblox { status_code, request_method, request_url, reason }) <==> (
        status_code == 404 || (status_code == 400 && has_infix(reason@, "source language"@))),
        !icon_already_absent(RobloxApiError::Authorization),
{
}

/// Settles the outcome of an icon removal. Removal is idempotent: an icon
/// that is already absent counts as removed. Any other failure is returned
/// marked as needing the `legacy-universe:manage` scope.
pub fn resolve_icon_removal(result: RobloxApiResult<()>) -> (res: RobloxApiResult<()>)
    ensures
        match result {
            Ok(_) => res is Ok,
            Err(e) => if icon_already_absent(e) {
                res is Ok
            } else {
                res matches Err(m) && is_scoped_error(e, m, "legacy-universe:manage"@)
            },
        },
{
    match result {
        Ok(()) => Ok(()),
        Err(error) => {
            let absent = match &error {
                RobloxApiError::Roblox { status_code, reason, .. } => *status_code == 404 || (*status_code == 400
                    && contains_str(reason.as_str(), "source language")),
                _ => false,
            };
            if absent {
                Ok(())
            } else {
                Err(with_required_scope(error, "legacy-universe:manage"))
            }
        },
    }
}

/// Lists an experience's media (its thumbnails).
pub fn get_experience_thumbnails_request(experience_id: AssetId) -> (res: ApiRequest)
    ensures
        res@ == (RequestView {
            method: HttpMethod::Get,
            url: with_id("https://games.roblox.com/v2/games/"@, experience_id, "/media"@),
            query: Seq::empty(),
            body: BodyView::Empty,
            credentials: CredentialsView::Cookie,
        }),
{
    simple_request(
        HttpMethod::Get,
        text_with_id("https://games.roblox.com/v2/games/", experience_id, "/media"),
        RequestBody::Empty,
        Credentials::Cookie,
    )
}

/// The ids of a thumbnail order, as JSON numbers.
pub open spec fn id_array(ids: Seq<AssetId>) -> Seq<JsonView> {
    ids.map_values(|id: AssetId| JsonView::Number(id as nat))
}

/// Thumbnail order law: the order sent holds every id given, in the given
/// order and nothing else, each as a JSON number; and the order of two lists
/// one after the other is the first list's order followed by the second's.
pub proof fn lemma_thumbnail_order_keeps_every_id(ids: Seq<AssetId>, more: Seq<AssetId>)
    ensures
        id_array(ids).len() == ids.len(),
        forall|i: int| 0 <= i < ids.len() ==> #[trigger] id_array(ids)[i] == JsonView::Number(ids[i] as nat),
        id_array(ids + more) == id_array(ids) + id_array(more),
{
    assert(id_array(ids + more) =~= id_array(ids) + id_array(more));
}

/// Puts an experience's thumbnails in the given order.
pub fn set_experience_thumbnail_order_request(experience_id: AssetId, new_thumbnail_order: &[AssetId]) -> (res: ApiRequest)
    ensures
        res@ == (RequestView {
            method: HttpMethod::Post,
            url: with_id("https://develop.roblox.com/v1/universes/"@, experience_id, "/thumbnails/order"@),
            query: Seq::empty(),
            body: BodyView::Json(JsonView::Object(seq![
                ("thumbnailIds"@, JsonView::Array(id_array(new_thumbnail_order@))),
            ])),
            credentials: CredentialsView::Cookie,
        }),
{
    let mut ids: Vec<JsonValue> = Vec::new();
    let mut i: usize = 0;
    while i < new_thumbnail_order.len()
        invariant
            i <= new_thumbnail_order@.len(),
            json_views(ids@) == id_array(new_thumbnail_order@.take(i as int)),
        decreases new_thumbnail_order@.len() - i,
    {
        let ghost prev = ids@;
        let id: u64 = new_thumbnail_order[i];
        ids.push(JsonValue::Number(id));
        assert(ids@ == prev.push(JsonValue::Number(id)));
        assert(json_view(JsonValue::Number(id)) == JsonView::Number(id as nat));
        assert(new_thumbnail_order@.take(i + 1) =~= new_thumbnail_order@.take(i as int).push(id));
        assert(json_views(ids@) =~= json_views(prev).push(JsonView::Number(id as nat)));
        assert(json_views(ids@) =~= id_array(new_thumbnail_order@.take(i + 1)));
        i = i + 1;
    }
    assert(new_thumbnail_order@.take(new_thumbnail_order@.len() as int) =~= new_thumbnail_order@);
    proof {
        lemma_items_view(ids@);
    }
    let mut members: Vec<(String, JsonValue)> = Vec::new();
    let array = JsonValue::Array(ids);
    members.push(("thumbnailIds".to_owned(), array));
    proof {
        lemma_members_view(members@);
        assert(json_members_view(members@) =~= seq![
            ("thumbnailIds"@, JsonView::Array(id_array(new_thumbnail_order@))),
        ]);
    }
    simple_request(
        HttpMethod::Post,
        text_with_id("https://develop.roblox.com/v1/universes/", experience_id, "/thumbnails/order"),
        RequestBody::Json(JsonValue::Object(members)),
        Credentials::Cookie,
    )
}

/// Deletes one of an experience's thumbnails.
pub fn delete_experience_thumbnail_request(experience_id: AssetId, thumbnail_id: AssetId) -> (res: ApiRequest)
    ensures
        res@ == (RequestView {
            method: HttpMethod::Delete,
            url: with_ids("https://develop.roblox.com/v1/universes/"@, experience_id, "/thumbnails/"@, thumbnail_id, ""@),
            query: Seq::empty(),
            body: BodyView::Empty,
            credentials: CredentialsView::Cookie,
        }),
{
    simple_request(
        HttpMethod::Delete,
        text_with_ids("https://develop.roblox.com/v1/universes/", experience_id, "/thumbnails/", thumbnail_id, ""),
        RequestBody::Empty,
        Credentials::Cookie,
    )
}

} // verus!
