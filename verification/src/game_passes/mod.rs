pub mod models;

use vstd::prelude::*;

use crate::errors::{is_scoped_error, with_required_scope, RobloxApiError, RobloxApiResult};
use crate::models::AssetId;
use crate::request::{
    form_part, is_key_required_error, open_cloud, optional_param, parts_view, push_optional_param, query_view,
    require_open_cloud, simple_request, text_part, text_with_id, text_with_ids, with_id, with_ids,
    ApiRequest, BodyView, CredentialsView, FormPart, FormPartView, HttpMethod, RequestBody,
    RequestView,
};
use crate::text::{decimal, u64_to_decimal};

verus! {

/// How `bool` displays.
pub open spec fn bool_text(b: bool) -> Seq<char> {
    if b { "true"@ } else { "false"@ }
}

/// Lists one page (of up to 100) of an experience's game passes, from
/// `page_token` when given. Needs an Open Cloud API key.
pub fn list_game_passes_request(
    experience_id: AssetId,
    page_token: Option<String>,
    open_cloud_available: bool,
) -> (res: RobloxApiResult<ApiRequest>)
    ensures
        open_cloud_available <==> res is Ok,
        res matches Err(e) ==> is_key_required_error(
            e,
            with_id("game pass listing for universe "@, experience_id, ""@),
            "game-pass:read"@,
        ),
        res matches Ok(r) ==> r@ == (RequestView {
            method: HttpMethod::Get,
            url: with_id(
                "https://apis.roblox.com/game-passes/v1/universes/"@,
                experience_id,
                "/game-passes/creator"@,
            ),
            query: seq![("pageSize"@, "100"@)] + optional_param("pageToken"@, page_token),
            body: BodyView::Empty,
            credentials: CredentialsView::OpenCloud { scope: "game-pass:read"@ },
        }),
{
    let url = text_with_id("https://apis.roblox.com/game-passes/v1/universes/", experience_id, "/game-passes/creator");
    require_open_cloud(
        open_cloud_available,
        text_with_id("game pass listing for universe ", experience_id, ""),
        "game-pass:read",
    )?;
    let mut query: Vec<(String, String)> = Vec::new();
    query.push(("pageSize".to_owned(), "100".to_owned()));
    assert(query_view(query@) =~= seq![("pageSize"@, "100"@)]);
    push_optional_param(&mut query, "pageToken", page_token);
    Ok(ApiRequest {
        method: HttpMethod::Get,
        url,
        query,
        body: RequestBody::Empty,
        credentials: open_cloud("game-pass:read"),
    })
}

/// Reads one game pass. Needs an Open Cloud API key.
pub fn get_game_pass_request(
    experience_id: AssetId,
    game_pass_id: AssetId,
    open_cloud_available: bool,
) -> (res: RobloxApiResult<ApiRequest>)
    ensures
        open_cloud_available <==> res is Ok,
        res matches Err(e) ==> is_key_required_error(
            e,
            with_id("game pass "@, game_pass_id, " lookup"@),
            "game-pass:read"@,
        ),
        res matches Ok(r) ==> r@ == (RequestView {
            method: HttpMethod::Get,
            url: with_ids(
                "https://apis.roblox.com/game-passes/v1/universes/"@,
                experience_id,
                "/game-passes/"@,
                game_pass_id,
                "/creator"@,
            ),
            query: Seq::empty(),
            body: BodyView::Empty,
            credentials: CredentialsView::OpenCloud { scope: "game-pass:read"@ },
        }),
{
    let url = text_with_ids(
        "https://apis.roblox.com/game-passes/v1/universes/",
        experience_id,
        "/game-passes/",
        game_pass_id,
        "/creator",
    );
    require_open_cloud(open_cloud_available, text_with_id("game pass ", game_pass_id, " lookup"), "game-pass:read")?;
    Ok(simple_request(HttpMethod::Get, url, RequestBody::Empty, open_cloud("game-pass:read")))
}

/// The sale fields of a new game pass: on sale at the price when there is
/// one, otherwise off sale.
pub open spec fn creation_sale_parts(price: Option<u32>) -> Seq<FormPartView> {
    match price {
        Some(p) => seq![
            FormPartView::Text { name: "isForSale"@, value: "true"@ },
            FormPartView::Text { name: "price"@, value: decimal(p as nat) },
        ],
        None => seq![FormPartView::Text { name: "isForSale"@, value: "false"@ }],
    }
}

/// Creates a game pass with the icon at `icon_file`, on sale at `price` when
/// one is given and off sale otherwise. Needs an Open Cloud API key.
pub fn create_game_pass_request(
    experience_id: AssetId,
    name: String,
    description: String,
    price: Option<u32>,
    icon_file: String,
    open_cloud_available: bool,
) -> (res: RobloxApiResult<ApiRequest>)
    ensures
        open_cloud_available <==> res is Ok,
        res matches Err(e) ==> is_key_required_error(
            e,
            with_id("game pass creation for universe "@, experience_id, ""@),
            "game-pass:write"@,
        ),
        res matches Ok(r) ==> r@ == (RequestView {
            method: HttpMethod::Post,
            url: with_id("https://apis.roblox.com/game-passes/v1/universes/"@, experience_id, "/game-passes"@),
            query: Seq::empty(),
            body: BodyView::Multipart(seq![
                FormPartView::Text { name: "name"@, value: name@ },
                FormPartView::Text { name: "description"@, value: description@ },
                FormPartView::File { name: "imageFile"@, path: icon_file@ },
            ] + creation_sale_parts(price)),
            credentials: CredentialsView::OpenCloud { scope: "game-pass:write"@ },
        }),
{
    let url = text_with_id("https://apis.roblox.com/game-passes/v1/universes/", experience_id, "/game-passes");
    require_open_cloud(
        open_cloud_available,
        text_with_id("game pass creation for universe ", experience_id, ""),
        "game-pass:write",
    )?;
    let mut parts: Vec<FormPart> = Vec::new();
    parts.push(text_part("name", name));
    parts.push(text_part("description", description));
    parts.push(FormPart::File { name: "imageFile".to_owned(), path: icon_file });
    match price {
        Some(p) => {
            parts.push(text_part("isForSale", "true".to_owned()));
            parts.push(text_part("price", u64_to_decimal(p as u64)));
        },
        None => {
            parts.push(text_part("isForSale", "false".to_owned()));
        },
    }
    assert(parts_view(parts@) =~= seq![
        FormPartView::Text { name: "name"@, value: name@ },
        FormPartView::Text { name: "description"@, value: description@ },
        FormPartView::File { name: "imageFile"@, path: icon_file@ },
    ] + creation_sale_parts(price));
    Ok(simple_request(HttpMethod::Post, url, RequestBody::Multipart(parts), open_cloud("game-pass:write")))
}

/// The fields of a game pass update after its name and description: whether
/// it is on sale, its price when it has one, and the new icon when one is
/// given.
pub open spec fn update_parts(price: Option<u32>, icon_file: Option<String>) -> Seq<FormPartView> {
    seq![FormPartView::Text { name: "isForSale"@, value: bool_text(price is Some) }]
        + match price {
            Some(p) => seq![FormPartView::Text { name: "price"@, value: decimal(p as nat) }],
            None => Seq::empty(),
        }
        + match icon_file {
            Some(f) => seq![FormPartView::File { name: "imageFile"@, path: f@ }],
            None => Seq::empty(),
        }
}

/// The form of a game pass update: its name and description, then the
/// fields of `update_parts`.
pub open spec fn game_pass_update_form(
    name: Seq<char>,
    description: Seq<char>,
    price: Option<u32>,
    icon_file: Option<String>,
) -> Seq<FormPartView> {
    seq![
        FormPartView::Text { name: "name"@, value: name },
        FormPartView::Text { name: "description"@, value: description },
    ] + update_parts(price, icon_file)
}

/// Game pass update law: for every name, description, price and icon, the
/// update form sends the name and description first; it puts the pass on
/// sale ("true") exactly when a price is given and then sends that price in
/// decimal, and sends no price otherwise; whenever an icon file is given,
/// whether or not there is a price, the form ends with that file as
/// `imageFile`, and without one it sends no file at all.
pub proof fn lemma_game_pass_update_form(
    name: Seq<char>,
    description: Seq<char>,
    price: Option<u32>,
    icon_file: Option<String>,
)
    ensures
        game_pass_update_form(name, description, price, icon_file).len() == 3 + (if price is Some { 1int } else { 0 })
            + (if icon_file is Some { 1int } else { 0 }),
        game_pass_update_form(name, description, price, icon_file)[0] == (FormPartView::Text { name: "name"@, value: name }),
        game_pass_update_form(name, description, price, icon_file)[1] == (FormPartView::Text {
            name: "description"@,
            value: description,
        }),
        form_part(game_pass_update_form(name, description, price, icon_file), "isForSale"@) == Some(
            FormPartView::Text { name: "isForSale"@, value: if price is Some { "true"@ } else { "false"@ } },
        ),
        form_part(game_pass_update_form(name, description, price, icon_file), "price"@) == match price {
            Some(p) => Some(FormPartView::Text { name: "price"@, value: decimal(p as nat) }),
            None => None,
        },
        match icon_file {
            Some(f) => game_pass_update_form(name, description, price, icon_file).last() == (FormPartView::File {
                name: "imageFile"@,
                path: f@,
            }),
            None => forall|i: int|
                0 <= i < game_pass_update_form(name, description, price, icon_file).len() ==> !(
                #[trigger] game_pass_update_form(name, description, price, icon_file)[i] is File),
        },
{
    reveal_strlit("name");
    reveal_strlit("description");
    reveal_strlit("isForSale");
    reveal_strlit("price");
    reveal_strlit("imageFile");
    reveal_with_fuel(form_part, 6);
    let form = game_pass_update_form(name, description, price, icon_file);
    assert(form.drop_first() =~= form.subrange(1, form.len() as int));
    assert(form.drop_first().drop_first() =~= form.subrange(2, form.len() as int));
    assert(form.drop_first().drop_first().drop_first() =~= form.subrange(3, form.len() as int));
    if form.len() > 4 {
        assert(form.drop_first().drop_first().drop_first().drop_first() =~= form.subrange(4, form.len() as int));
    }
    assert("name"@.len() != "isForSale"@.len() && "description"@.len() != "isForSale"@.len());
    assert("name"@.len() != "price"@.len() && "description"@.len() != "price"@.len());
    assert("isForSale"@.len() != "price"@.len() && "imageFile"@ != "price"@);
    assert("imageFile"@[1] != "isForSale"@[1]);
}

/// Sale agreement law: creating a game pass and updating one without a new
/// icon send the same sale fields for the same price.
pub proof fn lemma_creation_and_update_agree_on_sale(price: Option<u32>)
    ensures
        creation_sale_parts(price) == update_parts(price, None::<String>),
{
    assert(creation_sale_parts(price) =~= update_parts(price, None::<String>));
}

/// Renames a game pass, rewrites its description, puts it on sale at `price`
/// (or off sale without one) and replaces its icon when `icon_file` is
/// given. Needs an Open Cloud API key. The pass is read back afterwards with
/// `get_game_pass_request`.
pub fn update_game_pass_request(
    experience_id: AssetId,
    game_pass_id: AssetId,
    name: String,
    description: String,
    price: Option<u32>,
    icon_file: Option<String>,
    open_cloud_available: bool,
) -> (res: RobloxApiResult<ApiRequest>)
    ensures
        open_cloud_available <==> res is Ok,
        res matches Err(e) ==> is_key_required_error(
            e,
            with_id("game pass "@, game_pass_id, " update"@),
            "game-pass:write"@,
        ),
        res matches Ok(r) ==> r@ == (RequestView {
            method: HttpMethod::Patch,
            url: with_ids(
                "https://apis.roblox.com/game-passes/v1/universes/"@,
                experience_id,
                "/game-passes/"@,
                game_pass_id,
                ""@,
            ),
            query: Seq::empty(),
            body: BodyView::Multipart(game_pass_update_form(name@, description@, price, icon_file)),
            credentials: CredentialsView::OpenCloud { scope: "game-pass:write"@ },
        }),
{
    let url = text_with_ids(
        "https://apis.roblox.com/game-passes/v1/universes/",
        experience_id,
        "/game-passes/",
        game_pass_id,
        "",
    );
    require_open_cloud(open_cloud_available, text_with_id("game pass ", game_pass_id, " update"), "game-pass:write")?;
    let ghost icon_view = icon_file;
    let mut parts: Vec<FormPart> = Vec::new();
    parts.push(text_part("name", name));
    parts.push(text_part("description", description));
    let on_sale = match price {
        Some(_) => "true".to_owned(),
        None => "false".to_owned(),
    };
    parts.push(text_part("isForSale", on_sale));
    match price {
        Some(p) => parts.push(text_part("price", u64_to_decimal(p as u64))),
        None => {},
    }
    match icon_file {
        Some(f) => parts.push(FormPart::File { name: "imageFile".to_owned(), path: f }),
        None => {},
    }
    assert(parts_view(parts@) =~= seq![
        FormPartView::Text { name: "name"@, value: name@ },
        FormPartView::Text { name: "description"@, value: description@ },
    ] + update_parts(price, icon_view));
    Ok(simple_request(HttpMethod::Patch, url, RequestBody::Multipart(parts), open_cloud("game-pass:write")))
}

/// Settles the read-back that follows an update of a game pass: the pass
/// read back is the result, and a failed read is marked as needing the
/// `game-pass:read` scope.
pub fn settle_game_pass_read_back<T>(read_back: RobloxApiResult<T>) -> (res: RobloxApiResult<T>)
    ensures
        match read_back {
            Ok(pass) => res == Ok::<T, RobloxApiError>(pass),
            Err(e) => res matches Err(m) && is_scoped_error(e, m, "game-pass:read"@),
        },
{
    match read_back {
        Ok(pass) => Ok(pass),
        Err(e) => Err(with_required_scope(e, "game-pass:read")),
    }
}

} // verus!
