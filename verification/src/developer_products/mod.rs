pub mod models;

use vstd::prelude::*;

use crate::errors::RobloxApiResult;
use crate::models::AssetId;
use crate::request::{
    form_part, is_key_required_error, open_cloud, optional_param, parts_view, push_optional_param, query_view,
    require_open_cloud, simple_request, text_part, text_with_id, text_with_ids, with_id, with_ids,
    ApiRequest, BodyView, CredentialsView, FormPart, FormPartView, HttpMethod, RequestBody,
    RequestView,
};
use crate::text::{decimal, u64_to_decimal};

verus! {

/// How `bool` displays.
pub open spec fn sale_text(for_sale: bool) -> Seq<char> {
    if for_sale { "true"@ } else { "false"@ }
}

/// The form that sets a developer product's name, description and price,
/// and whether it is on sale.
pub open spec fn product_form(name: Seq<char>, description: Seq<char>, price: u32, for_sale: bool) -> BodyView {
    BodyView::Multipart(seq![
        FormPartView::Text { name: "name"@, value: name },
        FormPartView::Text { name: "description"@, value: description },
        FormPartView::Text { name: "isForSale"@, value: sale_text(for_sale) },
        FormPartView::Text { name: "price"@, value: decimal(price as nat) },
    ])
}

/// Product form law: for every name, description (empty or not), price and
/// sale flag, the product form has exactly four text parts, always sending
/// the name, the description, "true" or "false" for the sale flag, and the
/// price in decimal, in that order.
pub proof fn lemma_product_form_sends_every_field(
    name: Seq<char>,
    description: Seq<char>,
    price: u32,
    for_sale: bool,
)
    ensures
        product_form(name, description, price, for_sale) matches BodyView::Multipart(parts) && {
            &&& parts.len() == 4
            &&& parts[0] == FormPartView::Text { name: "name"@, value: name }
            &&& parts[1] == FormPartView::Text { name: "description"@, value: description }
            &&& form_part(parts, "description"@) == Some(FormPartView::Text { name: "description"@, value: description })
            &&& form_part(parts, "isForSale"@) == Some(
                FormPartView::Text { name: "isForSale"@, value: if for_sale { "true"@ } else { "false"@ } },
            )
            &&& form_part(parts, "price"@) == Some(FormPartView::Text { name: "price"@, value: decimal(price as nat) })
        },
{
    reveal_strlit("name");
    reveal_strlit("description");
    reveal_strlit("isForSale");
    reveal_strlit("price");
    reveal_with_fuel(form_part, 5);
    let parts = product_form(name, description, price, for_sale)->Multipart_0;
    assert(parts.drop_first() =~= seq![parts[1], parts[2], parts[3]]);
    assert(parts.drop_first().drop_first() =~= seq![parts[2], parts[3]]);
    assert(parts.drop_first().drop_first().drop_first() =~= seq![parts[3]]);
    assert("name"@.len() != "description"@.len());
    assert("name"@.len() != "isForSale"@.len() && "description"@.len() != "isForSale"@.len());
    assert("name"@.len() != "price"@.len() && "description"@.len() != "price"@.len());
    assert("isForSale"@.len() != "price"@.len());
}

fn product_form_parts(name: String, description: String, price: u32, for_sale: bool) -> (res: RequestBody)
    ensures
        res@ == product_form(name@, description@, price, for_sale),
{
    let mut parts: Vec<FormPart> = Vec::new();
    parts.push(text_part("name", name));
    parts.push(text_part("description", description));
    let sale = if for_sale { "true".to_owned() } else { "false".to_owned() };
    parts.push(text_part("isForSale", sale));
    parts.push(text_part("price", u64_to_decimal(price as u64)));
    assert(parts_view(parts@) =~= seq![
        FormPartView::Text { name: "name"@, value: name@ },
        FormPartView::Text { name: "description"@, value: description@ },
        FormPartView::Text { name: "isForSale"@, value: sale_text(for_sale) },
        FormPartView::Text { name: "price"@, value: decimal(price as nat) },
    ]);
    RequestBody::Multipart(parts)
}

/// Creates a developer product, on sale at `price`. Needs an Open Cloud API
/// key.
pub fn create_developer_product_request(
    experience_id: AssetId,
    name: String,
    price: u32,
    description: String,
    open_cloud_available: bool,
) -> (res: RobloxApiResult<ApiRequest>)
    ensures
        open_cloud_available <==> res is Ok,
        res matches Err(e) ==> is_key_required_error(
            e,
            with_id("developer product creation for universe "@, experience_id, ""@),
            "developer-product:write"@,
        ),
        res matches Ok(r) ==> r@ == (RequestView {
            method: HttpMethod::Post,
            url: with_id(
                "https://apis.roblox.com/developer-products/v2/universes/"@,
                experience_id,
                "/developer-products"@,
            ),
            query: Seq::empty(),
            body: product_form(name@, description@, price, true),
            credentials: CredentialsView::OpenCloud { scope: "developer-product:write"@ },
        }),
{
    let url = text_with_id(
        "https://apis.roblox.com/developer-products/v2/universes/",
        experience_id,
        "/developer-products",
    );
    require_open_cloud(
        open_cloud_available,
        text_with_id("developer product creation for universe ", experience_id, ""),
        "developer-product:write",
    )?;
    Ok(simple_request(
        HttpMethod::Post,
        url,
        product_form_parts(name, description, price, true),
        open_cloud("developer-product:write"),
    ))
}

/// Lists one page (of up to 100) of an experience's developer products,
/// from `page_token` when given. Needs an Open Cloud API key.
pub fn list_developer_products_request(
    experience_id: AssetId,
    page_token: Option<String>,
    open_cloud_available: bool,
) -> (res: RobloxApiResult<ApiRequest>)
    ensures
        open_cloud_available <==> res is Ok,
        res matches Err(e) ==> is_key_required_error(
            e,
            with_id("developer product listing for universe "@, experience_id, ""@),
            "developer-product:read"@,
        ),
        res matches Ok(r) ==> r@ == (RequestView {
            method: HttpMethod::Get,
            url: with_id(
                "https://apis.roblox.com/developer-products/v2/universes/"@,
                experience_id,
                "/developer-products/creator"@,
            ),
            query: seq![("pageSize"@, "100"@)] + optional_param("pageToken"@, page_token),
            body: BodyView::Empty,
            credentials: CredentialsView::OpenCloud { scope: "developer-product:read"@ },
        }),
{
    let url = text_with_id(
        "https://apis.roblox.com/developer-products/v2/universes/",
        experience_id,
        "/developer-products/creator",
    );
    require_open_cloud(
        open_cloud_available,
        text_with_id("developer product listing for universe ", experience_id, ""),
        "developer-product:read",
    )?;
    let mut query: Vec<(String, String)> = Vec::new();
    query.push(("pageSize".to_owned(), "100".to_owned()));
    assert(query_view(query@) =~= seq![("pageSize"@, "100"@)]);
    push_optional_param(&mut query, "pageToken", page_token);
    Ok(ApiRequest {
        method: HttpMethod::Get,
        url,
        query,
        body: RequestBody::Empty,
        credentials: open_cloud("developer-product:read"),
    })
}

/// Renames a developer product, rewrites its description, sets its price,
/// and puts it on sale or takes it off sale. Needs an Open Cloud API key.
pub fn update_developer_product_request(
    experience_id: AssetId,
    product_id: AssetId,
    name: String,
    price: u32,
    description: String,
    for_sale: bool,
    open_cloud_available: bool,
) -> (res: RobloxApiResult<ApiRequest>)
    ensures
        open_cloud_available <==> res is Ok,
        res matches Err(e) ==> is_key_required_error(
            e,
            with_id("developer product "@, product_id, " update"@),
            "developer-product:write"@,
        ),
        res matches Ok(r) ==> r@ == (RequestView {
            method: HttpMethod::Patch,
            url: with_ids(
                "https://apis.roblox.com/developer-products/v2/universes/"@,
                experience_id,
                "/developer-products/"@,
                product_id,
                ""@,
            ),
            query: Seq::empty(),
            body: product_form(name@, description@, price, for_sale),
            credentials: CredentialsView::OpenCloud { scope: "developer-product:write"@ },
        }),
{
    let url = text_with_ids(
        "https://apis.roblox.com/developer-products/v2/universes/",
        experience_id,
        "/developer-products/",
        product_id,
        "",
    );
    require_open_cloud(
        open_cloud_available,
        text_with_id("developer product ", product_id, " update"),
        "developer-product:write",
    )?;
    Ok(simple_request(
        HttpMethod::Patch,
        url,
        product_form_parts(name, description, price, for_sale),
        open_cloud("developer-product:write"),
    ))
}

/// The price kept by a developer product taken off sale: its price, but at
/// least 1 Robux, the minimum that the API accepts.
pub open spec fn teardown_price(price: u32) -> u32 {
    if price == 0 { 1 } else { price }
}

/// Teardown price law: the price kept by a product taken off sale is at
/// least 1, and is the product's own price whenever that is at least 1.
pub proof fn lemma_teardown_price_is_valid(price: u32)
    ensures
        teardown_price(price) >= 1,
        price >= 1 ==> teardown_price(price) == price,
{
}

/// Tears a developer product down: takes it off sale while keeping a valid
/// price (its price, and at least the minimum of 1). Needs an Open Cloud API
/// key.
pub fn disable_developer_product_request(
    experience_id: AssetId,
    product_id: AssetId,
    name: String,
    price: u32,
    description: String,
    open_cloud_available: bool,
) -> (res: RobloxApiResult<ApiRequest>)
    ensures
        open_cloud_available <==> res is Ok,
        res matches Err(e) ==> is_key_required_error(
            e,
            with_id("developer product "@, product_id, " update"@),
            "developer-product:write"@,
        ),
        res matches Ok(r) ==> r@ == (RequestView {
            method: HttpMethod::Patch,
            url: with_ids(
                "https://apis.roblox.com/developer-products/v2/universes/"@,
                experience_id,
                "/developer-products/"@,
                product_id,
                ""@,
            ),
            query: Seq::empty(),
            body: product_form(name@, description@, teardown_price(price), false),
            credentials: CredentialsView::OpenCloud { scope: "developer-product:write"@ },
        }),
{
    let kept_price: u32 = if price == 0 { 1 } else { price };
    update_developer_product_request(
        experience_id,
        product_id,
        name,
        kept_price,
        description,
        false,
        open_cloud_available,
    )
}

/// Sets a developer product's icon to the image at `icon_file`. Needs an
/// Open Cloud API key. The product is read back afterwards with
/// `get_developer_product_request`.
pub fn create_developer_product_icon_request(
    experience_id: AssetId,
    product_id: AssetId,
    icon_file: String,
    open_cloud_available: bool,
) -> (res: RobloxApiResult<ApiRequest>)
    ensures
        open_cloud_available <==> res is Ok,
        res matches Err(e) ==> is_key_required_error(
            e,
            with_id("developer product "@, product_id, " icon update"@),
            "developer-product:write"@,
        ),
        res matches Ok(r) ==> r@ == (RequestView {
            method: HttpMethod::Patch,
            url: with_ids(
                "https://apis.roblox.com/developer-products/v2/universes/"@,
                experience_id,
                "/developer-products/"@,
                product_id,
                ""@,
            ),
            query: Seq::empty(),
            body: BodyView::Multipart(seq![FormPartView::File { name: "imageFile"@, path: icon_file@ }]),
            credentials: CredentialsView::OpenCloud { scope: "developer-product:write"@ },
        }),
{
    let url = text_with_ids(
        "https://apis.roblox.com/developer-products/v2/universes/",
        experience_id,
        "/developer-products/",
        product_id,
        "",
    );
    require_open_cloud(
        open_cloud_available,
        text_with_id("developer product ", product_id, " icon update"),
        "developer-product:write",
    )?;
    let mut parts: Vec<FormPart> = Vec::new();
    parts.push(FormPart::File { name: "imageFile".to_owned(), path: icon_file });
    assert(parts_view(parts@) =~= seq![FormPartView::File { name: "imageFile"@, path: icon_file@ }]);
    Ok(simple_request(HttpMethod::Patch, url, RequestBody::Multipart(parts), open_cloud("developer-product:write")))
}

/// Reads one developer product. Needs an Open Cloud API key.
pub fn get_developer_product_request(
    experience_id: AssetId,
    product_id: AssetId,
    open_cloud_available: bool,
) -> (res: RobloxApiResult<ApiRequest>)
    ensures
        open_cloud_available <==> res is Ok,
        res matches Err(e) ==> is_key_required_error(
            e,
            with_id("developer product "@, product_id, " lookup"@),
            "developer-product:read"@,
        ),
        res matches Ok(r) ==> r@ == (RequestView {
            method: HttpMethod::Get,
            url: with_ids(
                "https://apis.roblox.com/developer-products/v2/universes/"@,
                experience_id,
                "/developer-products/"@,
                product_id,
                "/creator"@,
            ),
            query: Seq::empty(),
            body: BodyView::Empty,
            credentials: CredentialsView::OpenCloud { scope: "developer-product:read"@ },
        }),
{
    let url = text_with_ids(
        "https://apis.roblox.com/developer-products/v2/universes/",
        experience_id,
        "/developer-products/",
        product_id,
        "/creator",
    );
    require_open_cloud(
        open_cloud_available,
        text_with_id("developer product ", product_id, " lookup"),
        "developer-product:read",
    )?;
    Ok(simple_request(HttpMethod::Get, url, RequestBody::Empty, open_cloud("developer-product:read")))
}

} // verus!
