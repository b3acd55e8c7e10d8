use vstd::prelude::*;

use crate::errors::{RobloxApiError, RobloxApiResult};
use crate::models::{AssetId, AssetTypeId, CreatorType};
use crate::request::{
    json_member, json_members_view, lemma_members_view, member_value, open_cloud, parts_view, query_view,
    simple_request, text_with_id, with_id, ApiRequest, BodyView, Credentials,
    CredentialsView, FormPart, FormPartView, HttpMethod, JsonValue, JsonView, RequestBody,
    RequestView,
};
use crate::text::{
    decimal, digit_char, file_name_stem, has_infix, is_portable_path, portable_file_name, portable_file_stem,
    u64_to_decimal,
};

verus! {

/// The account that owns a new asset.
#[derive(Debug)]
pub enum Creator {
    UserId(String),
    GroupId(String),
}

/// How a creator appears in an asset creation request.
pub open spec fn creator_json(creator: Creator) -> JsonView {
    match creator {
        Creator::UserId(id) => JsonView::Object(seq![("userId"@, JsonView::Text(id@))]),
        Creator::GroupId(id) => JsonView::Object(seq![("groupId"@, JsonView::Text(id@))]),
    }
}

fn creator_document(creator: Creator) -> (res: JsonValue)
    ensures
        res@ == creator_json(creator),
{
    let ghost c = creator;
    let (key, id) = match creator {
        Creator::UserId(id) => ("userId".to_owned(), id),
        Creator::GroupId(id) => ("groupId".to_owned(), id),
    };
    let mut members: Vec<(String, JsonValue)> = Vec::new();
    members.push((key, JsonValue::Text(id)));
    proof {
        lemma_members_view(members@);
        assert(json_members_view(members@) =~= seq![(key@, JsonView::Text(id@))]);
    }
    JsonValue::Object(members)
}

/// The description of a new image asset: its type, its display name and
/// description (both the file's path), and who creates it.
pub open spec fn image_asset_document(file_path: Seq<char>, creator: Creator) -> JsonView {
    JsonView::Object(seq![
        ("assetType"@, JsonView::Text("Image"@)),
        ("displayName"@, JsonView::Text(file_path)),
        ("description"@, JsonView::Text(file_path)),
        ("creationContext"@, JsonView::Object(seq![("creator"@, creator_json(creator))])),
    ])
}

/// Image asset law: for every file path and creator, the document that
/// creates an image asset asks for the asset type "Image", shows the file's
/// path as both its display name and its description, and names the creator
/// by user id or group id, as the creator is given.
pub proof fn lemma_image_asset_document(file_path: Seq<char>, creator: Creator)
    ensures
        json_member(image_asset_document(file_path, creator), "assetType"@) == Some(JsonView::Text("Image"@)),
        json_member(image_asset_document(file_path, creator), "displayName"@) == Some(JsonView::Text(file_path)),
        json_member(image_asset_document(file_path, creator), "description"@) == Some(JsonView::Text(file_path)),
        json_member(image_asset_document(file_path, creator), "creationContext"@) matches Some(context)
            && json_member(context, "creator"@) matches Some(who) && match creator {
            Creator::UserId(id) => json_member(who, "userId"@) == Some(JsonView::Text(id@)),
            Creator::GroupId(id) => json_member(who, "groupId"@) == Some(JsonView::Text(id@)),
        },
{
    reveal_strlit("assetType");
    reveal_strlit("displayName");
    reveal_strlit("description");
    reveal_strlit("creationContext");
    reveal_strlit("creator");
    reveal_strlit("userId");
    reveal_strlit("groupId");
    reveal_with_fuel(member_value, 5);
    let members = seq![
        ("assetType"@, JsonView::Text("Image"@)),
        ("displayName"@, JsonView::Text(file_path)),
        ("description"@, JsonView::Text(file_path)),
        ("creationContext"@, JsonView::Object(seq![("creator"@, creator_json(creator))])),
    ];
    assert(members.drop_first() =~= seq![members[1], members[2], members[3]]);
    assert(members.drop_first().drop_first() =~= seq![members[2], members[3]]);
    assert(members.drop_first().drop_first().drop_first() =~= seq![members[3]]);
    assert("assetType"@.len() == 9);
    assert("displayName"@.len() == 11);
    assert("displayName"@[1] != "description"@[1]);
}

/// Uploads the image at `file_path` as a new image asset of `creator`,
/// through Open Cloud when an API key is configured and with the session
/// cookie otherwise. The answer is an asset operation to poll.
pub fn create_image_asset_request(file_path: String, creator: Creator, open_cloud_available: bool) -> (res: ApiRequest)
    ensures
        res@ == (RequestView {
            method: HttpMethod::Post,
            url: if open_cloud_available {
                "https://apis.roblox.com/assets/v1/assets"@
            } else {
                "https://apis.roblox.com/assets/user-auth/v1/assets"@
            },
            query: Seq::empty(),
            body: BodyView::Multipart(seq![
                FormPartView::JsonText { name: "request"@, document: image_asset_document(file_path@, creator) },
                FormPartView::StreamedFile { name: "fileContent"@, path: file_path@ },
            ]),
            credentials: if open_cloud_available {
                CredentialsView::OpenCloud { scope: "asset:write"@ }
            } else {
                CredentialsView::Cookie
            },
        }),
{
    let ghost path_view = file_path@;
    let ghost c = creator;
    let mut context: Vec<(String, JsonValue)> = Vec::new();
    context.push(("creator".to_owned(), creator_document(creator)));
    proof {
        lemma_members_view(context@);
        assert(json_members_view(context@) =~= seq![("creator"@, creator_json(c))]);
    }
    let mut members: Vec<(String, JsonValue)> = Vec::new();
    members.push(("assetType".to_owned(), JsonValue::Text("Image".to_owned())));
    members.push(("displayName".to_owned(), JsonValue::Text(file_path.clone())));
    members.push(("description".to_owned(), JsonValue::Text(file_path.clone())));
    members.push(("creationContext".to_owned(), JsonValue::Object(context)));
    proof {
        lemma_members_view(members@);
        assert(json_members_view(members@) =~= seq![
            ("assetType"@, JsonView::Text("Image"@)),
            ("displayName"@, JsonView::Text(path_view)),
            ("description"@, JsonView::Text(path_view)),
            ("creationContext"@, JsonView::Object(seq![("creator"@, creator_json(c))])),
        ]);
    }
    let mut parts: Vec<FormPart> = Vec::new();
    parts.push(FormPart::JsonText { name: "request".to_owned(), document: JsonValue::Object(members) });
    parts.push(FormPart::StreamedFile { name: "fileContent".to_owned(), path: file_path });
    assert(parts_view(parts@) =~= seq![
        FormPartView::JsonText { name: "request"@, document: image_asset_document(path_view, c) },
        FormPartView::StreamedFile { name: "fileContent"@, path: path_view },
    ]);
    if open_cloud_available {
        simple_request(
            HttpMethod::Post,
            "https://apis.roblox.com/assets/v1/assets".to_owned(),
            RequestBody::Multipart(parts),
            open_cloud("asset:write"),
        )
    } else {
        simple_request(
            HttpMethod::Post,
            "https://apis.roblox.com/assets/user-auth/v1/assets".to_owned(),
            RequestBody::Multipart(parts),
            Credentials::Cookie,
        )
    }
}

/// Polls the asset operation at `operation_path`, the same way the asset
/// was created (Open Cloud or session cookie).
pub fn asset_operation_request(operation_path: &str, open_cloud_available: bool) -> (res: ApiRequest)
    ensures
        res@ == (RequestView {
            method: HttpMethod::Get,
            url: if open_cloud_available {
                "https://apis.roblox.com/assets/v1/"@ + operation_path@
            } else {
                "https://apis.roblox.com/assets/user-auth/v1/"@ + operation_path@
            },
            query: Seq::empty(),
            body: BodyView::Empty,
            credentials: if open_cloud_available {
                CredentialsView::OpenCloud { scope: "asset:read"@ }
            } else {
                CredentialsView::Cookie
            },
        }),
{
    if open_cloud_available {
        let mut url = "https://apis.roblox.com/assets/v1/".to_owned();
        url.append(operation_path);
        simple_request(HttpMethod::Get, url, RequestBody::Empty, open_cloud("asset:read"))
    } else {
        let mut url = "https://apis.roblox.com/assets/user-auth/v1/".to_owned();
        url.append(operation_path);
        simple_request(HttpMethod::Get, url, RequestBody::Empty, Credentials::Cookie)
    }
}

/// A created asset, as an asset operation returns it.
#[derive(Debug)]
pub struct Asset {
    pub asset_id: String,
}

/// The failure that an asset operation reports.
#[derive(Debug)]
pub struct OperationError {
    pub error: String,
    pub message: String,
}

/// The state of an asynchronous asset operation.
#[derive(Debug)]
pub struct OperationResult {
    /// Where to poll the operation.
    pub path: Option<String>,
    /// Whether the operation has completed.
    pub done: bool,
    /// The failure, when the operation failed.
    pub error: Option<OperationError>,
    /// The created asset, once the operation has completed.
    pub response: Option<Asset>,
}

/// How many times a pending asset operation is polled before giving up.
pub const ASSET_OPERATION_POLLS: u32 = 5;

/// Why asset creation ended without an asset id.
#[derive(Debug)]
pub enum AssetOperationFailure {
    /// The operation reported a failure.
    Failed { error: String, message: String },
    /// The operation is pending but says nowhere where to poll it.
    MissingPollingPath,
    /// The operation was still pending after the last poll.
    Incomplete,
    /// The operation completed without an asset.
    MissingAsset,
    /// The asset id is not a number.
    InvalidAssetId,
}

/// What to do after an asset operation's state arrives.
#[derive(Debug)]
pub enum AssetOperationStep {
    /// Wait, then poll the operation at `path`.
    Poll { path: String },
    /// Asset creation is over.
    Finished(Result<AssetId, AssetOperationFailure>),
}

/// Whether `c` is an ASCII decimal digit.
pub open spec fn is_digit(c: char) -> bool {
    '0' <= c <= '9'
}

/// The value of a string of decimal digits.
pub open spec fn digits_value(s: Seq<char>) -> nat
    decreases s.len(),
{
    if s.len() == 0 {
        0
    } else {
        digits_value(s.drop_last()) * 10 + ((s.last() as nat) - 48) as nat
    }
}

/// The digits of `s` after an optional leading '+'.
pub open spec fn unsigned_digits(s: Seq<char>) -> Seq<char> {
    if s.len() > 0 && s[0] == '+' {
        s.drop_first()
    } else {
        s
    }
}

/// How `u64`'s `FromStr` reads `s`: an optional '+' followed by at least one
/// decimal digit, whose value fits in 64 bits.
pub open spec fn spec_parse_u64(s: Seq<char>) -> Option<u64> {
    let d = unsigned_digits(s);
    if d.len() > 0 && (forall|i: int| 0 <= i < d.len() ==> is_digit(#[trigger] d[i])) && digits_value(d)
        <= u64::MAX {
        Some(digits_value(d) as u64)
    } else {
        None
    }
}

/// Appending digits never lowers the value.
pub proof fn lemma_digits_value_grows(s: Seq<char>, k: int)
    requires
        0 <= k <= s.len(),
        forall|i: int| 0 <= i < s.len() ==> is_digit(#[trigger] s[i]),
    ensures
        digits_value(s.take(k)) <= digits_value(s),
    decreases s.len() - k,
{
    if k < s.len() {
        lemma_digits_value_grows(s, k + 1);
        assert(s.take(k + 1).drop_last() =~= s.take(k));
        assert(is_digit(s[k]));
    } else {
        assert(s.take(k) =~= s);
    }
}

/// Reads an asset id as `u64`'s `FromStr` does.
pub fn parse_asset_id(s: &str) -> (res: Option<AssetId>)
    ensures
        res == spec_parse_u64(s@),
{
    let len: usize = s.unicode_len();
    let mut start: usize = 0;
    if len > 0 && s.get_char(0) == '+' {
        start = 1;
    }
    let ghost d = unsigned_digits(s@);
    assert(d =~= s@.subrange(start as int, len as int));
    if start == len {
        return None;
    }
    let mut value: u64 = 0;
    let mut i: usize = start;
    while i < len
        invariant
            start <= i <= len,
            len == s@.len(),
            d == unsigned_digits(s@),
            d == s@.subrange(start as int, len as int),
            forall|j: int| 0 <= j < i - start ==> is_digit(#[trigger] d[j]),
            value == digits_value(d.take(i - start)),
        decreases len - i,
    {
        let c = s.get_char(i);
        if !('0' <= c && c <= '9') {
            assert(d[i - start] == c);
            return None;
        }
        let digit: u64 = (c as u32 - 48) as u64;
        assert(d.take(i + 1 - start).drop_last() =~= d.take(i - start));
        assert(d.take(i + 1 - start).last() == c);
        match value.checked_mul(10) {
            Some(v) => match v.checked_add(digit) {
                Some(w) => {
                    value = w;
                },
                None => {
                    proof {
                        assert(forall|j: int| 0 <= j < i + 1 - start ==> is_digit(#[trigger] d[j]));
                        overflow_means_no_parse(s@, d, (i + 1 - start) as int);
                    }
                    return None;
                },
            },
            None => {
                proof {
                    assert(forall|j: int| 0 <= j < i + 1 - start ==> is_digit(#[trigger] d[j]));
                    overflow_means_no_parse(s@, d, (i + 1 - start) as int);
                }
                return None;
            },
        }
        i = i + 1;
    }
    assert(d.take(len - start) =~= d);
    Some(value)
}

/// Once a prefix of the digits is too large, the whole string is too.
proof fn overflow_means_no_parse(s: Seq<char>, d: Seq<char>, k: int)
    requires
        d == unsigned_digits(s),
        0 < k <= d.len(),
        forall|j: int| 0 <= j < k ==> is_digit(#[trigger] d[j]),
        digits_value(d.take(k)) > u64::MAX,
    ensures
        spec_parse_u64(s) is None,
{
    if d.len() > 0 && (forall|i: int| 0 <= i < d.len() ==> is_digit(#[trigger] d[i])) {
        lemma_digits_value_grows(d, k);
    }
}

/// Decimal digits only.
pub proof fn lemma_decimal_is_digits(n: nat)
    ensures
        decimal(n).len() > 0,
        forall|i: int| 0 <= i < decimal(n).len() ==> is_digit(#[trigger] decimal(n)[i]),
        digits_value(decimal(n)) == n,
    decreases n,
{
    if n >= 10 {
        lemma_decimal_is_digits(n / 10);
        let s = decimal(n);
        assert(s.drop_last() =~= decimal(n / 10));
        assert(((48 + n % 10) as u8) as char == s.last());
        assert(forall|i: int| 0 <= i < s.len() - 1 ==> s[i] == decimal(n / 10)[i]);
        assert((s.last() as nat) == 48 + n % 10);
        assert(digits_value(s) == digits_value(s.drop_last()) * 10 + ((s.last() as nat) - 48) as nat);
        assert(digits_value(s) == (n / 10) * 10 + n % 10);
        assert((n / 10) * 10 + n % 10 == n) by (nonlinear_arith);
    } else {
        let s = decimal(n);
        assert(s == seq![digit_char(n)]);
        assert((s.last() as nat) == 48 + n);
        assert(s.drop_last() =~= Seq::<char>::empty());
        assert(digits_value(s.drop_last()) == 0);
        assert(digits_value(s) == digits_value(s.drop_last()) * 10 + ((s.last() as nat) - 48) as nat);
    }
}

/// Round-trip law: reading back the decimal text of an asset id gives the
/// same id.
pub proof fn lemma_asset_id_round_trip(id: AssetId)
    ensures
        spec_parse_u64(decimal(id as nat)) == Some(id),
{
    lemma_decimal_is_digits(id as nat);
    let s = decimal(id as nat);
    assert(is_digit(s[0]));
    assert(unsigned_digits(s) == s);
}


/// Whether the state of an asset operation calls for another poll: it
/// reports no failure, is not done, polls remain, and it says where to poll.
pub open spec fn asset_step_polls(operation: OperationResult, attempts_remaining: u32) -> bool {
    operation.error is None && !operation.done && attempts_remaining > 0 && operation.path is Some
}

/// Decides what follows an asset operation's state, with
/// `attempts_remaining` polls left: a reported failure ends creation; a
/// pending operation is polled while polls remain (and fails without a
/// polling path); one still pending after the last poll is incomplete; a
/// completed one yields its asset id, which must be a number.
pub fn asset_operation_step(operation: OperationResult, attempts_remaining: u32) -> (res: AssetOperationStep)
    ensures
        res is Poll <==> asset_step_polls(operation, attempts_remaining),
        match operation.error {
            Some(e) => res matches AssetOperationStep::Finished(Err(AssetOperationFailure::Failed { error, message }))
                && error@ == e.error@ && message@ == e.message@,
            None => if !operation.done && attempts_remaining > 0 {
                match operation.path {
                    Some(p) => res matches AssetOperationStep::Poll { path } && path@ == p@,
                    None => res matches AssetOperationStep::Finished(Err(AssetOperationFailure::MissingPollingPath)),
                }
            } else if !operation.done {
                res matches AssetOperationStep::Finished(Err(AssetOperationFailure::Incomplete))
            } else {
                match operation.response {
                    Some(asset) => match spec_parse_u64(asset.asset_id@) {
                        Some(id) => res matches AssetOperationStep::Finished(Ok(i)) && i == id,
                        None => res matches AssetOperationStep::Finished(Err(AssetOperationFailure::InvalidAssetId)),
                    },
                    None => res matches AssetOperationStep::Finished(Err(AssetOperationFailure::MissingAsset)),
                }
            },
        },
{
    if let Some(e) = operation.error {
        return AssetOperationStep::Finished(Err(AssetOperationFailure::Failed { error: e.error, message: e.message }));
    }
    if !operation.done && attempts_remaining > 0 {
        return match operation.path {
            Some(path) => AssetOperationStep::Poll { path },
            None => AssetOperationStep::Finished(Err(AssetOperationFailure::MissingPollingPath)),
        };
    }
    if !operation.done {
        return AssetOperationStep::Finished(Err(AssetOperationFailure::Incomplete));
    }
    match operation.response {
        Some(asset) => match parse_asset_id(asset.asset_id.as_str()) {
            Some(id) => AssetOperationStep::Finished(Ok(id)),
            None => AssetOperationStep::Finished(Err(AssetOperationFailure::InvalidAssetId)),
        },
        None => AssetOperationStep::Finished(Err(AssetOperationFailure::MissingAsset)),
    }
}

/// The number of polls made when the operation states `operations` arrive
/// in turn, starting with `attempts_remaining` polls left: each poll uses
/// one, and polling stops at the first state that does not call for one.
pub open spec fn polls_made(operations: Seq<OperationResult>, attempts_remaining: u32) -> nat
    decreases operations.len(),
{
    if operations.len() > 0 && asset_step_polls(operations[0], attempts_remaining) {
        1 + polls_made(operations.drop_first(), (attempts_remaining - 1) as u32)
    } else {
        0
    }
}

/// Polling law: however the operation's states come back, asset creation
/// polls at most as many times as it had attempts (`ASSET_OPERATION_POLLS`
/// from the start).
pub proof fn lemma_asset_polling_is_bounded(operations: Seq<OperationResult>, attempts_remaining: u32)
    ensures
        polls_made(operations, attempts_remaining) <= attempts_remaining,
    decreases operations.len(),
{
    if operations.len() > 0 && asset_step_polls(operations[0], attempts_remaining) {
        lemma_asset_polling_is_bounded(operations.drop_first(), (attempts_remaining - 1) as u32);
    }
}

/// The message of an asset creation failure; nothing for an invalid asset
/// id, which is reported as `ParseAssetId`.
pub open spec fn failure_text(failure: AssetOperationFailure) -> Option<Seq<char>> {
    match failure {
        AssetOperationFailure::Failed { error, message } => Some(error@ + ": "@ + message@),
        AssetOperationFailure::MissingPollingPath => Some(
            "Roblox asset operation is pending but did not return a polling path."@,
        ),
        AssetOperationFailure::Incomplete => Some("Roblox asset operation did not complete after polling."@),
        AssetOperationFailure::MissingAsset => Some(
            "Roblox asset operation completed without returning an asset."@,
        ),
        AssetOperationFailure::InvalidAssetId => None,
    }
}

impl AssetOperationFailure {
    /// The message of this failure; nothing for an invalid asset id.
    pub fn message(&self) -> (res: Option<String>)
        ensures
            match res {
                Some(m) => failure_text(*self) == Some(m@),
                None => failure_text(*self) is None,
            },
    {
        match self {
            AssetOperationFailure::Failed { error, message } => {
                let mut res = error.clone();
                res.append(": ");
                res.append(message.as_str());
                Some(res)
            },
            AssetOperationFailure::MissingPollingPath => Some(
                "Roblox asset operation is pending but did not return a polling path.".to_owned(),
            ),
            AssetOperationFailure::Incomplete => Some("Roblox asset operation did not complete after polling.".to_owned()),
            AssetOperationFailure::MissingAsset => Some(
                "Roblox asset operation completed without returning an asset.".to_owned(),
            ),
            AssetOperationFailure::InvalidAssetId => None,
        }
    }

    /// The API error for this failure: `ParseAssetId` for an invalid asset
    /// id, otherwise an `Other` error with this failure's message.
    pub fn into_error(self) -> (res: RobloxApiError)
        ensures
            (self is InvalidAssetId) ==> res is ParseAssetId,
            !(self is InvalidAssetId) ==> (res matches RobloxApiError::Other(m) && failure_text(self) == Some(
                m@,
            )),
    {
        match self.message() {
            Some(m) => RobloxApiError::Other(m),
            None => RobloxApiError::ParseAssetId,
        }
    }
}

/// Asks for the create quotas of an asset type.
pub fn get_create_asset_quota_request(asset_type: AssetTypeId) -> (res: ApiRequest)
    ensures
        res@ == (RequestView {
            method: HttpMethod::Get,
            url: "https://publish.roblox.com/v1/asset-quotas"@,
            query: seq![("resourceType"@, "1"@), ("assetType"@, decimal(asset_type as nat))],
            body: BodyView::Empty,
            credentials: CredentialsView::Cookie,
        }),
{
    let mut query: Vec<(String, String)> = Vec::new();
    query.push(("resourceType".to_owned(), "1".to_owned()));
    query.push(("assetType".to_owned(), u64_to_decimal(asset_type as u64)));
    assert(query_view(query@) =~= seq![("resourceType"@, "1"@), ("assetType"@, decimal(asset_type as nat))]);
    ApiRequest {
        method: HttpMethod::Get,
        url: "https://publish.roblox.com/v1/asset-quotas".to_owned(),
        query,
        body: RequestBody::Empty,
        credentials: Credentials::Cookie,
    }
}

/// The quota that applies: the first one listed, or `MissingCreateQuota`
/// for the asset type when none is.
pub fn first_create_asset_quota<Q>(quotas: Vec<Q>, asset_type: AssetTypeId) -> (res: RobloxApiResult<Q>)
    ensures
        quotas@.len() > 0 <==> res is Ok,
        res matches Ok(q) ==> q == quotas@[0],
        res matches Err(e) ==> e == RobloxApiError::MissingCreateQuota(asset_type),
{
    let mut quotas = quotas;
    if quotas.len() == 0 {
        Err(RobloxApiError::MissingCreateQuota(asset_type))
    } else {
        Ok(quotas.remove(0))
    }
}

/// What `base64::encode` gives for `bytes`: the standard, padded Base64
/// alphabet encoding.
pub uninterp spec fn base64_standard(bytes: Seq<u8>) -> Seq<char>;

/// `base64::encode`: the standard, padded Base64 encoding of `data`. The
/// encoding is left to the name `base64_standard`.
#[verifier::external_body]
fn encode_base64(data: &[u8]) -> (res: String)
    ensures
        res@ == base64_standard(data@),
{
    base64::encode(data)
}

/// `std::path::Path::file_stem`, as text: the file name without its
/// extension, always a part of the path. For a portable path
/// (`is_portable_path`) it is the stem of its file name on every platform
/// (`portable_file_stem`); for other paths it depends on the platform's path
/// syntax and is left unsaid.
#[verifier::external_body]
fn path_file_stem(path: &str) -> (res: Option<String>)
    ensures
        res matches Some(stem) ==> has_infix(path@, stem@),
        is_portable_path(path@) ==> match res {
            Some(stem) => portable_file_stem(path@) == Some(stem@),
            None => portable_file_stem(path@) is None,
        },
{
    std::path::Path::new(path).file_stem().and_then(|n| n.to_str()).map(|n| n.to_string())
}

/// How a creator type appears in JSON: the variant's name.
pub open spec fn creator_type_name(c: CreatorType) -> Seq<char> {
    match c {
        CreatorType::User => "User"@,
        CreatorType::Group => "Group"@,
    }
}

/// The upload of an audio file named `stem`, whose contents are
/// `encoded_file` in Base64, owned by the group when one is given and paid
/// by `payment_source`.
pub open spec fn audio_upload(
    stem: Seq<char>,
    encoded_file: Seq<char>,
    group_id: Option<AssetId>,
    payment_source: CreatorType,
) -> RequestView {
    RequestView {
        method: HttpMethod::Post,
        url: "https://publish.roblox.com/v1/audio"@,
        query: Seq::empty(),
        body: BodyView::Json(JsonView::Object(seq![
            ("name"@, JsonView::Text("Audio/"@ + stem)),
            ("file"@, JsonView::Text(encoded_file)),
            ("groupId"@, match group_id {
                Some(g) => JsonView::Number(g as nat),
                None => JsonView::Null,
            }),
            ("paymentSource"@, JsonView::Text(creator_type_name(payment_source))),
        ])),
        credentials: CredentialsView::Cookie,
    }
}

/// Audio upload law: for every stem, encoding, owning group and payment
/// source, an audio upload is a POST of a JSON object whose `name` is
/// "Audio/" followed by the stem, whose `file` is the encoded contents, whose
/// `groupId` is the owning group (null without one), and whose
/// `paymentSource` is "User" or "Group" as the payment source says, whatever
/// group owns the audio.
pub proof fn lemma_audio_upload_fields(
    stem: Seq<char>,
    encoded_file: Seq<char>,
    group_id: Option<AssetId>,
    payment_source: CreatorType,
)
    ensures
        audio_upload(stem, encoded_file, group_id, payment_source).method == HttpMethod::Post,
        audio_upload(stem, encoded_file, group_id, payment_source).body matches BodyView::Json(doc) && {
            &&& json_member(doc, "name"@) == Some(JsonView::Text("Audio/"@ + stem))
            &&& json_member(doc, "file"@) == Some(JsonView::Text(encoded_file))
            &&& json_member(doc, "groupId"@) == Some(
                match group_id {
                    Some(g) => JsonView::Number(g as nat),
                    None => JsonView::Null,
                },
            )
            &&& json_member(doc, "paymentSource"@) == Some(
                match payment_source {
                    CreatorType::User => JsonView::Text("User"@),
                    CreatorType::Group => JsonView::Text("Group"@),
                },
            )
        },
{
    reveal_strlit("name");
    reveal_strlit("file");
    reveal_strlit("groupId");
    reveal_strlit("paymentSource");
    reveal_with_fuel(member_value, 5);
    let doc = audio_upload(stem, encoded_file, group_id, payment_source).body;
    let members = doc->Json_0->Object_0;
    assert(members.drop_first() =~= seq![members[1], members[2], members[3]]);
    assert(members.drop_first().drop_first() =~= seq![members[2], members[3]]);
    assert(members.drop_first().drop_first().drop_first() =~= seq![members[3]]);
    assert("name"@[0] != "file"@[0]);
    assert("name"@.len() != "groupId"@.len() && "file"@.len() != "groupId"@.len());
}

/// Uploads an audio file named `stem` whose contents are `encoded_file`, in
/// Base64.
pub fn audio_upload_request(
    stem: &str,
    encoded_file: String,
    group_id: Option<AssetId>,
    payment_source: CreatorType,
) -> (res: ApiRequest)
    ensures
        res@ == audio_upload(stem@, encoded_file@, group_id, payment_source),
{
    let ghost file_view = encoded_file@;
    let mut name = "Audio/".to_owned();
    name.append(stem);
    let group = match group_id {
        Some(g) => JsonValue::Number(g),
        None => JsonValue::Null,
    };
    let source = match payment_source {
        CreatorType::User => "User".to_owned(),
        CreatorType::Group => "Group".to_owned(),
    };
    let mut members: Vec<(String, JsonValue)> = Vec::new();
    members.push(("name".to_owned(), JsonValue::Text(name)));
    members.push(("file".to_owned(), JsonValue::Text(encoded_file)));
    members.push(("groupId".to_owned(), group));
    members.push(("paymentSource".to_owned(), JsonValue::Text(source)));
    proof {
        lemma_members_view(members@);
        assert(json_members_view(members@) =~= seq![
            ("name"@, JsonView::Text("Audio/"@ + stem@)),
            ("file"@, JsonView::Text(file_view)),
            ("groupId"@, match group_id {
                Some(g) => JsonView::Number(g as nat),
                None => JsonView::Null,
            }),
            ("paymentSource"@, JsonView::Text(creator_type_name(payment_source))),
        ]);
    }
    simple_request(
        HttpMethod::Post,
        "https://publish.roblox.com/v1/audio".to_owned(),
        RequestBody::Json(JsonValue::Object(members)),
        Credentials::Cookie,
    )
}

/// Uploads `data`, read from the audio file at `file_path`, as a new audio
/// asset owned by the group when one is given, paid by `payment_source`.
/// The upload is named after the path's file stem; nothing when the path
/// has no file stem. A portable path (`is_portable_path`), relative or
/// absolute, is named after the stem of its file name, and gives nothing
/// exactly when it has no file name.
pub fn create_audio_asset_request(
    file_path: &str,
    data: &[u8],
    group_id: Option<AssetId>,
    payment_source: CreatorType,
) -> (res: Option<ApiRequest>)
    ensures
        res matches Some(r) ==> exists|stem: Seq<char>|
            has_infix(file_path@, stem) && r@ == audio_upload(stem, base64_standard(data@), group_id, payment_source),
        is_portable_path(file_path@) ==> match portable_file_name(file_path@) {
            Some(n) => res matches Some(r) && r@ == audio_upload(
                file_name_stem(n),
                base64_standard(data@),
                group_id,
                payment_source,
            ),
            None => res is None,
        },
{
    let stem = match path_file_stem(file_path) {
        Some(stem) => stem,
        None => return None,
    };
    let req = audio_upload_request(stem.as_str(), encode_base64(data), group_id, payment_source);
    assert(has_infix(file_path@, stem@));
    Some(req)
}

/// Archives an asset.
pub fn archive_asset_request(asset_id: AssetId) -> (res: ApiRequest)
    ensures
        res@ == (RequestView {
            method: HttpMethod::Post,
            url: with_id("https://develop.roblox.com/v1/assets/"@, asset_id, "/archive"@),
            query: Seq::empty(),
            body: BodyView::ContentLengthZero,
            credentials: CredentialsView::Cookie,
        }),
{
    simple_request(
        HttpMethod::Post,
        text_with_id("https://develop.roblox.com/v1/assets/", asset_id, "/archive"),
        RequestBody::ContentLengthZero,
        Credentials::Cookie,
    )
}

} // verus!
