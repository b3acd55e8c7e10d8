use vstd::prelude::*;

use crate::errors::{RobloxApiError, RobloxApiResult};
use crate::text::{decimal, u64_to_decimal};

verus! {

/// The HTTP method of a request.
#[derive(Clone, Copy, Debug, PartialEq, Eq, Structural)]
pub enum HttpMethod {
    Get,
    Post,
    Patch,
    Delete,
}

/// The method's name as it appears on the wire and in errors.
pub open spec fn method_name(m: HttpMethod) -> Seq<char> {
    match m {
        HttpMethod::Get => "GET"@,
        HttpMethod::Post => "POST"@,
        HttpMethod::Patch => "PATCH"@,
        HttpMethod::Delete => "DELETE"@,
    }
}

impl HttpMethod {
    /// The method's name as it appears on the wire and in errors.
    pub fn as_str(&self) -> (res: &'static str)
        ensures
            res@ == method_name(*self),
    {
        match self {
            HttpMethod::Get => "GET",
            HttpMethod::Post => "POST",
            HttpMethod::Patch => "PATCH",
            HttpMethod::Delete => "DELETE",
        }
    }
}

/// A JSON document that a request sends.
#[derive(Debug)]
pub enum JsonValue {
    Null,
    Bool(bool),
    Number(u64),
    Text(String),
    Array(Vec<JsonValue>),
    Object(Vec<(String, JsonValue)>),
}

/// The mathematical form of a JSON document.
pub enum JsonView {
    Null,
    Bool(bool),
    Number(nat),
    Text(Seq<char>),
    Array(Seq<JsonView>),
    Object(Seq<(Seq<char>, JsonView)>),
}

/// The form of a JSON document.
pub open spec fn json_view(v: JsonValue) -> JsonView
    decreases v, 1nat,
{
    match v {
        JsonValue::Null => JsonView::Null,
        JsonValue::Bool(b) => JsonView::Bool(b),
        JsonValue::Number(n) => JsonView::Number(n as nat),
        JsonValue::Text(s) => JsonView::Text(s@),
        JsonValue::Array(items) => JsonView::Array(json_items_view(items@)),
        JsonValue::Object(members) => JsonView::Object(json_members_view(members@)),
    }
}

/// The forms of the items of a JSON array.
pub open spec fn json_items_view(items: Seq<JsonValue>) -> Seq<JsonView>
    decreases items, 0nat,
{
    if items.len() == 0 {
        Seq::empty()
    } else {
        json_items_view(items.drop_last()).push(json_view(items.last()))
    }
}

/// The forms of the members of a JSON object.
pub open spec fn json_members_view(members: Seq<(String, JsonValue)>) -> Seq<(Seq<char>, JsonView)>
    decreases members, 0nat,
{
    if members.len() == 0 {
        Seq::empty()
    } else {
        json_members_view(members.drop_last()).push((members.last().0@, json_view(members.last().1)))
    }
}

/// The forms of an object's members are its members' names and value forms.
pub proof fn lemma_members_view(members: Seq<(String, JsonValue)>)
    ensures
        json_members_view(members) == members.map_values(|m: (String, JsonValue)| (m.0@, json_view(m.1))),
    decreases members.len(),
{
    if members.len() > 0 {
        lemma_members_view(members.drop_last());
        assert(json_members_view(members) =~= members.map_values(|m: (String, JsonValue)| (m.0@, json_view(m.1))));
    } else {
        assert(json_members_view(members) =~= members.map_values(|m: (String, JsonValue)| (m.0@, json_view(m.1))));
    }
}

/// The forms of a sequence of JSON documents, one by one.
pub open spec fn json_views(items: Seq<JsonValue>) -> Seq<JsonView> {
    items.map_values(|v: JsonValue| json_view(v))
}

/// The forms of an array's items are its items' forms.
pub proof fn lemma_items_view(items: Seq<JsonValue>)
    ensures
        json_items_view(items) == json_views(items),
    decreases items.len(),
{
    if items.len() > 0 {
        lemma_items_view(items.drop_last());
    }
    assert(json_items_view(items) =~= json_views(items));
}

impl View for JsonValue {
    type V = JsonView;

    open spec fn view(&self) -> JsonView {
        json_view(*self)
    }
}

/// One part of a multipart form.
#[derive(Debug)]
pub enum FormPart {
    /// A text field.
    Text { name: String, value: String },
    /// A text field that holds a JSON document, serialized.
    JsonText { name: String, document: JsonValue },
    /// The file at `path`, streamed, with its file name and guessed MIME type.
    StreamedFile { name: String, path: String },
    /// The file at `path`, read whole, with its file name and guessed MIME type.
    File { name: String, path: String },
}

/// The mathematical form of a form part.
pub enum FormPartView {
    Text { name: Seq<char>, value: Seq<char> },
    JsonText { name: Seq<char>, document: JsonView },
    StreamedFile { name: Seq<char>, path: Seq<char> },
    File { name: Seq<char>, path: Seq<char> },
}

impl View for FormPart {
    type V = FormPartView;

    open spec fn view(&self) -> FormPartView {
        match self {
            FormPart::Text { name, value } => FormPartView::Text { name: name@, value: value@ },
            FormPart::JsonText { name, document } => FormPartView::JsonText { name: name@, document: document@ },
            FormPart::StreamedFile { name, path } => FormPartView::StreamedFile { name: name@, path: path@ },
            FormPart::File { name, path } => FormPartView::File { name: name@, path: path@ },
        }
    }
}

/// The body of a request.
#[derive(Debug)]
pub enum RequestBody {
    /// No body.
    Empty,
    /// No body, with an explicit `Content-Length: 0`.
    ContentLengthZero,
    /// A JSON document.
    Json(JsonValue),
    /// The JSON document that the caller supplies with the request.
    CallerJson,
    /// A multipart form, in part order.
    Multipart(Vec<FormPart>),
}

/// The mathematical form of a request body.
pub enum BodyView {
    Empty,
    ContentLengthZero,
    Json(JsonView),
    CallerJson,
    Multipart(Seq<FormPartView>),
}

impl View for RequestBody {
    type V = BodyView;

    open spec fn view(&self) -> BodyView {
        match self {
            RequestBody::Empty => BodyView::Empty,
            RequestBody::ContentLengthZero => BodyView::ContentLengthZero,
            RequestBody::Json(v) => BodyView::Json(v@),
            RequestBody::CallerJson => BodyView::CallerJson,
            RequestBody::Multipart(parts) => BodyView::Multipart(parts_view(parts@)),
        }
    }
}

/// How a request authenticates.
#[derive(Debug)]
pub enum Credentials {
    /// The user's session cookie.
    Cookie,
    /// The Open Cloud API key; failures are reported as needing `scope`.
    OpenCloud { scope: String },
}

/// The mathematical form of a request's credentials.
pub enum CredentialsView {
    Cookie,
    OpenCloud { scope: Seq<char> },
}

impl View for Credentials {
    type V = CredentialsView;

    open spec fn view(&self) -> CredentialsView {
        match self {
            Credentials::Cookie => CredentialsView::Cookie,
            Credentials::OpenCloud { scope } => CredentialsView::OpenCloud { scope: scope@ },
        }
    }
}

/// A request to a Roblox API, ready to be sent.
#[derive(Debug)]
pub struct ApiRequest {
    pub method: HttpMethod,
    pub url: String,
    /// Query parameters, in order.
    pub query: Vec<(String, String)>,
    pub body: RequestBody,
    pub credentials: Credentials,
}

/// The mathematical form of a request.
pub struct RequestView {
    pub method: HttpMethod,
    pub url: Seq<char>,
    pub query: Seq<(Seq<char>, Seq<char>)>,
    pub body: BodyView,
    pub credentials: CredentialsView,
}

impl View for ApiRequest {
    type V = RequestView;

    open spec fn view(&self) -> RequestView {
        RequestView {
            method: self.method,
            url: self.url@,
            query: query_view(self.query@),
            body: self.body@,
            credentials: self.credentials@,
        }
    }
}

/// `prefix`, the decimal id, then `suffix`.
pub open spec fn with_id(prefix: Seq<char>, id: u64, suffix: Seq<char>) -> Seq<char> {
    prefix + decimal(id as nat) + suffix
}

/// `prefix`, the first decimal id, `middle`, the second decimal id, then
/// `suffix`.
pub open spec fn with_ids(prefix: Seq<char>, first: u64, middle: Seq<char>, second: u64, suffix: Seq<char>) -> Seq<char> {
    prefix + decimal(first as nat) + middle + decimal(second as nat) + suffix
}

/// `prefix`, the decimal id, then `suffix`.
pub fn text_with_id(prefix: &str, id: u64, suffix: &str) -> (res: String)
    ensures
        res@ == prefix@ + decimal(id as nat) + suffix@,
{
    let mut res = prefix.to_owned();
    let n = u64_to_decimal(id);
    res.append(n.as_str());
    res.append(suffix);
    res
}

/// `prefix`, the first decimal id, `middle`, the second decimal id, then
/// `suffix`.
pub fn text_with_ids(prefix: &str, first: u64, middle: &str, second: u64, suffix: &str) -> (res: String)
    ensures
        res@ == prefix@ + decimal(first as nat) + middle@ + decimal(second as nat) + suffix@,
{
    let mut res = text_with_id(prefix, first, middle);
    let n = u64_to_decimal(second);
    res.append(n.as_str());
    res.append(suffix);
    res
}

/// A text form field.
pub fn text_part(name: &str, value: String) -> (res: FormPart)
    ensures
        res@ == (FormPartView::Text { name: name@, value: value@ }),
{
    FormPart::Text { name: name.to_owned(), value }
}

/// The forms of the parts of a multipart form.
pub open spec fn parts_view(parts: Seq<FormPart>) -> Seq<FormPartView> {
    parts.map_values(|p: FormPart| p@)
}

/// The name of a form part.
pub open spec fn part_name(part: FormPartView) -> Seq<char> {
    match part {
        FormPartView::Text { name, .. } => name,
        FormPartView::JsonText { name, .. } => name,
        FormPartView::StreamedFile { name, .. } => name,
        FormPartView::File { name, .. } => name,
    }
}

/// The first part of a form named `name`, if it has one.
pub open spec fn form_part(parts: Seq<FormPartView>, name: Seq<char>) -> Option<FormPartView>
    decreases parts.len(),
{
    if parts.len() == 0 {
        None
    } else if part_name(parts[0]) == name {
        Some(parts[0])
    } else {
        form_part(parts.drop_first(), name)
    }
}

/// The value of the first member named `key` among an object's members.
pub open spec fn member_value(members: Seq<(Seq<char>, JsonView)>, key: Seq<char>) -> Option<JsonView>
    decreases members.len(),
{
    if members.len() == 0 {
        None
    } else if members[0].0 == key {
        Some(members[0].1)
    } else {
        member_value(members.drop_first(), key)
    }
}

/// The member `key` of a JSON document: nothing when the document is not an
/// object or has no such member.
pub open spec fn json_member(doc: JsonView, key: Seq<char>) -> Option<JsonView> {
    match doc {
        JsonView::Object(members) => member_value(members, key),
        _ => None,
    }
}

/// A request without query parameters.
pub fn simple_request(method: HttpMethod, url: String, body: RequestBody, credentials: Credentials) -> (res: ApiRequest)
    ensures
        res@ == (RequestView {
            method,
            url: url@,
            query: Seq::empty(),
            body: body@,
            credentials: credentials@,
        }),
{
    let res = ApiRequest { method, url, query: Vec::new(), body, credentials };
    assert(res@.query =~= Seq::<(Seq<char>, Seq<char>)>::empty());
    res
}

/// The forms of query parameters.
pub open spec fn query_view(query: Seq<(String, String)>) -> Seq<(Seq<char>, Seq<char>)> {
    query.map_values(|q: (String, String)| (q.0@, q.1@))
}

/// The parameter `name` with the given value, when there is one.
pub open spec fn optional_param(name: Seq<char>, value: Option<String>) -> Seq<(Seq<char>, Seq<char>)> {
    match value {
        Some(v) => seq![(name, v@)],
        None => Seq::empty(),
    }
}

/// Optional parameter law: an optional query parameter is sent exactly when
/// it has a value, once, under its name and with that value; without a
/// value nothing is sent.
pub proof fn lemma_optional_param_sent_iff_given(name: Seq<char>, value: Option<String>)
    ensures
        optional_param(name, value).len() == if value is Some { 1int } else { 0 },
        value matches Some(v) ==> optional_param(name, value)[0] == (name, v@),
{
}

/// Appends the parameter `name` with the given value, when there is one.
pub fn push_optional_param(query: &mut Vec<(String, String)>, name: &str, value: Option<String>)
    ensures
        query_view(final(query)@) == query_view(old(query)@) + optional_param(name@, value),
{
    match value {
        Some(v) => query.push((name.to_owned(), v)),
        None => {},
    }
    assert(query_view(query@) =~= query_view(old(query)@) + optional_param(name@, value));
}

/// Open Cloud credentials that report failures as needing `scope`.
pub fn open_cloud(scope: &str) -> (res: Credentials)
    ensures
        res@ == (CredentialsView::OpenCloud { scope: scope@ }),
{
    Credentials::OpenCloud { scope: scope.to_owned() }
}

/// The error for an operation that needs an Open Cloud API key, when none
/// is configured.
pub open spec fn is_key_required_error(e: RobloxApiError, operation: Seq<char>, scope: Seq<char>) -> bool {
    e matches RobloxApiError::OpenCloudApiKeyRequired { operation: o, scope: s } && o@ == operation && s@ == scope
}

/// Fails with `OpenCloudApiKeyRequired` for `operation` and `scope` when no
/// Open Cloud API key is configured.
pub fn require_open_cloud(open_cloud_available: bool, operation: String, scope: &str) -> (res: RobloxApiResult<()>)
    ensures
        open_cloud_available <==> res is Ok,
        res matches Err(e) ==> is_key_required_error(e, operation@, scope@),
{
    if open_cloud_available {
        Ok(())
    } else {
        Err(RobloxApiError::OpenCloudApiKeyRequired { operation, scope: scope.to_owned() })
    }
}

} // verus!
