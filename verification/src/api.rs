//! The request client of the chat service: what each call sends, and what
//! each answer means.
//!
//! A call is a request that the caller sends and an answer that it hands
//! back as a status code and a JSON document. The functions here build the
//! requests and read the answers; a failed answer becomes a `CallError`
//! whose message the retry engine reads.

use crate::directory::{CachePlan, UserCache, UserDirectory};
use crate::json::{Json, JsonEntry};
use crate::retry::{decision, lemma_bare_marker_is_retried, CallError, RetryDecision};
use crate::text::{join3, decimal_string, decimal_text, low_u32, opt_text, same_text, truncate_u32};
use crate::types::{
    message_of, message_views, Channel, ChannelView, FileInfo, FileInfoView, Message, MessageView,
    User, UserView,
};
use vstd::prelude::*;

verus! {

/// The address under which every method of the service is reached.
pub const SLACK_API_BASE: &'static str = "https://slack.com/api";

/// How a request is sent.
#[derive(Clone, Copy, Debug, PartialEq, Eq)]
pub enum HttpMethod {
    Get,
    Post,
}

/// A named text value of a request.
#[derive(Debug)]
pub struct Param {
    pub name: String,
    pub value: String,
}

impl View for Param {
    type V = (Seq<char>, Seq<char>);

    open spec fn view(&self) -> (Seq<char>, Seq<char>) {
        (self.name@, self.value@)
    }
}

/// The views of a sequence of parameters.
pub open spec fn param_views(v: Seq<Param>) -> Seq<(Seq<char>, Seq<char>)> {
    v.map_values(|p: Param| p@)
}

/// A file sent as a multipart form.
#[derive(Debug)]
pub struct Upload {
    /// The text parts of the form, in order.
    pub fields: Vec<Param>,
    /// The name of the part that carries the file.
    pub part: String,
    /// The file name that the part announces.
    pub file_name: String,
    /// The bytes of the file.
    pub content: Vec<u8>,
}

/// What a request carries besides its address.
#[derive(Debug)]
pub enum RequestBody {
    /// Nothing.
    Empty,
    /// A JSON object with these string members, in order.
    Json(Vec<Param>),
    /// A form with these fields, in order.
    Form(Vec<Param>),
    /// A multipart form with a file.
    Multipart(Upload),
}

/// One request to the service.
#[derive(Debug)]
pub struct ApiRequest {
    pub method: HttpMethod,
    pub url: String,
    /// The token sent as bearer credential, if any.
    pub bearer: Option<String>,
    /// The query parameters, in order.
    pub query: Vec<Param>,
    pub body: RequestBody,
}

/// The address of the method `name` of the service.
pub open spec fn endpoint_url(name: Seq<char>) -> Seq<char> {
    SLACK_API_BASE@ + "/"@ + name
}

impl ApiRequest {
    /// The request is sent with `method` to `url` with the bearer token
    /// `token`, and carries the query `query` and nothing else.
    pub open spec fn is_query(
        self,
        method: HttpMethod,
        url: Seq<char>,
        token: Seq<char>,
        query: Seq<(Seq<char>, Seq<char>)>,
    ) -> bool {
        &&& self.method == method
        &&& self.url@ == url
        &&& opt_text(self.bearer) == Some(token)
        &&& param_views(self.query@) == query
        &&& self.body is Empty
    }

    /// The request posts to `url` with the bearer token `token` a JSON
    /// object with the string members `members`.
    pub open spec fn is_json_post(
        self,
        url: Seq<char>,
        token: Seq<char>,
        members: Seq<(Seq<char>, Seq<char>)>,
    ) -> bool {
        &&& self.method == HttpMethod::Post
        &&& self.url@ == url
        &&& opt_text(self.bearer) == Some(token)
        &&& self.query@.len() == 0
        &&& self.body matches RequestBody::Json(sent) && param_views(sent@) == members
    }
}

/// A parameter with the given name and value.
pub fn param(name: &str, value: &str) -> (r: Param)
    ensures
        r@ == (name@, value@),
{
    Param { name: name.to_owned(), value: value.to_owned() }
}

/// The parameter list with one entry.
fn params1(a: Param) -> (r: Vec<Param>)
    ensures
        param_views(r@) == seq![a@],
{
    let mut r: Vec<Param> = Vec::new();
    r.push(a);
    assert(param_views(r@) =~= seq![a@]);
    r
}

/// The parameter list with two entries.
fn params2(a: Param, b: Param) -> (r: Vec<Param>)
    ensures
        param_views(r@) == seq![a@, b@],
{
    let mut r: Vec<Param> = Vec::new();
    r.push(a);
    r.push(b);
    assert(param_views(r@) =~= seq![a@, b@]);
    r
}

/// The parameter list with three entries.
fn params3(a: Param, b: Param, c: Param) -> (r: Vec<Param>)
    ensures
        param_views(r@) == seq![a@, b@, c@],
{
    let mut r: Vec<Param> = Vec::new();
    r.push(a);
    r.push(b);
    r.push(c);
    assert(param_views(r@) =~= seq![a@, b@, c@]);
    r
}

/// The address of the method `name` of the service.
pub fn endpoint(name: &str) -> (r: String)
    ensures
        r@ == endpoint_url(name@),
{
    join3(SLACK_API_BASE, "/", name)
}

/// A request with query parameters and no body.
fn query_request(method: HttpMethod, name: &str, token: &str, query: Vec<Param>) -> (r:
    ApiRequest)
    ensures
        r.is_query(method, endpoint_url(name@), token@, param_views(query@)),
{
    ApiRequest {
        method,
        url: endpoint(name),
        bearer: Some(token.to_owned()),
        query,
        body: RequestBody::Empty,
    }
}

/// A request that posts a JSON object of strings.
fn json_post(name: &str, token: &str, members: Vec<Param>) -> (r: ApiRequest)
    ensures
        r.is_json_post(endpoint_url(name@), token@, param_views(members@)),
{
    ApiRequest {
        method: HttpMethod::Post,
        url: endpoint(name),
        bearer: Some(token.to_owned()),
        query: Vec::new(),
        body: RequestBody::Json(members),
    }
}

/// The JSON object with the string members `members`, in order.
pub open spec fn is_text_object(doc: Json, members: Seq<(Seq<char>, Seq<char>)>) -> bool {
    doc matches Json::Object(entries) && entries@.len() == members.len() && forall|i: int|
        0 <= i < members.len() ==> (#[trigger] entries@[i]).key@ == members[i].0
            && entries@[i].value.text() == Some(members[i].1)
}

/// The JSON object with one string member for each of `members`.
pub fn text_object(members: &Vec<Param>) -> (doc: Json)
    ensures
        is_text_object(doc, param_views(members@)),
{
    let mut entries: Vec<JsonEntry> = Vec::new();
    let mut i: usize = 0;
    while i < members.len()
        invariant
            i <= members.len(),
            entries@.len() == i,
            forall|k: int|
                0 <= k < i ==> (#[trigger] entries@[k]).key@ == members@[k].name@
                    && entries@[k].value.text() == Some(members@[k].value@),
        decreases members.len() - i,
    {
        let value = Json::string(members[i].value.as_str());
        entries.push(JsonEntry { key: members[i].name.clone(), value });
        i += 1;
    }
    Json::Object(entries)
}

/// The answer reports success: its member `ok` is `true`.
pub open spec fn is_ok(body: Json) -> bool {
    body.bool_field("ok"@) == Some(true)
}

/// The error code of an answer, and `unknown` where it names none.
pub open spec fn error_code(body: Json) -> Seq<char> {
    match body.text_field("error"@) {
        Some(code) => code,
        None => "unknown"@,
    }
}

/// A failed answer reports a rate limit: by its error code or by the
/// status of the transport.
pub open spec fn is_rate_limited(status: u16, body: Json) -> bool {
    error_code(body) == "rate_limited"@ || status == 429
}

/// The message for a failed answer: the bare rate-limit marker, on which
/// the call is retried, where the answer reports a rate limit; else the
/// context and the error code, on which it is not.
pub open spec fn failure_text(context: Seq<char>, status: u16, body: Json) -> Seq<char> {
    if is_rate_limited(status, body) {
        "429"@
    } else {
        context + ": "@ + error_code(body)
    }
}

/// A failed answer that reports a rate limit, by its error code or by the
/// status of the transport, is tried again after the fallback delay:
/// whatever the call, the attempt and the jitter.
pub proof fn lemma_rate_limited_answer_is_retried(
    context: Seq<char>,
    status: u16,
    body: Json,
    error: CallError,
    attempt: nat,
    jitter: nat,
)
    requires
        is_rate_limited(status, body),
        error.message@ == failure_text(context, status, body),
    ensures
        decision(error, attempt, jitter) == (RetryDecision::Retry { delay_ms: 60_000 }),
{
    lemma_bare_marker_is_retried(error, attempt, jitter);
}

/// `error` is an application-level failure with the message `message`.
pub open spec fn is_api_error(error: CallError, message: Seq<char>) -> bool {
    error.message@ == message && error.transport is None
}

/// The application-level failure with the message `message`.
pub fn api_error(message: String) -> (e: CallError)
    ensures
        is_api_error(e, message@),
{
    CallError { message, transport: None }
}

/// Whether the answer reports success.
pub fn answer_ok(body: &Json) -> (r: bool)
    ensures
        r == is_ok(*body),
{
    match body.get_bool("ok") {
        Some(flag) => flag,
        None => false,
    }
}

/// The failure for a failed answer.
pub fn failure(context: &str, status: u16, body: &Json) -> (e: CallError)
    ensures
        is_api_error(e, failure_text(context@, status, *body)),
{
    let code = match body.get_string("error") {
        Some(code) => code,
        None => "unknown".to_owned(),
    };
    if same_text(code.as_str(), "rate_limited") || status == 429 {
        api_error("429".to_owned())
    } else {
        api_error(join3(context, ": ", code.as_str()))
    }
}

/// Reads an answer that carries nothing but success or failure.
fn acknowledge(context: &str, status: u16, body: &Json) -> (r: Result<(), CallError>)
    ensures
        match r {
            Ok(_) => is_ok(*body),
            Err(e) => !is_ok(*body) && is_api_error(e, failure_text(context@, status, *body)),
        },
{
    if answer_ok(body) {
        Ok(())
    } else {
        Err(failure(context, status, body))
    }
}

/// What the answer to a posted message means: the timestamp id of the new
/// message, or the message of the failure.
pub open spec fn posted(context: Seq<char>, status: u16, body: Json) -> Result<
    Seq<char>,
    Seq<char>,
> {
    if is_ok(body) {
        match body.text_field("ts"@) {
            Some(ts) => Ok(ts),
            None => Err("No ts in response"@),
        }
    } else {
        Err(failure_text(context, status, body))
    }
}

/// The view of the outcome of a call that gives a string.
pub open spec fn text_outcome(r: Result<String, CallError>) -> Result<Seq<char>, Seq<char>> {
    match r {
        Ok(s) => Ok(s@),
        Err(e) => Err(e.message@),
    }
}

/// The failure of a call, if it failed, came from the application level.
pub open spec fn fails_plainly<T>(r: Result<T, CallError>) -> bool {
    r matches Err(e) ==> e.transport is None
}

/// Reads the answer to a posted message.
fn read_posted(context: &str, status: u16, body: &Json) -> (r: Result<String, CallError>)
    ensures
        text_outcome(r) == posted(context@, status, *body),
        fails_plainly(r),
{
    if answer_ok(body) {
        match body.get_string("ts") {
            Some(ts) => Ok(ts),
            None => Err(api_error("No ts in response".to_owned())),
        }
    } else {
        Err(failure(context, status, body))
    }
}

/// What the answer to an authentication check means: team id, team name
/// and user id, each empty where the answer lacks it.
pub open spec fn auth_identity(body: Json) -> (Seq<char>, Seq<char>, Seq<char>) {
    (
        text_or_empty(body, "team_id"@),
        text_or_empty(body, "team"@),
        text_or_empty(body, "user_id"@),
    )
}

/// The string member `key` of `doc`, and the empty string where it has
/// none.
pub open spec fn text_or_empty(doc: Json, key: Seq<char>) -> Seq<char> {
    match doc.text_field(key) {
        Some(s) => s,
        None => Seq::empty(),
    }
}

/// The string member `key` of `doc`, or the empty string.
pub fn get_text_or_empty(doc: &Json, key: &str) -> (r: String)
    ensures
        r@ == text_or_empty(*doc, key@),
{
    match doc.get_string(key) {
        Some(s) => s,
        None => String::new(),
    }
}

/// The string member `inner` of the member `outer` of `doc`.
pub open spec fn nested_text(doc: Json, outer: Seq<char>, inner: Seq<char>) -> Option<Seq<char>> {
    match doc.field(outer) {
        Some(part) => part.text_field(inner),
        None => None,
    }
}

/// The string member `inner` of the member `outer` of `doc`.
pub fn get_nested_string(doc: &Json, outer: &str, inner: &str) -> (r: Option<String>)
    ensures
        opt_text(r) == nested_text(*doc, outer@, inner@),
{
    match doc.get(outer) {
        Some(part) => part.get_string(inner),
        None => None,
    }
}

/// The channel that `doc` describes. It needs a string `id` and a string
/// `name`.
pub open spec fn channel_of(doc: Json) -> Option<ChannelView> {
    match (doc.text_field("id"@), doc.text_field("name"@)) {
        (Some(id), Some(name)) => Some(
            ChannelView {
                id,
                name,
                is_dm: false,
                is_group: doc.bool_field("is_group"@) == Some(true),
                is_im: false,
                unread_count: 0,
                purpose: nested_text(doc, "purpose"@, "value"@),
                topic: nested_text(doc, "topic"@, "value"@),
                user: None,
            },
        ),
        _ => None,
    }
}

/// The direct-message conversation that `doc` describes, named by the id
/// of the peer. It needs a string `user` and a string `id`.
pub open spec fn dm_of(doc: Json) -> Option<ChannelView> {
    match (doc.text_field("user"@), doc.text_field("id"@)) {
        (Some(user), Some(id)) => Some(
            ChannelView {
                id,
                name: user,
                is_dm: true,
                is_group: false,
                is_im: true,
                unread_count: 0,
                purpose: None,
                topic: None,
                user: Some(user),
            },
        ),
        _ => None,
    }
}

/// The conversations that `items` describe, in order: direct-message
/// conversations where `dms` is set, channels where it is not. Items that
/// describe none are left out.
pub open spec fn channels_of(items: Seq<Json>, dms: bool) -> Seq<ChannelView>
    decreases items.len(),
{
    if items.len() == 0 {
        Seq::empty()
    } else {
        let front = channels_of(items.drop_last(), dms);
        let one = if dms {
            dm_of(items.last())
        } else {
            channel_of(items.last())
        };
        match one {
            Some(c) => front.push(c),
            None => front,
        }
    }
}

/// The views of a sequence of channels.
pub open spec fn channel_views(v: Seq<Channel>) -> Seq<ChannelView> {
    v.map_values(|c: Channel| c@)
}

/// The user that the record `doc` with the profile `profile` describes,
/// with the id and the name as given.
pub open spec fn user_with(id: Seq<char>, name: Seq<char>, profile: Json) -> UserView {
    UserView {
        id,
        name,
        display_name: text_or_empty(profile, "display_name"@),
        real_name: text_or_empty(profile, "real_name"@),
        email: profile.text_field("email"@),
    }
}

/// The user that `doc` describes. It needs a member `profile`, a string
/// `id` and a string `name`.
pub open spec fn user_of(doc: Json) -> Option<UserView> {
    match (doc.field("profile"@), doc.text_field("id"@), doc.text_field("name"@)) {
        (Some(profile), Some(id), Some(name)) => Some(user_with(id, name, profile)),
        _ => None,
    }
}

/// The users that `items` describe, in order; items that describe none
/// are left out.
pub open spec fn users_of(items: Seq<Json>) -> Seq<UserView>
    decreases items.len(),
{
    if items.len() == 0 {
        Seq::empty()
    } else {
        let front = users_of(items.drop_last());
        match user_of(items.last()) {
            Some(u) => front.push(u),
            None => front,
        }
    }
}

/// The views of a sequence of users.
pub open spec fn user_views(v: Seq<User>) -> Seq<UserView> {
    v.map_values(|u: User| u@)
}

/// The messages that `items` describe, in order, with the authors' names
/// resolved through `directory`; items that describe none are left out.
pub open spec fn messages_of(items: Seq<Json>, directory: Map<Seq<char>, UserView>) -> Seq<
    MessageView,
>
    decreases items.len(),
{
    if items.len() == 0 {
        Seq::empty()
    } else {
        let front = messages_of(items.drop_last(), directory);
        match message_of(items.last(), directory) {
            Some(m) => front.push(m),
            None => front,
        }
    }
}

/// The items of the array member `key` of `doc`, and none where it has no
/// such array.
pub open spec fn items_or_none(doc: Json, key: Seq<char>) -> Seq<Json> {
    match doc.items_field(key) {
        Some(items) => items,
        None => Seq::empty(),
    }
}

/// The file record that `file` describes: texts are empty and the size is
/// zero where the document lacks them.
pub open spec fn file_info_of(file: Json) -> FileInfoView {
    FileInfoView {
        id: text_or_empty(file, "id"@),
        name: text_or_empty(file, "name"@),
        mimetype: file.text_field("mimetype"@),
        url_private: file.text_field("url_private"@),
        url_private_download: file.text_field("url_private_download"@),
        size: match file.unsigned_field("size"@) {
            Some(n) => low_u32(n),
            None => 0,
        },
        title: file.text_field("title"@),
        filetype: file.text_field("filetype"@),
    }
}

/// What the answer to a request for one user means: the user, with id
/// and name empty where the record lacks them, or the message of the
/// failure.
pub open spec fn user_outcome(status: u16, body: Json) -> Result<UserView, Seq<char>> {
    if !is_ok(body) {
        Err(failure_text("Failed to get user"@, status, body))
    } else {
        match body.field("user"@) {
            None => Err("No user in response"@),
            Some(record) => match record.field("profile"@) {
                None => Err("No profile in response"@),
                Some(profile) => Ok(
                    user_with(text_or_empty(record, "id"@), text_or_empty(record, "name"@), profile),
                ),
            },
        }
    }
}

/// What the answer to a request for a file record means: the record, or
/// the message of the failure.
pub open spec fn file_info_outcome(status: u16, body: Json) -> Result<FileInfoView, Seq<char>> {
    if !is_ok(body) {
        Err(failure_text("Failed to get file info"@, status, body))
    } else {
        match body.field("file"@) {
            None => Err("No file in response"@),
            Some(file) => Ok(file_info_of(file)),
        }
    }
}

/// Asks `std::path::Path::file_name` for the last component of `path`,
/// where it is valid text. How a path is read depends on the platform, so
/// nothing is claimed of the result.
#[verifier::external_body]
fn last_component(path: &str) -> Option<String> {
    std::path::Path::new(path).file_name().and_then(|name| name.to_str()).map(|name| name.to_owned())
}

/// The name under which a file is uploaded: the last component of its
/// path, and `file` where the path has none.
pub open spec fn upload_name(component: Option<Seq<char>>) -> Seq<char> {
    match component {
        Some(name) => name,
        None => "file"@,
    }
}

/// The text parts of an upload form.
pub open spec fn upload_fields(
    channel_id: Seq<char>,
    name: Seq<char>,
    title: Option<Seq<char>>,
    comment: Option<Seq<char>>,
) -> Seq<(Seq<char>, Seq<char>)> {
    let shown = match title {
        Some(t) => t,
        None => name,
    };
    let base = seq![("channels"@, channel_id), ("title"@, shown)];
    match comment {
        Some(c) => base.push(("initial_comment"@, c)),
        None => base,
    }
}

/// The order of `v` turned round.
pub fn reversed<T>(v: Vec<T>) -> (out: Vec<T>)
    ensures
        out@ == v@.reverse(),
{
    let mut rest = v;
    let mut out: Vec<T> = Vec::new();
    while rest.len() > 0
        invariant
            rest@.len() <= v@.len(),
            out@.len() + rest@.len() == v@.len(),
            forall|i: int| 0 <= i < rest@.len() ==> rest@[i] == v@[i],
            forall|i: int| 0 <= i < out@.len() ==> out@[i] == v@[v@.len() - 1 - i],
        decreases rest.len(),
    {
        match rest.pop() {
            Some(last) => {
                out.push(last);
            },
            None => {},
        }
    }
    assert(out@ =~= v@.reverse());
    out
}

/// The client of the chat service's request interface. It owns the cache
/// of the user directory.
#[derive(Debug)]
pub struct SlackApi {
    pub user_cache: UserCache,
}

impl SlackApi {
    /// A client with an empty cache.
    pub fn new() -> (r: SlackApi)
        ensures
            r.user_cache.updated_at is None,
            r.user_cache.directory@ == Map::<Seq<char>, UserView>::empty(),
    {
        SlackApi { user_cache: UserCache::new() }
    }

    /// What a call that needs the user directory does at `now`: serve from
    /// the cache, or refresh it first with `list_users`.
    pub fn get_users_cached(&self, now: u64) -> (r: CachePlan)
        ensures
            r == if self.user_cache.is_fresh(now) {
                CachePlan::Serve
            } else {
                CachePlan::Refresh
            },
    {
        self.user_cache.plan(now)
    }

    /// The request that checks a token.
    pub fn test_auth_request(token: &str) -> (r: ApiRequest)
        ensures
            r.is_query(HttpMethod::Post, endpoint_url("auth.test"@), token@, Seq::empty()),
    {
        let query: Vec<Param> = Vec::new();
        assert(param_views(query@) =~= Seq::empty());
        query_request(HttpMethod::Post, "auth.test", token, query)
    }

    /// Reads the answer to an authentication check: team id, team name and
    /// user id.
    pub fn test_auth(status: u16, body: &Json) -> (r: Result<(String, String, String), CallError>)
        ensures
            match r {
                Ok(identity) => is_ok(*body) && (identity.0@, identity.1@, identity.2@)
                    == auth_identity(*body),
                Err(e) => !is_ok(*body) && is_api_error(
                    e,
                    failure_text("Auth test failed"@, status, *body),
                ),
            },
    {
        if answer_ok(body) {
            Ok(
                (
                    get_text_or_empty(body, "team_id"),
                    get_text_or_empty(body, "team"),
                    get_text_or_empty(body, "user_id"),
                ),
            )
        } else {
            Err(failure("Auth test failed", status, body))
        }
    }

    /// The request that lists the public and private channels that are not
    /// archived.
    pub fn list_channels_request(token: &str) -> (r: ApiRequest)
        ensures
            r.is_query(
                HttpMethod::Get,
                endpoint_url("conversations.list"@),
                token@,
                seq![
                    ("types"@, "public_channel,private_channel"@),
                    ("exclude_archived"@, "true"@),
                ],
            ),
    {
        query_request(
            HttpMethod::Get,
            "conversations.list",
            token,
            params2(
                param("types", "public_channel,private_channel"),
                param("exclude_archived", "true"),
            ),
        )
    }

    /// The request that lists the direct-message conversations.
    pub fn list_dms_request(token: &str) -> (r: ApiRequest)
        ensures
            r.is_query(
                HttpMethod::Get,
                endpoint_url("conversations.list"@),
                token@,
                seq![("types"@, "im"@)],
            ),
    {
        query_request(HttpMethod::Get, "conversations.list", token, params1(param("types", "im")))
    }

    /// The request for the latest `limit` messages of a channel.
    pub fn get_history_request(token: &str, channel_id: &str, limit: u32) -> (r: ApiRequest)
        ensures
            r.is_query(
                HttpMethod::Get,
                endpoint_url("conversations.history"@),
                token@,
                seq![("channel"@, channel_id@), ("limit"@, decimal_text(limit as nat))],
            ),
    {
        let count = decimal_string(limit as u64);
        query_request(
            HttpMethod::Get,
            "conversations.history",
            token,
            params2(param("channel", channel_id), param("limit", count.as_str())),
        )
    }

    /// The request that posts `text` to a channel.
    pub fn send_message_request(token: &str, channel_id: &str, text: &str) -> (r: ApiRequest)
        ensures
            r.is_json_post(
                endpoint_url("chat.postMessage"@),
                token@,
                seq![("channel"@, channel_id@), ("text"@, text@)],
            ),
    {
        json_post(
            "chat.postMessage",
            token,
            params2(param("channel", channel_id), param("text", text)),
        )
    }

    /// Reads the answer to a posted message: the timestamp id of the new
    /// message.
    pub fn send_message(status: u16, body: &Json) -> (r: Result<String, CallError>)
        ensures
            text_outcome(r) == posted("Failed to send message"@, status, *body),
            fails_plainly(r),
    {
        read_posted("Failed to send message", status, body)
    }

    /// The request that posts `text` as a reply in the thread `thread_ts`.
    pub fn send_message_to_thread_request(
        token: &str,
        channel_id: &str,
        text: &str,
        thread_ts: &str,
    ) -> (r: ApiRequest)
        ensures
            r.is_json_post(
                endpoint_url("chat.postMessage"@),
                token@,
                seq![("channel"@, channel_id@), ("text"@, text@), ("thread_ts"@, thread_ts@)],
            ),
    {
        json_post(
            "chat.postMessage",
            token,
            params3(
                param("channel", channel_id),
                param("text", text),
                param("thread_ts", thread_ts),
            ),
        )
    }

    /// Reads the answer to a posted reply: the timestamp id of the reply.
    pub fn send_message_to_thread(status: u16, body: &Json) -> (r: Result<String, CallError>)
        ensures
            text_outcome(r) == posted("Failed to send thread message"@, status, *body),
            fails_plainly(r),
    {
        read_posted("Failed to send thread message", status, body)
    }

    /// The request that lists the users of the workspace.
    pub fn list_users_request(token: &str) -> (r: ApiRequest)
        ensures
            r.is_query(HttpMethod::Get, endpoint_url("users.list"@), token@, Seq::empty()),
    {
        let query: Vec<Param> = Vec::new();
        assert(param_views(query@) =~= Seq::empty());
        query_request(HttpMethod::Get, "users.list", token, query)
    }

    /// The request for the record of one user.
    pub fn get_user_request(token: &str, user_id: &str) -> (r: ApiRequest)
        ensures
            r.is_query(
                HttpMethod::Get,
                endpoint_url("users.info"@),
                token@,
                seq![("user"@, user_id@)],
            ),
    {
        query_request(HttpMethod::Get, "users.info", token, params1(param("user", user_id)))
    }

    /// The request that mints the address of one event-stream connection.
    pub fn get_socket_mode_url_request(xapp_token: &str) -> (r: ApiRequest)
        ensures
            r.is_query(
                HttpMethod::Post,
                endpoint_url("apps.connections.open"@),
                xapp_token@,
                Seq::empty(),
            ),
    {
        let query: Vec<Param> = Vec::new();
        assert(param_views(query@) =~= Seq::empty());
        query_request(HttpMethod::Post, "apps.connections.open", xapp_token, query)
    }

    /// Reads the answer that carries the address of an event-stream
    /// connection.
    pub fn get_socket_mode_url(status: u16, body: &Json) -> (r: Result<String, CallError>)
        ensures
            text_outcome(r) == if is_ok(*body) {
                match body.text_field("url"@) {
                    Some(url) => Ok::<Seq<char>, Seq<char>>(url),
                    None => Err("No URL in response"@),
                }
            } else {
                Err(failure_text("Failed to get socket mode URL"@, status, *body))
            },
            fails_plainly(r),
    {
        if answer_ok(body) {
            match body.get_string("url") {
                Some(url) => Ok(url),
                None => Err(api_error("No URL in response".to_owned())),
            }
        } else {
            Err(failure("Failed to get socket mode URL", status, body))
        }
    }

    /// The request that replaces the text of a message.
    pub fn update_message_request(token: &str, channel_id: &str, ts: &str, text: &str) -> (r:
        ApiRequest)
        ensures
            r.is_json_post(
                endpoint_url("chat.update"@),
                token@,
                seq![("channel"@, channel_id@), ("ts"@, ts@), ("text"@, text@)],
            ),
    {
        json_post(
            "chat.update",
            token,
            params3(param("channel", channel_id), param("ts", ts), param("text", text)),
        )
    }

    /// Reads the answer to an edit.
    pub fn update_message(status: u16, body: &Json) -> (r: Result<(), CallError>)
        ensures
            match r {
                Ok(_) => is_ok(*body),
                Err(e) => !is_ok(*body) && is_api_error(
                    e,
                    failure_text("Failed to update message"@, status, *body),
                ),
            },
    {
        acknowledge("Failed to update message", status, body)
    }

    /// The request that deletes a message.
    pub fn delete_message_request(token: &str, channel_id: &str, ts: &str) -> (r: ApiRequest)
        ensures
            r.is_json_post(
                endpoint_url("chat.delete"@),
                token@,
                seq![("channel"@, channel_id@), ("ts"@, ts@)],
            ),
    {
        json_post("chat.delete", token, params2(param("channel", channel_id), param("ts", ts)))
    }

    /// Reads the answer to a deletion.
    pub fn delete_message(status: u16, body: &Json) -> (r: Result<(), CallError>)
        ensures
            match r {
                Ok(_) => is_ok(*body),
                Err(e) => !is_ok(*body) && is_api_error(
                    e,
                    failure_text("Failed to delete message"@, status, *body),
                ),
            },
    {
        acknowledge("Failed to delete message", status, body)
    }

    /// The request that adds a reaction to a message.
    pub fn add_reaction_request(token: &str, channel_id: &str, ts: &str, reaction: &str) -> (r:
        ApiRequest)
        ensures
            r.is_json_post(
                endpoint_url("reactions.add"@),
                token@,
                seq![("channel"@, channel_id@), ("timestamp"@, ts@), ("name"@, reaction@)],
            ),
    {
        json_post(
            "reactions.add",
            token,
            params3(param("channel", channel_id), param("timestamp", ts), param("name", reaction)),
        )
    }

    /// Reads the answer to an added reaction.
    pub fn add_reaction(status: u16, body: &Json) -> (r: Result<(), CallError>)
        ensures
            match r {
                Ok(_) => is_ok(*body),
                Err(e) => !is_ok(*body) && is_api_error(
                    e,
                    failure_text("Failed to add reaction"@, status, *body),
                ),
            },
    {
        acknowledge("Failed to add reaction", status, body)
    }

    /// The request that takes a reaction off a message.
    pub fn remove_reaction_request(token: &str, channel_id: &str, ts: &str, reaction: &str) -> (r:
        ApiRequest)
        ensures
            r.is_json_post(
                endpoint_url("reactions.remove"@),
                token@,
                seq![("channel"@, channel_id@), ("timestamp"@, ts@), ("name"@, reaction@)],
            ),
    {
        json_post(
            "reactions.remove",
            token,
            params3(param("channel", channel_id), param("timestamp", ts), param("name", reaction)),
        )
    }

    /// Reads the answer to a removed reaction.
    pub fn remove_reaction(status: u16, body: &Json) -> (r: Result<(), CallError>)
        ensures
            match r {
                Ok(_) => is_ok(*body),
                Err(e) => !is_ok(*body) && is_api_error(
                    e,
                    failure_text("Failed to remove reaction"@, status, *body),
                ),
            },
    {
        acknowledge("Failed to remove reaction", status, body)
    }

    /// The request for the replies of the thread `thread_ts`.
    pub fn get_thread_replies_request(token: &str, channel_id: &str, thread_ts: &str) -> (r:
        ApiRequest)
        ensures
            r.is_query(
                HttpMethod::Get,
                endpoint_url("conversations.replies"@),
                token@,
                seq![("channel"@, channel_id@), ("ts"@, thread_ts@)],
            ),
    {
        query_request(
            HttpMethod::Get,
            "conversations.replies",
            token,
            params2(param("channel", channel_id), param("ts", thread_ts)),
        )
    }

    /// The request for what the service knows of a file.
    pub fn get_file_info_request(token: &str, file_id: &str) -> (r: ApiRequest)
        ensures
            r.is_query(
                HttpMethod::Get,
                endpoint_url("files.info"@),
                token@,
                seq![("file"@, file_id@)],
            ),
    {
        query_request(HttpMethod::Get, "files.info", token, params1(param("file", file_id)))
    }

    /// Reads the conversations of an answer to a listing: the channels,
    /// or the direct-message conversations where `dms` is set.
    fn read_channels(items: &Vec<Json>, dms: bool) -> (out: Vec<Channel>)
        ensures
            channel_views(out@) == channels_of(items@, dms),
    {
        let mut out: Vec<Channel> = Vec::new();
        let mut i: usize = 0;
        assert(items@.take(0) =~= Seq::<Json>::empty());
        assert(channel_views(out@) =~= Seq::<ChannelView>::empty());
        while i < items.len()
            invariant
                i <= items.len(),
                channel_views(out@) == channels_of(items@.take(i as int), dms),
            decreases items.len() - i,
        {
            assert(items@.take(i + 1).drop_last() =~= items@.take(i as int));
            assert(items@.take(i + 1).last() == items@[i as int]);
            let doc = &items[i];
            let first = if dms {
                doc.get_string("user")
            } else {
                doc.get_string("id")
            };
            let second = if dms {
                doc.get_string("id")
            } else {
                doc.get_string("name")
            };
            match (first, second) {
                (Some(first), Some(second)) => {
                    let channel = if dms {
                        Channel {
                            id: second,
                            name: first.clone(),
                            is_dm: true,
                            is_group: false,
                            is_im: true,
                            unread_count: 0,
                            purpose: None,
                            topic: None,
                            user: Some(first),
                        }
                    } else {
                        Channel {
                            id: first,
                            name: second,
                            is_dm: false,
                            is_group: match doc.get_bool("is_group") {
                                Some(flag) => flag,
                                None => false,
                            },
                            is_im: false,
                            unread_count: 0,
                            purpose: get_nested_string(doc, "purpose", "value"),
                            topic: get_nested_string(doc, "topic", "value"),
                            user: None,
                        }
                    };
                    let ghost before = channel_views(out@);
                    out.push(channel);
                    assert(channel_views(out@) =~= before.push(channel@));
                },
                _ => {},
            }
            i += 1;
        }
        assert(items@.take(items.len() as int) =~= items@);
        out
    }

    /// Reads the answer to a listing of channels.
    pub fn list_channels(status: u16, body: &Json) -> (r: Result<Vec<Channel>, CallError>)
        ensures
            match r {
                Ok(channels) => is_ok(*body) && channel_views(channels@) == channels_of(
                    items_or_none(*body, "channels"@),
                    false,
                ),
                Err(e) => !is_ok(*body) && is_api_error(
                    e,
                    failure_text("Failed to list channels"@, status, *body),
                ),
            },
    {
        if !answer_ok(body) {
            return Err(failure("Failed to list channels", status, body));
        }
        match body.get_array("channels") {
            Some(items) => Ok(Self::read_channels(items, false)),
            None => {
                let none: Vec<Channel> = Vec::new();
                assert(channel_views(none@) =~= Seq::<ChannelView>::empty());
                Ok(none)
            },
        }
    }

    /// Reads the answer to a listing of direct-message conversations.
    pub fn list_dms(status: u16, body: &Json) -> (r: Result<Vec<Channel>, CallError>)
        ensures
            match r {
                Ok(channels) => is_ok(*body) && channel_views(channels@) == channels_of(
                    items_or_none(*body, "channels"@),
                    true,
                ),
                Err(e) => !is_ok(*body) && is_api_error(
                    e,
                    failure_text("Failed to list DMs"@, status, *body),
                ),
            },
    {
        if !answer_ok(body) {
            return Err(failure("Failed to list DMs", status, body));
        }
        match body.get_array("channels") {
            Some(items) => Ok(Self::read_channels(items, true)),
            None => {
                let none: Vec<Channel> = Vec::new();
                assert(channel_views(none@) =~= Seq::<ChannelView>::empty());
                Ok(none)
            },
        }
    }

    /// Reads the messages that `items` describe, in the order of `items`.
    pub fn read_messages(items: &Vec<Json>, users: &UserDirectory) -> (out: Vec<Message>)
        ensures
            message_views(out@) == messages_of(items@, users@),
    {
        let mut out: Vec<Message> = Vec::new();
        let mut i: usize = 0;
        assert(items@.take(0) =~= Seq::<Json>::empty());
        assert(message_views(out@) =~= Seq::<MessageView>::empty());
        while i < items.len()
            invariant
                i <= items.len(),
                message_views(out@) == messages_of(items@.take(i as int), users@),
            decreases items.len() - i,
        {
            assert(items@.take(i + 1).drop_last() =~= items@.take(i as int));
            assert(items@.take(i + 1).last() == items@[i as int]);
            match Message::from_slack_api(&items[i], users) {
                Some(message) => {
                    let ghost before = message_views(out@);
                    out.push(message);
                    assert(message_views(out@) =~= before.push(message@));
                },
                None => {},
            }
            i += 1;
        }
        assert(items@.take(items.len() as int) =~= items@);
        out
    }

    /// Reads the answer to a request for the history of a channel. The
    /// service sends the newest message first; the result holds the oldest
    /// first.
    pub fn get_history(status: u16, body: &Json, users: &UserDirectory) -> (r: Result<
        Vec<Message>,
        CallError,
    >)
        ensures
            match r {
                Ok(messages) => is_ok(*body) && message_views(messages@) == messages_of(
                    items_or_none(*body, "messages"@),
                    users@,
                ).reverse(),
                Err(e) => !is_ok(*body) && is_api_error(
                    e,
                    failure_text("Failed to get history"@, status, *body),
                ),
            },
    {
        if !answer_ok(body) {
            return Err(failure("Failed to get history", status, body));
        }
        match body.get_array("messages") {
            Some(items) => {
                let wire = Self::read_messages(items, users);
                let out = reversed(wire);
                assert(message_views(out@) =~= message_views(wire@).reverse());
                Ok(out)
            },
            None => {
                let none: Vec<Message> = Vec::new();
                assert(message_views(none@) =~= Seq::<MessageView>::empty().reverse());
                Ok(none)
            },
        }
    }

    /// Reads the answer to a request for the replies of a thread, in the
    /// order in which the service sends them.
    pub fn get_thread_replies(status: u16, body: &Json, users: &UserDirectory) -> (r: Result<
        Vec<Message>,
        CallError,
    >)
        ensures
            match r {
                Ok(messages) => is_ok(*body) && message_views(messages@) == messages_of(
                    items_or_none(*body, "messages"@),
                    users@,
                ),
                Err(e) => !is_ok(*body) && is_api_error(
                    e,
                    failure_text("Failed to get thread replies"@, status, *body),
                ),
            },
    {
        if !answer_ok(body) {
            return Err(failure("Failed to get thread replies", status, body));
        }
        match body.get_array("messages") {
            Some(items) => Ok(Self::read_messages(items, users)),
            None => {
                let none: Vec<Message> = Vec::new();
                assert(message_views(none@) =~= Seq::<MessageView>::empty());
                Ok(none)
            },
        }
    }

    /// Reads a user from a record with the given id, name and profile.
    fn read_user(id: String, name: String, profile: &Json) -> (r: User)
        ensures
            r@ == user_with(id@, name@, *profile),
    {
        User {
            id,
            name,
            display_name: get_text_or_empty(profile, "display_name"),
            real_name: get_text_or_empty(profile, "real_name"),
            email: profile.get_string("email"),
        }
    }

    /// Reads the answer to a listing of users.
    pub fn list_users(status: u16, body: &Json) -> (r: Result<Vec<User>, CallError>)
        ensures
            match r {
                Ok(users) => is_ok(*body) && user_views(users@) == users_of(
                    items_or_none(*body, "members"@),
                ),
                Err(e) => !is_ok(*body) && is_api_error(
                    e,
                    failure_text("Failed to list users"@, status, *body),
                ),
            },
    {
        if !answer_ok(body) {
            return Err(failure("Failed to list users", status, body));
        }
        let mut out: Vec<User> = Vec::new();
        assert(user_views(out@) =~= Seq::<UserView>::empty());
        let items = match body.get_array("members") {
            Some(items) => items,
            None => {
                return Ok(out);
            },
        };
        let mut i: usize = 0;
        assert(items@.take(0) =~= Seq::<Json>::empty());
        while i < items.len()
            invariant
                i <= items.len(),
                user_views(out@) == users_of(items@.take(i as int)),
            decreases items.len() - i,
        {
            assert(items@.take(i + 1).drop_last() =~= items@.take(i as int));
            assert(items@.take(i + 1).last() == items@[i as int]);
            let doc = &items[i];
            match (doc.get("profile"), doc.get_string("id"), doc.get_string("name")) {
                (Some(profile), Some(id), Some(name)) => {
                    let user = Self::read_user(id, name, profile);
                    let ghost before = user_views(out@);
                    out.push(user);
                    assert(user_views(out@) =~= before.push(user@));
                },
                _ => {},
            }
            i += 1;
        }
        assert(items@.take(items.len() as int) =~= items@);
        Ok(out)
    }

    /// Reads the answer to a request for one user. Id and name are empty
    /// where the record lacks them.
    pub fn get_user(status: u16, body: &Json) -> (r: Result<User, CallError>)
        ensures
            fails_plainly(r),
            match r {
                Ok(user) => user_outcome(status, *body) == Ok::<UserView, Seq<char>>(user@),
                Err(e) => user_outcome(status, *body) == Err::<UserView, Seq<char>>(e.message@),
            },
    {
        if !answer_ok(body) {
            return Err(failure("Failed to get user", status, body));
        }
        let record = match body.get("user") {
            Some(record) => record,
            None => {
                return Err(api_error("No user in response".to_owned()));
            },
        };
        let profile = match record.get("profile") {
            Some(profile) => profile,
            None => {
                return Err(api_error("No profile in response".to_owned()));
            },
        };
        Ok(
            Self::read_user(
                get_text_or_empty(record, "id"),
                get_text_or_empty(record, "name"),
                profile,
            ),
        )
    }

}

impl ApiRequest {
    /// `self` uploads `content` to `channel_id` with the bearer token
    /// `token` under the name that the path component `component` gives.
    /// The title is the file's name where none is given.
    pub open spec fn is_upload(
        self,
        token: Seq<char>,
        channel_id: Seq<char>,
        component: Option<Seq<char>>,
        content: Vec<u8>,
        title: Option<Seq<char>>,
        comment: Option<Seq<char>>,
    ) -> bool {
        &&& self.method == HttpMethod::Post
        &&& self.url@ == endpoint_url("files.upload"@)
        &&& opt_text(self.bearer) == Some(token)
        &&& self.query@.len() == 0
        &&& self.body is Multipart
        &&& self.body->Multipart_0.part@ == "file"@
        &&& self.body->Multipart_0.file_name@ == upload_name(component)
        &&& self.body->Multipart_0.content == content
        &&& param_views(self.body->Multipart_0.fields@) == upload_fields(
            channel_id,
            upload_name(component),
            title,
            comment,
        )
    }
}

/// The view of an optional string slice.
pub open spec fn opt_str(s: Option<&str>) -> Option<Seq<char>> {
    match s {
        Some(s) => Some(s@),
        None => None,
    }
}

impl SlackApi {
    /// The request that uploads the bytes `content` of a file whose path
    /// ends in `component` to a channel.
    pub fn upload_request(
        token: &str,
        channel_id: &str,
        component: Option<String>,
        content: Vec<u8>,
        title: Option<&str>,
        comment: Option<&str>,
    ) -> (r: ApiRequest)
        ensures
            r.is_upload(
                token@,
                channel_id@,
                opt_text(component),
                content,
                opt_str(title),
                opt_str(comment),
            ),
    {
        let file_name = match component {
            Some(name) => name,
            None => "file".to_owned(),
        };
        let shown = match title {
            Some(t) => t.to_owned(),
            None => file_name.clone(),
        };
        let mut fields = params2(param("channels", channel_id), param("title", shown.as_str()));
        match comment {
            Some(c) => {
                let ghost before = param_views(fields@);
                let extra = param("initial_comment", c);
                fields.push(extra);
                assert(param_views(fields@) =~= before.push(extra@));
            },
            None => {},
        }
        ApiRequest {
            method: HttpMethod::Post,
            url: endpoint("files.upload"),
            bearer: Some(token.to_owned()),
            query: Vec::new(),
            body: RequestBody::Multipart(
                Upload { fields, part: "file".to_owned(), file_name, content },
            ),
        }
    }

    /// The request that uploads the bytes `content` of the file at
    /// `file_path` to a channel, under the last component of the path as
    /// the platform reads it.
    pub fn upload_file_request(
        token: &str,
        channel_id: &str,
        file_path: &str,
        content: Vec<u8>,
        title: Option<&str>,
        comment: Option<&str>,
    ) -> (r: ApiRequest)
        ensures
            exists|component: Option<Seq<char>>|
                r.is_upload(
                    token@,
                    channel_id@,
                    component,
                    content,
                    opt_str(title),
                    opt_str(comment),
                ),
    {
        let component = last_component(file_path);
        let r = Self::upload_request(token, channel_id, component, content, title, comment);
        assert(r.is_upload(
            token@,
            channel_id@,
            opt_text(component),
            content,
            opt_str(title),
            opt_str(comment),
        ));
        r
    }

    /// Reads the answer to an upload: the id of the new file.
    pub fn upload_file(status: u16, body: &Json) -> (r: Result<String, CallError>)
        ensures
            text_outcome(r) == if is_ok(*body) {
                match nested_text(*body, "file"@, "id"@) {
                    Some(id) => Ok::<Seq<char>, Seq<char>>(id),
                    None => Err("No file id in response"@),
                }
            } else {
                Err(failure_text("Failed to upload file"@, status, *body))
            },
            fails_plainly(r),
    {
        if answer_ok(body) {
            match get_nested_string(body, "file", "id") {
                Some(id) => Ok(id),
                None => Err(api_error("No file id in response".to_owned())),
            }
        } else {
            Err(failure("Failed to upload file", status, body))
        }
    }

    /// Reads the answer to a request for what the service knows of a file.
    pub fn get_file_info(status: u16, body: &Json) -> (r: Result<FileInfo, CallError>)
        ensures
            fails_plainly(r),
            match r {
                Ok(info) => file_info_outcome(status, *body) == Ok::<FileInfoView, Seq<char>>(info@),
                Err(e) => file_info_outcome(status, *body) == Err::<FileInfoView, Seq<char>>(e.message@),
            },
    {
        if !answer_ok(body) {
            return Err(failure("Failed to get file info", status, body));
        }
        let file = match body.get("file") {
            Some(file) => file,
            None => {
                return Err(api_error("No file in response".to_owned()));
            },
        };
        Ok(
            FileInfo {
                id: get_text_or_empty(file, "id"),
                name: get_text_or_empty(file, "name"),
                mimetype: file.get_string("mimetype"),
                url_private: file.get_string("url_private"),
                url_private_download: file.get_string("url_private_download"),
                size: match file.get_u64("size") {
                    Some(n) => truncate_u32(n),
                    None => 0,
                },
                title: file.get_string("title"),
                filetype: file.get_string("filetype"),
            },
        )
    }

    /// The request that fetches the bytes of a file from `url`.
    pub fn download_file_request(url: &str, token: &str) -> (r: ApiRequest)
        ensures
            r.is_query(HttpMethod::Get, url@, token@, Seq::empty()),
    {
        let query: Vec<Param> = Vec::new();
        assert(param_views(query@) =~= Seq::empty());
        ApiRequest {
            method: HttpMethod::Get,
            url: url.to_owned(),
            bearer: Some(token.to_owned()),
            query,
            body: RequestBody::Empty,
        }
    }
}

} // verus!
