//! Talking to an Open WebUI server: the requests the client sends, the
//! payload of a chat completion, and what each response means.
use vstd::prelude::*;
use crate::history::{history_from_chat, history_of_chat, HistoryResult};
use crate::ids::{is_uuid_v4_text, new_uuid_text};
use crate::json::{bool_at, json_get, json_str, str_at, array_at, JsonMember, JsonValue};
use crate::messages::{extract_content, extract_reasoning, message_content, message_reasoning};
use crate::wait::FetchedMessage;

verus! {

/// What a chat submission reports: the chat it went to and the identifiers
/// of the new messages.
#[derive(Clone, Debug)]
pub struct ChatResult {
    pub chat_id: String,
    pub assistant_message_id: String,
    pub user_message_id: Option<String>,
}

/// The responses whose bodies are read as JSON.
#[derive(Debug, Clone, Copy, PartialEq, Eq, Structural)]
pub enum ResponseKind {
    Models,
    Delete,
    Chat,
    Submission,
}

/// What went wrong in an exchange with the server.
#[derive(Clone, Debug)]
pub enum ClientError {
    /// The server's version endpoint answered with this non-success status.
    ServerStatus(u16),
    /// The API key was rejected (status 401).
    InvalidApiKey,
    /// The API key may not use the endpoint (status 403).
    ApiKeyForbidden,
    /// The key check answered with this unexpected status.
    UnexpectedStatus(u16),
    /// Listing the models failed with this status and body.
    ListModelsFailed { status: u16, body: String },
    /// A chat request answered with this non-success status.
    HttpStatus(u16),
    /// The chat does not exist.
    ChatNotFound(String),
    /// The chat data holds no message map.
    MessagesMissing,
    /// The body of this response is not JSON.
    BodyNotJson(ResponseKind),
    /// The submission was refused for lack of endpoint permissions (403).
    SubmissionForbidden,
    /// The submission failed with this status and body.
    SubmissionFailed { status: u16, body: String },
}

/// The methods the client uses.
#[derive(Debug, Clone, Copy, PartialEq, Eq, Structural)]
pub enum HttpMethod {
    Get,
    Post,
    Delete,
}

/// A request to send: method, full URL, bearer token, JSON body.
#[derive(Debug)]
pub struct HttpRequest {
    pub method: HttpMethod,
    pub url: String,
    pub bearer: Option<String>,
    pub body: Option<JsonValue>,
}

/// A client bound to one server and API key.
#[derive(Clone, Debug)]
pub struct OpenWebUIClient {
    pub base_url: String,
    pub api_key: String,
}

/// Whether a status reports success (200 to 299).
pub open spec fn success(status: u16) -> bool {
    200 <= status <= 299
}

/// Whether `r` is a request with this method, URL and body, carrying the
/// API key as bearer token when `authorized`.
pub open spec fn request_is(
    r: HttpRequest,
    method: HttpMethod,
    url: Seq<char>,
    bearer: Option<Seq<char>>,
) -> bool {
    &&& r.method == method
    &&& r.url@ == url
    &&& match (r.bearer, bearer) {
        (Some(b), Some(k)) => b@ == k,
        (None, None) => true,
        _ => false,
    }
}

/// Whether a status reports success.
pub fn is_success(status: u16) -> (r: bool)
    ensures
        r == success(status),
{
    200 <= status && status <= 299
}

impl OpenWebUIClient {
    /// A client for the server at `base_url`, authorized by `api_key`.
    pub fn new(base_url: String, api_key: String) -> (c: OpenWebUIClient)
        ensures
            c.base_url == base_url,
            c.api_key == api_key,
    {
        OpenWebUIClient { base_url, api_key }
    }

    fn url(&self, path: &str) -> (u: String)
        ensures
            u@ == self.base_url@ + path@,
    {
        let mut u = self.base_url.clone();
        u.append(path);
        u
    }

    fn chat_url(&self, chat_id: &str) -> (u: String)
        ensures
            u@ == self.base_url@ + "/api/v1/chats/"@ + chat_id@,
    {
        let mut u = self.url("/api/v1/chats/");
        u.append(chat_id);
        u
    }

    /// The unauthenticated request for the server's version.
    pub fn version_request(&self) -> (r: HttpRequest)
        ensures
            request_is(r, HttpMethod::Get, self.base_url@ + "/api/version"@, None),
            r.body is None,
    {
        HttpRequest { method: HttpMethod::Get, url: self.url("/api/version"), bearer: None, body: None }
    }

    /// The authenticated request that checks the API key.
    pub fn auth_check_request(&self) -> (r: HttpRequest)
        ensures
            request_is(r, HttpMethod::Get, self.base_url@ + "/api/v1/chats/list"@, Some(self.api_key@)),
            r.body is None,
    {
        HttpRequest {
            method: HttpMethod::Get,
            url: self.url("/api/v1/chats/list"),
            bearer: Some(self.api_key.clone()),
            body: None,
        }
    }

    /// The request for the available models.
    pub fn models_request(&self) -> (r: HttpRequest)
        ensures
            request_is(r, HttpMethod::Get, self.base_url@ + "/api/models"@, Some(self.api_key@)),
            r.body is None,
    {
        HttpRequest {
            method: HttpMethod::Get,
            url: self.url("/api/models"),
            bearer: Some(self.api_key.clone()),
            body: None,
        }
    }

    /// The request for a chat and all of its messages.
    pub fn chat_request(&self, chat_id: &str) -> (r: HttpRequest)
        ensures
            request_is(
                r,
                HttpMethod::Get,
                self.base_url@ + "/api/v1/chats/"@ + chat_id@,
                Some(self.api_key@),
            ),
            r.body is None,
    {
        HttpRequest {
            method: HttpMethod::Get,
            url: self.chat_url(chat_id),
            bearer: Some(self.api_key.clone()),
            body: None,
        }
    }

    /// The request that deletes a chat.
    pub fn delete_chat_request(&self, chat_id: &str) -> (r: HttpRequest)
        ensures
            request_is(
                r,
                HttpMethod::Delete,
                self.base_url@ + "/api/v1/chats/"@ + chat_id@,
                Some(self.api_key@),
            ),
            r.body is None,
    {
        HttpRequest {
            method: HttpMethod::Delete,
            url: self.chat_url(chat_id),
            bearer: Some(self.api_key.clone()),
            body: None,
        }
    }
}

/// The message `message_id` in a chat's data: the member of
/// `chat.history.messages` with that name.
pub open spec fn chat_message(body: JsonValue, message_id: Seq<char>) -> Option<JsonValue> {
    match json_get(body, "chat"@) {
        Some(chat) => match json_get(chat, "history"@) {
            Some(history) => match json_get(history, "messages"@) {
                Some(messages) => json_get(messages, message_id),
                None => None,
            },
            None => None,
        },
        None => None,
    }
}

/// Whether a fetched message holds a message's regular text, reasoning and
/// `done` flag (no when absent).
pub open spec fn fetched_from_json(f: FetchedMessage, m: JsonValue) -> bool {
    &&& f.content@ == message_content(m)
    &&& crate::config::opt_string(f.reasoning) == message_reasoning(m)
    &&& f.done == crate::config::or_default(bool_at(m, "done"@), false)
}

/// The models listed in a models response: the elements of its `data`
/// array, or of the body itself when that is an array.
pub open spec fn model_list(body: JsonValue) -> Seq<JsonValue> {
    match array_at(body, "data"@) {
        Some(items) => items,
        None => match body {
            JsonValue::Array(items) => items@,
            _ => Seq::empty(),
        },
    }
}

/// The name of one listed model: its `id`, else its `name`, when a string.
pub open spec fn model_name(m: JsonValue) -> Option<Seq<char>> {
    match str_at(m, "id"@) {
        Some(id) => Some(id),
        None => str_at(m, "name"@),
    }
}

/// The names of the listed models, in order, skipping those without one.
pub open spec fn model_names(items: Seq<JsonValue>) -> Seq<Seq<char>>
    decreases items.len(),
{
    if items.len() == 0 {
        Seq::empty()
    } else {
        let rest = model_names(items.drop_last());
        match model_name(items.last()) {
            Some(n) => rest.push(n),
            None => rest,
        }
    }
}

/// The texts of a list of strings.
pub open spec fn texts(v: Seq<String>) -> Seq<Seq<char>> {
    v.map_values(|s: String| s@)
}

/// The names of the models in a models response.
pub fn model_ids(body: &JsonValue) -> (ids: Vec<String>)
    ensures
        texts(ids@) == model_names(model_list(*body)),
{
    let items: &Vec<JsonValue> = match body.array_at("data") {
        Some(items) => items,
        None => match body {
            JsonValue::Array(items) => items,
            _ => {
                let ids: Vec<String> = Vec::new();
                assert(texts(ids@) =~= Seq::<Seq<char>>::empty());
                return ids;
            },
        },
    };
    let mut ids: Vec<String> = Vec::new();
    let mut i: usize = 0;
    assert(items@.take(0) =~= Seq::<JsonValue>::empty());
    assert(texts(ids@) =~= Seq::<Seq<char>>::empty());
    while i < items.len()
        invariant
            i <= items.len(),
            items@ == model_list(*body),
            texts(ids@) == model_names(items@.take(i as int)),
        decreases items.len() - i,
    {
        let m = &items[i];
        let name = match m.str_at("id") {
            Some(id) => Some(id),
            None => m.str_at("name"),
        };
        let ghost before = ids@;
        if let Some(n) = name {
            ids.push(n.to_owned());
            assert(texts(ids@) =~= texts(before).push(n@));
        }
        assert(items@.take(i + 1).drop_last() =~= items@.take(i as int));
        assert(items@.take(i + 1).last() == items@[i as int]);
        i = i + 1;
    }
    assert(items@.take(items.len() as int) =~= items@);
    ids
}

/// What the version response says: the server's `version` string
/// (`"unknown"` when the body has none or is not JSON), or the status when
/// it is not a success.
pub fn version_result(status: u16, body: Option<&JsonValue>) -> (r: Result<String, ClientError>)
    ensures
        !success(status) ==> r is Err && r->Err_0 == ClientError::ServerStatus(status),
        success(status) ==> r is Ok && r->Ok_0@ == match body {
            Some(b) => crate::config::or_default(str_at(*b, "version"@), "unknown"@),
            None => "unknown"@,
        },
{
    proof {
        reveal_strlit("unknown");
    }
    if !is_success(status) {
        return Err(ClientError::ServerStatus(status));
    }
    let version = match body {
        Some(b) => match b.str_at("version") {
            Some(v) => v.to_owned(),
            None => "unknown".to_owned(),
        },
        None => "unknown".to_owned(),
    };
    Ok(version)
}

/// What the key check says: the version when the key is accepted, else why
/// not.
pub fn auth_check_result(status: u16, version: String) -> (r: Result<String, ClientError>)
    ensures
        success(status) ==> r == Ok::<String, ClientError>(version),
        status == 401 ==> r == Err::<String, ClientError>(ClientError::InvalidApiKey),
        status == 403 ==> r == Err::<String, ClientError>(ClientError::ApiKeyForbidden),
        !success(status) && status != 401 && status != 403 ==> r == Err::<String, ClientError>(
            ClientError::UnexpectedStatus(status),
        ),
{
    if is_success(status) {
        Ok(version)
    } else if status == 401 {
        Err(ClientError::InvalidApiKey)
    } else if status == 403 {
        Err(ClientError::ApiKeyForbidden)
    } else {
        Err(ClientError::UnexpectedStatus(status))
    }
}

/// What the models response says. `failure_body` is the body text, read
/// when the status is not a success; `body` is the JSON body, read on
/// success, `None` when it did not parse.
pub fn list_models_result(status: u16, failure_body: String, body: Option<&JsonValue>) -> (r: Result<
    Vec<String>,
    ClientError,
>)
    ensures
        !success(status) ==> r == Err::<Vec<String>, ClientError>(
            ClientError::ListModelsFailed { status, body: failure_body },
        ),
        success(status) && body is None ==> r == Err::<Vec<String>, ClientError>(
            ClientError::BodyNotJson(ResponseKind::Models),
        ),
        success(status) && body is Some ==> r is Ok && texts(r->Ok_0@) == model_names(
            model_list(*body->0),
        ),
{
    if !is_success(status) {
        return Err(ClientError::ListModelsFailed { status, body: failure_body });
    }
    match body {
        Some(b) => Ok(model_ids(b)),
        None => Err(ClientError::BodyNotJson(ResponseKind::Models)),
    }
}

/// What the delete response says: `false` when the chat does not exist,
/// else whether the server's JSON answer is `true`.
pub fn delete_chat_result(status: u16, body: Option<&JsonValue>) -> (r: Result<bool, ClientError>)
    ensures
        status == 404 ==> r == Ok::<bool, ClientError>(false),
        status != 404 && !success(status) ==> r == Err::<bool, ClientError>(
            ClientError::HttpStatus(status),
        ),
        success(status) && body is None ==> r == Err::<bool, ClientError>(
            ClientError::BodyNotJson(ResponseKind::Delete),
        ),
        success(status) && body is Some ==> r == Ok::<bool, ClientError>(
            *body->0 == JsonValue::Bool(true),
        ),
{
    if status == 404 {
        return Ok(false);
    }
    if !is_success(status) {
        return Err(ClientError::HttpStatus(status));
    }
    match body {
        Some(JsonValue::Bool(b)) => Ok(*b),
        Some(_) => Ok(false),
        None => Err(ClientError::BodyNotJson(ResponseKind::Delete)),
    }
}

/// What a chat response says about the whole history.
pub fn fetch_history_result(status: u16, chat_id: &str, body: Option<&JsonValue>) -> (r: Result<
    HistoryResult,
    ClientError,
>)
    ensures
        status == 404 ==> (r matches Err(ClientError::ChatNotFound(id)) && id@ == chat_id@),
        status != 404 && !success(status) ==> (r matches Err(ClientError::HttpStatus(s)) && s
            == status),
        success(status) && body is None ==> (r matches Err(ClientError::BodyNotJson(k)) && k
            == ResponseKind::Chat),
        success(status) && body is Some ==> history_of_chat(r, chat_id@, *body->0),
{
    if status == 404 {
        return Err(ClientError::ChatNotFound(chat_id.to_owned()));
    }
    if !is_success(status) {
        return Err(ClientError::HttpStatus(status));
    }
    match body {
        Some(b) => history_from_chat(chat_id, b),
        None => Err(ClientError::BodyNotJson(ResponseKind::Chat)),
    }
}

/// The message `message_id` of a chat's data, when present.
pub fn find_chat_message<'a>(body: &'a JsonValue, message_id: &str) -> (r: Option<&'a JsonValue>)
    ensures
        r is Some == chat_message(*body, message_id@) is Some,
        r is Some ==> *r->0 == chat_message(*body, message_id@)->0,
{
    match body.get("chat") {
        Some(chat) => match chat.get("history") {
            Some(history) => match history.get("messages") {
                Some(messages) => messages.get(message_id),
                None => None,
            },
            None => None,
        },
        None => None,
    }
}

/// What a chat response says about one message: `None` when the chat or the
/// message does not exist (yet), else the message's text and `done` flag.
pub fn fetch_message_result(status: u16, message_id: &str, body: Option<&JsonValue>) -> (r: Result<
    Option<FetchedMessage>,
    ClientError,
>)
    ensures
        status == 404 ==> r matches Ok(None),
        status != 404 && !success(status) ==> (r matches Err(ClientError::HttpStatus(s)) && s
            == status),
        success(status) && body is None ==> (r matches Err(ClientError::BodyNotJson(k)) && k
            == ResponseKind::Chat),
        success(status) && body is Some ==> match chat_message(*body->0, message_id@) {
            None => r matches Ok(None),
            Some(m) => (r matches Ok(Some(f)) && fetched_from_json(f, m)),
        },
{
    if status == 404 {
        return Ok(None);
    }
    if !is_success(status) {
        return Err(ClientError::HttpStatus(status));
    }
    let body = match body {
        Some(b) => b,
        None => {
            return Err(ClientError::BodyNotJson(ResponseKind::Chat));
        },
    };
    match find_chat_message(body, message_id) {
        Some(m) => Ok(
            Some(
                FetchedMessage {
                    content: extract_content(m),
                    reasoning: extract_reasoning(m),
                    done: match m.bool_at("done") {
                        Some(d) => d,
                        None => false,
                    },
                },
            ),
        ),
        None => Ok(None),
    }
}

/// Whether a member is `key` with the string `value`.
pub open spec fn str_member(m: JsonMember, key: Seq<char>, value: Seq<char>) -> bool {
    m.key@ == key && json_str(m.value) == Some(value)
}

/// Whether `v` is the user message `{"role": "user", "content": message}`.
pub open spec fn is_user_message(v: JsonValue, message: Seq<char>) -> bool {
    &&& v matches JsonValue::Object(ms)
    &&& ms@.len() == 2
    &&& str_member(ms@[0], "role"@, "user"@)
    &&& str_member(ms@[1], "content"@, message)
}

/// Whether `v` is `{"user_message": {"id": user_id, "role": "user",
/// "content": message}}`.
pub open spec fn is_user_metadata(v: JsonValue, user_id: Seq<char>, message: Seq<char>) -> bool {
    &&& v matches JsonValue::Object(ms)
    &&& ms@.len() == 1
    &&& ms@[0].key@ == "user_message"@
    &&& ms@[0].value matches JsonValue::Object(us)
    &&& us@.len() == 3
    &&& str_member(us@[0], "id"@, user_id)
    &&& str_member(us@[1], "role"@, "user"@)
    &&& str_member(us@[2], "content"@, message)
}

/// Whether `p` is the payload of a chat completion: the model, the user
/// message, streaming on, the web-search feature, the assistant message's
/// identifier (as `id` and `assistant_message_id`), the session, the parent
/// message (`null` for a new chat), the user message as metadata, and, for
/// a follow-up, the chat.
pub open spec fn is_submission_payload(
    p: JsonValue,
    model: Seq<char>,
    message: Seq<char>,
    web_search: bool,
    user_id: Seq<char>,
    assistant_id: Seq<char>,
    session_id: Seq<char>,
    parent_id: Option<Seq<char>>,
    chat_id: Option<Seq<char>>,
) -> bool {
    &&& p matches JsonValue::Object(ms)
    &&& ms@.len() == if chat_id is Some { 10nat } else { 9nat }
    &&& str_member(ms@[0], "model"@, model)
    &&& ms@[1].key@ == "messages"@
    &&& ms@[1].value matches JsonValue::Array(items)
    &&& items@.len() == 1
    &&& is_user_message(items@[0], message)
    &&& ms@[2].key@ == "stream"@
    &&& ms@[2].value == JsonValue::Bool(true)
    &&& ms@[3].key@ == "features"@
    &&& ms@[3].value matches JsonValue::Object(fs)
    &&& fs@.len() == 1
    &&& fs@[0].key@ == "web_search"@
    &&& fs@[0].value == JsonValue::Bool(web_search)
    &&& str_member(ms@[4], "id"@, assistant_id)
    &&& str_member(ms@[5], "assistant_message_id"@, assistant_id)
    &&& str_member(ms@[6], "session_id"@, session_id)
    &&& ms@[7].key@ == "parent_id"@
    &&& match parent_id {
        Some(pid) => json_str(ms@[7].value) == Some(pid),
        None => ms@[7].value is Null,
    }
    &&& ms@[8].key@ == "metadata"@
    &&& is_user_metadata(ms@[8].value, user_id, message)
    &&& match chat_id {
        Some(c) => str_member(ms@[9], "chat_id"@, c),
        None => true,
    }
}

fn text_member(key: &str, value: &str) -> (m: JsonMember)
    ensures
        str_member(m, key@, value@),
{
    JsonMember { key: key.to_owned(), value: JsonValue::Str(value.to_owned()) }
}

fn value_member(key: &str, value: JsonValue) -> (m: JsonMember)
    ensures
        m.key@ == key@,
        m.value == value,
{
    JsonMember { key: key.to_owned(), value }
}

/// Builds the payload of a chat completion.
pub fn submission_payload(
    message: &str,
    model: &str,
    web_search: bool,
    user_id: &str,
    assistant_id: &str,
    session_id: &str,
    parent_id: Option<&str>,
    chat_id: Option<&str>,
) -> (p: JsonValue)
    ensures
        is_submission_payload(
            p,
            model@,
            message@,
            web_search,
            user_id@,
            assistant_id@,
            session_id@,
            crate::config::opt_str(parent_id),
            crate::config::opt_str(chat_id),
        ),
{
    let mut user_message: Vec<JsonMember> = Vec::new();
    user_message.push(text_member("role", "user"));
    user_message.push(text_member("content", message));
    let mut messages: Vec<JsonValue> = Vec::new();
    messages.push(JsonValue::Object(user_message));
    let mut features: Vec<JsonMember> = Vec::new();
    features.push(value_member("web_search", JsonValue::Bool(web_search)));
    let mut user_meta: Vec<JsonMember> = Vec::new();
    user_meta.push(text_member("id", user_id));
    user_meta.push(text_member("role", "user"));
    user_meta.push(text_member("content", message));
    let mut metadata: Vec<JsonMember> = Vec::new();
    metadata.push(value_member("user_message", JsonValue::Object(user_meta)));
    let mut members: Vec<JsonMember> = Vec::new();
    members.push(text_member("model", model));
    members.push(value_member("messages", JsonValue::Array(messages)));
    members.push(value_member("stream", JsonValue::Bool(true)));
    members.push(value_member("features", JsonValue::Object(features)));
    members.push(text_member("id", assistant_id));
    members.push(text_member("assistant_message_id", assistant_id));
    members.push(text_member("session_id", session_id));
    let parent = match parent_id {
        Some(p) => JsonValue::Str(p.to_owned()),
        None => JsonValue::Null,
    };
    members.push(value_member("parent_id", parent));
    members.push(value_member("metadata", JsonValue::Object(metadata)));
    if let Some(c) = chat_id {
        members.push(text_member("chat_id", c));
    }
    JsonValue::Object(members)
}

/// A chat completion about to be sent, with the identifiers chosen for it.
#[derive(Debug)]
pub struct Submission {
    /// The request to send.
    pub request: HttpRequest,
    /// The chat named in the request; empty for a new chat.
    pub chat_id: String,
    pub user_message_id: String,
    pub assistant_message_id: String,
    pub session_id: String,
    /// The parent message named in the request; `None` for a new chat.
    pub parent_id: Option<String>,
}

impl OpenWebUIClient {
    /// Prepares a chat completion of `message` by `model`. For a new chat
    /// (`chat_id` is `None`) the payload names no chat and no parent
    /// message, and the server creates the chat; for a follow-up it names
    /// the chat and a parent message. Fresh random identifiers are chosen
    /// for the user message, the assistant message, the session and, for a
    /// follow-up, the parent message. The title hint is not sent.
    pub fn prepare_submission(
        &self,
        message: &str,
        model: &str,
        chat_id: Option<&str>,
        _title: Option<&str>,
        web_search: bool,
    ) -> (s: Submission)
        ensures
            request_is(
                s.request,
                HttpMethod::Post,
                self.base_url@ + "/api/chat/completions"@,
                Some(self.api_key@),
            ),
            s.request.body is Some,
            is_submission_payload(
                s.request.body->0,
                model@,
                message@,
                web_search,
                s.user_message_id@,
                s.assistant_message_id@,
                s.session_id@,
                crate::config::opt_string(s.parent_id),
                crate::config::opt_str(chat_id),
            ),
            s.chat_id@ == crate::config::or_default(crate::config::opt_str(chat_id), Seq::empty()),
            s.parent_id is Some == chat_id is Some,
            is_uuid_v4_text(s.user_message_id@),
            is_uuid_v4_text(s.assistant_message_id@),
            is_uuid_v4_text(s.session_id@),
            s.parent_id is Some ==> is_uuid_v4_text(s.parent_id->0@),
    {
        let user_message_id = new_uuid_text();
        let assistant_message_id = new_uuid_text();
        let session_id = new_uuid_text();
        let parent_id = match chat_id {
            Some(_) => Some(new_uuid_text()),
            None => None,
        };
        let chat_id_for_request = match chat_id {
            Some(c) => c.to_owned(),
            None => String::new(),
        };
        let parent_ref: Option<&str> = match &parent_id {
            Some(p) => Some(p.as_str()),
            None => None,
        };
        let payload = submission_payload(
            message,
            model,
            web_search,
            user_message_id.as_str(),
            assistant_message_id.as_str(),
            session_id.as_str(),
            parent_ref,
            chat_id,
        );
        let request = HttpRequest {
            method: HttpMethod::Post,
            url: self.url("/api/chat/completions"),
            bearer: Some(self.api_key.clone()),
            body: Some(payload),
        };
        Submission {
            request,
            chat_id: chat_id_for_request,
            user_message_id,
            assistant_message_id,
            session_id,
            parent_id,
        }
    }
}

/// What the completion response says. `failure_body` is the body text, read
/// when the status is not a success; `body` is the JSON body, read on
/// success, `None` when it did not parse. On success the chat is the one the
/// server names in `chat_id`, else the one the request named.
pub fn submission_result(
    submission: &Submission,
    status: u16,
    failure_body: String,
    body: Option<&JsonValue>,
) -> (r: Result<ChatResult, ClientError>)
    ensures
        status == 403 ==> r matches Err(ClientError::SubmissionForbidden),
        status != 403 && !success(status) ==> (r matches Err(
            ClientError::SubmissionFailed { status: s, body: b },
        ) && s == status && b == failure_body),
        success(status) && body is None ==> (r matches Err(ClientError::BodyNotJson(k)) && k
            == ResponseKind::Submission),
        success(status) && body is Some ==> {
            &&& r is Ok
            &&& r->Ok_0.chat_id@ == crate::config::or_default(
                str_at(*body->0, "chat_id"@),
                submission.chat_id@,
            )
            &&& r->Ok_0.assistant_message_id@ == submission.assistant_message_id@
            &&& r->Ok_0.user_message_id is Some
            &&& r->Ok_0.user_message_id->0@ == submission.user_message_id@
        },
{
    if !is_success(status) {
        if status == 403 {
            return Err(ClientError::SubmissionForbidden);
        }
        return Err(ClientError::SubmissionFailed { status, body: failure_body });
    }
    let body = match body {
        Some(b) => b,
        None => {
            return Err(ClientError::BodyNotJson(ResponseKind::Submission));
        },
    };
    let chat_id = match body.str_at("chat_id") {
        Some(c) => c.to_owned(),
        None => submission.chat_id.clone(),
    };
    Ok(
        ChatResult {
            chat_id,
            assistant_message_id: submission.assistant_message_id.clone(),
            user_message_id: Some(submission.user_message_id.clone()),
        },
    )
}

} // verus!
