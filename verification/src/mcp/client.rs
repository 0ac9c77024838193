//! The JSON-RPC exchange with the MCP server: how requests are framed as
//! documents and what is read out of each reply. The process and its pipes
//! are driven by the caller.
use vstd::prelude::*;
use crate::json::{
    lookup, duplicate_items, json_str, lemma_member_models, lemma_models, member, member_models, model, models, str_eq, Json,
    JsonValue,
};
use crate::mcp::error::McpError;
use crate::json_text::{debug_text, json_debug};
use crate::text::{decimal, decimal_u64};

verus! {

/// A JSON number for an unsigned integer.
pub open spec fn json_u64(n: u64) -> Json {
    if n <= i64::MAX {
        Json::Int(n as int)
    } else {
        Json::Num(decimal(n as nat))
    }
}

/// A JSON number for an unsigned integer.
pub fn json_from_u64(n: u64) -> (r: JsonValue)
    ensures
        model(r) == json_u64(n),
{
    if n <= i64::MAX as u64 {
        JsonValue::Int(n as i64)
    } else {
        JsonValue::Num(decimal_u64(n))
    }
}

/// A JSON-RPC request document.
pub open spec fn spec_request(id: u64, method: Seq<char>, params: Json) -> Json {
    Json::Object(
        seq![
            ("jsonrpc"@, Json::Str("2.0"@)),
            ("id"@, json_u64(id)),
            ("method"@, Json::Str(method)),
            ("params"@, params),
        ],
    )
}

/// A JSON-RPC notification document (no id, no response expected).
pub open spec fn spec_notification(method: Seq<char>, params: Json) -> Json {
    Json::Object(
        seq![("jsonrpc"@, Json::Str("2.0"@)), ("method"@, Json::Str(method)), ("params"@, params)],
    )
}

/// Builds the JSON-RPC request `method(params)` with the given id.
pub fn request_message(id: u64, method: &str, params: JsonValue) -> (r: JsonValue)
    ensures
        model(r) == spec_request(id, method@, model(params)),
{
    let mut m: Vec<(String, JsonValue)> = Vec::new();
    m.push(member("jsonrpc", json_str("2.0")));
    m.push(member("id", json_from_u64(id)));
    m.push(member("method", json_str(method)));
    m.push(member("params", params));
    proof {
        lemma_member_models(m@);
    }
    let r = JsonValue::Object(m);
    assert(member_models(m@) =~= seq![
        ("jsonrpc"@, Json::Str("2.0"@)),
        ("id"@, json_u64(id)),
        ("method"@, Json::Str(method@)),
        ("params"@, model(params)),
    ]);
    r
}

/// Builds the JSON-RPC notification `method(params)`.
pub fn notification_message(method: &str, params: JsonValue) -> (r: JsonValue)
    ensures
        model(r) == spec_notification(method@, model(params)),
{
    let mut m: Vec<(String, JsonValue)> = Vec::new();
    m.push(member("jsonrpc", json_str("2.0")));
    m.push(member("method", json_str(method)));
    m.push(member("params", params));
    proof {
        lemma_member_models(m@);
    }
    let r = JsonValue::Object(m);
    assert(member_models(m@) =~= seq![
        ("jsonrpc"@, Json::Str("2.0"@)),
        ("method"@, Json::Str(method@)),
        ("params"@, model(params)),
    ]);
    r
}

/// Whether a response names an id other than the request's.
pub open spec fn id_mismatch(resp: Json, id: u64) -> bool {
    match resp.get("id"@) {
        Some(rid) => rid != json_u64(id),
        None => false,
    }
}

fn is_id(v: &JsonValue, id: u64) -> (r: bool)
    ensures
        r == (model(*v) == json_u64(id)),
{
    match v {
        JsonValue::Int(n) => id <= i64::MAX as u64 && *n == id as i64,
        JsonValue::Num(t) => {
            if id <= i64::MAX as u64 {
                false
            } else {
                str_eq(t.as_str(), decimal_u64(id).as_str())
            }
        },
        _ => false,
    }
}

/// The error for a reply to request `id` that names another id, shown as
/// `shown`.
pub fn id_mismatch_error(shown: &str, id: u64) -> (r: McpError)
    ensures
        r matches McpError::Protocol(m) && m@ == "response id "@ + shown@
            + " does not match request id "@ + decimal(id as nat),
{
    let mut m = "response id ".to_owned();
    m.append(shown);
    m.append(" does not match request id ");
    m.append(decimal_u64(id).as_str());
    McpError::Protocol(m)
}

/// The answer carried by the reply to request `id`: its `result` member,
/// when the reply names no other id and carries no `error`.
pub open spec fn reply_result(resp: Json, id: u64) -> Option<Json> {
    if id_mismatch(resp, id) || resp.get("error"@) is Some {
        None
    } else {
        resp.get("result"@)
    }
}

/// Whether `r` is how the reply `resp` to request `id` is read: a reply that
/// names another id is a protocol error; a reply with an `error` member is a
/// tool error carrying the server's code (-1 when it is not an integer),
/// message (`unknown error` when it is not a string) and data (null when
/// absent); otherwise the `result` member is the answer, and a reply
/// without one is a protocol error.
pub open spec fn response_outcome(resp: Json, id: u64, r: Result<JsonValue, McpError>) -> bool {
    if id_mismatch(resp, id) {
        r matches Err(McpError::Protocol(m)) && m@ == "response id "@ + json_debug(
            resp.get("id"@)->0,
        ) + " does not match request id "@ + decimal(id as nat)
    } else if resp.get("error"@) is Some {
        let err = resp.get("error"@)->0;
        r matches Err(McpError::ToolError { code, message, data }) && code == (match err.get(
            "code"@,
        ) {
            Some(c) => match c.as_int() {
                Some(n) => n,
                None => -1,
            },
            None => -1,
        }) && message@ == (match err.get("message"@) {
            Some(mv) => match mv.as_str() {
                Some(t) => t,
                None => "unknown error"@,
            },
            None => "unknown error"@,
        }) && model(data) == (match err.get("data"@) {
            Some(d) => d,
            None => Json::Null,
        })
    } else {
        match resp.get("result"@) {
            Some(res) => (r matches Ok(v) && model(v) == res),
            None => (r matches Err(McpError::Protocol(m)) && m@
                == "response missing 'result' field"@),
        }
    }
}

/// Reads the reply to request `id`, as [`response_outcome`] describes.
pub fn check_response(resp: &JsonValue, id: u64) -> (r: Result<JsonValue, McpError>)
    ensures
        response_outcome(model(*resp), id, r),
{
    if let Some(rid) = resp.get("id") {
        if !is_id(rid, id) {
            return Err(id_mismatch_error(debug_text(rid).as_str(), id));
        }
    }
    if let Some(err) = resp.get("error") {
        let code: i64 = match err.get("code") {
            Some(c) => match c.as_i64() {
                Some(n) => n,
                None => -1,
            },
            None => -1,
        };
        let message: String = match err.get("message") {
            Some(mv) => match mv.as_str() {
                Some(t) => t.to_owned(),
                None => "unknown error".to_owned(),
            },
            None => "unknown error".to_owned(),
        };
        let data: JsonValue = match err.get("data") {
            Some(d) => d.duplicate(),
            None => JsonValue::Null,
        };
        return Err(McpError::ToolError { code, message, data });
    }
    match resp.get("result") {
        Some(res) => Ok(res.duplicate()),
        None => Err(McpError::Protocol("response missing 'result' field".to_owned())),
    }
}

/// The parameters of the `initialize` request.
pub open spec fn spec_initialize_params(version: Seq<char>) -> Json {
    Json::Object(
        seq![
            ("protocolVersion"@, Json::Str("2024-11-05"@)),
            (
                "clientInfo"@,
                Json::Object(
                    seq![("name"@, Json::Str("org-cli"@)), ("version"@, Json::Str(version))],
                ),
            ),
            ("capabilities"@, Json::Object(Seq::empty())),
        ],
    )
}

/// Builds the parameters of the `initialize` request for a client of the
/// given version.
pub fn initialize_params(version: &str) -> (r: JsonValue)
    ensures
        model(r) == spec_initialize_params(version@),
{
    let mut info: Vec<(String, JsonValue)> = Vec::new();
    info.push(member("name", json_str("org-cli")));
    info.push(member("version", json_str(version)));
    proof {
        lemma_member_models(info@);
    }
    let ghost info_model = member_models(info@);
    assert(info_model =~= seq![("name"@, Json::Str("org-cli"@)), ("version"@, Json::Str(version@))]);
    let caps: Vec<(String, JsonValue)> = Vec::new();
    proof {
        lemma_member_models(caps@);
    }
    assert(member_models(caps@) =~= Seq::<(Seq<char>, Json)>::empty());
    let mut m: Vec<(String, JsonValue)> = Vec::new();
    m.push(member("protocolVersion", json_str("2024-11-05")));
    m.push(member("clientInfo", JsonValue::Object(info)));
    m.push(member("capabilities", JsonValue::Object(caps)));
    proof {
        lemma_member_models(m@);
    }
    assert(member_models(m@) =~= seq![
        ("protocolVersion"@, Json::Str("2024-11-05"@)),
        ("clientInfo"@, Json::Object(info_model)),
        ("capabilities"@, Json::Object(Seq::empty())),
    ]);
    JsonValue::Object(m)
}

/// Whether the reply to `initialize` advertises the tools capability.
pub open spec fn advertises_tools(result: Json) -> bool {
    match result.get("capabilities"@) {
        Some(caps) => caps.get("tools"@) is Some,
        None => false,
    }
}

/// Checks the reply to `initialize`: the server must advertise the tools
/// capability.
pub fn check_initialize(result: &JsonValue) -> (r: Result<(), McpError>)
    ensures
        r is Ok <==> advertises_tools(model(*result)),
        r matches Err(McpError::Protocol(m)) ==> m@ == "server does not advertise tools capability"@,
        r matches Err(e) ==> e is Protocol,
{
    match result.get("capabilities") {
        Some(caps) => {
            if caps.get("tools").is_some() {
                return Ok(());
            }
        },
        None => {},
    }
    Err(McpError::Protocol("server does not advertise tools capability".to_owned()))
}

/// Reads the tool list out of the reply to `tools/list`.
pub fn tools_from_result(result: &JsonValue) -> (r: Result<Vec<JsonValue>, McpError>)
    ensures
        match model(*result).get("tools"@) {
            Some(Json::Array(items)) => (r matches Ok(v) && models(v@) == items),
            _ => (r matches Err(McpError::Protocol(m)) && m@
                == "tools/list response missing 'tools' array"@),
        },
{
    if let Some(tools) = result.get("tools") {
        if let JsonValue::Array(items) = tools {
            return Ok(duplicate_items(items));
        }
    }
    Err(McpError::Protocol("tools/list response missing 'tools' array".to_owned()))
}

/// Whether a tool entry is named `name`.
pub open spec fn tool_named(tool: Json, name: Seq<char>) -> bool {
    match tool.get("name"@) {
        Some(n) => n.as_str() == Some(name),
        None => false,
    }
}

/// Whether the tool list advertises a tool named `name`.
pub fn has_tool(tools: &Vec<JsonValue>, name: &str) -> (r: bool)
    ensures
        r == exists|i: int| 0 <= i < tools@.len() && tool_named(model(#[trigger] tools@[i]), name@),
{
    let mut i: usize = 0;
    while i < tools.len()
        invariant
            i <= tools@.len(),
            forall|j: int| 0 <= j < i ==> !tool_named(model(#[trigger] tools@[j]), name@),
        decreases tools@.len() - i,
    {
        if let Some(n) = tools[i].get("name") {
            if let Some(s) = n.as_str() {
                if str_eq(s, name) {
                    assert(tool_named(model(tools@[i as int]), name@));
                    return true;
                }
            }
        }
        i = i + 1;
    }
    false
}

/// The parameters of a `tools/call` request.
pub open spec fn spec_call_params(name: Seq<char>, arguments: Json) -> Json {
    Json::Object(seq![("name"@, Json::Str(name)), ("arguments"@, arguments)])
}

/// Builds the parameters of a `tools/call` request.
pub fn tools_call_params(name: &str, arguments: JsonValue) -> (r: JsonValue)
    ensures
        model(r) == spec_call_params(name@, model(arguments)),
{
    let mut m: Vec<(String, JsonValue)> = Vec::new();
    m.push(member("name", json_str(name)));
    m.push(member("arguments", arguments));
    proof {
        lemma_member_models(m@);
    }
    assert(m@[0].0@ == "name"@);
    assert(model(m@[0].1) == Json::Str(name@));
    assert(m@[1].1 == arguments);
    assert(member_models(m@) =~= seq![("name"@, Json::Str(name@)), ("arguments"@, model(arguments))]);
    JsonValue::Object(m)
}

/// The content of a `tools/call` reply: its `content` member, or the whole
/// reply when it has none.
pub fn call_content(result: JsonValue) -> (r: JsonValue)
    ensures
        model(r) == match model(result).get("content"@) {
            Some(c) => c,
            None => model(result),
        },
{
    match result.get("content") {
        Some(c) => c.duplicate(),
        None => result,
    }
}

/// The ids of the requests of one session: 1, 2, 3, ...
pub struct RequestIds {
    next: u64,
}

impl RequestIds {
    /// The id the next request will carry.
    pub closed spec fn upcoming(&self) -> u64 {
        self.next
    }

    /// A fresh session; its first request carries id 1.
    pub fn new() -> (r: RequestIds)
        ensures
            r.upcoming() == 1,
    {
        RequestIds { next: 1 }
    }

    /// Whether another id can be taken.
    pub fn has_ids_left(&self) -> (r: bool)
        ensures
            r == (self.upcoming() < u64::MAX),
    {
        self.next < u64::MAX
    }

    /// Takes the id for the next request.
    pub fn next_id(&mut self) -> (r: u64)
        requires
            old(self).upcoming() < u64::MAX,
        ensures
            r == old(self).upcoming(),
            final(self).upcoming() == old(self).upcoming() + 1,
    {
        let id = self.next;
        self.next = self.next + 1;
        id
    }
}


/// The protocol side of one client session. The caller spawns the server,
/// sends each message built here and hands back the reply it read; the
/// session numbers the requests 1, 2, 3, ... and reads each reply.
pub struct Client {
    ids: RequestIds,
}

/// Whether `r` reads a reply whose answer is looked at by `then`: the
/// reply's own error when it carries no answer.
pub open spec fn fails_as_reply<T>(resp: Json, id: u64, r: Result<T, McpError>) -> bool {
    r matches Err(e) && response_outcome(resp, id, Err(e))
}

impl Client {
    /// The id of the session's next request.
    pub closed spec fn upcoming(&self) -> u64 {
        self.ids.upcoming()
    }

    /// A session that has sent nothing yet.
    pub fn new() -> (r: Client)
        ensures
            r.upcoming() == 1,
    {
        Client { ids: RequestIds::new() }
    }

    /// Whether the session can still number a request.
    pub fn has_ids_left(&self) -> (r: bool)
        ensures
            r == (self.upcoming() < u64::MAX),
    {
        self.ids.has_ids_left()
    }

    /// The next request: its id and the message to send.
    pub fn request(&mut self, method: &str, params: JsonValue) -> (r: (u64, JsonValue))
        requires
            old(self).upcoming() < u64::MAX,
        ensures
            r.0 == old(self).upcoming(),
            final(self).upcoming() == old(self).upcoming() + 1,
            model(r.1) == spec_request(r.0, method@, model(params)),
    {
        let id = self.ids.next_id();
        (id, request_message(id, method, params))
    }

    /// The `initialize` request of a client of the given version.
    pub fn handshake(&mut self, version: &str) -> (r: (u64, JsonValue))
        requires
            old(self).upcoming() < u64::MAX,
        ensures
            r.0 == old(self).upcoming(),
            final(self).upcoming() == old(self).upcoming() + 1,
            model(r.1) == spec_request(r.0, "initialize"@, spec_initialize_params(version@)),
    {
        self.request("initialize", initialize_params(version))
    }

    /// Reads the reply to `initialize`: when the server advertises tools,
    /// the `notifications/initialized` message to send next.
    pub fn handshake_reply(reply: &JsonValue, id: u64) -> (r: Result<JsonValue, McpError>)
        ensures
            match reply_result(model(*reply), id) {
                Some(res) => if advertises_tools(res) {
                    r matches Ok(n) && model(n) == spec_notification(
                        "notifications/initialized"@,
                        Json::Object(Seq::empty()),
                    )
                } else {
                    r matches Err(McpError::Protocol(m)) && m@
                        == "server does not advertise tools capability"@
                },
                None => fails_as_reply(model(*reply), id, r),
            },
    {
        let result = check_response(reply, id)?;
        check_initialize(&result)?;
        let empty: Vec<(String, JsonValue)> = Vec::new();
        proof {
            lemma_member_models(empty@);
        }
        assert(member_models(empty@) =~= Seq::<(Seq<char>, Json)>::empty());
        Ok(notification_message("notifications/initialized", JsonValue::Object(empty)))
    }

    /// The `tools/list` request.
    pub fn tools_list(&mut self) -> (r: (u64, JsonValue))
        requires
            old(self).upcoming() < u64::MAX,
        ensures
            r.0 == old(self).upcoming(),
            final(self).upcoming() == old(self).upcoming() + 1,
            model(r.1) == spec_request(r.0, "tools/list"@, Json::Object(Seq::empty())),
    {
        let empty: Vec<(String, JsonValue)> = Vec::new();
        proof {
            lemma_member_models(empty@);
        }
        assert(member_models(empty@) =~= Seq::<(Seq<char>, Json)>::empty());
        self.request("tools/list", JsonValue::Object(empty))
    }

    /// Reads the reply to `tools/list`: the tool entries.
    pub fn tools_list_reply(reply: &JsonValue, id: u64) -> (r: Result<Vec<JsonValue>, McpError>)
        ensures
            match reply_result(model(*reply), id) {
                Some(res) => match res.get("tools"@) {
                    Some(Json::Array(items)) => (r matches Ok(v) && models(v@) == items),
                    _ => (r matches Err(McpError::Protocol(m)) && m@
                        == "tools/list response missing 'tools' array"@),
                },
                None => fails_as_reply(model(*reply), id, r),
            },
    {
        let result = check_response(reply, id)?;
        tools_from_result(&result)
    }

    /// Reads the reply to `tools/list` for a capability check: whether a
    /// tool named `name` is advertised.
    pub fn server_has_tool(reply: &JsonValue, id: u64, name: &str) -> (r: Result<bool, McpError>)
        ensures
            match reply_result(model(*reply), id) {
                Some(res) => match res.get("tools"@) {
                    Some(Json::Array(items)) => (r matches Ok(b) && b == exists|i: int|
                        0 <= i < items.len() && tool_named(#[trigger] items[i], name@)),
                    _ => (r matches Err(McpError::Protocol(m)) && m@
                        == "tools/list response missing 'tools' array"@),
                },
                None => fails_as_reply(model(*reply), id, r),
            },
    {
        let tools = Self::tools_list_reply(reply, id)?;
        let b = has_tool(&tools, name);
        proof {
            lemma_models(tools@);
            if b {
                let i = choose|i: int| 0 <= i < tools@.len() && tool_named(model(#[trigger] tools@[i]), name@);
                assert(models(tools@)[i] == model(tools@[i]));
            } else {
                assert forall|i: int| 0 <= i < models(tools@).len() implies !tool_named(
                    #[trigger] models(tools@)[i],
                    name@,
                ) by {
                    assert(models(tools@)[i] == model(tools@[i]));
                }
            }
        }
        Ok(b)
    }

    /// The `tools/call` request for `name` with `arguments`.
    pub fn tools_call(&mut self, name: &str, arguments: JsonValue) -> (r: (u64, JsonValue))
        requires
            old(self).upcoming() < u64::MAX,
        ensures
            r.0 == old(self).upcoming(),
            final(self).upcoming() == old(self).upcoming() + 1,
            model(r.1) == spec_request(r.0, "tools/call"@, spec_call_params(name@, model(arguments))),
    {
        self.request("tools/call", tools_call_params(name, arguments))
    }

    /// Reads the reply to `tools/call`: its `content`, or the whole answer
    /// when it has none.
    pub fn tools_call_reply(reply: &JsonValue, id: u64) -> (r: Result<JsonValue, McpError>)
        ensures
            match reply_result(model(*reply), id) {
                Some(res) => (r matches Ok(v) && model(v) == match res.get("content"@) {
                    Some(c) => c,
                    None => res,
                }),
                None => fails_as_reply(model(*reply), id, r),
            },
    {
        let result = check_response(reply, id)?;
        Ok(call_content(result))
    }
}

/// The request built for id `id` carries that id, so a reply that echoes the
/// request's id is never taken for a mismatch.
pub proof fn lemma_echoed_id_matches(id: u64, method: Seq<char>, params: Json, reply: Json)
    requires
        reply.get("id"@) == spec_request(id, method, params).get("id"@),
    ensures
        !id_mismatch(reply, id),
{
    let m2 = Seq::empty().push(("jsonrpc"@, Json::Str("2.0"@))).push(("id"@, json_u64(id)));
    let m3 = m2.push(("method"@, Json::Str(method)));
    let m4 = m3.push(("params"@, params));
    assert(m4 =~= seq![
        ("jsonrpc"@, Json::Str("2.0"@)),
        ("id"@, json_u64(id)),
        ("method"@, Json::Str(method)),
        ("params"@, params),
    ]);
    reveal_strlit("params");
    reveal_strlit("method");
    reveal_strlit("id");
    assert("params"@.len() != "id"@.len());
    assert("method"@.len() != "id"@.len());
    assert(m4.drop_last() =~= m3);
    assert(m3.drop_last() =~= m2);
    assert(lookup(m2, "id"@) == Some(json_u64(id)));
    assert(lookup(m3, "id"@) == Some(json_u64(id)));
    assert(lookup(m4, "id"@) == Some(json_u64(id)));
}

} // verus!
