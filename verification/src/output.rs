//! The output envelope. Every command emits one document:
//!   success: `{"ok": true, "data": <value>}`
//!   error:   `{"ok": false, "error": {...}, "exit_code": <int>}`
use vstd::prelude::*;
use crate::json_text::{compact_text, json_compact, json_pretty, pretty_text};
use crate::mcp::transport::frame_line;
use crate::json::{json_str, lookup, lemma_member_models, member, member_models, model, Json, JsonValue};

verus! {

/// The kind of an error, as the envelope names it.
#[derive(Debug, Clone, Copy, PartialEq, Eq, Structural)]
pub enum ErrorKind {
    Tool,
    Transport,
    Usage,
}

/// The name of an error kind in the envelope.
pub open spec fn kind_name(k: ErrorKind) -> Seq<char> {
    match k {
        ErrorKind::Tool => "tool"@,
        ErrorKind::Transport => "transport"@,
        ErrorKind::Usage => "usage"@,
    }
}

impl ErrorKind {
    /// The name of the kind in the envelope: `tool`, `transport` or `usage`.
    pub fn as_str(&self) -> (r: &'static str)
        ensures
            r@ == kind_name(*self),
    {
        match self {
            ErrorKind::Tool => "tool",
            ErrorKind::Transport => "transport",
            ErrorKind::Usage => "usage",
        }
    }
}

/// A successful result.
pub struct SuccessEnvelope {
    pub ok: bool,
    pub data: JsonValue,
}

/// The details of a failure.
pub struct ErrorDetail {
    pub kind: ErrorKind,
    pub code: i64,
    pub message: String,
    pub data: JsonValue,
}

/// A failed result.
pub struct ErrorEnvelope {
    pub ok: bool,
    pub error: ErrorDetail,
    pub exit_code: i32,
}

/// The document of a success envelope.
pub open spec fn spec_success(data: Json) -> Json {
    Json::Object(seq![("ok"@, Json::Bool(true)), ("data"@, data)])
}

/// The document of an error envelope.
pub open spec fn spec_error(
    kind: ErrorKind,
    code: i64,
    message: Seq<char>,
    data: Json,
    exit_code: i32,
) -> Json {
    Json::Object(
        seq![
            ("ok"@, Json::Bool(false)),
            (
                "error"@,
                Json::Object(
                    seq![
                        ("kind"@, Json::Str(kind_name(kind))),
                        ("code"@, Json::Int(code as int)),
                        ("message"@, Json::Str(message)),
                        ("data"@, data),
                    ],
                ),
            ),
            ("exit_code"@, Json::Int(exit_code as int)),
        ],
    )
}

impl SuccessEnvelope {
    /// The document of the envelope, members in declaration order.
    pub fn to_json(self) -> (r: JsonValue)
        ensures
            model(r) == Json::Object(
                seq![("ok"@, Json::Bool(self.ok)), ("data"@, model(self.data))],
            ),
    {
        let ghost d = model(self.data);
        let ok = self.ok;
        let mut m: Vec<(String, JsonValue)> = Vec::new();
        m.push(member("ok", JsonValue::Bool(ok)));
        m.push(member("data", self.data));
        proof {
            lemma_member_models(m@);
        }
        assert(member_models(m@) =~= seq![("ok"@, Json::Bool(ok)), ("data"@, d)]);
        JsonValue::Object(m)
    }
}

impl ErrorEnvelope {
    /// The document of the envelope, members in declaration order.
    pub fn to_json(self) -> (r: JsonValue)
        ensures
            model(r) == {
                let e = self.error;
                Json::Object(
                    seq![
                        ("ok"@, Json::Bool(self.ok)),
                        (
                            "error"@,
                            Json::Object(
                                seq![
                                    ("kind"@, Json::Str(kind_name(e.kind))),
                                    ("code"@, Json::Int(e.code as int)),
                                    ("message"@, Json::Str(e.message@)),
                                    ("data"@, model(e.data)),
                                ],
                            ),
                        ),
                        ("exit_code"@, Json::Int(self.exit_code as int)),
                    ],
                )
            },
    {
        let ErrorEnvelope { ok, error, exit_code } = self;
        let ErrorDetail { kind, code, message, data } = error;
        let ghost dm = model(data);
        let ghost mm = message@;
        let mut d: Vec<(String, JsonValue)> = Vec::new();
        d.push(member("kind", json_str(kind.as_str())));
        d.push(member("code", JsonValue::Int(code)));
        d.push(member("message", JsonValue::Str(message)));
        d.push(member("data", data));
        proof {
            lemma_member_models(d@);
        }
        let ghost dmodels = member_models(d@);
        assert(dmodels =~= seq![
            ("kind"@, Json::Str(kind_name(kind))),
            ("code"@, Json::Int(code as int)),
            ("message"@, Json::Str(mm)),
            ("data"@, dm),
        ]);
        let mut m: Vec<(String, JsonValue)> = Vec::new();
        m.push(member("ok", JsonValue::Bool(ok)));
        m.push(member("error", JsonValue::Object(d)));
        m.push(member("exit_code", JsonValue::Int(exit_code as i64)));
        proof {
            lemma_member_models(m@);
        }
        assert(member_models(m@) =~= seq![
            ("ok"@, Json::Bool(ok)),
            ("error"@, Json::Object(dmodels)),
            ("exit_code"@, Json::Int(exit_code as int)),
        ]);
        JsonValue::Object(m)
    }
}

/// The envelope printed for a successful command.
pub fn success_envelope(data: JsonValue) -> (r: JsonValue)
    ensures
        model(r) == spec_success(model(data)),
{
    SuccessEnvelope { ok: true, data }.to_json()
}

/// The envelope printed for a failed command.
pub fn error_envelope(
    kind: ErrorKind,
    code: i64,
    message: String,
    data: JsonValue,
    exit_code: i32,
) -> (r: JsonValue)
    ensures
        model(r) == spec_error(kind, code, message@, model(data), exit_code),
{
    ErrorEnvelope { ok: false, error: ErrorDetail { kind, code, message, data }, exit_code }.to_json()
}


/// What is printed for a document: serde_json's single-line text with
/// `--compact`, its indented text otherwise, and a line feed.
pub open spec fn printed(j: Json, compact: bool) -> Seq<char> {
    (if compact {
        json_compact(j)
    } else {
        json_pretty(j)
    }) + seq!['\n']
}

/// The text printed for an envelope; with `--compact` it is a single line.
pub fn output_text(envelope: &JsonValue, compact: bool) -> (r: String)
    ensures
        r@ == printed(model(*envelope), compact),
        compact ==> r@.last() == '\n' && !r@.drop_last().contains('\n'),
{
    let text = if compact {
        compact_text(envelope)
    } else {
        pretty_text(envelope)
    };
    let ghost t = text@;
    let r = frame_line(text);
    assert(r@.drop_last() =~= t);
    r
}

/// A success envelope says `ok: true` and carries the data; an error
/// envelope says `ok: false` and carries the exit code; neither carries the
/// other's members.
pub proof fn lemma_envelopes_distinct(
    data: Json,
    kind: ErrorKind,
    code: i64,
    message: Seq<char>,
    edata: Json,
    exit_code: i32,
)
    ensures
        spec_success(data).get("ok"@) == Some(Json::Bool(true)),
        spec_success(data).get("data"@) == Some(data),
        spec_success(data).get("error"@) is None,
        spec_error(kind, code, message, edata, exit_code).get("ok"@) == Some(Json::Bool(false)),
        spec_error(kind, code, message, edata, exit_code).get("exit_code"@) == Some(
            Json::Int(exit_code as int),
        ),
        spec_error(kind, code, message, edata, exit_code).get("data"@) is None,
{
    reveal_strlit("ok");
    reveal_strlit("data");
    reveal_strlit("error");
    reveal_strlit("exit_code");
    let s2 = Seq::empty().push(("ok"@, Json::Bool(true))).push(("data"@, data));
    assert(s2 =~= seq![("ok"@, Json::Bool(true)), ("data"@, data)]);
    assert(s2.drop_last() =~= seq![("ok"@, Json::Bool(true))]);
    assert(seq![("ok"@, Json::Bool(true))].drop_last() =~= Seq::<(Seq<char>, Json)>::empty());
    assert("data"@.len() != "ok"@.len());
    assert("data"@.len() != "error"@.len());
    assert("ok"@.len() != "error"@.len());
    let s1 = seq![("ok"@, Json::Bool(true))];
    assert(lookup(s1.drop_last(), "error"@) is None);
    assert(lookup(s1, "ok"@) == Some(Json::Bool(true)));
    assert(lookup(s1, "error"@) is None);
    assert(lookup(s2, "ok"@) == Some(Json::Bool(true)));
    assert(lookup(s2, "error"@) is None);
    let detail = Json::Object(
        seq![
            ("kind"@, Json::Str(kind_name(kind))),
            ("code"@, Json::Int(code as int)),
            ("message"@, Json::Str(message)),
            ("data"@, edata),
        ],
    );
    let e3 = Seq::empty().push(("ok"@, Json::Bool(false))).push(("error"@, detail)).push(
        ("exit_code"@, Json::Int(exit_code as int)),
    );
    assert(e3 =~= seq![
        ("ok"@, Json::Bool(false)),
        ("error"@, detail),
        ("exit_code"@, Json::Int(exit_code as int)),
    ]);
    assert(e3.drop_last() =~= Seq::empty().push(("ok"@, Json::Bool(false))).push(("error"@, detail)));
    assert(e3.drop_last().drop_last() =~= seq![("ok"@, Json::Bool(false))]);
    assert(seq![("ok"@, Json::Bool(false))].drop_last() =~= Seq::<(Seq<char>, Json)>::empty());
    assert("exit_code"@.len() != "ok"@.len());
    assert("exit_code"@.len() != "data"@.len());
    assert("ok"@.len() != "data"@.len());
    assert("error"@.len() != "data"@.len());
    let f1 = seq![("ok"@, Json::Bool(false))];
    let f2 = Seq::empty().push(("ok"@, Json::Bool(false))).push(("error"@, detail));
    assert(lookup(f1.drop_last(), "data"@) is None);
    assert(lookup(f1, "ok"@) == Some(Json::Bool(false)));
    assert(lookup(f1, "data"@) is None);
    assert(f2.drop_last() =~= f1);
    assert(lookup(f2, "ok"@) == Some(Json::Bool(false)));
    assert(lookup(f2, "data"@) is None);
    assert(lookup(e3, "ok"@) == Some(Json::Bool(false)));
    assert(lookup(e3, "data"@) is None);
}

} // verus!
