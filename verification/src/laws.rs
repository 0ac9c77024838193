//! What the tool calls carry, stated member by member: each law says which
//! member a command sends, and with which value, for every input.
use vstd::prelude::*;
use crate::cli::{ClockKind, EditKind, QueryArgs, QueryKind};
use crate::dispatch::{follows_exit_table, spec_clock, spec_edit, spec_query, spec_todo_state, spec_todo_add, Failure};
use crate::contract::{registry_docs, registry_paths, standard_exits};
use crate::json::{lookup, Json};
use crate::uri::bare;

verus! {

/// The string member sent for an optional value: present exactly when the
/// value is given.
pub open spec fn sent(v: Option<String>) -> Option<Json> {
    match v {
        Some(s) => Some(Json::Str(s@)),
        None => None,
    }
}

/// The identifier member sent for an optional identifier: present exactly
/// when it is given, without its `org://` prefix.
pub open spec fn sent_bare(v: Option<String>) -> Option<Json> {
    match v {
        Some(s) => Some(Json::Str(bare(s@))),
        None => None,
    }
}

proof fn lemma_lookup_unique(ms: Seq<(Seq<char>, Json)>, i: int, key: Seq<char>)
    requires
        0 <= i < ms.len(),
        ms[i].0 == key,
        forall|j: int| 0 <= j < ms.len() && j != i ==> ms[j].0 != key,
    ensures
        lookup(ms, key) == Some(ms[i].1),
    decreases ms.len(),
{
    if i < ms.len() - 1 {
        lemma_lookup_unique(ms.drop_last(), i, key);
    }
}

proof fn lemma_lookup_none(ms: Seq<(Seq<char>, Json)>, key: Seq<char>)
    requires
        forall|j: int| 0 <= j < ms.len() ==> ms[j].0 != key,
    ensures
        lookup(ms, key) is None,
    decreases ms.len(),
{
    if ms.len() > 0 {
        lemma_lookup_none(ms.drop_last(), key);
    }
}

proof fn lemma_lookup_concat(a: Seq<(Seq<char>, Json)>, b: Seq<(Seq<char>, Json)>, key: Seq<char>)
    ensures
        lookup(a + b, key) == match lookup(b, key) {
            Some(x) => Some(x),
            None => lookup(a, key),
        },
    decreases b.len(),
{
    if b.len() == 0 {
        assert(a + b =~= a);
    } else {
        assert((a + b).drop_last() =~= a + b.drop_last());
        assert((a + b).last() == b.last());
        lemma_lookup_concat(a, b.drop_last(), key);
    }
}

proof fn lemma_lookup_one(k: Seq<char>, v: Json, key: Seq<char>)
    ensures
        lookup(seq![(k, v)], key) == (if k == key {
            Some(v)
        } else {
            None
        }),
{
    let s = seq![(k, v)];
    assert(s.len() == 1);
    assert(s.last() == (k, v));
    assert(s.drop_last() =~= Seq::<(Seq<char>, Json)>::empty());
    assert(lookup(s.drop_last(), key) is None);
}

proof fn lemma_lookup_opt(k: Seq<char>, v: Option<String>, key: Seq<char>)
    ensures
        lookup(crate::dispatch::opt_str(k, v), key) == (if k == key {
            sent(v)
        } else {
            None
        }),
        lookup(crate::dispatch::opt_bare(k, v), key) == (if k == key {
            sent_bare(v)
        } else {
            None
        }),
{
    match v {
        Some(s) => {
            lemma_lookup_one(k, Json::Str(s@), key);
            lemma_lookup_one(k, Json::Str(bare(s@)), key);
        },
        None => {},
    }
}

/// A GTD query (`inbox`, `next`, `backlog`) is gated on the server listing
/// its tool, calls that tool, and sends `--tag` as the member `tag` exactly
/// when it is given; nothing else is sent.
pub proof fn law_gtd_query_sends_tag(a: QueryArgs)
    requires
        a.kind matches Some(k) && !(k is Run),
    ensures
        spec_query(a) matches Ok(c) && c.gated && c.tool == (match a.kind {
            Some(QueryKind::Inbox) => "query-inbox"@,
            Some(QueryKind::Next { .. }) => "query-next"@,
            _ => "query-backlog"@,
        }) && c.arguments.get("tag"@) == (match a.kind {
            Some(QueryKind::Next { tag }) => sent(tag),
            Some(QueryKind::Backlog { tag }) => sent(tag),
            _ => None,
        }) && (c.arguments matches Json::Object(ms) && forall|i: int|
            0 <= i < ms.len() ==> ms[i].0 == "tag"@),
{
    match a.kind {
        Some(QueryKind::Next { tag }) => {
            lemma_lookup_opt("tag"@, tag, "tag"@);
        },
        Some(QueryKind::Backlog { tag }) => {
            lemma_lookup_opt("tag"@, tag, "tag"@);
        },
        _ => {},
    }
}

/// `todo state` sends the bare identifier and the new state, `--from` as
/// `from` exactly when given and `--note` as `note` exactly when given,
/// each whatever the other is.
pub proof fn law_todo_state_members(
    uri: String,
    new_state: String,
    from: Option<String>,
    note: Option<String>,
)
    ensures
        ({
            let c = spec_todo_state(uri@, new_state@, from, note);
            &&& c.tool == "org-update-todo-state"@
            &&& c.arguments.get("uri"@) == Some(Json::Str(bare(uri@)))
            &&& c.arguments.get("new_state"@) == Some(Json::Str(new_state@))
            &&& c.arguments.get("from"@) == sent(from)
            &&& c.arguments.get("note"@) == sent(note)
        }),
{
    let base = seq![("uri"@, Json::Str(bare(uri@))), ("new_state"@, Json::Str(new_state@))];
    let f = crate::dispatch::opt_str("from"@, from);
    let n = crate::dispatch::opt_str("note"@, note);
    let c = spec_todo_state(uri@, new_state@, from, note);
    assert(c.arguments == Json::Object(base + f + n));
    reveal_strlit("uri");
    reveal_strlit("new_state");
    reveal_strlit("from");
    reveal_strlit("note");
    assert("from"@[0] != "note"@[0]);
    assert("uri"@.len() == 3 && "new_state"@.len() == 9 && "from"@.len() == 4 && "note"@.len() == 4);
    assert(base[0].0 == "uri"@ && base[1].0 == "new_state"@ && base.len() == 2);
    let keys = seq!["uri"@, "new_state"@, "from"@, "note"@];
    assert forall|key: Seq<char>| #[trigger] keys.contains(key) implies lookup(base + f + n, key)
        == (if key == "uri"@ {
        Some(Json::Str(bare(uri@)))
    } else if key == "new_state"@ {
        Some(Json::Str(new_state@))
    } else if key == "from"@ {
        sent(from)
    } else {
        sent(note)
    }) by {
        lemma_lookup_concat(base + f, n, key);
        lemma_lookup_concat(base, f, key);
        lemma_lookup_opt("from"@, from, key);
        lemma_lookup_opt("note"@, note, key);
        if key == "uri"@ {
            lemma_lookup_unique(base, 0, key);
        } else if key == "new_state"@ {
            lemma_lookup_unique(base, 1, key);
        } else {
            lemma_lookup_none(base, key);
        }
    }
    assert(keys.contains("uri"@) && keys[0] == "uri"@);
    assert(keys[1] == "new_state"@ && keys.contains("new_state"@));
    assert(keys[2] == "from"@ && keys.contains("from"@));
    assert(keys[3] == "note"@ && keys.contains("note"@));
}


/// The node a command edits: the member that names it (`resource_uri` for
/// the body, `uri` otherwise) and the identifier the user gave.
pub open spec fn edited_node(k: EditKind) -> (Seq<char>, Seq<char>) {
    match k {
        EditKind::Rename { uri, .. } => ("uri"@, uri@),
        EditKind::Body { uri, .. } => ("resource_uri"@, uri@),
        EditKind::Properties { uri, .. } => ("uri"@, uri@),
        EditKind::Tags { uri, .. } => ("uri"@, uri@),
        EditKind::Priority { uri, .. } => ("uri"@, uri@),
        EditKind::Scheduled { uri, .. } => ("uri"@, uri@),
        EditKind::Deadline { uri, .. } => ("uri"@, uri@),
        EditKind::LogNote { uri, .. } => ("uri"@, uri@),
    }
}

/// A value that clears when absent: the string, or null.
pub open spec fn or_null(v: Option<String>) -> Json {
    match v {
        Some(s) => Json::Str(s@),
        None => Json::Null,
    }
}

/// Every `edit` command but a malformed `properties` one builds a call, and
/// that call names the node by its bare identifier: `org://` followed by an
/// id sends the id. The priority and the dates are sent as given, and as
/// null, which clears them, when absent.
pub proof fn law_edit_sends_bare_node(k: EditKind)
    ensures
        !(k is Properties) ==> spec_edit(k) is Ok,
        spec_edit(k) matches Ok(c) ==> c.arguments.get(edited_node(k).0) == Some(
            Json::Str(bare(edited_node(k).1)),
        ),
        spec_edit(k) matches Ok(c) ==> match k {
            EditKind::Priority { priority, .. } => c.arguments.get("priority"@) == Some(or_null(priority)),
            EditKind::Scheduled { date, .. } => c.arguments.get("date"@) == Some(or_null(date)),
            EditKind::Deadline { date, .. } => c.arguments.get("date"@) == Some(or_null(date)),
            _ => true,
        },
{
    reveal_strlit("uri");
    reveal_strlit("resource_uri");
    reveal_strlit("from");
    reveal_strlit("to");
    reveal_strlit("new_body");
    reveal_strlit("old_body");
    reveal_strlit("append");
    reveal_strlit("set");
    reveal_strlit("unset");
    reveal_strlit("tags");
    reveal_strlit("priority");
    reveal_strlit("date");
    reveal_strlit("note");
    assert("uri"@[0] != "set"@[0]);
    match k {
        EditKind::Rename { uri, from, to } => {
            let c = spec_edit(k)->Ok_0;
            let ms = c.arguments->Object_0;
            assert(ms[0].0 == "uri"@ && ms[1].0 == "from"@ && ms[2].0 == "to"@ && ms.len() == 3);
            lemma_lookup_unique(ms, 0, "uri"@);
        },
        EditKind::Body { uri, new, old, append } => {
            let a = seq![("resource_uri"@, Json::Str(bare(uri@))), ("new_body"@, Json::Str(new@))];
            let o = crate::dispatch::opt_str("old_body"@, old);
            let b = seq![("append"@, Json::Bool(append))];
            assert(spec_edit(k)->Ok_0.arguments == Json::Object(a + o + b));
            assert(a[0].0 == "resource_uri"@ && a[1].0 == "new_body"@ && a.len() == 2);
            lemma_lookup_concat(a + o, b, "resource_uri"@);
            lemma_lookup_one("append"@, Json::Bool(append), "resource_uri"@);
            lemma_lookup_concat(a, o, "resource_uri"@);
            lemma_lookup_opt("old_body"@, old, "resource_uri"@);
            lemma_lookup_unique(a, 0, "resource_uri"@);
        },
        EditKind::Properties { uri, sets, unsets } => {
            if let Ok(c) = spec_edit(k) {
                let ms = c.arguments->Object_0;
                assert(ms[0] == ("uri"@, Json::Str(bare(uri@))) && ms[1].0 == "set"@ && ms[2].0 == "unset"@
                    && ms.len() == 3);
                lemma_lookup_unique(ms, 0, "uri"@);
            }
        },
        EditKind::Tags { uri, tags } => {
            let c = spec_edit(k)->Ok_0;
            let ms = c.arguments->Object_0;
            assert(ms[0].0 == "uri"@ && ms[1].0 == "tags"@ && ms.len() == 2);
            lemma_lookup_unique(ms, 0, "uri"@);
        },
        EditKind::Priority { uri, priority } => {
            let c = spec_edit(k)->Ok_0;
            let ms = c.arguments->Object_0;
            assert(ms[0].0 == "uri"@ && ms[1].0 == "priority"@ && ms.len() == 2);
            lemma_lookup_unique(ms, 0, "uri"@);
            lemma_lookup_unique(ms, 1, "priority"@);
        },
        EditKind::Scheduled { uri, date } => {
            let c = spec_edit(k)->Ok_0;
            let ms = c.arguments->Object_0;
            assert(ms[0].0 == "uri"@ && ms[1].0 == "date"@ && ms.len() == 2);
            lemma_lookup_unique(ms, 0, "uri"@);
            lemma_lookup_unique(ms, 1, "date"@);
        },
        EditKind::Deadline { uri, date } => {
            let c = spec_edit(k)->Ok_0;
            let ms = c.arguments->Object_0;
            assert(ms[0].0 == "uri"@ && ms[1].0 == "date"@ && ms.len() == 2);
            lemma_lookup_unique(ms, 0, "uri"@);
            lemma_lookup_unique(ms, 1, "date"@);
        },
        EditKind::LogNote { uri, note } => {
            let c = spec_edit(k)->Ok_0;
            let ms = c.arguments->Object_0;
            assert(ms[0].0 == "uri"@ && ms[1].0 == "note"@ && ms.len() == 2);
            lemma_lookup_unique(ms, 0, "uri"@);
        },
    }
}

/// Every `clock` command that names a node sends its bare identifier:
/// `org://` followed by an id sends the id. `clock out` sends the node only
/// when given; `--resolve` goes as the string "true" or "false"; the
/// clock-in time goes as `start_time` and the clock-out time as `at`, each
/// only when given.
pub proof fn law_clock_sends_bare_node(k: ClockKind)
    ensures
        ({
            let args = spec_clock(k).arguments;
            match k {
                ClockKind::In { uri, at, resolve } => {
                    &&& args.get("uri"@) == Some(Json::Str(bare(uri@)))
                    &&& args.get("resolve"@) == Some(Json::Str(if resolve {
                        "true"@
                    } else {
                        "false"@
                    }))
                    &&& args.get("start_time"@) == sent(at)
                },
                ClockKind::Out { uri, at } => {
                    &&& args.get("uri"@) == sent_bare(uri)
                    &&& args.get("at"@) == sent(at)
                },
                ClockKind::Add { uri, start, end } => {
                    &&& args.get("uri"@) == Some(Json::Str(bare(uri@)))
                    &&& args.get("start"@) == Some(Json::Str(start@))
                    &&& args.get("end"@) == Some(Json::Str(end@))
                },
                ClockKind::Delete { uri, at } => {
                    &&& args.get("uri"@) == Some(Json::Str(bare(uri@)))
                    &&& args.get("at"@) == Some(Json::Str(at@))
                },
                _ => args == Json::Object(Seq::empty()),
            }
        }),
{
    reveal_strlit("uri");
    reveal_strlit("resolve");
    reveal_strlit("start_time");
    reveal_strlit("at");
    reveal_strlit("start");
    reveal_strlit("end");
    assert("uri"@[0] != "end"@[0]);
    match k {
        ClockKind::In { uri, at, resolve } => {
            let a = seq![
                ("uri"@, Json::Str(bare(uri@))),
                ("resolve"@, Json::Str(crate::dispatch::bool_text(resolve))),
            ];
            let o = crate::dispatch::opt_str("start_time"@, at);
            assert(spec_clock(k).arguments == Json::Object(a + o));
            assert(a[0].0 == "uri"@ && a[1].0 == "resolve"@ && a.len() == 2);
            lemma_lookup_concat(a, o, "uri"@);
            lemma_lookup_concat(a, o, "resolve"@);
            lemma_lookup_concat(a, o, "start_time"@);
            lemma_lookup_opt("start_time"@, at, "uri"@);
            lemma_lookup_opt("start_time"@, at, "resolve"@);
            lemma_lookup_opt("start_time"@, at, "start_time"@);
            lemma_lookup_unique(a, 0, "uri"@);
            lemma_lookup_unique(a, 1, "resolve"@);
            lemma_lookup_none(a, "start_time"@);
            assert(lookup(a + o, "uri"@) == Some(Json::Str(bare(uri@))));
            assert(lookup(a + o, "resolve"@) == Some(Json::Str(crate::dispatch::bool_text(resolve))));
            assert(lookup(a + o, "start_time"@) == sent(at));
        },
        ClockKind::Out { uri, at } => {
            let a = crate::dispatch::opt_bare("uri"@, uri);
            let o = crate::dispatch::opt_str("at"@, at);
            assert(spec_clock(k).arguments == Json::Object(a + o));
            lemma_lookup_concat(a, o, "uri"@);
            lemma_lookup_concat(a, o, "at"@);
            lemma_lookup_opt("at"@, at, "uri"@);
            lemma_lookup_opt("at"@, at, "at"@);
            lemma_lookup_opt("uri"@, uri, "uri"@);
            lemma_lookup_opt("uri"@, uri, "at"@);
        },
        ClockKind::Add { uri, start, end } => {
            let ms = spec_clock(k).arguments->Object_0;
            assert(ms[0].0 == "uri"@ && ms[1].0 == "start"@ && ms[2].0 == "end"@ && ms.len() == 3);
            lemma_lookup_unique(ms, 0, "uri"@);
            lemma_lookup_unique(ms, 1, "start"@);
            lemma_lookup_unique(ms, 2, "end"@);
        },
        ClockKind::Delete { uri, at } => {
            let ms = spec_clock(k).arguments->Object_0;
            assert(ms[0].0 == "uri"@ && ms[1].0 == "at"@ && ms.len() == 2);
            lemma_lookup_unique(ms, 0, "uri"@);
            lemma_lookup_unique(ms, 1, "at"@);
        },
        _ => {},
    }
}


/// The exit codes a command's schema documents.
pub open spec fn documented_exits(k: int) -> Seq<Json> {
    match registry_docs()[k].get("exit_codes"@) {
        Some(Json::Array(codes)) => codes,
        _ => Seq::empty(),
    }
}

/// Whether a command's schema documents exit code `code`.
pub open spec fn documents_exit(k: int, code: int) -> bool {
    exists|i: int| 0 <= i < documented_exits(k).len() && #[trigger] documented_exits(k)[i].get("code"@) == Some(Json::Int(code))
}

proof fn lemma_exits_listed(codes: Seq<Json>, i: int, code: int, meaning: Seq<char>)
    requires
        0 <= i < codes.len(),
        codes[i] == crate::contract::exit_doc(code, meaning),
    ensures
        exists|j: int| 0 <= j < codes.len() && #[trigger] codes[j].get("code"@) == Some(Json::Int(code)),
{
    let ms = codes[i]->Object_0;
    reveal_strlit("code");
    reveal_strlit("meaning");
    assert(ms[0].0 == "code"@ && ms[1].0 == "meaning"@ && ms.len() == 2);
    lemma_lookup_unique(ms, 0, "code"@);
    assert(codes[i].get("code"@) == Some(Json::Int(code)));
}

#[verifier::rlimit(50)]
proof fn lemma_doc_exits(k: int)
    requires
        0 <= k < 33,
    ensures
        documented_exits(k) == (if k >= 31 {
            crate::contract::internal_exits()
        } else {
            standard_exits()
        }),
{
    if k == 0 {
        assert(registry_docs()[0] == crate::contract::doc_read()) by {
            reveal(registry_docs);
        }
        assert(crate::contract::doc_read().get("exit_codes"@) == Some(Json::Array(standard_exits()))) by {
            reveal(crate::contract::doc_read);
            reveal_strlit("exit_codes");
        }
    } else if k == 1 {
        assert(registry_docs()[1] == crate::contract::doc_read_headline()) by {
            reveal(registry_docs);
        }
        assert(crate::contract::doc_read_headline().get("exit_codes"@) == Some(Json::Array(standard_exits()))) by {
            reveal(crate::contract::doc_read_headline);
            reveal_strlit("exit_codes");
        }
    } else if k == 2 {
        assert(registry_docs()[2] == crate::contract::doc_outline()) by {
            reveal(registry_docs);
        }
        assert(crate::contract::doc_outline().get("exit_codes"@) == Some(Json::Array(standard_exits()))) by {
            reveal(crate::contract::doc_outline);
            reveal_strlit("exit_codes");
        }
    } else if k == 3 {
        assert(registry_docs()[3] == crate::contract::doc_query()) by {
            reveal(registry_docs);
        }
        assert(crate::contract::doc_query().get("exit_codes"@) == Some(Json::Array(standard_exits()))) by {
            reveal(crate::contract::doc_query);
            reveal_strlit("exit_codes");
        }
    } else if k == 4 {
        assert(registry_docs()[4] == crate::contract::doc_query_inbox()) by {
            reveal(registry_docs);
        }
        assert(crate::contract::doc_query_inbox().get("exit_codes"@) == Some(Json::Array(standard_exits()))) by {
            reveal(crate::contract::doc_query_inbox);
            reveal_strlit("exit_codes");
        }
    } else if k == 5 {
        assert(registry_docs()[5] == crate::contract::doc_query_next()) by {
            reveal(registry_docs);
        }
        assert(crate::contract::doc_query_next().get("exit_codes"@) == Some(Json::Array(standard_exits()))) by {
            reveal(crate::contract::doc_query_next);
            reveal_strlit("exit_codes");
        }
    } else if k == 6 {
        assert(registry_docs()[6] == crate::contract::doc_query_backlog()) by {
            reveal(registry_docs);
        }
        assert(crate::contract::doc_query_backlog().get("exit_codes"@) == Some(Json::Array(standard_exits()))) by {
            reveal(crate::contract::doc_query_backlog);
            reveal_strlit("exit_codes");
        }
    } else if k == 7 {
        assert(registry_docs()[7] == crate::contract::doc_todo_state()) by {
            reveal(registry_docs);
        }
        assert(crate::contract::doc_todo_state().get("exit_codes"@) == Some(Json::Array(standard_exits()))) by {
            reveal(crate::contract::doc_todo_state);
            reveal_strlit("exit_codes");
        }
    } else if k == 8 {
        assert(registry_docs()[8] == crate::contract::doc_todo_add()) by {
            reveal(registry_docs);
        }
        assert(crate::contract::doc_todo_add().get("exit_codes"@) == Some(Json::Array(standard_exits()))) by {
            reveal(crate::contract::doc_todo_add);
            reveal_strlit("exit_codes");
        }
    } else if k == 9 {
        assert(registry_docs()[9] == crate::contract::doc_edit_rename()) by {
            reveal(registry_docs);
        }
        assert(crate::contract::doc_edit_rename().get("exit_codes"@) == Some(Json::Array(standard_exits()))) by {
            reveal(crate::contract::doc_edit_rename);
            reveal_strlit("exit_codes");
        }
    } else if k == 10 {
        assert(registry_docs()[10] == crate::contract::doc_edit_body()) by {
            reveal(registry_docs);
        }
        assert(crate::contract::doc_edit_body().get("exit_codes"@) == Some(Json::Array(standard_exits()))) by {
            reveal(crate::contract::doc_edit_body);
            reveal_strlit("exit_codes");
        }
    } else if k == 11 {
        assert(registry_docs()[11] == crate::contract::doc_edit_properties()) by {
            reveal(registry_docs);
        }
        assert(crate::contract::doc_edit_properties().get("exit_codes"@) == Some(Json::Array(standard_exits()))) by {
            reveal(crate::contract::doc_edit_properties);
            reveal_strlit("exit_codes");
        }
    } else if k == 12 {
        assert(registry_docs()[12] == crate::contract::doc_edit_tags()) by {
            reveal(registry_docs);
        }
        assert(crate::contract::doc_edit_tags().get("exit_codes"@) == Some(Json::Array(standard_exits()))) by {
            reveal(crate::contract::doc_edit_tags);
            reveal_strlit("exit_codes");
        }
    } else if k == 13 {
        assert(registry_docs()[13] == crate::contract::doc_edit_priority()) by {
            reveal(registry_docs);
        }
        assert(crate::contract::doc_edit_priority().get("exit_codes"@) == Some(Json::Array(standard_exits()))) by {
            reveal(crate::contract::doc_edit_priority);
            reveal_strlit("exit_codes");
        }
    } else if k == 14 {
        assert(registry_docs()[14] == crate::contract::doc_edit_scheduled()) by {
            reveal(registry_docs);
        }
        assert(crate::contract::doc_edit_scheduled().get("exit_codes"@) == Some(Json::Array(standard_exits()))) by {
            reveal(crate::contract::doc_edit_scheduled);
            reveal_strlit("exit_codes");
        }
    } else if k == 15 {
        assert(registry_docs()[15] == crate::contract::doc_edit_deadline()) by {
            reveal(registry_docs);
        }
        assert(crate::contract::doc_edit_deadline().get("exit_codes"@) == Some(Json::Array(standard_exits()))) by {
            reveal(crate::contract::doc_edit_deadline);
            reveal_strlit("exit_codes");
        }
    } else if k == 16 {
        assert(registry_docs()[16] == crate::contract::doc_edit_log_note()) by {
            reveal(registry_docs);
        }
        assert(crate::contract::doc_edit_log_note().get("exit_codes"@) == Some(Json::Array(standard_exits()))) by {
            reveal(crate::contract::doc_edit_log_note);
            reveal_strlit("exit_codes");
        }
    } else if k == 17 {
        assert(registry_docs()[17] == crate::contract::doc_clock_status()) by {
            reveal(registry_docs);
        }
        assert(crate::contract::doc_clock_status().get("exit_codes"@) == Some(Json::Array(standard_exits()))) by {
            reveal(crate::contract::doc_clock_status);
            reveal_strlit("exit_codes");
        }
    } else if k == 18 {
        assert(registry_docs()[18] == crate::contract::doc_clock_in()) by {
            reveal(registry_docs);
        }
        assert(crate::contract::doc_clock_in().get("exit_codes"@) == Some(Json::Array(standard_exits()))) by {
            reveal(crate::contract::doc_clock_in);
            reveal_strlit("exit_codes");
        }
    } else if k == 19 {
        assert(registry_docs()[19] == crate::contract::doc_clock_out()) by {
            reveal(registry_docs);
        }
        assert(crate::contract::doc_clock_out().get("exit_codes"@) == Some(Json::Array(standard_exits()))) by {
            reveal(crate::contract::doc_clock_out);
            reveal_strlit("exit_codes");
        }
    } else if k == 20 {
        assert(registry_docs()[20] == crate::contract::doc_clock_add()) by {
            reveal(registry_docs);
        }
        assert(crate::contract::doc_clock_add().get("exit_codes"@) == Some(Json::Array(standard_exits()))) by {
            reveal(crate::contract::doc_clock_add);
            reveal_strlit("exit_codes");
        }
    } else if k == 21 {
        assert(registry_docs()[21] == crate::contract::doc_clock_delete()) by {
            reveal(registry_docs);
        }
        assert(crate::contract::doc_clock_delete().get("exit_codes"@) == Some(Json::Array(standard_exits()))) by {
            reveal(crate::contract::doc_clock_delete);
            reveal_strlit("exit_codes");
        }
    } else if k == 22 {
        assert(registry_docs()[22] == crate::contract::doc_clock_dangling()) by {
            reveal(registry_docs);
        }
        assert(crate::contract::doc_clock_dangling().get("exit_codes"@) == Some(Json::Array(standard_exits()))) by {
            reveal(crate::contract::doc_clock_dangling);
            reveal_strlit("exit_codes");
        }
    } else if k == 23 {
        assert(registry_docs()[23] == crate::contract::doc_config_todo()) by {
            reveal(registry_docs);
        }
        assert(crate::contract::doc_config_todo().get("exit_codes"@) == Some(Json::Array(standard_exits()))) by {
            reveal(crate::contract::doc_config_todo);
            reveal_strlit("exit_codes");
        }
    } else if k == 24 {
        assert(registry_docs()[24] == crate::contract::doc_config_tags()) by {
            reveal(registry_docs);
        }
        assert(crate::contract::doc_config_tags().get("exit_codes"@) == Some(Json::Array(standard_exits()))) by {
            reveal(crate::contract::doc_config_tags);
            reveal_strlit("exit_codes");
        }
    } else if k == 25 {
        assert(registry_docs()[25] == crate::contract::doc_config_tag_candidates()) by {
            reveal(registry_docs);
        }
        assert(crate::contract::doc_config_tag_candidates().get("exit_codes"@) == Some(Json::Array(standard_exits()))) by {
            reveal(crate::contract::doc_config_tag_candidates);
            reveal_strlit("exit_codes");
        }
    } else if k == 26 {
        assert(registry_docs()[26] == crate::contract::doc_config_priority()) by {
            reveal(registry_docs);
        }
        assert(crate::contract::doc_config_priority().get("exit_codes"@) == Some(Json::Array(standard_exits()))) by {
            reveal(crate::contract::doc_config_priority);
            reveal_strlit("exit_codes");
        }
    } else if k == 27 {
        assert(registry_docs()[27] == crate::contract::doc_config_files()) by {
            reveal(registry_docs);
        }
        assert(crate::contract::doc_config_files().get("exit_codes"@) == Some(Json::Array(standard_exits()))) by {
            reveal(crate::contract::doc_config_files);
            reveal_strlit("exit_codes");
        }
    } else if k == 28 {
        assert(registry_docs()[28] == crate::contract::doc_config_clock()) by {
            reveal(registry_docs);
        }
        assert(crate::contract::doc_config_clock().get("exit_codes"@) == Some(Json::Array(standard_exits()))) by {
            reveal(crate::contract::doc_config_clock);
            reveal_strlit("exit_codes");
        }
    } else if k == 29 {
        assert(registry_docs()[29] == crate::contract::doc_tools_list()) by {
            reveal(registry_docs);
        }
        assert(crate::contract::doc_tools_list().get("exit_codes"@) == Some(Json::Array(standard_exits()))) by {
            reveal(crate::contract::doc_tools_list);
            reveal_strlit("exit_codes");
        }
    } else if k == 30 {
        assert(registry_docs()[30] == crate::contract::doc_tools_call()) by {
            reveal(registry_docs);
        }
        assert(crate::contract::doc_tools_call().get("exit_codes"@) == Some(Json::Array(standard_exits()))) by {
            reveal(crate::contract::doc_tools_call);
            reveal_strlit("exit_codes");
        }
    } else if k == 31 {
        assert(registry_docs()[31] == crate::contract::doc_schema()) by {
            reveal(registry_docs);
        }
        assert(crate::contract::doc_schema().get("exit_codes"@) == Some(Json::Array(crate::contract::internal_exits()))) by {
            reveal(crate::contract::doc_schema);
            reveal_strlit("exit_codes");
        }
    } else if k == 32 {
        assert(registry_docs()[32] == crate::contract::doc_schema_path()) by {
            reveal(registry_docs);
        }
        assert(crate::contract::doc_schema_path().get("exit_codes"@) == Some(Json::Array(crate::contract::internal_exits()))) by {
            reveal(crate::contract::doc_schema_path);
            reveal_strlit("exit_codes");
        }
    }
}

/// Every command documents success (0) and the usage error (2) in its
/// schema; every command that talks to the server (all but `schema`) also
/// documents every exit code a failure of it can end with: 1 for a tool
/// error, 3 for a transport failure, 4 for a failed spawn or launcher
/// search.
pub proof fn law_schema_documents_failure_exits(k: int, f: Failure)
    requires
        0 <= k < registry_docs().len(),
    ensures
        documents_exit(k, 0),
        documents_exit(k, 2),
        registry_paths()[k][0] != "schema"@ && follows_exit_table(f) ==> documents_exit(k, f.exit_code as int),
{
    assert(registry_docs().len() == 33) by {
        reveal(registry_docs);
    }
    lemma_doc_exits(k);
    let codes = documented_exits(k);
    lemma_exits_listed(codes, 0, 0, "success"@);
    if k >= 31 {
        lemma_exits_listed(codes, 1, 2, "usage / argument error"@);
    } else {
        lemma_exits_listed(codes, 2, 2, "usage / argument error"@);
        if follows_exit_table(f) {
            let c = f.exit_code as int;
            if c == 1 {
                lemma_exits_listed(codes, 1, 1, "tool error from org-mcp"@);
            } else if c == 3 {
                lemma_exits_listed(codes, 3, 3, "transport / protocol failure"@);
            } else if c == 4 {
                lemma_exits_listed(codes, 4, 4, "server spawn / discovery failure"@);
            } else {
                assert(c == 2);
            }
        }
    }
    if k >= 31 {
        assert(registry_paths()[k][0] == "schema"@) by {
            reveal(registry_paths);
        }
    }
}


/// `todo add` sends the bare parent, the title and the state, the tags
/// always (an empty list when none), the body exactly when given, and the
/// bare sibling to insert after exactly when given.
pub proof fn law_todo_add_members(
    parent: String,
    title: String,
    state: String,
    body: Option<String>,
    tags: Seq<String>,
    after: Option<String>,
)
    ensures
        ({
            let c = spec_todo_add(parent@, title@, state@, body, tags, after);
            &&& c.tool == "org-add-todo"@
            &&& c.arguments.get("parent_uri"@) == Some(Json::Str(bare(parent@)))
            &&& c.arguments.get("title"@) == Some(Json::Str(title@))
            &&& c.arguments.get("state"@) == Some(Json::Str(state@))
            &&& c.arguments.get("tags"@) == Some(
                Json::Array(Seq::new(tags.len(), |i: int| Json::Str(tags[i]@))),
            )
            &&& c.arguments.get("body"@) == sent(body)
            &&& c.arguments.get("after_uri"@) == sent_bare(after)
        }),
{
    let base = seq![
        ("parent_uri"@, Json::Str(bare(parent@))),
        ("title"@, Json::Str(title@)),
        ("state"@, Json::Str(state@)),
        ("tags"@, crate::dispatch::str_array(tags)),
    ];
    let b = crate::dispatch::opt_str("body"@, body);
    let a = crate::dispatch::opt_bare("after_uri"@, after);
    let c = spec_todo_add(parent@, title@, state@, body, tags, after);
    assert(c.arguments == Json::Object(base + b + a));
    reveal_strlit("parent_uri");
    reveal_strlit("title");
    reveal_strlit("state");
    reveal_strlit("tags");
    reveal_strlit("body");
    reveal_strlit("after_uri");
    assert("state"@[0] != "title"@[0]);
    assert("tags"@[0] != "body"@[0]);
    assert(base[0].0 == "parent_uri"@ && base[1].0 == "title"@ && base[2].0 == "state"@ && base[3].0
        == "tags"@ && base.len() == 4);
    let keys = seq!["parent_uri"@, "title"@, "state"@, "tags"@, "body"@, "after_uri"@];
    assert forall|j: int| 0 <= j < 6 implies lookup(base + b + a, #[trigger] keys[j]) == (if j < 4 {
        Some(base[j].1)
    } else if j == 4 {
        sent(body)
    } else {
        sent_bare(after)
    }) by {
        let key = keys[j];
        lemma_lookup_concat(base + b, a, key);
        lemma_lookup_concat(base, b, key);
        lemma_lookup_opt("body"@, body, key);
        lemma_lookup_opt("after_uri"@, after, key);
        if j < 4 {
            lemma_lookup_unique(base, j, key);
        } else {
            lemma_lookup_none(base, key);
        }
    }
    assert(keys[0] == "parent_uri"@ && keys[1] == "title"@ && keys[2] == "state"@ && keys[3] == "tags"@
        && keys[4] == "body"@ && keys[5] == "after_uri"@);
}

} // verus!
