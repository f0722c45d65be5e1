//! Outgoing JSON documents: the engine's own value type for what it writes
//! to the process, and the builders for the documents the protocol needs.
//! Turning a built document into bytes on the pipe is the caller's work.

use vstd::prelude::*;
use crate::text::{all_ws, trimmed, trim_ws};
use crate::wire::JsonData;

verus! {

broadcast use
    vstd::std_specs::vec::axiom_vec_index_decreases,
    vstd::std_specs::vec::axiom_vec_decreases_to_view,
    vstd::seq::axiom_seq_index_decreases,
    vstd::seq::axiom_seq_subrange_decreases,
;

/// A JSON document the engine builds to send. Numbers are the unsigned
/// integers the protocol uses; nothing else is ever written.
#[derive(Debug, PartialEq, Eq)]
pub enum JsonOut {
    Null,
    Flag(bool),
    Num(u64),
    Text(String),
    List(Vec<JsonOut>),
    Table(Vec<(String, JsonOut)>),
}

/// The document a built value stands for.
pub open spec fn out_model(o: JsonOut) -> JsonData
    decreases o, 1int,
{
    match o {
        JsonOut::Null => JsonData::Null,
        JsonOut::Flag(b) => JsonData::Bool(b),
        JsonOut::Num(u) => JsonData::IntP(u),
        JsonOut::Text(s) => JsonData::Text(s@),
        JsonOut::List(items) => JsonData::List(item_models(items@)),
        JsonOut::Table(fields) => JsonData::Object(field_models(fields@)),
    }
}

pub open spec fn item_models(items: Seq<JsonOut>) -> Seq<JsonData>
    decreases items, 2int,
{
    if items.len() == 0 {
        Seq::empty()
    } else {
        seq![out_model(items[0])] + item_models(items.subrange(1, items.len() as int))
    }
}

pub open spec fn field_models(fields: Seq<(String, JsonOut)>) -> Seq<(Seq<char>, JsonData)>
    decreases fields, 2int,
{
    if fields.len() == 0 {
        Seq::empty()
    } else {
        seq![(fields[0].0@, out_model(fields[0].1))] + field_models(
            fields.subrange(1, fields.len() as int),
        )
    }
}

/// The request envelope: `jsonrpc`, the identifier, the method, the params.
pub open spec fn envelope_model(id: u64, method: Seq<char>, params: JsonData) -> JsonData {
    JsonData::Object(
        seq![
            ("jsonrpc"@, JsonData::Text("2.0"@)),
            ("id"@, JsonData::IntP(id)),
            ("method"@, JsonData::Text(method)),
            ("params"@, params),
        ],
    )
}

/// Wraps one outgoing request in its envelope.
pub fn request_envelope(id: u64, method: &str, params: JsonOut) -> (r: JsonOut)
    ensures
        out_model(r) == envelope_model(id, method@, out_model(params)),
{
    let ghost params_model = out_model(params);
    let mut fields: Vec<(String, JsonOut)> = Vec::new();
    fields.push(("jsonrpc".to_owned(), JsonOut::Text("2.0".to_owned())));
    fields.push(("id".to_owned(), JsonOut::Num(id)));
    fields.push(("method".to_owned(), JsonOut::Text(method.to_owned())));
    fields.push(("params".to_owned(), params));
    let r = JsonOut::Table(fields);
    proof {
        reveal_with_fuel(out_model, 10);
        reveal_with_fuel(field_models, 10);
        reveal_with_fuel(item_models, 5);
        assert(out_model(r) matches JsonData::Object(fs) && fs =~= envelope_model(
            id,
            method@,
            params_model,
        )->Object_0);
    }
    r
}

/// The handshake parameters: the protocol version, the client's
/// capabilities, and its identity with the given version text.
pub open spec fn initialize_params_model(client_version: Seq<char>) -> JsonData {
    JsonData::Object(
        seq![
            ("protocolVersion"@, JsonData::IntP(1)),
            (
                "clientCapabilities"@,
                JsonData::Object(
                    seq![
                        (
                            "fs"@,
                            JsonData::Object(
                                seq![
                                    ("readTextFile"@, JsonData::Bool(true)),
                                    ("writeTextFile"@, JsonData::Bool(true)),
                                ],
                            ),
                        ),
                        ("terminal"@, JsonData::Bool(true)),
                    ],
                ),
            ),
            (
                "clientInfo"@,
                JsonData::Object(
                    seq![
                        ("name"@, JsonData::Text("codex_monitor"@)),
                        ("title"@, JsonData::Text("Copilot Monitor"@)),
                        ("version"@, JsonData::Text(client_version)),
                    ],
                ),
            ),
        ],
    )
}

/// Builds the handshake parameters.
pub fn initialize_params(client_version: &str) -> (r: JsonOut)
    ensures
        out_model(r) == initialize_params_model(client_version@),
{
    let mut fs_caps: Vec<(String, JsonOut)> = Vec::new();
    fs_caps.push(("readTextFile".to_owned(), JsonOut::Flag(true)));
    fs_caps.push(("writeTextFile".to_owned(), JsonOut::Flag(true)));
    let fs_table = JsonOut::Table(fs_caps);
    proof {
        reveal_with_fuel(out_model, 10);
        reveal_with_fuel(field_models, 10);
        assert(out_model(fs_table) matches JsonData::Object(fs) && fs =~~= seq![
            ("readTextFile"@, JsonData::Bool(true)),
            ("writeTextFile"@, JsonData::Bool(true)),
        ]);
    }
    let mut caps: Vec<(String, JsonOut)> = Vec::new();
    caps.push(("fs".to_owned(), fs_table));
    caps.push(("terminal".to_owned(), JsonOut::Flag(true)));
    let mut info: Vec<(String, JsonOut)> = Vec::new();
    info.push(("name".to_owned(), JsonOut::Text("codex_monitor".to_owned())));
    info.push(("title".to_owned(), JsonOut::Text("Copilot Monitor".to_owned())));
    info.push(("version".to_owned(), JsonOut::Text(client_version.to_owned())));
    let caps_table = JsonOut::Table(caps);
    let info_table = JsonOut::Table(info);
    proof {
        reveal_with_fuel(out_model, 10);
        reveal_with_fuel(field_models, 10);
        assert(out_model(caps_table) matches JsonData::Object(fs) && fs =~~= initialize_params_model(
            client_version@,
        )->Object_0[1].1->Object_0);
        assert(out_model(info_table) matches JsonData::Object(fs) && fs =~~= initialize_params_model(
            client_version@,
        )->Object_0[2].1->Object_0);
    }
    let mut fields: Vec<(String, JsonOut)> = Vec::new();
    fields.push(("protocolVersion".to_owned(), JsonOut::Num(1)));
    fields.push(("clientCapabilities".to_owned(), caps_table));
    fields.push(("clientInfo".to_owned(), info_table));
    let r = JsonOut::Table(fields);
    proof {
        reveal_with_fuel(out_model, 10);
        reveal_with_fuel(field_models, 10);
        reveal_with_fuel(item_models, 5);
        assert(out_model(r) matches JsonData::Object(fs) && fs =~~= initialize_params_model(
            client_version@,
        )->Object_0);
    }
    r
}

/// The parameters that open a fresh conversation in the given working
/// directory, with no configured servers.
pub open spec fn session_new_params_model(cwd: Seq<char>) -> JsonData {
    JsonData::Object(
        seq![("cwd"@, JsonData::Text(cwd)), ("mcpServers"@, JsonData::List(Seq::empty()))],
    )
}

/// Builds the parameters that open a fresh conversation.
pub fn session_new_params(cwd: &str) -> (r: JsonOut)
    ensures
        out_model(r) == session_new_params_model(cwd@),
{
    let mut fields: Vec<(String, JsonOut)> = Vec::new();
    fields.push(("cwd".to_owned(), JsonOut::Text(cwd.to_owned())));
    fields.push(("mcpServers".to_owned(), JsonOut::List(Vec::new())));
    let r = JsonOut::Table(fields);
    proof {
        reveal_with_fuel(out_model, 10);
        reveal_with_fuel(field_models, 10);
        reveal_with_fuel(item_models, 5);
        assert(out_model(r) matches JsonData::Object(fs) && fs =~~= session_new_params_model(
            cwd@,
        )->Object_0);
    }
    r
}

/// The parameters of one prompt request: the thread and a single text
/// block holding the message.
pub open spec fn prompt_params_model(session_id: Seq<char>, message: Seq<char>) -> JsonData {
    JsonData::Object(
        seq![
            ("sessionId"@, JsonData::Text(session_id)),
            (
                "prompt"@,
                JsonData::List(
                    seq![
                        JsonData::Object(
                            seq![
                                ("type"@, JsonData::Text("text"@)),
                                ("text"@, JsonData::Text(message)),
                            ],
                        ),
                    ],
                ),
            ),
        ],
    )
}

/// Checks and shapes the user's message: a blank message is a usage error;
/// otherwise the prompt parameters carry the trimmed text as one block.
pub fn user_prompt_params(session_id: &str, message: &str) -> (r: Result<JsonOut, String>)
    ensures
        all_ws(message@) ==> (r matches Err(e) && e@ == "empty user message"@),
        !all_ws(message@) ==> (r matches Ok(p) && out_model(p) == prompt_params_model(
            session_id@,
            trimmed(message@),
        )),
{
    let text = trim_ws(message);
    if text.as_str().is_empty() {
        proof {
            if !all_ws(message@) {
                crate::text::lemma_ws_prefix(message@);
                crate::text::lemma_ws_suffix(message@);
                assert(trimmed(message@).len() > 0);
            }
        }
        return Err("empty user message".to_owned());
    }
    let mut block: Vec<(String, JsonOut)> = Vec::new();
    block.push(("type".to_owned(), JsonOut::Text("text".to_owned())));
    block.push(("text".to_owned(), JsonOut::Text(text)));
    let block_table = JsonOut::Table(block);
    proof {
        reveal_with_fuel(out_model, 10);
        reveal_with_fuel(field_models, 10);
        assert(out_model(block_table) matches JsonData::Object(fs) && fs =~~= seq![
            ("type"@, JsonData::Text("text"@)),
            ("text"@, JsonData::Text(trimmed(message@))),
        ]);
    }
    let mut blocks: Vec<JsonOut> = Vec::new();
    blocks.push(block_table);
    let mut fields: Vec<(String, JsonOut)> = Vec::new();
    fields.push(("sessionId".to_owned(), JsonOut::Text(session_id.to_owned())));
    fields.push(("prompt".to_owned(), JsonOut::List(blocks)));
    let r = JsonOut::Table(fields);
    proof {
        reveal_with_fuel(out_model, 10);
        reveal_with_fuel(field_models, 10);
        reveal_with_fuel(item_models, 5);
        assert(out_model(r) matches JsonData::Object(fs) && fs =~~= prompt_params_model(
            session_id@,
            trimmed(message@),
        )->Object_0);
    }
    Ok(r)
}

} // verus!
