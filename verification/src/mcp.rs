//! MCP servers: their configuration, the names their tools get, and how the
//! JSON-RPC replies read over their standard output are interpreted. Starting
//! the servers and the line I/O are the application's part.
use vstd::prelude::*;
use crate::permissions::manager::opt_view;
use crate::text::{concat3, join, join_seq, owned, views};

verus! {

/// An MCP server to start: its name, command, arguments and environment.
pub struct McpServerConfig {
    pub name: String,
    pub command: String,
    pub args: Vec<String>,
    pub env: std::collections::HashMap<String, String>,
}

/// The name under which a server's tool is offered: `mcp_<server>_<tool>`.
pub fn mcp_tool_name(server: &str, tool: &str) -> (r: String)
    ensures
        r@ == "mcp_"@ + server@ + "_"@ + tool@,
{
    let mut s = concat3("mcp_", server, "_");
    s.append(tool);
    s
}

/// The members of a JSON-RPC reply that matter: the numeric `id`, the
/// `error` (as JSON text) and the `result` (as JSON text, `null` where absent).
pub struct RpcReply {
    pub id: Option<u64>,
    pub error: Option<String>,
    pub result: String,
}

pub struct RpcReplyView {
    pub id: Option<u64>,
    pub error: Option<Seq<char>>,
    pub result: Seq<char>,
}

impl View for RpcReply {
    type V = RpcReplyView;

    open spec fn view(&self) -> RpcReplyView {
        RpcReplyView { id: self.id, error: opt_view(self.error), result: self.result@ }
    }
}

/// What `serde_json` reads from a reply line: `None` where it is not JSON.
pub uninterp spec fn rpc_reply_fields(line: Seq<char>) -> Option<RpcReplyView>;

/// `serde_json::from_str::<Value>`, then `id` (as `u64`), `error` and
/// `result` written back as JSON text.
#[verifier::external_body]
fn read_rpc_reply(line: &str) -> (r: Option<RpcReply>)
    ensures
        match rpc_reply_fields(line@) {
            Some(v) => r matches Some(x) && x@ == v,
            None => r is None,
        },
{
    match serde_json::from_str::<serde_json::Value>(line) {
        Ok(v) => Some(RpcReply {
            id: v.get("id").and_then(|i| i.as_u64()),
            error: v.get("error").map(|e| e.to_string()),
            result: v["result"].to_string(),
        }),
        Err(_) => None,
    }
}

/// What a reply line means for the request with id `id`.
pub enum ReplyOutcome {
    /// Another message: keep reading.
    Skip,
    /// The server answered with an error.
    Failed(String),
    /// The result, as JSON text.
    Result(String),
}

pub open spec fn reply_outcome_spec(line: Seq<char>, id: u64) -> Result<Option<Seq<char>>, Seq<char>> {
    match rpc_reply_fields(line) {
        Some(v) => if v.id == Some(id) {
            match v.error {
                Some(e) => Err("MCP 错误: "@ + e),
                None => Ok(Some(v.result)),
            }
        } else {
            Ok(None)
        },
        None => Err("解析 MCP 响应失败"@),
    }
}

/// Interprets one (trimmed, non-blank) reply line for request `id`: a line
/// that is not JSON is an error; a reply to another id is skipped.
pub fn reply_outcome(line: &str, id: u64) -> (r: ReplyOutcome)
    ensures
        match reply_outcome_spec(line@, id) {
            Ok(None) => r is Skip,
            Ok(Some(t)) => r matches ReplyOutcome::Result(x) && x@ == t,
            Err(m) => r matches ReplyOutcome::Failed(x) && x@ == m,
        },
{
    match read_rpc_reply(line) {
        Some(v) => {
            if v.id == Some(id) {
                match v.error {
                    Some(e) => ReplyOutcome::Failed(crate::text::concat2("MCP 错误: ", e.as_str())),
                    None => ReplyOutcome::Result(v.result),
                }
            } else {
                ReplyOutcome::Skip
            }
        },
        None => ReplyOutcome::Failed(owned("解析 MCP 响应失败")),
    }
}

/// The text parts of a `tools/call` result: `None` where `content` is not an
/// array; each element's `text` where it is a string.
pub uninterp spec fn call_content_texts(result: Seq<char>) -> Option<Seq<Option<Seq<char>>>>;

pub open spec fn opt_views(v: Seq<Option<String>>) -> Seq<Option<Seq<char>>> {
    v.map_values(|o: Option<String>| opt_view(o))
}

/// `serde_json::from_str::<Value>` on the result, then the `text` member of
/// each element of its `content` array.
#[verifier::external_body]
fn read_call_content(result: &str) -> (r: Option<Vec<Option<String>>>)
    ensures
        match call_content_texts(result@) {
            Some(v) => r matches Some(x) && opt_views(x@) == v,
            None => r is None,
        },
{
    let v: serde_json::Value = serde_json::from_str(result).unwrap_or(serde_json::Value::Null);
    v["content"].as_array().map(|items| {
        items.iter().map(|c| c["text"].as_str().map(String::from)).collect()
    })
}

/// The texts that are present, in order.
pub open spec fn present_texts(v: Seq<Option<Seq<char>>>) -> Seq<Seq<char>>
    decreases v.len(),
{
    if v.len() == 0 {
        Seq::empty()
    } else {
        let prev = present_texts(v.drop_last());
        match v.last() {
            Some(t) => prev.push(t),
            None => prev,
        }
    }
}

/// What a tool call answers: the texts of its content, one per line, or
/// the result itself where it has no content array.
pub fn call_result_text(result: &str) -> (r: String)
    ensures
        r@ == match call_content_texts(result@) {
            Some(v) => join_seq(present_texts(v), "\n"@),
            None => result@,
        },
{
    match read_call_content(result) {
        Some(items) => {
            let mut texts: Vec<String> = Vec::new();
            let mut i: usize = 0;
            while i < items.len()
                invariant
                    i <= items@.len(),
                    views(texts@) == present_texts(opt_views(items@).take(i as int)),
                decreases items.len() - i,
            {
                proof {
                    assert(opt_views(items@).take(i + 1).drop_last() =~= opt_views(items@).take(i as int));
                    assert(opt_views(items@).take(i + 1).last() == opt_view(items@[i as int]));
                }
                match &items[i] {
                    Some(t) => {
                        let s = owned(t.as_str());
                        proof {
                            crate::text::lemma_views_push(texts@, s);
                        }
                        texts.push(s);
                    },
                    None => {},
                }
                i += 1;
            }
            proof {
                assert(opt_views(items@).take(items@.len() as int) =~= opt_views(items@));
            }
            join(&texts, "\n")
        },
        None => owned(result),
    }
}

/// A tool as a server lists it: its name (`unknown` where missing), its
/// description (empty where missing) and its input schema as JSON text.
pub struct McpToolInfo {
    pub name: String,
    pub description: String,
    pub input_schema: String,
}

/// The tools of a `tools/list` result: name and description where they are
/// strings, and the input schema as JSON text; no tools where `tools` is not
/// an array.
pub uninterp spec fn listed_tools(result: Seq<char>) -> Seq<(Option<Seq<char>>, Option<Seq<char>>, Seq<char>)>;

pub struct ListedTool {
    pub name: Option<String>,
    pub description: Option<String>,
    pub input_schema: String,
}

pub open spec fn listed_views(v: Seq<ListedTool>) -> Seq<(Option<Seq<char>>, Option<Seq<char>>, Seq<char>)> {
    v.map_values(|t: ListedTool| (opt_view(t.name), opt_view(t.description), t.input_schema@))
}

/// `serde_json::from_str::<Value>` on the result, then each element of its
/// `tools` array: `name`, `description` and `inputSchema` written as JSON.
#[verifier::external_body]
fn read_tool_list(result: &str) -> (r: Vec<ListedTool>)
    ensures
        listed_views(r@) == listed_tools(result@),
{
    let v: serde_json::Value = serde_json::from_str(result).unwrap_or(serde_json::Value::Null);
    let items = v["tools"].as_array().cloned().unwrap_or_default();
    items.iter().map(|t| ListedTool {
        name: t["name"].as_str().map(String::from),
        description: t["description"].as_str().map(String::from),
        input_schema: t["inputSchema"].to_string(),
    }).collect()
}

pub open spec fn tool_info_spec(server: Seq<char>, t: (Option<Seq<char>>, Option<Seq<char>>, Seq<char>)) -> (Seq<char>, Seq<char>, Seq<char>) {
    let name = match t.0 { Some(n) => n, None => "unknown"@ };
    ("mcp_"@ + server + "_"@ + name, match t.1 { Some(d) => d, None => Seq::empty() }, t.2)
}

pub open spec fn info_views(v: Seq<McpToolInfo>) -> Seq<(Seq<char>, Seq<char>, Seq<char>)> {
    v.map_values(|i: McpToolInfo| (i.name@, i.description@, i.input_schema@))
}

/// The tools a server offers, named for the session.
pub fn server_tools(server: &str, result: &str) -> (r: Vec<McpToolInfo>)
    ensures
        info_views(r@) == listed_tools(result@).map_values(|t: (Option<Seq<char>>, Option<Seq<char>>, Seq<char>)| tool_info_spec(server@, t)),
{
    let listed = read_tool_list(result);
    let ghost lv = listed_views(listed@);
    let mut out: Vec<McpToolInfo> = Vec::new();
    let mut i: usize = 0;
    while i < listed.len()
        invariant
            i <= listed@.len(),
            lv == listed_views(listed@),
            lv == listed_tools(result@),
            info_views(out@) == lv.take(i as int).map_values(|t: (Option<Seq<char>>, Option<Seq<char>>, Seq<char>)| tool_info_spec(server@, t)),
        decreases listed.len() - i,
    {
        let t = &listed[i];
        let name = match &t.name {
            Some(n) => mcp_tool_name(server, n.as_str()),
            None => mcp_tool_name(server, "unknown"),
        };
        let description = match &t.description {
            Some(d) => owned(d.as_str()),
            None => String::new(),
        };
        let info = McpToolInfo { name, description, input_schema: owned(t.input_schema.as_str()) };
        proof {
            assert(lv[i as int] == (opt_view(t.name), opt_view(t.description), t.input_schema@));
            assert(info_views(out@.push(info)) =~= info_views(out@).push((info.name@, info.description@, info.input_schema@)));
            assert(lv.take(i + 1).map_values(|t: (Option<Seq<char>>, Option<Seq<char>>, Seq<char>)| tool_info_spec(server@, t))
                =~= lv.take(i as int).map_values(|t: (Option<Seq<char>>, Option<Seq<char>>, Seq<char>)| tool_info_spec(server@, t)).push(tool_info_spec(server@, lv[i as int])));
        }
        out.push(info);
        i += 1;
    }
    proof {
        assert(lv.take(listed@.len() as int) =~= lv);
    }
    out
}

} // verus!
