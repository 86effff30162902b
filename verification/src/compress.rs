//! Compressing a long conversation: older messages become one summary.
//! Asking the model for the summary is the application's part.
use vstd::prelude::*;
use crate::text::{concat2, concat3, decimal, decimal_string, owned, str_eq};

verus! {

/// Above this many messages the history is compressed.
pub const COMPRESS_THRESHOLD: usize = 50;

/// The most recent messages kept as they are.
pub const KEEP_RECENT: usize = 20;

/// Whether a history needs compressing.
pub fn needs_compression<T>(messages: &[T]) -> (r: bool)
    ensures
        r == (messages@.len() > 50),
{
    messages.len() > COMPRESS_THRESHOLD
}

/// A message as the summary sees it: role and text (none for a tool call).
pub struct MessageText {
    pub role: String,
    pub content: Option<String>,
}

/// The part of a history to summarize: from after the first message up to
/// the kept recent ones. `None` when nothing needs summarizing.
pub open spec fn summarize_range_spec(n: nat) -> Option<(nat, nat)> {
    if n <= 50 {
        None
    } else {
        let keep_start = if n >= 20 { (n - 20) as nat } else { 0 };
        if keep_start <= 1 { None } else { Some((1, keep_start)) }
    }
}

/// Which messages to summarize, as `(start, end)`.
pub fn summarize_range(n: usize) -> (r: Option<(usize, usize)>)
    ensures
        match summarize_range_spec(n as nat) {
            Some((a, b)) => r == Some((a as usize, b as usize)),
            None => r is None,
        },
{
    if n <= COMPRESS_THRESHOLD {
        return None;
    }
    let keep_start = n - KEEP_RECENT;
    if keep_start <= 1 {
        None
    } else {
        Some((1, keep_start))
    }
}

/// One transcript entry: `[role] text`, a tool call marked as such.
pub open spec fn transcript_entry(m: MessageText) -> Seq<char> {
    "["@ + m.role@ + "] "@ + match m.content {
        Some(c) => c@,
        None => "[工具调用]"@,
    } + "\n\n"@
}

/// The transcript of messages.
pub open spec fn transcript_spec(v: Seq<MessageText>) -> Seq<char>
    decreases v.len(),
{
    if v.len() == 0 {
        Seq::empty()
    } else {
        transcript_spec(v.drop_last()) + transcript_entry(v.last())
    }
}

/// The transcript of the messages to summarize.
pub fn transcript(messages: &Vec<MessageText>) -> (r: String)
    ensures
        r@ == transcript_spec(messages@),
{
    let mut out = String::new();
    let mut i: usize = 0;
    while i < messages.len()
        invariant
            i <= messages@.len(),
            out@ == transcript_spec(messages@.take(i as int)),
        decreases messages.len() - i,
    {
        proof {
            assert(messages@.take(i + 1).drop_last() =~= messages@.take(i as int));
        }
        let m = &messages[i];
        out.append("[");
        out.append(m.role.as_str());
        out.append("] ");
        match &m.content {
            Some(c) => out.append(c.as_str()),
            None => out.append("[工具调用]"),
        }
        out.append("\n\n");
        i += 1;
    }
    proof {
        assert(messages@.take(i as int) =~= messages@);
    }
    out
}

/// The request for the summary.
pub open spec fn summary_prompt_spec(transcript: Seq<char>) -> Seq<char> {
    "请将以下对话历史压缩为简洁的中文摘要，保留：\n- 已完成的工作与改动文件\n- 关键决策与约束\n- 未解决的问题\n不超过 800 字。\n\n---\n"@
        + transcript
}

/// The request that asks the model for the summary.
pub fn summary_prompt(transcript: &str) -> (r: String)
    ensures
        r@ == summary_prompt_spec(transcript@),
{
    concat2(
        "请将以下对话历史压缩为简洁的中文摘要，保留：\n- 已完成的工作与改动文件\n- 关键决策与约束\n- 未解决的问题\n不超过 800 字。\n\n---\n",
        transcript,
    )
}

/// The system message of the summary request.
pub fn summary_system_prompt() -> (r: &'static str)
    ensures
        r@ == "你是会话摘要助手，输出简洁的中文摘要。"@,
{
    "你是会话摘要助手，输出简洁的中文摘要。"
}

/// The user message that replaces the summarized messages.
pub fn summary_message(count: usize, summary: &str) -> (r: String)
    ensures
        r@ == "[历史摘要 — 较早的 "@ + decimal(count as nat) + " 条消息已压缩]\n\n"@ + summary@,
{
    let n = decimal_string(count);
    let mut s = concat3("[历史摘要 — 较早的 ", n.as_str(), " 条消息已压缩]\n\n");
    s.append(summary);
    s
}

/// Whether the first message is kept as the system prompt.
pub fn keeps_system(first_role: Option<&str>) -> (r: bool)
    ensures
        r == (first_role matches Some(x) && x@ == "system"@),
{
    match first_role {
        Some(x) => str_eq(x, "system"),
        None => false,
    }
}

} // verus!
