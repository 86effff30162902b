//! A delegated sub-task: a read-only agent with a few rounds of its own.
//! Asking the model and running the tools are the application's part; these
//! functions say what the conversation holds and what each round decides.
use vstd::prelude::*;
use crate::llm::{call_views, copy_calls, message_views, AssistantMessage, ChatMessage, ChatMessageView, ToolCall, ToolCallView};
use crate::permissions::manager::opt_view;
use crate::text::{concat2, concat3, owned, str_eq};

verus! {

/// Rounds a sub-task may take.
pub const MAX_SUBAGENT_ROUNDS: u32 = 8;

/// The sub-agent's instructions for a working directory.
pub open spec fn subtask_system_spec(workdir: Seq<char>) -> Seq<char> {
    "你是 OneMini 子 Agent，专注完成单一子任务。\n工作目录: "@ + workdir
        + "\n只能使用 read/grep/glob 搜索分析，不要修改文件或执行 shell。"@
}

/// The conversation a sub-task starts with: the instructions and the task.
pub fn subtask_start(workdir: &str, prompt: &str) -> (r: Vec<ChatMessage>)
    ensures
        message_views(r@) == seq![
            ChatMessageView { role: "system"@, content: Some(subtask_system_spec(workdir@)), tool_calls: None, tool_call_id: None, name: None },
            ChatMessageView { role: "user"@, content: Some(prompt@), tool_calls: None, tool_call_id: None, name: None },
        ],
{
    let system = concat3("你是 OneMini 子 Agent，专注完成单一子任务。\n工作目录: ", workdir, "\n只能使用 read/grep/glob 搜索分析，不要修改文件或执行 shell。");
    let r = vec![ChatMessage::system(system), ChatMessage::user(owned(prompt))];
    proof {
        assert(message_views(r@) =~= seq![r@[0]@, r@[1]@]);
    }
    r
}

/// What a round of a sub-task leads to.
pub enum RoundOutcome {
    /// The model answered without tools: the sub-task's answer.
    Answer(String),
    /// The model called tools: run them and go on.
    ToolCalls(Vec<ToolCall>),
}

/// The calls of an answer (none where it has none).
pub open spec fn calls_of(a: AssistantMessage) -> Seq<ToolCallView> {
    match a.tool_calls {
        Some(v) => call_views(v@),
        None => Seq::empty(),
    }
}

/// Takes the model's answer of a round: without tool calls it is the
/// answer (its text, empty where it has none) and the conversation is left
/// as it is; with calls the answer joins the conversation and the calls are
/// to run.
pub fn after_assistant(messages: &mut Vec<ChatMessage>, assistant: AssistantMessage) -> (r: RoundOutcome)
    ensures
        calls_of(assistant).len() == 0 ==> (r matches RoundOutcome::Answer(t)
            && t@ == match opt_view(assistant.content) { Some(c) => c, None => Seq::empty() })
            && final(messages)@ == old(messages)@,
        calls_of(assistant).len() > 0 ==> (r matches RoundOutcome::ToolCalls(v) && call_views(v@) == calls_of(assistant))
            && message_views(final(messages)@) == message_views(old(messages)@).push(ChatMessageView {
                role: "assistant"@,
                content: opt_view(assistant.content),
                tool_calls: Some(calls_of(assistant)),
                tool_call_id: None,
                name: None,
            }),
{
    let ghost a = assistant;
    let calls: Vec<ToolCall> = match assistant.tool_calls {
        Some(v) => v,
        None => Vec::new(),
    };
    if calls.len() == 0 {
        return RoundOutcome::Answer(match assistant.content {
            Some(c) => c,
            None => String::new(),
        });
    }
    let copy = copy_calls(&calls);
    let msg = ChatMessage::assistant(assistant.content, Some(calls));
    proof {
        assert(message_views(messages@.push(msg)) =~= message_views(messages@).push(msg@));
    }
    messages.push(msg);
    RoundOutcome::ToolCalls(copy)
}

/// Whether the sub-agent may use a tool: only `read`, `grep` and `glob`.
pub fn readonly_tool_allowed(name: &str) -> (r: bool)
    ensures
        r == (name@ == "read"@ || name@ == "grep"@ || name@ == "glob"@),
{
    str_eq(name, "read") || str_eq(name, "grep") || str_eq(name, "glob")
}

/// The answer to a tool call the sub-agent may not make.
pub fn readonly_refusal(name: &str) -> (r: String)
    ensures
        r@ == "[子 Agent 不允许使用工具 "@ + name@ + "]"@,
{
    concat3("[子 Agent 不允许使用工具 ", name, "]")
}

/// The error when the rounds run out.
pub fn rounds_exhausted_message() -> (r: &'static str)
    ensures
        r@ == "子 Agent 超过最大轮次"@,
{
    "子 Agent 超过最大轮次"
}

/// The task handed to a sub-agent, with the extra context where there is some.
pub fn delegate_prompt(task: &str, context: &str) -> (r: String)
    ensures
        context@.len() == 0 ==> r@ == task@,
        context@.len() > 0 ==> r@ == task@ + "\n\n上下文:\n"@ + context@,
{
    if crate::text::is_empty_str(context) {
        owned(task)
    } else {
        concat3(task, "\n\n上下文:\n", context)
    }
}

} // verus!
