use onemini::agent::calls::{final_answer, next_round, turn_round};
use onemini::agent::subtask::{after_assistant, readonly_refusal, readonly_tool_allowed, subtask_start, RoundOutcome};
use onemini::llm::{AssistantMessage, FunctionCall, ToolCall,
    classify_line, FunctionDelta, LineKind, OpenAiClient, StreamChoice, StreamChunk, StreamDecoder,
    StreamDelta, StreamEvent, ToolCallDelta, UsageInfo,
};
use onemini::llm::ChatMessage;
use onemini::agent::task::TaskState;
use onemini::session::{resumed, trim_messages, LoadStep, SessionStore};

fn choice(content: Option<&str>, reasoning: Option<&str>, tools: Option<Vec<ToolCallDelta>>, finish: bool) -> StreamChoice {
    StreamChoice {
        delta: StreamDelta {
            content: content.map(String::from),
            reasoning_content: reasoning.map(String::from),
            tool_calls: tools,
        },
        finish_reason: if finish { Some("stop".to_string()) } else { None },
    }
}

#[test]
fn lines_are_split_and_trimmed() {
    let mut d = StreamDecoder::new();
    d.push_text("data: {\"a\":1}\r\n: keep-alive\n\ndata: [DO");
    assert_eq!(d.next_line(), Some("data: {\"a\":1}".to_string()));
    assert_eq!(d.next_line(), Some(": keep-alive".to_string()));
    assert_eq!(d.next_line(), Some(String::new()));
    assert_eq!(d.next_line(), None);
    d.push_text("NE]\n");
    assert_eq!(d.next_line(), Some("data: [DONE]".to_string()));
    assert_eq!(d.next_line(), None);
}

#[test]
fn line_kinds() {
    assert!(matches!(classify_line(""), LineKind::Skip));
    assert!(matches!(classify_line(": ping"), LineKind::Skip));
    assert!(matches!(classify_line("data: [DONE]"), LineKind::Done));
    assert!(matches!(classify_line("[DONE]"), LineKind::Done));
    match classify_line("data:  {\"x\":2} ") {
        LineKind::Data(p) => assert_eq!(p, "{\"x\":2}"),
        _ => panic!("expected data"),
    }
    match classify_line("event: message") {
        LineKind::Data(p) => assert_eq!(p, "event: message"),
        _ => panic!("expected data"),
    }
}

#[test]
fn deltas_accumulate_into_message() {
    let mut d = StreamDecoder::new();
    let (ev, done) = d.apply_chunk(&StreamChunk {
        choices: vec![choice(Some("Hel"), Some("think"), None, false)],
        usage: None,
    });
    assert!(!done);
    assert_eq!(ev.len(), 2);
    assert!(matches!(&ev[0], StreamEvent::ReasoningDelta(t) if t == "think"));
    assert!(matches!(&ev[1], StreamEvent::ContentDelta(t) if t == "Hel"));
    let (ev, done) = d.apply_chunk(&StreamChunk {
        choices: vec![choice(Some("lo"), Some(""), None, true)],
        usage: Some(UsageInfo { prompt_tokens: 10, completion_tokens: 5, reasoning_tokens: 0, total_tokens: 0 }),
    });
    assert!(done);
    assert_eq!(ev.len(), 3);
    assert!(matches!(&ev[0], StreamEvent::ContentDelta(t) if t == "lo"));
    assert!(matches!(&ev[1], StreamEvent::Usage(u) if u.total() == 15));
    match &ev[2] {
        StreamEvent::Done(m) => {
            assert_eq!(m.role, "assistant");
            assert_eq!(m.content.as_deref(), Some("Hello"));
            assert_eq!(m.reasoning_content.as_deref(), Some("think"));
            assert!(m.tool_calls.is_none());
        }
        _ => panic!("expected done"),
    }
}

#[test]
fn tool_call_pieces_join_by_index() {
    let mut d = StreamDecoder::new();
    let first = ToolCallDelta {
        index: 1,
        id: Some("call_b".to_string()),
        function: Some(FunctionDelta { name: Some("read".to_string()), arguments: Some("{\"pa".to_string()) }),
    };
    let (ev, _) = d.apply_chunk(&StreamChunk { choices: vec![choice(None, None, Some(vec![first]), false)], usage: None });
    assert!(matches!(&ev[0], StreamEvent::ToolCallDelta { name: Some(n) } if n == "read"));
    let more = ToolCallDelta {
        index: 1,
        id: None,
        function: Some(FunctionDelta { name: None, arguments: Some("th\":\"a\"}".to_string()) }),
    };
    let (ev, _) = d.apply_chunk(&StreamChunk { choices: vec![choice(None, None, Some(vec![more]), false)], usage: None });
    assert!(matches!(&ev[0], StreamEvent::ToolCallDelta { name: None }));
    let fin = d.finish();
    assert_eq!(fin.len(), 1);
    match &fin[0] {
        StreamEvent::Done(m) => {
            let calls = m.tool_calls.as_ref().unwrap();
            assert_eq!(calls.len(), 2);
            assert_eq!(calls[0].id, "");
            assert_eq!(calls[0].call_type, "function");
            assert_eq!(calls[1].id, "call_b");
            assert_eq!(calls[1].function.name, "read");
            assert_eq!(calls[1].function.arguments, "{\"path\":\"a\"}");
            assert!(m.content.is_none());
        }
        _ => panic!("expected done"),
    }
}

#[test]
fn finish_stops_at_first_finished_choice() {
    let mut d = StreamDecoder::new();
    let (ev, done) = d.apply_chunk(&StreamChunk {
        choices: vec![choice(Some("a"), None, None, true), choice(Some("b"), None, None, false)],
        usage: None,
    });
    assert!(done);
    assert_eq!(ev.len(), 2);
    match &ev[1] {
        StreamEvent::Done(m) => assert_eq!(m.content.as_deref(), Some("a")),
        _ => panic!("expected done"),
    }
}

#[test]
fn usage_total_prefers_reported_total() {
    let u = UsageInfo { prompt_tokens: 1, completion_tokens: 2, reasoning_tokens: 0, total_tokens: 9 };
    assert_eq!(u.total(), 9);
    assert_eq!(UsageInfo::default().total(), 0);
}

#[test]
fn client_settings() {
    assert_eq!(OpenAiClient::new(None, None).err(), Some("API Key 未配置".to_string()));
    assert_eq!(OpenAiClient::new(Some(""), None).err(), Some("API Key 未配置".to_string()));
    let c = OpenAiClient::new(Some("sk"), Some("https://api.deepseek.com//")).ok().unwrap();
    assert_eq!(c.chat_url(), "https://api.deepseek.com/chat/completions");
    let c = OpenAiClient::new(Some("sk"), None).ok().unwrap();
    assert_eq!(c.chat_url(), "https://api.openai.com/v1/chat/completions");
}

#[test]
fn saved_sessions_keep_recent_messages() {
    let mut msgs = vec![ChatMessage::system("sys".to_string())];
    for i in 0..100 {
        msgs.push(ChatMessage::user(format!("m{i}")));
    }
    let kept = trim_messages(&msgs);
    assert_eq!(kept.len(), 80);
    assert_eq!(kept[0].role, "system");
    assert_eq!(kept[1].content.as_deref(), Some("m21"));
    assert_eq!(kept[79].content.as_deref(), Some("m99"));
    let short: Vec<ChatMessage> = (0..5).map(|i| ChatMessage::user(format!("u{i}"))).collect();
    assert_eq!(trim_messages(&short).len(), 5);
    let no_sys: Vec<ChatMessage> = (0..90).map(|i| ChatMessage::user(format!("u{i}"))).collect();
    let kept = trim_messages(&no_sys);
    assert_eq!(kept.len(), 79);
    assert_eq!(kept[0].content.as_deref(), Some("u11"));
    let t = ChatMessage::tool_result("call_1", "out".to_string());
    assert_eq!(t.role, "tool");
    assert_eq!(t.tool_call_id.as_deref(), Some("call_1"));
}

#[test]
fn subtask_rounds() {
    let mut msgs = subtask_start("/w", "找 bug");
    assert_eq!(msgs.len(), 2);
    assert_eq!(msgs[0].role, "system");
    assert_eq!(
        msgs[0].content.as_deref(),
        Some("你是 OneMini 子 Agent，专注完成单一子任务。\n工作目录: /w\n只能使用 read/grep/glob 搜索分析，不要修改文件或执行 shell。")
    );
    assert_eq!(msgs[1].content.as_deref(), Some("找 bug"));
    let call = ToolCall {
        id: "c1".to_string(),
        call_type: "function".to_string(),
        function: FunctionCall { name: "read".to_string(), arguments: "{}".to_string() },
    };
    let a = AssistantMessage { role: "assistant".into(), content: None, tool_calls: Some(vec![call]), reasoning_content: None };
    match after_assistant(&mut msgs, a) {
        RoundOutcome::ToolCalls(v) => assert_eq!(v[0].id, "c1"),
        RoundOutcome::Answer(_) => panic!("expected calls"),
    }
    assert_eq!(msgs.len(), 3);
    assert_eq!(msgs[2].role, "assistant");
    let done = AssistantMessage { role: "assistant".into(), content: Some("结论".into()), tool_calls: Some(Vec::new()), reasoning_content: None };
    match after_assistant(&mut msgs, done) {
        RoundOutcome::Answer(t) => assert_eq!(t, "结论"),
        RoundOutcome::ToolCalls(_) => panic!("expected an answer"),
    }
    assert_eq!(msgs.len(), 3);
    assert!(readonly_tool_allowed("grep"));
    assert!(!readonly_tool_allowed("bash"));
    assert_eq!(readonly_refusal("bash"), "[子 Agent 不允许使用工具 bash]");
}

#[test]
fn turn_rounds_and_answer() {
    assert_eq!(next_round(0, 25), Ok(1));
    assert_eq!(next_round(25, 25), Err("已达最大工具调用轮次 (25)".to_string()));
    let mut msgs = Vec::new();
    let text = final_answer(&mut msgs, Some("答案"));
    assert_eq!(text, "答案");
    assert_eq!(msgs.len(), 1);
    assert_eq!(msgs[0].content.as_deref(), Some("答案"));
    assert_eq!(final_answer(&mut msgs, None), "");
}

#[test]
fn turn_round_answers_or_runs_calls() {
    let mut msgs = Vec::new();
    let call = ToolCall {
        id: "c9".to_string(),
        call_type: "function".to_string(),
        function: FunctionCall { name: "bash".to_string(), arguments: "{}".to_string() },
    };
    let a = AssistantMessage { role: "assistant".into(), content: Some("先看看".into()), tool_calls: Some(vec![call]), reasoning_content: None };
    match turn_round(&mut msgs, a) {
        RoundOutcome::ToolCalls(v) => assert_eq!(v[0].id, "c9"),
        RoundOutcome::Answer(_) => panic!("expected calls"),
    }
    assert_eq!(msgs.len(), 1);
    let done = AssistantMessage { role: "assistant".into(), content: Some("<think>x</think>完成".into()), tool_calls: None, reasoning_content: None };
    match turn_round(&mut msgs, done) {
        RoundOutcome::Answer(t) => assert_eq!(t, "完成"),
        RoundOutcome::ToolCalls(_) => panic!("expected an answer"),
    }
    assert_eq!(msgs.len(), 2);
    assert_eq!(msgs[1].content.as_deref(), Some("完成"));
}

#[test]
fn session_store_paths_and_load_order() {
    let store = SessionStore::new("/home/u/.onemini");
    assert_eq!(store.enc_path, "/home/u/.onemini/latest.json.enc");
    assert_eq!(store.plain_path, "/home/u/.onemini/latest.json");
    assert_eq!(SessionStore::load_step(true, true), LoadStep::ReadEncrypted);
    assert_eq!(SessionStore::load_step(false, true), LoadStep::MigratePlain);
    assert_eq!(SessionStore::load_step(false, false), LoadStep::Nothing);
}

#[test]
fn session_snapshot_trims_and_stamps() {
    let mut msgs = vec![ChatMessage::system("sys".to_string())];
    for i in 0..100 {
        msgs.push(ChatMessage::user(format!("m{i}")));
    }
    let snap = SessionStore::snapshot("/w", &msgs, TaskState::default(), 1700000000);
    assert_eq!(snap.workdir, "/w");
    assert_eq!(snap.messages.len(), 80);
    assert_eq!(snap.messages[0].role, "system");
    assert_eq!(snap.messages[79].content.as_deref(), Some("m99"));
    assert_eq!(snap.updated_at, "unix:1700000000");
    let again = SessionStore::snapshot("/w", &msgs, TaskState::default(), 0);
    assert!(resumed(Some(again), "/w").is_some());
    let other = SessionStore::snapshot("/w", &msgs, TaskState::default(), 0);
    assert!(resumed(Some(other), "/elsewhere").is_none());
    assert!(resumed(None, "/w").is_none());
}
