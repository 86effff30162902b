use onemini::agent::calls::{
    always_allow_pattern, approval_step, assess_risk, command_contains, compose_turn_message,
    detect_skills_query, list_skills_preview, parse_bash_result, round_limit_message,
    summarize_args, truncate_bytes, validate_tool_input, ApprovalStep, CallArgs, ListedSkill,
};
use onemini::agent::task::{TaskState, VerificationCheck};
use onemini::permissions::manager::PermissionDecision;
use onemini::permissions::mode::PermissionMode;
use onemini::ui::theme::{Theme, ThemeId};
use onemini::agent::calls::{checkpoint_created_message, checkpoint_due, fitting_prefix, invalid_input_reply, output_preview, pre_tool_step, refused_reply, tool_error_reply, unknown_tool_message, PreToolStep,};
use onemini::hooks::HookOutcome;
use onemini::agent::calls::format_list_skills_preview;

fn args() -> CallArgs {
    CallArgs { path: None, command: None, pattern: None, task: None, json: "{}".to_string() }
}

#[test]
fn skills_query_detection() {
    assert!(detect_skills_query("  你有哪些技能？"));
    assert!(detect_skills_query("Skills"));
    assert!(detect_skills_query("/skills list"));
    assert!(!detect_skills_query("帮我写代码"));
    assert!(!detect_skills_query("   "));
}

#[test]
fn tool_input_validation() {
    assert_eq!(validate_tool_input("read", &args()).unwrap_err(), "缺少 path 参数");
    let mut a = args();
    a.command = Some(String::new());
    assert_eq!(validate_tool_input("bash", &a).unwrap_err(), "缺少 command 参数");
    a.command = Some("ls".to_string());
    assert!(validate_tool_input("bash", &a).is_ok());
    assert!(validate_tool_input("unknown", &args()).is_ok());
}

#[test]
fn truncate_bytes_respects_char_boundaries() {
    assert_eq!(truncate_bytes("hello", 10), "hello");
    assert_eq!(truncate_bytes("hello", 3), "hel…");
    assert_eq!(truncate_bytes("你好世界", 7), "你好…");
    assert_eq!(truncate_bytes("你好", 2), "…");
}

#[test]
fn bash_result_from_json_and_text() {
    let (ok, msg) = parse_bash_result("{\"success\": false, \"stderr_preview\": \"boom\"}");
    assert!(!ok);
    assert_eq!(msg.as_deref(), Some("boom"));
    let (ok, msg) = parse_bash_result("{\"success\": false, \"failure_reason\": \"r\", \"stderr_preview\": \"s\"}");
    assert!(!ok);
    assert_eq!(msg.as_deref(), Some("r"));
    let (ok, msg) = parse_bash_result("done, exit code: 1");
    assert!(!ok);
    assert_eq!(msg.as_deref(), Some("done, exit code: 1"));
    let (ok, msg) = parse_bash_result("exit code: 0");
    assert!(ok);
    assert!(msg.is_none());
}

#[test]
fn risk_and_summary() {
    let mut a = args();
    a.command = Some("RM -RF build".to_string());
    assert_eq!(assess_risk("bash", &a), "高风险命令：可能造成不可恢复的数据丢失。");
    a.command = Some("git clean -fd".to_string());
    assert_eq!(assess_risk("bash", &a), "中风险命令：可能影响工作区文件或权限。");
    let mut w = args();
    w.path = Some("config/.env".to_string());
    assert_eq!(assess_risk("write", &w), "高风险写入：目标文件可能包含敏感信息。");
    assert_eq!(summarize_args("read", &w), "config/.env");
    assert_eq!(summarize_args("grep", &args()), "模式=?");
    assert_eq!(summarize_args("other", &args()), "{}");
    assert!(command_contains("cargo test --all", "cargo test"));
    assert!(command_contains("cargo", "cargo test"));
}

#[test]
fn approval_steps() {
    let allow = PermissionDecision::Allow;
    assert_eq!(
        approval_step(PermissionMode::Bypass, true, &allow, false, "bash", false, true),
        ApprovalStep::Deny("托管策略已禁用 bypass 权限模式".to_string())
    );
    assert_eq!(approval_step(PermissionMode::Default, false, &allow, false, "bash", false, true), ApprovalStep::Allow);
    let ask = PermissionDecision::Ask("确认".to_string());
    assert_eq!(
        approval_step(PermissionMode::Default, false, &ask, false, "write", false, true),
        ApprovalStep::Ask(Some("确认".to_string()))
    );
    assert_eq!(approval_step(PermissionMode::Default, false, &ask, false, "bash", true, true), ApprovalStep::Allow);
    assert_eq!(approval_step(PermissionMode::Default, false, &allow, true, "edit", false, false), ApprovalStep::Allow);
    assert_eq!(always_allow_pattern("bash", "ls -l", Some("x")), "ls -l");
    assert_eq!(always_allow_pattern("write", "d", Some("src/a.rs")), "src/a.rs");
}

#[test]
fn turn_messages() {
    assert_eq!(compose_turn_message(Some("ctx"), "do it"), "ctx\n\n用户请求:\ndo it");
    assert_eq!(compose_turn_message(None, "do it"), "do it");
    assert_eq!(round_limit_message(20), "已达最大工具调用轮次 (20)");
}

#[test]
fn list_skills_preview_table() {
    let t = Theme { id: ThemeId::Modern, colors: false };
    assert!(list_skills_preview(&t, &Vec::new()).is_none());
    let rows = vec![ListedSkill { name: "debug".to_string(), source: "builtin".to_string(), description: "d".to_string() }];
    let out = list_skills_preview(&t, &rows).unwrap();
    assert!(out.contains("/debug"));
    assert!(out.contains("内置"));
}

#[test]
fn tracking_bash_updates_checks() {
    let mut state = TaskState::default();
    state.verification_checks.push(VerificationCheck {
        label: "测试".to_string(),
        command: Some("cargo test".to_string()),
        passed: None,
        message: String::new(),
    });
    let mut a = args();
    a.command = Some("cargo test --all".to_string());
    state.track_tool_outcome("bash", &a, "{\"success\": true}");
    assert_eq!(state.verification_checks[0].passed, Some(true));
    assert_eq!(state.verification_checks[0].message, "已执行并通过");
    assert!(!state.last_bash_failed);
    state.track_tool_error("bash", &a, "[工具错误] x");
    assert!(state.last_bash_failed);
    assert_eq!(state.last_errors.last().map(String::as_str), Some("[工具错误] x"));
}

#[test]
fn tool_call_steps() {
    assert_eq!(pre_tool_step(Ok(HookOutcome::Deny("no".into()))), PreToolStep::Reply("[hook 拒绝] no".into()));
    assert_eq!(pre_tool_step(Err("boom".into())), PreToolStep::Reply("[hook 错误] boom".into()));
    assert_eq!(
        pre_tool_step(Ok(HookOutcome::Ask("".into()))),
        PreToolStep::Run { force_ask: true, warning: None, args: None }
    );
    assert_eq!(
        pre_tool_step(Ok(HookOutcome::Ask("sure?".into()))),
        PreToolStep::Run { force_ask: true, warning: Some("sure?".into()), args: None }
    );
    assert_eq!(
        pre_tool_step(Ok(HookOutcome::Modified("{\"a\":1}".into()))),
        PreToolStep::Run { force_ask: false, warning: None, args: Some("{\"a\":1}".into()) }
    );
    assert_eq!(
        pre_tool_step(Ok(HookOutcome::Continue)),
        PreToolStep::Run { force_ask: false, warning: None, args: None }
    );
    assert_eq!(invalid_input_reply("x"), "[工具输入无效] x");
    assert_eq!(unknown_tool_message("zap"), "未知工具: zap");
    assert_eq!(refused_reply(), "[用户拒绝执行]");
    assert_eq!(tool_error_reply("e"), "[工具错误] e");
    assert!(checkpoint_due(true, true, "edit", 2));
    assert!(!checkpoint_due(true, true, "edit", 1));
    assert!(!checkpoint_due(true, true, "read", 5));
    assert!(!checkpoint_due(false, true, "write", 5));
    assert_eq!(checkpoint_created_message("0123456789abcdef"), "已创建 git 检查点: 01234567");
    assert_eq!(checkpoint_created_message("abc"), "已创建 git 检查点: abc");
    assert_eq!(fitting_prefix("日本語", 7), "日本");
    assert_eq!(output_preview("read", "short", None), "short");
    assert_eq!(output_preview("list_skills", "raw", Some("TABLE".into())), "TABLE");
    assert_eq!(output_preview("list_skills", "raw", None), "raw");
}

#[test]
fn list_skills_answer_preview() {
    let t = Theme { id: ThemeId::Modern, colors: false };
    assert_eq!(format_list_skills_preview(&t, "not json"), None);
    assert_eq!(format_list_skills_preview(&t, r#"{"skills":[]}"#), None);
    assert_eq!(format_list_skills_preview(&t, r#"{"skills":[{"name":"x"}]}"#), None);
    let table = format_list_skills_preview(
        &t,
        r#"{"agent_name":"OneMini","skills":[{"name":"debug","source":"builtin","description":"调试"},{"name":"bad"}],"skills_count":2}"#,
    )
    .unwrap();
    assert!(table.contains("/debug"));
    assert!(table.contains("内置"));
    assert!(!table.contains("/bad"));
}
