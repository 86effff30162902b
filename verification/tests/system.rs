use std::path::PathBuf;

use onemini::compress::{needs_compression, summarize_range, summary_message, transcript, MessageText};
use onemini::config::{configure_start, ConfigureOptions, ConfigureStart};
use onemini::fs_util::ensure_https_url;
use onemini::git::{checkpoint_commands, checkpoint_wanted, diff_args, GitManager};
use onemini::hooks::{
    check_hook_command, chain_result, hook_step, parse_hook_output, parse_hook_stdout_json,
    launch_failed, post_tool_result, HookCommandCheck, HookDef, HookOutcome, HookRunner, HookStep,
};
use onemini::managed::{managed_settings_path, ManagedSettings};
use onemini::permissions::rules::PermissionRulesFile;
use onemini::repl::{custom_command_prompt, parse_slash_command, SlashAction};
use onemini::sandbox::{bwrap_args, sandbox_exec_profile, ExecPlan, SandboxBackend, SandboxConfig, SandboxRunner};
use onemini::session_crypto::{decrypt_bytes, encrypt_bytes, seal, is_keychain_placeholder, password_material};
use onemini::slash::{SlashCommand, SlashCommandFile, SlashRegistry};
use onemini::tools::bash::{classify_failure, retry_hint_for, timeout_failure_message, BashResult};
use onemini::tools::{normalize_parts, tools_for_mode, truncate_output, PathPart};
use onemini::permissions::mode::PermissionMode;
use onemini::ui::theme::{Theme, ThemeId};
use onemini::update::{archive_url, normalize_tag, plan_update, platform_tag, UpdateAction};

#[test]
fn parse_ask_decision() {
    let out = parse_hook_stdout_json(r#"{"decision":"ask","reason":"需要人工确认"}"#);
    assert!(matches!(out, Some(HookOutcome::Ask(_))));
}

#[test]
fn parse_deny_decision() {
    let out = parse_hook_stdout_json(r#"{"decision":"deny","reason":"blocked"}"#);
    assert!(matches!(out, Some(HookOutcome::Deny(_))));
}

#[test]
fn parse_modified_input() {
    let out = parse_hook_stdout_json(r#"{"modified_input":{"path":"foo"}}"#);
    assert!(matches!(out, Some(HookOutcome::Modified(_))));
}

#[test]
fn exit_code_2_is_deny() {
    let outcome = parse_hook_output("test", Some(2), "reason", "", false).unwrap();
    assert!(matches!(outcome, HookOutcome::Deny(_)));
}

#[test]
fn hook_exit_code_two_denies() {
    let outcome = parse_hook_output("test", Some(2), "reason", "", false).unwrap();
    assert_eq!(outcome, HookOutcome::Deny("reason".to_string()));
    let outcome = parse_hook_output("test", Some(2), "", "", false).unwrap();
    assert_eq!(outcome, HookOutcome::Deny("hook 退出码 2: test".to_string()));
    assert_eq!(parse_hook_output("t", None, "", "err", false).unwrap_err(), "hook 退出码 -1: err");
    assert_eq!(parse_hook_output("t", Some(1), "", "err", true).unwrap(), HookOutcome::Continue);
    assert_eq!(parse_hook_output("t", Some(0), "not json", "", false).unwrap(), HookOutcome::Continue);
}

#[test]
fn hook_commands_and_chain() {
    assert_eq!(check_hook_command("  jq .path"), HookCommandCheck::Allowed);
    assert_eq!(check_hook_command("./hooks/guard.sh arg"), HookCommandCheck::Path("./hooks/guard.sh".to_string()));
    assert!(matches!(check_hook_command("rm -rf /"), HookCommandCheck::Rejected(_)));
    let runner = HookRunner::from_parts(
        vec![HookDef { event: "PreToolUse".to_string(), tool: Some("bash".to_string()), command: "jq".to_string() }],
        vec![HookDef { event: "PreToolUse".to_string(), tool: None, command: "cat".to_string() }],
        false,
        false,
    );
    assert_eq!(runner.matching_commands("PreToolUse", Some("bash")), vec!["jq", "cat"]);
    assert_eq!(runner.matching_commands("PreToolUse", Some("read")), vec!["cat"]);
    assert_eq!(hook_step(HookOutcome::Ask("q".to_string())), HookStep::Stop(HookOutcome::Ask("q".to_string())));
    assert_eq!(chain_result("{}", "{}"), HookOutcome::Continue);
    assert_eq!(chain_result("{}", "{\"a\":1}"), HookOutcome::Modified("{\"a\":1}".to_string()));
    assert_eq!(post_tool_result(Ok(HookOutcome::Deny("x".to_string())), true).unwrap_err(), "PostToolUse hook 拒绝: x");
    assert!(post_tool_result(Err("e".to_string()), true).is_ok());
}

#[test]
fn normalize_tag_adds_v() {
    assert_eq!(normalize_tag("0.1.1"), "v0.1.1");
    assert_eq!(normalize_tag("v0.1.1"), "v0.1.1");
}

#[test]
fn semver_patch_bump() {
    assert_eq!(plan_update("0.1.0", "0.1.1", false, false), Ok(UpdateAction::Install));
}

#[test]
fn update_decisions() {
    assert_eq!(plan_update("0.1.0", "v0.1.0", false, false), Ok(UpdateAction::UpToDate));
    assert_eq!(plan_update("0.2.0", "v0.1.0", false, false), Ok(UpdateAction::SkipOlder));
    assert_eq!(plan_update("0.2.0", "v0.1.0", true, true), Ok(UpdateAction::ReportAvailable));
    assert_eq!(plan_update("x", "v0.1.0", false, false), Err("无效版本号: x".to_string()));
    assert_eq!(platform_tag("linux", "x86_64").unwrap(), "x86_64-unknown-linux-gnu");
    assert_eq!(platform_tag("windows", "x86_64").unwrap_err(), "不支持的操作系统: windows（仅 macOS / Linux 支持 onemini update）");
    assert_eq!(platform_tag("macos", "riscv").unwrap_err(), "不支持架构: riscv");
    assert_eq!(
        archive_url("v0.1.1", "aarch64-apple-darwin"),
        "https://github.com/AJI1026/OneMini-CLI/releases/download/v0.1.1/onemini-aarch64-apple-darwin.tar.gz"
    );
}

#[test]
fn encryption_round_trip() {
    let pw = password_material("host", "user", "/home/user/.onemini", "id-1");
    assert_eq!(pw, b"hostuser/home/user/.oneminiid-1".to_vec());
    let data = encrypt_bytes(&pw, b"session json").unwrap();
    assert_eq!(data.len(), 16 + 12 + 12 + 16);
    assert_eq!(decrypt_bytes(&pw, &data).unwrap(), b"session json".to_vec());
    assert!(decrypt_bytes(b"other", &data).is_err());
    assert_eq!(decrypt_bytes(&pw, &[0u8; 10]).unwrap_err(), "加密数据过短");
    assert!(is_keychain_placeholder("keychain:onemini"));
    assert!(!is_keychain_placeholder("sk-SECRET-REDACTED"));
}

#[test]
fn git_checkpoints() {
    let mut g = GitManager::new(PathBuf::from("."));
    assert!(g.last_checkpoint().is_none());
    assert_eq!(g.rollback_args().unwrap_err(), "没有可回滚的检查点");
    assert_eq!(g.record_checkpoint("abc123\n"), "abc123");
    assert_eq!(g.rollback_args().unwrap(), vec!["reset", "--hard", "abc123"]);
    assert_eq!(GitManager::suggest_commit_message(&vec![]), "chore: onemini checkpoint");
    assert_eq!(GitManager::suggest_commit_message(&vec!["a.rs".to_string()]), "chore: update a.rs");
    let files: Vec<String> = ["a", "b", "c", "d"].iter().map(|s| s.to_string()).collect();
    assert_eq!(GitManager::suggest_commit_message(&files), "chore: update 4 files (a, b, c)");
    assert!(checkpoint_commands("m", true).is_empty());
    assert_eq!(checkpoint_commands("m", false)[1], vec!["commit", "-m", "m", "--no-verify"]);
    assert_eq!(diff_args(&vec!["x".to_string()]), vec!["diff", "--stat", "x"]);
}

#[test]
fn slash_commands_later_file_wins() {
    let cmd = |d: &str, p: &str| SlashCommand { description: d.to_string(), prompt: p.to_string() };
    let reg = SlashRegistry::from_files(vec![
        SlashCommandFile { commands: vec![("review".to_string(), cmd("a", "A")), ("fix".to_string(), cmd("f", "F"))] },
        SlashCommandFile { commands: vec![("review".to_string(), cmd("b", "B"))] },
    ]);
    assert_eq!(reg.resolve("review").unwrap().prompt, "B");
    assert!(reg.resolve("nope").is_none());
    let names: Vec<&str> = reg.list().iter().map(|(n, _)| n.as_str()).collect();
    assert_eq!(names, vec!["fix", "review"]);
    let t = Theme { id: ThemeId::Modern, colors: false };
    assert_eq!(reg.format_help(&t), "\n\n自定义命令\n\n  /fix  f\n  /review  b\n");
    assert_eq!(SlashRegistry::new().format_help(&t), "");
}

#[test]
fn repl_command_parsing() {
    assert_eq!(parse_slash_command("   "), SlashAction::Nothing);
    assert_eq!(parse_slash_command("/quit"), SlashAction::Exit);
    assert_eq!(parse_slash_command("/skills list"), SlashAction::SkillsList);
    assert_eq!(parse_slash_command("/skills debug"), SlashAction::SkillsSelect(Some("debug".to_string())));
    assert_eq!(parse_slash_command("/config setup --force"), SlashAction::ConfigSetup(true));
    assert_eq!(parse_slash_command("/config"), SlashAction::ConfigShow);
    assert_eq!(
        parse_slash_command("/review  src/a.rs now"),
        SlashAction::Other("review".to_string(), vec!["src/a.rs".to_string(), "now".to_string()])
    );
    assert_eq!(custom_command_prompt("Review", &vec!["a".to_string(), "b".to_string()]), "Review a b");
    assert_eq!(custom_command_prompt("Review", &vec![]), "Review");
}

#[test]
fn sandbox_plans() {
    let mut cfg = SandboxConfig::default();
    let plain = SandboxRunner::new(&cfg, SandboxBackend::Unavailable);
    assert_eq!(plain.exec_plan(), Ok(ExecPlan::Plain));
    assert!(plain.ensure_available().is_ok());
    cfg.enabled = true;
    let none = SandboxRunner::new(&cfg, SandboxBackend::Unavailable);
    assert!(none.ensure_available().is_err());
    assert!(none.exec_plan().is_err());
    let bw = SandboxRunner::new(&cfg, SandboxBackend::Bubblewrap);
    assert_eq!(bw.exec_plan(), Ok(ExecPlan::Bubblewrap));
    let args = bwrap_args("ls", "/w", false, &vec!["/r".to_string()], &vec![]);
    assert_eq!(args[7], "/w");
    assert!(args.contains(&"--unshare-net".to_string()));
    assert_eq!(&args[args.len() - 4..], &["--", "sh", "-c", "ls"]);
    assert!(sandbox_exec_profile("/w").contains("(allow file-write* (subpath \"/w\"))"));
}

#[test]
fn tools_output_and_paths() {
    assert_eq!(truncate_output("abcdef", 10), "abcdef");
    assert_eq!(truncate_output("abcdef", 2), "ab\n\n… [输出已截断，共 6 字符，显示前 2 字符]");
    let parts = vec![
        PathPart::Root,
        PathPart::Normal("a".to_string()),
        PathPart::Current,
        PathPart::Normal("b".to_string()),
        PathPart::Parent,
        PathPart::Normal("c".to_string()),
    ];
    assert_eq!(normalize_parts(parts), vec![PathPart::Root, PathPart::Normal("a".to_string()), PathPart::Normal("c".to_string())]);
    assert_eq!(normalize_parts(vec![PathPart::Parent]), vec![PathPart::Parent]);
    let names = vec!["read".to_string(), "bash".to_string()];
    assert_eq!(tools_for_mode(PermissionMode::Plan, &names), vec![true, false]);
    assert_eq!(tools_for_mode(PermissionMode::Default, &names), vec![true, true]);
}

#[test]
fn bash_failures() {
    assert_eq!(classify_failure(1, "  boom \n", "out"), "退出码 1: boom");
    assert_eq!(classify_failure(-1, "", " "), "命令以非 0 退出（退出码: -1）");
    assert_eq!(retry_hint_for("foo", 1, "sh: foo: command not found"), "检查命令是否存在、PATH 是否正确、工作目录是否正确");
    assert_eq!(retry_hint_for("x", 127, ""), "命令未找到，确认依赖已安装且命令拼写正确");
    assert_eq!(timeout_failure_message("python -c 'plt.show()'"), "命令执行超时（>120s）：可能因缺少 GUI 环境阻塞（如 plt.show()）");
    let r = BashResult::finished("ls", 0, true, "\u{1b}[31mred\u{1b}[0m", "");
    assert_eq!(r.stdout_preview, "red");
    assert!(r.failure_reason.is_none());
    let t = BashResult::timed_out("sleep 999");
    assert!(t.timed_out);
    assert_eq!(t.exit_code, -1);
}

#[test]
fn misc_checks() {
    assert!(ensure_https_url(" https://api.x.com ").is_ok());
    assert_eq!(ensure_https_url("http://x").unwrap_err(), "API 接口地址必须使用 HTTPS: http://x");
    assert_eq!(configure_start(ConfigureOptions::first_run(), true), ConfigureStart::Welcome);
    assert_eq!(configure_start(ConfigureOptions::setup(false), true), ConfigureStart::ConfirmOverwrite);
    assert_eq!(configure_start(ConfigureOptions::setup(true), true), ConfigureStart::Proceed);
    let msgs: Vec<u8> = vec![0; 51];
    assert!(needs_compression(&msgs));
    assert!(!needs_compression(&msgs[..50]));
    assert_eq!(summarize_range(60), Some((1, 40)));
    assert_eq!(summarize_range(50), None);
    let t = transcript(&vec![
        MessageText { role: "user".to_string(), content: Some("hi".to_string()) },
        MessageText { role: "assistant".to_string(), content: None },
    ]);
    assert_eq!(t, "[user] hi\n\n[assistant] [工具调用]\n\n");
    assert_eq!(summary_message(3, "S"), "[历史摘要 — 较早的 3 条消息已压缩]\n\nS");
}

#[test]
fn default_install_dir_under_home() {
    let home = dirs::home_dir().expect("home dir");
    let dir = onemini::install::default_install_dir(None, home.to_str()).expect("home dir");
    assert!(dir.ends_with(".local/bin") || dir.ends_with(".local\\bin"));
}

#[test]
fn install_paths_and_windows_path() {
    let d = onemini::install::default_install_dir(Some("/opt/bin"), Some("/home/u"));
    assert_eq!(d.as_deref(), Some("/opt/bin"));
    assert_eq!(onemini::install::default_install_dir(None, None), None);
    assert_eq!(onemini::install::binary_name(true), "onemini.exe");
    assert!(onemini::install::configure_path(false, None));
    assert!(!onemini::install::configure_path(false, Some("1")));
    assert!(!onemini::install::configure_path(true, None));
    let up = onemini::install::windows_path_update;
    assert_eq!(up("C:\\bin\\", "C:\\bin;D:\\x"), None);
    assert_eq!(up("C:\\bin", "D:\\x;C:\\bin/"), None);
    assert_eq!(up("C:\\bin\\", "D:\\x"), Some("C:\\bin;D:\\x".to_string()));
    assert_eq!(up("C:\\bin", "  "), Some("C:\\bin".to_string()));
    assert_eq!(up("C:\\bin", ";;"), Some("C:\\bin;;;".to_string()));
    assert_eq!(onemini::install::path_reminder("/x"), "请确保 /x 在 PATH 中（可运行在线 install.sh 自动配置）");
}

#[test]
fn managed_policy_path_prefers_the_environment() {
    assert_eq!(managed_settings_path(Some("/tmp/m.toml"), "linux"), Some("/tmp/m.toml".to_string()));
    assert_eq!(managed_settings_path(Some("   "), "linux"), Some("/etc/onemini/managed.toml".to_string()));
    assert_eq!(managed_settings_path(None, "macos"), Some("/Library/Application Support/onemini/managed.toml".to_string()));
    assert_eq!(managed_settings_path(None, "windows"), Some("C:\\ProgramData\\onemini\\managed.toml".to_string()));
    assert_eq!(managed_settings_path(None, "freebsd"), None);
}

#[test]
fn managed_policy_moves_legacy_lists_into_rules() {
    let mut legacy = PermissionRulesFile::with_rules(Vec::new());
    legacy.always_deny.push("fetch".to_string());
    legacy.bash_allow_patterns.push("ls*".to_string());
    let s = ManagedSettings::from_file(true, true, false, true, false, legacy, "/etc/onemini/managed.toml".to_string());
    assert!(s.disable_bypass_permissions && s.disable_auto_mode && s.allow_managed_hooks_only);
    assert!(!s.allow_managed_rules_only && !s.hook_fail_open);
    assert_eq!(s.source, Some("/etc/onemini/managed.toml".to_string()));
    assert_eq!(s.rules.rules.len(), 2);
    assert_eq!(s.rules.rules[0].tool, "fetch");
    assert_eq!(s.rules.rules[1].tool, "bash");
    assert_eq!(s.rules.rules[1].pattern, "ls*");
    assert!(s.rules.always_deny.is_empty() && s.rules.bash_allow_patterns.is_empty());
}

#[test]
fn seal_lays_out_salt_nonce_ciphertext() {
    let pw = password_material("host", "user", "/cfg", "id");
    let salt = [7u8; 16];
    let nonce = [9u8; 12];
    let data = seal(&pw, b"hello", &salt, &nonce).unwrap();
    assert_eq!(&data[..16], &salt);
    assert_eq!(&data[16..28], &nonce);
    assert_eq!(data.len(), 28 + 5 + 16);
    assert_ne!(&data[28..33], b"hello");
    assert_eq!(decrypt_bytes(&pw, &data).unwrap(), b"hello".to_vec());
    assert_eq!(seal(&pw, b"hello", &salt, &nonce).unwrap(), data);
    let other = password_material("host", "user", "/cfg", "other");
    assert_eq!(decrypt_bytes(&other, &data), Err("解密失败（密钥或数据损坏）: aead::Error".to_string()));
}

#[test]
fn checkpoint_only_before_edits_after_two_changes() {
    assert!(checkpoint_wanted(true, "write", 2));
    assert!(checkpoint_wanted(true, "edit", 5));
    assert!(!checkpoint_wanted(true, "edit", 1));
    assert!(!checkpoint_wanted(true, "bash", 3));
    assert!(!checkpoint_wanted(false, "write", 3));
}

#[test]
fn hook_launch_failure_follows_fail_open() {
    assert_eq!(launch_failed("boom".to_string(), true), Ok(HookOutcome::Continue));
    assert_eq!(launch_failed("boom".to_string(), false), Err("boom".to_string()));
}
