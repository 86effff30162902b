//! Tool calls within a turn: checking arguments, summing them up, judging
//! risk, deciding on approval, and recording what the call did.
use vstd::prelude::*;
use crate::agent::task::{statuses, StepStatus, TaskState, VerificationCheck};
use crate::hooks::{HookOutcome, OutcomeView};
use crate::agent::subtask::{after_assistant, calls_of, RoundOutcome};
use crate::llm::{call_views, message_views, AssistantMessage, ChatMessage, ChatMessageView};
use crate::ui::sanitize::{sanitize_final, sanitize_final_spec};
use crate::permissions::manager::{opt_view, DecisionView, PermissionDecision};
use crate::permissions::mode::PermissionMode;
use crate::text::{
    char_utf8_len, chars_of, concat2, concat3, contains, contains_seq, decimal, decimal_string,
    is_empty_str, lowercase, owned, str_eq, string_from_range, to_lower, trim, trim_seq,
    utf8_char_len, utf8_len, views,
};
use crate::ui::table::{header_views, render_table, row_views, table_text};
use crate::ui::theme::{Theme, ThemeId};

verus! {

/// The string arguments of a tool call that the agent reads, and the
/// arguments as JSON text.
#[derive(Debug, Clone)]
pub struct CallArgs {
    pub path: Option<String>,
    pub command: Option<String>,
    pub pattern: Option<String>,
    pub task: Option<String>,
    pub json: String,
}

/// Phrases that ask for the list of skills.
pub open spec fn skills_query_phrases() -> Seq<Seq<char>> {
    seq![
        "有哪些技能"@, "有什么技能"@, "有哪些 skill"@, "有什么 skill"@, "技能列表"@, "skill list"@,
        "list skills"@, "列出技能"@, "可用技能"@, "你有哪些技能"@, "你有什么技能"@, "你会什么"@,
        "有哪些能力"@,
    ]
}

/// Whether an input asks for the skill list (answered without the model).
pub open spec fn skills_query_spec(input: Seq<char>) -> bool {
    let t = lowercase(trim_seq(input));
    t.len() > 0 && ((exists|i: int| 0 <= i < skills_query_phrases().len() && contains_seq(t, skills_query_phrases()[i]))
        || t == "skills"@ || t == "/skills list"@)
}

/// Whether an input asks for the skill list.
pub fn detect_skills_query(input: &str) -> (r: bool)
    ensures
        r == skills_query_spec(input@),
{
    let tt = trim(input);
    let t = to_lower(tt.as_str());
    if is_empty_str(t.as_str()) {
        return false;
    }
    let phrases = vec![
        "有哪些技能", "有什么技能", "有哪些 skill", "有什么 skill", "技能列表", "skill list",
        "list skills", "列出技能", "可用技能", "你有哪些技能", "你有什么技能", "你会什么",
        "有哪些能力",
    ];
    let mut i: usize = 0;
    while i < phrases.len()
        invariant
            i <= phrases@.len(),
            phrases@.map_values(|s: &str| s@) == skills_query_phrases(),
            t@ == lowercase(trim_seq(input@)),
            forall|j: int| 0 <= j < i ==> !contains_seq(t@, skills_query_phrases()[j]),
            t@.len() > 0,
        decreases phrases.len() - i,
    {
        proof {
            assert(phrases@.map_values(|s: &str| s@)[i as int] == phrases@[i as int]@);
        }
        if contains(t.as_str(), phrases[i]) {
            proof {
                assert(contains_seq(t@, skills_query_phrases()[i as int]));
            }
            return true;
        }
        i += 1;
    }
    str_eq(t.as_str(), "skills") || str_eq(t.as_str(), "/skills list")
}

/// Whether an optional argument is present and not empty.
pub open spec fn present(o: Option<Seq<char>>) -> bool {
    match o {
        Some(s) => s.len() > 0,
        None => false,
    }
}

/// The message for a missing required argument, if one is missing.
pub open spec fn missing_argument(name: Seq<char>, a: CallArgs) -> Option<Seq<char>> {
    if (name == "read"@ || name == "write"@ || name == "edit"@) && !present(opt_view(a.path)) {
        Some("缺少 path 参数"@)
    } else if name == "bash"@ && !present(opt_view(a.command)) {
        Some("缺少 command 参数"@)
    } else if (name == "grep"@ || name == "glob"@) && !present(opt_view(a.pattern)) {
        Some("缺少 pattern 参数"@)
    } else if name == "delegate"@ && !present(opt_view(a.task)) {
        Some("缺少 task 参数"@)
    } else {
        None
    }
}

fn is_present(o: &Option<String>) -> (r: bool)
    ensures
        r == present(opt_view(*o)),
{
    match o {
        Some(s) => !is_empty_str(s.as_str()),
        None => false,
    }
}

/// Checks that a tool call has the arguments its tool needs.
pub fn validate_tool_input(name: &str, args: &CallArgs) -> (r: Result<(), String>)
    ensures
        match missing_argument(name@, *args) {
            Some(m) => r is Err && r->Err_0@ == m,
            None => r is Ok,
        },
{
    if (str_eq(name, "read") || str_eq(name, "write") || str_eq(name, "edit")) && !is_present(&args.path) {
        return Err(owned("缺少 path 参数"));
    }
    if str_eq(name, "bash") && !is_present(&args.command) {
        return Err(owned("缺少 command 参数"));
    }
    if (str_eq(name, "grep") || str_eq(name, "glob")) && !is_present(&args.pattern) {
        return Err(owned("缺少 pattern 参数"));
    }
    if str_eq(name, "delegate") && !is_present(&args.task) {
        return Err(owned("缺少 task 参数"));
    }
    Ok(())
}

/// How many leading characters fit in `max` UTF-8 bytes.
pub open spec fn fitting_chars(s: Seq<char>, max: int) -> nat
    decreases s.len(),
{
    if s.len() == 0 || utf8_char_len(s[0]) > max {
        0
    } else {
        1 + fitting_chars(s.drop_first(), max - utf8_char_len(s[0]))
    }
}

/// A text cut to at most `max` UTF-8 bytes (at a character boundary), with
/// `…` when something was cut.
pub open spec fn truncate_bytes_spec(s: Seq<char>, max: nat) -> Seq<char> {
    if utf8_len(s) <= max {
        s
    } else {
        s.take(fitting_chars(s, max as int) as int) + "…"@
    }
}

proof fn lemma_fitting_step(s: Seq<char>, max: int, i: int)
    requires
        0 <= i < s.len(),
        utf8_len(s.take(i)) + utf8_char_len(s[i]) <= max,
        fitting_chars(s, max) == i + fitting_chars(s.skip(i), max - utf8_len(s.take(i))),
    ensures
        fitting_chars(s, max) == i + 1 + fitting_chars(s.skip(i + 1), max - utf8_len(s.take(i + 1))),
{
    crate::text::lemma_utf8_len_take(s, i);
    let t = s.skip(i);
    assert(t[0] == s[i]);
    assert(t.drop_first() =~= s.skip(i + 1));
}

/// `s` cut to `max` UTF-8 bytes, with `…` if it was longer.
pub fn truncate_bytes(s: &str, max: usize) -> (r: String)
    ensures
        r@ == truncate_bytes_spec(s@, max as nat),
{
    let v = chars_of(s);
    let mut used: usize = 0;
    let mut i: usize = 0;
    proof {
        assert(s@.take(0) =~= Seq::<char>::empty());
        assert(s@.skip(0) =~= s@);
    }
    while i < v.len() && char_utf8_len(v[i]) <= max - used
        invariant
            i <= v@.len(),
            v@ == s@,
            used == utf8_len(s@.take(i as int)),
            used <= max,
            fitting_chars(s@, max as int) == i + fitting_chars(s@.skip(i as int), max - used),
        decreases v.len() - i,
    {
        proof {
            lemma_fitting_step(s@, max as int, i as int);
            crate::text::lemma_utf8_len_take(s@, i as int);
        }
        used = used + char_utf8_len(v[i]);
        i += 1;
    }
    proof {
        if i < v@.len() {
            assert(s@.skip(i as int)[0] == s@[i as int]);
        } else {
            assert(s@.skip(i as int).len() == 0);
        }
        assert(fitting_chars(s@, max as int) == i);
    }
    if i == v.len() {
        proof {
            assert(s@.take(i as int) =~= s@);
        }
        return owned(s);
    }
    proof {
        crate::text::lemma_utf8_len_take(s@, i as int);
        crate::text::lemma_utf8_len_mono(s@, i + 1, s@.len() as int);
        assert(s@.take(s@.len() as int) =~= s@);
    }
    let head = string_from_range(v.as_slice(), 0, i);
    proof {
        assert(head@ =~= s@.take(i as int));
    }
    concat2(head.as_str(), "…")
}

/// The fields of a bash tool result in JSON that matter.
pub struct BashJson {
    pub success: Option<bool>,
    pub failure_reason: Option<String>,
    pub stderr_preview: Option<String>,
}

/// Those fields as values.
pub struct BashJsonView {
    pub success: Option<bool>,
    pub failure_reason: Option<Seq<char>>,
    pub stderr_preview: Option<Seq<char>>,
}

impl View for BashJson {
    type V = BashJsonView;

    open spec fn view(&self) -> BashJsonView {
        BashJsonView {
            success: self.success,
            failure_reason: opt_view(self.failure_reason),
            stderr_preview: opt_view(self.stderr_preview),
        }
    }
}

/// What `serde_json` reads from a bash result: `None` when it is not JSON.
pub uninterp spec fn bash_json_fields(text: Seq<char>) -> Option<BashJsonView>;

/// `serde_json::from_str::<Value>`, then `success` (a boolean) and
/// `failure_reason`, `stderr_preview` (strings).
#[verifier::external_body]
fn read_bash_json(text: &str) -> (r: Option<BashJson>)
    ensures
        match bash_json_fields(text@) {
            Some(v) => r is Some && r->0@ == v,
            None => r is None,
        },
{
    match serde_json::from_str::<serde_json::Value>(text) {
        Ok(v) => Some(BashJson {
            success: v["success"].as_bool(),
            failure_reason: v["failure_reason"].as_str().map(String::from),
            stderr_preview: v["stderr_preview"].as_str().map(String::from),
        }),
        Err(_) => None,
    }
}

/// Whether a plain-text result reports a non-zero exit.
pub open spec fn text_reports_failure(out: Seq<char>) -> bool {
    (contains_seq(out, "exit code:"@) || contains_seq(out, "退出码"@)) && !contains_seq(out, "exit code: 0"@)
        && !contains_seq(out, "退出码: 0"@) && !contains_seq(out, "退出码 0"@)
}

/// Success and failure message of a bash result: from its JSON (success
/// unless `success` is false; the message from `failure_reason`, else
/// `stderr_preview`), else from the text (a reported non-zero exit fails, with
/// the text cut to 200 bytes).
pub open spec fn bash_result_spec(out: Seq<char>) -> (bool, Option<Seq<char>>) {
    match bash_json_fields(out) {
        Some(v) => (
            match v.success { Some(b) => b, None => true },
            match v.failure_reason { Some(r) => Some(r), None => v.stderr_preview },
        ),
        None => if text_reports_failure(out) {
            (false, Some(truncate_bytes_spec(out, 200)))
        } else {
            (true, None)
        },
    }
}

/// Whether a bash call succeeded, and its failure message.
pub fn parse_bash_result(out: &str) -> (r: (bool, Option<String>))
    ensures
        r.0 == bash_result_spec(out@).0,
        opt_view(r.1) == bash_result_spec(out@).1,
{
    match read_bash_json(out) {
        Some(v) => {
            let success = match v.success {
                Some(b) => b,
                None => true,
            };
            let reason = match v.failure_reason {
                Some(r) => Some(r),
                None => v.stderr_preview,
            };
            (success, reason)
        },
        None => {
            let failed = (contains(out, "exit code:") || contains(out, "退出码")) && !contains(out, "exit code: 0")
                && !contains(out, "退出码: 0") && !contains(out, "退出码 0");
            if failed {
                (false, Some(truncate_bytes(out, 200)))
            } else {
                (true, None)
            }
        },
    }
}

/// Whether a command runs an expected check (either contains the other).
pub fn command_contains(command: &str, expected: &str) -> (r: bool)
    ensures
        r == (contains_seq(command@, expected@) || contains_seq(expected@, command@)),
{
    contains(command, expected) || contains(expected, command)
}

/// The warning about a risky call (empty when there is none).
pub open spec fn risk_spec(name: Seq<char>, a: CallArgs) -> Seq<char> {
    if name == "bash"@ {
        let cmd = lowercase(match opt_view(a.command) { Some(c) => c, None => Seq::empty() });
        if contains_seq(cmd, "rm -rf"@) || contains_seq(cmd, "git reset --hard"@) || contains_seq(cmd, "git push --force"@)
            || contains_seq(cmd, "drop table"@) {
            "高风险命令：可能造成不可恢复的数据丢失。"@
        } else if contains_seq(cmd, "git clean"@) || contains_seq(cmd, "chmod -r"@) {
            "中风险命令：可能影响工作区文件或权限。"@
        } else {
            Seq::empty()
        }
    } else if name == "write"@ || name == "edit"@ {
        match opt_view(a.path) {
            Some(p) => if contains_seq(p, ".env"@) || contains_seq(p, "id_rsa"@) {
                "高风险写入：目标文件可能包含敏感信息。"@
            } else {
                Seq::empty()
            },
            None => Seq::empty(),
        }
    } else {
        Seq::empty()
    }
}

/// Warns about destructive commands and writes to secret files.
pub fn assess_risk(name: &str, args: &CallArgs) -> (r: String)
    ensures
        r@ == risk_spec(name@, *args),
{
    if str_eq(name, "bash") {
        let raw = match &args.command {
            Some(c) => owned(c.as_str()),
            None => String::new(),
        };
        let cmd = to_lower(raw.as_str());
        let c = cmd.as_str();
        if contains(c, "rm -rf") || contains(c, "git reset --hard") || contains(c, "git push --force")
            || contains(c, "drop table") {
            return owned("高风险命令：可能造成不可恢复的数据丢失。");
        }
        if contains(c, "git clean") || contains(c, "chmod -r") {
            return owned("中风险命令：可能影响工作区文件或权限。");
        }
        return String::new();
    }
    if str_eq(name, "write") || str_eq(name, "edit") {
        match &args.path {
            Some(p) => {
                if contains(p.as_str(), ".env") || contains(p.as_str(), "id_rsa") {
                    return owned("高风险写入：目标文件可能包含敏感信息。");
                }
            },
            None => {},
        }
    }
    String::new()
}

pub open spec fn or_question(o: Option<Seq<char>>) -> Seq<char> {
    match o {
        Some(s) => s,
        None => "?"@,
    }
}

/// A one-line summary of a call's arguments.
pub open spec fn summarize_spec(name: Seq<char>, a: CallArgs) -> Seq<char> {
    if name == "read"@ || name == "write"@ || name == "edit"@ {
        or_question(opt_view(a.path))
    } else if name == "grep"@ || name == "glob"@ {
        "模式="@ + or_question(opt_view(a.pattern))
    } else if name == "bash"@ {
        truncate_bytes_spec(or_question(opt_view(a.command)), 60)
    } else if name == "delegate"@ {
        truncate_bytes_spec(or_question(opt_view(a.task)), 60)
    } else {
        a.json@
    }
}

fn or_question_str(o: &Option<String>) -> (r: String)
    ensures
        r@ == or_question(opt_view(*o)),
{
    match o {
        Some(s) => owned(s.as_str()),
        None => owned("?"),
    }
}

/// Summarizes a call: the path, the pattern, the command or task cut to 60
/// bytes, or the arguments as JSON.
pub fn summarize_args(name: &str, args: &CallArgs) -> (r: String)
    ensures
        r@ == summarize_spec(name@, *args),
{
    if str_eq(name, "read") || str_eq(name, "write") || str_eq(name, "edit") {
        or_question_str(&args.path)
    } else if str_eq(name, "grep") || str_eq(name, "glob") {
        let p = or_question_str(&args.pattern);
        concat2("模式=", p.as_str())
    } else if str_eq(name, "bash") {
        let c = or_question_str(&args.command);
        truncate_bytes(c.as_str(), 60)
    } else if str_eq(name, "delegate") {
        let c = or_question_str(&args.task);
        truncate_bytes(c.as_str(), 60)
    } else {
        owned(args.json.as_str())
    }
}

/// What to do about a tool call before it runs.
#[derive(Debug, Clone, PartialEq, Eq)]
pub enum ApprovalStep {
    /// Refuse, with the message to show.
    Deny(String),
    /// Run it.
    Allow,
    /// Ask the user, with a warning to show first if there is one.
    Ask(Option<String>),
}

/// The approval step: a policy that forbids bypass mode refuses; the rules'
/// refusal refuses; the rules' approval runs unless a hook asks; bash in an
/// auto-approved sandbox runs; a tool that needs no approval runs; the rest
/// asks.
pub open spec fn approval_spec(
    mode: PermissionMode,
    disable_bypass: bool,
    decision: DecisionView,
    force_ask: bool,
    tool_name: Seq<char>,
    sandboxed_bash_auto: bool,
    requires_approval: bool,
) -> (Option<Seq<char>>, Option<Option<Seq<char>>>) {
    if mode == PermissionMode::Bypass && disable_bypass {
        (Some("托管策略已禁用 bypass 权限模式"@), None)
    } else {
        match decision {
            DecisionView::Deny(r) => (Some(r), None),
            DecisionView::Allow if !force_ask => (None, None),
            _ => if (tool_name == "bash"@ && sandboxed_bash_auto) || !requires_approval {
                (None, None)
            } else {
                (None, Some(match decision {
                    DecisionView::Ask(r) => if r.len() > 0 { Some(r) } else { None },
                    _ => None,
                }))
            },
        }
    }
}

/// Decides whether a tool call runs, is refused, or needs the user.
pub fn approval_step(
    mode: PermissionMode,
    disable_bypass: bool,
    decision: &PermissionDecision,
    force_ask: bool,
    tool_name: &str,
    sandboxed_bash_auto: bool,
    requires_approval: bool,
) -> (r: ApprovalStep)
    ensures
        ({
            let (deny, ask) = approval_spec(mode, disable_bypass, decision@, force_ask, tool_name@, sandboxed_bash_auto, requires_approval);
            match deny {
                Some(m) => r matches ApprovalStep::Deny(x) && x@ == m,
                None => match ask {
                    Some(w) => r matches ApprovalStep::Ask(x) && opt_view(x) == w,
                    None => r == ApprovalStep::Allow,
                },
            }
        }),
{
    if mode == PermissionMode::Bypass && disable_bypass {
        return ApprovalStep::Deny(owned("托管策略已禁用 bypass 权限模式"));
    }
    let warning = match decision {
        PermissionDecision::Deny(r) => {
            return ApprovalStep::Deny(owned(r.as_str()));
        },
        PermissionDecision::Allow => {
            if !force_ask {
                return ApprovalStep::Allow;
            }
            None
        },
        PermissionDecision::Ask(r) => {
            if is_empty_str(r.as_str()) {
                None
            } else {
                Some(owned(r.as_str()))
            }
        },
    };
    if str_eq(tool_name, "bash") && sandboxed_bash_auto {
        return ApprovalStep::Allow;
    }
    if !requires_approval {
        return ApprovalStep::Allow;
    }
    ApprovalStep::Ask(warning)
}

/// The pattern of an "always allow" answer: the command for bash, else the
/// path (or the summary when there is none).
pub fn always_allow_pattern(tool_name: &str, detail: &str, path: Option<&str>) -> (r: String)
    ensures
        tool_name@ == "bash"@ ==> r@ == detail@,
        tool_name@ != "bash"@ ==> r@ == match path {
            Some(p) => p@,
            None => detail@,
        },
{
    if str_eq(tool_name, "bash") {
        owned(detail)
    } else {
        match path {
            Some(p) => owned(p),
            None => owned(detail),
        }
    }
}

/// The user message of a turn: the task context block before the request.
pub fn compose_turn_message(context: Option<&str>, input: &str) -> (r: String)
    ensures
        r@ == match context {
            Some(c) => c@ + "\n\n用户请求:\n"@ + input@,
            None => input@,
        },
{
    match context {
        Some(c) => concat3(c, "\n\n用户请求:\n", input),
        None => owned(input),
    }
}

/// The error when a turn uses too many tool rounds.
pub fn round_limit_message(max_rounds: u32) -> (r: String)
    ensures
        r@ == "已达最大工具调用轮次 ("@ + decimal(max_rounds as nat) + ")"@,
{
    let n = decimal_string(max_rounds as usize);
    concat3("已达最大工具调用轮次 (", n.as_str(), ")")
}

/// One skill of a `list_skills` result.
pub struct ListedSkill {
    pub name: String,
    pub source: String,
    pub description: String,
}

/// How a source name is shown.
pub open spec fn source_name_label(s: Seq<char>) -> Seq<char> {
    if s == "builtin"@ {
        "内置"@
    } else if s == "user"@ {
        "用户"@
    } else if s == "project"@ {
        "项目"@
    } else {
        s
    }
}

/// The preview rows of listed skills.
pub open spec fn listed_rows(v: Seq<ListedSkill>) -> Seq<Seq<Seq<char>>> {
    v.map_values(|s: ListedSkill| seq!["/"@ + s.name@, source_name_label(s.source@), s.description@])
}

/// The preview table of a `list_skills` result (none without skills).
pub fn list_skills_preview(t: &Theme, skills: &Vec<ListedSkill>) -> (r: Option<String>)
    ensures
        skills@.len() == 0 ==> r is None,
        skills@.len() > 0 ==> r is Some && r->0@ == table_text(
            t.id != ThemeId::Modern,
            seq!["命令"@, "来源"@, "说明"@],
            listed_rows(skills@),
        ),
{
    if skills.len() == 0 {
        return None;
    }
    let mut rows: Vec<Vec<String>> = Vec::new();
    let mut i: usize = 0;
    while i < skills.len()
        invariant
            i <= skills@.len(),
            rows@.len() == i,
            row_views(rows@) == listed_rows(skills@).take(i as int),
        decreases skills.len() - i,
    {
        let s = &skills[i];
        let src = if str_eq(s.source.as_str(), "builtin") {
            owned("内置")
        } else if str_eq(s.source.as_str(), "user") {
            owned("用户")
        } else if str_eq(s.source.as_str(), "project") {
            owned("项目")
        } else {
            owned(s.source.as_str())
        };
        let row = vec![concat2("/", s.name.as_str()), src, owned(s.description.as_str())];
        let ghost rv = row@;
        proof {
            assert(views(rv) =~= listed_rows(skills@)[i as int]);
        }
        rows.push(row);
        proof {
            assert(rows@[i as int]@ == rv);
            assert(row_views(rows@) =~= listed_rows(skills@).take(i + 1));
        }
        i += 1;
    }
    proof {
        assert(listed_rows(skills@).take(i as int) =~= listed_rows(skills@));
    }
    let headers = vec!["命令", "来源", "说明"];
    let table = render_table(t, headers.as_slice(), rows.as_slice());
    proof {
        assert(header_views(headers@) =~= seq!["命令"@, "来源"@, "说明"@]);
    }
    Some(table)
}

/// The skills of a `list_skills` answer: `None` where it is not JSON or has
/// no `skills` array; for each element its name, source and description
/// where all three are strings.
pub uninterp spec fn listed_skills_json(text: Seq<char>) -> Option<Seq<Option<(Seq<char>, Seq<char>, Seq<char>)>>>;

pub open spec fn listed_opt_views(v: Seq<Option<ListedSkill>>) -> Seq<Option<(Seq<char>, Seq<char>, Seq<char>)>> {
    v.map_values(|o: Option<ListedSkill>| match o {
        Some(s) => Some((s.name@, s.source@, s.description@)),
        None => None,
    })
}

/// `serde_json::from_str::<Value>`, then each element of `skills` with its
/// `name`, `source` and `description` strings.
#[verifier::external_body]
fn read_listed_skills(text: &str) -> (r: Option<Vec<Option<ListedSkill>>>)
    ensures
        match listed_skills_json(text@) {
            Some(v) => r matches Some(x) && listed_opt_views(x@) == v,
            None => r is None,
        },
{
    let v: serde_json::Value = serde_json::from_str(text).ok()?;
    let items = v.get("skills")?.as_array()?;
    Some(items.iter().map(|s| Some(ListedSkill {
        name: s.get("name")?.as_str()?.to_string(),
        source: s.get("source")?.as_str()?.to_string(),
        description: s.get("description")?.as_str()?.to_string(),
    })).collect())
}

/// The skills that have all three fields, in order.
pub open spec fn complete_listed(v: Seq<Option<(Seq<char>, Seq<char>, Seq<char>)>>) -> Seq<(Seq<char>, Seq<char>, Seq<char>)>
    decreases v.len(),
{
    if v.len() == 0 {
        Seq::empty()
    } else {
        let prev = complete_listed(v.drop_last());
        match v.last() {
            Some(x) => prev.push(x),
            None => prev,
        }
    }
}

/// The table rows of skills given as (name, source, description).
pub open spec fn preview_rows(v: Seq<(Seq<char>, Seq<char>, Seq<char>)>) -> Seq<Seq<Seq<char>>> {
    v.map_values(|x: (Seq<char>, Seq<char>, Seq<char>)| seq!["/"@ + x.0, source_name_label(x.1), x.2])
}

pub open spec fn listed_views(v: Seq<ListedSkill>) -> Seq<(Seq<char>, Seq<char>, Seq<char>)> {
    v.map_values(|s: ListedSkill| (s.name@, s.source@, s.description@))
}

/// The table shown for a `list_skills` answer: its complete entries as
/// rows; `None` where the answer is not such JSON or has no complete entry.
pub fn format_list_skills_preview(t: &Theme, json: &str) -> (r: Option<String>)
    ensures
        match listed_skills_json(json@) {
            None => r is None,
            Some(v) => if complete_listed(v).len() == 0 { r is None } else {
                r matches Some(x) && x@ == table_text(t.id != ThemeId::Modern, seq!["命令"@, "来源"@, "说明"@],
                    preview_rows(complete_listed(v)))
            },
        },
{
    let items = match read_listed_skills(json) {
        Some(v) => v,
        None => return None,
    };
    let ghost iv = listed_opt_views(items@);
    let mut skills: Vec<ListedSkill> = Vec::new();
    let mut i: usize = 0;
    while i < items.len()
        invariant
            i <= items@.len(),
            iv == listed_opt_views(items@),
            listed_views(skills@) == complete_listed(iv.take(i as int)),
        decreases items.len() - i,
    {
        proof {
            assert(iv.take(i + 1).drop_last() =~= iv.take(i as int));
        }
        match &items[i] {
            Some(s) => {
                let c = ListedSkill { name: owned(s.name.as_str()), source: owned(s.source.as_str()), description: owned(s.description.as_str()) };
                proof {
                    assert(listed_views(skills@.push(c)) =~= listed_views(skills@).push((c.name@, c.source@, c.description@)));
                }
                skills.push(c);
            },
            None => {},
        }
        i += 1;
    }
    proof {
        assert(iv.take(items@.len() as int) =~= iv);
    }
    let r = list_skills_preview(t, &skills);
    proof {
        assert(listed_rows(skills@) =~= preview_rows(listed_views(skills@)));
    }
    r
}

/// The verification checks after a bash command: each check whose command
/// the bash command runs gets the result.
pub open spec fn checks_after_bash(checks: Seq<VerificationCheck>, command: Seq<char>, success: bool) -> Seq<(Option<bool>, Seq<char>)> {
    checks.map_values(|c: VerificationCheck| match c.command {
        Some(x) => if contains_seq(command, x@) || contains_seq(x@, command) {
            (Some(success), if success { "已执行并通过"@ } else { "已执行但失败"@ })
        } else {
            (c.passed, c.message@)
        },
        None => (c.passed, c.message@),
    })
}

/// The results of the checks.
pub open spec fn check_results(checks: Seq<VerificationCheck>) -> Seq<(Option<bool>, Seq<char>)> {
    checks.map_values(|c: VerificationCheck| (c.passed, c.message@))
}

impl TaskState {
    /// Marks the checks that a bash command runs as passed or failed.
    pub fn update_verification_from_bash(&mut self, command: &str, success: bool)
        ensures
            check_results(final(self).verification_checks@) == checks_after_bash(
                old(self).verification_checks@,
                command@,
                success,
            ),
            final(self).verification_checks@.len() == old(self).verification_checks@.len(),
            forall|i: int| 0 <= i < final(self).verification_checks@.len() ==> (#[trigger] final(self).verification_checks@[i]).command
                == old(self).verification_checks@[i].command && final(self).verification_checks@[i].label
                == old(self).verification_checks@[i].label,
            final(self).goal == old(self).goal,
            final(self).plan_steps@ == old(self).plan_steps@,
            final(self).current_step == old(self).current_step,
            final(self).last_errors@ == old(self).last_errors@,
            final(self).changed_files@ == old(self).changed_files@,
            final(self).last_bash_failed == old(self).last_bash_failed,
            final(self).last_bash_command == old(self).last_bash_command,
    {
        let ghost orig = self.verification_checks@;
        let mut checks: Vec<VerificationCheck> = Vec::new();
        std::mem::swap(&mut checks, &mut self.verification_checks);
        let mut i: usize = 0;
        while i < checks.len()
            invariant
                i <= checks@.len(),
                checks@.len() == orig.len(),
                forall|j: int| 0 <= j < orig.len() ==> (#[trigger] checks@[j]).command == orig[j].command
                    && checks@[j].label == orig[j].label,
                forall|j: int| i <= j < orig.len() ==> (#[trigger] checks@[j]) == orig[j],
                check_results(checks@).take(i as int) == checks_after_bash(orig, command@, success).take(i as int),
            decreases checks.len() - i,
        {
            let hit = match &checks[i].command {
                Some(c) => command_contains(command, c.as_str()),
                None => false,
            };
            let ghost before = checks@;
            if hit {
                let mut c = checks.remove(i);
                c.passed = Some(success);
                c.message = if success {
                    owned("已执行并通过")
                } else {
                    owned("已执行但失败")
                };
                checks.insert(i, c);
            }
            proof {
                assert(check_results(checks@).take(i + 1) =~= checks_after_bash(orig, command@, success).take(i + 1)) by {
                    assert forall|j: int| 0 <= j < i + 1 implies check_results(checks@)[j] == checks_after_bash(
                        orig,
                        command@,
                        success,
                    )[j] by {
                        if j < i {
                            assert(check_results(checks@)[j] == check_results(before)[j]);
                            assert(check_results(before).take(i as int)[j] == check_results(before)[j]);
                        }
                    }
                }
            }
            i += 1;
        }
        proof {
            assert(check_results(checks@) =~= check_results(checks@).take(i as int));
            assert(checks_after_bash(orig, command@, success) =~= checks_after_bash(orig, command@, success).take(i as int));
        }
        self.verification_checks = checks;
    }
}


/// The command argument, or nothing.
pub open spec fn command_or_empty(a: CallArgs) -> Seq<char> {
    match opt_view(a.command) {
        Some(c) => c,
        None => Seq::empty(),
    }
}

impl TaskState {
    /// Records a finished tool call: a written file, or a bash command with
    /// its result (which also settles the matching verification checks).
    pub fn track_tool_outcome(&mut self, name: &str, args: &CallArgs, out: &str)
        ensures
            (name@ == "write"@ || name@ == "edit"@) ==> match opt_view(args.path) {
                Some(p) => views(final(self).changed_files@) == (if views(old(self).changed_files@).contains(p) {
                    views(old(self).changed_files@)
                } else {
                    views(old(self).changed_files@).push(p)
                }),
                None => final(self).changed_files@ == old(self).changed_files@,
            },
            (name@ == "write"@ || name@ == "edit"@) ==> final(self).last_errors@ == old(self).last_errors@
                && final(self).verification_checks@ == old(self).verification_checks@
                && final(self).last_bash_failed == old(self).last_bash_failed
                && final(self).plan_steps@ == old(self).plan_steps@,
            name@ == "bash"@ ==> final(self).last_bash_failed == !bash_result_spec(out@).0
                && (final(self).last_bash_command matches Some(c) && c@ == command_or_empty(*args))
                && check_results(final(self).verification_checks@) == checks_after_bash(
                old(self).verification_checks@,
                command_or_empty(*args),
                bash_result_spec(out@).0,
            )
                && final(self).changed_files@ == old(self).changed_files@
                && views(final(self).last_errors@) == (if bash_result_spec(out@).0 {
                    views(old(self).last_errors@)
                } else {
                    views(old(self).last_errors@).push(match bash_result_spec(out@).1 {
                        Some(m) => m,
                        None => "命令执行失败: "@ + command_or_empty(*args),
                    })
                })
                && statuses(final(self).plan_steps@) == (if !bash_result_spec(out@).0 && old(self).current_step < old(self).plan_steps@.len() {
                    statuses(old(self).plan_steps@).update(old(self).current_step as int, StepStatus::Failed)
                } else {
                    statuses(old(self).plan_steps@)
                }),
            name@ != "write"@ && name@ != "edit"@ && name@ != "bash"@ ==> final(self).changed_files@
                == old(self).changed_files@ && final(self).last_errors@ == old(self).last_errors@
                && final(self).verification_checks@ == old(self).verification_checks@
                && final(self).plan_steps@ == old(self).plan_steps@
                && final(self).last_bash_failed == old(self).last_bash_failed,
            final(self).goal == old(self).goal,
            final(self).current_step == old(self).current_step,
    {
        proof {
            reveal_strlit("write");
            reveal_strlit("edit");
            reveal_strlit("bash");
            assert("write"@ != "bash"@ && "edit"@ != "bash"@) by {
                assert("write"@.len() != "bash"@.len());
                assert("edit"@[0] != "bash"@[0]);
            }
        }
        if str_eq(name, "write") || str_eq(name, "edit") {
            match &args.path {
                Some(p) => {
                    self.record_file_change(p.as_str());
                    proof {
                        let ov = views(old(self).changed_files@);
                        if ov.contains(p@) {
                            let i = choose|i: int| 0 <= i < ov.len() && ov[i] == p@;
                            assert(old(self).changed_files@[i]@ == p@);
                        } else {
                            assert(!(exists|i: int| 0 <= i < old(self).changed_files@.len() && old(self).changed_files@[i]@ == p@)) by {
                                if exists|i: int| 0 <= i < old(self).changed_files@.len() && old(self).changed_files@[i]@ == p@ {
                                    let i = choose|i: int| 0 <= i < old(self).changed_files@.len() && old(self).changed_files@[i]@ == p@;
                                    assert(ov[i] == p@);
                                }
                            }
                        }
                    }
                },
                None => {},
            }
        } else if str_eq(name, "bash") {
            let command = match &args.command {
                Some(c) => owned(c.as_str()),
                None => String::new(),
            };
            assert(command@ == command_or_empty(*args));
            let (success, message) = parse_bash_result(out);
            let ghost checks0 = self.verification_checks@;
            self.record_bash_result(command.as_str(), success, message);
            assert(self.verification_checks@ == checks0);
            assert(self.last_bash_failed == !success);
            self.update_verification_from_bash(command.as_str(), success);
            assert(self.last_bash_failed == !success);
            assert(check_results(self.verification_checks@) == checks_after_bash(checks0, command@, success));
        }
    }

    /// Records a failed tool call: the error is kept, a bash command is
    /// recorded as failed, and the current step fails.
    pub fn track_tool_error(&mut self, name: &str, args: &CallArgs, err: &str)
        ensures
            name@ == "bash"@ ==> views(final(self).last_errors@) == views(old(self).last_errors@).push(err@).push(err@),
            name@ != "bash"@ ==> views(final(self).last_errors@) == views(old(self).last_errors@).push(err@),
            name@ == "bash"@ ==> final(self).last_bash_failed && (final(self).last_bash_command matches Some(c)
                && c@ == command_or_empty(*args)),
            name@ != "bash"@ ==> final(self).last_bash_failed == old(self).last_bash_failed
                && final(self).last_bash_command == old(self).last_bash_command,
            statuses(final(self).plan_steps@) == (if old(self).current_step < old(self).plan_steps@.len() {
                statuses(old(self).plan_steps@).update(old(self).current_step as int, StepStatus::Failed)
            } else {
                statuses(old(self).plan_steps@)
            }),
            final(self).changed_files@ == old(self).changed_files@,
            final(self).verification_checks@ == old(self).verification_checks@,
            final(self).goal == old(self).goal,
            final(self).current_step == old(self).current_step,
    {
        let ghost before = self.last_errors@;
        let e = owned(err);
        self.last_errors.push(e);
        proof {
            crate::text::lemma_views_push(before, e);
        }
        if str_eq(name, "bash") {
            let command = match &args.command {
                Some(c) => owned(c.as_str()),
                None => String::new(),
            };
            self.record_bash_result(command.as_str(), false, Some(owned(err)));
        }
        self.mark_current_failed();
    }
}


/// `s` cut to the characters that fit in `max` UTF-8 bytes.
pub fn fitting_prefix(s: &str, max: usize) -> (r: String)
    ensures
        r@ == s@.take(fitting_chars(s@, max as int) as int),
{
    let v = chars_of(s);
    let mut used: usize = 0;
    let mut i: usize = 0;
    proof {
        assert(s@.take(0) =~= Seq::<char>::empty());
        assert(s@.skip(0) =~= s@);
    }
    while i < v.len() && char_utf8_len(v[i]) <= max - used
        invariant
            i <= v@.len(),
            v@ == s@,
            used == utf8_len(s@.take(i as int)),
            used <= max,
            fitting_chars(s@, max as int) == i + fitting_chars(s@.skip(i as int), max - used),
        decreases v.len() - i,
    {
        proof {
            lemma_fitting_step(s@, max as int, i as int);
            crate::text::lemma_utf8_len_take(s@, i as int);
        }
        used = used + char_utf8_len(v[i]);
        i += 1;
    }
    proof {
        if i < v@.len() {
            assert(s@.skip(i as int)[0] == s@[i as int]);
        } else {
            assert(s@.skip(i as int).len() == 0);
        }
        assert(fitting_chars(s@, max as int) == i);
    }
    let head = string_from_range(v.as_slice(), 0, i);
    proof {
        assert(head@ =~= s@.take(i as int));
    }
    head
}

/// What the pre-tool hooks leave to do.
#[derive(Debug, Clone, PartialEq, Eq)]
pub enum PreToolStep {
    /// Answer the model with this text and do not run the tool.
    Reply(String),
    /// Run the tool: asking the user where a hook asked (with its reason to
    /// show, if any), with the input a hook rewrote, if any.
    Run { force_ask: bool, warning: Option<String>, args: Option<String> },
}

/// The step after the pre-tool hooks: a refusal or an error answers the
/// model, a question forces the approval prompt, a rewrite replaces the input.
pub fn pre_tool_step(outcome: Result<HookOutcome, String>) -> (r: PreToolStep)
    ensures
        match outcome {
            Ok(HookOutcome::Deny(reason)) => r matches PreToolStep::Reply(m) && m@ == "[hook 拒绝] "@ + reason@,
            Ok(HookOutcome::Ask(reason)) => r matches PreToolStep::Run { force_ask, warning, args }
                && force_ask && args is None
                && (if reason@.len() > 0 { warning matches Some(w) && w@ == reason@ } else { warning is None }),
            Ok(HookOutcome::Modified(v)) => r matches PreToolStep::Run { force_ask, warning, args }
                && !force_ask && warning is None && (args matches Some(a) && a@ == v@),
            Ok(HookOutcome::Continue) => r matches PreToolStep::Run { force_ask, warning, args }
                && !force_ask && warning is None && args is None,
            Err(e) => r matches PreToolStep::Reply(m) && m@ == "[hook 错误] "@ + e@,
        },
{
    match outcome {
        Ok(HookOutcome::Deny(reason)) => PreToolStep::Reply(concat2("[hook 拒绝] ", reason.as_str())),
        Ok(HookOutcome::Ask(reason)) => {
            let warning = if is_empty_str(reason.as_str()) { None } else { Some(reason) };
            PreToolStep::Run { force_ask: true, warning, args: None }
        },
        Ok(HookOutcome::Modified(v)) => PreToolStep::Run { force_ask: false, warning: None, args: Some(v) },
        Ok(HookOutcome::Continue) => PreToolStep::Run { force_ask: false, warning: None, args: None },
        Err(e) => PreToolStep::Reply(concat2("[hook 错误] ", e.as_str())),
    }
}

/// The answer for an input that fails validation.
pub fn invalid_input_reply(err: &str) -> (r: String)
    ensures
        r@ == "[工具输入无效] "@ + err@,
{
    concat2("[工具输入无效] ", err)
}

/// The error for a tool the registry does not have.
pub fn unknown_tool_message(name: &str) -> (r: String)
    ensures
        r@ == "未知工具: "@ + name@,
{
    concat2("未知工具: ", name)
}

/// The answer when the user refused the call.
pub fn refused_reply() -> (r: &'static str)
    ensures
        r@ == "[用户拒绝执行]"@,
{
    "[用户拒绝执行]"
}

/// The answer when the tool failed.
pub fn tool_error_reply(err: &str) -> (r: String)
    ensures
        r@ == "[工具错误] "@ + err@,
{
    concat2("[工具错误] ", err)
}

/// The warning when a post-tool hook failed.
pub fn post_hook_warning(err: &str) -> (r: String)
    ensures
        r@ == "PostToolUse hook: "@ + err@,
{
    concat2("PostToolUse hook: ", err)
}

/// Whether a git checkpoint is made before a call: checkpoints on, in a
/// repository, for `write` or `edit`, once two files have changed.
pub fn checkpoint_due(enabled: bool, is_repo: bool, tool_name: &str, changed_files: usize) -> (r: bool)
    ensures
        r == (enabled && is_repo && (tool_name@ == "write"@ || tool_name@ == "edit"@) && changed_files >= 2),
{
    if !enabled || !is_repo {
        return false;
    }
    if !(str_eq(tool_name, "write") || str_eq(tool_name, "edit")) {
        return false;
    }
    changed_files >= 2
}

/// The report of a checkpoint, with the commit's first eight bytes (which
/// must end at a character boundary).
pub fn checkpoint_created_message(hash: &str) -> (r: String)
    requires
        utf8_len(hash@) <= 8 || utf8_len(hash@.take(fitting_chars(hash@, 8) as int)) == 8,
    ensures
        r@ == "已创建 git 检查点: "@ + hash@.take(fitting_chars(hash@, 8) as int),
{
    let short = fitting_prefix(hash, 8);
    concat2("已创建 git 检查点: ", short.as_str())
}

/// The preview of a tool's output: the skills table for `list_skills` where
/// one can be made, else the output cut to 200 bytes.
pub fn output_preview(tool_name: &str, out: &str, skills_table: Option<String>) -> (r: String)
    ensures
        r@ == if tool_name@ == "list_skills"@ && skills_table is Some { skills_table->0@ } else { truncate_bytes_spec(out@, 200) },
{
    if str_eq(tool_name, "list_skills") {
        if let Some(t) = skills_table {
            return t;
        }
    }
    truncate_bytes(out, 200)
}

/// The next round of a turn, or the error once `max_rounds` are used up.
pub fn next_round(rounds: u32, max_rounds: u32) -> (r: Result<u32, String>)
    requires
        rounds <= max_rounds,
    ensures
        rounds + 1 > max_rounds ==> (r matches Err(m) && m@ == "已达最大工具调用轮次 ("@ + decimal(max_rounds as nat) + ")"@),
        rounds + 1 <= max_rounds ==> r == Ok::<u32, String>((rounds + 1) as u32),
{
    if rounds >= max_rounds {
        Err(round_limit_message(max_rounds))
    } else {
        Ok(rounds + 1)
    }
}

/// Ends a turn with the model's answer: its text cleaned for display joins
/// the conversation, and is what the turn answers.
pub fn final_answer(messages: &mut Vec<ChatMessage>, content: Option<&str>) -> (r: String)
    ensures
        r@ == sanitize_final_spec(match content { Some(c) => c@, None => Seq::empty() }),
        message_views(final(messages)@) == message_views(old(messages)@).push(ChatMessageView {
            role: "assistant"@,
            content: Some(r@),
            tool_calls: None,
            tool_call_id: None,
            name: None,
        }),
{
    let text = match content {
        Some(c) => sanitize_final(c),
        None => sanitize_final(""),
    };
    proof {
        reveal_strlit("");
        assert(""@ =~= Seq::<char>::empty());
    }
    let msg = ChatMessage::assistant(Some(owned(text.as_str())), None);
    proof {
        assert(message_views(messages@.push(msg)) =~= message_views(messages@).push(msg@));
    }
    messages.push(msg);
    text
}

/// One round of a turn: without tool calls the model's answer, cleaned for
/// display, ends the turn and joins the conversation (`final_answer`); with
/// calls the answer joins the conversation and the calls are to run.
pub fn turn_round(messages: &mut Vec<ChatMessage>, assistant: AssistantMessage) -> (r: RoundOutcome)
    ensures
        calls_of(assistant).len() == 0 ==> (r matches RoundOutcome::Answer(t) && t@ == sanitize_final_spec(
            match opt_view(assistant.content) {
                Some(c) => c,
                None => Seq::empty(),
            },
        ) && message_views(final(messages)@) == message_views(old(messages)@).push(ChatMessageView {
            role: "assistant"@,
            content: Some(t@),
            tool_calls: None,
            tool_call_id: None,
            name: None,
        })),
        calls_of(assistant).len() > 0 ==> (r matches RoundOutcome::ToolCalls(v) && call_views(v@) == calls_of(assistant))
            && message_views(final(messages)@) == message_views(old(messages)@).push(ChatMessageView {
            role: "assistant"@,
            content: opt_view(assistant.content),
            tool_calls: Some(calls_of(assistant)),
            tool_call_id: None,
            name: None,
        }),
{
    let has_calls = match &assistant.tool_calls {
        Some(v) => v.len() > 0,
        None => false,
    };
    if !has_calls {
        let text = match &assistant.content {
            Some(c) => final_answer(messages, Some(c.as_str())),
            None => final_answer(messages, None),
        };
        return RoundOutcome::Answer(text);
    }
    after_assistant(messages, assistant)
}

} // verus!
