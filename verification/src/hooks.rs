//! Hooks: commands run before and after tool calls, whose exit code and
//! output allow, refuse, question or rewrite the call.
//!
//! Running the commands is the application's part; this module decides which
//! hooks run, whether a command may run, and what an exit means.
use vstd::prelude::*;
use crate::text::{
    concat2, concat3, contains_char, decimal, decimal_string, has_char, is_empty_str, owned,
    split_whitespace, str_eq, trim, trim_seq, words,
};

verus! {

/// One hook: the event it listens to, the tool it is limited to (if any),
/// and the shell command.
#[derive(Debug, Clone)]
pub struct HookDef {
    pub event: String,
    pub tool: Option<String>,
    pub command: String,
}

/// The hooks of a configuration file.
pub struct HookConfig {
    pub hooks: Vec<HookDef>,
}

impl Default for HookConfig {
    fn default() -> (r: HookConfig)
        ensures
            r.hooks@.len() == 0,
    {
        HookConfig { hooks: Vec::new() }
    }
}

/// What a hook decided. A rewritten input is carried as JSON text.
#[derive(Debug, Clone, PartialEq, Eq)]
pub enum HookOutcome {
    Continue,
    Deny(String),
    Ask(String),
    Modified(String),
}

/// An outcome as a value.
pub enum OutcomeView {
    Continue,
    Deny(Seq<char>),
    Ask(Seq<char>),
    Modified(Seq<char>),
}

impl View for HookOutcome {
    type V = OutcomeView;

    open spec fn view(&self) -> OutcomeView {
        match self {
            HookOutcome::Continue => OutcomeView::Continue,
            HookOutcome::Deny(s) => OutcomeView::Deny(s@),
            HookOutcome::Ask(s) => OutcomeView::Ask(s@),
            HookOutcome::Modified(s) => OutcomeView::Modified(s@),
        }
    }
}

/// The hooks in force and whether a failing hook lets the call through.
pub struct HookRunner {
    pub hooks: Vec<HookDef>,
    pub fail_open: bool,
}

/// Whether a hook applies to an event and tool.
pub open spec fn hook_applies(h: HookDef, event: Seq<char>, tool: Option<Seq<char>>) -> bool {
    h.event@ == event && match h.tool {
        Some(t) => tool == Some(t@),
        None => true,
    }
}

/// The commands of the hooks that apply, in order.
pub open spec fn matching_commands_spec(hooks: Seq<HookDef>, event: Seq<char>, tool: Option<Seq<char>>) -> Seq<Seq<char>>
    decreases hooks.len(),
{
    if hooks.len() == 0 {
        Seq::empty()
    } else {
        let prev = matching_commands_spec(hooks.drop_last(), event, tool);
        if hook_applies(hooks.last(), event, tool) {
            prev.push(hooks.last().command@)
        } else {
            prev
        }
    }
}

pub open spec fn opt_str_view(o: Option<&str>) -> Option<Seq<char>> {
    match o {
        Some(s) => Some(s@),
        None => None,
    }
}

impl HookRunner {
    /// The hooks of the managed policy, followed by the user's unless the
    /// policy allows only its own.
    pub fn from_parts(managed: Vec<HookDef>, user: Vec<HookDef>, managed_only: bool, fail_open: bool) -> (r: HookRunner)
        ensures
            r.hooks@ == (if managed_only { managed@ } else { managed@ + user@ }),
            r.fail_open == fail_open,
    {
        let mut hooks = managed;
        if !managed_only {
            let mut user = user;
            hooks.append(&mut user);
        }
        HookRunner { hooks, fail_open }
    }

    /// The commands to run for an event (and tool), in order.
    pub fn matching_commands(&self, event: &str, tool: Option<&str>) -> (r: Vec<String>)
        ensures
            crate::text::views(r@) == matching_commands_spec(self.hooks@, event@, opt_str_view(tool)),
    {
        let mut r: Vec<String> = Vec::new();
        let mut i: usize = 0;
        while i < self.hooks.len()
            invariant
                i <= self.hooks@.len(),
                crate::text::views(r@) == matching_commands_spec(self.hooks@.take(i as int), event@, opt_str_view(tool)),
            decreases self.hooks.len() - i,
        {
            proof {
                assert(self.hooks@.take(i + 1).drop_last() =~= self.hooks@.take(i as int));
            }
            let h = &self.hooks[i];
            let mut applies = str_eq(h.event.as_str(), event);
            match &h.tool {
                Some(t) => match tool {
                    Some(x) => {
                        if !str_eq(t.as_str(), x) {
                            applies = false;
                        }
                    },
                    None => {
                        applies = false;
                    },
                },
                None => {},
            }
            if applies {
                let ghost before = r@;
                let c = owned(h.command.as_str());
                r.push(c);
                proof {
                    crate::text::lemma_views_push(before, c);
                }
            }
            i += 1;
        }
        proof {
            assert(self.hooks@.take(i as int) =~= self.hooks@);
        }
        r
    }
}

/// The system commands that a hook may start with.
pub open spec fn allowed_hook_commands() -> Seq<Seq<char>> {
    seq![
        "grep"@, "awk"@, "sed"@, "cat"@, "echo"@, "printf"@, "test"@, "["@, "python3"@, "python"@,
        "node"@, "deno"@, "bash"@, "sh"@, "zsh"@, "jq"@, "yq"@, "git"@,
    ]
}

/// How a hook command may run.
#[derive(Debug, Clone, PartialEq, Eq)]
pub enum HookCommandCheck {
    /// A command on the list.
    Allowed,
    /// A path: it may run only from the hooks directory (checked on disk).
    Path(String),
    /// Not allowed, with the message.
    Rejected(String),
}

/// The first word of a command (the command itself when it has none).
pub open spec fn first_word(trimmed: Seq<char>) -> Seq<char> {
    if words(trimmed).len() > 0 { words(trimmed)[0] } else { trimmed }
}

/// The message for a command that is not on the list.
pub open spec fn not_allowed_message(cmd: Seq<char>) -> Seq<char> {
    "[安全拦截] hook 命令不在白名单中: "@ + cmd
        + "（允许: grep, awk, sed, cat, echo, printf, test, [, python3, python, node, deno, bash, sh, zsh, jq, yq, git）"@
}

/// The message for a path outside the hooks directory.
pub open spec fn path_rejected_message(trimmed: Seq<char>) -> Seq<char> {
    "[安全拦截] hook 命令路径不在 ~/.onemini/hooks/ 目录下: "@ + trimmed
}

/// Checks a hook command: a path (with `/` or `\`) must lie in the hooks
/// directory; a bare command must be on the list.
pub fn check_hook_command(command: &str) -> (r: HookCommandCheck)
    ensures
        ({
            let t = trim_seq(command@);
            let first = first_word(t);
            if has_char(first, '/') || has_char(first, '\\') {
                r matches HookCommandCheck::Path(p) && p@ == first
            } else if allowed_hook_commands().contains(first) {
                r == HookCommandCheck::Allowed
            } else {
                r matches HookCommandCheck::Rejected(m) && m@ == not_allowed_message(first)
            }
        }),
{
    let trimmed = trim(command);
    let ws = split_whitespace(trimmed.as_str());
    let first = if ws.len() > 0 {
        owned(ws[0].as_str())
    } else {
        owned(trimmed.as_str())
    };
    if contains_char(first.as_str(), '/') || contains_char(first.as_str(), '\\') {
        return HookCommandCheck::Path(first);
    }
    let allowed = vec![
        "grep", "awk", "sed", "cat", "echo", "printf", "test", "[", "python3", "python", "node",
        "deno", "bash", "sh", "zsh", "jq", "yq", "git",
    ];
    let mut i: usize = 0;
    while i < allowed.len()
        invariant
            i <= allowed@.len(),
            allowed@.map_values(|s: &str| s@) == allowed_hook_commands(),
            forall|j: int| 0 <= j < i ==> allowed_hook_commands()[j] != first@,
            first@ == first_word(trim_seq(command@)),
            !has_char(first@, '/') && !has_char(first@, '\\'),
        decreases allowed.len() - i,
    {
        if str_eq(allowed[i], first.as_str()) {
            proof {
                assert(allowed@.map_values(|s: &str| s@)[i as int] == allowed@[i as int]@);
                assert(allowed_hook_commands()[i as int] == first@);
                assert(allowed_hook_commands().contains(first@));
            }
            return HookCommandCheck::Allowed;
        }
        i += 1;
    }
    proof {
        assert(!allowed_hook_commands().contains(first@));
    }
    HookCommandCheck::Rejected(concat3(
        "[安全拦截] hook 命令不在白名单中: ",
        first.as_str(),
        "（允许: grep, awk, sed, cat, echo, printf, test, [, python3, python, node, deno, bash, sh, zsh, jq, yq, git）",
    ))
}

/// The message for a hook path outside the hooks directory.
pub fn path_rejected(command: &str) -> (r: String)
    ensures
        r@ == path_rejected_message(trim_seq(command@)),
{
    let t = trim(command);
    concat2("[安全拦截] hook 命令路径不在 ~/.onemini/hooks/ 目录下: ", t.as_str())
}

/// The fields of a hook's JSON output that matter: `decision` and `reason`
/// (when they are strings) and `modified_input` (as JSON text).
pub struct HookJson {
    pub decision: Option<String>,
    pub reason: Option<String>,
    pub modified_input: Option<String>,
}

/// A hook's JSON output as values.
pub struct HookJsonView {
    pub decision: Option<Seq<char>>,
    pub reason: Option<Seq<char>>,
    pub modified_input: Option<Seq<char>>,
}

impl View for HookJson {
    type V = HookJsonView;

    open spec fn view(&self) -> HookJsonView {
        HookJsonView {
            decision: crate::permissions::manager::opt_view(self.decision),
            reason: crate::permissions::manager::opt_view(self.reason),
            modified_input: crate::permissions::manager::opt_view(self.modified_input),
        }
    }
}

/// What `serde_json` reads from a text: `None` when it is not JSON.
pub uninterp spec fn hook_json_fields(text: Seq<char>) -> Option<HookJsonView>;

/// `serde_json::from_str::<Value>`, then the `decision`, `reason` and
/// `modified_input` members.
#[verifier::external_body]
fn read_hook_json(text: &str) -> (r: Option<HookJson>)
    ensures
        match hook_json_fields(text@) {
            Some(v) => r is Some && r->0@ == v,
            None => r is None,
        },
{
    match serde_json::from_str::<serde_json::Value>(text) {
        Ok(v) => Some(HookJson {
            decision: v.get("decision").and_then(|d| d.as_str()).map(String::from),
            reason: v.get("reason").and_then(|d| d.as_str()).map(String::from),
            modified_input: v.get("modified_input").map(|m| m.to_string()),
        }),
        Err(_) => None,
    }
}

/// The outcome that a hook's JSON fields give.
pub open spec fn outcome_of_json(v: HookJsonView) -> Option<OutcomeView> {
    match v.decision {
        Some(d) => Some(
            if d == "deny"@ {
                OutcomeView::Deny(match v.reason { Some(r) => r, None => "hook 拒绝"@ })
            } else if d == "ask"@ {
                OutcomeView::Ask(match v.reason { Some(r) => r, None => "hook 要求确认"@ })
            } else {
                OutcomeView::Continue
            },
        ),
        None => match v.modified_input {
            Some(m) => Some(OutcomeView::Modified(m)),
            None => None,
        },
    }
}

/// Decides from JSON fields: `decision` `deny` or `ask` (with `reason`), any
/// other decision continues; without a decision, `modified_input` rewrites.
pub fn outcome_from_json(v: &HookJson) -> (r: Option<HookOutcome>)
    ensures
        match outcome_of_json(v@) {
            Some(o) => r is Some && r->0@ == o,
            None => r is None,
        },
{
    match &v.decision {
        Some(d) => {
            if str_eq(d.as_str(), "deny") {
                Some(HookOutcome::Deny(match &v.reason {
                    Some(r) => owned(r.as_str()),
                    None => owned("hook 拒绝"),
                }))
            } else if str_eq(d.as_str(), "ask") {
                Some(HookOutcome::Ask(match &v.reason {
                    Some(r) => owned(r.as_str()),
                    None => owned("hook 要求确认"),
                }))
            } else {
                Some(HookOutcome::Continue)
            }
        },
        None => match &v.modified_input {
            Some(m) => Some(HookOutcome::Modified(owned(m.as_str()))),
            None => None,
        },
    }
}

/// Reads a hook's standard output as JSON: its decision, if it is JSON and
/// holds one.
pub fn parse_hook_stdout_json(stdout: &str) -> (r: Option<HookOutcome>)
    ensures
        match hook_json_fields(stdout@) {
            Some(v) => match outcome_of_json(v) {
                Some(o) => r is Some && r->0@ == o,
                None => r is None,
            },
            None => r is None,
        },
{
    match read_hook_json(stdout) {
        Some(v) => outcome_from_json(&v),
        None => None,
    }
}

/// A signed number in decimal.
pub open spec fn signed_decimal(n: int) -> Seq<char> {
    if n < 0 { "-"@ + decimal((-n) as nat) } else { decimal(n as nat) }
}

pub(crate) fn signed_decimal_string(n: i32) -> (r: String)
    ensures
        r@ == signed_decimal(n as int),
{
    if n < 0 {
        let m: i64 = -(n as i64);
        let s = decimal_string(m as usize);
        concat2("-", s.as_str())
    } else {
        decimal_string(n as usize)
    }
}

/// What a finished hook means: exit code 2 refuses (with the output, or a
/// default message); another non-zero code fails, or continues when hooks
/// fail open; code 0 goes by the JSON output, if any. A missing code (a
/// signal) counts as -1. `stdout` is the output with whitespace trimmed.
pub fn parse_hook_output(command: &str, code: Option<i32>, stdout: &str, stderr: &str, fail_open: bool) -> (r: Result<HookOutcome, String>)
    ensures
        ({
            let c: int = match code { Some(c) => c as int, None => -1 };
            if c == 2 {
                r is Ok && r->Ok_0@ == OutcomeView::Deny(
                    if stdout@.len() == 0 { "hook 退出码 2: "@ + command@ } else { stdout@ },
                )
            } else if c != 0 {
                if fail_open {
                    r is Ok && r->Ok_0@ == OutcomeView::Continue
                } else {
                    r is Err && r->Err_0@ == "hook 退出码 "@ + signed_decimal(c) + ": "@ + stderr@
                }
            } else {
                match hook_json_fields(stdout@) {
                    Some(v) => match outcome_of_json(v) {
                        Some(o) => r is Ok && r->Ok_0@ == o,
                        None => r is Ok && r->Ok_0@ == OutcomeView::Continue,
                    },
                    None => r is Ok && r->Ok_0@ == OutcomeView::Continue,
                }
            }
        }),
{
    let c: i32 = match code {
        Some(c) => c,
        None => -1,
    };
    if c == 2 {
        let reason = if is_empty_str(stdout) {
            concat2("hook 退出码 2: ", command)
        } else {
            owned(stdout)
        };
        return Ok(HookOutcome::Deny(reason));
    }
    if c != 0 {
        if fail_open {
            return Ok(HookOutcome::Continue);
        }
        let n = signed_decimal_string(c);
        let mut m = concat3("hook 退出码 ", n.as_str(), ": ");
        m.append(stderr);
        return Err(m);
    }
    match parse_hook_stdout_json(stdout) {
        Some(o) => Ok(o),
        None => Ok(HookOutcome::Continue),
    }
}

/// What the chain of hooks does after one hook's outcome.
#[derive(Debug, Clone, PartialEq, Eq)]
pub enum HookStep {
    /// Stop with this outcome (a refusal or a question).
    Stop(HookOutcome),
    /// Go on, with the rewritten input if the hook gave one.
    Next(Option<String>),
}

/// The outcome of a hook whose process could not be run: with `fail_open` the
/// chain goes on, else the error stands.
pub fn launch_failed(error: String, fail_open: bool) -> (r: Result<HookOutcome, String>)
    ensures
        fail_open ==> r == Ok::<HookOutcome, String>(HookOutcome::Continue),
        !fail_open ==> r == Err::<HookOutcome, String>(error),
{
    if fail_open {
        Ok(HookOutcome::Continue)
    } else {
        Err(error)
    }
}

/// One step of the chain: a refusal or a question ends it, a rewrite replaces
/// the input for the following hooks.
pub fn hook_step(outcome: HookOutcome) -> (r: HookStep)
    ensures
        match outcome {
            HookOutcome::Deny(_) | HookOutcome::Ask(_) => r == HookStep::Stop(outcome),
            HookOutcome::Modified(v) => r == HookStep::Next(Some(v)),
            HookOutcome::Continue => r == HookStep::Next(None),
        },
{
    match outcome {
        HookOutcome::Deny(s) => HookStep::Stop(HookOutcome::Deny(s)),
        HookOutcome::Ask(s) => HookStep::Stop(HookOutcome::Ask(s)),
        HookOutcome::Modified(v) => HookStep::Next(Some(v)),
        HookOutcome::Continue => HookStep::Next(None),
    }
}

/// The outcome of a chain that ran through: a rewrite if the input changed.
pub fn chain_result(original: &str, current: &str) -> (r: HookOutcome)
    ensures
        original@ == current@ ==> r@ == OutcomeView::Continue,
        original@ != current@ ==> r@ == OutcomeView::Modified(current@),
{
    if str_eq(original, current) {
        HookOutcome::Continue
    } else {
        HookOutcome::Modified(owned(current))
    }
}

/// What a post-tool hook's outcome means for the call: only a refusal fails
/// it; a hook error fails it unless hooks fail open.
pub fn post_tool_result(outcome: Result<HookOutcome, String>, fail_open: bool) -> (r: Result<(), String>)
    ensures
        match outcome {
            Ok(HookOutcome::Deny(reason)) => r is Err && r->Err_0@ == "PostToolUse hook 拒绝: "@ + reason@,
            Ok(_) => r is Ok,
            Err(e) => if fail_open { r is Ok } else { r is Err && r->Err_0@ == e@ },
        },
{
    match outcome {
        Ok(HookOutcome::Deny(reason)) => Err(concat2("PostToolUse hook 拒绝: ", reason.as_str())),
        Ok(_) => Ok(()),
        Err(e) => {
            if fail_open {
                Ok(())
            } else {
                Err(e)
            }
        },
    }
}

} // verus!
