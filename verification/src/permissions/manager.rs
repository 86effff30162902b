//! The permission manager: layers of rules, the mode, and the safety breaker.
use std::path::PathBuf;
use vstd::prelude::*;
use crate::permissions::auto::{auto_classify, auto_classify_spec, AutoDecision};
use crate::permissions::circuit_breaker::{check_circuit_breaker, circuit_breaker_spec, CircuitBreaker};
use crate::permissions::mode::PermissionMode;
use crate::permissions::patterns::{
    path_pattern_match, path_pattern_match_spec, pattern_match, pattern_match_spec,
    tool_name_matches, tool_name_matches_spec,
};
use crate::permissions::rules::{
    push_rule, rule_of, rule_views, PermissionRule, PermissionRulesFile, RuleEffect, RuleView,
};
use crate::text::{concat3, has_prefix, is_empty_str, lowercase, owned, starts_with, str_eq, to_lower};

verus! {

/// The arguments of a tool call that the rules read: its `path` and `pattern`
/// string arguments, where present.
#[derive(Debug, Clone)]
pub struct ToolArgs {
    pub path: Option<String>,
    pub pattern: Option<String>,
}

/// Tool arguments as values.
pub struct ArgsView {
    pub path: Option<Seq<char>>,
    pub pattern: Option<Seq<char>>,
}

/// The view of an optional string.
pub open spec fn opt_view(o: Option<String>) -> Option<Seq<char>> {
    match o {
        Some(s) => Some(s@),
        None => None,
    }
}

impl View for ToolArgs {
    type V = ArgsView;

    open spec fn view(&self) -> ArgsView {
        ArgsView { path: opt_view(self.path), pattern: opt_view(self.pattern) }
    }
}

/// The answer to a tool call.
#[derive(Debug, Clone, PartialEq, Eq)]
pub enum PermissionDecision {
    Allow,
    Deny(String),
    Ask(String),
}

/// A decision as a value.
pub enum DecisionView {
    Allow,
    Deny(Seq<char>),
    Ask(Seq<char>),
}

impl View for PermissionDecision {
    type V = DecisionView;

    open spec fn view(&self) -> DecisionView {
        match self {
            PermissionDecision::Allow => DecisionView::Allow,
            PermissionDecision::Deny(m) => DecisionView::Deny(m@),
            PermissionDecision::Ask(m) => DecisionView::Ask(m@),
        }
    }
}

/// The rule layers a manager consults.
pub struct ManagerView {
    pub user: Seq<RuleView>,
    pub managed: Seq<RuleView>,
    pub builtin: Seq<RuleView>,
    pub managed_only: bool,
}

/// Rule layers, the rules file location and the managed-only switch.
pub struct PermissionManager {
    user_rules: PermissionRulesFile,
    managed_rules: PermissionRulesFile,
    builtin_rules: PermissionRulesFile,
    path: PathBuf,
    allow_managed_rules_only: bool,
}

impl View for PermissionManager {
    type V = ManagerView;

    closed spec fn view(&self) -> ManagerView {
        ManagerView {
            user: rule_views(self.user_rules.rules@),
            managed: rule_views(self.managed_rules.rules@),
            builtin: rule_views(self.builtin_rules.rules@),
            managed_only: self.allow_managed_rules_only,
        }
    }
}

/// The user rules a manager consults: none when only managed rules count.
pub open spec fn active_user_rules(m: ManagerView) -> Seq<RuleView> {
    if m.managed_only {
        Seq::empty()
    } else {
        m.user
    }
}

/// ` (pattern)` after a rule's tool, or nothing for a rule without pattern.
pub open spec fn pattern_suffix(pattern: Seq<char>) -> Seq<char> {
    if pattern.len() == 0 {
        Seq::empty()
    } else {
        " ("@ + pattern + ")"@
    }
}

/// The decision a matching rule gives.
pub open spec fn decision_from_effect_spec(effect: RuleEffect, tool: Seq<char>, pattern: Seq<char>) -> DecisionView {
    match effect {
        RuleEffect::Allow => DecisionView::Allow,
        RuleEffect::Deny => DecisionView::Deny("规则拒绝: "@ + tool + pattern_suffix(pattern)),
        RuleEffect::Ask => DecisionView::Ask("规则要求确认: "@ + tool + pattern_suffix(pattern)),
    }
}

/// Tools whose arguments carry a path or search pattern.
pub open spec fn is_file_tool(t: Seq<char>) -> bool {
    t == "read"@ || t == "write"@ || t == "edit"@ || t == "grep"@ || t == "glob"@
}

/// Whether a rule's non-empty pattern matches the call: the command for bash, the
/// `path` or else `pattern` argument for file tools, the detail otherwise.
pub open spec fn rule_matches_spec(
    pattern: Seq<char>,
    tool: Seq<char>,
    detail: Seq<char>,
    args: ArgsView,
    workdir: Seq<char>,
) -> bool {
    let t = lowercase(tool);
    if t == "bash"@ {
        pattern_match_spec(pattern, detail)
    } else if is_file_tool(t) && args.path is Some {
        path_pattern_match_spec(pattern, args.path->0, workdir)
    } else if is_file_tool(t) && args.pattern is Some {
        pattern_match_spec(pattern, args.pattern->0)
    } else {
        pattern_match_spec(pattern, detail)
    }
}

/// Whether one rule with the given effect applies to the call.
pub open spec fn rule_applies(
    r: RuleView,
    effect: RuleEffect,
    tool: Seq<char>,
    detail: Seq<char>,
    args: ArgsView,
    workdir: Seq<char>,
) -> bool {
    r.effect == effect && tool_name_matches_spec(r.tool, tool) && (r.pattern.len() == 0
        || rule_matches_spec(r.pattern, tool, detail, args, workdir))
}

/// The decision of the first rule in `rules` with `effect` that applies, if any.
pub open spec fn match_effect_spec(
    rules: Seq<RuleView>,
    effect: RuleEffect,
    tool: Seq<char>,
    detail: Seq<char>,
    args: ArgsView,
    workdir: Seq<char>,
) -> Option<DecisionView>
    decreases rules.len(),
{
    if rules.len() == 0 {
        None
    } else if rule_applies(rules[0], effect, tool, detail, args, workdir) {
        Some(decision_from_effect_spec(effect, rules[0].tool, rules[0].pattern))
    } else {
        match_effect_spec(rules.drop_first(), effect, tool, detail, args, workdir)
    }
}

/// Rules in order of precedence: deny (managed, user, built-in), then ask (managed,
/// user), then allow (managed, user, built-in).
pub open spec fn evaluate_rules_spec(
    m: ManagerView,
    tool: Seq<char>,
    detail: Seq<char>,
    args: ArgsView,
    workdir: Seq<char>,
) -> Option<DecisionView> {
    let user = active_user_rules(m);
    let layers_all = seq![m.managed, user, m.builtin];
    if match_effect_spec(m.managed, RuleEffect::Deny, tool, detail, args, workdir) is Some {
        match_effect_spec(m.managed, RuleEffect::Deny, tool, detail, args, workdir)
    } else if match_effect_spec(user, RuleEffect::Deny, tool, detail, args, workdir) is Some {
        match_effect_spec(user, RuleEffect::Deny, tool, detail, args, workdir)
    } else if match_effect_spec(m.builtin, RuleEffect::Deny, tool, detail, args, workdir) is Some {
        match_effect_spec(m.builtin, RuleEffect::Deny, tool, detail, args, workdir)
    } else if match_effect_spec(m.managed, RuleEffect::Ask, tool, detail, args, workdir) is Some {
        match_effect_spec(m.managed, RuleEffect::Ask, tool, detail, args, workdir)
    } else if match_effect_spec(user, RuleEffect::Ask, tool, detail, args, workdir) is Some {
        match_effect_spec(user, RuleEffect::Ask, tool, detail, args, workdir)
    } else if match_effect_spec(m.managed, RuleEffect::Allow, tool, detail, args, workdir) is Some {
        match_effect_spec(m.managed, RuleEffect::Allow, tool, detail, args, workdir)
    } else if match_effect_spec(user, RuleEffect::Allow, tool, detail, args, workdir) is Some {
        match_effect_spec(user, RuleEffect::Allow, tool, detail, args, workdir)
    } else {
        match_effect_spec(m.builtin, RuleEffect::Allow, tool, detail, args, workdir)
    }
}

/// Tools that change files, run commands, delegate or reach MCP servers.
pub open spec fn is_mutating_tool_spec(tool: Seq<char>) -> bool {
    tool == "write"@ || tool == "edit"@ || tool == "bash"@ || tool == "delegate"@ || has_prefix(
        tool,
        "mcp_"@,
    )
}

/// Writes to secrets, `.git` or `.onemini`.
pub open spec fn is_sensitive_path_write_spec(path: Seq<char>, workdir: Seq<char>) -> bool {
    path_pattern_match_spec("**/.env*"@, path, workdir) || path_pattern_match_spec(
        "**/id_rsa*"@,
        path,
        workdir,
    ) || path_pattern_match_spec(".git/**"@, path, workdir) || path_pattern_match_spec(
        ".onemini/**"@,
        path,
        workdir,
    )
}

/// Whether the call writes to a sensitive path.
pub open spec fn is_sensitive_write_spec(args: ArgsView, workdir: Seq<char>) -> bool {
    args.path is Some && is_sensitive_path_write_spec(args.path->0, workdir)
}

/// The decision for a tool call once no rule decided it.
pub open spec fn mode_default_spec(
    tool: Seq<char>,
    detail: Seq<char>,
    args: ArgsView,
    workdir: Seq<char>,
    mode: PermissionMode,
    bypass: bool,
) -> DecisionView {
    if mode == PermissionMode::DontAsk {
        DecisionView::Deny("dont-ask 模式：未匹配 allow 规则"@)
    } else if mode == PermissionMode::AcceptEdits && (tool == "write"@ || tool == "edit"@)
        && !is_sensitive_write_spec(args, workdir) {
        DecisionView::Allow
    } else if mode == PermissionMode::Auto {
        match auto_classify_spec(tool, args, detail, workdir) {
            AutoDecision::Allow => DecisionView::Allow,
            AutoDecision::Deny => DecisionView::Deny("[auto_blocked] 启发式分类器拒绝该操作"@),
            AutoDecision::Ask => DecisionView::Ask(Seq::empty()),
        }
    } else if bypass {
        DecisionView::Allow
    } else if !is_mutating_tool_spec(tool) {
        DecisionView::Allow
    } else {
        DecisionView::Ask(Seq::empty())
    }
}

/// The decision for a tool call: breaker first, then plan mode, then the rules,
/// then the mode.
pub open spec fn evaluate_spec(
    m: ManagerView,
    tool: Seq<char>,
    detail: Seq<char>,
    args: ArgsView,
    workdir: Seq<char>,
    mode: PermissionMode,
    bypass: bool,
) -> DecisionView {
    match circuit_breaker_spec(tool, detail) {
        Some(CircuitBreaker::HardDeny) => DecisionView::Deny("熔断：该操作被硬拒绝"@),
        Some(CircuitBreaker::ForceAsk) => DecisionView::Ask("熔断：该操作需人工确认"@),
        None => if mode == PermissionMode::Plan {
            if is_mutating_tool_spec(tool) {
                DecisionView::Deny("plan 模式禁止变更类工具"@)
            } else {
                DecisionView::Allow
            }
        } else {
            match evaluate_rules_spec(m, tool, detail, args, workdir) {
                Some(d) => d,
                None => mode_default_spec(tool, detail, args, workdir, mode, bypass),
            }
        },
    }
}

/// The rules a fresh installation starts with: read, grep and glob allowed.
pub open spec fn default_user_rule_views() -> Seq<RuleView> {
    seq![
        rule_of(RuleEffect::Allow, "read"@, Seq::empty()),
        rule_of(RuleEffect::Allow, "grep"@, Seq::empty()),
        rule_of(RuleEffect::Allow, "glob"@, Seq::empty()),
    ]
}

/// Whether a rules file still carries entries in the legacy lists.
pub open spec fn has_legacy_entries(f: PermissionRulesFile) -> bool {
    f.always_allow@.len() > 0 || f.always_deny@.len() > 0 || f.bash_allow_patterns@.len() > 0
        || f.bash_deny_patterns@.len() > 0
}

impl PermissionManager {
    /// A manager from the user's rules file as read (`None` where there is none),
    /// the managed rules and switch, and the location of the user's file.
    pub fn from_parts(
        user_file: Option<PermissionRulesFile>,
        managed_rules: PermissionRulesFile,
        allow_managed_rules_only: bool,
        path: PathBuf,
    ) -> (r: Self)
        ensures
            r@.managed == rule_views(managed_rules.rules@),
            r@.managed_only == allow_managed_rules_only,
            r.path_spec() == path,
            r@.builtin == crate::permissions::rules::builtin_rule_views(),
            user_file is None ==> r@.user == default_user_rule_views(),
            user_file matches Some(f) ==> (has_legacy_entries(f) ==> r@.user == rule_views(f.rules@)
                + crate::permissions::rules::tool_rules(RuleEffect::Deny, f.always_deny@)
                + crate::permissions::rules::tool_rules(RuleEffect::Allow, f.always_allow@)
                + crate::permissions::rules::bash_rules(RuleEffect::Deny, f.bash_deny_patterns@)
                + crate::permissions::rules::bash_rules(RuleEffect::Allow, f.bash_allow_patterns@)),
            user_file matches Some(f) ==> (!has_legacy_entries(f) ==> r@.user == rule_views(f.rules@)),
    {
        let user_rules = match user_file {
            Some(f) => {
                let mut file = f;
                if file.always_allow.len() > 0 || file.always_deny.len() > 0
                    || file.bash_allow_patterns.len() > 0 || file.bash_deny_patterns.len() > 0 {
                    file.migrate_legacy();
                }
                file
            },
            None => {
                let mut v: Vec<PermissionRule> = Vec::new();
                push_rule(&mut v, RuleEffect::Allow, "read", "");
                push_rule(&mut v, RuleEffect::Allow, "grep", "");
                push_rule(&mut v, RuleEffect::Allow, "glob", "");
                proof {
                    assert(""@ =~= Seq::<char>::empty()) by {
                        reveal_strlit("");
                    }
                    assert(rule_views(v@) =~= default_user_rule_views());
                }
                PermissionRulesFile::with_rules(v)
            },
        };
        let builtin_rules = PermissionRulesFile::builtin_defaults();
        PermissionManager {
            user_rules,
            managed_rules,
            builtin_rules,
            path,
            allow_managed_rules_only,
        }
    }

    /// Location of the user's rules file.
    pub fn path(&self) -> (r: &PathBuf)
        ensures
            r == self.path_spec(),
    {
        &self.path
    }

    /// Location of the user's rules file.
    pub closed spec fn path_spec(&self) -> PathBuf {
        self.path
    }

    /// The user's rules file, as it would be saved.
    pub fn user_rules(&self) -> (r: &PermissionRulesFile)
        ensures
            rule_views(r.rules@) == self@.user,
    {
        &self.user_rules
    }

    /// Decides a tool call.
    pub fn evaluate(
        &self,
        tool: &str,
        detail: &str,
        args: &ToolArgs,
        workdir: &str,
        mode: PermissionMode,
        bypass: bool,
    ) -> (r: PermissionDecision)
        ensures
            r@ == evaluate_spec(self@, tool@, detail@, args@, workdir@, mode, bypass),
    {
        match check_circuit_breaker(tool, detail) {
            Some(CircuitBreaker::HardDeny) => {
                return PermissionDecision::Deny(owned("熔断：该操作被硬拒绝"));
            },
            Some(CircuitBreaker::ForceAsk) => {
                return PermissionDecision::Ask(owned("熔断：该操作需人工确认"));
            },
            None => {},
        }
        if mode == PermissionMode::Plan {
            if is_mutating_tool(tool) {
                return PermissionDecision::Deny(owned("plan 模式禁止变更类工具"));
            }
            return PermissionDecision::Allow;
        }
        match self.evaluate_rules(tool, detail, args, workdir) {
            Some(d) => {
                return d;
            },
            None => {},
        }
        if mode == PermissionMode::DontAsk {
            return PermissionDecision::Deny(owned("dont-ask 模式：未匹配 allow 规则"));
        }
        if mode == PermissionMode::AcceptEdits && (str_eq(tool, "write") || str_eq(tool, "edit"))
            && !is_sensitive_write(args, workdir) {
            return PermissionDecision::Allow;
        }
        if mode == PermissionMode::Auto {
            return match auto_classify(tool, args, detail, workdir) {
                AutoDecision::Allow => PermissionDecision::Allow,
                AutoDecision::Deny => PermissionDecision::Deny(
                    owned("[auto_blocked] 启发式分类器拒绝该操作"),
                ),
                AutoDecision::Ask => PermissionDecision::Ask(String::new()),
            };
        }
        if bypass {
            return PermissionDecision::Allow;
        }
        if !is_mutating_tool(tool) {
            return PermissionDecision::Allow;
        }
        PermissionDecision::Ask(String::new())
    }

    fn evaluate_rules(&self, tool: &str, detail: &str, args: &ToolArgs, workdir: &str) -> (r: Option<
        PermissionDecision,
    >)
        ensures
            match r {
                Some(d) => evaluate_rules_spec(self@, tool@, detail@, args@, workdir@) == Some(d@),
                None => evaluate_rules_spec(self@, tool@, detail@, args@, workdir@) is None,
            },
    {
        let empty = PermissionRulesFile::with_rules(Vec::new());
        let user = if self.allow_managed_rules_only {
            &empty
        } else {
            &self.user_rules
        };
        proof {
            assert(rule_views(empty.rules@) =~= Seq::<RuleView>::empty());
            assert(rule_views(user.rules@) == active_user_rules(self@));
        }
        let d = match_effect(&self.managed_rules, RuleEffect::Deny, tool, detail, args, workdir);
        if d.is_some() {
            return d;
        }
        let d = match_effect(user, RuleEffect::Deny, tool, detail, args, workdir);
        if d.is_some() {
            return d;
        }
        let d = match_effect(&self.builtin_rules, RuleEffect::Deny, tool, detail, args, workdir);
        if d.is_some() {
            return d;
        }
        let d = match_effect(&self.managed_rules, RuleEffect::Ask, tool, detail, args, workdir);
        if d.is_some() {
            return d;
        }
        let d = match_effect(user, RuleEffect::Ask, tool, detail, args, workdir);
        if d.is_some() {
            return d;
        }
        let d = match_effect(&self.managed_rules, RuleEffect::Allow, tool, detail, args, workdir);
        if d.is_some() {
            return d;
        }
        let d = match_effect(user, RuleEffect::Allow, tool, detail, args, workdir);
        if d.is_some() {
            return d;
        }
        match_effect(&self.builtin_rules, RuleEffect::Allow, tool, detail, args, workdir)
    }

    /// Adds an allow rule to the user's rules (the caller saves the file).
    pub fn add_allow_rule(&mut self, tool: &str, pattern: &str)
        ensures
            final(self)@.user == old(self)@.user.push(rule_of(RuleEffect::Allow, tool@, pattern@)),
            final(self)@.managed == old(self)@.managed,
            final(self)@.builtin == old(self)@.builtin,
            final(self)@.managed_only == old(self)@.managed_only,
            final(self).path_spec() == old(self).path_spec(),
    {
        push_rule(&mut self.user_rules.rules, RuleEffect::Allow, tool, pattern);
    }
}

fn match_effect(
    file: &PermissionRulesFile,
    effect: RuleEffect,
    tool: &str,
    detail: &str,
    args: &ToolArgs,
    workdir: &str,
) -> (r: Option<PermissionDecision>)
    ensures
        match r {
            Some(d) => match_effect_spec(rule_views(file.rules@), effect, tool@, detail@, args@, workdir@)
                == Some(d@),
            None => match_effect_spec(rule_views(file.rules@), effect, tool@, detail@, args@, workdir@) is None,
        },
{
    let n = file.rules.len();
    let mut i: usize = 0;
    assert(rule_views(file.rules@).skip(0) =~= rule_views(file.rules@));
    while i < n
        invariant
            n == file.rules@.len(),
            i <= n,
            match_effect_spec(rule_views(file.rules@), effect, tool@, detail@, args@, workdir@)
                == match_effect_spec(rule_views(file.rules@).skip(i as int), effect, tool@, detail@, args@, workdir@),
        decreases n - i,
    {
        let rule = &file.rules[i];
        let ghost rest = rule_views(file.rules@).skip(i as int);
        assert(rest[0] == rule@);
        assert(rest.drop_first() =~= rule_views(file.rules@).skip(i + 1));
        if rule.effect == effect && tool_name_matches(rule.tool.as_str(), tool) {
            if is_empty_str(rule.pattern.as_str()) || rule_matches(
                rule.pattern.as_str(),
                tool,
                detail,
                args,
                workdir,
            ) {
                return Some(decision_from_effect(effect, rule.tool.as_str(), rule.pattern.as_str()));
            }
        }
        i = i + 1;
    }
    None
}

fn rule_matches(pattern: &str, tool: &str, detail: &str, args: &ToolArgs, workdir: &str) -> (r: bool)
    ensures
        r == rule_matches_spec(pattern@, tool@, detail@, args@, workdir@),
{
    let tl = to_lower(tool);
    let t = tl.as_str();
    if str_eq(t, "bash") {
        return pattern_match(pattern, detail);
    }
    if str_eq(t, "read") || str_eq(t, "write") || str_eq(t, "edit") || str_eq(t, "grep")
        || str_eq(t, "glob") {
        match &args.path {
            Some(p) => {
                return path_pattern_match(pattern, p.as_str(), workdir);
            },
            None => {},
        }
        match &args.pattern {
            Some(p) => {
                return pattern_match(pattern, p.as_str());
            },
            None => {},
        }
    }
    pattern_match(pattern, detail)
}

/// The decision a matching rule gives, with its tool and pattern in the message.
pub fn decision_from_effect(effect: RuleEffect, tool: &str, pattern: &str) -> (r: PermissionDecision)
    ensures
        r@ == decision_from_effect_spec(effect, tool@, pattern@),
{
    let suffix = if is_empty_str(pattern) {
        String::new()
    } else {
        concat3(" (", pattern, ")")
    };
    match effect {
        RuleEffect::Allow => PermissionDecision::Allow,
        RuleEffect::Deny => PermissionDecision::Deny(concat3("规则拒绝: ", tool, suffix.as_str())),
        RuleEffect::Ask => PermissionDecision::Ask(concat3("规则要求确认: ", tool, suffix.as_str())),
    }
}

/// Whether a tool changes state.
pub fn is_mutating_tool(tool: &str) -> (r: bool)
    ensures
        r == is_mutating_tool_spec(tool@),
{
    str_eq(tool, "write") || str_eq(tool, "edit") || str_eq(tool, "bash") || str_eq(tool, "delegate")
        || starts_with(tool, "mcp_")
}

fn is_sensitive_write(args: &ToolArgs, workdir: &str) -> (r: bool)
    ensures
        r == is_sensitive_write_spec(args@, workdir@),
{
    match &args.path {
        Some(p) => is_sensitive_path_write(p.as_str(), workdir),
        None => false,
    }
}

/// Whether a write would touch secrets, `.git` or `.onemini`.
pub fn is_sensitive_path_write(path: &str, workdir: &str) -> (r: bool)
    ensures
        r == is_sensitive_path_write_spec(path@, workdir@),
{
    path_pattern_match("**/.env*", path, workdir) || path_pattern_match("**/id_rsa*", path, workdir)
        || path_pattern_match(".git/**", path, workdir) || path_pattern_match(
        ".onemini/**",
        path,
        workdir,
    )
}

} // verus!
