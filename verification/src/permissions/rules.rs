//! Permission rules: an effect for a tool, optionally narrowed by a pattern.
use vstd::prelude::*;
use crate::text::owned;

verus! {

/// What a matching rule decides.
#[derive(Debug, Clone, Copy, PartialEq, Eq, Structural)]
pub enum RuleEffect {
    Allow,
    Deny,
    Ask,
}

/// One rule: `effect` for `tool`, limited to inputs matching `pattern` (all inputs when empty).
#[derive(Debug, Clone, PartialEq)]
pub struct PermissionRule {
    pub effect: RuleEffect,
    pub tool: String,
    pub pattern: String,
}

/// A rule as a value.
pub struct RuleView {
    pub effect: RuleEffect,
    pub tool: Seq<char>,
    pub pattern: Seq<char>,
}

impl View for PermissionRule {
    type V = RuleView;

    open spec fn view(&self) -> RuleView {
        RuleView { effect: self.effect, tool: self.tool@, pattern: self.pattern@ }
    }
}

/// The values of a list of rules.
pub open spec fn rule_views(rules: Seq<PermissionRule>) -> Seq<RuleView> {
    rules.map_values(|r: PermissionRule| r@)
}

/// The rule value with the given parts.
pub open spec fn rule_of(effect: RuleEffect, tool: Seq<char>, pattern: Seq<char>) -> RuleView {
    RuleView { effect, tool, pattern }
}

/// Legacy rules for whole tools: `effect` for each named tool, no pattern.
pub open spec fn tool_rules(effect: RuleEffect, tools: Seq<String>) -> Seq<RuleView> {
    tools.map_values(|t: String| rule_of(effect, t@, Seq::empty()))
}

/// Legacy bash rules: `effect` for `bash` under each pattern.
pub open spec fn bash_rules(effect: RuleEffect, patterns: Seq<String>) -> Seq<RuleView> {
    patterns.map_values(|p: String| rule_of(effect, "bash"@, p@))
}

/// The rules file: the legacy lists and the rule list.
#[derive(Debug, Clone, PartialEq)]
pub struct PermissionRulesFile {
    pub always_allow: Vec<String>,
    pub always_deny: Vec<String>,
    pub bash_allow_patterns: Vec<String>,
    pub bash_deny_patterns: Vec<String>,
    pub rules: Vec<PermissionRule>,
}

/// The earlier rules format: allow/deny lists of tools and of bash patterns.
#[derive(Debug, Clone)]
pub struct PermissionRules {
    pub always_allow: Vec<String>,
    pub always_deny: Vec<String>,
    pub bash_allow_patterns: Vec<String>,
    pub bash_deny_patterns: Vec<String>,
}

/// The built-in deny rules that protect secrets, `.git`, `.onemini` and the home directory.
pub open spec fn builtin_rule_views() -> Seq<RuleView> {
    seq![
        rule_of(RuleEffect::Deny, "read"@, "**/.env*"@),
        rule_of(RuleEffect::Deny, "read"@, "**/id_rsa*"@),
        rule_of(RuleEffect::Deny, "read"@, "**/*.pem"@),
        rule_of(RuleEffect::Deny, "read"@, "**/credentials.json"@),
        rule_of(RuleEffect::Deny, "grep"@, "**/.env*"@),
        rule_of(RuleEffect::Deny, "grep"@, "**/id_rsa*"@),
        rule_of(RuleEffect::Deny, "grep"@, "**/*.pem"@),
        rule_of(RuleEffect::Deny, "grep"@, "**/credentials.json"@),
        rule_of(RuleEffect::Deny, "glob"@, "**/.env*"@),
        rule_of(RuleEffect::Deny, "glob"@, "**/id_rsa*"@),
        rule_of(RuleEffect::Deny, "glob"@, "**/*.pem"@),
        rule_of(RuleEffect::Deny, "glob"@, "**/credentials.json"@),
        rule_of(RuleEffect::Deny, "write"@, "**/.env*"@),
        rule_of(RuleEffect::Deny, "edit"@, "**/.env*"@),
        rule_of(RuleEffect::Deny, "write"@, "**/id_rsa*"@),
        rule_of(RuleEffect::Deny, "edit"@, "**/id_rsa*"@),
        rule_of(RuleEffect::Deny, "write"@, ".git/**"@),
        rule_of(RuleEffect::Deny, "edit"@, ".git/**"@),
        rule_of(RuleEffect::Deny, "write"@, ".onemini/**"@),
        rule_of(RuleEffect::Deny, "edit"@, ".onemini/**"@),
        rule_of(RuleEffect::Deny, "bash"@, "rm -rf /"@),
        rule_of(RuleEffect::Deny, "bash"@, "rm -rf ~"@),
        rule_of(RuleEffect::Deny, "bash"@, "git push --force*"@),
    ]
}

impl PermissionRulesFile {
    /// A file with only the given rules.
    pub fn with_rules(rules: Vec<PermissionRule>) -> (r: Self)
        ensures
            r.rules@ == rules@,
            r.always_allow@.len() == 0,
            r.always_deny@.len() == 0,
            r.bash_allow_patterns@.len() == 0,
            r.bash_deny_patterns@.len() == 0,
    {
        PermissionRulesFile {
            always_allow: Vec::new(),
            always_deny: Vec::new(),
            bash_allow_patterns: Vec::new(),
            bash_deny_patterns: Vec::new(),
            rules,
        }
    }

    /// Moves the legacy lists into rules, in the order deny tools, allow tools,
    /// bash deny patterns, bash allow patterns; the legacy lists end empty.
    pub fn migrate_legacy(&mut self)
        ensures
            rule_views(final(self).rules@) == rule_views(old(self).rules@) + tool_rules(
                RuleEffect::Deny,
                old(self).always_deny@,
            ) + tool_rules(RuleEffect::Allow, old(self).always_allow@) + bash_rules(
                RuleEffect::Deny,
                old(self).bash_deny_patterns@,
            ) + bash_rules(RuleEffect::Allow, old(self).bash_allow_patterns@),
            final(self).always_allow@.len() == 0,
            final(self).always_deny@.len() == 0,
            final(self).bash_allow_patterns@.len() == 0,
            final(self).bash_deny_patterns@.len() == 0,
    {
        let mut deny: Vec<String> = Vec::new();
        std::mem::swap(&mut deny, &mut self.always_deny);
        push_tool_rules(&mut self.rules, RuleEffect::Deny, &deny);
        let mut allow: Vec<String> = Vec::new();
        std::mem::swap(&mut allow, &mut self.always_allow);
        push_tool_rules(&mut self.rules, RuleEffect::Allow, &allow);
        let mut bash_deny: Vec<String> = Vec::new();
        std::mem::swap(&mut bash_deny, &mut self.bash_deny_patterns);
        push_bash_rules(&mut self.rules, RuleEffect::Deny, &bash_deny);
        let mut bash_allow: Vec<String> = Vec::new();
        std::mem::swap(&mut bash_allow, &mut self.bash_allow_patterns);
        push_bash_rules(&mut self.rules, RuleEffect::Allow, &bash_allow);
    }

    /// The built-in rules that always apply.
    pub fn builtin_defaults() -> (r: Self)
        ensures
            rule_views(r.rules@) == builtin_rule_views(),
            r.always_allow@.len() == 0,
            r.always_deny@.len() == 0,
            r.bash_allow_patterns@.len() == 0,
            r.bash_deny_patterns@.len() == 0,
    {
        let mut v: Vec<PermissionRule> = Vec::new();
        push_rule(&mut v, RuleEffect::Deny, "read", "**/.env*");
        push_rule(&mut v, RuleEffect::Deny, "read", "**/id_rsa*");
        push_rule(&mut v, RuleEffect::Deny, "read", "**/*.pem");
        push_rule(&mut v, RuleEffect::Deny, "read", "**/credentials.json");
        push_rule(&mut v, RuleEffect::Deny, "grep", "**/.env*");
        push_rule(&mut v, RuleEffect::Deny, "grep", "**/id_rsa*");
        push_rule(&mut v, RuleEffect::Deny, "grep", "**/*.pem");
        push_rule(&mut v, RuleEffect::Deny, "grep", "**/credentials.json");
        push_rule(&mut v, RuleEffect::Deny, "glob", "**/.env*");
        push_rule(&mut v, RuleEffect::Deny, "glob", "**/id_rsa*");
        push_rule(&mut v, RuleEffect::Deny, "glob", "**/*.pem");
        push_rule(&mut v, RuleEffect::Deny, "glob", "**/credentials.json");
        push_rule(&mut v, RuleEffect::Deny, "write", "**/.env*");
        push_rule(&mut v, RuleEffect::Deny, "edit", "**/.env*");
        push_rule(&mut v, RuleEffect::Deny, "write", "**/id_rsa*");
        push_rule(&mut v, RuleEffect::Deny, "edit", "**/id_rsa*");
        push_rule(&mut v, RuleEffect::Deny, "write", ".git/**");
        push_rule(&mut v, RuleEffect::Deny, "edit", ".git/**");
        push_rule(&mut v, RuleEffect::Deny, "write", ".onemini/**");
        push_rule(&mut v, RuleEffect::Deny, "edit", ".onemini/**");
        push_rule(&mut v, RuleEffect::Deny, "bash", "rm -rf /");
        push_rule(&mut v, RuleEffect::Deny, "bash", "rm -rf ~");
        push_rule(&mut v, RuleEffect::Deny, "bash", "git push --force*");
        assert(rule_views(v@) =~= builtin_rule_views());
        PermissionRulesFile::with_rules(v)
    }
}

/// Appends one rule.
pub fn push_rule(v: &mut Vec<PermissionRule>, effect: RuleEffect, tool: &str, pattern: &str)
    ensures
        rule_views(final(v)@) == rule_views(old(v)@).push(rule_of(effect, tool@, pattern@)),
{
    v.push(PermissionRule { effect, tool: owned(tool), pattern: owned(pattern) });
    assert(rule_views(v@) =~= rule_views(old(v)@).push(rule_of(effect, tool@, pattern@)));
}

fn push_tool_rules(v: &mut Vec<PermissionRule>, effect: RuleEffect, tools: &Vec<String>)
    ensures
        rule_views(final(v)@) == rule_views(old(v)@) + tool_rules(effect, tools@),
{
    let n = tools.len();
    let mut i: usize = 0;
    while i < n
        invariant
            n == tools@.len(),
            i <= n,
            rule_views(v@) == rule_views(old(v)@) + tool_rules(effect, tools@.take(i as int)),
        decreases n - i,
    {
        push_rule(v, effect, tools[i].as_str(), "");
        proof {
            assert(""@ =~= Seq::<char>::empty()) by {
                reveal_strlit("");
            }
        }
        assert(tool_rules(effect, tools@.take(i + 1)) =~= tool_rules(effect, tools@.take(i as int)).push(
            rule_of(effect, tools@[i as int]@, ""@),
        ));
        i = i + 1;
    }
    assert(tools@.take(n as int) =~= tools@);
}

fn push_bash_rules(v: &mut Vec<PermissionRule>, effect: RuleEffect, patterns: &Vec<String>)
    ensures
        rule_views(final(v)@) == rule_views(old(v)@) + bash_rules(effect, patterns@),
{
    let n = patterns.len();
    let mut i: usize = 0;
    while i < n
        invariant
            n == patterns@.len(),
            i <= n,
            rule_views(v@) == rule_views(old(v)@) + bash_rules(effect, patterns@.take(i as int)),
        decreases n - i,
    {
        push_rule(v, effect, "bash", patterns[i].as_str());
        assert(bash_rules(effect, patterns@.take(i + 1)) =~= bash_rules(effect, patterns@.take(i as int)).push(
            rule_of(effect, "bash"@, patterns@[i as int]@),
        ));
        i = i + 1;
    }
    assert(patterns@.take(n as int) =~= patterns@);
}

} // verus!
