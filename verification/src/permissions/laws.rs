//! Properties of permission decisions that hold for every manager, call and mode.
use vstd::prelude::*;
use crate::permissions::circuit_breaker::{circuit_breaker_spec, CircuitBreaker};
use crate::permissions::manager::{
    active_user_rules, decision_from_effect_spec, evaluate_rules_spec, evaluate_spec,
    is_mutating_tool_spec, match_effect_spec, mode_default_spec, rule_applies, ArgsView,
    DecisionView, ManagerView,
};
use crate::permissions::mode::PermissionMode;
use crate::permissions::patterns::{
    normalize_path_spec, path_is_absolute, path_pattern_match_spec, path_strip_prefix, pattern_match_spec,
    tool_name_matches_spec,
};
use crate::text::{contains_seq, join_seq, lowercase, replace_seq, trim_seq, words};
use crate::permissions::rules::{rule_of, RuleEffect, RuleView};

verus! {

/// A command the breaker refuses is denied in every mode, with or without bypass,
/// whatever the rules say.
pub proof fn lemma_hard_deny_overrides_everything(
    m: ManagerView,
    tool: Seq<char>,
    detail: Seq<char>,
    args: ArgsView,
    workdir: Seq<char>,
    mode: PermissionMode,
    bypass: bool,
)
    requires
        circuit_breaker_spec(tool, detail) == Some(CircuitBreaker::HardDeny),
    ensures
        evaluate_spec(m, tool, detail, args, workdir, mode, bypass) is Deny,
{
}

/// A command the breaker flags for confirmation is asked in every mode, with or
/// without bypass, whatever the rules say.
pub proof fn lemma_force_ask_overrides_bypass(
    m: ManagerView,
    tool: Seq<char>,
    detail: Seq<char>,
    args: ArgsView,
    workdir: Seq<char>,
    mode: PermissionMode,
    bypass: bool,
)
    requires
        circuit_breaker_spec(tool, detail) == Some(CircuitBreaker::ForceAsk),
    ensures
        evaluate_spec(m, tool, detail, args, workdir, mode, bypass) is Ask,
{
}

/// Plan mode never lets a mutating tool run.
pub proof fn lemma_plan_mode_never_allows_mutation(
    m: ManagerView,
    tool: Seq<char>,
    detail: Seq<char>,
    args: ArgsView,
    workdir: Seq<char>,
    bypass: bool,
)
    requires
        is_mutating_tool_spec(tool),
    ensures
        !(evaluate_spec(m, tool, detail, args, workdir, PermissionMode::Plan, bypass) is Allow),
{
}

/// Plan mode lets every non-mutating tool run, whatever the rules say.
pub proof fn lemma_plan_mode_allows_reading(
    m: ManagerView,
    tool: Seq<char>,
    detail: Seq<char>,
    args: ArgsView,
    workdir: Seq<char>,
    bypass: bool,
)
    requires
        !is_mutating_tool_spec(tool),
        circuit_breaker_spec(tool, detail) is None,
    ensures
        evaluate_spec(m, tool, detail, args, workdir, PermissionMode::Plan, bypass) is Allow,
{
}

/// The decision found for an effect is of that effect.
pub proof fn lemma_match_effect_kind(
    rules: Seq<RuleView>,
    effect: RuleEffect,
    tool: Seq<char>,
    detail: Seq<char>,
    args: ArgsView,
    workdir: Seq<char>,
)
    ensures
        match match_effect_spec(rules, effect, tool, detail, args, workdir) {
            Some(d) => (effect == RuleEffect::Allow ==> d is Allow) && (effect == RuleEffect::Deny
                ==> d is Deny) && (effect == RuleEffect::Ask ==> d is Ask),
            None => true,
        },
    decreases rules.len(),
{
    if rules.len() > 0 {
        lemma_match_effect_kind(rules.drop_first(), effect, tool, detail, args, workdir);
    }
}

/// Appending a rule leaves an earlier match in place, and otherwise adds the new
/// rule's own match.
pub proof fn lemma_match_effect_push(
    rules: Seq<RuleView>,
    r: RuleView,
    effect: RuleEffect,
    tool: Seq<char>,
    detail: Seq<char>,
    args: ArgsView,
    workdir: Seq<char>,
)
    ensures
        match_effect_spec(rules.push(r), effect, tool, detail, args, workdir) == (
        match match_effect_spec(rules, effect, tool, detail, args, workdir) {
            Some(d) => Some(d),
            None => match_effect_spec(seq![r], effect, tool, detail, args, workdir),
        }),
    decreases rules.len(),
{
    if rules.len() == 0 {
        assert(rules.push(r) =~= seq![r]);
    } else {
        assert(rules.push(r).drop_first() =~= rules.drop_first().push(r));
        assert(rules.push(r)[0] == rules[0]);
        lemma_match_effect_push(rules.drop_first(), r, effect, tool, detail, args, workdir);
    }
}

/// Outside plan mode, a matching built-in deny rule denies the call unless the
/// breaker has already decided it.
pub proof fn lemma_builtin_deny_wins(
    m: ManagerView,
    tool: Seq<char>,
    detail: Seq<char>,
    args: ArgsView,
    workdir: Seq<char>,
    mode: PermissionMode,
    bypass: bool,
)
    requires
        mode != PermissionMode::Plan,
        circuit_breaker_spec(tool, detail) is None,
        match_effect_spec(m.builtin, RuleEffect::Deny, tool, detail, args, workdir) is Some,
    ensures
        evaluate_spec(m, tool, detail, args, workdir, mode, bypass) is Deny,
{
    lemma_match_effect_kind(m.managed, RuleEffect::Deny, tool, detail, args, workdir);
    lemma_match_effect_kind(active_user_rules(m), RuleEffect::Deny, tool, detail, args, workdir);
    lemma_match_effect_kind(m.builtin, RuleEffect::Deny, tool, detail, args, workdir);
}

/// "Always allow" sticks: once an allow rule without pattern is added for a tool,
/// later calls of that tool are allowed, unless the breaker, plan mode, or a deny or
/// ask rule decides otherwise, or only managed rules count.
pub proof fn lemma_always_allow_sticks(
    m: ManagerView,
    tool: Seq<char>,
    detail: Seq<char>,
    args: ArgsView,
    workdir: Seq<char>,
    mode: PermissionMode,
    bypass: bool,
)
    requires
        !m.managed_only,
        tool_name_matches_spec(tool, tool),
        mode != PermissionMode::Plan,
        circuit_breaker_spec(tool, detail) is None,
        match_effect_spec(m.managed, RuleEffect::Deny, tool, detail, args, workdir) is None,
        match_effect_spec(m.user, RuleEffect::Deny, tool, detail, args, workdir) is None,
        match_effect_spec(m.builtin, RuleEffect::Deny, tool, detail, args, workdir) is None,
        match_effect_spec(m.managed, RuleEffect::Ask, tool, detail, args, workdir) is None,
        match_effect_spec(m.user, RuleEffect::Ask, tool, detail, args, workdir) is None,
    ensures
        evaluate_spec(
            ManagerView {
                user: m.user.push(rule_of(RuleEffect::Allow, tool, Seq::empty())),
                ..m
            },
            tool,
            detail,
            args,
            workdir,
            mode,
            bypass,
        ) is Allow,
{
    let r = rule_of(RuleEffect::Allow, tool, Seq::empty());
    let m2 = ManagerView { user: m.user.push(r), ..m };
    assert(active_user_rules(m2) == m.user.push(r));
    lemma_match_effect_push(m.user, r, RuleEffect::Deny, tool, detail, args, workdir);
    lemma_match_effect_push(m.user, r, RuleEffect::Ask, tool, detail, args, workdir);
    lemma_match_effect_push(m.user, r, RuleEffect::Allow, tool, detail, args, workdir);
    assert(match_effect_spec(seq![r], RuleEffect::Deny, tool, detail, args, workdir) is None) by {
        reveal_with_fuel(match_effect_spec, 2);
        assert(seq![r].drop_first() =~= Seq::<RuleView>::empty());
        assert(!rule_applies(seq![r][0], RuleEffect::Deny, tool, detail, args, workdir));
    }
    assert(match_effect_spec(seq![r], RuleEffect::Ask, tool, detail, args, workdir) is None) by {
        reveal_with_fuel(match_effect_spec, 2);
        assert(seq![r].drop_first() =~= Seq::<RuleView>::empty());
        assert(!rule_applies(seq![r][0], RuleEffect::Ask, tool, detail, args, workdir));
    }
    assert(rule_applies(r, RuleEffect::Allow, tool, detail, args, workdir));
    assert(match_effect_spec(seq![r], RuleEffect::Allow, tool, detail, args, workdir) is Some);
    lemma_match_effect_kind(m.managed, RuleEffect::Allow, tool, detail, args, workdir);
    lemma_match_effect_kind(m2.user, RuleEffect::Allow, tool, detail, args, workdir);
}

/// A bash command that, lowercased with its whitespace runs collapsed, holds
/// one of the destructive phrases (`rm -rf /`, `rm -rf ~`, `rm -rf $home`,
/// `git push --force`, `git push -f `, `drop table`) trips the breaker's hard
/// deny, and so is denied in every mode, bypass included.
pub proof fn lemma_destructive_bash_is_denied(
    m: ManagerView,
    detail: Seq<char>,
    args: ArgsView,
    workdir: Seq<char>,
    mode: PermissionMode,
    bypass: bool,
)
    requires
        contains_seq(join_seq(words(lowercase(detail)), " "@), "rm -rf /"@) || contains_seq(join_seq(words(lowercase(detail)), " "@), "rm -rf ~"@)
            || contains_seq(join_seq(words(lowercase(detail)), " "@), "rm -rf $home"@) || contains_seq(
            join_seq(words(lowercase(detail)), " "@),
            "git push --force"@,
        ) || contains_seq(join_seq(words(lowercase(detail)), " "@), "git push -f "@) || contains_seq(
            join_seq(words(lowercase(detail)), " "@),
            "drop table"@,
        ),
    ensures
        circuit_breaker_spec("bash"@, detail) == Some(CircuitBreaker::HardDeny),
        evaluate_spec(m, "bash"@, detail, args, workdir, mode, bypass) is Deny,
{
}

/// A bash command that, compacted, holds `rm -rf .` or `rm -rf $pwd`, or is
/// exactly `rm -rf`, and none of the destructive phrases, is always asked,
/// bypass included.
pub proof fn lemma_risky_bash_is_asked(
    m: ManagerView,
    detail: Seq<char>,
    args: ArgsView,
    workdir: Seq<char>,
    mode: PermissionMode,
    bypass: bool,
)
    requires
        contains_seq(join_seq(words(lowercase(detail)), " "@), "rm -rf ."@) || contains_seq(join_seq(words(lowercase(detail)), " "@), "rm -rf $pwd"@)
            || join_seq(words(lowercase(detail)), " "@) == "rm -rf"@,
        !contains_seq(join_seq(words(lowercase(detail)), " "@), "rm -rf /"@),
        !contains_seq(join_seq(words(lowercase(detail)), " "@), "rm -rf ~"@),
        !contains_seq(join_seq(words(lowercase(detail)), " "@), "rm -rf $home"@),
        !contains_seq(join_seq(words(lowercase(detail)), " "@), "git push --force"@),
        !contains_seq(join_seq(words(lowercase(detail)), " "@), "git push -f "@),
        !contains_seq(join_seq(words(lowercase(detail)), " "@), "drop table"@),
    ensures
        circuit_breaker_spec("bash"@, detail) == Some(CircuitBreaker::ForceAsk),
        evaluate_spec(m, "bash"@, detail, args, workdir, mode, bypass) is Ask,
{
}

/// Only bash commands can trip the breaker.
pub proof fn lemma_breaker_only_for_bash(tool: Seq<char>, detail: Seq<char>)
    requires
        tool != "bash"@,
    ensures
        circuit_breaker_spec(tool, detail) is None,
{
}

/// In accept-edits mode a `write` or `edit` that no rule decides is allowed,
/// unless its path is a secret (`.env*`, `id_rsa*`) or lies under `.git` or
/// `.onemini`.
pub proof fn lemma_accept_edits_allows_edits(
    m: ManagerView,
    tool: Seq<char>,
    detail: Seq<char>,
    args: ArgsView,
    workdir: Seq<char>,
    bypass: bool,
)
    requires
        tool == "write"@ || tool == "edit"@,
        evaluate_rules_spec(m, tool, detail, args, workdir) is None,
        args.path matches Some(p) ==> !path_pattern_match_spec("**/.env*"@, p, workdir)
            && !path_pattern_match_spec("**/id_rsa*"@, p, workdir) && !path_pattern_match_spec(".git/**"@, p, workdir)
            && !path_pattern_match_spec(".onemini/**"@, p, workdir),
    ensures
        evaluate_spec(m, tool, detail, args, workdir, PermissionMode::AcceptEdits, bypass) == DecisionView::Allow,
{
    assert(tool != "bash"@) by {
        reveal_strlit("bash");
        reveal_strlit("write");
        reveal_strlit("edit");
        assert("write"@.len() != "bash"@.len());
        assert("edit"@[0] != "bash"@[0]);
    }
    assert(PermissionMode::AcceptEdits != PermissionMode::Plan);
    assert(PermissionMode::AcceptEdits != PermissionMode::DontAsk);
}

/// An absolute path below the workspace is seen by the rules as the path
/// relative to the workspace, with `/` separators.
pub proof fn lemma_absolute_path_made_relative(path: Seq<char>, workdir: Seq<char>, rel: Seq<char>)
    requires
        path_is_absolute(trim_seq(path)),
        path_strip_prefix(trim_seq(path), workdir) == Some(rel),
    ensures
        normalize_path_spec(path, workdir) == replace_seq(rel, "\\"@, "/"@),
{
}

/// A rule pattern written relative to the workspace applies to the absolute
/// form of the same path: if it matches the part of an absolute path below
/// the workspace, it matches the path.
pub proof fn lemma_relative_rule_covers_absolute_path(
    pattern: Seq<char>,
    path: Seq<char>,
    workdir: Seq<char>,
    rel: Seq<char>,
)
    requires
        path_is_absolute(trim_seq(path)),
        path_strip_prefix(trim_seq(path), workdir) == Some(rel),
        pattern_match_spec(pattern, replace_seq(rel, "\\"@, "/"@)),
    ensures
        path_pattern_match_spec(pattern, path, workdir),
{
}

} // verus!
