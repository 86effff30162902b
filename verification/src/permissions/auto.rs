//! The heuristic classifier behind the `auto` permission mode.
use vstd::prelude::*;
use crate::permissions::manager::{ArgsView, ToolArgs};
use crate::permissions::patterns::{
    normalize_path_for_match, normalize_path_spec, path_pattern_match, path_pattern_match_spec,
};
use crate::text::{contains, contains_seq, ends_with, has_prefix, has_suffix, lowercase, starts_with, str_eq, to_lower};

verus! {

/// The classifier's verdict.
#[derive(Debug, Clone, Copy, PartialEq, Eq, Structural)]
pub enum AutoDecision {
    Allow,
    Deny,
    Ask,
}

/// Paths that look like secrets: `.env`, `id_rsa`, `*.pem`, `credentials.json`.
pub open spec fn is_sensitive_path_spec(path: Seq<char>, workdir: Seq<char>) -> bool {
    let norm = lowercase(normalize_path_spec(path, workdir));
    contains_seq(norm, ".env"@) || contains_seq(norm, "id_rsa"@) || has_suffix(norm, ".pem"@)
        || contains_seq(norm, "credentials.json"@)
}

/// Arguments that point at secrets, by path or by search pattern.
pub open spec fn is_sensitive_arg_spec(args: ArgsView, workdir: Seq<char>) -> bool {
    match args.path {
        Some(p) => is_sensitive_path_spec(p, workdir),
        None => match args.pattern {
            Some(pat) => {
                let p = lowercase(pat);
                contains_seq(p, ".env"@) || contains_seq(p, "id_rsa"@) || contains_seq(p, "credentials"@)
            },
            None => false,
        },
    }
}

/// Bash commands the classifier always wants confirmed (checked on the lowercased command).
pub open spec fn is_risky_command(cmd: Seq<char>) -> bool {
    ||| contains_seq(cmd, "sudo "@)
    ||| contains_seq(cmd, "curl "@)
    ||| contains_seq(cmd, "wget "@)
    ||| contains_seq(cmd, "| sh"@)
    ||| contains_seq(cmd, "| bash"@)
    ||| contains_seq(cmd, "chmod -r"@)
    ||| contains_seq(cmd, "chmod -R"@)
}

/// Build, test and read-only git commands the classifier lets through.
pub open spec fn is_routine_command(cmd: Seq<char>) -> bool {
    ||| has_prefix(cmd, "cargo test"@)
    ||| has_prefix(cmd, "cargo build"@)
    ||| has_prefix(cmd, "cargo check"@)
    ||| has_prefix(cmd, "git status"@)
    ||| has_prefix(cmd, "git diff"@)
    ||| has_prefix(cmd, "git log"@)
    ||| has_prefix(cmd, "npm run build"@)
    ||| has_prefix(cmd, "npm test"@)
    ||| has_prefix(cmd, "npm run test"@)
}

/// The classifier's verdict on a tool call.
pub open spec fn auto_classify_spec(
    tool: Seq<char>,
    args: ArgsView,
    detail: Seq<char>,
    workdir: Seq<char>,
) -> AutoDecision {
    let t = lowercase(tool);
    if t == "read"@ || t == "grep"@ || t == "glob"@ {
        if is_sensitive_arg_spec(args, workdir) {
            AutoDecision::Deny
        } else {
            AutoDecision::Allow
        }
    } else if t == "bash"@ {
        let cmd = lowercase(detail);
        if is_risky_command(cmd) {
            AutoDecision::Ask
        } else if is_routine_command(cmd) && !contains_seq(cmd, "&& rm"@) && !contains_seq(
            cmd,
            "; rm"@,
        ) {
            AutoDecision::Allow
        } else {
            AutoDecision::Ask
        }
    } else if t == "write"@ || t == "edit"@ {
        match args.path {
            Some(p) => if is_sensitive_path_spec(p, workdir) || path_pattern_match_spec(
                ".git/**"@,
                p,
                workdir,
            ) || path_pattern_match_spec(".onemini/**"@, p, workdir) {
                AutoDecision::Deny
            } else {
                AutoDecision::Allow
            },
            None => AutoDecision::Ask,
        }
    } else {
        AutoDecision::Ask
    }
}

/// Whether a path looks like a secret.
pub fn is_sensitive_path(path: &str, workdir: &str) -> (r: bool)
    ensures
        r == is_sensitive_path_spec(path@, workdir@),
{
    let n = normalize_path_for_match(path, workdir);
    let norm = to_lower(n.as_str());
    let s = norm.as_str();
    contains(s, ".env") || contains(s, "id_rsa") || ends_with(s, ".pem") || contains(
        s,
        "credentials.json",
    )
}

fn is_sensitive_path_arg(args: &ToolArgs, workdir: &str) -> (r: bool)
    ensures
        r == is_sensitive_arg_spec(args@, workdir@),
{
    match &args.path {
        Some(p) => is_sensitive_path(p.as_str(), workdir),
        None => match &args.pattern {
            Some(pat) => {
                let p = to_lower(pat.as_str());
                let s = p.as_str();
                contains(s, ".env") || contains(s, "id_rsa") || contains(s, "credentials")
            },
            None => false,
        },
    }
}

/// Classifies a tool call for the `auto` mode.
pub fn auto_classify(tool: &str, args: &ToolArgs, detail: &str, workdir: &str) -> (r: AutoDecision)
    ensures
        r == auto_classify_spec(tool@, args@, detail@, workdir@),
{
    let tl = to_lower(tool);
    let t = tl.as_str();
    if str_eq(t, "read") || str_eq(t, "grep") || str_eq(t, "glob") {
        if is_sensitive_path_arg(args, workdir) {
            return AutoDecision::Deny;
        }
        return AutoDecision::Allow;
    }
    if str_eq(t, "bash") {
        let lc = to_lower(detail);
        let cmd = lc.as_str();
        if contains(cmd, "sudo ") || contains(cmd, "curl ") || contains(cmd, "wget ") || contains(
            cmd,
            "| sh",
        ) || contains(cmd, "| bash") || contains(cmd, "chmod -r") || contains(cmd, "chmod -R") {
            return AutoDecision::Ask;
        }
        if starts_with(cmd, "cargo test") || starts_with(cmd, "cargo build") || starts_with(
            cmd,
            "cargo check",
        ) || starts_with(cmd, "git status") || starts_with(cmd, "git diff") || starts_with(
            cmd,
            "git log",
        ) || starts_with(cmd, "npm run build") || starts_with(cmd, "npm test") || starts_with(
            cmd,
            "npm run test",
        ) {
            if !contains(cmd, "&& rm") && !contains(cmd, "; rm") {
                return AutoDecision::Allow;
            }
        }
        return AutoDecision::Ask;
    }
    if str_eq(t, "write") || str_eq(t, "edit") {
        match &args.path {
            Some(p) => {
                let ps = p.as_str();
                if is_sensitive_path(ps, workdir) {
                    return AutoDecision::Deny;
                }
                if path_pattern_match(".git/**", ps, workdir) || path_pattern_match(
                    ".onemini/**",
                    ps,
                    workdir,
                ) {
                    return AutoDecision::Deny;
                }
                return AutoDecision::Allow;
            },
            None => {
                return AutoDecision::Ask;
            },
        }
    }
    AutoDecision::Ask
}

} // verus!
