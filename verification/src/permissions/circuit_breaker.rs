//! Commands so dangerous that no mode or rule may let them through unasked.
use vstd::prelude::*;
use crate::text::{contains, contains_seq, join, join_seq, lowercase, split_whitespace, str_eq, to_lower, views, words};

verus! {

/// What the breaker imposes.
#[derive(Debug, Clone, Copy, PartialEq, Eq, Structural)]
pub enum CircuitBreaker {
    /// Refused, whatever the mode or bypass.
    HardDeny,
    /// Always asked, whatever the mode, bypass or classifier.
    ForceAsk,
}

/// A bash command lowercased, with runs of whitespace collapsed to one space.
pub open spec fn compact_command(detail: Seq<char>) -> Seq<char> {
    join_seq(words(lowercase(detail)), " "@)
}

/// Compact commands that are refused outright.
pub open spec fn is_hard_deny_command(c: Seq<char>) -> bool {
    ||| contains_seq(c, "rm -rf /"@)
    ||| contains_seq(c, "rm -rf ~"@)
    ||| contains_seq(c, "rm -rf $home"@)
    ||| contains_seq(c, "git push --force"@)
    ||| contains_seq(c, "git push -f "@)
    ||| contains_seq(c, "drop table"@)
}

/// Compact commands that must always be confirmed.
pub open spec fn is_force_ask_command(c: Seq<char>) -> bool {
    ||| contains_seq(c, "rm -rf ."@)
    ||| contains_seq(c, "rm -rf $pwd"@)
    ||| c == "rm -rf"@
}

/// The breaker's verdict on a tool call.
pub open spec fn circuit_breaker_spec(tool: Seq<char>, detail: Seq<char>) -> Option<CircuitBreaker> {
    if tool == "bash"@ {
        let c = compact_command(detail);
        if is_hard_deny_command(c) {
            Some(CircuitBreaker::HardDeny)
        } else if is_force_ask_command(c) {
            Some(CircuitBreaker::ForceAsk)
        } else {
            None
        }
    } else {
        None
    }
}

/// Checks a tool call against the breaker (only `bash` commands can trip it).
pub fn check_circuit_breaker(tool: &str, detail: &str) -> (r: Option<CircuitBreaker>)
    ensures
        r == circuit_breaker_spec(tool@, detail@),
{
    if !str_eq(tool, "bash") {
        return None;
    }
    let cmd = to_lower(detail);
    let parts = split_whitespace(cmd.as_str());
    let compact = join(&parts, " ");
    let c = compact.as_str();
    if contains(c, "rm -rf /") || contains(c, "rm -rf ~") || contains(c, "rm -rf $home")
        || contains(c, "git push --force") || contains(c, "git push -f ") || contains(
        c,
        "drop table",
    ) {
        return Some(CircuitBreaker::HardDeny);
    }
    if contains(c, "rm -rf .") || contains(c, "rm -rf $pwd") || str_eq(c, "rm -rf") {
        return Some(CircuitBreaker::ForceAsk);
    }
    None
}

} // verus!
