//! Matching of rule tool names, glob patterns and workspace paths.
use vstd::prelude::*;
use crate::text::{
    chars_of, contains, contains_char, contains_seq, eq_ignore_ascii_case,
    eq_ignore_ascii_case_seq, ends_with, has_char, has_prefix, has_suffix, lowercase, replace,
    replace_seq, starts_with, str_eq, to_lower, trim, trim_end_char, trim_end_matches_char,
    trim_seq, trim_start_matches, trim_start_str,
};

verus! {

#[verifier::external_type_specification]
#[verifier::external_body]
pub struct ExGlobPattern(glob::Pattern);

/// Whether `glob::Pattern::new` accepts `pattern` (glob syntax of the `glob` crate).
pub uninterp spec fn glob_compiles(pattern: Seq<char>) -> bool;

/// What `glob::Pattern::matches` answers for the pattern compiled from `pattern` on `text`.
pub uninterp spec fn glob_matches(pattern: Seq<char>, text: Seq<char>) -> bool;

/// Whether `std::path::Path::is_absolute` holds of `path`.
pub uninterp spec fn path_is_absolute(path: Seq<char>) -> bool;

/// `std::path::Path::strip_prefix(path, base)`, rendered back to text
/// (`None` where `base` is not a component-wise prefix of `path`).
pub uninterp spec fn path_strip_prefix(path: Seq<char>, base: Seq<char>) -> Option<Seq<char>>;

/// A compiled glob pattern with the text it was compiled from.
pub struct GlobPattern {
    source: String,
    compiled: glob::Pattern,
}

impl GlobPattern {
    /// The text the pattern was compiled from.
    pub closed spec fn source_text(&self) -> Seq<char> {
        self.source@
    }
}

/// `glob::Pattern::new`: compiles a glob; `None` where the crate reports a syntax error.
#[verifier::external_body]
pub(crate) fn compile_glob(pattern: &str) -> (r: Option<GlobPattern>)
    ensures
        r is Some <==> glob_compiles(pattern@),
        r matches Some(g) ==> g.source_text() == pattern@,
{
    match glob::Pattern::new(pattern) {
        Ok(compiled) => Some(GlobPattern { source: pattern.to_string(), compiled }),
        Err(_) => None,
    }
}

/// `glob::Pattern::matches`: whether the compiled glob matches `text`.
#[verifier::external_body]
pub(crate) fn glob_pattern_matches(pattern: &GlobPattern, text: &str) -> (r: bool)
    ensures
        r == glob_matches(pattern.source_text(), text@),
{
    pattern.compiled.matches(text)
}

/// `std::path::Path::is_absolute` on the path written `path`.
#[verifier::external_body]
fn is_absolute_path(path: &str) -> (r: bool)
    ensures
        r == path_is_absolute(path@),
{
    std::path::Path::new(path).is_absolute()
}

/// `std::path::Path::strip_prefix`, the remainder rendered with `to_string_lossy`.
#[verifier::external_body]
fn strip_path_prefix(path: &str, base: &str) -> (r: Option<String>)
    ensures
        match r {
            Some(rel) => path_strip_prefix(path@, base@) == Some(rel@),
            None => path_strip_prefix(path@, base@) is None,
        },
{
    match std::path::Path::new(path).strip_prefix(base) {
        Ok(rel) => Some(rel.to_string_lossy().to_string()),
        Err(_) => None,
    }
}

/// Whether the tool named in a rule covers the tool `actual`.
pub open spec fn tool_name_matches_spec(rule_tool: Seq<char>, actual: Seq<char>) -> bool {
    let rt = trim_seq(rule_tool);
    if rt == "*"@ {
        true
    } else if has_suffix(rt, "*"@) && !has_char(rt, '/') {
        has_prefix(actual, trim_end_char(rt, '*'))
    } else {
        eq_ignore_ascii_case_seq(rt, actual) || eq_ignore_ascii_case_seq(
            lowercase(rt),
            lowercase(actual),
        )
    }
}

/// A rule pattern against text: glob match where the trimmed pattern compiles,
/// substring match where it does not, never for a blank pattern.
pub open spec fn pattern_match_spec(pattern: Seq<char>, text: Seq<char>) -> bool {
    let p = trim_seq(pattern);
    if p.len() == 0 {
        false
    } else if glob_compiles(p) {
        glob_matches(p, text)
    } else {
        contains_seq(text, p)
    }
}

/// A path as rules see it: relative to `workdir` when it lies below it, without a
/// leading `./`, with `/` separators.
pub open spec fn normalize_path_spec(path: Seq<char>, workdir: Seq<char>) -> Seq<char> {
    let t = trim_seq(path);
    if path_is_absolute(t) && path_strip_prefix(t, workdir) is Some {
        replace_seq(path_strip_prefix(t, workdir)->0, "\\"@, "/"@)
    } else {
        replace_seq(trim_start_str(t, "./"@), "\\"@, "/"@)
    }
}

/// A path pattern against a path, tried on the normalised and on the given path.
pub open spec fn path_pattern_match_spec(pattern: Seq<char>, path: Seq<char>, workdir: Seq<char>) -> bool {
    pattern_match_spec(pattern, normalize_path_spec(path, workdir)) || pattern_match_spec(
        pattern,
        path,
    )
}

/// Tool-name matching with `*`, `prefix*` wildcards and case-insensitive names.
pub fn tool_name_matches(rule_tool: &str, actual: &str) -> (r: bool)
    ensures
        r == tool_name_matches_spec(rule_tool@, actual@),
{
    let rt = trim(rule_tool);
    let rts = rt.as_str();
    if str_eq(rts, "*") {
        return true;
    }
    if ends_with(rts, "*") && !contains_char(rts, '/') {
        let prefix = trim_end_matches_char(rts, '*');
        return starts_with(actual, prefix.as_str());
    }
    if eq_ignore_ascii_case(rts, actual) {
        return true;
    }
    let a = normalize_tool_name(rts);
    let b = normalize_tool_name(actual);
    eq_ignore_ascii_case(a.as_str(), b.as_str())
}

/// Built-in tool names compare in lower case; every other name is lowercased too.
pub fn normalize_tool_name(name: &str) -> (r: String)
    ensures
        r@ == lowercase(name@),
{
    to_lower(name)
}

/// Matches a rule pattern against text.
pub fn pattern_match(pattern: &str, text: &str) -> (r: bool)
    ensures
        r == pattern_match_spec(pattern@, text@),
{
    let p = trim(pattern);
    let pv = chars_of(p.as_str());
    if pv.len() == 0 {
        return false;
    }
    match compile_glob(p.as_str()) {
        Some(g) => glob_pattern_matches(&g, text),
        None => contains(text, p.as_str()),
    }
}

/// Path glob matching (paths relative to `workdir`).
pub fn path_pattern_match(pattern: &str, path: &str, workdir: &str) -> (r: bool)
    ensures
        r == path_pattern_match_spec(pattern@, path@, workdir@),
{
    let normalized = normalize_path_for_match(path, workdir);
    pattern_match(pattern, normalized.as_str()) || pattern_match(pattern, path)
}

/// Normalises a path for rule matching.
pub fn normalize_path_for_match(path: &str, workdir: &str) -> (r: String)
    ensures
        r@ == normalize_path_spec(path@, workdir@),
{
    let t = trim(path);
    if is_absolute_path(t.as_str()) {
        match strip_path_prefix(t.as_str(), workdir) {
            Some(rel) => {
                return replace(rel.as_str(), "\\", "/");
            },
            None => {},
        }
    }
    let rest = trim_start_matches(t.as_str(), "./");
    replace(rest.as_str(), "\\", "/")
}

} // verus!
