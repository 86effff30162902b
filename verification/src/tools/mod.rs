//! The agent's tools: their identities, output limits and path handling.
//! Running a tool (files, processes, network) is the application's part.
pub mod bash;
pub mod fetch;
pub mod files;

use std::path::PathBuf;
use vstd::prelude::*;
use crate::permissions::mode::PermissionMode;
use crate::sandbox::SandboxRunner;
use crate::text::{
    char_count, chars_of, concat2, decimal, decimal_string, owned, str_eq, string_from_range,
    trim_start_matches, trim_start_str,
};

verus! {

/// A text cut to `max_chars` characters, with a note of the full length.
pub open spec fn truncate_output_spec(text: Seq<char>, max_chars: nat) -> Seq<char> {
    if text.len() <= max_chars {
        text
    } else {
        text.take(max_chars as int) + "\n\n… [输出已截断，共 "@ + decimal(text.len()) + " 字符，显示前 "@
            + decimal(max_chars) + " 字符]"@
    }
}

/// Cuts tool output to `max_chars` characters, saying how long it was.
pub fn truncate_output(text: &str, max_chars: usize) -> (r: String)
    ensures
        r@ == truncate_output_spec(text@, max_chars as nat),
{
    let n = char_count(text);
    if n <= max_chars {
        return owned(text);
    }
    let v = chars_of(text);
    let mut s = string_from_range(v.as_slice(), 0, max_chars);
    proof {
        assert(s@ =~= text@.take(max_chars as int));
    }
    s.append("\n\n… [输出已截断，共 ");
    let a = decimal_string(n);
    s.append(a.as_str());
    s.append(" 字符，显示前 ");
    let b = decimal_string(max_chars);
    s.append(b.as_str());
    s.append(" 字符]");
    s
}

/// The tools offered in a read-only mode.
pub open spec fn readonly_tool_spec(name: Seq<char>) -> bool {
    name == "read"@ || name == "grep"@ || name == "glob"@ || name == "fetch"@ || name == "list_skills"@
}

/// Whether a call of the tool needs the user's approval: every tool but
/// `read`, `grep`, `glob` and `list_skills` (MCP tools included).
pub open spec fn requires_approval_spec(name: Seq<char>) -> bool {
    !(name == "read"@ || name == "grep"@ || name == "glob"@ || name == "list_skills"@)
}

/// Whether a call of the tool needs the user's approval.
pub fn tool_requires_approval(name: &str) -> (r: bool)
    ensures
        r == requires_approval_spec(name@),
{
    !(str_eq(name, "read") || str_eq(name, "grep") || str_eq(name, "glob") || str_eq(name, "list_skills"))
}

/// Whether a tool is offered in a read-only mode.
pub fn is_readonly_tool(name: &str) -> (r: bool)
    ensures
        r == readonly_tool_spec(name@),
{
    str_eq(name, "read") || str_eq(name, "grep") || str_eq(name, "glob") || str_eq(name, "fetch")
        || str_eq(name, "list_skills")
}

/// Which of the named tools the model sees in a mode: all of them, or only
/// the reading ones in plan mode.
pub fn tools_for_mode(mode: PermissionMode, names: &Vec<String>) -> (r: Vec<bool>)
    ensures
        r@.len() == names@.len(),
        forall|i: int| 0 <= i < r@.len() ==> #[trigger] r@[i] == (mode != PermissionMode::Plan || readonly_tool_spec(
            names@[i]@,
        )),
{
    let ro = mode.is_readonly();
    let mut r: Vec<bool> = Vec::new();
    let mut i: usize = 0;
    while i < names.len()
        invariant
            i <= names@.len(),
            r@.len() == i,
            ro == (mode == PermissionMode::Plan),
            forall|k: int| 0 <= k < i ==> #[trigger] r@[k] == (mode != PermissionMode::Plan || readonly_tool_spec(
                names@[k]@,
            )),
        decreases names.len() - i,
    {
        let keep = !ro || is_readonly_tool(names[i].as_str());
        r.push(keep);
        i += 1;
    }
    r
}

/// One part of a path.
#[derive(Debug, Clone, PartialEq, Eq)]
pub enum PathPart {
    Prefix(String),
    Root,
    Current,
    Parent,
    Normal(String),
}

/// The parts without `.`, each `..` removing the part before it (kept when
/// there is none).
pub open spec fn normalize_parts_spec(parts: Seq<PathPart>) -> Seq<PathPart>
    decreases parts.len(),
{
    if parts.len() == 0 {
        Seq::empty()
    } else {
        let prev = normalize_parts_spec(parts.drop_last());
        match parts.last() {
            PathPart::Current => prev,
            PathPart::Parent => if prev.len() > 0 { prev.drop_last() } else { prev.push(PathPart::Parent) },
            other => prev.push(other),
        }
    }
}

/// Removes `.` and resolves `..` lexically.
pub fn normalize_parts(parts: Vec<PathPart>) -> (r: Vec<PathPart>)
    ensures
        r@ == normalize_parts_spec(parts@),
{
    let ghost all = parts@;
    let mut out: Vec<PathPart> = Vec::new();
    let mut rest = parts;
    let ghost mut k: int = 0;
    proof {
        assert(all.skip(0) =~= all);
        assert(all.take(0) =~= Seq::<PathPart>::empty());
    }
    while rest.len() > 0
        invariant
            0 <= k <= all.len(),
            rest@ == all.skip(k),
            out@ == normalize_parts_spec(all.take(k)),
        decreases rest.len(),
    {
        let p = rest.remove(0);
        proof {
            assert(p == all[k]);
            assert(all.take(k + 1).drop_last() =~= all.take(k));
        }
        match p {
            PathPart::Current => {},
            PathPart::Parent => {
                if out.len() > 0 {
                    let _ = out.pop();
                } else {
                    out.push(PathPart::Parent);
                }
            },
            other => {
                out.push(other);
            },
        }
        proof {
            k = k + 1;
            assert(rest@ =~= all.skip(k));
        }
    }
    proof {
        assert(all.take(k) =~= all);
    }
    out
}

/// A part of a path as a value.
pub enum PartView {
    Prefix(Seq<char>),
    Root,
    Current,
    Parent,
    Normal(Seq<char>),
}

pub open spec fn part_view(p: PathPart) -> PartView {
    match p {
        PathPart::Prefix(s) => PartView::Prefix(s@),
        PathPart::Root => PartView::Root,
        PathPart::Current => PartView::Current,
        PathPart::Parent => PartView::Parent,
        PathPart::Normal(s) => PartView::Normal(s@),
    }
}

pub open spec fn part_views(v: Seq<PathPart>) -> Seq<PartView> {
    v.map_values(|p: PathPart| part_view(p))
}

/// `Path::starts_with`: the parts of `base` begin those of `path`.
pub open spec fn parts_start_with(path: Seq<PartView>, base: Seq<PartView>) -> bool {
    base.len() <= path.len() && path.take(base.len() as int) == base
}

fn part_eq(a: &PathPart, b: &PathPart) -> (r: bool)
    ensures
        r == (part_view(*a) == part_view(*b)),
{
    match (a, b) {
        (PathPart::Prefix(x), PathPart::Prefix(y)) => str_eq(x.as_str(), y.as_str()),
        (PathPart::Root, PathPart::Root) => true,
        (PathPart::Current, PathPart::Current) => true,
        (PathPart::Parent, PathPart::Parent) => true,
        (PathPart::Normal(x), PathPart::Normal(y)) => str_eq(x.as_str(), y.as_str()),
        _ => false,
    }
}

/// Whether a path lies under a base, part by part.
pub fn path_starts_with(path: &Vec<PathPart>, base: &Vec<PathPart>) -> (r: bool)
    ensures
        r == parts_start_with(part_views(path@), part_views(base@)),
{
    if base.len() > path.len() {
        return false;
    }
    let mut i: usize = 0;
    while i < base.len()
        invariant
            i <= base@.len() <= path@.len(),
            forall|k: int| 0 <= k < i ==> part_view(#[trigger] path@[k]) == part_view(base@[k]),
        decreases base.len() - i,
    {
        if !part_eq(&path[i], &base[i]) {
            proof {
                assert(part_views(path@).take(base@.len() as int)[i as int] == part_view(path@[i as int]));
                assert(part_views(base@)[i as int] == part_view(base@[i as int]));
            }
            return false;
        }
        i += 1;
    }
    proof {
        assert(part_views(path@).take(base@.len() as int) =~= part_views(base@));
    }
    true
}

/// The path a tool's argument names, resolved without the file system: an
/// absolute path as it is, a relative one under the working directory; then
/// `.` dropped and `..` applied.
pub fn lexical_target(work: Vec<PathPart>, user: Vec<PathPart>, user_absolute: bool) -> (r: Vec<PathPart>)
    ensures
        r@ == normalize_parts_spec(if user_absolute { user@ } else { work@ + user@ }),
{
    if user_absolute {
        normalize_parts(user)
    } else {
        let mut all = work;
        let mut rest = user;
        all.append(&mut rest);
        normalize_parts(all)
    }
}

/// The error for a path outside the working directory.
pub fn outside_workdir_message(user_path: &str) -> (r: String)
    ensures
        r@ == "路径越界，拒绝访问: "@ + user_path@,
{
    concat2("路径越界，拒绝访问: ", user_path)
}

/// The error for a path that a symbolic link leads outside.
pub fn symlink_escape_message(user_path: &str) -> (r: String)
    ensures
        r@ == "路径越界（符号链接逃逸），拒绝访问: "@ + user_path@,
{
    concat2("路径越界（符号链接逃逸），拒绝访问: ", user_path)
}

/// The error for a new file whose directory lies outside.
pub fn parent_outside_message(user_path: &str) -> (r: String)
    ensures
        r@ == "父目录越界，拒绝访问: "@ + user_path@,
{
    concat2("父目录越界，拒绝访问: ", user_path)
}

/// Checks that the resolved path lies in the working directory.
pub fn check_inside(resolved: &Vec<PathPart>, work: &Vec<PathPart>, user_path: &str) -> (r: Result<(), String>)
    ensures
        parts_start_with(part_views(resolved@), part_views(work@)) ==> r is Ok,
        !parts_start_with(part_views(resolved@), part_views(work@)) ==> (r matches Err(m) && m@ == "路径越界，拒绝访问: "@ + user_path@),
{
    if path_starts_with(resolved, work) {
        Ok(())
    } else {
        Err(outside_workdir_message(user_path))
    }
}

/// The check on an existing path once resolved through its links: it must
/// still lie inside the working directory.
pub fn check_canonical_inside(canonical: &Vec<PathPart>, work: &Vec<PathPart>, user_path: &str) -> (r: Result<(), String>)
    ensures
        parts_start_with(part_views(canonical@), part_views(work@)) ==> r is Ok,
        !parts_start_with(part_views(canonical@), part_views(work@)) ==> (r matches Err(m) && m@
            == "路径越界（符号链接逃逸），拒绝访问: "@ + user_path@),
{
    if path_starts_with(canonical, work) {
        Ok(())
    } else {
        Err(symlink_escape_message(user_path))
    }
}

/// The check on the existing directory of a new path, resolved through its
/// links: it must lie inside the working directory.
pub fn check_parent_inside(parent: &Vec<PathPart>, work: &Vec<PathPart>, user_path: &str) -> (r: Result<(), String>)
    ensures
        parts_start_with(part_views(parent@), part_views(work@)) ==> r is Ok,
        !parts_start_with(part_views(parent@), part_views(work@)) ==> (r matches Err(m) && m@
            == "父目录越界，拒绝访问: "@ + user_path@),
{
    if path_starts_with(parent, work) {
        Ok(())
    } else {
        Err(parent_outside_message(user_path))
    }
}

/// The path used under the working directory where neither it nor its
/// directory exists yet: leading `./`, then leading `../`, dropped.
pub fn fallback_relative(user_path: &str) -> (r: String)
    ensures
        r@ == trim_start_str(trim_start_str(user_path@, "./"@), "../"@),
{
    let a = trim_start_matches(user_path, "./");
    trim_start_matches(a.as_str(), "../")
}

/// No part is `.` or `..`.
pub open spec fn plain_parts(v: Seq<PathPart>) -> bool {
    forall|i: int| 0 <= i < v.len() ==> !(#[trigger] v[i] is Current) && !(v[i] is Parent)
}

/// No part is `..`.
pub open spec fn no_parent_parts(v: Seq<PathPart>) -> bool {
    forall|i: int| 0 <= i < v.len() ==> !(#[trigger] v[i] is Parent)
}

proof fn lemma_normalize_plain(a: Seq<PathPart>)
    requires
        plain_parts(a),
    ensures
        normalize_parts_spec(a) == a,
    decreases a.len(),
{
    if a.len() > 0 {
        assert(plain_parts(a.drop_last())) by {
            assert forall|i: int| 0 <= i < a.drop_last().len() implies !(#[trigger] a.drop_last()[i] is Current) && !(a.drop_last()[i] is Parent) by {
                assert(a.drop_last()[i] == a[i]);
            }
        }
        lemma_normalize_plain(a.drop_last());
        assert(!(a[a.len() - 1] is Current) && !(a[a.len() - 1] is Parent));
        assert(a.drop_last().push(a.last()) =~= a);
    }
}

proof fn lemma_normalize_append(a: Seq<PathPart>, b: Seq<PathPart>)
    requires
        no_parent_parts(b),
    ensures
        normalize_parts_spec(a + b).len() >= normalize_parts_spec(a).len(),
        normalize_parts_spec(a + b).take(normalize_parts_spec(a).len() as int) == normalize_parts_spec(a),
    decreases b.len(),
{
    if b.len() == 0 {
        assert(a + b =~= a);
        assert(normalize_parts_spec(a).take(normalize_parts_spec(a).len() as int) =~= normalize_parts_spec(a));
    } else {
        assert(no_parent_parts(b.drop_last())) by {
            assert forall|i: int| 0 <= i < b.drop_last().len() implies !(#[trigger] b.drop_last()[i] is Parent) by {
                assert(b.drop_last()[i] == b[i]);
            }
        }
        lemma_normalize_append(a, b.drop_last());
        assert((a + b).drop_last() =~= a + b.drop_last());
        assert((a + b).last() == b.last());
        assert(!(b[b.len() - 1] is Parent));
        let prev = normalize_parts_spec(a + b.drop_last());
        let n = normalize_parts_spec(a).len() as int;
        assert(prev.push((a + b).last()).take(n) =~= prev.take(n));
    }
}

/// A relative path without `..` stays in the working directory: resolved
/// against a working directory without `.` or `..`, it begins with it.
pub proof fn lemma_relative_without_parent_stays_inside(work: Seq<PathPart>, user: Seq<PathPart>)
    requires
        plain_parts(work),
        no_parent_parts(user),
    ensures
        parts_start_with(part_views(normalize_parts_spec(work + user)), part_views(work)),
{
    lemma_normalize_plain(work);
    lemma_normalize_append(work, user);
    let r = normalize_parts_spec(work + user);
    assert(part_views(r).take(work.len() as int) =~= part_views(work)) by {
        assert forall|i: int| 0 <= i < work.len() implies part_views(r)[i] == part_views(work)[i] by {
            assert(r.take(work.len() as int)[i] == work[i]);
        }
    }
}

/// The `read` tool.
pub struct ReadTool {
    pub workdir: PathBuf,
}

impl ReadTool {
    pub fn new(workdir: PathBuf) -> (r: Self)
        ensures
            r.workdir == workdir,
    {
        ReadTool { workdir }
    }
}

/// The `write` tool.
pub struct WriteTool {
    pub workdir: PathBuf,
}

impl WriteTool {
    pub fn new(workdir: PathBuf) -> (r: Self)
        ensures
            r.workdir == workdir,
    {
        WriteTool { workdir }
    }
}

/// The `edit` tool.
pub struct EditTool {
    pub workdir: PathBuf,
}

impl EditTool {
    pub fn new(workdir: PathBuf) -> (r: Self)
        ensures
            r.workdir == workdir,
    {
        EditTool { workdir }
    }
}

/// The `grep` tool.
pub struct GrepTool {
    pub workdir: PathBuf,
}

impl GrepTool {
    pub fn new(workdir: PathBuf) -> (r: Self)
        ensures
            r.workdir == workdir,
    {
        GrepTool { workdir }
    }
}

/// The `glob` tool.
pub struct GlobTool {
    pub workdir: PathBuf,
}

impl GlobTool {
    pub fn new(workdir: PathBuf) -> (r: Self)
        ensures
            r.workdir == workdir,
    {
        GlobTool { workdir }
    }
}

/// The `list_skills` tool.
pub struct ListSkillsTool {
    pub workdir: PathBuf,
}

impl ListSkillsTool {
    pub fn new(workdir: PathBuf) -> (r: Self)
        ensures
            r.workdir == workdir,
    {
        ListSkillsTool { workdir }
    }
}

/// The `fetch` tool.
pub struct FetchTool {}

impl FetchTool {
    pub fn new() -> Self {
        FetchTool {}
    }
}

/// The `delegate` tool: a sub-agent, in a git worktree if asked.
pub struct DelegateTool {
    pub workdir: PathBuf,
    pub use_worktree: bool,
}

impl DelegateTool {
    pub fn new(workdir: PathBuf, use_worktree: bool) -> (r: Self)
        ensures
            r.workdir == workdir,
            r.use_worktree == use_worktree,
    {
        DelegateTool { workdir, use_worktree }
    }
}

/// The `bash` tool, running commands through the sandbox.
pub struct BashTool {
    pub workdir: PathBuf,
    pub sandbox: SandboxRunner,
}

impl BashTool {
    pub fn new(workdir: PathBuf, sandbox: SandboxRunner) -> (r: Self)
        ensures
            r.workdir == workdir,
            r.sandbox == sandbox,
    {
        BashTool { workdir, sandbox }
    }
}

} // verus!
