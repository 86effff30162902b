//! Getting the document skills' scripts and their Python dependencies ready
//! on start: which step is due, what is downloaded, how pip is run, and what
//! is reported. The downloads, the files and pip itself are the application's.
use vstd::prelude::*;
use crate::hooks::{signed_decimal, signed_decimal_string};
use crate::skills::{bundled_doc_skill_ids, bundled_doc_skill_ids_spec};
use crate::text::{concat2, concat3, decimal, decimal_string, has_prefix, owned, starts_with, str_eq, views};

verus! {

/// The file that marks a downloaded set of document skills.
pub fn doc_skills_marker() -> (r: &'static str)
    ensures
        r@ == ".onemini-doc-skills-v1"@,
{
    ".onemini-doc-skills-v1"
}

/// The file that marks installed Python dependencies.
pub fn doc_pydeps_marker() -> (r: &'static str)
    ensures
        r@ == ".onemini-doc-pydeps-v1"@,
{
    ".onemini-doc-pydeps-v1"
}

/// What the skills marker holds.
pub fn doc_skills_marker_text() -> (r: &'static str)
    ensures
        r@ == "onemini document skills bundle v1\n"@,
{
    "onemini document skills bundle v1\n"
}

/// The repository the document skills come from.
pub fn onemini_repo() -> (r: (&'static str, &'static str))
    ensures
        r.0@ == "AJI1026"@,
        r.1@ == "OneMini-CLI"@,
{
    ("AJI1026", "OneMini-CLI")
}

/// The directories downloaded, in order.
pub open spec fn doc_skill_remote_paths_spec() -> Seq<Seq<char>> {
    seq!["skills/shared"@, "skills/pdf"@, "skills/docx"@, "skills/pptx"@, "skills/xlsx"@]
}

pub fn doc_skill_remote_paths() -> (r: Vec<&'static str>)
    ensures
        r@.map_values(|s: &str| s@) == doc_skill_remote_paths_spec(),
{
    let r = vec!["skills/shared", "skills/pdf", "skills/docx", "skills/pptx", "skills/xlsx"];
    assert(r@.map_values(|s: &str| s@) =~= doc_skill_remote_paths_spec());
    r
}

/// The files that must be there for the document skills to work: the
/// shared unpacker and each skill's `SKILL.md`.
pub fn required_doc_files() -> (r: Vec<String>)
    ensures
        views(r@) == seq!["shared/office/unpack.py"@] + bundled_doc_skill_ids_spec().map_values(|id: Seq<char>| id + "/SKILL.md"@),
{
    let ids = bundled_doc_skill_ids();
    let ghost spec_ids = bundled_doc_skill_ids_spec();
    let mut out: Vec<String> = Vec::new();
    out.push(owned("shared/office/unpack.py"));
    let mut i: usize = 0;
    while i < ids.len()
        invariant
            i <= ids@.len(),
            ids@.map_values(|s: &str| s@) == spec_ids,
            spec_ids == bundled_doc_skill_ids_spec(),
            views(out@) == seq!["shared/office/unpack.py"@] + spec_ids.take(i as int).map_values(|id: Seq<char>| id + "/SKILL.md"@),
        decreases ids.len() - i,
    {
        let f = concat2(ids[i], "/SKILL.md");
        proof {
            crate::text::lemma_views_push(out@, f);
            assert(spec_ids[i as int] == ids@[i as int]@);
            assert(spec_ids.take(i + 1).map_values(|id: Seq<char>| id + "/SKILL.md"@)
                =~= spec_ids.take(i as int).map_values(|id: Seq<char>| id + "/SKILL.md"@).push(spec_ids[i as int] + "/SKILL.md"@));
        }
        out.push(f);
        i += 1;
    }
    proof {
        assert(spec_ids.take(ids@.len() as int) =~= spec_ids);
    }
    out
}

/// Whether the document skills are ready: every required file is there
/// (`present[i]` for the `i`-th of `required_doc_files`).
pub fn document_skills_ready(present: &Vec<bool>) -> (r: bool)
    ensures
        r == forall|i: int| 0 <= i < present@.len() ==> present@[i],
{
    let mut i: usize = 0;
    while i < present.len()
        invariant
            i <= present@.len(),
            forall|k: int| 0 <= k < i ==> present@[k],
        decreases present.len() - i,
    {
        if !present[i] {
            return false;
        }
        i += 1;
    }
    true
}

/// Whether a variable switches a step off (`1`).
pub open spec fn switched_off(v: Option<Seq<char>>) -> bool {
    match v { Some(x) => x == "1"@, None => false }
}

fn is_switched_off(v: Option<&str>) -> (r: bool)
    ensures
        r == switched_off(match v { Some(x) => Some(x@), None => None }),
{
    match v {
        Some(x) => str_eq(x, "1"),
        None => false,
    }
}

/// What the start does about the document skills.
#[derive(Debug, Clone, Copy, PartialEq, Eq, Structural)]
pub enum DocBootstrap {
    /// Nothing: switched off, or a ready set was found.
    Nothing,
    /// The scripts are there; make sure of the Python dependencies.
    PythonDeps,
    /// Download the scripts, then the Python dependencies.
    Download,
}

/// The step: nothing where `ONEMINI_SKIP_SKILL_BOOTSTRAP=1` or a ready set
/// of skills was found; the Python dependencies where the data directory
/// holds a marked, ready set; else the download.
pub fn bootstrap_plan(skip_env: Option<&str>, found_ready: bool, data_marked: bool, data_ready: bool) -> (r: DocBootstrap)
    ensures
        r == if switched_off(match skip_env { Some(x) => Some(x@), None => None }) || found_ready {
            DocBootstrap::Nothing
        } else if data_marked && data_ready {
            DocBootstrap::PythonDeps
        } else {
            DocBootstrap::Download
        },
{
    if is_switched_off(skip_env) || found_ready {
        DocBootstrap::Nothing
    } else if data_marked && data_ready {
        DocBootstrap::PythonDeps
    } else {
        DocBootstrap::Download
    }
}

/// A downloaded directory's name under the skills root (`skills/` dropped).
pub fn package_local_name(remote: &str) -> (r: String)
    ensures
        r@ == if has_prefix(remote@, "skills/"@) { remote@.skip(7) } else { remote@ },
{
    if starts_with(remote, "skills/") {
        proof {
            reveal_strlit("skills/");
        }
        let v = crate::text::chars_of(remote);
        let r = crate::text::string_from_range(v.as_slice(), 7, v.len());
        proof {
            assert(r@ =~= remote@.skip(7));
        }
        r
    } else {
        owned(remote)
    }
}

/// The progress line of the `i`-th of `total` packages (counted from 0).
pub fn package_progress(i: usize, total: usize, name: &str) -> (r: String)
    requires
        i < usize::MAX,
    ensures
        r@ == "包 "@ + decimal((i + 1) as nat) + "/"@ + decimal(total as nat) + ": "@ + name@,
{
    let a = decimal_string(i + 1);
    let b = decimal_string(total);
    let mut s = concat3("包 ", a.as_str(), "/");
    s.append(b.as_str());
    s.append(": ");
    s.append(name);
    s
}

/// The report after the download.
pub fn downloaded_message(count: usize) -> (r: String)
    ensures
        r@ == "已下载 "@ + decimal(count as nat) + " 个文件，文档技能脚本已就绪"@,
{
    let n = decimal_string(count);
    concat3("已下载 ", n.as_str(), " 个文件，文档技能脚本已就绪")
}

/// Whether pip is to run: not where `ONEMINI_SKIP_PYTHON_DEPS=1`, nor once
/// its marker is there, nor without the requirements file.
pub fn python_deps_needed(skip_env: Option<&str>, marker_exists: bool, requirements_exist: bool) -> (r: bool)
    ensures
        r == (!switched_off(match skip_env { Some(x) => Some(x@), None => None }) && !marker_exists && requirements_exist),
{
    !is_switched_off(skip_env) && !marker_exists && requirements_exist
}

/// The interpreters tried, in order.
pub fn python_candidates() -> (r: Vec<&'static str>)
    ensures
        r@.len() == 2,
        r@[0]@ == "python3"@,
        r@[1]@ == "python"@,
{
    vec!["python3", "python"]
}

/// pip's arguments for a requirements file, with a progress bar when
/// interactive.
pub fn pip_args(requirements: &str, interactive: bool) -> (r: Vec<String>)
    ensures
        views(r@) == seq!["-m"@, "pip"@, "install"@, "-r"@, requirements@, "--disable-pip-version-check"@]
            + (if interactive { seq!["--progress-bar"@, "on"@] } else { Seq::empty() }),
{
    let mut v: Vec<String> = Vec::new();
    v.push(owned("-m"));
    v.push(owned("pip"));
    v.push(owned("install"));
    v.push(owned("-r"));
    v.push(owned(requirements));
    v.push(owned("--disable-pip-version-check"));
    if interactive {
        v.push(owned("--progress-bar"));
        v.push(owned("on"));
    }
    proof {
        assert(views(v@) =~= seq!["-m"@, "pip"@, "install"@, "-r"@, requirements@, "--disable-pip-version-check"@]
            + (if interactive { seq!["--progress-bar"@, "on"@] } else { Seq::<Seq<char>>::empty() }));
    }
    v
}

/// The warning when pip fails (a missing code counts as -1).
pub fn pip_failed_message(code: Option<i32>, requirements: &str) -> (r: String)
    ensures
        r@ == "pip 安装退出码 "@ + signed_decimal(match code { Some(c) => c as int, None => -1 })
            + "，可稍后手动: pip install -r "@ + requirements@,
{
    let c: i32 = match code {
        Some(c) => c,
        None => -1,
    };
    let n = signed_decimal_string(c);
    let mut s = concat3("pip 安装退出码 ", n.as_str(), "，可稍后手动: pip install -r ");
    s.append(requirements);
    s
}

/// The warning when pip cannot be started.
pub fn pip_unavailable_message(err: &str) -> (r: String)
    ensures
        r@ == "无法运行 pip: "@ + err@,
{
    concat2("无法运行 pip: ", err)
}

} // verus!
