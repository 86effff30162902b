//! `onemini skills install`: which skills the arguments name, and the
//! progress line while files download. The downloads are the application's.
use vstd::prelude::*;
use crate::skills::catalog::{
    catalog_spec, default_design_skill_ids, default_design_skill_ids_spec, entry_views, find,
    find_spec, CatalogEntry,
};
use crate::text::{
    concat2, concat3, decimal, decimal_string, lemma_seq_lt_total, lemma_seq_lt_transitive,
    owned, seq_lt, str_eq, str_lt, views,
};
use crate::ui::spinner::{frame, frame_spec};
use crate::ui::theme::Theme;

verus! {

/// Options of an installation.
#[derive(Clone, Copy)]
pub struct InstallOptions {
    pub quiet: bool,
}

impl Default for InstallOptions {
    fn default() -> (r: InstallOptions)
        ensures
            !r.quiet,
    {
        InstallOptions { quiet: false }
    }
}

/// The texts strictly increase.
pub open spec fn strictly_sorted(v: Seq<Seq<char>>) -> bool {
    forall|i: int, j: int| 0 <= i < j < v.len() ==> seq_lt(#[trigger] v[i], #[trigger] v[j])
}

/// The skill ids that one argument names: `docs` (or `documents`) the four
/// document skills, `design` the design bundle, anything else itself.
pub open spec fn expand_install_arg(a: Seq<char>) -> Seq<Seq<char>> {
    if a == "docs"@ || a == "documents"@ {
        seq!["docx"@, "pdf"@, "pptx"@, "xlsx"@]
    } else if a == "design"@ {
        default_design_skill_ids_spec()
    } else {
        seq![a]
    }
}

/// The ids that the arguments name, in order, with repeats.
pub open spec fn expand_install_args(args: Seq<Seq<char>>) -> Seq<Seq<char>>
    decreases args.len(),
{
    if args.len() == 0 {
        Seq::empty()
    } else {
        expand_install_args(args.drop_last()) + expand_install_arg(args.last())
    }
}

/// Adds `x` to a strictly increasing list unless it is there.
fn insert_unique_sorted(v: &mut Vec<String>, x: String)
    requires
        strictly_sorted(views(old(v)@)),
    ensures
        strictly_sorted(views(final(v)@)),
        forall|y: Seq<char>| views(final(v)@).contains(y) <==> views(old(v)@).contains(y) || y == x@,
{
    let ghost s = views(v@);
    let mut k: usize = 0;
    while k < v.len() && str_lt(v[k].as_str(), x.as_str())
        invariant
            k <= v@.len(),
            views(v@) == s,
            s.len() == v@.len(),
            forall|i: int| 0 <= i < k ==> seq_lt(#[trigger] s[i], x@),
        decreases v.len() - k,
    {
        proof {
            assert(s[k as int] == v@[k as int]@);
        }
        k += 1;
    }
    if k < v.len() && str_eq(v[k].as_str(), x.as_str()) {
        proof {
            assert(s[k as int] == x@);
            assert forall|y: Seq<char>| s.contains(y) <==> s.contains(y) || y == x@ by {
                if y == x@ {
                    assert(s[k as int] == y);
                }
            }
        }
        return;
    }
    proof {
        if k < s.len() {
            assert(s[k as int] == v@[k as int]@);
            assert(!seq_lt(s[k as int], x@));
            lemma_seq_lt_total(s[k as int], x@);
            assert(seq_lt(x@, s[k as int]));
        }
    }
    let ghost xv = x@;
    v.insert(k, x);
    proof {
        let r = views(v@);
        assert(r =~= s.insert(k as int, xv));
        assert forall|i: int, j: int| 0 <= i < j < r.len() implies seq_lt(#[trigger] r[i], #[trigger] r[j]) by {
            if j < k {
            } else if j == k {
            } else if i == k {
                if j - 1 > k {
                    lemma_seq_lt_transitive(xv, s[k as int], s[j - 1]);
                }
            } else if i < k {
            } else {
            }
        }
        assert forall|y: Seq<char>| r.contains(y) <==> s.contains(y) || y == xv by {
            if y == xv {
                assert(r[k as int] == y);
            }
            if s.contains(y) {
                let i = choose|i: int| 0 <= i < s.len() && s[i] == y;
                if i < k {
                    assert(r[i] == y);
                } else {
                    assert(r[i + 1] == y);
                }
            }
            if r.contains(y) {
                let i = choose|i: int| 0 <= i < r.len() && r[i] == y;
                if i < k {
                    assert(s[i] == y);
                } else if i > k {
                    assert(s[i - 1] == y);
                }
            }
        }
    }
}

/// The message when no skill is named.
pub open spec fn no_ids_message() -> Seq<char> {
    "请指定技能 id，例如: onemini skills install pdf frontend-design"@
}

/// The skill ids to install: bundles expanded, sorted, each once. Fails when
/// no argument is given.
pub fn parse_install_args(args: &[String]) -> (r: Result<Vec<String>, String>)
    ensures
        args@.len() == 0 ==> r is Err && r->Err_0@ == no_ids_message(),
        args@.len() > 0 ==> r is Ok,
        r matches Ok(ids) ==> strictly_sorted(views(ids@)) && forall|y: Seq<char>|
            views(ids@).contains(y) <==> expand_install_args(views(args@)).contains(y),
{
    if args.len() == 0 {
        return Err(owned("请指定技能 id，例如: onemini skills install pdf frontend-design"));
    }
    let mut ids: Vec<String> = Vec::new();
    let mut i: usize = 0;
    while i < args.len()
        invariant
            i <= args@.len(),
            strictly_sorted(views(ids@)),
            forall|y: Seq<char>| views(ids@).contains(y) <==> expand_install_args(views(args@).take(i as int)).contains(y),
        decreases args.len() - i,
    {
        let a = args[i].as_str();
        let ghost prev = expand_install_args(views(args@).take(i as int));
        proof {
            assert(views(args@).take(i + 1).drop_last() =~= views(args@).take(i as int));
            assert(views(args@).take(i + 1).last() == a@);
        }
        let group: Vec<&str> = if str_eq(a, "docs") || str_eq(a, "documents") {
            vec!["docx", "pdf", "pptx", "xlsx"]
        } else if str_eq(a, "design") {
            default_design_skill_ids()
        } else {
            vec![a]
        };
        let ghost g = group@.map_values(|s: &str| s@);
        proof {
            assert(g =~= expand_install_arg(a@));
        }
        let mut j: usize = 0;
        while j < group.len()
            invariant
                j <= group@.len(),
                g == group@.map_values(|s: &str| s@),
                strictly_sorted(views(ids@)),
                forall|y: Seq<char>| views(ids@).contains(y) <==> (prev + g.take(j as int)).contains(y),
            decreases group.len() - j,
        {
            let x = owned(group[j]);
            let ghost old_ids = views(ids@);
            insert_unique_sorted(&mut ids, x);
            proof {
                assert forall|y: Seq<char>| (prev + g.take(j + 1)).contains(y) <==> (prev + g.take(j as int)).contains(y) || y == g[j as int] by {
                    let a2 = prev + g.take(j + 1);
                    let b2 = prev + g.take(j as int);
                    assert(a2 =~= b2.push(g[j as int]));
                    if a2.contains(y) {
                        let k = choose|k: int| 0 <= k < a2.len() && a2[k] == y;
                        if k < b2.len() {
                            assert(b2[k] == y);
                        }
                    }
                    if b2.contains(y) {
                        let k = choose|k: int| 0 <= k < b2.len() && b2[k] == y;
                        assert(a2[k] == y);
                    }
                    if y == g[j as int] {
                        assert(a2[b2.len() as int] == y);
                    }
                }
                assert(x@ == g[j as int]);
                assert forall|y: Seq<char>| views(ids@).contains(y) <==> (prev + g.take(j + 1)).contains(y) by {
                    assert(views(ids@).contains(y) <==> old_ids.contains(y) || y == x@);
                    assert(old_ids.contains(y) <==> (prev + g.take(j as int)).contains(y));
                }
            }
            j += 1;
        }
        proof {
            assert(g.take(j as int) =~= g);
            assert(expand_install_args(views(args@).take(i + 1)) =~= prev + g);
        }
        i += 1;
    }
    proof {
        assert(views(args@).take(i as int) =~= views(args@));
    }
    Ok(ids)
}

/// Counts downloaded files and shows the progress line.
pub struct DownloadReporter {
    pub quiet: bool,
    pub label: String,
    pub count: usize,
}

/// The part of a path after its last `/`.
pub open spec fn last_segment(p: Seq<char>) -> Seq<char>
    decreases p.len(),
{
    if p.len() == 0 {
        p
    } else if p.last() == '/' {
        Seq::empty()
    } else {
        last_segment(p.drop_last()).push(p.last())
    }
}

/// The progress line after a file.
pub open spec fn progress_line(t: Theme, label: Seq<char>, count: nat, remote_path: Seq<char>) -> Seq<char> {
    "\r  "@ + frame_spec(t.id, count) + " "@ + label + " · 已下载 "@ + decimal(count) + " 个文件 · "@ + last_segment(remote_path)
}

impl DownloadReporter {
    /// Counts one more file; gives the progress line to show unless quiet.
    pub fn file_downloaded(&mut self, t: &Theme, remote_path: &str) -> (r: Option<String>)
        requires
            old(self).count < usize::MAX,
        ensures
            final(self).count == old(self).count + 1,
            final(self).quiet == old(self).quiet,
            final(self).label == old(self).label,
            old(self).quiet ==> r is None,
            !old(self).quiet ==> r is Some && r->0@ == progress_line(*t, old(self).label@, final(self).count as nat, remote_path@),
    {
        self.count = self.count + 1;
        if self.quiet {
            return None;
        }
        let f = frame(t, self.count);
        let short = last_path_segment(remote_path);
        let mut s = concat2("\r  ", f);
        s.append(" ");
        s.append(self.label.as_str());
        s.append(" · 已下载 ");
        let n = decimal_string(self.count);
        s.append(n.as_str());
        s.append(" 个文件 · ");
        s.append(short.as_str());
        Some(s)
    }

    /// Whether the progress line needs a final line break.
    pub fn finish(&self) -> (r: bool)
        ensures
            r == (!self.quiet && self.count > 0),
    {
        !self.quiet && self.count > 0
    }
}

/// The part of a path after its last `/` (`str::rsplit('/').next()`).
pub fn last_path_segment(p: &str) -> (r: String)
    ensures
        r@ == last_segment(p@),
{
    let v = crate::text::chars_of(p);
    let mut i: usize = v.len();
    while i > 0 && v[i - 1] != '/'
        invariant
            i <= v@.len(),
            v@ == p@,
            forall|j: int| i <= j < v@.len() ==> v@[j] != '/',
        decreases i,
    {
        i -= 1;
    }
    proof {
        lemma_last_slash(p@, i as int);
    }
    crate::text::string_from_range(v.as_slice(), i, v.len())
}

proof fn lemma_last_slash(p: Seq<char>, i: int)
    requires
        0 <= i <= p.len(),
        i > 0 ==> p[i - 1] == '/',
        forall|j: int| i <= j < p.len() ==> p[j] != '/',
    ensures
        last_segment(p) == p.subrange(i, p.len() as int),
    decreases p.len(),
{
    if p.len() > i {
        lemma_last_slash(p.drop_last(), i);
        assert(p.subrange(i, p.len() as int) =~= p.drop_last().subrange(i, p.len() - 1).push(p.last()));
    } else {
        assert(p.subrange(i, p.len() as int) =~= Seq::<char>::empty());
    }
}


/// The catalogue entry of an id to install, or the message for an unknown one.
pub fn install_entry(id: &str) -> (r: Result<CatalogEntry, String>)
    ensures
        match find_spec(catalog_spec(), id@) {
            Some(i) => r is Ok && entry_views(seq![r->Ok_0])[0] == catalog_spec()[i],
            None => r matches Err(m) && m@ == "未知技能: "@ + id@,
        },
{
    match find(id) {
        Some(e) => Ok(e),
        None => Err(concat2("未知技能: ", id)),
    }
}

/// Where a skill lies in its repository.
pub fn skill_remote_root(id: &str) -> (r: String)
    ensures
        r@ == "skills/"@ + id@,
{
    concat2("skills/", id)
}

/// The GitHub API address that lists a directory of a repository.
pub fn contents_url(owner: &str, repo: &str, remote_path: &str) -> (r: String)
    ensures
        r@ == "https://api.github.com/repos/"@ + owner@ + "/"@ + repo@ + "/contents/"@ + remote_path@ + "?ref=main"@,
{
    let mut s = concat3("https://api.github.com/repos/", owner, "/");
    s.append(repo);
    s.append("/contents/");
    s.append(remote_path);
    s.append("?ref=main");
    s
}

/// What to do with an entry of a directory listing.
#[derive(Debug, Clone, Copy, PartialEq, Eq, Structural)]
pub enum ListingAction {
    /// A directory: create it and list it in turn.
    Descend,
    /// A file with a download address: fetch it.
    Download,
    /// Anything else.
    Skip,
}

/// The action for an entry of type `kind`, with or without a download address.
pub fn listing_action(kind: &str, has_download_url: bool) -> (r: ListingAction)
    ensures
        kind@ == "dir"@ ==> r == ListingAction::Descend,
        kind@ != "dir"@ && kind@ == "file"@ && has_download_url ==> r == ListingAction::Download,
        kind@ != "dir"@ && !(kind@ == "file"@ && has_download_url) ==> r == ListingAction::Skip,
{
    if str_eq(kind, "dir") {
        ListingAction::Descend
    } else if str_eq(kind, "file") && has_download_url {
        ListingAction::Download
    } else {
        ListingAction::Skip
    }
}

/// The lines printed after a skill is installed: where it went, a licence
/// note for proprietary skills, a note when it has scripts.
pub fn installed_lines(id: &str, dest: &str, license: &str, has_scripts: bool) -> (r: Vec<String>)
    ensures
        r@.len() == 1 + (if license@ == "proprietary"@ { 1int } else { 0 }) + (if has_scripts { 1int } else { 0 }),
        r@[0]@ == "==> 已安装技能 `"@ + id@ + "` -> "@ + dest@,
        license@ == "proprietary"@ ==> r@[1]@ == "    注意: 该技能为 Anthropic 专有/源可用许可，请阅读 "@ + dest@ + "/LICENSE.txt"@,
        has_scripts ==> r@[r@.len() - 1]@ == "    含 scripts/ 目录，执行前请安装 SKILL.md 中列出的 Python 依赖"@,
{
    let mut out: Vec<String> = Vec::new();
    let mut first = concat3("==> 已安装技能 `", id, "` -> ");
    first.append(dest);
    out.push(first);
    if str_eq(license, "proprietary") {
        out.push(concat3("    注意: 该技能为 Anthropic 专有/源可用许可，请阅读 ", dest, "/LICENSE.txt"));
    }
    if has_scripts {
        out.push(owned("    含 scripts/ 目录，执行前请安装 SKILL.md 中列出的 Python 依赖"));
    }
    out
}

/// Whether the design skills are installed: their marker, or the
/// `frontend-design` skill, is there.
pub fn design_bundle_installed(marker_exists: bool, frontend_design_exists: bool) -> (r: bool)
    ensures
        r == (marker_exists || frontend_design_exists),
{
    marker_exists || frontend_design_exists
}

/// What the marker of the design skills holds.
pub fn design_bundle_marker_text() -> (r: &'static str)
    ensures
        r@ == "anthropics/skills design bundle\n"@,
{
    "anthropics/skills design bundle\n"
}

/// Whether the design skills are to be installed on first setup: not when
/// switched off by `ONEMINI_SKIP_SKILL_BOOTSTRAP=1`, nor when already there.
pub fn design_bootstrap_needed(skip_env: Option<&str>, installed: bool) -> (r: bool)
    ensures
        r == (!(match skip_env { Some(v) => v@ == "1"@, None => false }) && !installed),
{
    let skip = match skip_env {
        Some(v) => str_eq(v, "1"),
        None => false,
    };
    !skip && !installed
}

/// The report after the design skills were installed.
pub fn design_installed_message(count: usize) -> (r: String)
    ensures
        r@ == "已预装 "@ + decimal(count as nat) + " 个设计技能（会话内可用 /frontend-design 等）"@,
{
    let n = decimal_string(count);
    concat3("已预装 ", n.as_str(), " 个设计技能（会话内可用 /frontend-design 等）")
}

/// The warning when installing the design skills failed.
pub fn design_skipped_message(err: &str) -> (r: String)
    ensures
        r@ == "设计技能预装跳过（可稍后运行 onemini skills install design）: "@ + err@,
{
    concat2("设计技能预装跳过（可稍后运行 onemini skills install design）: ", err)
}

/// The report after `skills install`.
pub fn install_summary(count: usize) -> (r: String)
    ensures
        r@ == "\n已安装 "@ + decimal(count as nat) + " 个技能。重启 onemini 或输入 /skills 查看。"@,
{
    let n = decimal_string(count);
    concat3("\n已安装 ", n.as_str(), " 个技能。重启 onemini 或输入 /skills 查看。")
}

} // verus!
