//! The catalogue of skills that `onemini skills install` can fetch from
//! `anthropics/skills`.
use vstd::prelude::*;
use crate::text::{concat3, owned, str_eq, views};
use crate::ui::table::{header_views, render_table, row_views, table_text};
use crate::ui::theme::{Theme, ThemeId};

verus! {

/// One installable skill.
#[derive(Clone, Copy)]
pub struct CatalogEntry {
    pub id: &'static str,
    pub category: &'static str,
    pub license: &'static str,
    pub note: &'static str,
}

/// The owner and name of the repository that the skills come from.
pub fn anthropic_repo() -> (r: (&'static str, &'static str))
    ensures
        r.0@ == "anthropics"@,
        r.1@ == "skills"@,
{
    ("anthropics", "skills")
}

/// The file that marks the design bundle as installed.
pub const DESIGN_BUNDLE_MARKER: &'static str = ".design-bundle-v1";

/// The skills of the design bundle.
pub open spec fn default_design_skill_ids_spec() -> Seq<Seq<char>> {
    seq!["frontend-design"@, "canvas-design"@, "theme-factory"@, "web-artifacts-builder"@, "brand-guidelines"@]
}

/// The skills of the design bundle.
pub fn default_design_skill_ids() -> (r: Vec<&'static str>)
    ensures
        r@.map_values(|s: &str| s@) == default_design_skill_ids_spec(),
{
    let r = vec!["frontend-design", "canvas-design", "theme-factory", "web-artifacts-builder", "brand-guidelines"];
    assert(r@.map_values(|s: &str| s@) =~= default_design_skill_ids_spec());
    r
}

/// The entries as texts: id, category, licence, note.
pub open spec fn entry_views(v: Seq<CatalogEntry>) -> Seq<(Seq<char>, Seq<char>, Seq<char>, Seq<char>)> {
    v.map_values(|e: CatalogEntry| (e.id@, e.category@, e.license@, e.note@))
}

/// The catalogue.
pub open spec fn catalog_spec() -> Seq<(Seq<char>, Seq<char>, Seq<char>, Seq<char>)> {
    seq![
        ("docx"@, "文档"@, "apache2"@, "Word 创建/编辑（内置）；install 可装 Anthropic 版"@),
        ("pdf"@, "文档"@, "apache2"@, "PDF 读写/合并/表单（内置）"@),
        ("pptx"@, "文档"@, "apache2"@, "PPT 创建/编辑（内置）"@),
        ("xlsx"@, "文档"@, "apache2"@, "Excel 公式/格式（内置）"@),
        ("doc-coauthoring"@, "文档"@, "apache2"@, "协作文档写作流程"@),
        ("frontend-design"@, "设计"@, "apache2"@, "Web UI 美学与排版"@),
        ("canvas-design"@, "设计"@, "apache2"@, "Canvas 视觉设计"@),
        ("theme-factory"@, "设计"@, "apache2"@, "主题与配色系统"@),
        ("web-artifacts-builder"@, "设计"@, "apache2"@, "构建 Web 组件/页面产物"@),
        ("brand-guidelines"@, "设计"@, "apache2"@, "品牌视觉规范"@),
        ("algorithmic-art"@, "设计"@, "apache2"@, "算法生成艺术"@),
        ("slack-gif-creator"@, "设计"@, "apache2"@, "Slack GIF 制作"@),
        ("mcp-builder"@, "开发"@, "apache2"@, "构建 MCP Server"@),
        ("webapp-testing"@, "开发"@, "apache2"@, "Web 测试；需 Playwright"@),
        ("skill-creator"@, "开发"@, "apache2"@, "编写新 Agent Skill"@),
        ("internal-comms"@, "协作"@, "apache2"@, "内部沟通文档"@),
    ]
}

/// The catalogue.
pub fn catalog() -> (r: Vec<CatalogEntry>)
    ensures
        entry_views(r@) == catalog_spec(),
{
    let mut r: Vec<CatalogEntry> = Vec::new();
    r.push(CatalogEntry { id: "docx", category: "文档", license: "apache2", note: "Word 创建/编辑（内置）；install 可装 Anthropic 版" });
    r.push(CatalogEntry { id: "pdf", category: "文档", license: "apache2", note: "PDF 读写/合并/表单（内置）" });
    r.push(CatalogEntry { id: "pptx", category: "文档", license: "apache2", note: "PPT 创建/编辑（内置）" });
    r.push(CatalogEntry { id: "xlsx", category: "文档", license: "apache2", note: "Excel 公式/格式（内置）" });
    r.push(CatalogEntry { id: "doc-coauthoring", category: "文档", license: "apache2", note: "协作文档写作流程" });
    r.push(CatalogEntry { id: "frontend-design", category: "设计", license: "apache2", note: "Web UI 美学与排版" });
    r.push(CatalogEntry { id: "canvas-design", category: "设计", license: "apache2", note: "Canvas 视觉设计" });
    r.push(CatalogEntry { id: "theme-factory", category: "设计", license: "apache2", note: "主题与配色系统" });
    r.push(CatalogEntry { id: "web-artifacts-builder", category: "设计", license: "apache2", note: "构建 Web 组件/页面产物" });
    r.push(CatalogEntry { id: "brand-guidelines", category: "设计", license: "apache2", note: "品牌视觉规范" });
    r.push(CatalogEntry { id: "algorithmic-art", category: "设计", license: "apache2", note: "算法生成艺术" });
    r.push(CatalogEntry { id: "slack-gif-creator", category: "设计", license: "apache2", note: "Slack GIF 制作" });
    r.push(CatalogEntry { id: "mcp-builder", category: "开发", license: "apache2", note: "构建 MCP Server" });
    r.push(CatalogEntry { id: "webapp-testing", category: "开发", license: "apache2", note: "Web 测试；需 Playwright" });
    r.push(CatalogEntry { id: "skill-creator", category: "开发", license: "apache2", note: "编写新 Agent Skill" });
    r.push(CatalogEntry { id: "internal-comms", category: "协作", license: "apache2", note: "内部沟通文档" });
    assert(entry_views(r@) =~= catalog_spec());
    r
}

/// The first entry with the id.
pub open spec fn find_spec(v: Seq<(Seq<char>, Seq<char>, Seq<char>, Seq<char>)>, id: Seq<char>) -> Option<int>
    decreases v.len(),
{
    if v.len() == 0 {
        None
    } else {
        match find_spec(v.drop_last(), id) {
            Some(i) => Some(i),
            None => if v.last().0 == id { Some(v.len() - 1) } else { None },
        }
    }
}

/// The catalogue entry of an id.
pub fn find(id: &str) -> (r: Option<CatalogEntry>)
    ensures
        match find_spec(catalog_spec(), id@) {
            Some(i) => r is Some && entry_views(seq![r->0])[0] == catalog_spec()[i],
            None => r is None,
        },
{
    let c = catalog();
    let mut i: usize = 0;
    while i < c.len()
        invariant
            i <= c@.len(),
            entry_views(c@) == catalog_spec(),
            find_spec(catalog_spec(), id@) == find_spec(catalog_spec().take(i as int), id@)
                || (find_spec(catalog_spec().take(i as int), id@) is None && forall|k: int| 0 <= k < i ==> c@[k].id@ != id@),
            forall|k: int| 0 <= k < i ==> (#[trigger] c@[k]).id@ != id@,
        decreases c.len() - i,
    {
        proof {
            assert(catalog_spec().take(i + 1).drop_last() =~= catalog_spec().take(i as int));
            assert(entry_views(c@)[i as int].0 == c@[i as int].id@);
        }
        if str_eq(c[i].id, id) {
            proof {
                lemma_find_rest(catalog_spec(), id@, i as int);
            }
            let e = c[i];
            proof {
                assert(entry_views(seq![e])[0] == entry_views(c@)[i as int]);
            }
            return Some(e);
        }
        i += 1;
    }
    proof {
        lemma_find_none(catalog_spec(), id@);
    }
    None
}

proof fn lemma_find_rest(v: Seq<(Seq<char>, Seq<char>, Seq<char>, Seq<char>)>, id: Seq<char>, i: int)
    requires
        0 <= i < v.len(),
        v[i].0 == id,
        forall|k: int| 0 <= k < i ==> (#[trigger] v[k]).0 != id,
    ensures
        find_spec(v, id) == Some(i),
    decreases v.len(),
{
    if v.len() - 1 > i {
        lemma_find_rest(v.drop_last(), id, i);
    } else {
        lemma_find_absent(v.drop_last(), id);
    }
}

proof fn lemma_find_absent(v: Seq<(Seq<char>, Seq<char>, Seq<char>, Seq<char>)>, id: Seq<char>)
    requires
        forall|k: int| 0 <= k < v.len() ==> (#[trigger] v[k]).0 != id,
    ensures
        find_spec(v, id) is None,
    decreases v.len(),
{
    if v.len() > 0 {
        lemma_find_absent(v.drop_last(), id);
    }
}

proof fn lemma_find_none(v: Seq<(Seq<char>, Seq<char>, Seq<char>, Seq<char>)>, id: Seq<char>)
    requires
        forall|k: int| 0 <= k < v.len() ==> (#[trigger] v[k]).0 != id,
    ensures
        find_spec(v, id) is None,
{
    lemma_find_absent(v, id);
}

/// How a licence is shown.
pub open spec fn license_label(l: Seq<char>) -> Seq<char> {
    if l == "apache2"@ {
        "Apache-2.0"@
    } else if l == "proprietary"@ {
        "专有"@
    } else {
        l
    }
}

/// The table rows of the catalogue.
pub open spec fn catalog_rows(v: Seq<(Seq<char>, Seq<char>, Seq<char>, Seq<char>)>) -> Seq<Seq<Seq<char>>> {
    v.map_values(|e: (Seq<char>, Seq<char>, Seq<char>, Seq<char>)| seq![e.0, e.1, license_label(e.2), e.3])
}

/// The catalogue text around the table.
pub open spec fn catalog_text(table: Seq<char>) -> Seq<char> {
    "技能目录（onemini skills install <id> 可安装 Anthropic 官方增强版）\n来源: https://github.com/anthropics/skills\n\ndocx / pdf / pptx / xlsx 已随 CLI 内置（Apache-2.0，含 scripts/）。\n\n"@
        + table
        + "\n\n快捷安装（可选，覆盖为用户版）:\nonemini skills install docs     # Anthropic 文档四件套\nonemini skills install design   # 设计技能包\nonemini skills install pdf      # 单个 Anthropic 技能"@
}

/// The catalogue as a table with install hints.
pub fn format_catalog_table(t: &Theme) -> (r: String)
    ensures
        r@ == catalog_text(table_text(
            t.id != ThemeId::Modern,
            seq!["ID"@, "分类"@, "许可"@, "说明"@],
            catalog_rows(catalog_spec()),
        )),
{
    let c = catalog();
    let mut rows: Vec<Vec<String>> = Vec::new();
    let mut i: usize = 0;
    while i < c.len()
        invariant
            i <= c@.len(),
            entry_views(c@) == catalog_spec(),
            row_views(rows@) == catalog_rows(catalog_spec()).take(i as int),
            rows@.len() == i,
        decreases c.len() - i,
    {
        let e = c[i];
        let lic = if str_eq(e.license, "apache2") {
            "Apache-2.0"
        } else if str_eq(e.license, "proprietary") {
            "专有"
        } else {
            e.license
        };
        let row = vec![owned(e.id), owned(e.category), owned(lic), owned(e.note)];
        let ghost before = rows@;
        let ghost rv = row@;
        proof {
            assert(entry_views(c@)[i as int] == (e.id@, e.category@, e.license@, e.note@));
            assert(views(rv) =~= catalog_rows(catalog_spec())[i as int]);
        }
        rows.push(row);
        proof {
            assert(rows@[i as int]@ == rv);
            assert(row_views(rows@)[i as int] == views(rv));
            assert(row_views(rows@) =~= catalog_rows(catalog_spec()).take(i + 1));
        }
        i += 1;
    }
    proof {
        assert(catalog_rows(catalog_spec()).take(i as int) =~= catalog_rows(catalog_spec()));
    }
    let headers = vec!["ID", "分类", "许可", "说明"];
    let table = render_table(t, headers.as_slice(), rows.as_slice());
    proof {
        assert(header_views(headers@) =~= seq!["ID"@, "分类"@, "许可"@, "说明"@]);
    }
    concat3(
        "技能目录（onemini skills install <id> 可安装 Anthropic 官方增强版）\n来源: https://github.com/anthropics/skills\n\ndocx / pdf / pptx / xlsx 已随 CLI 内置（Apache-2.0，含 scripts/）。\n\n",
        table.as_str(),
        "\n\n快捷安装（可选，覆盖为用户版）:\nonemini skills install docs     # Anthropic 文档四件套\nonemini skills install design   # 设计技能包\nonemini skills install pdf      # 单个 Anthropic 技能",
    )
}

} // verus!
