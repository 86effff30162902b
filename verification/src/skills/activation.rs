//! Turning a skill into the message for the agent, and the skill listings.
use vstd::prelude::*;
use crate::skills::frontmatter::{lookup_last, pair_views, parse_frontmatter, parse_frontmatter_spec};
use crate::skills::trigger::auto_match_spec;
use crate::skills::{has_name, Skill, SkillRegistry, SkillSource};
use crate::text::{byte_len, concat2, concat3, is_empty_str, owned, trim, trim_seq, utf8_len, views};
use crate::ui::markdown::{markdown_events, md_render_plain, md_simple, render_markdown, MdEvent};
use crate::ui::terminal::strip_ansi_spec;
use crate::text::trim_end_seq;
use crate::ui::sanitize::sanitize_final_spec;
use crate::ui::table::{header_views, render_table, row_views, table_text};
use crate::ui::theme::{Theme, ThemeId};

verus! {

/// The longest skill file (in UTF-8 bytes) put into a message whole.
pub const MAX_INLINE_SKILL_CHARS: usize = 24000;

/// A built-in skill: name and description (its text ships with the program).
#[derive(Clone, Copy)]
pub struct BuiltinSkillDef {
    pub name: &'static str,
    pub description: &'static str,
}

/// The built-in skills.
pub open spec fn builtin_skills_spec() -> Seq<(Seq<char>, Seq<char>)> {
    seq![
        ("storyboard"@, "将创意拆成可拍可生成的分镜脚本"@),
        ("character-brief"@, "整理角色外形、性格与服装设定卡"@),
        ("prompt-polish"@, "扩写结构化图/视频提示词"@),
        ("visual-style"@, "统一色调、镜头语言与材质关键词"@),
        ("shot-list"@, "编排集数与镜头表字段"@),
        ("blender-modeling"@, "引导通过 CLI 本机 MCP 连接 Blender（Web 不开放）"@),
    ]
}

/// The built-in skills.
pub fn builtin_skill_defs() -> (r: Vec<BuiltinSkillDef>)
    ensures
        r@.map_values(|d: BuiltinSkillDef| (d.name@, d.description@)) == builtin_skills_spec(),
{
    let r = vec![
        BuiltinSkillDef { name: "storyboard", description: "将创意拆成可拍可生成的分镜脚本" },
        BuiltinSkillDef { name: "character-brief", description: "整理角色外形、性格与服装设定卡" },
        BuiltinSkillDef { name: "prompt-polish", description: "扩写结构化图/视频提示词" },
        BuiltinSkillDef { name: "visual-style", description: "统一色调、镜头语言与材质关键词" },
        BuiltinSkillDef { name: "shot-list", description: "编排集数与镜头表字段" },
        BuiltinSkillDef { name: "blender-modeling", description: "引导通过 CLI 本机 MCP 连接 Blender（Web 不开放）" },
    ];
    assert(r@.map_values(|d: BuiltinSkillDef| (d.name@, d.description@)) =~= builtin_skills_spec());
    r
}

/// A built-in skill with its text.
pub fn builtin_skill(def: BuiltinSkillDef, body: String) -> (r: Skill)
    ensures
        r.name@ == def.name@,
        r.description@ == def.description@,
        r.source == SkillSource::Builtin,
        r.path is None,
        r.body == Some(body),
{
    Skill {
        name: owned(def.name),
        description: owned(def.description),
        source: SkillSource::Builtin,
        path: None,
        body: Some(body),
    }
}

/// What the disk holds for a skill file: its text (if it could be read), its
/// directory, whether the directory has `scripts/`, the shared Office tools
/// (if present) and the helper documents beside it.
pub struct SkillFiles {
    pub text: Option<String>,
    pub dir: String,
    pub has_scripts: bool,
    pub shared_office: Option<String>,
    pub extra_docs: Vec<String>,
}

/// How a source is labelled.
pub open spec fn source_label_spec(s: SkillSource) -> Seq<char> {
    match s {
        SkillSource::Builtin | SkillSource::Bundled => "内置"@,
        SkillSource::User => "用户"@,
        SkillSource::Project => "项目"@,
    }
}

/// The label of a source.
pub fn source_label(s: SkillSource) -> (r: &'static str)
    ensures
        r@ == source_label_spec(s),
{
    match s {
        SkillSource::Builtin | SkillSource::Bundled => "内置",
        SkillSource::User => "用户",
        SkillSource::Project => "项目",
    }
}

/// The request part of an activation message.
pub open spec fn request_block(input: Seq<char>) -> Seq<char> {
    if trim_seq(input).len() == 0 {
        "请按技能默认流程执行。"@
    } else {
        "用户请求：\n"@ + trim_seq(input)
    }
}

/// The first line of an activation message.
pub open spec fn activation_head(label: Seq<char>, name: Seq<char>) -> Seq<char> {
    "["@ + label + ": "@ + name + "]\n\n"@
}

/// The helper document lines.
pub open spec fn extra_lines(docs: Seq<Seq<char>>) -> Seq<char>
    decreases docs.len(),
{
    if docs.len() == 0 {
        Seq::empty()
    } else {
        extra_lines(docs.drop_last()) + "\n辅助文档: `"@ + docs.last() + "`"@
    }
}

/// The message that activates a skill, if it has a text or a file.
pub open spec fn activation_spec(
    skill: Skill,
    input: Seq<char>,
    label: Seq<char>,
    files: SkillFiles,
) -> Option<Seq<char>> {
    let head = activation_head(label, skill.name@);
    let req = request_block(input);
    match skill.body {
        Some(body) => Some(head + body@ + "\n\n---\n\n"@ + req),
        None => match skill.path {
            None => None,
            Some(path) => match files.text {
                Some(text) if utf8_len(text@) <= 24000 => Some(
                    head + text@ + "\n\n---\n\n"@ + req + (if files.has_scripts {
                        "\n\n（该技能含 scripts/，可按 SKILL.md 用 bash 调用。）"@
                    } else {
                        Seq::empty()
                    }),
                ),
                _ => Some(
                    head + "请先使用 read 工具读取 `"@ + path@ + "` 获取完整技能指令，严格遵循后再执行。\n技能目录: `"@
                        + files.dir@ + "`"@ + (if files.has_scripts {
                        "\n脚本目录: `"@ + files.dir@ + "/scripts/`"@ + match files.shared_office {
                            Some(p) => "\n共享 Office 工具: `"@ + p@ + "`（unpack/pack/validate/soffice）"@,
                            None => Seq::empty(),
                        }
                    } else {
                        Seq::empty()
                    }) + extra_lines(views(files.extra_docs@)) + "\n\n"@ + req,
                ),
            },
        },
    }
}

/// The message that activates a skill: its text (built-in, or a skill file
/// small enough), or an instruction to read the skill file.
pub fn build_activation(skill: &Skill, user_input: &str, label: &str, files: &SkillFiles) -> (r: Option<String>)
    ensures
        r matches Some(s) ==> activation_spec(*skill, user_input@, label@, *files) == Some(s@),
        r is None ==> activation_spec(*skill, user_input@, label@, *files) is None,
{
    let t = trim(user_input);
    let req = if is_empty_str(t.as_str()) {
        owned("请按技能默认流程执行。")
    } else {
        concat2("用户请求：\n", t.as_str())
    };
    let mut head = concat3("[", label, ": ");
    head.append(skill.name.as_str());
    head.append("]\n\n");
    match &skill.body {
        Some(body) => {
            let mut s = head;
            s.append(body.as_str());
            s.append("\n\n---\n\n");
            s.append(req.as_str());
            return Some(s);
        },
        None => {},
    }
    let path = match &skill.path {
        Some(p) => p,
        None => {
            return None;
        },
    };
    match &files.text {
        Some(text) => {
            if byte_len(text.as_str()) <= MAX_INLINE_SKILL_CHARS {
                let mut s = head;
                s.append(text.as_str());
                s.append("\n\n---\n\n");
                s.append(req.as_str());
                if files.has_scripts {
                    s.append("\n\n（该技能含 scripts/，可按 SKILL.md 用 bash 调用。）");
                }
                return Some(s);
            }
        },
        None => {},
    }
    let mut s = head;
    s.append("请先使用 read 工具读取 `");
    s.append(path.as_str());
    s.append("` 获取完整技能指令，严格遵循后再执行。\n技能目录: `");
    s.append(files.dir.as_str());
    s.append("`");
    let ghost before_scripts = s@;
    if files.has_scripts {
        s.append("\n脚本目录: `");
        s.append(files.dir.as_str());
        s.append("/scripts/`");
        match &files.shared_office {
            Some(p) => {
                s.append("\n共享 Office 工具: `");
                s.append(p.as_str());
                s.append("`（unpack/pack/validate/soffice）");
            },
            None => {},
        }
    }
    let ghost base = s@;
    let mut i: usize = 0;
    while i < files.extra_docs.len()
        invariant
            i <= files.extra_docs@.len(),
            s@ == base + extra_lines(views(files.extra_docs@).take(i as int)),
        decreases files.extra_docs.len() - i,
    {
        proof {
            assert(views(files.extra_docs@).take(i + 1).drop_last() =~= views(files.extra_docs@).take(i as int));
            assert(views(files.extra_docs@).take(i + 1).last() == files.extra_docs@[i as int]@);
        }
        s.append("\n辅助文档: `");
        s.append(files.extra_docs[i].as_str());
        s.append("`");
        i += 1;
    }
    proof {
        assert(views(files.extra_docs@).take(i as int) =~= views(files.extra_docs@));
    }
    s.append("\n\n");
    s.append(req.as_str());
    Some(s)
}

/// The catalogue line of a skill.
pub open spec fn catalog_line(s: Skill) -> Seq<char> {
    "- **"@ + s.name@ + "** ("@ + source_label_spec(s.source) + ") — "@ + s.description@ + "\n"@
}

/// The catalogue lines of the skills.
pub open spec fn catalog_lines(v: Seq<Skill>) -> Seq<char>
    decreases v.len(),
{
    if v.len() == 0 {
        Seq::empty()
    } else {
        catalog_lines(v.drop_last()) + catalog_line(v.last())
    }
}

/// The introduction of the skill index.
pub open spec fn catalog_intro() -> Seq<char> {
    "\n## 可用技能（Agent Skills）\n\n技能遵循 [Agent Skills](https://github.com/anthropics/skills) 规范（`SKILL.md` + YAML frontmatter）。\n匹配任务意图时会**自动启用**对应技能；也可手动输入 `/技能名 [补充说明]`。\n用户询问技能列表时调用 list_skills 或建议 `/skills list`。\n\n"@
}

/// The closing line of the skill index.
pub open spec fn catalog_outro() -> Seq<char> {
    "\n示例：直接描述任务即可；或 `/commit-message` · `/debug 登录 500`\n"@
}

/// The rows of the skill list.
pub open spec fn cli_rows(v: Seq<Skill>) -> Seq<Seq<Seq<char>>> {
    v.map_values(|s: Skill| seq!["/"@ + s.name@, source_label_spec(s.source), s.description@])
}

/// The skill table with its heading and usage line.
pub open spec fn cli_list_spec(retro: bool, v: Seq<Skill>) -> Seq<char> {
    "可用技能\n\n"@ + table_text(retro, seq!["命令"@, "来源"@, "说明"@], cli_rows(v))
        + "\n\n用法: /技能名 [说明]  ·  onemini skills show <名>  ·  onemini skills catalog"@
}

/// The text shown by `skills show` without colours.
pub open spec fn show_spec(retro: bool, id: ThemeId, s: Skill, raw: Seq<char>) -> Seq<char> {
    let (meta, body) = parse_frontmatter_spec(raw);
    let desc = match lookup_last(meta, "description"@) {
        Some(d) => d,
        None => s.description@,
    };
    table_text(retro, seq!["技能"@, "来源"@, "说明"@], seq![seq![s.name@, source_label_spec(s.source), desc]])
        + "\n\n"@ + md_render_plain(id, markdown_events(sanitize_final_spec(body)))
}

/// The table at the head of a skill's details.
pub open spec fn show_table(retro: bool, s: Skill, raw: Seq<char>) -> Seq<char> {
    let (meta, body) = parse_frontmatter_spec(raw);
    let desc = match lookup_last(meta, "description"@) {
        Some(d) => d,
        None => s.description@,
    };
    table_text(retro, seq!["技能"@, "来源"@, "说明"@], seq![seq![s.name@, source_label_spec(s.source), desc]])
}

/// The Markdown events of a skill's body.
pub open spec fn show_events(raw: Seq<char>) -> Seq<MdEvent> {
    markdown_events(sanitize_final_spec(parse_frontmatter_spec(raw).1))
}

/// What the details show in any colour mode: the skill's table as without
/// colours, a blank line, then Markdown that (for event lists without escape
/// characters whose table cells hold unstyled text) shows the text without
/// colours.
pub open spec fn show_matches(retro: bool, id: ThemeId, s: Skill, raw: Seq<char>, out: Seq<char>) -> bool {
    let head = show_table(retro, s, raw) + "\n\n"@;
    &&& head.len() <= out.len()
    &&& out.take(head.len() as int) == head
    &&& (md_simple(id, show_events(raw)) ==> trim_end_seq(strip_ansi_spec(out.skip(head.len() as int))) == md_render_plain(
        id,
        show_events(raw),
    ))
}

/// The one-row table of a skill.
fn skill_info_table(t: &Theme, skill: &Skill, desc: String) -> (r: String)
    ensures
        r@ == table_text(
            t.id != ThemeId::Modern,
            seq!["技能"@, "来源"@, "说明"@],
            seq![seq![skill.name@, source_label_spec(skill.source), desc@]],
        ),
{
    let mut rows: Vec<Vec<String>> = Vec::new();
    let ghost d = desc@;
    let row = vec![owned(skill.name.as_str()), owned(source_label(skill.source)), desc];
    let ghost rv = row@;
    rows.push(row);
    let headers = vec!["技能", "来源", "说明"];
    proof {
        assert(header_views(headers@) =~= seq!["技能"@, "来源"@, "说明"@]);
        assert(rows@[0]@ == rv);
        assert(views(rv) =~= seq![skill.name@, source_label_spec(skill.source), d]);
        assert(row_views(rows@) =~= seq![views(rv)]);
    }
    render_table(t, headers.as_slice(), rows.as_slice())
}

/// The details of a skill given the text of its file.
#[verifier::spinoff_prover]
#[verifier::rlimit(100)]
fn show_text(t: &Theme, skill: &Skill, raw: &str) -> (r: String)
    ensures
        !t.colors ==> r@ == show_spec(t.id != ThemeId::Modern, t.id, *skill, raw@),
        show_matches(t.id != ThemeId::Modern, t.id, *skill, raw@, r@),
{
    let parsed = parse_frontmatter(raw);
    let (meta, body) = match parsed {
        Ok(p) => p,
        Err(_) => {
            return String::new();
        },
    };
    let desc = match meta.get("description") {
        Some(d) => owned(d.as_str()),
        None => owned(skill.description.as_str()),
    };
    let info = skill_info_table(t, skill, desc);
    let md = render_markdown(t, body.as_str());
    let r = concat3(info.as_str(), "\n\n", md.as_str());
    proof {
        let sp = parse_frontmatter_spec(raw@);
        let sdesc = match lookup_last(sp.0, "description"@) {
            Some(d) => d,
            None => skill.description@,
        };
        assert(desc@ == sdesc);
        let tt = show_table(t.id != ThemeId::Modern, *skill, raw@);
        assert(info@ == tt);
        let head = tt + "\n\n"@;
        assert(r@ == head + md@);
        assert(r@.take(head.len() as int) =~= head);
        assert(r@.skip(head.len() as int) =~= md@);
        assert(body@ == sp.1);
    }
    r
}

impl SkillRegistry {
    /// Prepares a user message: when the input asks for a skill (see
    /// `auto_match`), the message activates it and the skill's name comes
    /// back too. `files` describes the disk files of that skill.
    pub fn prepare_turn_input(&self, user_input: &str, files: &SkillFiles) -> (r: (String, Option<String>))
        ensures
            match auto_match_spec(self.entries(), user_input@) {
                Some(name) => exists|k: int|
                    0 <= k < self.entries().len() && self.entries()[k].name@ == name && match activation_spec(
                        self.entries()[k],
                        user_input@,
                        "技能自动启用"@,
                        *files,
                    ) {
                        Some(m) => r.0@ == m && r.1 is Some && r.1->0@ == name,
                        None => r.0@ == user_input@ && r.1 is None,
                    },
                None => r.0@ == user_input@ && r.1 is None,
            },
    {
        match self.auto_match(user_input) {
            Some(skill) => {
                match build_activation(skill, user_input, "技能自动启用", files) {
                    Some(p) => (p, Some(owned(skill.name.as_str()))),
                    None => (owned(user_input), None),
                }
            },
            None => (owned(user_input), None),
        }
    }

    /// The message for `/name args`, if the skill exists and has content.
    pub fn activation_prompt(&self, name: &str, user_args: &str, files: &SkillFiles) -> (r: Option<String>)
        ensures
            !has_name(self.entries(), name@) ==> r is None,
            has_name(self.entries(), name@) ==> exists|k: int|
                0 <= k < self.entries().len() && self.entries()[k].name@ == name@ && match activation_spec(
                    self.entries()[k],
                    user_args@,
                    "技能激活"@,
                    *files,
                ) {
                    Some(m) => r is Some && r->0@ == m,
                    None => r is None,
                },
    {
        match self.get(name) {
            Some(skill) => build_activation(skill, user_args, "技能激活", files),
            None => None,
        }
    }

    /// The skill index for the system prompt (empty without skills).
    pub fn format_catalog(&self) -> (r: String)
        ensures
            self.entries().len() == 0 ==> r@.len() == 0,
            self.entries().len() > 0 ==> r@ == catalog_intro() + catalog_lines(self.entries()) + catalog_outro(),
    {
        if self.is_empty() {
            return String::new();
        }
        let items = self.list();
        let mut out = owned(
            "\n## 可用技能（Agent Skills）\n\n技能遵循 [Agent Skills](https://github.com/anthropics/skills) 规范（`SKILL.md` + YAML frontmatter）。\n匹配任务意图时会**自动启用**对应技能；也可手动输入 `/技能名 [补充说明]`。\n用户询问技能列表时调用 list_skills 或建议 `/skills list`。\n\n",
        );
        let mut i: usize = 0;
        while i < items.len()
            invariant
                i <= items@.len(),
                items@.len() == self.entries().len(),
                forall|j: int| 0 <= j < items@.len() ==> *items@[j] == self.entries()[j],
                out@ == catalog_intro() + catalog_lines(self.entries().take(i as int)),
            decreases items.len() - i,
        {
            proof {
                assert(self.entries().take(i + 1).drop_last() =~= self.entries().take(i as int));
            }
            let s = items[i];
            out.append("- **");
            out.append(s.name.as_str());
            out.append("** (");
            out.append(source_label(s.source));
            out.append(") — ");
            out.append(s.description.as_str());
            out.append("\n");
            i += 1;
        }
        proof {
            assert(self.entries().take(i as int) =~= self.entries());
        }
        out.append("\n示例：直接描述任务即可；或 `/commit-message` · `/debug 登录 500`\n");
        out
    }

    /// The skills as a table for the terminal.
    pub fn format_cli_list(&self, t: &Theme) -> (r: String)
        ensures
            r@ == cli_list_spec(t.id != ThemeId::Modern, self.entries()),
    {
        let items = self.list();
        let mut rows: Vec<Vec<String>> = Vec::new();
        let mut i: usize = 0;
        while i < items.len()
            invariant
                i <= items@.len(),
                items@.len() == self.entries().len(),
                forall|j: int| 0 <= j < items@.len() ==> *items@[j] == self.entries()[j],
                rows@.len() == i,
                row_views(rows@) == cli_rows(self.entries()).take(i as int),
            decreases items.len() - i,
        {
            let s = items[i];
            let row = vec![concat2("/", s.name.as_str()), owned(source_label(s.source)), owned(s.description.as_str())];
            let ghost rv = row@;
            proof {
                assert(views(rv) =~= cli_rows(self.entries())[i as int]);
            }
            rows.push(row);
            proof {
                assert(rows@[i as int]@ == rv);
                assert(row_views(rows@) =~= cli_rows(self.entries()).take(i + 1));
            }
            i += 1;
        }
        proof {
            assert(cli_rows(self.entries()).take(i as int) =~= cli_rows(self.entries()));
        }
        let headers = vec!["命令", "来源", "说明"];
        let table = render_table(t, headers.as_slice(), rows.as_slice());
        proof {
            assert(header_views(headers@) =~= seq!["命令"@, "来源"@, "说明"@]);
        }
        concat3("可用技能\n\n", table.as_str(), "\n\n用法: /技能名 [说明]  ·  onemini skills show <名>  ·  onemini skills catalog")
    }

    /// The details of a skill: a one-row table and its text as Markdown.
    /// `file_text` is the skill file's text, for a skill on disk that could
    /// be read.
    pub fn format_show(&self, t: &Theme, name: &str, file_text: Option<&str>) -> (r: Result<String, String>)
        ensures
            !has_name(self.entries(), name@) ==> r is Err && r->Err_0@ == "未找到技能: "@ + name@,
            has_name(self.entries(), name@) ==> exists|k: int|
                0 <= k < self.entries().len() && self.entries()[k].name@ == name@ && {
                    let s = self.entries()[k];
                    match s.body {
                        Some(b) => r is Ok && (!t.colors ==> r->Ok_0@ == show_spec(t.id != ThemeId::Modern, t.id, s, b@))
                            && show_matches(t.id != ThemeId::Modern, t.id, s, b@, r->Ok_0@),
                        None => match s.path {
                            Some(p) => match file_text {
                                Some(ft) => r is Ok && (!t.colors ==> r->Ok_0@ == show_spec(t.id != ThemeId::Modern, t.id, s, ft@))
                                    && show_matches(t.id != ThemeId::Modern, t.id, s, ft@, r->Ok_0@),
                                None => r is Err && r->Err_0@ == "读取技能失败: "@ + p@,
                            },
                            None => r is Err && r->Err_0@ == "技能 "@ + name@ + " 无可用内容"@,
                        },
                    }
                },
    {
        let skill = match self.get(name) {
            Some(s) => s,
            None => {
                return Err(concat2("未找到技能: ", name));
            },
        };
        let raw = match &skill.body {
            Some(b) => owned(b.as_str()),
            None => match &skill.path {
                Some(p) => match file_text {
                    Some(ft) => owned(ft),
                    None => {
                        return Err(concat2("读取技能失败: ", p.as_str()));
                    },
                },
                None => {
                    return Err(concat3("技能 ", name, " 无可用内容"));
                },
            },
        };
        proof {
            let k = choose|k: int| 0 <= k < self.entries().len() && self.entries()[k] == *skill;
            assert(self.entries()[k].name@ == name@);
        }
        Ok(show_text(t, skill, raw.as_str()))
    }
}


} // verus!
