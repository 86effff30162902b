use onemini::skills::activation::{build_activation, SkillFiles};
use onemini::skills::catalog::{default_design_skill_ids, find, format_catalog_table};
use onemini::skills::frontmatter::parse_frontmatter;
use onemini::skills::install::{last_path_segment, parse_install_args, DownloadReporter};
use onemini::skills::trigger::auto_trigger_rules;
use onemini::skills::{source_label, Skill, SkillRegistry, SkillSource};
use onemini::ui::theme::{Theme, ThemeId};
use onemini::skills::install::{contents_url, design_bootstrap_needed, design_bundle_installed, design_installed_message, install_entry, install_summary, installed_lines, listing_action, skill_remote_root, ListingAction,};
use onemini::skills::bootstrap::{bootstrap_plan, document_skills_ready, doc_skill_remote_paths, downloaded_message, package_local_name, package_progress, pip_args, pip_failed_message, python_deps_needed, required_doc_files, DocBootstrap,};

fn plain() -> Theme {
    Theme { id: ThemeId::Modern, colors: false }
}

fn skill(name: &str, description: &str) -> Skill {
    Skill {
        name: name.to_string(),
        description: description.to_string(),
        source: SkillSource::Builtin,
        path: None,
        body: Some(String::new()),
    }
}

fn test_registry(ids: &[&str]) -> SkillRegistry {
    SkillRegistry::from_skills(ids.iter().map(|id| skill(id, "")).collect())
}

fn no_files() -> SkillFiles {
    SkillFiles { text: None, dir: String::new(), has_scripts: false, shared_office: None, extra_docs: Vec::new() }
}

#[test]
fn parse_frontmatter_basic() {
    let text = "---\nname: demo\ndescription: A demo skill\n---\n\n# Hello\n";
    let (meta, body) = parse_frontmatter(text).unwrap();
    assert_eq!(meta.get("name").map(String::as_str), Some("demo"));
    assert!(body.contains("# Hello"));
}

#[test]
fn frontmatter_later_key_wins_and_comments_skipped() {
    let text = "  ---\n# note\nname: a\nname:  b \nbad line\n---\nbody";
    let (meta, body) = parse_frontmatter(text).unwrap();
    assert_eq!(meta.get("name").map(String::as_str), Some("b"));
    assert_eq!(meta.entries.len(), 2);
    assert_eq!(body, "body");
    let (none, same) = parse_frontmatter("no header").unwrap();
    assert!(none.entries.is_empty());
    assert_eq!(same, "no header");
}

#[test]
fn design_bundle_ids_match_catalog() {
    let ids = parse_install_args(&["design".to_string()]).unwrap();
    assert_eq!(ids.len(), default_design_skill_ids().len());
}

#[test]
fn install_args_sorted_and_deduplicated() {
    let ids = parse_install_args(&["pdf".to_string(), "docs".to_string(), "a".to_string()]).unwrap();
    assert_eq!(ids, vec!["a", "docx", "pdf", "pptx", "xlsx"]);
    let err = parse_install_args(&[]).unwrap_err();
    assert_eq!(err, "请指定技能 id，例如: onemini skills install pdf frontend-design");
}

#[test]
fn auto_match_frontend_design() {
    let reg = test_registry(&["frontend-design"]);
    let skill = reg.auto_match("帮我做一个 SaaS landing page").unwrap();
    assert_eq!(skill.name, "frontend-design");
}

#[test]
fn auto_match_debug() {
    let reg = test_registry(&["debug"]);
    let skill = reg.auto_match("登录接口一直报 500，帮我调试").unwrap();
    assert_eq!(skill.name, "debug");
}

#[test]
fn auto_match_none_for_generic() {
    let reg = test_registry(&["debug", "frontend-design"]);
    assert!(reg.auto_match("你好").is_none());
}

#[test]
fn auto_match_skips_bracketed_and_unknown_skills() {
    let reg = test_registry(&["debug"]);
    assert!(reg.auto_match("[技能激活: debug] 调试").is_none());
    assert!(reg.auto_match("landing page").is_none());
}

#[test]
fn trigger_rules_cover_catalog_ids() {
    let rules = auto_trigger_rules();
    assert_eq!(rules.len(), 18);
    assert_eq!(rules[0].id, "commit-message");
}

#[test]
fn registry_keeps_one_skill_per_name_in_order() {
    let reg = SkillRegistry::from_skills(vec![skill("zeta", "1"), skill("alpha", "2"), skill("zeta", "3")]);
    let names: Vec<_> = reg.list().iter().map(|s| s.name.clone()).collect();
    assert_eq!(names, vec!["alpha", "zeta"]);
    assert_eq!(reg.get("zeta").unwrap().description, "3");
    assert!(reg.get("missing").is_none());
    assert_eq!(reg.len(), 2);
}

#[test]
fn activation_of_builtin_skill() {
    let mut s = skill("debug", "d");
    s.body = Some("BODY".to_string());
    let msg = build_activation(&s, "  fix it  ", "技能激活", &no_files()).unwrap();
    assert_eq!(msg, "[技能激活: debug]\n\nBODY\n\n---\n\n用户请求：\nfix it");
    let empty = build_activation(&s, " ", "技能激活", &no_files()).unwrap();
    assert!(empty.ends_with("请按技能默认流程执行。"));
}

#[test]
fn activation_of_large_disk_skill_points_to_file() {
    let s = Skill {
        name: "pdf".to_string(),
        description: String::new(),
        source: SkillSource::Bundled,
        path: Some("/s/pdf/SKILL.md".to_string()),
        body: None,
    };
    let files = SkillFiles {
        text: None,
        dir: "/s/pdf".to_string(),
        has_scripts: true,
        shared_office: Some("/s/shared/office".to_string()),
        extra_docs: vec!["/s/pdf/forms.md".to_string()],
    };
    let msg = build_activation(&s, "", "技能激活", &files).unwrap();
    assert_eq!(
        msg,
        "[技能激活: pdf]\n\n请先使用 read 工具读取 `/s/pdf/SKILL.md` 获取完整技能指令，严格遵循后再执行。\n技能目录: `/s/pdf`\n脚本目录: `/s/pdf/scripts/`\n共享 Office 工具: `/s/shared/office`（unpack/pack/validate/soffice）\n辅助文档: `/s/pdf/forms.md`\n\n请按技能默认流程执行。"
    );
}

#[test]
fn catalog_lookup_and_table() {
    let e = find("pdf").unwrap();
    assert_eq!(e.category, "文档");
    assert!(find("nope").is_none());
    let text = format_catalog_table(&plain());
    assert!(text.contains("Apache-2.0"));
    assert!(text.contains("web-artifacts-builder"));
    assert!(!text.contains("apache2"));
}

#[test]
fn cli_list_and_catalog_text() {
    let reg = SkillRegistry::from_skills(vec![skill("debug", "调试")]);
    let list = reg.format_cli_list(&plain());
    assert!(list.starts_with("可用技能\n\n"));
    assert!(list.contains("/debug"));
    assert!(list.contains("内置"));
    let cat = reg.format_catalog();
    assert!(cat.contains("- **debug** (内置) — 调试\n"));
    assert_eq!(SkillRegistry::new().format_catalog(), "");
}

#[test]
fn show_reads_description_from_header() {
    let mut s = skill("demo", "fallback");
    s.body = Some("---\ndescription: from header\n---\n# Title".to_string());
    let reg = SkillRegistry::from_skills(vec![s]);
    let out = reg.format_show(&plain(), "demo", None).unwrap();
    assert!(out.contains("from header"));
    assert!(out.contains("Title"));
    assert_eq!(reg.format_show(&plain(), "x", None).unwrap_err(), "未找到技能: x");
}

#[test]
fn download_reporter_counts_and_formats() {
    let mut r = DownloadReporter { quiet: false, label: "pdf".to_string(), count: 0 };
    let line = r.file_downloaded(&plain(), "skills/pdf/scripts/a.py").unwrap();
    assert_eq!(line, "\r  ⠙ pdf · 已下载 1 个文件 · a.py");
    assert!(r.finish());
    let mut q = DownloadReporter { quiet: true, label: String::new(), count: 0 };
    assert!(q.file_downloaded(&plain(), "x").is_none());
    assert_eq!(q.count, 1);
    assert_eq!(last_path_segment("a/b/c"), "c");
    assert_eq!(last_path_segment("plain"), "plain");
}

#[test]
fn install_steps_and_messages() {
    assert_eq!(install_entry("pdf").ok().map(|e| e.id), Some("pdf"));
    assert_eq!(install_entry("nope").err(), Some("未知技能: nope".to_string()));
    assert_eq!(skill_remote_root("pdf"), "skills/pdf");
    assert_eq!(
        contents_url("o", "r", "skills/pdf"),
        "https://api.github.com/repos/o/r/contents/skills/pdf?ref=main"
    );
    assert_eq!(listing_action("dir", false), ListingAction::Descend);
    assert_eq!(listing_action("file", true), ListingAction::Download);
    assert_eq!(listing_action("file", false), ListingAction::Skip);
    assert_eq!(listing_action("symlink", true), ListingAction::Skip);
    let lines = installed_lines("x", "/d/x", "proprietary", true);
    assert_eq!(lines.len(), 3);
    assert_eq!(lines[0], "==> 已安装技能 `x` -> /d/x");
    assert!(lines[1].ends_with("/d/x/LICENSE.txt"));
    assert_eq!(installed_lines("x", "/d/x", "apache2", false).len(), 1);
    assert!(design_bundle_installed(false, true));
    assert!(!design_bundle_installed(false, false));
    assert!(design_bootstrap_needed(None, false));
    assert!(!design_bootstrap_needed(Some("1"), false));
    assert!(!design_bootstrap_needed(None, true));
    assert_eq!(design_installed_message(3), "已预装 3 个设计技能（会话内可用 /frontend-design 等）");
    assert_eq!(install_summary(2), "\n已安装 2 个技能。重启 onemini 或输入 /skills 查看。");
}

#[test]
fn document_skill_bootstrap() {
    assert_eq!(
        required_doc_files(),
        vec!["shared/office/unpack.py", "pdf/SKILL.md", "docx/SKILL.md", "pptx/SKILL.md", "xlsx/SKILL.md"]
    );
    assert!(document_skills_ready(&vec![true, true]));
    assert!(!document_skills_ready(&vec![true, false]));
    assert_eq!(bootstrap_plan(Some("1"), false, false, false), DocBootstrap::Nothing);
    assert_eq!(bootstrap_plan(None, true, false, false), DocBootstrap::Nothing);
    assert_eq!(bootstrap_plan(None, false, true, true), DocBootstrap::PythonDeps);
    assert_eq!(bootstrap_plan(Some("0"), false, true, false), DocBootstrap::Download);
    assert_eq!(doc_skill_remote_paths().len(), 5);
    assert_eq!(package_local_name("skills/pdf"), "pdf");
    assert_eq!(package_local_name("other"), "other");
    assert_eq!(package_progress(0, 5, "shared"), "包 1/5: shared");
    assert_eq!(downloaded_message(12), "已下载 12 个文件，文档技能脚本已就绪");
    assert!(python_deps_needed(None, false, true));
    assert!(!python_deps_needed(Some("1"), false, true));
    assert!(!python_deps_needed(None, true, true));
    assert!(!python_deps_needed(None, false, false));
    assert_eq!(pip_args("req.txt", false), vec!["-m", "pip", "install", "-r", "req.txt", "--disable-pip-version-check"]);
    assert_eq!(pip_args("r", true).len(), 8);
    assert_eq!(pip_failed_message(None, "r.txt"), "pip 安装退出码 -1，可稍后手动: pip install -r r.txt");
    assert_eq!(pip_failed_message(Some(2), "r.txt"), "pip 安装退出码 2，可稍后手动: pip install -r r.txt");
}

#[test]
fn marker_texts() {
    assert_eq!(onemini::skills::bootstrap::doc_skills_marker_text(), "onemini document skills bundle v1\n");
    assert_eq!(onemini::skills::install::design_bundle_marker_text(), "anthropics/skills design bundle\n");
    assert_eq!(onemini::skills::bootstrap::doc_skills_marker(), ".onemini-doc-skills-v1");
}

#[test]
fn skill_sources_as_listed() {
    assert_eq!(source_label(&SkillSource::Builtin), "builtin");
    assert_eq!(source_label(&SkillSource::Bundled), "builtin");
    assert_eq!(source_label(&SkillSource::User), "user");
    assert_eq!(source_label(&SkillSource::Project), "project");
}
