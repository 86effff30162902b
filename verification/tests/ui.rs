use onemini::ui::terminal::{clear_rows_sequence, cursor_up_sequence, parse_usize, terminal_width_from};
use onemini::ui::banner::{logo_lines, render_banner, BannerInfo, LOGO_ROWS};
use onemini::ui::markdown::render_markdown;
use onemini::ui::palette::{palette_gameboy, palette_modern, palette_nes, Rgb};
use onemini::ui::panel::{render_permission_panel, render_tool_panel, render_welcome_strip, render_window_chrome};
use onemini::ui::sanitize::{looks_like_reasoning_delta, sanitize_final, trim_incomplete_markdown};
use onemini::ui::stream::{
    build_collapsed_spinner_line, build_reasoning_display, content_display_lines, normalize_reasoning_lines,
    streamed_content_visual_rows, MAX_VISIBLE_REASONING_LINES,
};
use onemini::ui::table::render_table;
use onemini::ui::terminal::{strip_ansi, total_visual_rows, truncate_visible, visible_width, visual_rows};
use onemini::ui::{error, task_summary_block};
use onemini::ui::plan::render_plan_text;
use onemini::ui::theme::{current_palette, set_theme, Theme, ThemeId};

fn plain(id: ThemeId) -> Theme {
    Theme { id, colors: false }
}

// ----- palette -----

#[test]
fn modern_glow_matches_svg() {
    let p = palette_modern();
    assert_eq!(p.glow_hi, Rgb(57, 255, 20));
    assert_eq!(p.glow_mid, Rgb(127, 255, 90));
    assert_eq!(p.panel_fill, Rgb(13, 26, 13));
}

#[test]
fn gameboy_panel_bg_matches_svg() {
    assert_eq!(palette_gameboy().panel_fill, Rgb(155, 188, 15));
}

#[test]
fn nes_panel_bg_matches_svg() {
    assert_eq!(palette_nes().panel_fill, Rgb(28, 44, 110));
}

#[test]
fn palette_tracks_theme() {
    let mut t = plain(ThemeId::GameBoy);
    set_theme(&mut t, ThemeId::Modern);
    assert_eq!(current_palette(&t).glow_hi, Rgb(57, 255, 20));
    set_theme(&mut t, ThemeId::GameBoy);
    assert_eq!(current_palette(&t).panel_fill, Rgb(155, 188, 15));
}

// ----- panel -----

#[test]
fn tool_panel_is_text_only() {
    let t = plain(ThemeId::GameBoy);
    let out = render_tool_panel(&t, "bash", "ls -lh", None);
    assert!(out.contains("bash"));
    assert!(!out.contains('+'));
}

#[test]
fn permission_panel_is_text_only() {
    let t = plain(ThemeId::GameBoy);
    let out = render_permission_panel(&t, "bash", "ls -lh");
    assert!(out.contains("需要确认"));
    assert!(out.contains("允许"));
}

#[test]
fn welcome_strip_contains_text() {
    let t = plain(ThemeId::Modern);
    let out = render_welcome_strip(&t);
    assert!(out.contains("Welcome to oneMini"));
}

#[test]
fn window_chrome_has_dots() {
    let t = plain(ThemeId::Modern);
    let out = render_window_chrome(&t, "onemini - zsh");
    assert!(out.contains("onemini"));
}

#[test]
fn window_chrome_plain_text() {
    let t = plain(ThemeId::Modern);
    assert_eq!(render_window_chrome(&t, "onemini - zsh"), "ooo  onemini - zsh");
}

// ----- sanitize -----

#[test]
fn strips_system_instructions_block() {
    let raw = "hello\n<system_instructions>secret</system_instructions>\nworld";
    let out = sanitize_final(raw);
    assert!(out.contains("hello"));
    assert!(out.contains("world"));
    assert!(!out.contains("system_instructions"));
}

#[test]
fn strips_thinking_block() {
    let raw = "<thinking>internal</thinking>\n\n正式回答";
    assert_eq!(sanitize_final(raw), "正式回答");
}

#[test]
fn extracts_answer_tag() {
    let raw = "<thinking>x</thinking><answer>用户可见</answer>";
    assert_eq!(sanitize_final(raw), "用户可见");
}

#[test]
fn removes_meta_narration_lines() {
    let raw = "用户问我有哪些skill，这是一个简单的问题。\n\n| A | B |\n|---|---|\n| 1 | 2 |";
    let out = sanitize_final(raw);
    assert!(!out.contains("用户问我"));
    assert!(!out.contains("简单的问题"));
    assert!(out.contains("| A | B |"));
}

#[test]
fn trim_incomplete_fence() {
    let raw = "text\n```rust\nfn main()";
    let out = trim_incomplete_markdown(raw);
    assert!(!out.contains("```"));
    assert!(out.contains("text"));
}

#[test]
fn preserves_valid_table() {
    let md = "| 列A | 列B |\n| --- | --- |\n| 1 | 2 |";
    assert_eq!(sanitize_final(md), md);
}

#[test]
fn reasoning_delta_detection() {
    assert!(looks_like_reasoning_delta("<thinking>"));
    assert!(!looks_like_reasoning_delta("正常输出"));
}

// ----- stream -----

fn eight_lines() -> String {
    (1..=8).map(|i| format!("line{i}")).collect::<Vec<_>>().join("\n")
}

#[test]
fn normalize_empty_buf() {
    assert!(normalize_reasoning_lines("").is_empty());
}

#[test]
fn normalize_single_line_without_newline() {
    let lines = normalize_reasoning_lines("hello");
    assert_eq!(lines, vec!["hello".to_string()]);
}

#[test]
fn collapsed_mode_is_single_line() {
    let t = plain(ThemeId::Modern);
    let buf = eight_lines();
    let display = build_reasoning_display(&t, &buf, false, 0, false, 80);
    assert_eq!(display.len(), 1);
    assert!(display[0].contains("思考中"));
    assert!(display[0].contains("line8"));
}

#[test]
fn collapsed_spinner_uses_latest_line() {
    let t = plain(ThemeId::Modern);
    let line = build_collapsed_spinner_line(&t, "first\nsecond line", 0, 80);
    assert!(line.contains("second line"));
    assert!(!line.contains("first"));
}

#[test]
fn display_folds_when_many_lines_expanded() {
    let t = plain(ThemeId::Modern);
    let buf = eight_lines();
    let display = build_reasoning_display(&t, &buf, true, 0, false, 80);
    assert!(display
        .iter()
        .any(|l| l.contains(&format!("已折叠 {}", 8 - MAX_VISIBLE_REASONING_LINES))));
    assert!(display.iter().any(|l| l.contains("line8")));
    assert!(!display.iter().any(|l| l.contains("line1")));
}

#[test]
fn display_shows_all_when_few_lines_expanded() {
    let t = plain(ThemeId::Modern);
    let display = build_reasoning_display(&t, "a\nb\nc", true, 0, false, 80);
    assert!(!display.iter().any(|l| l.contains("已折叠")));
    assert!(display.iter().any(|l| l.contains('a')));
    assert!(display.iter().any(|l| l.contains('c')));
}

#[test]
fn content_lines_prefix_first_line_only() {
    let t = plain(ThemeId::Modern);
    let lines = content_display_lines(&t, "第一行\n第二行");
    assert!(lines[0].contains("onemini"));
    assert!(lines[0].contains('第'));
    assert!(!lines[1].contains("onemini"));
    assert_eq!(lines[1], "第二行");
}

#[test]
fn streamed_content_rows_counts_wrapped_first_line() {
    let t = plain(ThemeId::Modern);
    let long = "a".repeat(120);
    assert!(streamed_content_visual_rows(&t, &long, 80) >= 2);
}

#[test]
fn streamed_content_rows_counts_newlines() {
    let t = plain(ThemeId::Modern);
    assert_eq!(streamed_content_visual_rows(&t, "", 80), 0);
    assert_eq!(streamed_content_visual_rows(&t, "单行", 80), 1);
    assert!(streamed_content_visual_rows(&t, "a\nb\nc", 80) >= 3);
}

// ----- table -----

#[test]
fn basic_table() {
    let t = plain(ThemeId::Modern);
    let out = render_table(&t, &["技能", "来源"], &[vec!["debug".into(), "内置".into()]]);
    assert!(out.contains("debug"));
    assert!(out.contains("内置"));
}

#[test]
fn table_layout_modern_and_retro() {
    let rows = vec![vec!["a".to_string(), "bb".to_string()]];
    let modern = render_table(&plain(ThemeId::Modern), &["x", "y"], &rows);
    assert_eq!(modern, "x  y \n─  ──\na  bb");
    let retro = render_table(&plain(ThemeId::Nes), &["x", "y"], &rows);
    assert_eq!(retro, "|x|y |\n+--+---+\n|a|bb|");
    assert_eq!(render_table(&plain(ThemeId::Modern), &[], &rows), "");
}

// ----- terminal -----

#[test]
fn visual_rows_single_line() {
    assert_eq!(visual_rows("hello", 80), 1);
}

#[test]
fn visual_rows_wraps_long_line() {
    let line = "a".repeat(100);
    assert_eq!(visual_rows(&line, 40), 3);
}

#[test]
fn truncate_visible_adds_ellipsis() {
    let out = truncate_visible("你好世界", 4);
    assert!(out.ends_with('…'));
    assert!(visible_width(&out) <= 4);
}

#[test]
fn total_visual_rows_sums_each_line() {
    let lines = vec!["a".repeat(50), "short".to_string()];
    assert_eq!(total_visual_rows(&lines, 40), 3);
}

// ----- banner -----

fn banner(t: &Theme, info: &BannerInfo) -> String {
    render_banner(t, info, &logo_lines())
}

#[test]
fn banner_has_window_chrome_and_welcome_panel() {
    let t = plain(ThemeId::Modern);
    let out = banner(&t, &BannerInfo::default());
    assert!(out.contains("onemini - zsh"));
    assert!(out.contains("Welcome to oneMini"));
    assert!(out.contains("OneMini CLI"));
}

#[test]
fn banner_has_logo_and_title() {
    let t = plain(ThemeId::Modern);
    let out = banner(&t, &BannerInfo::default());
    assert!(out.contains("Welcome to oneMini"));
    assert!(out.contains("OneMini CLI"));
    assert!(out.contains("██████╗"));
    assert!(out.contains("╚═════╝"));
}

#[test]
fn logo_has_six_unicode_rows() {
    let lines = logo_lines();
    assert_eq!(lines.len(), LOGO_ROWS);
    assert!(lines.iter().all(|l| l.chars().any(|c| c != ' ')));
}

#[test]
fn logo_spells_onemini() {
    let lines = logo_lines();
    assert_eq!(lines.len(), LOGO_ROWS);
    assert!(lines[0].contains("██████╗"));
    assert!(lines[5].contains("╚═══╝"));
}

#[test]
fn compact_banner_shows_onemini_art() {
    let t = plain(ThemeId::GameBoy);
    let compact = logo_lines();
    assert_eq!(compact.len(), LOGO_ROWS);
    assert!(compact[0].contains("██████╗"));
    let out = banner(&t, &BannerInfo::default());
    assert!(out.contains("Welcome to oneMini"));
    assert!(out.contains("OneMini CLI"));
    assert!(out.contains("onemini - zsh"));
}

#[test]
fn meta_appears_below_logo() {
    let t = plain(ThemeId::Modern);
    let out = banner(&t, &BannerInfo::default());
    let lines: Vec<_> = out.lines().collect();
    let logo_idx = lines.iter().position(|l| l.contains("██████╗")).unwrap();
    let meta_idx = lines.iter().position(|l| l.contains("OneMini CLI")).unwrap();
    assert!(meta_idx > logo_idx, "描述文字应在 Logo 下方");
}

#[test]
fn banner_includes_workdir_row_when_present() {
    let t = plain(ThemeId::Modern);
    let info = BannerInfo {
        model: Some("gpt-4o".to_string()),
        permission_mode: Some("默认".to_string()),
        workdir: Some("/tmp/project".to_string()),
    };
    let rendered = banner(&t, &info);
    let lines: Vec<_> = rendered.lines().collect();
    assert!(lines.len() > 5);
    assert!(rendered.contains("/tmp/project"));
}

#[test]
fn banner_meta_lines_in_order() {
    let t = plain(ThemeId::Nes);
    let out = banner(&t, &BannerInfo::default());
    let lines: Vec<_> = out.lines().collect();
    assert_eq!(lines[0], "ooo  onemini - zsh");
    assert_eq!(lines[2], "* Welcome to oneMini");
    let tail: Vec<_> = lines[lines.len() - 5..].to_vec();
    assert_eq!(
        tail,
        vec![
            "OneMini CLI v0.1.0",
            "终端 AI 编程助手",
            "model: (未配置)",
            "theme: nes",
            "> 运行 cargo test 并解释失败原因"
        ]
    );
}

// ----- markdown -----

#[test]
fn bold_inline() {
    let t = plain(ThemeId::Modern);
    let rendered = render_markdown(&t, "我是 **OneMini CLI**，助手。");
    assert!(!rendered.contains("**"));
    assert!(rendered.contains("OneMini CLI"));
}

#[test]
fn table_renders_without_pipes() {
    let t = plain(ThemeId::Modern);
    let md = "| 列A | 列B |\n| --- | --- |\n| 1 | 2 |";
    let rendered = render_markdown(&t, md);
    assert!(!rendered.contains('|'));
    assert!(rendered.contains('─'));
    assert!(rendered.contains('1'));
}

#[test]
fn table_renders_cjk_weather_rows() {
    let t = plain(ThemeId::Modern);
    let md = "| 时段 | 天气 | 温度 |\n| --- | --- | --- |\n| 🌅 早上 | 烟霾 | 23°C |\n| ☀️ 中午 | 局部阵雨 | 29°C |";
    let rendered = render_markdown(&t, md);
    assert!(!rendered.contains('|'));
    assert!(rendered.contains("🌅 早上"));
    assert!(rendered.contains("局部阵雨"));
}

#[test]
fn table_cell_bold_renders_without_markers() {
    let t = plain(ThemeId::Modern);
    let md = "| 项目 | 详情 |\n| --- | --- |\n| **当前天气** | 多云间晴 |";
    let rendered = render_markdown(&t, md);
    assert!(!rendered.contains("**"));
    assert!(rendered.contains("当前天气"));
    assert!(rendered.contains("多云间晴"));
}

#[test]
fn heading_bold_renders_without_markers() {
    let t = plain(ThemeId::Modern);
    let rendered = render_markdown(&t, "**成都今日天气（2026年6月18日）**");
    assert!(!rendered.contains("**"));
    assert!(rendered.contains("成都今日天气"));
}

#[test]
fn markdown_lists_links_and_code() {
    let t = plain(ThemeId::Modern);
    let rendered = render_markdown(&t, "- one\n- two\n\nsee [docs](https://example.com) and `x`");
    assert_eq!(rendered, "• one\n• two\nsee docs (https://example.com) and `x`");
    let retro = render_markdown(&plain(ThemeId::GameBoy), "- one");
    assert_eq!(retro, "* one");
}

#[test]
fn markdown_rule_and_fenced_code() {
    let t = plain(ThemeId::GameBoy);
    let rendered = render_markdown(&t, "```diff\n+a\n```");
    assert_eq!(rendered, "diff\n+a");
    let ruled = render_markdown(&t, "a\n\n- - -\n\nb");
    assert_eq!(ruled, format!("a\n{}\nb", "-".repeat(40)));
    // an odd run of `*` is cut as unclosed emphasis before rendering
    assert_eq!(render_markdown(&t, "a\n\n***\n\nb"), "a");
}

#[test]
fn terminal_sequences_and_width() {
    assert_eq!(clear_rows_sequence(0), "");
    assert_eq!(clear_rows_sequence(1), "\x1b[2K\r");
    assert_eq!(clear_rows_sequence(3), "\x1b[2A\x1b[2K\x1b[1B\x1b[2K\x1b[1B\x1b[2K\x1b[2A");
    assert_eq!(cursor_up_sequence(0), "");
    assert_eq!(cursor_up_sequence(4), "\x1b[4A");
    assert_eq!(parse_usize("120"), Some(120));
    assert_eq!(parse_usize("+7"), Some(7));
    assert_eq!(parse_usize(""), None);
    assert_eq!(parse_usize("+"), None);
    assert_eq!(parse_usize("12a"), None);
    assert_eq!(parse_usize("-1"), None);
    assert_eq!(parse_usize("99999999999999999999999"), None);
    assert_eq!(parse_usize(&usize::MAX.to_string()), Some(usize::MAX));
    assert_eq!(terminal_width_from(Some("100")), 100);
    assert_eq!(terminal_width_from(Some("0")), 80);
    assert_eq!(terminal_width_from(Some("x")), 80);
    assert_eq!(terminal_width_from(None), 80);
}

fn coloured(id: ThemeId) -> Theme {
    Theme { id, colors: true }
}

#[test]
fn coloured_markdown_shows_the_plain_text() {
    let src = "# 标题\n\n**粗体** 和 `code` 与 [链接](https://x.y)\n\n- 一\n- 二\n\n```rust\nlet a = 1;\n```\n";
    for id in [ThemeId::Modern, ThemeId::GameBoy, ThemeId::Nes] {
        let plain_out = render_markdown(&plain(id), src);
        let shown = strip_ansi(&render_markdown(&coloured(id), src));
        assert_eq!(shown.trim_end(), plain_out);
    }
}

#[test]
fn coloured_markdown_table_shows_the_plain_table() {
    let src = "表格如下：\n\n| 名称 | 数量 |\n|---|---|\n| 苹果 | 3 |\n| pear | 12 |\n\n**完** `ok`\n";
    for id in [ThemeId::Modern, ThemeId::GameBoy, ThemeId::Nes] {
        let plain_out = render_markdown(&plain(id), src);
        assert!(plain_out.contains("苹果"));
        if id == ThemeId::Modern {
            assert!(!plain_out.contains('|'));
            assert!(plain_out.contains('─'));
        }
        let shown = strip_ansi(&render_markdown(&coloured(id), src));
        assert_eq!(shown.trim_end(), plain_out);
    }
}

#[test]
fn coloured_error_shows_icon_and_message() {
    assert_eq!(strip_ansi(&error(&coloured(ThemeId::Modern), "boom")), "[X] boom");
    assert_eq!(strip_ansi(&error(&plain(ThemeId::Modern), "boom")), "[X] boom");
}

#[test]
fn coloured_collapsed_reasoning_shows_label_and_latest_line() {
    let buf8 = (1..=8).map(|i| format!("line{i}")).collect::<Vec<_>>().join("\n");
    let d = build_reasoning_display(&coloured(ThemeId::Modern), &buf8, false, 0, false, 80);
    assert_eq!(d.len(), 1);
    let shown = strip_ansi(&d[0]);
    assert!(shown.contains("思考中"));
    assert!(shown.contains("line8"));
    let p = build_reasoning_display(&plain(ThemeId::Modern), &buf8, false, 0, false, 80);
    assert_eq!(shown, p[0]);
}

#[test]
fn coloured_content_lines_and_rows_match_plain() {
    let c = content_display_lines(&coloured(ThemeId::Modern), "第一行\n第二行");
    assert_eq!(strip_ansi(&c[0]), "onemini > 第一行");
    assert_eq!(c[1], "第二行");
    let long = "a".repeat(120);
    assert_eq!(
        streamed_content_visual_rows(&coloured(ThemeId::Modern), &long, 80),
        streamed_content_visual_rows(&plain(ThemeId::Modern), &long, 80)
    );
}

#[test]
fn coloured_panels_show_their_text() {
    let p = render_permission_panel(&coloured(ThemeId::Modern), "bash", "ls");
    assert_eq!(strip_ansi(&p), "  [!] 需要确认: bash (ls)\n  [1] 允许  [2] 拒绝  [3] 始终允许\n  输入 /mode 切换权限模式");
    let tp = render_tool_panel(&coloured(ThemeId::Nes), "read", "a.rs", Some("12 行"));
    assert_eq!(strip_ansi(&tp), "  -> read  a.rs\n  ok 12 行");
}

#[test]
fn coloured_output_keeps_its_words_whole() {
    for id in [ThemeId::Modern, ThemeId::GameBoy, ThemeId::Nes] {
        let t = coloured(id);
        assert!(render_tool_panel(&t, "bash", "ls -lh", None).contains("bash"));
        let p = render_permission_panel(&t, "bash", "ls -lh");
        assert!(p.contains("需要确认") && p.contains("允许"));
        assert!(render_welcome_strip(&t).contains("Welcome to oneMini"));
        assert!(render_window_chrome(&t, "onemini - zsh").contains("onemini - zsh"));
        let line = build_collapsed_spinner_line(&t, "first\nsecond line", 0, 80);
        assert!(line.contains("second line") && line.contains("思考中") && !line.contains("first"));
        let c = content_display_lines(&t, "第一行\n第二行");
        assert!(c[0].contains("onemini"));
    }
}

#[test]
fn theme_names_parse_back() {
    for id in [ThemeId::Modern, ThemeId::GameBoy, ThemeId::Nes] {
        assert_eq!(ThemeId::parse(id.as_str()), Some(id));
    }
    assert_eq!(ThemeId::parse(" GB "), Some(ThemeId::GameBoy));
    assert_eq!(ThemeId::parse("FC"), Some(ThemeId::Nes));
    assert_eq!(ThemeId::parse("default"), Some(ThemeId::Modern));
    assert_eq!(ThemeId::parse("dark"), None);
}

#[test]
fn coloured_plan_and_status_show_their_text() {
    let text = "任务目标: 修复\n计划步骤:\n  1. [✓] 读代码\n  2. [✗] 测试\n  - [失败] cargo test";
    let shown = strip_ansi(&render_plan_text(&coloured(ThemeId::Modern), text));
    assert_eq!(shown, "任务目标: 修复\n计划步骤:\n  1. [✓] 读代码\n  2. [X] 测试\n  - [失败] cargo test");
    let block = task_summary_block(&coloured(ThemeId::Nes), "完成\n两行");
    assert_eq!(strip_ansi(&block), task_summary_block(&plain(ThemeId::Nes), "完成\n两行"));
}
