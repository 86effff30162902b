//! Terminal rendering: themes, panels, tables, output shaping and streaming layout.
//!
//! With colours off (`Theme::colors == false`) every function here is specified
//! exactly; with colours on, the styled parts come from `colored`.
pub mod ansi;
pub mod banner;
pub mod markdown;
pub mod palette;
pub mod panel;
pub mod plan;
pub mod repl_helper;
pub mod sanitize;
pub mod spinner;
pub mod stream;
pub mod table;
pub mod terminal;
pub mod theme;

use vstd::prelude::*;
use crate::text::{
    concat2, concat3, contains, contains_seq, decimal, decimal_string, join, join_seq, lines,
    lines_spec, lowercase, owned, prefix_each, prefix_each_seq, repeat, repeat_seq, starts_with,
    to_lower, trim, trim_seq, views, has_prefix,
};
use crate::ui::ansi::paint_red;
use crate::ui::terminal::{
    closed, lemma_contains_suffix, lemma_contains_trans, lemma_contains_within, lemma_no_esc_repeat, lemma_shows3,
    lemma_shows_join, lemma_shows_concat, lemma_shows_plain, no_esc, shows, stands_whole, strip_ansi_spec,
};
use crate::ui::theme::lemma_borders_plain;
use crate::ui::spinner::frame_spec;
use crate::ui::theme::{
    accent, border_bottom_left, border_bottom_left_spec, border_bottom_right,
    border_bottom_right_spec, border_horizontal, border_horizontal_spec, border_top_left,
    border_top_left_spec, border_top_right, border_top_right_spec, border_vertical,
    border_vertical_spec, choice_always, choice_default, choice_yes, diff_add, diff_remove,
    error_icon, muted, muted_strong, panel_title, primary, primary_light, separator_line, soft,
    success_icon, thinking_detail, thinking_icon, thinking_label, warn_icon, warning, Theme,
    ThemeId,
};

verus! {

/// `[+] message`.
pub fn success(t: &Theme, msg: &str) -> (r: String)
    ensures
        !t.colors ==> r@ == "[+]"@ + " "@ + msg@,
        closed(msg@) ==> shows(r@, "[+]"@ + " "@ + strip_ansi_spec(msg@)),
{
    let icon = success_icon(t);
    let body = primary_light(t, msg);
    let r = concat3(icon.as_str(), " ", body.as_str());
    proof {
        reveal_strlit(" ");
        lemma_shows_plain(" "@);
        if closed(msg@) {
            lemma_shows3(icon@, "[+]"@, " "@, " "@, body@, strip_ansi_spec(msg@));
        }
    }
    r
}

/// `[X] message`, the message always red through `colored`.
pub fn error(t: &Theme, msg: &str) -> (r: String)
    ensures
        !t.colors ==> has_prefix(r@, "[X]"@ + " "@),
        closed(msg@) ==> shows(r@, "[X]"@ + " "@ + strip_ansi_spec(msg@)),
{
    let icon = error_icon(t);
    let body = paint_red(msg);
    let r = concat3(icon.as_str(), " ", body.as_str());
    assert(r@.take((icon@ + " "@).len() as int) =~= icon@ + " "@);
    proof {
        reveal_strlit(" ");
        lemma_shows_plain(" "@);
        if closed(msg@) {
            lemma_shows3(icon@, "[X]"@, " "@, " "@, body@, strip_ansi_spec(msg@));
        }
    }
    r
}

/// `[!] message`.
pub fn warn(t: &Theme, msg: &str) -> (r: String)
    ensures
        !t.colors ==> r@ == "[!]"@ + " "@ + msg@,
        closed(msg@) ==> shows(r@, "[!]"@ + " "@ + strip_ansi_spec(msg@)),
{
    let icon = warn_icon(t);
    let body = warning(t, msg);
    let r = concat3(icon.as_str(), " ", body.as_str());
    proof {
        reveal_strlit(" ");
        lemma_shows_plain(" "@);
        if closed(msg@) {
            lemma_shows3(icon@, "[!]"@, " "@, " "@, body@, strip_ansi_spec(msg@));
        }
    }
    r
}

/// A warning that blocks an action (`[!] message`).
pub fn block_warning(t: &Theme, msg: &str) -> (r: String)
    ensures
        !t.colors ==> r@ == "[!]"@ + " "@ + msg@,
        closed(msg@) ==> shows(r@, "[!]"@ + " "@ + strip_ansi_spec(msg@)),
{
    warn(t, msg)
}

/// The closing line of a tool card.
pub fn tool_output_preview(t: &Theme, text: &str) -> (r: String)
    ensures
        !t.colors ==> r@ == "  "@ + border_bottom_left_spec(t.id) + " "@ + repeat_seq(
            border_horizontal_spec(t.id),
            2,
        ) + " "@ + text@ + "\n"@,
        closed(text@) ==> shows(
            r@,
            "  "@ + border_bottom_left_spec(t.id) + " "@ + repeat_seq(border_horizontal_spec(t.id), 2) + " "@
                + strip_ansi_spec(text@) + "\n"@,
        ),
{
    let corner = soft(t, border_bottom_left(t));
    let rule = repeat(border_horizontal(t), 2);
    let body = muted_strong(t, text);
    let mut out = concat3("  ", corner.as_str(), " ");
    out.append(rule.as_str());
    out.append(" ");
    out.append(body.as_str());
    out.append("\n");
    proof {
        reveal_strlit("  ");
        lemma_shows_plain("  "@);
        reveal_strlit(" ");
        lemma_shows_plain(" "@);
        reveal_strlit("\n");
        lemma_shows_plain("\n"@);
        lemma_borders_plain(t.id);
        lemma_shows_plain(border_bottom_left_spec(t.id));
        lemma_no_esc_repeat(border_horizontal_spec(t.id), 2);
        lemma_shows_plain(rule@);
        if closed(text@) {
            let bl = border_bottom_left_spec(t.id);
            lemma_shows3("  "@, "  "@, corner@, bl, " "@, " "@);
            lemma_shows3("  "@ + corner@ + " "@, "  "@ + bl + " "@, rule@, rule@, " "@, " "@);
            lemma_shows3(
                "  "@ + corner@ + " "@ + rule@ + " "@,
                "  "@ + bl + " "@ + rule@ + " "@,
                body@,
                strip_ansi_spec(text@),
                "\n"@,
                "\n"@,
            );
            assert(out@ =~= "  "@ + corner@ + " "@ + rule@ + " "@ + body@ + "\n"@);
        }
    }
    out
}

/// `  * 思考中`.
pub fn reasoning_header(t: &Theme) -> (r: String)
    ensures
        !t.colors ==> r@ == "  "@ + "*"@ + " "@ + "思考中"@,
        shows(r@, "  "@ + (if t.colors && t.id == ThemeId::Nes { "~"@ } else { "*"@ }) + " "@ + "思考中"@),
{
    let icon = thinking_icon(t);
    let label = thinking_label(t, "思考中");
    let mut out = concat3("  ", icon.as_str(), " ");
    out.append(label.as_str());
    proof {
        reveal_strlit("  ");
        lemma_shows_plain("  "@);
        reveal_strlit(" ");
        lemma_shows_plain(" "@);
        reveal_strlit("思考中");
        lemma_shows_plain("思考中"@);
        let ic = if t.colors && t.id == ThemeId::Nes { "~"@ } else { "*"@ };
        lemma_shows3("  "@, "  "@, icon@, ic, " "@, " "@);
        lemma_shows_concat("  "@ + icon@ + " "@, "  "@ + ic + " "@, label@, "思考中"@);
    }
    out
}

/// A line of expanded reasoning text.
pub fn reasoning_text(t: &Theme, text: &str) -> (r: String)
    ensures
        !t.colors ==> r@ == text@,
        closed(text@) ==> shows(r@, strip_ansi_spec(text@)),
{
    thinking_detail(t, text)
}

/// The rule that closes an expanded reasoning block.
pub fn reasoning_footer(t: &Theme) -> (r: String)
    ensures
        !t.colors ==> r@ == "  "@ + "*"@ + " "@ + repeat_seq(border_horizontal_spec(t.id), 32),
        shows(
            r@,
            "  "@ + (if t.colors && t.id == ThemeId::Nes { "~"@ } else { "*"@ }) + " "@ + repeat_seq(
                border_horizontal_spec(t.id),
                32,
            ),
        ),
{
    let icon = thinking_icon(t);
    let rule = separator_line(t, 32);
    let mut out = concat3("  ", icon.as_str(), " ");
    out.append(rule.as_str());
    proof {
        reveal_strlit("  ");
        lemma_shows_plain("  "@);
        reveal_strlit(" ");
        lemma_shows_plain(" "@);
        let ic = if t.colors && t.id == ThemeId::Nes { "~"@ } else { "*"@ };
        lemma_shows3("  "@, "  "@, icon@, ic, " "@, " "@);
        lemma_shows_concat("  "@ + icon@ + " "@, "  "@ + ic + " "@, rule@, repeat_seq(border_horizontal_spec(t.id), 32));
    }
    out
}

/// `  … (已折叠 n 行)`.
pub fn reasoning_fold_line(t: &Theme, folded_count: usize) -> (r: String)
    ensures
        !t.colors ==> r@ == "  "@ + "… (已折叠 "@ + decimal(folded_count as nat) + " 行)"@,
        shows(r@, "  "@ + "… (已折叠 "@ + decimal(folded_count as nat) + " 行)"@),
{
    let n = decimal_string(folded_count);
    let text = concat3("… (已折叠 ", n.as_str(), " 行)");
    let body = muted(t, text.as_str());
    let r = concat2("  ", body.as_str());
    proof {
        reveal_strlit("  ");
        lemma_shows_plain("  "@);
        reveal_strlit("… (已折叠 ");
        lemma_shows_plain("… (已折叠 "@);
        reveal_strlit(" 行)");
        lemma_shows_plain(" 行)"@);
        crate::text::lemma_decimal_digits(folded_count as nat);
        assert(no_esc(text@));
        lemma_shows_plain(text@);
        lemma_shows_concat("  "@, "  "@, body@, text@);
        assert("  "@ + text@ =~= "  "@ + "… (已折叠 "@ + decimal(folded_count as nat) + " 行)"@);
    }
    r
}

/// The collapsed thinking line without colours.
pub open spec fn spinner_line_plain(id: ThemeId, frame: nat, summary: Seq<char>) -> Seq<char> {
    "  "@ + frame_spec(id, frame) + " "@ + "思考中"@ + " "@ + summary
}

/// Collapsed thinking: spinner frame, label and summary on one line.
pub fn thinking_spinner_line(t: &Theme, frame: usize, summary: &str) -> (r: String)
    ensures
        !t.colors ==> r@ == spinner_line_plain(t.id, frame as nat, summary@),
        closed(summary@) ==> shows(r@, spinner_line_plain(t.id, frame as nat, strip_ansi_spec(summary@))),
        stands_whole(r@, "思考中"@),
        no_esc(summary@) ==> stands_whole(r@, summary@),
{
    let spin = crate::ui::spinner::frame(t, frame);
    let label = thinking_label(t, "思考中");
    let hint = muted_strong(t, summary);
    let mut out = concat3("  ", spin, " ");
    out.append(label.as_str());
    out.append(" ");
    out.append(hint.as_str());
    proof {
        reveal_strlit("  ");
        reveal_strlit(" ");
        reveal_strlit("思考中");
        lemma_shows_plain("  "@);
        lemma_shows_plain(" "@);
        lemma_shows_plain("思考中"@);
        lemma_shows_plain(spin@);
        if closed(summary@) {
            let x = strip_ansi_spec(summary@);
            lemma_shows_concat("  "@, "  "@, spin@, spin@);
            lemma_shows_concat("  "@ + spin@, "  "@ + spin@, " "@, " "@);
            lemma_shows_concat("  "@ + spin@ + " "@, "  "@ + spin@ + " "@, label@, "思考中"@);
            lemma_shows_concat("  "@ + spin@ + " "@ + label@, "  "@ + spin@ + " "@ + "思考中"@, " "@, " "@);
            lemma_shows_concat(
                "  "@ + spin@ + " "@ + label@ + " "@,
                "  "@ + spin@ + " "@ + "思考中"@ + " "@,
                hint@,
                x,
            );
            assert(out@ =~= "  "@ + spin@ + " "@ + label@ + " "@ + hint@);
        }
        lemma_contains_within("  "@ + spin@ + " "@, label@, " "@ + hint@, "思考中"@);
        assert(out@ =~= "  "@ + spin@ + " "@ + label@ + (" "@ + hint@));
        if no_esc(summary@) {
            lemma_contains_suffix("  "@ + spin@ + " "@ + label@ + " "@, hint@);
            lemma_contains_trans(out@, hint@, summary@);
        }
    }
    out
}

fn color_diff_line(t: &Theme, line: &str) -> (r: String)
    ensures
        !t.colors ==> r@ == line@,
{
    if starts_with(line, "+") && !starts_with(line, "+++") {
        diff_add(t, line)
    } else if starts_with(line, "-") && !starts_with(line, "---") {
        diff_remove(t, line)
    } else {
        muted_strong(t, line)
    }
}

fn color_diff_lines(t: &Theme, ls: &Vec<String>) -> (r: Vec<String>)
    ensures
        !t.colors ==> views(r@) == views(ls@),
{
    let n = ls.len();
    let mut out: Vec<String> = Vec::new();
    let mut i: usize = 0;
    while i < n
        invariant
            n == ls@.len(),
            i <= n,
            !t.colors ==> views(out@) == views(ls@.take(i as int)),
        decreases n - i,
    {
        let ghost before = out@;
        let line = color_diff_line(t, ls[i].as_str());
        out.push(line);
        proof {
            if !t.colors {
                assert(views(out@) =~= views(before).push(line@));
                assert(views(ls@.take(i + 1)) =~= views(ls@.take(i as int)).push(ls@[i as int]@));
            }
        }
        i = i + 1;
    }
    assert(ls@.take(n as int) =~= ls@);
    out
}

/// A framed diff preview: added lines green, removed lines dimmed red.
pub fn diff_block(t: &Theme, diff: &str) -> (r: String)
    ensures
        !t.colors ==> r@ == "\n  "@ + border_top_left_spec(t.id) + " "@ + repeat_seq(
            border_horizontal_spec(t.id),
            2,
        ) + " "@ + "diff"@ + "\n"@ + join_seq(
            prefix_each_seq(
                lines_spec(join_seq(lines_spec(diff@), "\n"@)),
                "  "@ + border_vertical_spec(t.id) + " "@,
            ),
            "\n"@,
        ) + "\n  "@ + border_bottom_left_spec(t.id) + " "@ + repeat_seq(border_horizontal_spec(t.id), 2)
            + " "@ + repeat_seq(border_horizontal_spec(t.id), 24) + "\n"@,
{
    let src_lines = lines(diff);
    let colored = color_diff_lines(t, &src_lines);
    let inner = join(&colored, "\n");
    let inner_lines = lines(inner.as_str());
    let bar = soft(t, border_vertical(t));
    let prefix = concat3("  ", bar.as_str(), " ");
    let framed = prefix_each(&inner_lines, prefix.as_str());
    let body = join(&framed, "\n");
    let top = soft(t, border_top_left(t));
    let bottom = soft(t, border_bottom_left(t));
    let rule = repeat(border_horizontal(t), 2);
    let tail = separator_line(t, 24);
    let title = muted(t, "diff");
    let mut out = concat3("\n  ", top.as_str(), " ");
    out.append(rule.as_str());
    out.append(" ");
    out.append(title.as_str());
    out.append("\n");
    out.append(body.as_str());
    out.append("\n  ");
    out.append(bottom.as_str());
    out.append(" ");
    out.append(rule.as_str());
    out.append(" ");
    out.append(tail.as_str());
    out.append("\n");
    out
}

/// The standard separator (48 border glyphs).
pub fn separator(t: &Theme) -> (r: String)
    ensures
        !t.colors ==> r@ == repeat_seq(border_horizontal_spec(t.id), 48),
        shows(r@, repeat_seq(border_horizontal_spec(t.id), 48)),
{
    separator_line(t, 48)
}

/// The framed STATUS screen without colours.
pub open spec fn summary_block_plain(id: ThemeId, summary: Seq<char>) -> Seq<char> {
    "\n  "@ + border_top_left_spec(id) + " "@ + repeat_seq(border_horizontal_spec(id), 42) + " "@
        + border_top_right_spec(id) + "\n  "@ + border_vertical_spec(id) + " "@ + (if id == ThemeId::Nes {
        "= "@ + "STATUS"@ + " ="@
    } else {
        "STATUS"@
    }) + "\n"@ + join_seq(
        prefix_each_seq(lines_spec(trim_seq(summary)), "  "@ + border_vertical_spec(id) + " "@),
        "\n"@,
    ) + "\n  "@ + border_bottom_left_spec(id) + " "@ + repeat_seq(border_horizontal_spec(id), 42) + " "@
        + border_bottom_right_spec(id) + "\n"@
}

/// The framed STATUS screen around a task summary.
pub fn task_summary_block(t: &Theme, summary: &str) -> (r: String)
    ensures
        !t.colors ==> r@ == summary_block_plain(t.id, summary@),
        (forall|i: int| 0 <= i < lines_spec(trim_seq(summary@)).len() ==> no_esc(
            #[trigger] lines_spec(trim_seq(summary@))[i],
        )) ==> shows(r@, summary_block_plain(t.id, summary@)),
{
    let title = panel_title(t, "STATUS");
    let trimmed = trim(summary);
    let ls_exec = lines(trimmed.as_str());
    let bar = soft(t, border_vertical(t));
    let prefix = concat3("  ", bar.as_str(), " ");
    let framed = prefix_each(&ls_exec, prefix.as_str());
    let body = join(&framed, "\n");
    let tl = soft(t, border_top_left(t));
    let tr = soft(t, border_top_right(t));
    let bl = soft(t, border_bottom_left(t));
    let br = soft(t, border_bottom_right(t));
    let rule = repeat(border_horizontal(t), 42);
    let mut out = concat3("\n  ", tl.as_str(), " ");
    out.append(rule.as_str());
    out.append(" ");
    out.append(tr.as_str());
    out.append("\n  ");
    out.append(bar.as_str());
    out.append(" ");
    out.append(title.as_str());
    out.append("\n");
    out.append(body.as_str());
    out.append("\n  ");
    out.append(bl.as_str());
    out.append(" ");
    out.append(rule.as_str());
    out.append(" ");
    out.append(br.as_str());
    out.append("\n");
    proof {
        let ls = lines_spec(trim_seq(summary@));
        let id = t.id;
        reveal_strlit("\n  ");
        reveal_strlit(" ");
        reveal_strlit("\n");
        reveal_strlit("  ");
        reveal_strlit("STATUS");
        lemma_shows_plain("\n  "@);
        lemma_shows_plain(" "@);
        lemma_shows_plain("\n"@);
        lemma_shows_plain("  "@);
        lemma_shows_plain("STATUS"@);
        lemma_borders_plain(id);
        lemma_shows_plain(border_vertical_spec(id));
        lemma_shows_plain(border_top_left_spec(id));
        lemma_shows_plain(border_top_right_spec(id));
        lemma_shows_plain(border_bottom_left_spec(id));
        lemma_shows_plain(border_bottom_right_spec(id));
        lemma_no_esc_repeat(border_horizontal_spec(id), 42);
        lemma_shows_plain(rule@);
        if forall|i: int| 0 <= i < ls.len() ==> no_esc(#[trigger] ls[i]) {
            let pv = "  "@ + border_vertical_spec(id) + " "@;
            lemma_shows3("  "@, "  "@, bar@, border_vertical_spec(id), " "@, " "@);
            let es = prefix_each_seq(ls, pv);
            assert(views(ls_exec@) == ls);
            assert forall|k: int| 0 <= k < views(framed@).len() implies shows(#[trigger] views(framed@)[k], es[k]) by {
                lemma_shows_plain(ls[k]);
                lemma_shows_concat(prefix@, pv, ls[k], ls[k]);
            }
            lemma_shows_join(views(framed@), es, "\n"@);
            let title_s = if id == ThemeId::Nes { "= "@ + "STATUS"@ + " ="@ } else { "STATUS"@ };
            let hb = border_horizontal_spec(id);
            lemma_summary_block_shows(
                tl@, border_top_left_spec(id), rule@, tr@, border_top_right_spec(id), bar@, border_vertical_spec(id),
                title@, title_s, body@, join_seq(es, "\n"@), bl@, border_bottom_left_spec(id), br@,
                border_bottom_right_spec(id),
            );
            assert(out@ =~= "\n  "@ + tl@ + " "@ + rule@ + " "@ + tr@ + "\n  "@ + bar@ + " "@ + title@ + "\n"@ + body@
                + "\n  "@ + bl@ + " "@ + rule@ + " "@ + br@ + "\n"@);
        }
    }
    out
}

/// The STATUS frame shows its parts in place.
proof fn lemma_summary_block_shows(
    top: Seq<char>,
    top_s: Seq<char>,
    rule: Seq<char>,
    tr: Seq<char>,
    tr_s: Seq<char>,
    bar: Seq<char>,
    bar_s: Seq<char>,
    title: Seq<char>,
    title_s: Seq<char>,
    body: Seq<char>,
    body_s: Seq<char>,
    bl: Seq<char>,
    bl_s: Seq<char>,
    br: Seq<char>,
    br_s: Seq<char>,
)
    requires
        shows(top, top_s),
        shows(rule, rule),
        shows(tr, tr_s),
        shows(bar, bar_s),
        shows(title, title_s),
        shows(body, body_s),
        shows(bl, bl_s),
        shows(br, br_s),
        shows("\n  "@, "\n  "@),
        shows(" "@, " "@),
        shows("\n"@, "\n"@),
    ensures
        shows(
            "\n  "@ + top + " "@ + rule + " "@ + tr + "\n  "@ + bar + " "@ + title + "\n"@ + body + "\n  "@ + bl + " "@
                + rule + " "@ + br + "\n"@,
            "\n  "@ + top_s + " "@ + rule + " "@ + tr_s + "\n  "@ + bar_s + " "@ + title_s + "\n"@ + body_s + "\n  "@
                + bl_s + " "@ + rule + " "@ + br_s + "\n"@,
        ),
{
    let a = "\n  "@ + top + " "@;
    let x = "\n  "@ + top_s + " "@;
    lemma_shows3("\n  "@, "\n  "@, top, top_s, " "@, " "@);
    lemma_shows3(a, x, rule, rule, " "@, " "@);
    lemma_shows3(a + rule + " "@, x + rule + " "@, tr, tr_s, "\n  "@, "\n  "@);
    let a2 = a + rule + " "@ + tr + "\n  "@;
    let x2 = x + rule + " "@ + tr_s + "\n  "@;
    lemma_shows3(a2, x2, bar, bar_s, " "@, " "@);
    lemma_shows3(a2 + bar + " "@, x2 + bar_s + " "@, title, title_s, "\n"@, "\n"@);
    let a3 = a2 + bar + " "@ + title + "\n"@;
    let x3 = x2 + bar_s + " "@ + title_s + "\n"@;
    lemma_shows3(a3, x3, body, body_s, "\n  "@, "\n  "@);
    let a4 = a3 + body + "\n  "@;
    let x4 = x3 + body_s + "\n  "@;
    lemma_shows3(a4, x4, bl, bl_s, " "@, " "@);
    lemma_shows3(a4 + bl + " "@, x4 + bl_s + " "@, rule, rule, " "@, " "@);
    lemma_shows3(a4 + bl + " "@ + rule + " "@, x4 + bl_s + " "@ + rule + " "@, br, br_s, "\n"@, "\n"@);
}

/// The assistant mark `OneMini`.
pub fn assistant_prefix(t: &Theme) -> (r: String)
    ensures
        !t.colors ==> r@ == "OneMini"@,
        shows(r@, "OneMini"@),
{
    proof {
        reveal_strlit("OneMini");
        lemma_shows_plain("OneMini"@);
    }
    primary(t, "OneMini")
}

/// The user mark `You`.
pub fn user_prefix(t: &Theme) -> (r: String)
    ensures
        !t.colors ==> r@ == "You"@,
        shows(r@, "You"@),
{
    proof {
        reveal_strlit("You");
        lemma_shows_plain("You"@);
    }
    accent(t, "You")
}

/// Dimmed text.
pub fn dim(t: &Theme, text: &str) -> (r: String)
    ensures
        !t.colors ==> r@ == text@,
        closed(text@) ==> shows(r@, strip_ansi_spec(text@)),
{
    muted(t, text)
}

/// `⎿ text`.
pub fn usage_line(t: &Theme, text: &str) -> (r: String)
    ensures
        !t.colors ==> r@ == "⎿"@ + " "@ + text@,
        closed(text@) ==> shows(r@, "⎿"@ + " "@ + strip_ansi_spec(text@)),
{
    let mark = soft(t, "⎿");
    let body = muted_strong(t, text);
    let r = concat3(mark.as_str(), " ", body.as_str());
    proof {
        reveal_strlit("⎿");
        lemma_shows_plain("⎿"@);
        reveal_strlit(" ");
        lemma_shows_plain(" "@);
        if closed(text@) {
            lemma_shows3(mark@, "⎿"@, " "@, " "@, body@, strip_ansi_spec(text@));
        }
    }
    r
}

/// A hint in the light main colour.
pub fn hint(t: &Theme, text: &str) -> (r: String)
    ensures
        !t.colors ==> r@ == text@,
        closed(text@) ==> shows(r@, strip_ansi_spec(text@)),
{
    primary_light(t, text)
}

/// A section title on its own line.
pub fn section_title(t: &Theme, text: &str) -> (r: String)
    ensures
        !t.colors ==> r@ == "\n"@ + text@ + "\n"@,
        closed(text@) ==> shows(r@, "\n"@ + strip_ansi_spec(text@) + "\n"@),
{
    let p = primary(t, text);
    let r = concat3("\n", p.as_str(), "\n");
    proof {
        reveal_strlit("\n");
        lemma_shows_plain("\n"@);
        if closed(text@) {
            lemma_shows3("\n"@, "\n"@, p@, strip_ansi_spec(text@), "\n"@, "\n"@);
        }
    }
    r
}

/// `label: value`.
pub fn status_pair(t: &Theme, label: &str, value: &str) -> (r: String)
    ensures
        !t.colors ==> r@ == label@ + ":"@ + " "@ + value@,
        closed(label@) && closed(value@) ==> shows(
            r@,
            strip_ansi_spec(label@) + ":"@ + " "@ + strip_ansi_spec(value@),
        ),
{
    let l = concat2(label, ":");
    let a = primary_light(t, l.as_str());
    let b = accent(t, value);
    let r = concat3(a.as_str(), " ", b.as_str());
    proof {
        reveal_strlit(":");
        lemma_shows_plain(":"@);
        reveal_strlit(" ");
        lemma_shows_plain(" "@);
        if closed(label@) && closed(value@) {
            lemma_shows_concat(label@, strip_ansi_spec(label@), ":"@, ":"@);
            lemma_shows3(a@, strip_ansi_spec(label@) + ":"@, " "@, " "@, b@, strip_ansi_spec(value@));
        }
    }
    r
}

/// The answer to a permission prompt.
#[derive(Debug, Clone, Copy, PartialEq, Eq, Structural)]
pub enum PermissionChoice {
    Allow,
    Deny,
    Always,
}

/// The question asked before running a tool.
pub fn permission_prompt(tool_name: &str, detail: &str) -> (r: String)
    ensures
        detail@.len() == 0 ==> r@ == "允许执行 "@ + tool_name@ + "？"@,
        detail@.len() > 0 ==> r@ == "允许执行 "@ + tool_name@ + "？ ("@ + detail@ + ")"@,
{
    if crate::text::is_empty_str(detail) {
        concat3("允许执行 ", tool_name, "？")
    } else {
        let mut out = concat3("允许执行 ", tool_name, "？ (");
        out.append(detail);
        out.append(")");
        out
    }
}

/// The choices offered: allow, deny (the default) and always allow.
pub fn permission_items(t: &Theme) -> (r: Vec<String>)
    ensures
        r@.len() == 3,
        !t.colors ==> views(r@) == seq!["允许"@, "拒绝"@, "始终允许"@],
        shows(r@[0]@, "允许"@) && shows(r@[1]@, "拒绝"@) && shows(r@[2]@, "始终允许"@),
{
    proof {
        reveal_strlit("允许");
        reveal_strlit("拒绝");
        reveal_strlit("始终允许");
        lemma_shows_plain("允许"@);
        lemma_shows_plain("拒绝"@);
        lemma_shows_plain("始终允许"@);
    }
    let mut v: Vec<String> = Vec::new();
    v.push(choice_yes(t, "允许"));
    v.push(choice_default(t, "拒绝"));
    v.push(choice_always(t, "始终允许"));
    proof {
        if !t.colors {
            assert(views(v@) =~= seq!["允许"@, "拒绝"@, "始终允许"@]);
        }
    }
    v
}

/// The choice behind a selected index: 0 allow, 2 always, anything else deny.
pub fn permission_choice_from_index(idx: usize) -> (r: PermissionChoice)
    ensures
        idx == 0 ==> r == PermissionChoice::Allow,
        idx == 2 ==> r == PermissionChoice::Always,
        idx != 0 && idx != 2 ==> r == PermissionChoice::Deny,
{
    if idx == 0 {
        PermissionChoice::Allow
    } else if idx == 2 {
        PermissionChoice::Always
    } else {
        PermissionChoice::Deny
    }
}

/// Why a bash command probably timed out (checked on the lowercased command).
pub open spec fn bash_timeout_hint_spec(command: Seq<char>) -> Seq<char> {
    let lower = lowercase(command);
    if contains_seq(lower, "plt.show"@) || contains_seq(lower, ".show()"@) || (contains_seq(
        lower,
        "matplotlib"@,
    ) && contains_seq(lower, "show"@)) {
        "检测到脚本因缺少 GUI 环境而超时。OneMini 建议改用 plt.savefig() 或非交互后端（Agg）。"@
    } else if contains_seq(lower, "input("@) || contains_seq(lower, "readline"@) {
        "命令可能在等待终端输入而阻塞。请改为非交互模式或传入参数。"@
    } else {
        "命令执行超时。尝试缩小范围、拆分步骤，或检查是否因阻塞调用而挂起。"@
    }
}

/// A friendly hint after a bash timeout.
pub fn bash_timeout_hint(command: &str) -> (r: &'static str)
    ensures
        r@ == bash_timeout_hint_spec(command@),
{
    let lc = to_lower(command);
    let lower = lc.as_str();
    if contains(lower, "plt.show") || contains(lower, ".show()") || (contains(lower, "matplotlib")
        && contains(lower, "show")) {
        "检测到脚本因缺少 GUI 环境而超时。OneMini 建议改用 plt.savefig() 或非交互后端（Agg）。"
    } else if contains(lower, "input(") || contains(lower, "readline") {
        "命令可能在等待终端输入而阻塞。请改为非交互模式或传入参数。"
    } else {
        "命令执行超时。尝试缩小范围、拆分步骤，或检查是否因阻塞调用而挂起。"
    }
}

} // verus!
