//! Colouring of the `/plan` and `/status` text.
use vstd::prelude::*;
use crate::text::{
    concat2, concat3, contains, contains_seq, has_prefix, join, join_seq, lines, lines_spec, owned,
    replace, replace_seq, starts_with, trim, trim_seq, trim_start_matches, trim_start_str, views,
};
use crate::ui::ansi::paint_red;
use crate::ui::terminal::{
    closed, lemma_no_esc_trim, lemma_no_esc_trim_start_str, lemma_shows3, lemma_shows_concat, lemma_shows_join,
    lemma_shows_plain, lemma_shows_replace, no_esc, shows,
};
use crate::ui::theme::{accent, error_icon, muted, primary, primary_light, soft, Theme};

verus! {

/// One plan line without colours (`None` for a failed check, which `colored` paints).
pub open spec fn plan_line_plain(line: Seq<char>) -> Option<Seq<char>> {
    if has_prefix(line, "任务目标:"@) {
        Some("任务目标:"@ + " "@ + trim_seq(trim_start_str(line, "任务目标:"@)))
    } else if has_prefix(line, "计划步骤:"@) || has_prefix(line, "验证状态:"@) {
        Some(line)
    } else if contains_seq(line, "[✓]"@) {
        Some(replace_seq(line, "[✓]"@, "[✓]"@))
    } else if contains_seq(line, "[→]"@) {
        Some(replace_seq(line, "[→]"@, "[→]"@))
    } else if contains_seq(line, "[✗]"@) {
        Some(replace_seq(line, "[✗]"@, "[X]"@))
    } else if contains_seq(line, "← 当前"@) {
        Some(replace_seq(line, "← 当前"@, "← 当前"@))
    } else if contains_seq(line, "[通过]"@) {
        Some(replace_seq(line, "[通过]"@, "[通过]"@))
    } else if contains_seq(line, "[失败]"@) {
        None
    } else if has_prefix(line, "  - "@) {
        Some("  "@ + "-"@ + " "@ + trim_start_str(line, "  - "@))
    } else {
        Some(line)
    }
}

/// What one plan line shows, with or without colours: as without colours,
/// and a failed check as written.
pub open spec fn plan_line_shown(line: Seq<char>) -> Seq<char> {
    match plan_line_plain(line) {
        Some(x) => x,
        None => replace_seq(line, "[失败]"@, "[失败]"@),
    }
}

/// Colours one line of plan or status text.
pub fn color_plan_line(t: &Theme, line: &str) -> (r: String)
    ensures
        !t.colors && plan_line_plain(line@) is Some ==> r@ == plan_line_plain(line@)->0,
        no_esc(line@) ==> shows(r@, plan_line_shown(line@)),
{
    proof {
        reveal_strlit("任务目标:");
        reveal_strlit(" ");
        reveal_strlit("[✓]");
        reveal_strlit("[→]");
        reveal_strlit("[X]");
        reveal_strlit("← 当前");
        reveal_strlit("[通过]");
        reveal_strlit("[失败]");
        reveal_strlit("-");
        reveal_strlit("  ");
        lemma_shows_plain("任务目标:"@);
        lemma_shows_plain(" "@);
        lemma_shows_plain("[✓]"@);
        lemma_shows_plain("[→]"@);
        lemma_shows_plain("← 当前"@);
        lemma_shows_plain("[通过]"@);
        lemma_shows_plain("[失败]"@);
        lemma_shows_plain("-"@);
        lemma_shows_plain("  "@);
        if no_esc(line@) {
            lemma_shows_plain(line@);
        }
    }
    if starts_with(line, "任务目标:") {
        let rest = trim_start_matches(line, "任务目标:");
        let goal = trim(rest.as_str());
        let a = primary(t, "任务目标:");
        let b = accent(t, goal.as_str());
        let r = concat3(a.as_str(), " ", b.as_str());
        proof {
            if no_esc(line@) {
                lemma_no_esc_trim_start_str(line@, "任务目标:"@);
                lemma_no_esc_trim(rest@);
                lemma_shows_plain(goal@);
                lemma_shows3(a@, "任务目标:"@, " "@, " "@, b@, goal@);
            }
        }
        return r;
    }
    if starts_with(line, "计划步骤:") || starts_with(line, "验证状态:") {
        return primary(t, line);
    }
    if contains(line, "[✓]") {
        let m = primary_light(t, "[✓]");
        proof {
            if no_esc(line@) {
                lemma_shows_replace(line@, "[✓]"@, m@, "[✓]"@);
            }
        }
        return replace(line, "[✓]", m.as_str());
    }
    if contains(line, "[→]") {
        let m = accent(t, "[→]");
        proof {
            if no_esc(line@) {
                lemma_shows_replace(line@, "[→]"@, m@, "[→]"@);
            }
        }
        return replace(line, "[→]", m.as_str());
    }
    if contains(line, "[✗]") {
        let m = error_icon(t);
        proof {
            if no_esc(line@) {
                lemma_shows_replace(line@, "[✗]"@, m@, "[X]"@);
            }
        }
        return replace(line, "[✗]", m.as_str());
    }
    if contains(line, "← 当前") {
        let m = accent(t, "← 当前");
        proof {
            if no_esc(line@) {
                lemma_shows_replace(line@, "← 当前"@, m@, "← 当前"@);
            }
        }
        return replace(line, "← 当前", m.as_str());
    }
    if contains(line, "[通过]") {
        let m = primary_light(t, "[通过]");
        proof {
            if no_esc(line@) {
                lemma_shows_replace(line@, "[通过]"@, m@, "[通过]"@);
            }
        }
        return replace(line, "[通过]", m.as_str());
    }
    if contains(line, "[失败]") {
        let m = paint_red("[失败]");
        proof {
            if no_esc(line@) {
                lemma_shows_replace(line@, "[失败]"@, m@, "[失败]"@);
            }
        }
        return replace(line, "[失败]", m.as_str());
    }
    if starts_with(line, "  - ") {
        let dash = soft(t, "-");
        let rest = trim_start_matches(line, "  - ");
        let body = muted(t, rest.as_str());
        let mut out = concat3("  ", dash.as_str(), " ");
        out.append(body.as_str());
        proof {
            if no_esc(line@) {
                lemma_no_esc_trim_start_str(line@, "  - "@);
                lemma_shows_plain(rest@);
                lemma_shows3("  "@, "  "@, dash@, "-"@, " "@, " "@);
                lemma_shows_concat("  "@ + dash@ + " "@, "  "@ + "-"@ + " "@, body@, rest@);
            }
        }
        return out;
    }
    if starts_with(line, "  [") || starts_with(line, "[") {
        return muted(t, line);
    }
    owned(line)
}

/// Colours plan or status text line by line.
pub fn render_plan_text(t: &Theme, text: &str) -> (r: String)
    ensures
        !t.colors && (forall|i: int| 0 <= i < lines_spec(text@).len() ==> plan_line_plain(#[trigger] lines_spec(text@)[i]) is Some)
            ==> r@ == join_seq(lines_spec(text@).map_values(|l: Seq<char>| plan_line_plain(l)->0), "\n"@),
        (forall|i: int| 0 <= i < lines_spec(text@).len() ==> no_esc(#[trigger] lines_spec(text@)[i])) ==> shows(
            r@,
            join_seq(lines_spec(text@).map_values(|l: Seq<char>| plan_line_shown(l)), "\n"@),
        ),
{
    let ls = lines(text);
    let ghost src = views(ls@);
    let n = ls.len();
    let mut out: Vec<String> = Vec::new();
    let mut i: usize = 0;
    while i < n
        invariant
            n == ls@.len(),
            src == views(ls@),
            i <= n,
            out@.len() == i,
            forall|k: int| 0 <= k < i && !t.colors && plan_line_plain(src[k]) is Some ==> #[trigger] out@[k]@ == plan_line_plain(src[k])->0,
            forall|k: int| 0 <= k < i && no_esc(src[k]) ==> shows(#[trigger] out@[k]@, plan_line_shown(src[k])),
        decreases n - i,
    {
        out.push(color_plan_line(t, ls[i].as_str()));
        i = i + 1;
    }
    proof {
        if !t.colors && (forall|k: int| 0 <= k < src.len() ==> plan_line_plain(#[trigger] src[k]) is Some) {
            assert(views(out@) =~= src.map_values(|l: Seq<char>| plan_line_plain(l)->0));
        }
        if forall|k: int| 0 <= k < src.len() ==> no_esc(#[trigger] src[k]) {
            let es = src.map_values(|l: Seq<char>| plan_line_shown(l));
            assert forall|k: int| 0 <= k < views(out@).len() implies shows(#[trigger] views(out@)[k], es[k]) by {
                assert(no_esc(src[k]));
            }
            reveal_strlit("\n");
            lemma_shows_plain("\n"@);
            lemma_shows_join(views(out@), es, "\n"@);
        }
    }
    join(&out, "\n")
}

} // verus!
