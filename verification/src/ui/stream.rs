//! Layout of streamed replies: the reasoning area, the content prefix and the rows
//! they occupy on the terminal.
use vstd::prelude::*;
use crate::text::{
    char_count, chars_of, concat2, is_empty_str, lines, lines_spec, owned, push_char,
    string_from_range, trim, trim_seq, views,
};
use crate::ui::terminal::{
    closed, lemma_contains_within, lemma_rows_sum_same, lemma_shows_concat, lemma_shows_plain, lemma_strip_after_shown,
    no_esc, rows_sum, shows, stands_whole, strip_ansi_spec, truncate_visible, truncate_visible_spec,
    visible_width, visible_width_spec, visual_rows, visual_rows_spec,
};
use crate::ui::theme::Theme;
use crate::ui::theme::{assistant_prompt_prefix, ThemeId};
use crate::ui::{reasoning_fold_line, reasoning_header, reasoning_text, spinner_line_plain, thinking_spinner_line};

verus! {

/// Reasoning lines shown in the expanded area.
pub const MAX_VISIBLE_REASONING_LINES: usize = 3;

/// Characters kept of one reasoning line.
pub const MAX_REASONING_LINE_CHARS: usize = 100;

/// One reasoning line cut to its last 100 characters behind `…`.
pub open spec fn clip_reasoning_line(l: Seq<char>) -> Seq<char> {
    if l.len() > 100 {
        seq!['…'] + l.skip(l.len() - 100)
    } else {
        l
    }
}

/// The reasoning buffer as display lines.
pub open spec fn normalize_reasoning_lines_spec(buf: Seq<char>) -> Seq<Seq<char>> {
    let ls = if buf.len() == 0 {
        Seq::empty()
    } else {
        lines_spec(buf)
    };
    let ls2 = if ls.len() == 0 && buf.len() > 0 {
        seq![buf]
    } else {
        ls
    };
    ls2.map_values(|l: Seq<char>| clip_reasoning_line(l))
}

/// The latest reasoning line, trimmed and fitted to `max_cols` columns.
pub open spec fn collapsed_summary_spec(buf: Seq<char>, max_cols: nat) -> Seq<char> {
    let t = trim_seq(buf);
    if t.len() == 0 || max_cols == 0 {
        Seq::empty()
    } else {
        let ls = lines_spec(t);
        let last = if ls.len() > 0 {
            ls.last()
        } else {
            t
        };
        truncate_visible_spec(trim_seq(last), max_cols)
    }
}

fn clip_line(l: &String) -> (r: String)
    ensures
        r@ == clip_reasoning_line(l@),
{
    let n = char_count(l.as_str());
    if n > 100 {
        let v = chars_of(l.as_str());
        let tail = string_from_range(v.as_slice(), n - 100, n);
        let mut out = String::new();
        push_char(&mut out, '…');
        out.append(tail.as_str());
        assert(v@.subrange((n - 100) as int, n as int) =~= v@.skip(n - 100));
        out
    } else {
        l.clone()
    }
}

/// Splits the reasoning buffer into display lines, cutting long lines.
pub fn normalize_reasoning_lines(buf: &str) -> (r: Vec<String>)
    ensures
        views(r@) == normalize_reasoning_lines_spec(buf@),
{
    let mut ls: Vec<String> = if is_empty_str(buf) {
        Vec::new()
    } else {
        lines(buf)
    };
    if ls.len() == 0 && !is_empty_str(buf) {
        ls.push(owned(buf));
        assert(views(ls@) =~= seq![buf@]);
    }
    proof {
        if buf@.len() == 0 {
            assert(views(ls@) =~= Seq::<Seq<char>>::empty());
        }
    }
    let ghost src = views(ls@);
    let n = ls.len();
    let mut out: Vec<String> = Vec::new();
    let mut i: usize = 0;
    while i < n
        invariant
            n == ls@.len(),
            src == views(ls@),
            i <= n,
            views(out@) == src.take(i as int).map_values(|l: Seq<char>| clip_reasoning_line(l)),
        decreases n - i,
    {
        let c = clip_line(&ls[i]);
        let ghost before = out@;
        out.push(c);
        assert(views(out@) =~= src.take(i + 1).map_values(|l: Seq<char>| clip_reasoning_line(l))) by {
            assert(views(out@) =~= views(before).push(c@));
        }
        i = i + 1;
    }
    assert(src.take(n as int) =~= src);
    out
}

/// The last line of the reasoning so far, fitted to `max_cols`.
pub fn collapsed_reasoning_summary(buf: &str, max_cols: usize) -> (r: String)
    ensures
        r@ == collapsed_summary_spec(buf@, max_cols as nat),
{
    let t = trim(buf);
    if is_empty_str(t.as_str()) || max_cols == 0 {
        return String::new();
    }
    let ls = lines(t.as_str());
    let last = if ls.len() > 0 {
        ls[ls.len() - 1].clone()
    } else {
        t.clone()
    };
    assert(ls.len() > 0 ==> views(ls@).last() == ls@[ls.len() - 1]@);
    let lt = trim(last.as_str());
    truncate_visible(lt.as_str(), max_cols)
}

/// `正在分析…` in place of an empty summary.
pub open spec fn summary_or_default(summary: Seq<char>) -> Seq<char> {
    if summary.len() == 0 {
        "正在分析…"@
    } else {
        summary
    }
}

/// Columns left for the summary after the spinner prefix.
pub open spec fn summary_budget(term_width: nat, prefix_width: nat) -> nat {
    if term_width > prefix_width {
        (term_width - prefix_width) as nat
    } else {
        0
    }
}

/// The summary on the collapsed reasoning line: the latest reasoning, fitted
/// to what the spinner prefix leaves of the terminal width.
pub open spec fn collapsed_summary_of(id: ThemeId, buf: Seq<char>, spinner_frame: nat, term_width: nat) -> Seq<char> {
    collapsed_summary_spec(
        buf,
        summary_budget(term_width, visible_width_spec(spinner_line_plain(id, spinner_frame, Seq::empty())) as nat),
    )
}

/// The collapsed reasoning line without colours.
pub open spec fn collapsed_line_plain(id: ThemeId, buf: Seq<char>, spinner_frame: nat, term_width: nat) -> Seq<char> {
    spinner_line_plain(id, spinner_frame, summary_or_default(collapsed_summary_of(id, buf, spinner_frame, term_width)))
}

/// The collapsed reasoning line: spinner, label and the latest reasoning, fitted to
/// the terminal width (`正在分析…` before any reasoning arrived).
pub fn build_collapsed_spinner_line(t: &Theme, buf: &str, spinner_frame: usize, term_width: usize) -> (r: String)
    ensures
        !t.colors ==> r@ == collapsed_line_plain(t.id, buf@, spinner_frame as nat, term_width as nat),
        no_esc(collapsed_summary_of(t.id, buf@, spinner_frame as nat, term_width as nat)) ==> shows(
            r@,
            collapsed_line_plain(t.id, buf@, spinner_frame as nat, term_width as nat),
        ),
        stands_whole(r@, "思考中"@),
        no_esc(collapsed_summary_of(t.id, buf@, spinner_frame as nat, term_width as nat)) ==> stands_whole(
            r@,
            summary_or_default(collapsed_summary_of(t.id, buf@, spinner_frame as nat, term_width as nat)),
        ),
{
    let probe = thinking_spinner_line(t, spinner_frame, "");
    proof {
        assert(""@ =~= Seq::<char>::empty()) by {
            reveal_strlit("");
        }
        assert(closed(Seq::<char>::empty()));
        assert(strip_ansi_spec(Seq::<char>::empty()) =~= Seq::<char>::empty());
        reveal_strlit("正在分析…");
        lemma_shows_plain("正在分析…"@);
        crate::ui::spinner::lemma_frame_plain(t.id, spinner_frame as nat);
        reveal_strlit("  ");
        reveal_strlit(" ");
        reveal_strlit("思考中");
        let pl = spinner_line_plain(t.id, spinner_frame as nat, Seq::empty());
        assert(no_esc(pl));
        lemma_shows_plain(pl);
    }
    let prefix_width = visible_width(probe.as_str());
    let max_summary_cols = if term_width > prefix_width {
        term_width - prefix_width
    } else {
        0
    };
    let summary = collapsed_reasoning_summary(buf, max_summary_cols);
    proof {
        if no_esc(summary@) {
            lemma_shows_plain(summary@);
        }
    }
    if is_empty_str(summary.as_str()) {
        thinking_spinner_line(t, spinner_frame, "正在分析…")
    } else {
        thinking_spinner_line(t, spinner_frame, summary.as_str())
    }
}

/// Each line shows the text beside it.
pub open spec fn shows_all(rs: Seq<Seq<char>>, es: Seq<Seq<char>>) -> bool {
    rs.len() == es.len() && forall|k: int| 0 <= k < rs.len() ==> shows(#[trigger] rs[k], es[k])
}

/// The expanded reasoning area as it shows: as without colours, except that
/// the header's icon is `icon`.
pub open spec fn reasoning_display_shown(icon: Seq<char>, ls: Seq<Seq<char>>) -> Seq<Seq<char>> {
    seq!["  "@ + icon + " "@ + "思考中"@] + reasoning_display_plain(ls).skip(1)
}

/// The expanded reasoning area without colours: header, fold note, last three lines.
pub open spec fn reasoning_display_plain(ls: Seq<Seq<char>>) -> Seq<Seq<char>> {
    let total = ls.len();
    let folded: nat = if total > 3 {
        (total - 3) as nat
    } else {
        0
    };
    let visible = if total <= 3 {
        ls
    } else {
        ls.skip(total - 3)
    };
    seq!["  "@ + "*"@ + " "@ + "思考中"@] + (if folded > 0 {
        seq!["  "@ + "… (已折叠 "@ + crate::text::decimal(folded) + " 行)"@]
    } else {
        Seq::empty()
    }) + (if visible.len() == 0 {
        seq!["  "@ + "正在分析…"@]
    } else {
        crate::text::prefix_each_seq(visible, "  "@)
    })
}

/// The reasoning area: one collapsed spinner line unless shown or frozen, else the
/// header, a fold note and the last three lines.
pub fn build_reasoning_display(
    t: &Theme,
    buf: &str,
    show_reasoning: bool,
    spinner_frame: usize,
    frozen: bool,
    term_width: usize,
) -> (r: Vec<String>)
    ensures
        !show_reasoning && !frozen ==> r@.len() == 1,
        !t.colors && !show_reasoning && !frozen ==> r@[0]@ == collapsed_line_plain(
            t.id,
            buf@,
            spinner_frame as nat,
            term_width as nat,
        ),
        !show_reasoning && !frozen && no_esc(collapsed_summary_of(t.id, buf@, spinner_frame as nat, term_width as nat))
            ==> shows(r@[0]@, collapsed_line_plain(t.id, buf@, spinner_frame as nat, term_width as nat)),
        !show_reasoning && !frozen ==> stands_whole(r@[0]@, "思考中"@),
        !show_reasoning && !frozen && no_esc(collapsed_summary_of(t.id, buf@, spinner_frame as nat, term_width as nat))
            ==> stands_whole(
            r@[0]@,
            summary_or_default(collapsed_summary_of(t.id, buf@, spinner_frame as nat, term_width as nat)),
        ),
        !t.colors && (show_reasoning || frozen) ==> views(r@) == reasoning_display_plain(
            normalize_reasoning_lines_spec(buf@),
        ),
        (show_reasoning || frozen) && (forall|k: int|
            0 <= k < normalize_reasoning_lines_spec(buf@).len() ==> no_esc(
                #[trigger] normalize_reasoning_lines_spec(buf@)[k],
            )) ==> shows_all(
            views(r@),
            reasoning_display_shown(
                if t.colors && t.id == ThemeId::Nes { "~"@ } else { "*"@ },
                normalize_reasoning_lines_spec(buf@),
            ),
        ),
{
    if !show_reasoning && !frozen {
        let mut v: Vec<String> = Vec::new();
        v.push(build_collapsed_spinner_line(t, buf, spinner_frame, term_width));
        return v;
    }
    let content_lines = normalize_reasoning_lines(buf);
    let ghost ls = views(content_lines@);
    let total = content_lines.len();
    let folded = if total > 3 {
        total - 3
    } else {
        0
    };
    let mut out: Vec<String> = Vec::new();
    out.push(reasoning_header(t));
    if folded > 0 {
        out.push(reasoning_fold_line(t, folded));
    }
    let start = if total <= 3 {
        0
    } else {
        total - 3
    };
    let ghost head = views(out@);
    let ghost icon = if t.colors && t.id == ThemeId::Nes { "~"@ } else { "*"@ };
    let ghost ok = forall|k: int| 0 <= k < ls.len() ==> no_esc(#[trigger] ls[k]);
    let ghost vhead = seq!["  "@ + icon + " "@ + "思考中"@] + (if folded > 0 {
        seq!["  "@ + "… (已折叠 "@ + crate::text::decimal(folded as nat) + " 行)"@]
    } else {
        Seq::<Seq<char>>::empty()
    });
    proof {
        reveal_strlit("  ");
        lemma_shows_plain("  "@);
        reveal_strlit("正在分析…");
        lemma_shows_plain("正在分析…"@);
        assert(shows_all(head, vhead));
    }
    if start == total {
        let text = reasoning_text(t, "正在分析…");
        let line = concat2("  ", text.as_str());
        out.push(line);
        proof {
            if !t.colors {
                assert(views(out@) =~= head.push(line@));
            }
            lemma_shows_concat("  "@, "  "@, text@, "正在分析…"@);
            assert(views(out@) =~= head.push(line@));
            assert(shows_all(views(out@), vhead.push("  "@ + "正在分析…"@)));
        }
    } else {
        let mut i: usize = start;
        while i < total
            invariant
                total == content_lines@.len(),
                ls == views(content_lines@),
                start <= i <= total,
                !t.colors ==> views(out@) == head + crate::text::prefix_each_seq(ls.subrange(start as int, i as int), "  "@),
                ok ==> shows_all(views(out@), vhead + crate::text::prefix_each_seq(ls.subrange(start as int, i as int), "  "@)),
                ok == (forall|k: int| 0 <= k < ls.len() ==> no_esc(#[trigger] ls[k])),
                shows("  "@, "  "@),
            decreases total - i,
        {
            let text = reasoning_text(t, content_lines[i].as_str());
            let line = concat2("  ", text.as_str());
            let ghost before = out@;
            out.push(line);
            proof {
                if ok {
                    assert(no_esc(ls[i as int]));
                    lemma_shows_plain(ls[i as int]);
                    lemma_shows_concat("  "@, "  "@, text@, ls[i as int]);
                    let pv = vhead + crate::text::prefix_each_seq(ls.subrange(start as int, i as int), "  "@);
                    assert(ls.subrange(start as int, i + 1) =~= ls.subrange(start as int, i as int).push(ls[i as int]));
                    assert(crate::text::prefix_each_seq(ls.subrange(start as int, i + 1), "  "@) =~= crate::text::prefix_each_seq(
                        ls.subrange(start as int, i as int),
                        "  "@,
                    ).push("  "@ + ls[i as int]));
                    assert(views(out@) =~= views(before).push(line@));
                    assert(shows_all(views(out@), pv.push("  "@ + ls[i as int])));
                    assert(pv.push("  "@ + ls[i as int]) =~= vhead + crate::text::prefix_each_seq(ls.subrange(start as int, i + 1), "  "@));
                }
                if !t.colors {
                    assert(views(out@) =~= views(before).push(line@));
                    assert(ls.subrange(start as int, i + 1) =~= ls.subrange(start as int, i as int).push(ls[i as int]));
                    assert(views(out@) =~= head + crate::text::prefix_each_seq(ls.subrange(start as int, i + 1), "  "@));
                }
            }
            i = i + 1;
        }
    }
    proof {
        if !t.colors {
            if total <= 3 {
                assert(ls.subrange(0, total as int) =~= ls);
            } else {
                assert(ls.subrange(start as int, total as int) =~= ls.skip(total - 3));
            }
            if folded > 0 {
                assert(head =~= seq!["  "@ + "*"@ + " "@ + "思考中"@, "  "@ + "… (已折叠 "@ + crate::text::decimal(folded as nat) + " 行)"@]);
            } else {
                assert(head =~= seq!["  "@ + "*"@ + " "@ + "思考中"@]);
            }
            assert(views(out@) =~= reasoning_display_plain(ls));
        }
        if ok {
            if total <= 3 {
                assert(ls.subrange(0, total as int) =~= ls);
            } else {
                assert(ls.subrange(start as int, total as int) =~= ls.skip(total - 3));
            }
            let rp = reasoning_display_plain(ls);
            assert(reasoning_display_shown(icon, ls) =~= vhead + rp.skip(vhead.len() as int));
        }
    }
    out
}

/// The rendered reply as lines, the first behind the `onemini >` prompt mark.
pub fn content_display_lines(t: &Theme, rendered: &str) -> (r: Vec<String>)
    ensures
        !t.colors && lines_spec(rendered@).len() == 0 ==> views(r@) == seq!["onemini >"@ + " "@],
        !t.colors && lines_spec(rendered@).len() > 0 ==> views(r@) == lines_spec(rendered@).update(
            0,
            "onemini >"@ + " "@ + lines_spec(rendered@)[0],
        ),
        exists|mark: Seq<char>|
            shows(mark, "onemini >"@) && views(r@) == (if lines_spec(rendered@).len() == 0 {
                seq![mark + " "@]
            } else {
                lines_spec(rendered@).update(0, mark + " "@ + lines_spec(rendered@)[0])
            }),
        r@.len() > 0 && stands_whole(r@[0]@, "onemini"@),
{
    let p = assistant_prompt_prefix(t);
    let prefix = concat2(p.as_str(), " ");
    let ls = lines(rendered);
    let n = ls.len();
    let mut out: Vec<String> = Vec::new();
    proof {
        lemma_contains_within(Seq::empty(), p@, " "@, "onemini"@);
        assert(prefix@ =~= Seq::<char>::empty() + p@ + " "@);
    }
    if n == 0 {
        out.push(prefix);
        assert(views(out@) =~= seq![prefix@]);
        assert(shows(p@, "onemini >"@) && views(out@) == seq![p@ + " "@]);
        return out;
    }
    let mut i: usize = 0;
    while i < n
        invariant
            n == ls@.len(),
            n > 0,
            i <= n,
            views(out@) == views(ls@).update(0, prefix@ + ls@[0]@).take(i as int),
            stands_whole(prefix@, "onemini"@),
            i > 0 ==> stands_whole(out@[0]@, "onemini"@),
        decreases n - i,
    {
        let line = if i == 0 {
            proof {
                lemma_contains_within(Seq::empty(), prefix@, ls@[0]@, "onemini"@);
                assert(prefix@ + ls@[0]@ =~= Seq::<char>::empty() + prefix@ + ls@[0]@);
            }
            concat2(prefix.as_str(), ls[0].as_str())
        } else {
            ls[i].clone()
        };
        let ghost before = out@;
        out.push(line);
        assert(views(out@) =~= views(ls@).update(0, prefix@ + ls@[0]@).take(i + 1)) by {
            assert(views(out@) =~= views(before).push(line@));
        }
        i = i + 1;
    }
    assert(views(ls@).update(0, prefix@ + ls@[0]@).take(n as int) =~= views(ls@).update(0, prefix@ + ls@[0]@));
    assert(shows(p@, "onemini >"@) && views(out@) == views(ls@).update(0, p@ + " "@ + ls@[0]@));
    out
}

/// `n` capped at `usize::MAX`.
pub open spec fn saturate(n: nat) -> usize {
    if n >= usize::MAX { usize::MAX } else { n as usize }
}

/// Rows the streamed reply occupies without colours: its lines, the first
/// behind the assistant prefix, soft wrapping counted.
pub open spec fn streamed_rows_plain(content: Seq<char>, term_width: nat) -> usize {
    let ls = lines_spec(content);
    if content.len() == 0 {
        0
    } else if ls.len() == 0 {
        saturate(visual_rows_spec("onemini >"@ + " "@ + content, term_width))
    } else {
        saturate(rows_sum(ls.update(0, "onemini >"@ + " "@ + ls[0]), term_width, ls.len()))
    }
}

/// Rows the streamed reply occupies: the first line behind the assistant prefix,
/// soft wrapping counted (the count saturates at `usize::MAX`).
pub fn streamed_content_visual_rows(t: &Theme, content: &str, term_width: usize) -> (r: usize)
    ensures
        content@.len() == 0 ==> r == 0,
        content@.len() > 0 ==> r >= 1,
        r == streamed_rows_plain(content@, term_width as nat),
{
    if is_empty_str(content) {
        return 0;
    }
    let p = assistant_prompt_prefix(t);
    let prefix = concat2(p.as_str(), " ");
    let ls = lines(content);
    let ghost q = "onemini >"@;
    proof {
        reveal_strlit("onemini >");
        lemma_shows_plain(q);
    }
    if ls.len() == 0 {
        let whole = concat2(prefix.as_str(), content);
        proof {
            lemma_strip_after_shown(p@, q, " "@ + content@);
            lemma_strip_after_shown(q, q, " "@ + content@);
            assert(whole@ =~= p@ + (" "@ + content@));
            assert(q + " "@ + content@ =~= q + (" "@ + content@));
        }
        return visual_rows(whole.as_str(), term_width);
    }
    let first = concat2(prefix.as_str(), ls[0].as_str());
    proof {
        lemma_strip_after_shown(p@, q, " "@ + ls@[0]@);
        lemma_strip_after_shown(q, q, " "@ + ls@[0]@);
        assert(first@ =~= p@ + (" "@ + ls@[0]@));
        assert(q + " "@ + ls@[0]@ =~= q + (" "@ + ls@[0]@));
    }
    let ghost lv = views(ls@).update(0, first@);
    let mut total = visual_rows(first.as_str(), term_width);
    proof {
        assert(lv[0] == first@);
        assert(rows_sum(lv, term_width as nat, 0) == 0);
        assert(rows_sum(lv, term_width as nat, 1) == visual_rows_spec(first@, term_width as nat));
    }
    let mut i: usize = 1;
    while i < ls.len()
        invariant
            1 <= i <= ls@.len(),
            total >= 1,
            lv == views(ls@).update(0, first@),
            total == saturate(rows_sum(lv, term_width as nat, i as nat)),
        decreases ls@.len() - i,
    {
        let rows = visual_rows(ls[i].as_str(), term_width);
        proof {
            assert(lv[i as int] == ls@[i as int]@);
            assert(rows_sum(lv, term_width as nat, (i + 1) as nat) == rows_sum(lv, term_width as nat, i as nat) + rows);
        }
        total = if total > usize::MAX - rows {
            usize::MAX
        } else {
            total + rows
        };
        i = i + 1;
    }
    proof {
        assert(views(ls@) == lines_spec(content@));
        let pl = views(ls@).update(0, q + " "@ + ls@[0]@);
        assert forall|k: int| 0 <= k < ls@.len() implies visual_rows_spec(#[trigger] lv[k], term_width as nat)
            == visual_rows_spec(pl[k], term_width as nat) by {
            if k == 0 {
                assert(visible_width_spec(lv[0]) == visible_width_spec(pl[0]));
            } else {
                assert(lv[k] == pl[k]);
            }
        }
        lemma_rows_sum_same(lv, pl, term_width as nat, ls@.len());
    }
    total
}

/// Phase of a streamed turn.
#[derive(Debug, Clone, Copy, PartialEq, Eq, Structural)]
pub enum StreamPhase {
    Idle,
    /// Waiting for the first token.
    Waiting,
    Reasoning,
    Content,
}

/// State of the streamed reply being drawn.
pub struct StreamRenderer {
    pub phase: StreamPhase,
    pub reasoning_buf: String,
    pub content_buf: String,
    pub content_header: bool,
    pub content_lines_drawn: usize,
    pub show_reasoning: bool,
    pub spinner_frame: usize,
    pub reasoning_lines_drawn: usize,
    pub waiting_lines_drawn: usize,
}

impl StreamRenderer {
    /// An idle renderer; `show_reasoning` selects the expanded reasoning area.
    pub fn new(show_reasoning: bool) -> (r: Self)
        ensures
            r.phase == StreamPhase::Idle,
            r.reasoning_buf@.len() == 0,
            r.content_buf@.len() == 0,
            !r.content_header,
            r.content_lines_drawn == 0,
            r.show_reasoning == show_reasoning,
            r.spinner_frame == 0,
            r.reasoning_lines_drawn == 0,
            r.waiting_lines_drawn == 0,
    {
        StreamRenderer {
            phase: StreamPhase::Idle,
            reasoning_buf: String::new(),
            content_buf: String::new(),
            content_header: false,
            content_lines_drawn: 0,
            show_reasoning,
            spinner_frame: 0,
            reasoning_lines_drawn: 0,
            waiting_lines_drawn: 0,
        }
    }

    /// Back to idle with empty buffers, keeping the reasoning display choice.
    pub fn reset(&mut self)
        ensures
            final(self).phase == StreamPhase::Idle,
            final(self).reasoning_buf@.len() == 0,
            final(self).content_buf@.len() == 0,
            !final(self).content_header,
            final(self).content_lines_drawn == 0,
            final(self).show_reasoning == old(self).show_reasoning,
            final(self).spinner_frame == 0,
            final(self).reasoning_lines_drawn == 0,
            final(self).waiting_lines_drawn == 0,
    {
        self.phase = StreamPhase::Idle;
        self.reasoning_buf = String::new();
        self.content_buf = String::new();
        self.content_header = false;
        self.content_lines_drawn = 0;
        self.reasoning_lines_drawn = 0;
        self.waiting_lines_drawn = 0;
        self.spinner_frame = 0;
    }
}

} // verus!
