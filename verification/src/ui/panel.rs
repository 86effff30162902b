//! Text-only panels: window chrome, welcome strip, tool lines, permission prompt.
use vstd::prelude::*;
use crate::text::{concat2, concat3, contains_seq, occurs_at, is_empty_str, join, join_seq, owned, views};
use crate::ui::ansi::paint_fg;
use crate::ui::terminal::{
    lemma_contains_middle, lemma_contains_suffix, lemma_contains_trans, lemma_contains_within, lemma_painted_contains, lemma_shows3,
    lemma_shows_concat, lemma_shows_plain, no_esc, shows, stands_whole,
};
use crate::ui::theme::{
    accent, choice_always, choice_default, choice_yes, current_palette, muted, muted_strong,
    primary_light, warn_icon, warning, Theme,
};

verus! {

/// The window title bar: three dots and the title (`ooo  title` without colours).
pub fn render_window_chrome(t: &Theme, title: &str) -> (r: String)
    ensures
        !t.colors ==> r@ == "ooo  "@ + title@,
        no_esc(title@) ==> shows(r@, (if t.colors { "● ● ●  "@ } else { "ooo  "@ }) + title@),
        no_esc(title@) ==> stands_whole(r@, title@),
{
    proof {
        reveal_strlit("ooo  ");
        lemma_shows_plain("ooo  "@);
        reveal_strlit("●");
        lemma_shows_plain("●"@);
        reveal_strlit(" ");
        lemma_shows_plain(" "@);
        reveal_strlit("  ");
        lemma_shows_plain("  "@);
        if no_esc(title@) {
            lemma_shows_plain(title@);
            lemma_shows_concat("ooo  "@, "ooo  "@, title@, title@);
        }
        lemma_contains_suffix("ooo  "@, title@);
    }
    if !t.colors {
        return concat2("ooo  ", title);
    }
    let p = current_palette(t);
    let close = paint_fg("●", p.chrome_close.0, p.chrome_close.1, p.chrome_close.2);
    let min = paint_fg("●", p.chrome_minimize.0, p.chrome_minimize.1, p.chrome_minimize.2);
    let max = paint_fg("●", p.chrome_maximize.0, p.chrome_maximize.1, p.chrome_maximize.2);
    let title_styled = paint_fg(title, p.text_dim.0, p.text_dim.1, p.text_dim.2);
    let mut out = concat3(close.as_str(), " ", min.as_str());
    out.append(" ");
    out.append(max.as_str());
    out.append("  ");
    out.append(title_styled.as_str());
    proof {
        if no_esc(title@) {
            lemma_shows3(close@, "●"@, " "@, " "@, min@, "●"@);
            lemma_shows3(close@ + " "@ + min@, "●"@ + " "@ + "●"@, " "@, " "@, max@, "●"@);
            lemma_shows3(
                close@ + " "@ + min@ + " "@ + max@,
                "●"@ + " "@ + "●"@ + " "@ + "●"@,
                "  "@,
                "  "@,
                title_styled@,
                title@,
            );
            assert(out@ =~= close@ + " "@ + min@ + " "@ + max@ + "  "@ + title_styled@);
            assert("●"@ + " "@ + "●"@ + " "@ + "●"@ + "  "@ + title@ =~= "● ● ●  "@ + title@) by {
                reveal_strlit("● ● ●  ");
            }
            lemma_painted_contains(title_styled@, title@);
            lemma_contains_suffix(close@ + " "@ + min@ + " "@ + max@ + "  "@, title_styled@);
            lemma_contains_trans(out@, title_styled@, title@);
        }
    }
    out
}

/// The plain welcome strip holds its text.
proof fn lemma_welcome_plain_contains()
    ensures
        stands_whole("* Welcome to oneMini"@, "Welcome to oneMini"@),
{
    reveal_strlit("Welcome to oneMini");
    reveal_strlit("* Welcome to oneMini");
    let lit = "* Welcome to oneMini"@;
    let w = "Welcome to oneMini"@;
    assert(lit.subrange(2, 20) =~= w);
    assert(occurs_at(lit, w, 2));
    assert(contains_seq(lit, w));
    reveal(stands_whole);
}

/// The welcome strip.
pub fn render_welcome_strip(t: &Theme) -> (r: String)
    ensures
        !t.colors ==> r@ == "* Welcome to oneMini"@,
        shows(r@, if t.colors { "  Welcome to oneMini"@ } else { "* Welcome to oneMini"@ }),
        stands_whole(r@, "Welcome to oneMini"@),
{
    proof {
        reveal_strlit("Welcome to oneMini");
        lemma_shows_plain("Welcome to oneMini"@);
        reveal_strlit("* Welcome to oneMini");
        lemma_shows_plain("* Welcome to oneMini"@);
        reveal_strlit("  ");
        lemma_shows_plain("  "@);
        reveal_strlit("  Welcome to oneMini");
        assert("  "@ + "Welcome to oneMini"@ =~= "  Welcome to oneMini"@);
        lemma_welcome_plain_contains();
    }
    if t.colors {
        let a = accent(t, "Welcome to oneMini");
        let r = concat2("  ", a.as_str());
        proof {
            lemma_shows_concat("  "@, "  "@, a@, "Welcome to oneMini"@);
            assert(stands_whole(r@, "Welcome to oneMini"@)) by {
                lemma_contains_within("  "@, a@, Seq::empty(), "Welcome to oneMini"@);
                assert(r@ =~= "  "@ + a@ + Seq::<char>::empty());
            }
        }
        r
    } else {
        owned("* Welcome to oneMini")
    }
}

/// The head line of a tool panel without colours.
pub open spec fn tool_head_plain(name: Seq<char>, detail: Seq<char>) -> Seq<char> {
    if detail.len() == 0 {
        "  -> "@ + name
    } else {
        "  -> "@ + name + "  "@ + detail
    }
}

/// A tool call line, with its result line when given.
pub fn render_tool_panel(t: &Theme, name: &str, detail: &str, result: Option<&str>) -> (r: String)
    ensures
        !t.colors ==> r@ == match result {
            Some(res) => tool_head_plain(name@, detail@) + "\n"@ + ("  ok "@ + res@),
            None => tool_head_plain(name@, detail@),
        },
        no_esc(name@) && no_esc(detail@) && (result matches Some(res) ==> no_esc(res@)) ==> shows(
            r@,
            match result {
                Some(res) => tool_head_plain(name@, detail@) + "\n"@ + ("  ok "@ + res@),
                None => tool_head_plain(name@, detail@),
            },
        ),
        no_esc(name@) ==> stands_whole(r@, name@),
{
    proof {
        reveal_strlit("  ");
        lemma_shows_plain("  "@);
        reveal_strlit("->");
        lemma_shows_plain("->"@);
        reveal_strlit(" ");
        lemma_shows_plain(" "@);
        reveal_strlit("\n");
        lemma_shows_plain("\n"@);
        reveal_strlit("  -> ");
        lemma_shows_plain("  -> "@);
        assert(shows(Seq::<char>::empty(), Seq::<char>::empty())) by {
            lemma_shows_plain(Seq::<char>::empty());
        }
        if no_esc(name@) && no_esc(detail@) {
            lemma_shows_plain(tool_head_plain(name@, detail@));
            lemma_shows_plain(name@);
            lemma_shows_plain(detail@);
        }
    }
    let head = if t.colors {
        let name_styled = primary_light(t, name);
        let detail_styled = if is_empty_str(detail) {
            String::new()
        } else {
            let d = muted(t, detail);
            let ds = concat2("  ", d.as_str());
            proof {
                if no_esc(detail@) {
                    lemma_shows_plain(detail@);
                    lemma_shows_concat("  "@, "  "@, d@, detail@);
                }
            }
            ds
        };
        let arrow = muted(t, "->");
        let mut h = concat3("  ", arrow.as_str(), " ");
        h.append(name_styled.as_str());
        h.append(detail_styled.as_str());
        proof {
            if no_esc(name@) && no_esc(detail@) {
                lemma_shows_plain(name@);
                let dx = if detail@.len() == 0 { Seq::<char>::empty() } else { "  "@ + detail@ };
                lemma_shows3("  "@, "  "@, arrow@, "->"@, " "@, " "@);
                lemma_shows3("  "@ + arrow@ + " "@, "  "@ + "->"@ + " "@, name_styled@, name@, detail_styled@, dx);
                assert(h@ =~= "  "@ + arrow@ + " "@ + name_styled@ + detail_styled@);
                assert("  "@ + "->"@ + " "@ + name@ + dx =~= tool_head_plain(name@, detail@));
            }
            if no_esc(name@) {
                lemma_contains_within("  "@ + arrow@ + " "@, name_styled@, detail_styled@, name@);
                assert(h@ =~= "  "@ + arrow@ + " "@ + name_styled@ + detail_styled@);
            }
        }
        h
    } else if is_empty_str(detail) {
        let h = concat2("  -> ", name);
        proof {
            lemma_contains_suffix("  -> "@, name@);
        }
        h
    } else {
        let mut h = concat3("  -> ", name, "  ");
        h.append(detail);
        proof {
            lemma_contains_middle("  -> "@, name@, "  "@ + detail@);
            assert(h@ =~= "  -> "@ + name@ + ("  "@ + detail@));
        }
        h
    };
    assert(no_esc(name@) ==> stands_whole(head@, name@));
    let mut v: Vec<String> = Vec::new();
    v.push(head);
    match result {
        Some(res) => {
            v.push(render_tool_result(t, res));
        },
        None => {},
    }
    let r = join(&v, "\n");
    proof {
        if no_esc(name@) {
            match result {
                Some(res) => {
                    assert(views(v@).drop_last() =~= seq![views(v@)[0]]);
                    reveal_with_fuel(join_seq, 2);
                    lemma_contains_within(Seq::empty(), head@, "\n"@ + v@[1]@, name@);
                    assert(r@ =~= Seq::<char>::empty() + head@ + ("\n"@ + v@[1]@));
                },
                None => {
                    reveal_with_fuel(join_seq, 2);
                    assert(r@ =~= head@);
                },
            }
        }
        if no_esc(name@) && no_esc(detail@) && (result matches Some(res) ==> no_esc(res@)) {
            match result {
                Some(res) => {
                    assert(views(v@).drop_last() =~= seq![views(v@)[0]]);
                    reveal_with_fuel(join_seq, 2);
                    lemma_shows3(v@[0]@, tool_head_plain(name@, detail@), "\n"@, "\n"@, v@[1]@, "  ok "@ + res@);
                },
                None => {
                    reveal_with_fuel(join_seq, 2);
                },
            }
        }
        if !t.colors {
            match result {
                Some(res) => {
                    assert(views(v@).drop_last() =~= seq![views(v@)[0]]);
                    reveal_with_fuel(join_seq, 2);
                },
                None => {
                    reveal_with_fuel(join_seq, 2);
                },
            }
        }
    }
    r
}

/// A tool result line (`  ok text` without colours).
pub fn render_tool_result(t: &Theme, text: &str) -> (r: String)
    ensures
        !t.colors ==> r@ == "  ok "@ + text@,
        no_esc(text@) ==> shows(r@, "  ok "@ + text@),
{
    proof {
        reveal_strlit("  ");
        lemma_shows_plain("  "@);
        reveal_strlit("ok");
        lemma_shows_plain("ok"@);
        reveal_strlit(" ");
        lemma_shows_plain(" "@);
        reveal_strlit("  ok ");
        lemma_shows_plain("  ok "@);
        if no_esc(text@) {
            lemma_shows_plain(text@);
            lemma_shows_concat("  ok "@, "  ok "@, text@, text@);
        }
    }
    if t.colors {
        let ok = muted(t, "ok");
        let body = muted_strong(t, text);
        let mut out = concat3("  ", ok.as_str(), " ");
        out.append(body.as_str());
        proof {
            if no_esc(text@) {
                lemma_shows3("  "@, "  "@, ok@, "ok"@, " "@, " "@);
                lemma_shows_concat("  "@ + ok@ + " "@, "  "@ + "ok"@ + " "@, body@, text@);
                assert("  "@ + "ok"@ + " "@ =~= "  ok "@);
            }
        }
        out
    } else {
        concat2("  ok ", text)
    }
}

/// The action named in a permission prompt.
pub open spec fn permission_action(tool_name: Seq<char>, detail: Seq<char>) -> Seq<char> {
    if detail.len() == 0 {
        tool_name
    } else {
        tool_name + " ("@ + detail + ")"@
    }
}

/// The permission request: headline, numbered choices and the `/mode` hint.
#[verifier::spinoff_prover]
#[verifier::rlimit(60)]
pub fn render_permission_panel(t: &Theme, tool_name: &str, detail: &str) -> (r: String)
    ensures
        !t.colors ==> r@ == "! 需要确认: "@ + permission_action(tool_name@, detail@) + "\n"@
            + "  [1] 允许  [2] 拒绝  [3] 始终允许"@ + "\n"@ + "  输入 /mode 切换权限模式"@,
        no_esc(tool_name@) && no_esc(detail@) ==> shows(
            r@,
            (if t.colors { "  [!] "@ } else { "! "@ }) + "需要确认: "@ + permission_action(tool_name@, detail@) + "\n"@
                + "  [1] 允许  [2] 拒绝  [3] 始终允许"@ + "\n"@ + "  输入 /mode 切换权限模式"@,
        ),
        no_esc(tool_name@) && no_esc(detail@) ==> stands_whole(r@, "需要确认"@),
        stands_whole(r@, "允许"@),
{
    proof {
        reveal_strlit("  ");
        lemma_shows_plain("  "@);
        reveal_strlit(" ");
        lemma_shows_plain(" "@);
        reveal_strlit("\n");
        lemma_shows_plain("\n"@);
        reveal_strlit("需要确认: ");
        lemma_shows_plain("需要确认: "@);
        reveal_strlit("! 需要确认: ");
        lemma_shows_plain("! 需要确认: "@);
        reveal_strlit("允许");
        lemma_shows_plain("允许"@);
        reveal_strlit("拒绝");
        lemma_shows_plain("拒绝"@);
        reveal_strlit("始终允许");
        lemma_shows_plain("始终允许"@);
        reveal_strlit("  [1] ");
        lemma_shows_plain("  [1] "@);
        reveal_strlit("  [2] ");
        lemma_shows_plain("  [2] "@);
        reveal_strlit("  [3] ");
        lemma_shows_plain("  [3] "@);
        reveal_strlit("  [1] 允许  [2] 拒绝  [3] 始终允许");
        lemma_shows_plain("  [1] 允许  [2] 拒绝  [3] 始终允许"@);
        reveal_strlit("输入 /mode 切换权限模式");
        lemma_shows_plain("输入 /mode 切换权限模式"@);
        reveal_strlit("  输入 /mode 切换权限模式");
        lemma_shows_plain("  输入 /mode 切换权限模式"@);
        reveal_strlit(" (");
        lemma_shows_plain(" ("@);
        reveal_strlit(")");
        lemma_shows_plain(")"@);
        reveal_strlit("  [!] ");
        reveal_strlit("! ");
        reveal_strlit("[!]");
        reveal_strlit("需要确认");
        reveal_strlit(": ");
        reveal_strlit("  [2] 拒绝  [3] 始终允许");
        assert("需要确认: "@ =~= "需要确认"@ + ": "@);
        assert("! 需要确认: "@ =~= "! "@ + "需要确认"@ + ": "@);
        assert("  [1] 允许  [2] 拒绝  [3] 始终允许"@ =~= "  [1] "@ + "允许"@ + "  [2] 拒绝  [3] 始终允许"@);
    }
    let action = if is_empty_str(detail) {
        owned(tool_name)
    } else {
        let mut a = concat3(tool_name, " (", detail);
        a.append(")");
        a
    };
    proof {
        if no_esc(tool_name@) && no_esc(detail@) {
            assert(action@ == permission_action(tool_name@, detail@));
            assert(no_esc(action@));
            lemma_shows_plain(action@);
        }
    }
    let headline = if t.colors {
        let icon = warn_icon(t);
        let text = concat2("需要确认: ", action.as_str());
        let w = warning(t, text.as_str());
        let mut h = concat3("  ", icon.as_str(), " ");
        h.append(w.as_str());
        proof {
            if no_esc(tool_name@) && no_esc(detail@) {
                assert(no_esc(text@));
                lemma_shows_plain(text@);
                lemma_shows3("  "@, "  "@, icon@, "[!]"@, " "@, " "@);
                lemma_shows_concat("  "@ + icon@ + " "@, "  "@ + "[!]"@ + " "@, w@, text@);
                assert("  "@ + "[!]"@ + " "@ + text@ =~= "  [!] "@ + "需要确认: "@ + action@);
                lemma_contains_middle(Seq::empty(), "需要确认"@, ": "@ + action@);
                assert(Seq::<char>::empty() + "需要确认"@ + (": "@ + action@) =~= text@);
                lemma_contains_trans(w@, text@, "需要确认"@);
                lemma_contains_within("  "@ + icon@ + " "@, w@, Seq::empty(), "需要确认"@);
                assert(h@ =~= "  "@ + icon@ + " "@ + w@ + Seq::<char>::empty());
            }
        }
        h
    } else {
        let h = concat2("! 需要确认: ", action.as_str());
        proof {
            if no_esc(tool_name@) && no_esc(detail@) {
                lemma_shows_concat("! 需要确认: "@, "! 需要确认: "@, action@, action@);
                assert("! 需要确认: "@ + action@ =~= "! "@ + "需要确认: "@ + action@);
            }
            lemma_contains_middle("! "@, "需要确认"@, ": "@ + action@);
            assert(h@ =~= "! "@ + "需要确认"@ + (": "@ + action@));
        }
        h
    };
    let options = if t.colors {
        let a = choice_yes(t, "允许");
        let b = choice_default(t, "拒绝");
        let c = choice_always(t, "始终允许");
        let mut o = concat3("  [1] ", a.as_str(), "  [2] ");
        o.append(b.as_str());
        o.append("  [3] ");
        o.append(c.as_str());
        proof {
            lemma_shows3("  [1] "@, "  [1] "@, a@, "允许"@, "  [2] "@, "  [2] "@);
            lemma_shows3("  [1] "@ + a@ + "  [2] "@, "  [1] "@ + "允许"@ + "  [2] "@, b@, "拒绝"@, "  [3] "@, "  [3] "@);
            lemma_shows_concat(
                "  [1] "@ + a@ + "  [2] "@ + b@ + "  [3] "@,
                "  [1] "@ + "允许"@ + "  [2] "@ + "拒绝"@ + "  [3] "@,
                c@,
                "始终允许"@,
            );
            assert("  [1] "@ + "允许"@ + "  [2] "@ + "拒绝"@ + "  [3] "@ + "始终允许"@ =~= "  [1] 允许  [2] 拒绝  [3] 始终允许"@);
            lemma_contains_within("  [1] "@, a@, "  [2] "@ + b@ + "  [3] "@ + c@, "允许"@);
            assert(o@ =~= "  [1] "@ + a@ + ("  [2] "@ + b@ + "  [3] "@ + c@));
        }
        o
    } else {
        let o = owned("  [1] 允许  [2] 拒绝  [3] 始终允许");
        proof {
            lemma_contains_middle("  [1] "@, "允许"@, "  [2] 拒绝  [3] 始终允许"@);
        }
        o
    };
    assert(stands_whole(options@, "允许"@));
    let hint = if t.colors {
        let m = muted(t, "输入 /mode 切换权限模式");
        let h = concat2("  ", m.as_str());
        proof {
            lemma_shows_concat("  "@, "  "@, m@, "输入 /mode 切换权限模式"@);
            assert("  "@ + "输入 /mode 切换权限模式"@ =~= "  输入 /mode 切换权限模式"@);
        }
        h
    } else {
        owned("  输入 /mode 切换权限模式")
    };
    let ghost head_text = (if t.colors { "  [!] "@ } else { "! "@ }) + "需要确认: "@ + action@;
    let mut out = headline;
    out.append("\n");
    out.append(options.as_str());
    out.append("\n");
    out.append(hint.as_str());
    proof {
        if no_esc(tool_name@) && no_esc(detail@) {
            let opts = "  [1] 允许  [2] 拒绝  [3] 始终允许"@;
            let hn = "  输入 /mode 切换权限模式"@;
            lemma_shows3(headline@, head_text, "\n"@, "\n"@, options@, opts);
            lemma_shows3(headline@ + "\n"@ + options@, head_text + "\n"@ + opts, "\n"@, "\n"@, hint@, hn);
            assert(out@ =~= headline@ + "\n"@ + options@ + "\n"@ + hint@);
            lemma_contains_within(Seq::empty(), headline@, "\n"@ + options@ + "\n"@ + hint@, "需要确认"@);
            assert(out@ =~= Seq::<char>::empty() + headline@ + ("\n"@ + options@ + "\n"@ + hint@));
        }
        lemma_contains_within(headline@ + "\n"@, options@, "\n"@ + hint@, "允许"@);
        assert(out@ =~= headline@ + "\n"@ + options@ + ("\n"@ + hint@));
    }
    out
}

} // verus!
