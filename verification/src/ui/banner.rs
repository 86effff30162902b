//! The start-up banner: window bar, welcome strip, the block-letter logo and
//! the meta lines below it.
use vstd::prelude::*;
use crate::text::{concat2, join, join_seq, lemma_views_push, owned, views};
use crate::ui::panel::{render_welcome_strip, render_window_chrome};
use crate::ui::theme::{banner_meta_label, banner_meta_prompt, banner_meta_value, theme_name, Theme};
use crate::update::current_version;
use crate::ui::terminal::{closed, lemma_shows_join, lemma_shows_plain, no_esc, shows, strip_ansi_spec};

verus! {

/// The number of rows of the logo.
pub const LOGO_ROWS: usize = 6;

/// What the banner shows below the logo.
pub struct BannerInfo {
    pub model: Option<String>,
    pub permission_mode: Option<String>,
    pub workdir: Option<String>,
}

impl Default for BannerInfo {
    fn default() -> (r: BannerInfo)
        ensures
            r.model is None,
            r.permission_mode is None,
            r.workdir is None,
    {
        BannerInfo { model: None, permission_mode: None, workdir: None }
    }
}

/// The logo: "OneMini" in block letters.
pub open spec fn logo_spec() -> Seq<Seq<char>> {
    seq![
        " ██████╗ ███╗   ██╗███████╗███╗   ███╗██╗███╗   ██╗██╗"@,
        "██╔═══██╗████╗  ██║██╔════╝████╗ ████║██║████╗  ██║██║"@,
        "██║   ██║██╔██╗ ██║█████╗  ██╔████╔██║██║██╔██╗ ██║██║"@,
        "██║   ██║██║╚██╗██║██╔══╝  ██║╚██╔╝██║██║██║╚██╗██║██║"@,
        "╚██████╔╝██║ ╚████║███████╗██║ ╚═╝ ██║██║██║ ╚████║██║"@,
        " ╚═════╝ ╚═╝  ╚═══╝╚══════╝╚═╝     ╚═╝╚═╝╚═╝  ╚═══╝╚═╝"@,
    ]
}

/// The rows of the logo, without colours.
pub fn logo_lines() -> (r: Vec<String>)
    ensures
        views(r@) == logo_spec(),
        r@.len() == LOGO_ROWS,
{
    let mut r: Vec<String> = Vec::new();
    r.push(owned(" ██████╗ ███╗   ██╗███████╗███╗   ███╗██╗███╗   ██╗██╗"));
    r.push(owned("██╔═══██╗████╗  ██║██╔════╝████╗ ████║██║████╗  ██║██║"));
    r.push(owned("██║   ██║██╔██╗ ██║█████╗  ██╔████╔██║██║██╔██╗ ██║██║"));
    r.push(owned("██║   ██║██║╚██╗██║██╔══╝  ██║╚██╔╝██║██║██║╚██╗██║██║"));
    r.push(owned("╚██████╔╝██║ ╚████║███████╗██║ ╚═╝ ██║██║██║ ╚████║██║"));
    r.push(owned(" ╚═════╝ ╚═╝  ╚═══╝╚══════╝╚═╝     ╚═╝╚═╝╚═╝  ╚═══╝╚═╝"));
    assert(views(r@) =~= logo_spec());
    r
}

/// The meta lines below the logo, without colours.
pub open spec fn meta_spec(t: Theme, info: BannerInfo) -> Seq<Seq<char>> {
    let head = seq!["OneMini CLI v"@ + "0.1.0"@, "终端 AI 编程助手"@];
    let model = match info.model {
        Some(m) => "model: "@ + m@,
        None => "model: (未配置)"@,
    };
    let mode = match info.permission_mode {
        Some(m) => seq!["mode: "@ + m@],
        None => Seq::empty(),
    };
    let last = match info.workdir {
        Some(w) => w@,
        None => "> 运行 cargo test 并解释失败原因"@,
    };
    head.push(model) + mode + seq!["theme: "@ + theme_name(t.id), last]
}

/// The banner's values hold no escape character.
pub open spec fn meta_plain_ok(info: BannerInfo) -> bool {
    &&& (info.model matches Some(m) ==> no_esc(m@))
    &&& (info.permission_mode matches Some(m) ==> no_esc(m@))
    &&& (info.workdir matches Some(w) ==> no_esc(w@))
}

/// The lines above the logo as they show.
pub open spec fn header_shown(colors: bool) -> Seq<Seq<char>> {
    if colors {
        seq!["● ● ●  "@ + "onemini - zsh"@, Seq::empty(), "  Welcome to oneMini"@, Seq::empty()]
    } else {
        header_spec()
    }
}

/// The meta column: version, tagline, model, mode, theme and working directory.
fn render_meta_column(t: &Theme, info: &BannerInfo) -> (r: Vec<String>)
    ensures
        !t.colors ==> views(r@) == meta_spec(*t, *info),
        meta_plain_ok(*info) ==> views(r@).len() == meta_spec(*t, *info).len() && forall|k: int|
            0 <= k < r@.len() ==> shows(#[trigger] views(r@)[k], meta_spec(*t, *info)[k]),
{
    proof {
        reveal_strlit("OneMini CLI v");
        reveal_strlit("0.1.0");
        reveal_strlit("终端 AI 编程助手");
        reveal_strlit("model: ");
        reveal_strlit("model: (未配置)");
        reveal_strlit("mode: ");
        reveal_strlit("theme: ");
        reveal_strlit("> 运行 cargo test 并解释失败原因");
        reveal_strlit("modern");
        reveal_strlit("gameboy");
        reveal_strlit("nes");
    }
    let mut rows: Vec<String> = Vec::new();
    let title = concat2("OneMini CLI v", current_version());
    rows.push(banner_meta_label(t, title.as_str()));
    rows.push(banner_meta_value(t, "终端 AI 编程助手"));
    match &info.model {
        Some(m) => {
            let s = concat2("model: ", m.as_str());
            rows.push(banner_meta_value(t, s.as_str()));
        },
        None => {
            rows.push(banner_meta_value(t, "model: (未配置)"));
        },
    }
    match &info.permission_mode {
        Some(m) => {
            let s = concat2("mode: ", m.as_str());
            rows.push(banner_meta_value(t, s.as_str()));
        },
        None => {},
    }
    let th = concat2("theme: ", t.id.as_str());
    rows.push(banner_meta_value(t, th.as_str()));
    match &info.workdir {
        Some(w) => {
            rows.push(banner_meta_value(t, w.as_str()));
        },
        None => {
            rows.push(banner_meta_prompt(t, "> 运行 cargo test 并解释失败原因"));
        },
    }
    proof {
        if !t.colors {
            assert(views(rows@) =~= meta_spec(*t, *info));
        }
        if meta_plain_ok(*info) {
            let ms = meta_spec(*t, *info);
            assert forall|k: int| 0 <= k < ms.len() implies no_esc(#[trigger] ms[k]) by {
                assert(no_esc(theme_name(t.id)));
            }
            assert forall|k: int| 0 <= k < ms.len() implies closed(ms[k]) && strip_ansi_spec(ms[k]) == ms[k] by {
                lemma_shows_plain(ms[k]);
            }
        }
    }
    rows
}

/// The lines above the logo, without colours.
pub open spec fn header_spec() -> Seq<Seq<char>> {
    seq!["ooo  "@ + "onemini - zsh"@, Seq::empty(), "* Welcome to oneMini"@, Seq::empty()]
}

/// The whole banner, without colours, for the given logo rows.
pub open spec fn banner_spec(t: Theme, info: BannerInfo, logo: Seq<Seq<char>>) -> Seq<char> {
    join_seq(header_spec() + logo + seq![Seq::empty()] + meta_spec(t, info), "\n"@)
}

/// Renders the banner: the window bar, the welcome strip, the logo rows as
/// given (the caller colours them; `logo_lines()` gives them plain), an empty
/// line and the meta lines.
pub fn render_banner(t: &Theme, info: &BannerInfo, logo: &Vec<String>) -> (r: String)
    ensures
        !t.colors ==> r@ == banner_spec(*t, *info, views(logo@)),
        meta_plain_ok(*info) && (forall|k: int| 0 <= k < logo@.len() ==> closed(#[trigger] logo@[k]@)) ==> shows(
            r@,
            join_seq(
                header_shown(t.colors) + views(logo@).map_values(|l: Seq<char>| strip_ansi_spec(l)) + seq![
                    Seq::<char>::empty(),
                ] + meta_spec(*t, *info),
                "\n"@,
            ),
        ),
{
    let ghost ok = meta_plain_ok(*info) && (forall|k: int| 0 <= k < logo@.len() ==> closed(#[trigger] logo@[k]@));
    let ghost shown_logo = views(logo@).map_values(|l: Seq<char>| strip_ansi_spec(l));
    let mut lines: Vec<String> = Vec::new();
    let chrome = render_window_chrome(t, "onemini - zsh");
    let strip_line = render_welcome_strip(t);
    proof {
        reveal_strlit("onemini - zsh");
        reveal_strlit("● ● ●  ");
        reveal_strlit("ooo  ");
        reveal_strlit("  Welcome to oneMini");
        reveal_strlit("* Welcome to oneMini");
        assert(no_esc("onemini - zsh"@));
        lemma_shows_plain(Seq::<char>::empty());
    }
    lines.push(chrome);
    lines.push(String::new());
    lines.push(strip_line);
    lines.push(String::new());
    proof {
        assert(views(lines@) =~= seq![chrome@, Seq::<char>::empty(), strip_line@, Seq::<char>::empty()]);
    }
    let mut i: usize = 0;
    while i < logo.len()
        invariant
            i <= logo.len(),
            lines@.len() == 4 + i,
            !t.colors ==> views(lines@) == header_spec() + views(logo@).take(i as int),
            ok == (meta_plain_ok(*info) && (forall|k: int| 0 <= k < logo@.len() ==> closed(#[trigger] logo@[k]@))),
            shown_logo == views(logo@).map_values(|l: Seq<char>| strip_ansi_spec(l)),
            ok ==> forall|k: int| 0 <= k < lines@.len() ==> shows(
                #[trigger] views(lines@)[k],
                (header_shown(t.colors) + shown_logo.take(i as int))[k],
            ),
        decreases logo.len() - i,
    {
        let ghost before = lines@;
        let row = owned(logo[i].as_str());
        lines.push(row);
        proof {
            lemma_views_push(before, row);
            if !t.colors {
                assert(views(logo@)[i as int] == logo@[i as int]@);
                assert(views(lines@) =~= header_spec() + views(logo@).take(i + 1));
            }
            if ok {
                assert(closed(logo@[i as int]@));
                assert((header_shown(t.colors) + shown_logo.take(i + 1)) =~= (header_shown(t.colors) + shown_logo.take(
                    i as int,
                )).push(strip_ansi_spec(logo@[i as int]@)));
                assert forall|k: int| 0 <= k < lines@.len() implies shows(
                    #[trigger] views(lines@)[k],
                    (header_shown(t.colors) + shown_logo.take(i + 1))[k],
                ) by {
                    if k < before.len() {
                        assert(views(lines@)[k] == views(before)[k]);
                    }
                }
            }
        }
        i += 1;
    }
    let ghost pre = views(lines@);
    proof {
        if ok {
            assert(forall|k: int| 0 <= k < lines@.len() ==> shows(
                #[trigger] views(lines@)[k],
                (header_shown(t.colors) + shown_logo.take(i as int))[k],
            ));
        }
    }
    lines.push(String::new());
    let meta = render_meta_column(t, info);
    let mut j: usize = 0;
    let ghost base = views(lines@);
    let ghost sbase = header_shown(t.colors) + shown_logo + seq![Seq::<char>::empty()];
    proof {
        if ok {
            assert(shown_logo.take(logo@.len() as int) =~= shown_logo);
            assert forall|k: int| 0 <= k < base.len() implies shows(#[trigger] base[k], sbase[k]) by {
                assert(base =~= pre.push(Seq::<char>::empty()));
                if k < base.len() - 1 {
                    assert(base[k] == pre[k]);
                    assert(sbase[k] == (header_shown(t.colors) + shown_logo.take(logo@.len() as int))[k]);
                    assert(shows(pre[k], (header_shown(t.colors) + shown_logo.take(i as int))[k]));
                }
            }
        }
    }
    while j < meta.len()
        invariant
            j <= meta.len(),
            views(lines@) == base + views(meta@).take(j as int),
            base.len() == sbase.len(),
            ok ==> forall|k: int| 0 <= k < base.len() ==> shows(#[trigger] base[k], sbase[k]),
        decreases meta.len() - j,
    {
        let ghost before = lines@;
        let row = owned(meta[j].as_str());
        lines.push(row);
        proof {
            lemma_views_push(before, row);
            assert(views(meta@)[j as int] == meta@[j as int]@);
            assert(views(lines@) =~= base + views(meta@).take(j + 1));
        }
        j += 1;
    }
    proof {
        if !t.colors {
            assert(views(logo@).take(logo@.len() as int) =~= views(logo@));
            assert(views(meta@).take(meta@.len() as int) =~= views(meta@));
            assert(views(lines@) =~= header_spec() + views(logo@) + seq![Seq::<char>::empty()] + meta_spec(*t, *info));
        }
        if ok {
            let es = sbase + meta_spec(*t, *info);
            assert(views(meta@).take(meta@.len() as int) =~= views(meta@));
            assert forall|k: int| 0 <= k < views(lines@).len() implies shows(#[trigger] views(lines@)[k], es[k]) by {
                if k < base.len() {
                } else {
                    assert(views(lines@)[k] == views(meta@)[k - base.len()]);
                }
            }
            reveal_strlit("\n");
            lemma_shows_plain("\n"@);
            lemma_shows_join(views(lines@), es, "\n"@);
        }
    }
    join(&lines, "\n")
}

} // verus!
