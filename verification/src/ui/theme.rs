//! Themes: Modern (Matrix green), Game Boy DMG and NES, and the styling helpers.
//!
//! The active theme and whether colours are on are held in a [`Theme`] value that
//! the caller passes in. With colours off every helper returns its text as is; with
//! colours on the text goes through `colored`: the result shows the text, and a
//! text without escape characters stands whole in it.
use vstd::prelude::*;
use crate::text::{ascii_lower_seq, concat2, concat3, is_ascii_seq, lowercase, owned, repeat, repeat_seq, str_eq, to_lower, trim, trim_seq};
use crate::ui::terminal::{
    closed, lemma_contains_middle, lemma_contains_within, lemma_no_esc_repeat, lemma_shows_concat, lemma_shows_plain, no_esc, painted, shows, stands_whole, strip_ansi_spec,
};
use crate::ui::ansi::{
    paint_dimmed, paint_dimmed_italic, paint_fg, paint_fg_bg_bold, paint_fg_bold, paint_green, paint_green_bold,
    paint_red_bold, paint_red_dimmed, paint_white_bold, paint_white_dimmed, paint_yellow, paint_yellow_bold,
};
use crate::ui::palette::{palette_for_index_spec, Palette, Rgb};

verus! {

broadcast use crate::ui::terminal::lemma_painted_contains;

/// A theme's identity.
#[derive(Debug, Clone, Copy, PartialEq, Eq, Structural)]
pub enum ThemeId {
    Modern,
    GameBoy,
    Nes,
}

/// The active theme and whether ANSI colours are enabled.
#[derive(Debug, Clone, Copy, PartialEq, Eq, Structural)]
pub struct Theme {
    pub id: ThemeId,
    pub colors: bool,
}

/// The theme named by a trimmed, lowercased word.
pub open spec fn theme_from_word(w: Seq<char>) -> Option<ThemeId> {
    if w == "modern"@ || w == "default"@ {
        Some(ThemeId::Modern)
    } else if w == "gameboy"@ || w == "gb"@ || w == "dmg"@ {
        Some(ThemeId::GameBoy)
    } else if w == "nes"@ || w == "fc"@ {
        Some(ThemeId::Nes)
    } else {
        None
    }
}

/// The configuration name of a theme.
pub open spec fn theme_name(t: ThemeId) -> Seq<char> {
    match t {
        ThemeId::Modern => "modern"@,
        ThemeId::GameBoy => "gameboy"@,
        ThemeId::Nes => "nes"@,
    }
}

/// The display label of a theme.
pub open spec fn theme_label(t: ThemeId) -> Seq<char> {
    match t {
        ThemeId::Modern => "Modern（默认）"@,
        ThemeId::GameBoy => "Game Boy DMG"@,
        ThemeId::Nes => "NES / FC"@,
    }
}

/// The description of a theme.
pub open spec fn theme_description(t: ThemeId) -> Seq<char> {
    match t {
        ThemeId::Modern => "Matrix 磷光绿"@,
        ThemeId::GameBoy => "四色绿像素 / DMG"@,
        ThemeId::Nes => "蓝底 FC 卡带风"@,
    }
}

/// The stored index of a theme.
pub open spec fn theme_index(t: ThemeId) -> u8 {
    match t {
        ThemeId::Modern => 0,
        ThemeId::GameBoy => 1,
        ThemeId::Nes => 2,
    }
}

/// The theme of a stored index (unknown indices are modern).
pub open spec fn theme_of_index(v: u8) -> ThemeId {
    if v == 1 {
        ThemeId::GameBoy
    } else if v == 2 {
        ThemeId::Nes
    } else {
        ThemeId::Modern
    }
}

/// Border glyphs: box drawing for Modern, ASCII for the retro themes.
pub open spec fn border_top_left_spec(t: ThemeId) -> Seq<char> {
    if t == ThemeId::Modern { "┌"@ } else { "+"@ }
}

pub open spec fn border_top_right_spec(t: ThemeId) -> Seq<char> {
    if t == ThemeId::Modern { "┐"@ } else { "+"@ }
}

pub open spec fn border_bottom_left_spec(t: ThemeId) -> Seq<char> {
    if t == ThemeId::Modern { "└"@ } else { "+"@ }
}

pub open spec fn border_bottom_right_spec(t: ThemeId) -> Seq<char> {
    if t == ThemeId::Modern { "┘"@ } else { "+"@ }
}

pub open spec fn border_horizontal_spec(t: ThemeId) -> Seq<char> {
    if t == ThemeId::Modern { "─"@ } else { "-"@ }
}

pub open spec fn border_vertical_spec(t: ThemeId) -> Seq<char> {
    if t == ThemeId::Modern { "│"@ } else { "|"@ }
}

impl ThemeId {
    /// Parses a theme name (trimmed, case-insensitive).
    pub fn parse(s: &str) -> (r: Option<ThemeId>)
        ensures
            r == theme_from_word(lowercase(trim_seq(s@))),
            is_ascii_seq(trim_seq(s@)) ==> r == theme_from_word(ascii_lower_seq(trim_seq(s@))),
            forall|id: ThemeId| #[trigger] theme_name(id) == trim_seq(s@) ==> r == Some(id),
    {
        let t = trim(s);
        let lc = to_lower(t.as_str());
        proof {
            reveal_strlit("modern");
            reveal_strlit("gameboy");
            reveal_strlit("nes");
            reveal_strlit("default");
            reveal_strlit("gb");
            reveal_strlit("dmg");
            reveal_strlit("fc");
            assert forall|id: ThemeId| #[trigger] theme_name(id) == t@ implies lc@ == t@ by {
                assert(is_ascii_seq(t@));
                assert(ascii_lower_seq(t@) =~= t@);
            }
            assert forall|id: ThemeId| #[trigger] theme_name(id) == t@ implies theme_from_word(t@) == Some(id) by {
                match id {
                    ThemeId::Modern => {},
                    ThemeId::GameBoy => {
                        assert(t@ != "modern"@);
                        assert(t@[0] != "default"@[0]);
                        assert(t@ != "default"@);
                    },
                    ThemeId::Nes => {
                        assert(t@ != "modern"@);
                        assert(t@ != "default"@);
                        assert(t@ != "gameboy"@);
                        assert(t@ != "gb"@);
                        assert(t@[0] != "dmg"@[0]);
                        assert(t@ != "dmg"@);
                    },
                }
            }
        }
        let w = lc.as_str();
        if str_eq(w, "modern") || str_eq(w, "default") {
            Some(ThemeId::Modern)
        } else if str_eq(w, "gameboy") || str_eq(w, "gb") || str_eq(w, "dmg") {
            Some(ThemeId::GameBoy)
        } else if str_eq(w, "nes") || str_eq(w, "fc") {
            Some(ThemeId::Nes)
        } else {
            None
        }
    }

    pub fn as_str(self) -> (r: &'static str)
        ensures
            r@ == theme_name(self),
    {
        match self {
            ThemeId::Modern => "modern",
            ThemeId::GameBoy => "gameboy",
            ThemeId::Nes => "nes",
        }
    }

    pub fn label(self) -> (r: &'static str)
        ensures
            r@ == theme_label(self),
    {
        match self {
            ThemeId::Modern => "Modern（默认）",
            ThemeId::GameBoy => "Game Boy DMG",
            ThemeId::Nes => "NES / FC",
        }
    }

    pub fn description(self) -> (r: &'static str)
        ensures
            r@ == theme_description(self),
    {
        match self {
            ThemeId::Modern => "Matrix 磷光绿",
            ThemeId::GameBoy => "四色绿像素 / DMG",
            ThemeId::Nes => "蓝底 FC 卡带风",
        }
    }

    /// `label  —  description`.
    pub fn select_label(self) -> (r: String)
        ensures
            r@ == theme_label(self) + "  —  "@ + theme_description(self),
    {
        concat3(self.label(), "  —  ", self.description())
    }

    /// All themes, in menu order.
    pub fn all() -> (r: Vec<ThemeId>)
        ensures
            r@ == seq![ThemeId::Modern, ThemeId::GameBoy, ThemeId::Nes],
    {
        let mut v = Vec::new();
        v.push(ThemeId::Modern);
        v.push(ThemeId::GameBoy);
        v.push(ThemeId::Nes);
        v
    }
}

/// The stored index of a theme.
pub fn theme_to_u8(t: ThemeId) -> (r: u8)
    ensures
        r == theme_index(t),
{
    match t {
        ThemeId::Modern => 0,
        ThemeId::GameBoy => 1,
        ThemeId::Nes => 2,
    }
}

/// The theme stored under an index.
pub fn u8_to_theme(v: u8) -> (r: ThemeId)
    ensures
        r == theme_of_index(v),
{
    if v == 1 {
        ThemeId::GameBoy
    } else if v == 2 {
        ThemeId::Nes
    } else {
        ThemeId::Modern
    }
}

/// Switches the active theme.
pub fn set_theme(t: &mut Theme, theme: ThemeId)
    ensures
        final(t).id == theme,
        final(t).colors == old(t).colors,
{
    t.id = theme;
}

/// The active theme.
pub fn current_theme(t: &Theme) -> (r: ThemeId)
    ensures
        r == t.id,
{
    u8_to_theme(theme_to_u8(t.id))
}

/// The palette of the active theme.
pub fn current_palette(t: &Theme) -> (r: Palette)
    ensures
        r == palette_for_index_spec(theme_index(t.id)),
{
    Palette::for_theme_index(theme_to_u8(t.id))
}

/// The text unchanged.
pub fn plain(text: &str) -> (r: String)
    ensures
        r@ == text@,
{
    owned(text)
}

fn paint(rgb: Rgb, text: &str) -> (r: String)
    ensures
        closed(text@) ==> shows(r@, strip_ansi_spec(text@)),
        no_esc(text@) ==> painted(r@, text@),
{
    paint_fg(text, rgb.0, rgb.1, rgb.2)
}

fn paint_bold(rgb: Rgb, text: &str) -> (r: String)
    ensures
        closed(text@) ==> shows(r@, strip_ansi_spec(text@)),
        no_esc(text@) ==> painted(r@, text@),
{
    paint_fg_bold(text, rgb.0, rgb.1, rgb.2)
}

fn paint_on_bg_bold(fg: Rgb, bg: Rgb, text: &str) -> (r: String)
    ensures
        closed(text@) ==> shows(r@, strip_ansi_spec(text@)),
        no_esc(text@) ==> painted(r@, text@),
{
    paint_fg_bg_bold(text, (fg.0, fg.1, fg.2), (bg.0, bg.1, bg.2))
}

/// Main colour: titles and the assistant mark.
pub fn primary(t: &Theme, text: &str) -> (r: String)
    ensures
        !t.colors ==> r@ == text@,
        closed(text@) ==> shows(r@, strip_ansi_spec(text@)),
        no_esc(text@) ==> stands_whole(r@, text@),
{
    if !t.colors {
        return plain(text);
    }
    let p = current_palette(t);
    match current_theme(t) {
        ThemeId::Nes => paint_on_bg_bold(p.glow_hi, p.bg, text),
        _ => paint_bold(p.glow_hi, text),
    }
}

/// Light main colour: tool names, code, links.
pub fn primary_light(t: &Theme, text: &str) -> (r: String)
    ensures
        !t.colors ==> r@ == text@,
        closed(text@) ==> shows(r@, strip_ansi_spec(text@)),
        no_esc(text@) ==> stands_whole(r@, text@),
{
    if !t.colors {
        return plain(text);
    }
    paint(current_palette(t).glow_mid, text)
}

/// Accent colour: the user mark and important states.
pub fn accent(t: &Theme, text: &str) -> (r: String)
    ensures
        !t.colors ==> r@ == text@,
        closed(text@) ==> shows(r@, strip_ansi_spec(text@)),
        no_esc(text@) ==> stands_whole(r@, text@),
{
    if !t.colors {
        return plain(text);
    }
    let p = current_palette(t);
    match current_theme(t) {
        ThemeId::Nes => paint_yellow(text),
        _ => paint(p.glow_mid, text),
    }
}

/// Secondary text: explanations and previews.
pub fn muted(t: &Theme, text: &str) -> (r: String)
    ensures
        !t.colors ==> r@ == text@,
        closed(text@) ==> shows(r@, strip_ansi_spec(text@)),
        no_esc(text@) ==> stands_whole(r@, text@),
{
    if !t.colors {
        return plain(text);
    }
    paint(current_palette(t).text_muted, text)
}

/// Secondary text, slightly brighter, for card bodies.
pub fn muted_strong(t: &Theme, text: &str) -> (r: String)
    ensures
        !t.colors ==> r@ == text@,
        closed(text@) ==> shows(r@, strip_ansi_spec(text@)),
        no_esc(text@) ==> stands_whole(r@, text@),
{
    if !t.colors {
        return plain(text);
    }
    let p = current_palette(t);
    let first = paint(p.text_muted, text);
    paint_dimmed(first.as_str())
}

/// Separators and borders.
pub fn soft(t: &Theme, text: &str) -> (r: String)
    ensures
        !t.colors ==> r@ == text@,
        closed(text@) ==> shows(r@, strip_ansi_spec(text@)),
        no_esc(text@) ==> stands_whole(r@, text@),
{
    if !t.colors {
        return plain(text);
    }
    paint(current_palette(t).panel_border, text)
}

/// The label of the thinking state.
pub fn thinking_label(t: &Theme, text: &str) -> (r: String)
    ensures
        !t.colors ==> r@ == text@,
        closed(text@) ==> shows(r@, strip_ansi_spec(text@)),
        no_esc(text@) ==> stands_whole(r@, text@),
{
    if !t.colors {
        return plain(text);
    }
    paint_bold(current_palette(t).glow_hi, text)
}

/// Thinking details (expanded mode).
pub fn thinking_detail(t: &Theme, text: &str) -> (r: String)
    ensures
        !t.colors ==> r@ == text@,
        closed(text@) ==> shows(r@, strip_ansi_spec(text@)),
        no_esc(text@) ==> stands_whole(r@, text@),
{
    if !t.colors {
        return plain(text);
    }
    let first = paint(current_palette(t).text_muted, text);
    paint_dimmed_italic(first.as_str())
}

/// Warning text.
pub fn warning(t: &Theme, text: &str) -> (r: String)
    ensures
        !t.colors ==> r@ == text@,
        closed(text@) ==> shows(r@, strip_ansi_spec(text@)),
        no_esc(text@) ==> stands_whole(r@, text@),
{
    if !t.colors {
        return plain(text);
    }
    let p = current_palette(t);
    match current_theme(t) {
        ThemeId::Modern => paint_yellow_bold(text),
        ThemeId::GameBoy => paint_bold(p.glow_hi, text),
        ThemeId::Nes => paint_red_bold(text),
    }
}

pub fn success_icon(t: &Theme) -> (r: String)
    ensures
        !t.colors ==> r@ == "[+]"@,
        shows(r@, "[+]"@),
{
    proof {
        reveal_strlit("[+]");
        lemma_shows_plain("[+]"@);
    }
    if t.colors {
        paint_bold(current_palette(t).glow_hi, "[+]")
    } else {
        owned("[+]")
    }
}

pub fn error_icon(t: &Theme) -> (r: String)
    ensures
        !t.colors ==> r@ == "[X]"@,
        shows(r@, "[X]"@),
{
    proof {
        reveal_strlit("[X]");
        lemma_shows_plain("[X]"@);
    }
    if t.colors {
        paint_red_bold("[X]")
    } else {
        owned("[X]")
    }
}

pub fn warn_icon(t: &Theme) -> (r: String)
    ensures
        !t.colors ==> r@ == "[!]"@,
        shows(r@, "[!]"@),
{
    proof {
        reveal_strlit("[!]");
        lemma_shows_plain("[!]"@);
    }
    if t.colors {
        match current_theme(t) {
            ThemeId::Modern => paint_yellow_bold("[!]"),
            _ => paint_bold(current_palette(t).warn_text, "[!]"),
        }
    } else {
        owned("[!]")
    }
}

pub fn thinking_icon(t: &Theme) -> (r: String)
    ensures
        !t.colors ==> r@ == "*"@,
        shows(r@, if t.colors && t.id == ThemeId::Nes { "~"@ } else { "*"@ }),
{
    proof {
        reveal_strlit("*");
        reveal_strlit("~");
        lemma_shows_plain("*"@);
        lemma_shows_plain("~"@);
    }
    if !t.colors {
        return owned("*");
    }
    match current_theme(t) {
        ThemeId::Nes => paint_white_dimmed("~"),
        _ => paint(current_palette(t).glow_mid, "*"),
    }
}

pub fn choice_yes(t: &Theme, text: &str) -> (r: String)
    ensures
        !t.colors ==> r@ == text@,
        closed(text@) ==> shows(r@, strip_ansi_spec(text@)),
        no_esc(text@) ==> stands_whole(r@, text@),
{
    if t.colors {
        paint_green_bold(text)
    } else {
        plain(text)
    }
}

pub fn choice_default(t: &Theme, text: &str) -> (r: String)
    ensures
        !t.colors ==> r@ == text@,
        closed(text@) ==> shows(r@, strip_ansi_spec(text@)),
        no_esc(text@) ==> stands_whole(r@, text@),
{
    if t.colors {
        paint_white_bold(text)
    } else {
        plain(text)
    }
}

pub fn choice_always(t: &Theme, text: &str) -> (r: String)
    ensures
        !t.colors ==> r@ == text@,
        closed(text@) ==> shows(r@, strip_ansi_spec(text@)),
        no_esc(text@) ==> stands_whole(r@, text@),
{
    if t.colors {
        paint_yellow_bold(text)
    } else {
        plain(text)
    }
}

pub fn diff_add(t: &Theme, line: &str) -> (r: String)
    ensures
        !t.colors ==> r@ == line@,
        closed(line@) ==> shows(r@, strip_ansi_spec(line@)),
        no_esc(line@) ==> stands_whole(r@, line@),
{
    if t.colors {
        paint_green(line)
    } else {
        plain(line)
    }
}

pub fn diff_remove(t: &Theme, line: &str) -> (r: String)
    ensures
        !t.colors ==> r@ == line@,
        closed(line@) ==> shows(r@, strip_ansi_spec(line@)),
        no_esc(line@) ==> stands_whole(r@, line@),
{
    if t.colors {
        paint_red_dimmed(line)
    } else {
        plain(line)
    }
}

pub fn border_top_left(t: &Theme) -> (r: &'static str)
    ensures
        r@ == border_top_left_spec(t.id),
{
    match current_theme(t) {
        ThemeId::Modern => "┌",
        _ => "+",
    }
}

pub fn border_top_right(t: &Theme) -> (r: &'static str)
    ensures
        r@ == border_top_right_spec(t.id),
{
    match current_theme(t) {
        ThemeId::Modern => "┐",
        _ => "+",
    }
}

pub fn border_bottom_left(t: &Theme) -> (r: &'static str)
    ensures
        r@ == border_bottom_left_spec(t.id),
{
    match current_theme(t) {
        ThemeId::Modern => "└",
        _ => "+",
    }
}

pub fn border_bottom_right(t: &Theme) -> (r: &'static str)
    ensures
        r@ == border_bottom_right_spec(t.id),
{
    match current_theme(t) {
        ThemeId::Modern => "┘",
        _ => "+",
    }
}

pub fn border_horizontal(t: &Theme) -> (r: &'static str)
    ensures
        r@ == border_horizontal_spec(t.id),
{
    match current_theme(t) {
        ThemeId::Modern => "─",
        _ => "-",
    }
}

pub fn border_vertical(t: &Theme) -> (r: &'static str)
    ensures
        r@ == border_vertical_spec(t.id),
{
    match current_theme(t) {
        ThemeId::Modern => "│",
        _ => "|",
    }
}

/// The theme's border glyphs and bullets hold no escape character.
pub proof fn lemma_borders_plain(id: ThemeId)
    ensures
        no_esc(border_horizontal_spec(id)),
        no_esc(border_vertical_spec(id)),
        no_esc(border_top_left_spec(id)),
        no_esc(border_top_right_spec(id)),
        no_esc(border_bottom_left_spec(id)),
        no_esc(border_bottom_right_spec(id)),
        shows("•"@, "•"@),
        shows("*"@, "*"@),
{
    reveal_strlit("─");
    reveal_strlit("-");
    reveal_strlit("│");
    reveal_strlit("|");
    reveal_strlit("┌");
    reveal_strlit("┐");
    reveal_strlit("└");
    reveal_strlit("┘");
    reveal_strlit("+");
    reveal_strlit("•");
    reveal_strlit("*");
    lemma_shows_plain("•"@);
    lemma_shows_plain("*"@);
}

/// A horizontal rule of `width` border glyphs.
pub fn separator_line(t: &Theme, width: usize) -> (r: String)
    ensures
        !t.colors ==> r@ == repeat_seq(border_horizontal_spec(t.id), width as nat),
        shows(r@, repeat_seq(border_horizontal_spec(t.id), width as nat)),
{
    let line = repeat(border_horizontal(t), width);
    proof {
        lemma_borders_plain(t.id);
        lemma_no_esc_repeat(border_horizontal_spec(t.id), width as nat);
        lemma_shows_plain(line@);
    }
    soft(t, line.as_str())
}

/// A panel title (`= title =` in the NES theme).
pub fn panel_title(t: &Theme, text: &str) -> (r: String)
    ensures
        !t.colors && t.id == ThemeId::Nes ==> r@ == "= "@ + text@ + " ="@,
        !t.colors && t.id != ThemeId::Nes ==> r@ == text@,
        closed(text@) ==> shows(
            r@,
            if t.id == ThemeId::Nes { "= "@ + strip_ansi_spec(text@) + " ="@ } else { strip_ansi_spec(text@) },
        ),
{
    match current_theme(t) {
        ThemeId::Nes => {
            let p = primary(t, text);
            let r = concat3("= ", p.as_str(), " =");
            proof {
                reveal_strlit("= ");
                reveal_strlit(" =");
                lemma_shows_plain("= "@);
                lemma_shows_plain(" ="@);
                if closed(text@) {
                    lemma_shows_concat("= "@, "= "@, p@, strip_ansi_spec(text@));
                    lemma_shows_concat("= "@ + p@, "= "@ + strip_ansi_spec(text@), " ="@, " ="@);
                }
            }
            r
        },
        _ => primary(t, text),
    }
}

/// The bullet of lists (`•` for Modern, `*` for the retro themes).
pub fn list_bullet(t: &Theme) -> (r: String)
    ensures
        !t.colors ==> r@ == (if t.id == ThemeId::Modern {
            "•"@
        } else {
            "*"@
        }),
        shows(r@, if t.id == ThemeId::Modern { "•"@ } else { "*"@ }),
{
    proof {
        lemma_borders_plain(t.id);
    }
    match current_theme(t) {
        ThemeId::Modern => accent(t, "•"),
        _ => accent(t, "*"),
    }
}

/// Whether tables use the retro ASCII frame.
pub fn use_retro_table(t: &Theme) -> (r: bool)
    ensures
        r == (t.id != ThemeId::Modern),
{
    current_theme(t) != ThemeId::Modern
}

/// The user input prefix `you >`.
pub fn user_prompt_prefix(t: &Theme) -> (r: String)
    ensures
        !t.colors ==> r@ == "you >"@,
        shows(r@, "you >"@),
{
    proof {
        reveal_strlit("you >");
        reveal_strlit("you");
        reveal_strlit(" ");
        reveal_strlit(">");
        lemma_shows_plain("you >"@);
        lemma_shows_plain("you"@);
        lemma_shows_plain(" "@);
        lemma_shows_plain(">"@);
    }
    if !t.colors {
        return owned("you >");
    }
    let p = current_palette(t);
    let a = paint(p.user_prompt, "you");
    let b = paint_bold(p.user_prompt, ">");
    let r = concat3(a.as_str(), " ", b.as_str());
    proof {
        lemma_shows_concat(a@, "you"@, " "@, " "@);
        lemma_shows_concat(a@ + " "@, "you"@ + " "@, b@, ">"@);
        assert("you"@ + " "@ + ">"@ =~= "you >"@);
    }
    r
}

/// The assistant prefix `onemini >`.
pub fn assistant_prompt_prefix(t: &Theme) -> (r: String)
    ensures
        !t.colors ==> r@ == "onemini >"@,
        shows(r@, "onemini >"@),
        stands_whole(r@, "onemini"@),
{
    proof {
        reveal_strlit("onemini >");
        reveal_strlit("onemini");
        reveal_strlit(" ");
        reveal_strlit(">");
        lemma_shows_plain("onemini >"@);
        lemma_shows_plain("onemini"@);
        lemma_shows_plain(" "@);
        lemma_shows_plain(">"@);
        lemma_contains_middle(Seq::empty(), "onemini"@, " "@ + ">"@);
        assert(Seq::<char>::empty() + "onemini"@ + (" "@ + ">"@) =~= "onemini >"@);
    }
    if !t.colors {
        return owned("onemini >");
    }
    let p = current_palette(t);
    let a = paint(p.assistant_prompt, "onemini");
    let b = paint_bold(p.assistant_prompt, ">");
    let r = concat3(a.as_str(), " ", b.as_str());
    proof {
        lemma_shows_concat(a@, "onemini"@, " "@, " "@);
        lemma_shows_concat(a@ + " "@, "onemini"@ + " "@, b@, ">"@);
        assert("onemini"@ + " "@ + ">"@ =~= "onemini >"@);
        lemma_contains_within(Seq::empty(), a@, " "@ + b@, "onemini"@);
        assert(r@ =~= Seq::<char>::empty() + a@ + (" "@ + b@));
    }
    r
}

/// Banner meta labels.
pub fn banner_meta_label(t: &Theme, text: &str) -> (r: String)
    ensures
        !t.colors ==> r@ == text@,
        closed(text@) ==> shows(r@, strip_ansi_spec(text@)),
{
    if !t.colors {
        return plain(text);
    }
    paint(current_palette(t).glow_mid, text)
}

/// Banner meta values.
pub fn banner_meta_value(t: &Theme, text: &str) -> (r: String)
    ensures
        !t.colors ==> r@ == text@,
        closed(text@) ==> shows(r@, strip_ansi_spec(text@)),
{
    if !t.colors {
        return plain(text);
    }
    paint(current_palette(t).text_dim, text)
}

/// Banner meta prompt hints.
pub fn banner_meta_prompt(t: &Theme, text: &str) -> (r: String)
    ensures
        !t.colors ==> r@ == text@,
        closed(text@) ==> shows(r@, strip_ansi_spec(text@)),
{
    if !t.colors {
        return plain(text);
    }
    paint(current_palette(t).glow_hi, text)
}

} // verus!
