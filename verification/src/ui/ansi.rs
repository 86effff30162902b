//! Terminal styling through the `colored` crate.
//!
//! Whether `colored` writes escape sequences depends on the environment
//! (`CLICOLOR`, `CLICOLOR_FORCE`, `NO_COLOR`, whether stdout is a terminal).
//! Either way what the text shows is unchanged: `colored` writes it as it is,
//! or between an SGR sequence (`ESC [` digits and `;`, then `m`) and the reset
//! `ESC [0m`, with that SGR sequence repeated after each reset inside the text
//! (`Display for ColoredString`, `escape_inner_reset_sequences`). So each item
//! here promises that, for a text that leaves no escape sequence open, its
//! result shows what the text shows, and that a text without escape
//! characters comes back as it is or between one SGR sequence and the reset
//! (`painted`); it promises nothing about whether colour codes are written.
//! The SGR parameters `colored` writes are digits and `;` and never start
//! with `0` (`Style::to_str`, `Color::to_fg_str`, `Color::to_bg_str`), so a
//! painted text holds only the one reset, at its end; painting it again
//! (`dimmed`) adds the new SGR sequence after that reset and leaves the text
//! inside whole.
use colored::Colorize;
use vstd::prelude::*;
use crate::ui::terminal::{closed, no_esc, painted, shows, stands_whole, strip_ansi_spec};

verus! {

/// `Colorize::truecolor`, written out (`Display for ColoredString`).
#[verifier::external_body]
pub(crate) fn paint_fg(text: &str, r: u8, g: u8, b: u8) -> (out: String)
    ensures
        closed(text@) ==> shows(out@, strip_ansi_spec(text@)),
        no_esc(text@) ==> painted(out@, text@),
{
    text.truecolor(r, g, b).to_string()
}

/// `Colorize::truecolor`, then `bold`, written out (`Display for ColoredString`).
#[verifier::external_body]
pub(crate) fn paint_fg_bold(text: &str, r: u8, g: u8, b: u8) -> (out: String)
    ensures
        closed(text@) ==> shows(out@, strip_ansi_spec(text@)),
        no_esc(text@) ==> painted(out@, text@),
{
    text.truecolor(r, g, b).bold().to_string()
}

/// `Colorize::truecolor`, `on_truecolor`, then `bold`, written out (`Display for ColoredString`).
#[verifier::external_body]
pub(crate) fn paint_fg_bg_bold(text: &str, fg: (u8, u8, u8), bg: (u8, u8, u8)) -> (out: String)
    ensures
        closed(text@) ==> shows(out@, strip_ansi_spec(text@)),
        no_esc(text@) ==> painted(out@, text@),
{
    text.truecolor(fg.0, fg.1, fg.2).on_truecolor(bg.0, bg.1, bg.2).bold().to_string()
}

/// `Colorize::red`, written out (`Display for ColoredString`).
#[verifier::external_body]
pub(crate) fn paint_red(text: &str) -> (out: String)
    ensures
        closed(text@) ==> shows(out@, strip_ansi_spec(text@)),
        no_esc(text@) ==> painted(out@, text@),
{
    text.red().to_string()
}

/// `Colorize::red`, then `bold`, written out (`Display for ColoredString`).
#[verifier::external_body]
pub(crate) fn paint_red_bold(text: &str) -> (out: String)
    ensures
        closed(text@) ==> shows(out@, strip_ansi_spec(text@)),
        no_esc(text@) ==> painted(out@, text@),
{
    text.red().bold().to_string()
}

/// `Colorize::red`, then `dimmed`, written out (`Display for ColoredString`).
#[verifier::external_body]
pub(crate) fn paint_red_dimmed(text: &str) -> (out: String)
    ensures
        closed(text@) ==> shows(out@, strip_ansi_spec(text@)),
        no_esc(text@) ==> painted(out@, text@),
{
    text.red().dimmed().to_string()
}

/// `Colorize::yellow`, written out (`Display for ColoredString`).
#[verifier::external_body]
pub(crate) fn paint_yellow(text: &str) -> (out: String)
    ensures
        closed(text@) ==> shows(out@, strip_ansi_spec(text@)),
        no_esc(text@) ==> painted(out@, text@),
{
    text.yellow().to_string()
}

/// `Colorize::yellow`, then `bold`, written out (`Display for ColoredString`).
#[verifier::external_body]
pub(crate) fn paint_yellow_bold(text: &str) -> (out: String)
    ensures
        closed(text@) ==> shows(out@, strip_ansi_spec(text@)),
        no_esc(text@) ==> painted(out@, text@),
{
    text.yellow().bold().to_string()
}

/// `Colorize::green`, written out (`Display for ColoredString`).
#[verifier::external_body]
pub(crate) fn paint_green(text: &str) -> (out: String)
    ensures
        closed(text@) ==> shows(out@, strip_ansi_spec(text@)),
        no_esc(text@) ==> painted(out@, text@),
{
    text.green().to_string()
}

/// `Colorize::green`, then `bold`, written out (`Display for ColoredString`).
#[verifier::external_body]
pub(crate) fn paint_green_bold(text: &str) -> (out: String)
    ensures
        closed(text@) ==> shows(out@, strip_ansi_spec(text@)),
        no_esc(text@) ==> painted(out@, text@),
{
    text.green().bold().to_string()
}

/// `Colorize::white`, then `bold`, written out (`Display for ColoredString`).
#[verifier::external_body]
pub(crate) fn paint_white_bold(text: &str) -> (out: String)
    ensures
        closed(text@) ==> shows(out@, strip_ansi_spec(text@)),
        no_esc(text@) ==> painted(out@, text@),
{
    text.white().bold().to_string()
}

/// `Colorize::white`, then `dimmed`, written out (`Display for ColoredString`).
#[verifier::external_body]
pub(crate) fn paint_white_dimmed(text: &str) -> (out: String)
    ensures
        closed(text@) ==> shows(out@, strip_ansi_spec(text@)),
        no_esc(text@) ==> painted(out@, text@),
{
    text.white().dimmed().to_string()
}

/// `Colorize::dimmed`, written out (`Display for ColoredString`).
#[verifier::external_body]
pub(crate) fn paint_dimmed(text: &str) -> (out: String)
    ensures
        closed(text@) ==> shows(out@, strip_ansi_spec(text@)),
        no_esc(text@) ==> painted(out@, text@),
        forall|x: Seq<char>| no_esc(x) && #[trigger] painted(text@, x) ==> stands_whole(out@, x),
{
    text.dimmed().to_string()
}

/// `Colorize::dimmed`, then `italic`, written out (`Display for ColoredString`).
#[verifier::external_body]
pub(crate) fn paint_dimmed_italic(text: &str) -> (out: String)
    ensures
        closed(text@) ==> shows(out@, strip_ansi_spec(text@)),
        no_esc(text@) ==> painted(out@, text@),
        forall|x: Seq<char>| no_esc(x) && #[trigger] painted(text@, x) ==> stands_whole(out@, x),
{
    text.dimmed().italic().to_string()
}

/// `Colorize::bright_cyan`, `bold`, then `italic`, written out (`Display for ColoredString`).
#[verifier::external_body]
pub(crate) fn paint_bright_cyan_bold_italic(text: &str) -> (out: String)
    ensures
        closed(text@) ==> shows(out@, strip_ansi_spec(text@)),
        no_esc(text@) ==> painted(out@, text@),
{
    text.bright_cyan().bold().italic().to_string()
}

} // verus!
