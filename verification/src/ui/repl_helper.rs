//! The REPL's input prompt, plain and coloured.
use vstd::prelude::*;
use crate::text::{concat2, owned};
use crate::ui::theme::Theme;
use crate::ui::user_prefix;
use crate::ui::terminal::{lemma_shows_concat, lemma_shows_plain, shows};

verus! {

/// The prompt without colours.
pub fn input_prompt_plain() -> (r: &'static str)
    ensures
        r@ == "You "@,
{
    "You "
}

/// The prompt with the user mark in its colour.
pub fn colored_input_prompt(t: &Theme) -> (r: String)
    ensures
        !t.colors ==> r@ == "You"@ + " "@,
        shows(r@, "You"@ + " "@),
{
    let p = user_prefix(t);
    let r = concat2(p.as_str(), " ");
    proof {
        reveal_strlit(" ");
        lemma_shows_plain(" "@);
        lemma_shows_concat(p@, "You"@, " "@, " "@);
    }
    r
}

/// Shows the coloured prompt in place of the plain one.
pub struct ReplHelper {
    pub colored_prompt: String,
}

impl ReplHelper {
    pub fn new(t: &Theme) -> (r: ReplHelper)
        ensures
            !t.colors ==> r.colored_prompt@ == "You"@ + " "@,
            shows(r.colored_prompt@, "You"@ + " "@),
    {
        ReplHelper { colored_prompt: colored_input_prompt(t) }
    }

    /// The prompt to show: the coloured one for the default prompt, else the
    /// one given.
    pub fn highlight_prompt(&self, prompt: &str, default: bool) -> (r: String)
        ensures
            default ==> r@ == self.colored_prompt@,
            !default ==> r@ == prompt@,
    {
        if default {
            owned(self.colored_prompt.as_str())
        } else {
            owned(prompt)
        }
    }
}

} // verus!
