//! Spinner frames.
use vstd::prelude::*;
use crate::ui::terminal::no_esc;
use crate::ui::theme::{use_retro_table, Theme, ThemeId};

verus! {

/// The braille spinner frames.
pub open spec fn braille_frames() -> Seq<Seq<char>> {
    seq!["⠋"@, "⠙"@, "⠹"@, "⠸"@, "⠼"@, "⠴"@, "⠦"@, "⠧"@, "⠇"@, "⠏"@]
}

/// The ASCII spinner frames of the retro themes.
pub open spec fn retro_frames() -> Seq<Seq<char>> {
    seq!["|"@, "/"@, "-"@, "\\"@]
}

/// The spinner frame shown at step `index` (cycling).
pub open spec fn frame_spec(id: ThemeId, index: nat) -> Seq<char> {
    if id != ThemeId::Modern {
        retro_frames()[(index % 4) as int]
    } else {
        braille_frames()[(index % 10) as int]
    }
}

/// No spinner frame holds an escape character.
pub proof fn lemma_frame_plain(id: ThemeId, index: nat)
    ensures
        no_esc(frame_spec(id, index)),
{
    reveal_strlit("|");
    reveal_strlit("/");
    reveal_strlit("-");
    reveal_strlit("\\");
    reveal_strlit("⠋");
    reveal_strlit("⠙");
    reveal_strlit("⠹");
    reveal_strlit("⠸");
    reveal_strlit("⠼");
    reveal_strlit("⠴");
    reveal_strlit("⠦");
    reveal_strlit("⠧");
    reveal_strlit("⠇");
    reveal_strlit("⠏");
    let k4 = (index % 4) as int;
    let k10 = (index % 10) as int;
    assert(0 <= k4 < 4);
    assert(0 <= k10 < 10);
}

/// The spinner frame for step `index`.
pub fn frame(t: &Theme, index: usize) -> (r: &'static str)
    ensures
        r@ == frame_spec(t.id, index as nat),
        no_esc(r@),
{
    proof {
        reveal_strlit("|");
        reveal_strlit("/");
        reveal_strlit("-");
        reveal_strlit("\\");
        reveal_strlit("⠋");
        reveal_strlit("⠙");
        reveal_strlit("⠹");
        reveal_strlit("⠸");
        reveal_strlit("⠼");
        reveal_strlit("⠴");
        reveal_strlit("⠦");
        reveal_strlit("⠧");
        reveal_strlit("⠇");
        reveal_strlit("⠏");
    }
    if use_retro_table(t) {
        let k = index % 4;
        if k == 0 {
            "|"
        } else if k == 1 {
            "/"
        } else if k == 2 {
            "-"
        } else {
            "\\"
        }
    } else {
        let k = index % 10;
        if k == 0 {
            "⠋"
        } else if k == 1 {
            "⠙"
        } else if k == 2 {
            "⠹"
        } else if k == 3 {
            "⠸"
        } else if k == 4 {
            "⠼"
        } else if k == 5 {
            "⠴"
        } else if k == 6 {
            "⠦"
        } else if k == 7 {
            "⠧"
        } else if k == 8 {
            "⠇"
        } else {
            "⠏"
        }
    }
}

} // verus!
