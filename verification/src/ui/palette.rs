//! Design tokens: the colours of each theme.
use vstd::prelude::*;

verus! {

/// An RGB triple.
#[derive(Debug, Clone, Copy, PartialEq, Eq, Structural)]
pub struct Rgb(pub u8, pub u8, pub u8);

/// The full colour set of one theme.
#[derive(Debug, Clone, Copy, PartialEq, Eq, Structural)]
pub struct Palette {
    /// Terminal window background.
    pub bg: Rgb,
    /// Welcome / card fill.
    pub panel_fill: Rgb,
    /// Tool card fill.
    pub tool_fill: Rgb,
    /// Panel border.
    pub panel_border: Rgb,
    /// Main glow colour.
    pub glow_hi: Rgb,
    /// Secondary glow colour.
    pub glow_mid: Rgb,
    /// Highlighted body text.
    pub text_bright: Rgb,
    /// Secondary text.
    pub text_muted: Rgb,
    /// Dimmer captions.
    pub text_dim: Rgb,
    /// Dark end of the brand gradient.
    pub gradient_lo: Rgb,
    /// Bright end of the brand gradient.
    pub gradient_hi: Rgb,
    /// Warning panel fill.
    pub warn_fill: Rgb,
    /// Warning border.
    pub warn_border: Rgb,
    /// Warning text.
    pub warn_text: Rgb,
    /// Secondary warning text.
    pub warn_muted: Rgb,
    /// Window close button.
    pub chrome_close: Rgb,
    /// Window minimise button.
    pub chrome_minimize: Rgb,
    /// Window maximise button.
    pub chrome_maximize: Rgb,
    /// User prompt prefix.
    pub user_prompt: Rgb,
    /// Assistant prompt prefix.
    pub assistant_prompt: Rgb,
}

/// The modern palette.
pub open spec fn modern_palette_spec() -> Palette {
    Palette {
        bg: Rgb(10, 15, 10),
        panel_fill: Rgb(13, 26, 13),
        tool_fill: Rgb(15, 26, 15),
        panel_border: Rgb(42, 74, 42),
        glow_hi: Rgb(57, 255, 20),
        glow_mid: Rgb(127, 255, 90),
        text_bright: Rgb(212, 255, 212),
        text_muted: Rgb(90, 138, 90),
        text_dim: Rgb(74, 106, 74),
        gradient_lo: Rgb(0, 140, 45),
        gradient_hi: Rgb(0, 255, 160),
        warn_fill: Rgb(26, 18, 8),
        warn_border: Rgb(106, 74, 26),
        warn_text: Rgb(254, 188, 46),
        warn_muted: Rgb(196, 164, 106),
        chrome_close: Rgb(255, 95, 87),
        chrome_minimize: Rgb(254, 188, 46),
        chrome_maximize: Rgb(40, 200, 64),
        user_prompt: Rgb(127, 255, 90),
        assistant_prompt: Rgb(57, 255, 20),
    }
}

/// The modern palette.
pub fn palette_modern() -> (p: Palette)
    ensures
        p == modern_palette_spec(),
{
    Palette {
        bg: Rgb(10, 15, 10),
        panel_fill: Rgb(13, 26, 13),
        tool_fill: Rgb(15, 26, 15),
        panel_border: Rgb(42, 74, 42),
        glow_hi: Rgb(57, 255, 20),
        glow_mid: Rgb(127, 255, 90),
        text_bright: Rgb(212, 255, 212),
        text_muted: Rgb(90, 138, 90),
        text_dim: Rgb(74, 106, 74),
        gradient_lo: Rgb(0, 140, 45),
        gradient_hi: Rgb(0, 255, 160),
        warn_fill: Rgb(26, 18, 8),
        warn_border: Rgb(106, 74, 26),
        warn_text: Rgb(254, 188, 46),
        warn_muted: Rgb(196, 164, 106),
        chrome_close: Rgb(255, 95, 87),
        chrome_minimize: Rgb(254, 188, 46),
        chrome_maximize: Rgb(40, 200, 64),
        user_prompt: Rgb(127, 255, 90),
        assistant_prompt: Rgb(57, 255, 20),
    }
}

/// The gameboy palette.
pub open spec fn gameboy_palette_spec() -> Palette {
    Palette {
        bg: Rgb(155, 188, 15),
        panel_fill: Rgb(155, 188, 15),
        tool_fill: Rgb(139, 172, 15),
        panel_border: Rgb(15, 56, 15),
        glow_hi: Rgb(15, 56, 15),
        glow_mid: Rgb(48, 98, 48),
        text_bright: Rgb(15, 56, 15),
        text_muted: Rgb(48, 98, 48),
        text_dim: Rgb(48, 98, 48),
        gradient_lo: Rgb(15, 56, 15),
        gradient_hi: Rgb(210, 245, 90),
        warn_fill: Rgb(139, 172, 15),
        warn_border: Rgb(15, 56, 15),
        warn_text: Rgb(15, 56, 15),
        warn_muted: Rgb(48, 98, 48),
        chrome_close: Rgb(15, 56, 15),
        chrome_minimize: Rgb(48, 98, 48),
        chrome_maximize: Rgb(15, 56, 15),
        user_prompt: Rgb(15, 56, 15),
        assistant_prompt: Rgb(15, 56, 15),
    }
}

/// The gameboy palette.
pub fn palette_gameboy() -> (p: Palette)
    ensures
        p == gameboy_palette_spec(),
{
    Palette {
        bg: Rgb(155, 188, 15),
        panel_fill: Rgb(155, 188, 15),
        tool_fill: Rgb(139, 172, 15),
        panel_border: Rgb(15, 56, 15),
        glow_hi: Rgb(15, 56, 15),
        glow_mid: Rgb(48, 98, 48),
        text_bright: Rgb(15, 56, 15),
        text_muted: Rgb(48, 98, 48),
        text_dim: Rgb(48, 98, 48),
        gradient_lo: Rgb(15, 56, 15),
        gradient_hi: Rgb(210, 245, 90),
        warn_fill: Rgb(139, 172, 15),
        warn_border: Rgb(15, 56, 15),
        warn_text: Rgb(15, 56, 15),
        warn_muted: Rgb(48, 98, 48),
        chrome_close: Rgb(15, 56, 15),
        chrome_minimize: Rgb(48, 98, 48),
        chrome_maximize: Rgb(15, 56, 15),
        user_prompt: Rgb(15, 56, 15),
        assistant_prompt: Rgb(15, 56, 15),
    }
}

/// The nes palette.
pub open spec fn nes_palette_spec() -> Palette {
    Palette {
        bg: Rgb(28, 44, 110),
        panel_fill: Rgb(28, 44, 110),
        tool_fill: Rgb(0, 0, 170),
        panel_border: Rgb(104, 136, 200),
        glow_hi: Rgb(248, 248, 248),
        glow_mid: Rgb(168, 184, 232),
        text_bright: Rgb(248, 248, 248),
        text_muted: Rgb(168, 184, 232),
        text_dim: Rgb(104, 136, 200),
        gradient_lo: Rgb(80, 80, 180),
        gradient_hi: Rgb(255, 220, 80),
        warn_fill: Rgb(0, 0, 170),
        warn_border: Rgb(104, 136, 200),
        warn_text: Rgb(255, 216, 120),
        warn_muted: Rgb(168, 184, 232),
        chrome_close: Rgb(255, 95, 87),
        chrome_minimize: Rgb(254, 188, 46),
        chrome_maximize: Rgb(40, 200, 64),
        user_prompt: Rgb(248, 248, 248),
        assistant_prompt: Rgb(248, 248, 248),
    }
}

/// The nes palette.
pub fn palette_nes() -> (p: Palette)
    ensures
        p == nes_palette_spec(),
{
    Palette {
        bg: Rgb(28, 44, 110),
        panel_fill: Rgb(28, 44, 110),
        tool_fill: Rgb(0, 0, 170),
        panel_border: Rgb(104, 136, 200),
        glow_hi: Rgb(248, 248, 248),
        glow_mid: Rgb(168, 184, 232),
        text_bright: Rgb(248, 248, 248),
        text_muted: Rgb(168, 184, 232),
        text_dim: Rgb(104, 136, 200),
        gradient_lo: Rgb(80, 80, 180),
        gradient_hi: Rgb(255, 220, 80),
        warn_fill: Rgb(0, 0, 170),
        warn_border: Rgb(104, 136, 200),
        warn_text: Rgb(255, 216, 120),
        warn_muted: Rgb(168, 184, 232),
        chrome_close: Rgb(255, 95, 87),
        chrome_minimize: Rgb(254, 188, 46),
        chrome_maximize: Rgb(40, 200, 64),
        user_prompt: Rgb(248, 248, 248),
        assistant_prompt: Rgb(248, 248, 248),
    }
}

/// The palette for a stored theme index: 1 Game Boy, 2 NES, anything else modern.
pub open spec fn palette_for_index_spec(v: u8) -> Palette {
    if v == 1 {
        gameboy_palette_spec()
    } else if v == 2 {
        nes_palette_spec()
    } else {
        modern_palette_spec()
    }
}

impl Palette {
    pub fn for_theme_index(v: u8) -> (p: Palette)
        ensures
            p == palette_for_index_spec(v),
    {
        if v == 1 {
            palette_gameboy()
        } else if v == 2 {
            palette_nes()
        } else {
            palette_modern()
        }
    }

    /// The three stops of the brand gradient: dark end, glow, bright end.
    pub fn brand_gradient_stops(self) -> (r: [Rgb; 3])
        ensures
            r@ == seq![self.gradient_lo, self.glow_hi, self.gradient_hi],
    {
        let r = [self.gradient_lo, self.glow_hi, self.gradient_hi];
        assert(r@ =~= seq![self.gradient_lo, self.glow_hi, self.gradient_hi]);
        r
    }
}

} // verus!
