//! Theming — semantic colour slots. Components name a slot (`foreground`,
//! `mention`, ...) rather than a colour; each built-in theme binds the slots.
//! One built-in theme exists: Catppuccin Mocha, the default dark theme
//! (colours: <https://catppuccin.com/palette#mocha>).

use vstd::prelude::*;

verus! {

/// A terminal colour: the terminal's default, or a 24-bit colour.
#[derive(Debug, Clone, Copy, PartialEq, Eq, Structural)]
pub enum Color {
    Reset,
    Rgb(u8, u8, u8),
}

#[derive(Debug, Clone, Copy)]
pub struct Theme {
    pub background: Color,
    pub surface: Color,
    pub overlay: Color,
    pub foreground: Color,
    pub muted: Color,
    pub subtle: Color,
    pub primary: Color,
    pub success: Color,
    pub warning: Color,
    pub error: Color,
    pub info: Color,
    pub mention: Color,
    pub link: Color,
    pub border: Color,
    pub border_focused: Color,
    pub tab_room: Color,
    pub tab_dm: Color,
    pub tab_special: Color,
    pub tab_unread: Color,
    /// Name of the matching syntax-highlighting theme for code blocks.
    pub syntect_theme_name: &'static str,
}

/// The colours of Catppuccin Mocha.
pub open spec fn is_catppuccin_mocha(t: Theme) -> bool {
    &&& t.background == Color::Rgb(0x1e, 0x1e, 0x2e)
    &&& t.surface == Color::Rgb(0x18, 0x18, 0x25)
    &&& t.overlay == Color::Rgb(0x31, 0x32, 0x44)
    &&& t.foreground == Color::Rgb(0xcd, 0xd6, 0xf4)
    &&& t.muted == Color::Rgb(0x6c, 0x70, 0x86)
    &&& t.subtle == Color::Rgb(0x45, 0x47, 0x5a)
    &&& t.primary == Color::Rgb(0xcb, 0xa6, 0xf7)
    &&& t.success == Color::Rgb(0xa6, 0xe3, 0xa1)
    &&& t.warning == Color::Rgb(0xf9, 0xe2, 0xaf)
    &&& t.error == Color::Rgb(0xf3, 0x8b, 0xa8)
    &&& t.info == Color::Rgb(0x89, 0xb4, 0xfa)
    &&& t.mention == Color::Rgb(0xf5, 0xc2, 0xe7)
    &&& t.link == Color::Rgb(0x89, 0xdc, 0xeb)
    &&& t.border == Color::Rgb(0x45, 0x47, 0x5a)
    &&& t.border_focused == Color::Rgb(0xcb, 0xa6, 0xf7)
    &&& t.tab_room == Color::Rgb(0x94, 0xe2, 0xd5)
    &&& t.tab_dm == Color::Rgb(0xf9, 0xe2, 0xaf)
    &&& t.tab_special == Color::Rgb(0xfa, 0xb3, 0x87)
    &&& t.tab_unread == Color::Rgb(0xf3, 0x8b, 0xa8)
    &&& t.syntect_theme_name@ == "Catppuccin Mocha"@
}

/// Catppuccin Mocha — the default dark theme.
pub fn catppuccin_mocha() -> (t: Theme)
    ensures
        is_catppuccin_mocha(t),
{
    proof {
        reveal_strlit("Catppuccin Mocha");
    }
    Theme {
        background: Color::Rgb(0x1e, 0x1e, 0x2e),  // base
        surface: Color::Rgb(0x18, 0x18, 0x25),  // mantle
        overlay: Color::Rgb(0x31, 0x32, 0x44),  // surface0
        foreground: Color::Rgb(0xcd, 0xd6, 0xf4),  // text
        muted: Color::Rgb(0x6c, 0x70, 0x86),  // overlay0
        subtle: Color::Rgb(0x45, 0x47, 0x5a),  // surface1
        primary: Color::Rgb(0xcb, 0xa6, 0xf7),  // mauve
        success: Color::Rgb(0xa6, 0xe3, 0xa1),  // green
        warning: Color::Rgb(0xf9, 0xe2, 0xaf),  // yellow
        error: Color::Rgb(0xf3, 0x8b, 0xa8),  // red
        info: Color::Rgb(0x89, 0xb4, 0xfa),  // blue
        mention: Color::Rgb(0xf5, 0xc2, 0xe7),  // pink (lighter)
        link: Color::Rgb(0x89, 0xdc, 0xeb),  // sky
        border: Color::Rgb(0x45, 0x47, 0x5a),  // surface1
        border_focused: Color::Rgb(0xcb, 0xa6, 0xf7),  // mauve
        tab_room: Color::Rgb(0x94, 0xe2, 0xd5),  // teal
        tab_dm: Color::Rgb(0xf9, 0xe2, 0xaf),  // yellow
        tab_special: Color::Rgb(0xfa, 0xb3, 0x87),  // peach
        tab_unread: Color::Rgb(0xf3, 0x8b, 0xa8),  // pink
        syntect_theme_name: "Catppuccin Mocha",
    }
}

} // verus!
