use vstd::prelude::*;

verus! {

/// A terminal colour.
#[derive(Clone, Copy, Debug, PartialEq, Eq, Structural)]
pub enum Color {
    Reset,
    Black,
    Red,
    Green,
    Yellow,
    Blue,
    Magenta,
    Cyan,
    Gray,
    DarkGray,
    LightRed,
    LightGreen,
    LightYellow,
    LightBlue,
    LightMagenta,
    LightCyan,
    White,
    Rgb(u8, u8, u8),
    Indexed(u8),
}

/// Text modifier bits (bold, italic, ...).
pub const BOLD: u16 = 1;
pub const DIM: u16 = 2;
pub const ITALIC: u16 = 4;
pub const UNDERLINED: u16 = 8;
pub const SLOW_BLINK: u16 = 16;
pub const RAPID_BLINK: u16 = 32;
pub const REVERSED: u16 = 64;
pub const HIDDEN: u16 = 128;
pub const CROSSED_OUT: u16 = 256;

/// A style patch: an unset colour keeps whatever the cell already holds;
/// `add_modifier` bits are switched on, then `sub_modifier` bits off.
#[derive(Clone, Copy, Debug, PartialEq, Eq, Structural)]
pub struct Style {
    pub fg: Option<Color>,
    pub bg: Option<Color>,
    pub add_modifier: u16,
    pub sub_modifier: u16,
}

/// The colour of an optional channel, `Reset` where it is unset.
pub open spec fn color_or_reset(c: Option<Color>) -> Color {
    match c {
        Some(v) => v,
        None => Color::Reset,
    }
}

pub fn unwrap_color(c: Option<Color>) -> (r: Color)
    ensures
        r == color_or_reset(c),
{
    match c {
        Some(v) => v,
        None => Color::Reset,
    }
}

impl Style {
    pub open spec fn new_spec() -> Style {
        Style { fg: None, bg: None, add_modifier: 0, sub_modifier: 0 }
    }

    /// The style that changes nothing.
    pub fn new() -> (r: Style)
        ensures
            r == Style::new_spec(),
    {
        Style { fg: None, bg: None, add_modifier: 0, sub_modifier: 0 }
    }

    pub fn fg(self, c: Color) -> (r: Style)
        ensures
            r == (Style { fg: Some(c), ..self }),
    {
        Style { fg: Some(c), ..self }
    }

    pub fn bg(self, c: Color) -> (r: Style)
        ensures
            r == (Style { bg: Some(c), ..self }),
    {
        Style { bg: Some(c), ..self }
    }

    /// Switches `m` on: added to `add_modifier`, taken out of `sub_modifier`.
    pub fn add_modifier(self, m: u16) -> (r: Style)
        ensures
            r.fg == self.fg,
            r.bg == self.bg,
            r.add_modifier == self.add_modifier | m,
            r.sub_modifier == self.sub_modifier & !m,
    {
        Style { add_modifier: self.add_modifier | m, sub_modifier: self.sub_modifier & !m, ..self }
    }
}

} // verus!
