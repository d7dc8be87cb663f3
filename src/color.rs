use vstd::prelude::*;

verus! {

/// A color of the terminal model.
#[derive(Clone, Copy, Debug, PartialEq, Eq, Structural)]
pub enum Color {
    Reset,
    Black,
    Red,
    Green,
    Yellow,
    Blue,
    Magenta,
    Cyan,
    Gray,
    DarkGray,
    LightRed,
    LightGreen,
    LightYellow,
    LightBlue,
    LightMagenta,
    LightCyan,
    White,
    Rgb(u8, u8, u8),
    Indexed(u8),
}

/// A color of the firmware text console.
#[derive(Clone, Copy, Debug, PartialEq, Eq, Structural)]
pub enum NativeColor {
    Black,
    Blue,
    Green,
    Cyan,
    Red,
    Magenta,
    Brown,
    LightGray,
    DarkGray,
    LightBlue,
    LightGreen,
    LightCyan,
    LightRed,
    LightMagenta,
    Yellow,
    White,
}

/// The colors that the console cannot show: an arbitrary triplet, a palette
/// index, and the terminal's own default.
pub open spec fn unrepresentable(c: Color) -> bool {
    c is Rgb || c is Indexed || c is Reset
}

/// The console color that stands for `c`, if there is one.
///
/// `LightYellow` shares the console's `Yellow` with `Yellow`, since the console's
/// palette has no second yellow.
pub open spec fn native_of(c: Color) -> Option<NativeColor> {
    match c {
        Color::Black => Some(NativeColor::Black),
        Color::Red => Some(NativeColor::Red),
        Color::Green => Some(NativeColor::Green),
        Color::Yellow => Some(NativeColor::Yellow),
        Color::Blue => Some(NativeColor::Blue),
        Color::Magenta => Some(NativeColor::Magenta),
        Color::Cyan => Some(NativeColor::Cyan),
        Color::Gray => Some(NativeColor::LightGray),
        Color::DarkGray => Some(NativeColor::DarkGray),
        Color::LightRed => Some(NativeColor::LightRed),
        Color::LightGreen => Some(NativeColor::LightGreen),
        Color::LightYellow => Some(NativeColor::Yellow),
        Color::LightBlue => Some(NativeColor::LightBlue),
        Color::LightMagenta => Some(NativeColor::LightMagenta),
        Color::LightCyan => Some(NativeColor::LightCyan),
        Color::White => Some(NativeColor::White),
        Color::Rgb(..) | Color::Indexed(_) | Color::Reset => None,
    }
}

/// The console foreground for `c`: white where `c` has no console color.
pub open spec fn foreground_of(c: Color) -> NativeColor {
    match native_of(c) {
        Some(n) => n,
        None => NativeColor::White,
    }
}

/// The console background for `c`: black where `c` has no console color.
pub open spec fn background_of(c: Color) -> NativeColor {
    match native_of(c) {
        Some(n) => n,
        None => NativeColor::Black,
    }
}

/// Maps a terminal color to the console color that stands for it.
pub fn to_uefi_color(color: Color) -> (r: Option<NativeColor>)
    ensures
        r == native_of(color),
{
    match color {
        Color::Black => Some(NativeColor::Black),
        Color::Red => Some(NativeColor::Red),
        Color::Green => Some(NativeColor::Green),
        Color::Yellow => Some(NativeColor::Yellow),
        Color::Blue => Some(NativeColor::Blue),
        Color::Magenta => Some(NativeColor::Magenta),
        Color::Cyan => Some(NativeColor::Cyan),
        Color::Gray => Some(NativeColor::LightGray),
        Color::DarkGray => Some(NativeColor::DarkGray),
        Color::LightRed => Some(NativeColor::LightRed),
        Color::LightGreen => Some(NativeColor::LightGreen),
        Color::LightYellow => Some(NativeColor::Yellow),
        Color::LightBlue => Some(NativeColor::LightBlue),
        Color::LightMagenta => Some(NativeColor::LightMagenta),
        Color::LightCyan => Some(NativeColor::LightCyan),
        Color::White => Some(NativeColor::White),
        Color::Rgb(..) | Color::Indexed(_) | Color::Reset => None,
    }
}

/// The console foreground for a terminal color, falling back to white.
pub fn foreground_color(color: Color) -> (r: NativeColor)
    ensures
        r == foreground_of(color),
{
    match to_uefi_color(color) {
        Some(n) => n,
        None => NativeColor::White,
    }
}

/// The console background for a terminal color, falling back to black.
pub fn background_color(color: Color) -> (r: NativeColor)
    ensures
        r == background_of(color),
{
    match to_uefi_color(color) {
        Some(n) => n,
        None => NativeColor::Black,
    }
}

/// A terminal color has no console color exactly when it is an arbitrary
/// triplet, a palette index or the default; every other color has one.
pub proof fn lemma_unmapped_iff_unrepresentable(c: Color)
    ensures
        native_of(c) is None <==> unrepresentable(c),
        !unrepresentable(c) ==> foreground_of(c) == background_of(c),
        unrepresentable(c) ==> foreground_of(c) == NativeColor::White
            && background_of(c) == NativeColor::Black,
{
}

} // verus!
