use vstd::prelude::*;
use crate::color::{background_color, background_of, foreground_color, foreground_of, Color, NativeColor};
use crate::error::Error;

verus! {

/// The bit of a cell's modifier set that asks for reversed video.
pub const REVERSED: u16 = 0x40;

/// Whether a modifier set asks for reversed video.
pub open spec fn reversed(bits: u16) -> bool {
    bits & REVERSED != 0
}

/// Relies on ratatui's `Modifier::from_bits_retain` and `Modifier::contains`:
/// the set built from `bits` holds `Modifier::REVERSED` (`0b0100_0000`) exactly
/// when that bit is set.
#[verifier::external_body]
fn has_reversed(bits: u16) -> (r: bool)
    ensures
        r == reversed(bits),
{
    ratatui::style::Modifier::from_bits_retain(bits).contains(ratatui::style::Modifier::REVERSED)
}

/// One positioned, styled character cell of a frame.
///
/// `modifier` is the cell's modifier set as ratatui lays out its bits.
#[derive(Clone, Debug, PartialEq, Eq)]
pub struct Cell {
    pub x: u16,
    pub y: u16,
    pub fg: Color,
    pub bg: Color,
    pub modifier: u16,
    pub symbol: String,
}

/// One call to make on the firmware console.
#[derive(Clone, Debug, PartialEq, Eq)]
pub enum Command {
    SetCursor { column: usize, row: usize },
    SetColor { foreground: NativeColor, background: NativeColor },
    Write { text: String },
    Clear,
}

/// The kind of a console call, which names the error when the call fails.
#[derive(Clone, Copy, Debug, PartialEq, Eq, Structural)]
pub enum Stage {
    Cursor,
    Color,
    Write,
    Clear,
}

pub open spec fn stage_of(c: Command) -> Stage {
    match c {
        Command::SetCursor { .. } => Stage::Cursor,
        Command::SetColor { .. } => Stage::Color,
        Command::Write { .. } => Stage::Write,
        Command::Clear => Stage::Clear,
    }
}

/// The kind of a console call.
pub fn stage_for(command: &Command) -> (r: Stage)
    ensures
        r == stage_of(*command),
{
    match command {
        Command::SetCursor { .. } => Stage::Cursor,
        Command::SetColor { .. } => Stage::Color,
        Command::Write { .. } => Stage::Write,
        Command::Clear => Stage::Clear,
    }
}

/// The error for a console call of kind `stage` that failed with `status`.
pub open spec fn failure_error(stage: Stage, status: usize) -> Error {
    match stage {
        Stage::Cursor => Error::SetCursorPosition { status },
        Stage::Color => Error::SetColor { status },
        Stage::Write => Error::WriteCharacter,
        Stage::Clear => Error::Clear { status },
    }
}

/// The error for a console call of kind `stage` that failed with `status`.
pub fn stage_error(stage: Stage, status: usize) -> (e: Error)
    ensures
        e == failure_error(stage, status),
{
    match stage {
        Stage::Cursor => Error::SetCursorPosition { status },
        Stage::Color => Error::SetColor { status },
        Stage::Write => Error::WriteCharacter,
        Stage::Clear => Error::Clear { status },
    }
}

/// The console foreground and background of a cell: each color resolved with
/// its fallback, then swapped where the cell asks for reversed video.
pub open spec fn cell_colors(c: Cell) -> (NativeColor, NativeColor) {
    if reversed(c.modifier) {
        (background_of(c.bg), foreground_of(c.fg))
    } else {
        (foreground_of(c.fg), background_of(c.bg))
    }
}

/// The console calls that draw one cell, in order: move the cursor, set the
/// colors, write the symbol.
pub open spec fn cell_commands(c: Cell) -> Seq<Command> {
    seq![
        Command::SetCursor { column: c.x as usize, row: c.y as usize },
        Command::SetColor { foreground: cell_colors(c).0, background: cell_colors(c).1 },
        Command::Write { text: c.symbol },
    ]
}

/// The console colors of a cell.
pub fn colors_for(cell: &Cell) -> (r: (NativeColor, NativeColor))
    ensures
        r == cell_colors(*cell),
{
    let fg = foreground_color(cell.fg);
    let bg = background_color(cell.bg);
    if has_reversed(cell.modifier) {
        (bg, fg)
    } else {
        (fg, bg)
    }
}

} // verus!
