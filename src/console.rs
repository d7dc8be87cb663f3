use vstd::prelude::*;
use crate::draw::{failure_error, stage_error, stage_for, stage_of, Command};
use crate::error::{ClearType, Error};

verus! {

/// A cursor position: column `x`, row `y`.
#[derive(Clone, Copy, Debug, PartialEq, Eq, Structural)]
pub struct Position {
    pub x: u16,
    pub y: u16,
}

/// The size of the drawable area, in cells.
#[derive(Clone, Copy, Debug, PartialEq, Eq, Structural)]
pub struct Size {
    pub width: u16,
    pub height: u16,
}

/// The drawable area in cells, and in pixels where that is known.
#[derive(Clone, Copy, Debug, PartialEq, Eq, Structural)]
pub struct WindowSize {
    pub columns_rows: Size,
    pub pixels: Size,
}

/// A text mode of the firmware console.
#[derive(Clone, Copy, Debug, PartialEq, Eq, Structural)]
pub struct Mode {
    pub columns: usize,
    pub rows: usize,
}

/// The rows at the bottom of the console that are kept out of the drawable
/// area.
pub const RESERVED_ROWS: usize = 2;

/// What a console call's reply means: success, or the error of that call's kind.
pub open spec fn reply_result(command: Command, reply: Result<(), usize>) -> Result<(), Error> {
    match reply {
        Ok(()) => Ok(()),
        Err(status) => Err(failure_error(stage_of(command), status)),
    }
}

/// What a console call's reply means: success, or the error of that call's kind.
pub fn call_result(command: &Command, reply: Result<(), usize>) -> (r: Result<(), Error>)
    ensures
        r == reply_result(*command, reply),
{
    match reply {
        Ok(()) => Ok(()),
        Err(status) => Err(stage_error(stage_for(command), status)),
    }
}

/// The call that clears the whole screen.
pub fn clear_command() -> (r: Command)
    ensures
        r == Command::Clear,
{
    Command::Clear
}

pub open spec fn clear_region_spec(kind: ClearType) -> Result<Command, Error> {
    if kind == ClearType::All {
        Ok(Command::Clear)
    } else {
        Err(Error::UnsupportedClear { clear_type: kind })
    }
}

/// The call that clears a region: only the whole screen can be cleared, any
/// other region is refused with an error that names it.
pub fn clear_region_command(kind: ClearType) -> (r: Result<Command, Error>)
    ensures
        r == clear_region_spec(kind),
{
    match kind {
        ClearType::All => Ok(clear_command()),
        ClearType::AfterCursor
        | ClearType::BeforeCursor
        | ClearType::CurrentLine
        | ClearType::UntilNewLine => Err(Error::UnsupportedClear { clear_type: kind }),
    }
}

/// Clearing the whole screen as a region is the same call as clearing the
/// screen, with the same meaning of its reply; clearing any other region makes
/// no call and fails with an error that names the region.
pub proof fn lemma_clear_region(kind: ClearType, reply: Result<(), usize>)
    ensures
        kind == ClearType::All ==> clear_region_spec(kind) == Ok::<Command, Error>(Command::Clear)
            && reply_result(Command::Clear, reply) == (match reply {
                Ok(()) => Ok(()),
                Err(status) => Err(Error::Clear { status }),
            }),
        kind != ClearType::All ==> clear_region_spec(kind) == Err::<Command, Error>(
            Error::UnsupportedClear { clear_type: kind },
        ),
{
}

/// The call that moves the cursor to a position.
pub fn cursor_command(position: Position) -> (r: Command)
    ensures
        r == (Command::SetCursor { column: position.x as usize, row: position.y as usize }),
{
    Command::SetCursor { column: position.x as usize, row: position.y as usize }
}

/// The position that the console reports as its cursor's column and row.
pub fn cursor_position(column: usize, row: usize) -> (r: Position)
    ensures
        r == (Position { x: column as u16, y: row as u16 }),
{
    Position { x: column as u16, y: row as u16 }
}

/// Showing or hiding the cursor succeeds whatever the console replied: many
/// consoles cannot do it, and the cursor's visibility must not stop drawing.
pub fn cursor_visibility_result(reply: Result<(), usize>) -> (r: Result<(), Error>)
    ensures
        r == Ok::<(), Error>(()),
{
    match reply {
        Ok(()) => Ok(()),
        Err(_) => Ok(()),
    }
}

/// Whether the console's answer to the mode query can be turned into a size.
pub open spec fn mode_fits(mode: Result<Option<Mode>, usize>) -> bool {
    match mode {
        Ok(Some(m)) => m.rows >= RESERVED_ROWS,
        _ => true,
    }
}

/// The drawable size for the console's answer to the mode query: the mode's
/// columns, and its rows less the reserved ones.
pub open spec fn size_spec(mode: Result<Option<Mode>, usize>) -> Result<Size, Error> {
    match mode {
        Err(status) => Err(Error::GetCurrentMode { status }),
        Ok(None) => Err(Error::NoCurrentMode),
        Ok(Some(m)) => Ok(
            Size { width: m.columns as u16, height: (m.rows - RESERVED_ROWS) as usize as u16 },
        ),
    }
}

/// The drawable area is the mode's columns by its rows less two; without a
/// current mode, and when the query itself fails, the size fails with an error
/// of its own for each case.
pub proof fn lemma_size_of_mode(mode: Result<Option<Mode>, usize>)
    requires
        mode_fits(mode),
    ensures
        forall|m: Mode|
            mode == Ok::<Option<Mode>, usize>(Some(m)) && m.columns <= u16::MAX && m.rows - 2
                <= u16::MAX ==> size_spec(mode) == Ok::<Size, Error>(
                Size { width: m.columns as u16, height: (m.rows - 2) as u16 },
            ) && m.columns as u16 == m.columns && (m.rows - 2) as u16 == m.rows - 2,
        mode matches Ok(None) ==> size_spec(mode) == Err::<Size, Error>(Error::NoCurrentMode),
        mode matches Err(status) ==> size_spec(mode) == Err::<Size, Error>(
            Error::GetCurrentMode { status },
        ),
{
}

/// The drawable size for the console's answer to the mode query.
pub fn size_from_mode(mode: Result<Option<Mode>, usize>) -> (r: Result<Size, Error>)
    requires
        mode_fits(mode),
    ensures
        r == size_spec(mode),
{
    match mode {
        Err(status) => Err(Error::GetCurrentMode { status }),
        Ok(None) => Err(Error::NoCurrentMode),
        Ok(Some(m)) => Ok(
            Size { width: m.columns as u16, height: (m.rows - RESERVED_ROWS) as u16 },
        ),
    }
}

/// The window size for the console's answer to the mode query: the drawable
/// size, with no pixel size, which the console does not report.
pub fn window_size_from_mode(mode: Result<Option<Mode>, usize>) -> (r: Result<WindowSize, Error>)
    requires
        mode_fits(mode),
    ensures
        r == (match size_spec(mode) {
            Ok(size) => Ok(WindowSize { columns_rows: size, pixels: Size { width: 0, height: 0 } }),
            Err(e) => Err(e),
        }),
{
    match size_from_mode(mode) {
        Ok(size) => Ok(WindowSize { columns_rows: size, pixels: Size { width: 0, height: 0 } }),
        Err(e) => Err(e),
    }
}

} // verus!
