use vstd::prelude::*;

verus! {

/// The part of the screen that a clear request asks to erase.
#[derive(Clone, Copy, Debug, PartialEq, Eq, Structural)]
pub enum ClearType {
    All,
    AfterCursor,
    BeforeCursor,
    CurrentLine,
    UntilNewLine,
}

/// Why an operation of the output backend failed.
///
/// Where the firmware refused a call, `status` is the status code it returned.
#[derive(Clone, Copy, Debug, PartialEq, Eq, Structural)]
pub enum Error {
    SetCursorPosition { status: usize },
    SetColor { status: usize },
    WriteCharacter,
    Clear { status: usize },
    GetCurrentMode { status: usize },
    NoCurrentMode,
    UnsupportedClear { clear_type: ClearType },
}

} // verus!
