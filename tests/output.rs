use uefi_tui::color::{background_color, foreground_color, to_uefi_color, Color, NativeColor};
use uefi_tui::console::{
    call_result, clear_command, clear_region_command, cursor_command, cursor_position,
    cursor_visibility_result, size_from_mode, window_size_from_mode, Mode, Position, Size,
    WindowSize,
};
use uefi_tui::draw::{colors_for, stage_error, stage_for, Cell, Command, Stage, REVERSED};
use uefi_tui::error::{ClearType, Error};
use uefi_tui::session::{DrawSession, Next};

fn cell(x: u16, y: u16, fg: Color, bg: Color, modifier: u16, symbol: &str) -> Cell {
    Cell { x, y, fg, bg, modifier, symbol: symbol.to_string() }
}

#[test]
fn unrepresentable_colors_are_unmapped() {
    assert_eq!(to_uefi_color(Color::Rgb(10, 20, 30)), None);
    assert_eq!(to_uefi_color(Color::Indexed(42)), None);
    assert_eq!(to_uefi_color(Color::Reset), None);
}

#[test]
fn color_table_is_fixed() {
    let table = [
        (Color::Black, NativeColor::Black),
        (Color::Red, NativeColor::Red),
        (Color::Green, NativeColor::Green),
        (Color::Yellow, NativeColor::Yellow),
        (Color::Blue, NativeColor::Blue),
        (Color::Magenta, NativeColor::Magenta),
        (Color::Cyan, NativeColor::Cyan),
        (Color::Gray, NativeColor::LightGray),
        (Color::DarkGray, NativeColor::DarkGray),
        (Color::LightRed, NativeColor::LightRed),
        (Color::LightGreen, NativeColor::LightGreen),
        (Color::LightYellow, NativeColor::Yellow),
        (Color::LightBlue, NativeColor::LightBlue),
        (Color::LightMagenta, NativeColor::LightMagenta),
        (Color::LightCyan, NativeColor::LightCyan),
        (Color::White, NativeColor::White),
    ];
    for (color, native) in table {
        assert_eq!(to_uefi_color(color), Some(native));
    }
}

#[test]
fn unmapped_colors_fall_back() {
    assert_eq!(foreground_color(Color::Reset), NativeColor::White);
    assert_eq!(background_color(Color::Rgb(1, 2, 3)), NativeColor::Black);
    assert_eq!(foreground_color(Color::Blue), NativeColor::Blue);
    assert_eq!(background_color(Color::Gray), NativeColor::LightGray);
}

#[test]
fn reversed_cell_swaps_colors() {
    let plain = cell(0, 0, Color::Red, Color::Black, 0, "H");
    let reversed = cell(0, 0, Color::Red, Color::Black, REVERSED, "H");
    let bold = cell(0, 0, Color::Red, Color::Black, 0x01, "H");
    assert_eq!(colors_for(&plain), (NativeColor::Red, NativeColor::Black));
    assert_eq!(colors_for(&reversed), (NativeColor::Black, NativeColor::Red));
    assert_eq!(colors_for(&bold), (NativeColor::Red, NativeColor::Black));
    let reset = cell(0, 0, Color::Reset, Color::Indexed(3), REVERSED | 0x01, "x");
    assert_eq!(colors_for(&reset), (NativeColor::Black, NativeColor::White));
}

#[test]
fn single_cell_draw_calls() {
    let mut session = DrawSession::new();
    let first = session.begin(cell(0, 0, Color::Red, Color::Black, 0, "H"));
    assert_eq!(first, Some(Command::SetCursor { column: 0, row: 0 }));
    assert_eq!(
        session.record(Ok(())),
        Next::Run(Command::SetColor { foreground: NativeColor::Red, background: NativeColor::Black })
    );
    assert_eq!(session.record(Ok(())), Next::Run(Command::Write { text: "H".to_string() }));
    assert_eq!(session.record(Ok(())), Next::CellDone);
    assert_eq!(session.finish(), Ok(()));
}

#[test]
fn single_reversed_cell_draw_calls() {
    let mut session = DrawSession::new();
    let first = session.begin(cell(0, 0, Color::Red, Color::Black, REVERSED, "H"));
    assert_eq!(first, Some(Command::SetCursor { column: 0, row: 0 }));
    assert_eq!(
        session.record(Ok(())),
        Next::Run(Command::SetColor { foreground: NativeColor::Black, background: NativeColor::Red })
    );
    assert_eq!(session.record(Ok(())), Next::Run(Command::Write { text: "H".to_string() }));
    assert_eq!(session.record(Ok(())), Next::CellDone);
}

#[test]
fn empty_frame_makes_no_calls() {
    let mut session = DrawSession::new();
    assert_eq!(session.record(Ok(())), Next::Idle);
    assert_eq!(session.finish(), Ok(()));
}

#[test]
fn failure_aborts_frame() {
    let mut session = DrawSession::new();
    assert_eq!(
        session.begin(cell(3, 1, Color::Green, Color::Blue, 0, "a")),
        Some(Command::SetCursor { column: 3, row: 1 })
    );
    assert!(matches!(session.record(Ok(())), Next::Run(Command::SetColor { .. })));
    assert!(matches!(session.record(Ok(())), Next::Run(Command::Write { .. })));
    assert_eq!(session.record(Ok(())), Next::CellDone);
    assert_eq!(
        session.begin(cell(4, 1, Color::Green, Color::Blue, 0, "b")),
        Some(Command::SetCursor { column: 4, row: 1 })
    );
    assert!(matches!(session.record(Ok(())), Next::Run(Command::SetColor { .. })));
    assert_eq!(session.record(Err(7)), Next::Abort(Error::SetColor { status: 7 }));
    assert_eq!(session.begin(cell(5, 1, Color::Green, Color::Blue, 0, "c")), None);
    assert_eq!(session.record(Ok(())), Next::Idle);
    assert_eq!(session.finish(), Err(Error::SetColor { status: 7 }));
}

#[test]
fn each_step_has_its_error() {
    let mut cursor = DrawSession::new();
    cursor.begin(cell(90, 0, Color::White, Color::Black, 0, "z"));
    assert_eq!(cursor.record(Err(2)), Next::Abort(Error::SetCursorPosition { status: 2 }));
    assert_eq!(cursor.finish(), Err(Error::SetCursorPosition { status: 2 }));

    let mut write = DrawSession::new();
    write.begin(cell(0, 0, Color::White, Color::Black, 0, "z"));
    write.record(Ok(()));
    write.record(Ok(()));
    assert_eq!(write.record(Err(5)), Next::Abort(Error::WriteCharacter));
    assert_eq!(write.finish(), Err(Error::WriteCharacter));
}

#[test]
fn second_begin_before_reply_is_refused() {
    let mut session = DrawSession::new();
    assert!(session.begin(cell(0, 0, Color::White, Color::Black, 0, "a")).is_some());
    assert_eq!(session.begin(cell(1, 0, Color::White, Color::Black, 0, "b")), None);
    assert_eq!(
        session.record(Ok(())),
        Next::Run(Command::SetColor { foreground: NativeColor::White, background: NativeColor::Black })
    );
}

#[test]
fn stage_errors() {
    assert_eq!(stage_error(Stage::Cursor, 1), Error::SetCursorPosition { status: 1 });
    assert_eq!(stage_error(Stage::Color, 2), Error::SetColor { status: 2 });
    assert_eq!(stage_error(Stage::Write, 3), Error::WriteCharacter);
    assert_eq!(stage_error(Stage::Clear, 4), Error::Clear { status: 4 });
}

#[test]
fn clear_region_all_is_clear() {
    assert_eq!(clear_region_command(ClearType::All), Ok(clear_command()));
    assert_eq!(clear_command(), Command::Clear);
    assert_eq!(call_result(&Command::Clear, Ok(())), Ok(()));
    assert_eq!(call_result(&Command::Clear, Err(9)), Err(Error::Clear { status: 9 }));
}

#[test]
fn clear_region_other_kinds_fail() {
    for kind in [
        ClearType::AfterCursor,
        ClearType::BeforeCursor,
        ClearType::CurrentLine,
        ClearType::UntilNewLine,
    ] {
        assert_eq!(clear_region_command(kind), Err(Error::UnsupportedClear { clear_type: kind }));
    }
}

#[test]
fn cursor_calls() {
    assert_eq!(
        cursor_command(Position { x: 12, y: 4 }),
        Command::SetCursor { column: 12, row: 4 }
    );
    let cmd = cursor_command(Position { x: 200, y: 100 });
    assert_eq!(call_result(&cmd, Err(2)), Err(Error::SetCursorPosition { status: 2 }));
    assert_eq!(cursor_position(7, 9), Position { x: 7, y: 9 });
    assert_eq!(cursor_position(65536 + 3, 1), Position { x: 3, y: 1 });
}

#[test]
fn cursor_visibility_never_fails() {
    assert_eq!(cursor_visibility_result(Ok(())), Ok(()));
    assert_eq!(cursor_visibility_result(Err(3)), Ok(()));
}

#[test]
fn size_of_80_by_25_mode() {
    let mode = Ok(Some(Mode { columns: 80, rows: 25 }));
    assert_eq!(size_from_mode(mode), Ok(Size { width: 80, height: 23 }));
    assert_eq!(
        window_size_from_mode(mode),
        Ok(WindowSize {
            columns_rows: Size { width: 80, height: 23 },
            pixels: Size { width: 0, height: 0 },
        })
    );
}

#[test]
fn size_without_mode_fails() {
    assert_eq!(size_from_mode(Ok(None)), Err(Error::NoCurrentMode));
    assert_eq!(size_from_mode(Err(3)), Err(Error::GetCurrentMode { status: 3 }));
    assert_eq!(window_size_from_mode(Ok(None)), Err(Error::NoCurrentMode));
    assert_eq!(size_from_mode(Ok(Some(Mode { columns: 100, rows: 2 }))), Ok(Size { width: 100, height: 0 }));
}

#[test]
fn command_stages() {
    assert_eq!(stage_for(&Command::SetCursor { column: 1, row: 2 }), Stage::Cursor);
    let color = Command::SetColor { foreground: NativeColor::Brown, background: NativeColor::Black };
    assert_eq!(stage_for(&color), Stage::Color);
    assert_eq!(stage_for(&Command::Write { text: "q".to_string() }), Stage::Write);
    assert_eq!(stage_for(&Command::Clear), Stage::Clear);
    assert_eq!(call_result(&color, Err(4)), Err(Error::SetColor { status: 4 }));
}
