use vstd::prelude::*;

verus! {

/// A key as the firmware console reports it: a printable character, or a
/// special key given by its scan code.
#[derive(Clone, Copy, Debug, PartialEq, Eq, Structural)]
pub enum Key {
    Printable(char),
    Special(u16),
}

pub const SCAN_UP: u16 = 0x01;
pub const SCAN_DOWN: u16 = 0x02;
pub const SCAN_RIGHT: u16 = 0x03;
pub const SCAN_LEFT: u16 = 0x04;
pub const SCAN_HOME: u16 = 0x05;
pub const SCAN_END: u16 = 0x06;
pub const SCAN_INSERT: u16 = 0x07;
pub const SCAN_DELETE: u16 = 0x08;
pub const SCAN_PAGE_UP: u16 = 0x09;
pub const SCAN_PAGE_DOWN: u16 = 0x0A;
/// Function keys 1 to 12 have the scan codes from this one on, in order.
pub const SCAN_FUNCTION_1: u16 = 0x0B;
pub const SCAN_FUNCTION_12: u16 = 0x16;
pub const SCAN_ESCAPE: u16 = 0x17;
pub const SCAN_MUTE: u16 = 0x7F;
pub const SCAN_VOLUME_UP: u16 = 0x80;
pub const SCAN_VOLUME_DOWN: u16 = 0x81;

/// A media key of the key-event model.
#[derive(Clone, Copy, Debug, PartialEq, Eq, Structural)]
pub enum MediaKeyCode {
    LowerVolume,
    RaiseVolume,
    MuteVolume,
}

/// The key codes of the key-event model that the console can produce.
#[derive(Clone, Copy, Debug, PartialEq, Eq, Structural)]
pub enum KeyCode {
    Enter,
    Left,
    Right,
    Up,
    Down,
    Home,
    End,
    PageUp,
    PageDown,
    Delete,
    Insert,
    F(u8),
    Char(char),
    Esc,
    Media(MediaKeyCode),
}

/// Whether a key event is a press, a repeat or a release.
#[derive(Clone, Copy, Debug, PartialEq, Eq, Structural)]
pub enum KeyEventKind {
    Press,
    Repeat,
    Release,
}

/// A key event. `modifiers` and `state` are bit sets as terminput lays them
/// out; zero is the empty set.
#[derive(Clone, Copy, Debug, PartialEq, Eq, Structural)]
pub struct KeyEvent {
    pub code: KeyCode,
    pub modifiers: u8,
    pub kind: KeyEventKind,
    pub state: u8,
}

/// The key code for a special key's scan code, if the table has one.
pub open spec fn special_code(scan: u16) -> Option<KeyCode> {
    if scan == SCAN_ESCAPE {
        Some(KeyCode::Esc)
    } else if scan == SCAN_UP {
        Some(KeyCode::Up)
    } else if scan == SCAN_DOWN {
        Some(KeyCode::Down)
    } else if scan == SCAN_LEFT {
        Some(KeyCode::Left)
    } else if scan == SCAN_RIGHT {
        Some(KeyCode::Right)
    } else if scan == SCAN_PAGE_UP {
        Some(KeyCode::PageUp)
    } else if scan == SCAN_PAGE_DOWN {
        Some(KeyCode::PageDown)
    } else if scan == SCAN_HOME {
        Some(KeyCode::Home)
    } else if scan == SCAN_END {
        Some(KeyCode::End)
    } else if scan == SCAN_INSERT {
        Some(KeyCode::Insert)
    } else if scan == SCAN_DELETE {
        Some(KeyCode::Delete)
    } else if SCAN_FUNCTION_1 <= scan <= SCAN_FUNCTION_12 {
        Some(KeyCode::F((scan - SCAN_FUNCTION_1 + 1) as u8))
    } else if scan == SCAN_MUTE {
        Some(KeyCode::Media(MediaKeyCode::MuteVolume))
    } else if scan == SCAN_VOLUME_UP {
        Some(KeyCode::Media(MediaKeyCode::RaiseVolume))
    } else if scan == SCAN_VOLUME_DOWN {
        Some(KeyCode::Media(MediaKeyCode::LowerVolume))
    } else {
        None
    }
}

/// The key code for a key: a carriage return is Enter, any other printable
/// character is itself, and a special key goes by the scan-code table.
pub open spec fn key_code_of(key: Key) -> Option<KeyCode> {
    match key {
        Key::Printable(c) => if c == '\r' {
            Some(KeyCode::Enter)
        } else {
            Some(KeyCode::Char(c))
        },
        Key::Special(scan) => special_code(scan),
    }
}

/// A press of `code`, with no modifiers and no state: the console reports
/// neither, nor releases or repeats.
pub open spec fn press(code: KeyCode) -> KeyEvent {
    KeyEvent { code, modifiers: 0, kind: KeyEventKind::Press, state: 0 }
}

/// The event for what one key read returned: no event where no key was
/// read or the key has no code.
pub open spec fn key_event_of(key: Option<Key>) -> Option<KeyEvent> {
    match key {
        Some(k) => match key_code_of(k) {
            Some(code) => Some(press(code)),
            None => None,
        },
        None => None,
    }
}

/// The key code for a special key's scan code, if the table has one.
pub fn special_key_code(scan: u16) -> (r: Option<KeyCode>)
    ensures
        r == special_code(scan),
{
    if scan == SCAN_ESCAPE {
        Some(KeyCode::Esc)
    } else if scan == SCAN_UP {
        Some(KeyCode::Up)
    } else if scan == SCAN_DOWN {
        Some(KeyCode::Down)
    } else if scan == SCAN_LEFT {
        Some(KeyCode::Left)
    } else if scan == SCAN_RIGHT {
        Some(KeyCode::Right)
    } else if scan == SCAN_PAGE_UP {
        Some(KeyCode::PageUp)
    } else if scan == SCAN_PAGE_DOWN {
        Some(KeyCode::PageDown)
    } else if scan == SCAN_HOME {
        Some(KeyCode::Home)
    } else if scan == SCAN_END {
        Some(KeyCode::End)
    } else if scan == SCAN_INSERT {
        Some(KeyCode::Insert)
    } else if scan == SCAN_DELETE {
        Some(KeyCode::Delete)
    } else if SCAN_FUNCTION_1 <= scan && scan <= SCAN_FUNCTION_12 {
        Some(KeyCode::F((scan - SCAN_FUNCTION_1 + 1) as u8))
    } else if scan == SCAN_MUTE {
        Some(KeyCode::Media(MediaKeyCode::MuteVolume))
    } else if scan == SCAN_VOLUME_UP {
        Some(KeyCode::Media(MediaKeyCode::RaiseVolume))
    } else if scan == SCAN_VOLUME_DOWN {
        Some(KeyCode::Media(MediaKeyCode::LowerVolume))
    } else {
        None
    }
}

/// The key code for a key read from the console.
pub fn key_code(key: Key) -> (r: Option<KeyCode>)
    ensures
        r == key_code_of(key),
{
    match key {
        Key::Printable(c) => if c == '\r' {
            Some(KeyCode::Enter)
        } else {
            Some(KeyCode::Char(c))
        },
        Key::Special(scan) => special_key_code(scan),
    }
}

/// The event for what one key read returned.
pub fn key_event(key: Option<Key>) -> (r: Option<KeyEvent>)
    ensures
        r == key_event_of(key),
{
    match key {
        Some(k) => match key_code(k) {
            Some(code) => Some(KeyEvent { code, modifiers: 0, kind: KeyEventKind::Press, state: 0 }),
            None => None,
        },
        None => None,
    }
}

/// The outcome of one key read: the status with which the read failed, or
/// the event for the key it returned.
pub open spec fn outcome_of(read: Result<Option<Key>, usize>) -> Result<Option<KeyEvent>, usize> {
    match read {
        Ok(key) => Ok(key_event_of(key)),
        Err(status) => Err(status),
    }
}

/// A read fails only where the console's key read failed; a read that
/// returned no key, or a special key outside the table, gives no event.
pub proof fn lemma_read_fails_only_on_read_failure(read: Result<Option<Key>, usize>, scan: u16)
    ensures
        outcome_of(read) is Err <==> read is Err,
        outcome_of(Ok(None)) == Ok::<Option<KeyEvent>, usize>(None),
        special_code(scan) is None ==> outcome_of(Ok(Some(Key::Special(scan))))
            == Ok::<Option<KeyEvent>, usize>(None),
{
}

/// A carriage return is Enter, a special key in the table is its named key,
/// and every event produced is a press with no modifiers and no state.
pub proof fn lemma_key_events(key: Option<Key>)
    ensures
        key_event_of(Some(Key::Printable('\r'))) == Some(press(KeyCode::Enter)),
        key_event_of(Some(Key::Special(SCAN_UP))) == Some(press(KeyCode::Up)),
        key_event_of(Some(Key::Special(SCAN_PAGE_DOWN))) == Some(press(KeyCode::PageDown)),
        key_event_of(key) matches Some(e) ==> e.kind == KeyEventKind::Press && e.modifiers == 0
            && e.state == 0,
        key matches Some(Key::Special(scan)) ==> (key_event_of(key) is Some <==> special_code(
            scan,
        ) is Some),
{
}

/// The outcome of one key read: the status with which the read failed, or
/// the event for the key it returned.
pub fn read_outcome(read: Result<Option<Key>, usize>) -> (r: Result<Option<KeyEvent>, usize>)
    ensures
        r == outcome_of(read),
{
    match read {
        Ok(key) => Ok(key_event(key)),
        Err(status) => Err(status),
    }
}

} // verus!
