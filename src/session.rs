use vstd::prelude::*;
use crate::color::{background_of, foreground_of};
use crate::draw::{
    cell_commands, colors_for, failure_error, reversed, stage_error, stage_for, stage_of, Cell, Command,
    Stage,
};
use crate::error::Error;

verus! {

/// What the host does next while drawing a frame.
#[derive(Clone, Debug, PartialEq, Eq)]
pub enum Next {
    /// Make this console call and report its reply.
    Run(Command),
    /// The cell is on screen: hand over the next cell, or finish.
    CellDone,
    /// A call failed: stop drawing and return this error.
    Abort(Error),
    /// No call is waiting for a reply.
    Idle,
}

/// The state of a frame being drawn.
pub ghost struct DrawState {
    /// The kind of the call whose reply is awaited.
    pub awaiting: Option<Stage>,
    /// The calls of the current cell still to make.
    pub pending: Seq<Command>,
    /// The error that ended the frame, if one did.
    pub error: Option<Error>,
}

pub open spec fn initial_state() -> DrawState {
    DrawState { awaiting: None, pending: seq![], error: None }
}

/// Handing over a cell: its first call, unless a call is awaited or the frame
/// has already failed, in which case nothing changes and no call is made.
pub open spec fn begin_spec(s: DrawState, cell: Cell) -> (DrawState, Option<Command>) {
    if s.error is Some || s.awaiting is Some {
        (s, None)
    } else {
        let cmds = cell_commands(cell);
        (
            DrawState { awaiting: Some(stage_of(cmds[0])), pending: cmds.drop_first(), error: None },
            Some(cmds[0]),
        )
    }
}

/// Taking the reply to the awaited call: on failure the frame ends with the
/// error of that call's kind; on success the cell's next call follows, or the
/// cell is done.
pub open spec fn record_spec(s: DrawState, reply: Result<(), usize>) -> (DrawState, Next) {
    match s.awaiting {
        None => (s, Next::Idle),
        Some(stage) => match reply {
            Err(status) => {
                let e = failure_error(stage, status);
                (DrawState { awaiting: None, pending: seq![], error: Some(e) }, Next::Abort(e))
            },
            Ok(()) => if s.pending.len() == 0 {
                (DrawState { awaiting: None, ..s }, Next::CellDone)
            } else {
                (
                    DrawState {
                        awaiting: Some(stage_of(s.pending[0])),
                        pending: s.pending.drop_first(),
                        ..s
                    },
                    Next::Run(s.pending[0]),
                )
            },
        },
    }
}

/// The result of the whole frame.
pub open spec fn finish_spec(s: DrawState) -> Result<(), Error> {
    match s.error {
        Some(e) => Err(e),
        None => Ok(()),
    }
}

/// A frame that is given no cell makes no console call and succeeds.
pub proof fn lemma_empty_frame_succeeds()
    ensures
        initial_state().awaiting is None,
        record_spec(initial_state(), Ok(())) == (initial_state(), Next::Idle),
        finish_spec(initial_state()) == Ok::<(), Error>(()),
{
}

/// The colors set for a cell are its fallback-resolved foreground and
/// background, swapped exactly when the cell asks for reversed video: the
/// session asks for them right after the cursor move succeeds.
pub proof fn lemma_cell_color_pair(s: DrawState, cell: Cell)
    requires
        s.error is None,
        s.awaiting is None,
    ensures
        ({
            let (t, first) = begin_spec(s, cell);
            let (_, next) = record_spec(t, Ok(()));
            &&& first == Some(Command::SetCursor { column: cell.x as usize, row: cell.y as usize })
            &&& next == Next::Run(
                if reversed(cell.modifier) {
                    Command::SetColor {
                        foreground: background_of(cell.bg),
                        background: foreground_of(cell.fg),
                    }
                } else {
                    Command::SetColor {
                        foreground: foreground_of(cell.fg),
                        background: background_of(cell.bg),
                    }
                },
            )
        }),
{
}

/// A cell whose calls all succeed is drawn by exactly its three calls, in
/// order, and leaves the session ready for the next cell.
pub proof fn lemma_cell_drawn_in_order(s: DrawState, cell: Cell)
    requires
        s.error is None,
        s.awaiting is None,
    ensures
        ({
            let (s1, c1) = begin_spec(s, cell);
            let (s2, n2) = record_spec(s1, Ok(()));
            let (s3, n3) = record_spec(s2, Ok(()));
            let (s4, n4) = record_spec(s3, Ok(()));
            &&& c1 == Some(cell_commands(cell)[0])
            &&& n2 == Next::Run(cell_commands(cell)[1])
            &&& n3 == Next::Run(cell_commands(cell)[2])
            &&& n4 == Next::CellDone
            &&& s4.awaiting is None
            &&& s4.error is None
        }),
{
    let cmds = cell_commands(cell);
    let (s1, c1) = begin_spec(s, cell);
    assert(s1.pending =~= seq![cmds[1], cmds[2]]);
    let (s2, n2) = record_spec(s1, Ok(()));
    assert(s2.pending =~= seq![cmds[2]]);
    let (s3, n3) = record_spec(s2, Ok(()));
    assert(s3.pending.len() == 0);
}

/// When a call fails, the frame ends with the error of that call's kind, and
/// no later cell gets any call: every cell handed over afterwards is refused,
/// and the frame's result stays that error.
pub proof fn lemma_failure_ends_frame(s: DrawState, status: usize, later: Cell)
    requires
        s.awaiting is Some,
    ensures
        ({
            let e = failure_error(s.awaiting.unwrap(), status);
            let (t, next) = record_spec(s, Err(status));
            &&& next == Next::Abort(e)
            &&& begin_spec(t, later) == (t, None::<Command>)
            &&& record_spec(t, Ok(())).1 == Next::Idle
            &&& finish_spec(t) == Err::<(), Error>(e)
        }),
{
}

/// The state after handing over `cells` one after another, with no replies
/// in between.
pub open spec fn begin_each(s: DrawState, cells: Seq<Cell>) -> DrawState
    decreases cells.len(),
{
    if cells.len() == 0 {
        s
    } else {
        begin_each(begin_spec(s, cells[0]).0, cells.drop_first())
    }
}

/// Once a frame has failed, no cell of any later sequence gets a call, and
/// the state, and so the frame's result, stays as it was.
pub proof fn lemma_failed_frame_refuses_all(s: DrawState, cells: Seq<Cell>)
    requires
        s.error is Some,
    ensures
        begin_each(s, cells) == s,
        forall|i: int| 0 <= i < cells.len() ==> begin_spec(s, #[trigger] cells[i]).1 is None,
    decreases cells.len(),
{
    if cells.len() > 0 {
        lemma_failed_frame_refuses_all(s, cells.drop_first());
    }
}

/// Draws a frame cell by cell: hands out the console calls for each cell in
/// order and stops at the first call that fails.
pub struct DrawSession {
    awaiting: Option<Stage>,
    pending: Vec<Command>,
    error: Option<Error>,
}

impl View for DrawSession {
    type V = DrawState;

    closed spec fn view(&self) -> DrawState {
        DrawState { awaiting: self.awaiting, pending: self.pending@, error: self.error }
    }
}

impl DrawSession {
    /// A session for a new frame: nothing drawn, nothing failed.
    pub fn new() -> (r: DrawSession)
        ensures
            r@ == initial_state(),
    {
        DrawSession { awaiting: None, pending: Vec::new(), error: None }
    }

    /// Hands over the next cell; returns the first call to make for it.
    pub fn begin(&mut self, cell: Cell) -> (r: Option<Command>)
        ensures
            (final(self)@, r) == begin_spec(old(self)@, cell),
    {
        if self.error.is_some() || self.awaiting.is_some() {
            return None;
        }
        let (foreground, background) = colors_for(&cell);
        let first = Command::SetCursor { column: cell.x as usize, row: cell.y as usize };
        let mut pending: Vec<Command> = Vec::new();
        pending.push(Command::SetColor { foreground, background });
        pending.push(Command::Write { text: cell.symbol });
        self.awaiting = Some(Stage::Cursor);
        self.pending = pending;
        proof {
            assert(self.pending@ =~= cell_commands(cell).drop_first());
        }
        Some(first)
    }

    /// Takes the reply of the console to the call last handed out: `Err`
    /// holds the status with which the call failed.
    pub fn record(&mut self, reply: Result<(), usize>) -> (r: Next)
        ensures
            (final(self)@, r) == record_spec(old(self)@, reply),
    {
        let stage = match self.awaiting {
            None => return Next::Idle,
            Some(stage) => stage,
        };
        match reply {
            Err(status) => {
                let e = stage_error(stage, status);
                self.awaiting = None;
                self.pending = Vec::new();
                self.error = Some(e);
                proof {
                    assert(self.pending@ =~= Seq::<Command>::empty());
                }
                Next::Abort(e)
            },
            Ok(()) => {
                if self.pending.len() == 0 {
                    self.awaiting = None;
                    Next::CellDone
                } else {
                    let next = self.pending.remove(0);
                    self.awaiting = Some(stage_for(&next));
                    proof {
                        assert(self.pending@ =~= old(self)@.pending.drop_first());
                    }
                    Next::Run(next)
                }
            },
        }
    }

    /// The result of the frame: the error that ended it, or success.
    pub fn finish(&self) -> (r: Result<(), Error>)
        ensures
            r == finish_spec(self@),
    {
        match self.error {
            Some(e) => Err(e),
            None => Ok(()),
        }
    }
}

} // verus!
