//! The cursor query: a request on the output side, and on the input side a
//! wait for the one event that answers it.
//!
//! The owner of the channel writes the request, flushes, and then reads
//! until the answer is there. What to do with each thing that a read gives
//! is decided here: an event that answers the query ends the wait, any
//! other event is passed over, the end of the input aborts the query, and a
//! failure of the channel is handed to the caller as it is.

use crate::cell::Position;
use vstd::prelude::*;

verus! {

/// An event from the terminal, as far as the query has to tell events apart.
#[derive(Debug, Clone, Copy, PartialEq, Eq, Hash, Structural)]
pub enum Event {
    /// A key was pressed or released.
    Key,
    /// The mouse was moved or clicked.
    Mouse,
    /// The window was resized.
    Resize,
    /// The terminal reports where its cursor is; lines and columns are
    /// counted from one.
    PositionReport { line: u16, col: u16 },
    /// Anything else: focus changes, pasted text, other reports.
    Other,
}

/// What a read on the input side gave.
#[derive(Debug, Clone, Copy, PartialEq, Eq, Hash, Structural)]
pub enum Reading {
    /// An event.
    Event(Event),
    /// The input has ended: nothing will ever be read again.
    EndOfInput,
    /// The channel failed in another way.
    Failed,
}

/// What to do next while the answer to a cursor query is awaited.
#[derive(Debug, Clone, Copy, PartialEq, Eq, Hash, Structural)]
pub enum QueryStep {
    /// The answer is there: the cursor is at this place.
    Done(Position),
    /// The event is not the answer: pass it over and read on.
    ReadOn,
    /// No answer can come any more. The query is given up for good; there
    /// is no place to report, and none is made up.
    Abort,
    /// Hand the channel's failure to the caller, unchanged.
    Fail,
}

impl Event {
    /// Whether the event answers a cursor query: it is a position report that
    /// names a line and a column, both of which start at one.
    pub open spec fn spec_is_position_report(&self) -> bool {
        self matches Event::PositionReport { line, col } && line >= 1 && col >= 1
    }

    /// The place that a position report names, counted from zero.
    pub open spec fn reported_position(self) -> Position
        recommends
            self.is_position_report(),
    {
        Position { x: (self->col - 1) as u16, y: (self->line - 1) as u16 }
    }

    /// Whether the event answers a cursor query.
    #[verifier::when_used_as_spec(spec_is_position_report)]
    pub fn is_position_report(&self) -> (yes: bool)
        ensures
            yes == self.spec_is_position_report(),
    {
        match self {
            Event::PositionReport { line, col } => *line >= 1 && *col >= 1,
            _ => false,
        }
    }
}

/// The place that an event reports the cursor at, if the event answers a
/// cursor query; an event that does not is to be passed over.
pub fn cursor_position(event: &Event) -> (position: Option<Position>)
    ensures
        position is Some <==> event.is_position_report(),
        position matches Some(at) ==> at == event.reported_position(),
{
    match event {
        Event::PositionReport { line, col } => {
            if *line >= 1 && *col >= 1 {
                Some(Position { x: *col - 1, y: *line - 1 })
            } else {
                None
            }
        },
        _ => None,
    }
}

/// Decides what to do with what a read gave while the answer to a cursor
/// query is awaited.
pub fn query_step(reading: &Reading) -> (step: QueryStep)
    ensures
        step == match *reading {
            Reading::Event(event) => if event.is_position_report() {
                QueryStep::Done(event.reported_position())
            } else {
                QueryStep::ReadOn
            },
            Reading::EndOfInput => QueryStep::Abort,
            Reading::Failed => QueryStep::Fail,
        },
{
    match reading {
        Reading::Event(event) => match cursor_position(event) {
            Some(position) => QueryStep::Done(position),
            None => QueryStep::ReadOn,
        },
        Reading::EndOfInput => QueryStep::Abort,
        Reading::Failed => QueryStep::Fail,
    }
}

/// The place that a report names is the place that a move to it names: a
/// cursor put at an addressable place and then asked for reports that place.
pub proof fn lemma_report_names_place(position: Position)
    requires
        position.addressable(),
    ensures
        (Event::PositionReport {
            line: (position.y + 1) as u16,
            col: (position.x + 1) as u16,
        }).is_position_report(),
        (Event::PositionReport {
            line: (position.y + 1) as u16,
            col: (position.x + 1) as u16,
        }).reported_position() == position,
{
}

} // verus!
