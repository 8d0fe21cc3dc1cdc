//! A model of the terminal's side, and the proof that the tracker never
//! drifts from it.
//!
//! The model holds what a terminal keeps between commands as far as styled
//! text goes: its colours, its attributes and its cursor. It says how each
//! command changes them, for text that is one column wide. Against this model
//! the frame encoder is shown to do its work: when the text of a cell is
//! written, the cursor is at the cell's place and the terminal's colours and
//! attributes are the cell's; and after a frame the terminal is back in its
//! neutral state.

use crate::cell::Cell;
use crate::cell::Position;
use crate::color::WireColor;
use crate::command::Command;
use crate::escape::SgrAttributes;
use crate::modifier::lemma_diff_reaches_target;
use crate::modifier::lemma_diff_shape;
use crate::modifier::lemma_empty_diff_means_equal;
use crate::modifier::Modifier;
use crate::modifier::SgrModifiers;
use crate::style::cell_commands;
use crate::style::cells_commands;
use crate::style::draw_commands;
use crate::style::position_at;
use crate::style::state_before;
use crate::style::Capabilities;
use crate::style::StyleState;
use vstd::prelude::*;

verus! {

/// What a terminal keeps between commands.
pub struct TerminalState {
    pub fg: WireColor,
    pub bg: WireColor,
    pub underline_color: WireColor,
    pub attributes: Modifier,
    /// Where the next text goes, as far as it is known.
    pub cursor: Option<Position>,
}

/// The place right of `position`, if the row goes on.
pub open spec fn right_of(position: Position) -> Option<Position> {
    if position.x < u16::MAX {
        Some(Position { x: (position.x + 1) as u16, y: position.y })
    } else {
        None
    }
}

impl TerminalState {
    /// The terminal with default colours and no attribute; the cursor stays.
    pub open spec fn reset(self) -> TerminalState {
        TerminalState {
            fg: WireColor::Reset,
            bg: WireColor::Reset,
            underline_color: WireColor::Reset,
            attributes: Modifier { bits: 0 },
            ..self
        }
    }

    /// Whether a combined update starts with a reset: it holds the reset
    /// code, or it holds nothing at all, which is written as a bare sequence
    /// that a terminal reads as a reset.
    pub open spec fn resets(update: SgrAttributes) -> bool {
        update.modifiers.contains(SgrModifiers::RESET) || update.is_empty()
    }

    /// The terminal after one command. A combined update is read in the
    /// order in which it is written: the reset, if there is one, then the
    /// colours, then the attribute codes.
    pub open spec fn receive(self, command: Command) -> TerminalState {
        match command {
            Command::MoveTo(position) => TerminalState { cursor: Some(position), ..self },
            Command::UnderlineColor(color) => TerminalState { underline_color: color, ..self },
            Command::Attributes(update) => {
                let from = if TerminalState::resets(update) {
                    self.reset()
                } else {
                    self
                };
                TerminalState {
                    fg: match update.foreground {
                        Some(color) => color,
                        None => from.fg,
                    },
                    bg: match update.background {
                        Some(color) => color,
                        None => from.bg,
                    },
                    attributes: from.attributes.apply(update.modifiers),
                    ..from
                }
            },
            Command::Print(_) => TerminalState {
                cursor: match self.cursor {
                    Some(position) => right_of(position),
                    None => None,
                },
                ..self
            },
            Command::ResetStyle => self.reset(),
            Command::ScrollMargins { .. } => TerminalState { cursor: None, ..self },
            Command::NewLine => TerminalState { cursor: None, ..self },
            _ => self,
        }
    }

    /// The terminal after a sequence of commands.
    pub open spec fn receive_all(self, commands: Seq<Command>) -> TerminalState
        decreases commands.len(),
    {
        if commands.len() == 0 {
            self
        } else {
            self.receive_all(commands.drop_last()).receive(commands.last())
        }
    }

    /// Whether the record `state` is true of the terminal: the terminal has
    /// the colours and attributes that the record holds, and its cursor is
    /// right of the place where the record says the last cell went. The
    /// underline colour counts only where it is tracked.
    pub open spec fn shows(self, state: StyleState, capabilities: Capabilities) -> bool {
        &&& self.fg == state.fg.to_native().wire()
        &&& self.bg == state.bg.to_native().wire()
        &&& self.attributes == state.modifier
        &&& capabilities.underline_color ==> self.underline_color
            == state.underline_color.to_native().wire()
        &&& state.last_pos matches Some(last) ==> self.cursor == right_of(last)
    }

    /// Whether text written now appears as `cell` at `position`: the cursor
    /// is there, and the colours and attributes are the cell's.
    pub open spec fn ready_for(
        self,
        position: Position,
        cell: Cell,
        capabilities: Capabilities,
    ) -> bool {
        &&& self.cursor == Some(position)
        &&& self.fg == cell.fg.to_native().wire()
        &&& self.bg == cell.bg.to_native().wire()
        &&& self.attributes == cell.modifier
        &&& capabilities.underline_color ==> self.underline_color
            == cell.underline_color.to_native().wire()
    }

    /// Whether colours and attributes are those of a terminal after a reset.
    pub open spec fn is_neutral(self) -> bool {
        &&& self.fg == WireColor::Reset
        &&& self.bg == WireColor::Reset
        &&& self.underline_color == WireColor::Reset
        &&& self.attributes == Modifier { bits: 0 }
    }
}

/// Whether the attributes of every cell of `content` are a state that a
/// terminal can be in.
pub open spec fn displayable(content: Seq<(u16, u16, Cell)>) -> bool {
    forall|i: int|
        0 <= i < content.len() ==> (#[trigger] content[i]).2.modifier.wf()
            && content[i].2.modifier.exclusive()
}

/// The terminal after two sequences of commands is the terminal after the
/// first, after the second.
pub proof fn lemma_receive_concat(
    terminal: TerminalState,
    first: Seq<Command>,
    second: Seq<Command>,
)
    ensures
        terminal.receive_all(first + second) == terminal.receive_all(first).receive_all(second),
    decreases second.len(),
{
    if second.len() == 0 {
        assert(first + second =~= first);
    } else {
        assert((first + second).drop_last() =~= first + second.drop_last());
        assert((first + second).last() == second.last());
        lemma_receive_concat(terminal, first, second.drop_last());
    }
}

proof fn lemma_receive_optional(terminal: TerminalState, sent: bool, command: Command)
    ensures
        terminal.receive_all(
            if sent {
                seq![command]
            } else {
                Seq::empty()
            },
        ) == if sent {
            terminal.receive(command)
        } else {
            terminal
        },
{
    if sent {
        let one = seq![command];
        assert(one.drop_last() =~= Seq::<Command>::empty());
        assert(terminal.receive_all(one.drop_last()) == terminal);
        assert(one.last() == command);
    }
}

/// One cell, against the model: where the record is true of the terminal
/// before the cell, the terminal is ready for the cell when its text is
/// written, and the record is true of the terminal again afterwards.
pub proof fn lemma_cell_is_shown(
    terminal: TerminalState,
    state: StyleState,
    position: Position,
    cell: Cell,
    capabilities: Capabilities,
)
    requires
        terminal.shows(state, capabilities),
        state.modifier.wf(),
        state.modifier.exclusive(),
        cell.modifier.wf(),
        cell.modifier.exclusive(),
    ensures
        state.commands_for(position, cell, capabilities).last() == Command::Print(cell.symbol),
        terminal.receive_all(
            state.commands_for(position, cell, capabilities).drop_last(),
        ).ready_for(position, cell, capabilities),
        terminal.receive_all(state.commands_for(position, cell, capabilities)).shows(
            state.after(position, cell, capabilities),
            capabilities,
        ),
{
    let move_to = Command::MoveTo(position);
    let underline = Command::UnderlineColor(cell.underline_color.to_native().wire());
    let update = Command::Attributes(state.attributes_for(cell));
    let moves = if state.needs_move(position) {
        seq![move_to]
    } else {
        Seq::empty()
    };
    let underlines = if state.needs_underline_color(cell, capabilities) {
        seq![underline]
    } else {
        Seq::empty()
    };
    let updates = if !state.attributes_for(cell).is_empty() {
        seq![update]
    } else {
        Seq::empty()
    };
    let all = state.commands_for(position, cell, capabilities);
    assert(all =~= moves + underlines + updates + seq![Command::Print(cell.symbol)]);
    assert(all.drop_last() =~= moves + underlines + updates);

    let moved = terminal.receive_all(moves);
    let lined = moved.receive_all(underlines);
    let updated = lined.receive_all(updates);
    lemma_receive_optional(terminal, state.needs_move(position), move_to);
    lemma_receive_optional(moved, state.needs_underline_color(cell, capabilities), underline);
    lemma_receive_optional(lined, !state.attributes_for(cell).is_empty(), update);
    lemma_receive_concat(terminal, moves, underlines);
    lemma_receive_concat(terminal, moves + underlines, updates);
    assert(terminal.receive_all(all.drop_last()) == updated);

    lemma_diff_shape(state.modifier, cell.modifier);
    assert(!TerminalState::resets(state.attributes_for(cell)) || state.attributes_for(
        cell,
    ).is_empty());
    assert(updated.attributes == cell.modifier) by {
        if state.attributes_for(cell).is_empty() {
            lemma_empty_diff_means_equal(state.modifier, cell.modifier);
        } else {
            lemma_diff_reaches_target(state.modifier, cell.modifier);
        }
    }
    assert(updated.cursor == Some(position)) by {
        if !state.needs_move(position) {
            assert(right_of(state.last_pos->0) == Some(position));
        }
    }
    assert(updated.ready_for(position, cell, capabilities));
    assert(terminal.receive_all(all) == updated.receive(Command::Print(cell.symbol)));
}

/// A frame, against the model, cell by cell: where the record is true of the
/// terminal before the frame, it is true of it before each cell.
pub proof fn lemma_record_never_drifts(
    terminal: TerminalState,
    start: StyleState,
    content: Seq<(u16, u16, Cell)>,
    n: nat,
    capabilities: Capabilities,
)
    requires
        terminal.shows(start, capabilities),
        start.modifier.wf(),
        start.modifier.exclusive(),
        displayable(content),
        n <= content.len(),
    ensures
        terminal.receive_all(cells_commands(start, content, n, capabilities)).shows(
            state_before(start, content, n as int, capabilities),
            capabilities,
        ),
        state_before(start, content, n as int, capabilities).modifier.wf(),
        state_before(start, content, n as int, capabilities).modifier.exclusive(),
    decreases n,
{
    if n > 0 {
        lemma_record_never_drifts(terminal, start, content, (n - 1) as nat, capabilities);
        let sent = cells_commands(start, content, (n - 1) as nat, capabilities);
        let before = state_before(start, content, n - 1, capabilities);
        let cell = content[n - 1];
        lemma_receive_concat(terminal, sent, cell_commands(start, content, n - 1, capabilities));
        lemma_cell_is_shown(
            terminal.receive_all(sent),
            before,
            position_at(content, n - 1),
            cell.2,
            capabilities,
        );
        assert(before.after(position_at(content, n - 1), cell.2, capabilities) == state_before(
            start,
            content,
            n as int,
            capabilities,
        ));
    }
}

/// A frame, against the model: every cell's text is written with the cursor
/// at the cell's place and the terminal in the cell's colours and attributes.
/// The terminal must be as the record says when the frame starts, and the
/// attributes asked for must be a state that a terminal can be in.
pub proof fn lemma_frame_shows_every_cell(
    terminal: TerminalState,
    start: StyleState,
    content: Seq<(u16, u16, Cell)>,
    i: int,
    capabilities: Capabilities,
)
    requires
        terminal.shows(start, capabilities),
        start.modifier.wf(),
        start.modifier.exclusive(),
        displayable(content),
        0 <= i < content.len(),
    ensures
        cell_commands(start, content, i, capabilities).last() == Command::Print(
            content[i].2.symbol,
        ),
        terminal.receive_all(
            cells_commands(start, content, i as nat, capabilities) + cell_commands(
                start,
                content,
                i,
                capabilities,
            ).drop_last(),
        ).ready_for(position_at(content, i), content[i].2, capabilities),
{
    lemma_record_never_drifts(terminal, start, content, i as nat, capabilities);
    let sent = cells_commands(start, content, i as nat, capabilities);
    lemma_cell_is_shown(
        terminal.receive_all(sent),
        state_before(start, content, i, capabilities),
        position_at(content, i),
        content[i].2,
        capabilities,
    );
    lemma_receive_concat(
        terminal,
        sent,
        cell_commands(start, content, i, capabilities).drop_last(),
    );
}

/// After a frame the terminal has default colours and no attribute, whatever
/// the frame held and whatever state the terminal was in, so that what is
/// written next does not inherit the frame's styling; and the neutral record
/// that the encoder is left with is true of it.
pub proof fn lemma_frame_ends_neutral(
    terminal: TerminalState,
    start: StyleState,
    content: Seq<(u16, u16, Cell)>,
    capabilities: Capabilities,
)
    ensures
        terminal.receive_all(draw_commands(start, content, capabilities)).is_neutral(),
        terminal.receive_all(draw_commands(start, content, capabilities)).shows(
            StyleState::neutral(),
            capabilities,
        ),
{
    let all = draw_commands(start, content, capabilities);
    assert(all.last() == Command::ResetStyle);
}

} // verus!
