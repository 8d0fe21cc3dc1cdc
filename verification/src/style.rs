//! The style tracker and the frame encoder.
//!
//! A [`StyleState`] records what the terminal was last told: its colours, its
//! attributes, and where the cursor was left. Each changed cell is compared
//! with that record, and only what differs is sent: the cursor is moved only
//! where the cell does not follow the one before it, and a style is set only
//! where it is not in effect already.

use crate::cell::Cell;
use crate::cell::Position;
use crate::color::Color;
use crate::color::IntoTermina;
use crate::command::all_encodable;
use crate::command::Command;
use crate::escape::SgrAttributes;
use crate::modifier::diff;
use crate::modifier::diff_modifiers;
use crate::modifier::lemma_diff_of_equal_is_empty;
use crate::modifier::Modifier;
use crate::modifier::SgrModifiers;
use vstd::prelude::*;

verus! {

/// What the terminal at hand supports beyond the common protocol.
#[derive(Debug, Clone, Copy, PartialEq, Eq, Hash, Structural)]
pub struct Capabilities {
    /// Underlines can have a colour of their own.
    pub underline_color: bool,
    /// Scrolling can be confined to a range of rows.
    pub scrolling_regions: bool,
}

/// What the terminal was last told.
#[derive(Debug, Clone, Copy, PartialEq, Eq, Hash, Structural)]
pub struct StyleState {
    pub fg: Color,
    pub bg: Color,
    pub underline_color: Color,
    pub modifier: Modifier,
    /// Where the last cell was written, if the cursor has not been left
    /// elsewhere since.
    pub last_pos: Option<Position>,
}

impl StyleState {
    /// The state of a terminal after a reset: default colours, no attribute,
    /// and nothing known about the cursor.
    pub open spec fn neutral() -> StyleState {
        StyleState {
            fg: Color::Reset,
            bg: Color::Reset,
            underline_color: Color::Reset,
            modifier: Modifier { bits: 0 },
            last_pos: None,
        }
    }

    /// Whether the cursor has to be moved before a cell is written at `position`:
    /// not where the cell before it was written just left of it.
    pub open spec fn needs_move(self, position: Position) -> bool {
        !(self.last_pos matches Some(last) && position.follows(last))
    }

    /// The combined update that brings colours and attributes to those of
    /// `cell`: each colour only where it differs from the one in effect, and
    /// the attribute codes that lead from the attributes in effect to the
    /// cell's.
    pub open spec fn attributes_for(self, cell: Cell) -> SgrAttributes {
        SgrAttributes {
            foreground: if cell.fg != self.fg {
                Some(cell.fg.to_native().wire())
            } else {
                None
            },
            background: if cell.bg != self.bg {
                Some(cell.bg.to_native().wire())
            } else {
                None
            },
            modifiers: diff(self.modifier, cell.modifier),
        }
    }

    /// Whether the underline colour has to be set before `cell` is written.
    pub open spec fn needs_underline_color(self, cell: Cell, capabilities: Capabilities) -> bool {
        capabilities.underline_color && cell.underline_color != self.underline_color
    }

    /// What is sent for one cell: the cursor's move where one is needed, the
    /// underline colour where it changes, the combined update unless it is
    /// empty, and the cell's text last.
    pub open spec fn commands_for(
        self,
        position: Position,
        cell: Cell,
        capabilities: Capabilities,
    ) -> Seq<Command> {
        let to_position = if self.needs_move(position) {
            seq![Command::MoveTo(position)]
        } else {
            Seq::empty()
        };
        let underline = if self.needs_underline_color(cell, capabilities) {
            seq![Command::UnderlineColor(cell.underline_color.to_native().wire())]
        } else {
            Seq::empty()
        };
        let attributes = if !self.attributes_for(cell).is_empty() {
            seq![Command::Attributes(self.attributes_for(cell))]
        } else {
            Seq::empty()
        };
        to_position + underline + attributes + seq![Command::Print(cell.symbol)]
    }

    /// What the terminal has been told once `cell` is written at `position`.
    /// The underline colour is tracked only where the terminal supports it.
    pub open spec fn after(
        self,
        position: Position,
        cell: Cell,
        capabilities: Capabilities,
    ) -> StyleState {
        StyleState {
            fg: cell.fg,
            bg: cell.bg,
            underline_color: if capabilities.underline_color {
                cell.underline_color
            } else {
                self.underline_color
            },
            modifier: cell.modifier,
            last_pos: Some(position),
        }
    }

    /// The state of a terminal after a reset.
    pub fn new() -> (state: StyleState)
        ensures
            state == StyleState::neutral(),
    {
        StyleState {
            fg: Color::Reset,
            bg: Color::Reset,
            underline_color: Color::Reset,
            modifier: Modifier::empty(),
            last_pos: None,
        }
    }

    /// Decides what to send for one changed cell, and records it as sent.
    pub fn advance(&mut self, position: Position, cell: &Cell, capabilities: Capabilities) -> (commands:
        Vec<Command>)
        ensures
            commands@ == old(self).commands_for(position, *cell, capabilities),
            *final(self) == old(self).after(position, *cell, capabilities),
            old(self).needs_move(position) ==> position.addressable() ==> all_encodable(commands@),
            !old(self).needs_move(position) ==> all_encodable(commands@),
    {
        let mut commands: Vec<Command> = Vec::new();

        let follows = match self.last_pos {
            Some(last) => position.follows(last),
            None => false,
        };
        if !follows {
            commands.push(Command::MoveTo(position));
        }
        self.last_pos = Some(position);

        let mut attributes = SgrAttributes {
            foreground: None,
            background: None,
            modifiers: SgrModifiers::empty(),
        };
        if cell.fg != self.fg {
            attributes.foreground = Some(cell.fg.into_termina().wire());
            self.fg = cell.fg;
        }
        if cell.bg != self.bg {
            attributes.background = Some(cell.bg.into_termina().wire());
            self.bg = cell.bg;
        }
        if cell.modifier != self.modifier {
            attributes.modifiers = diff_modifiers(self.modifier, cell.modifier);
            self.modifier = cell.modifier;
        } else {
            proof {
                lemma_diff_of_equal_is_empty(cell.modifier);
            }
        }
        if capabilities.underline_color && cell.underline_color != self.underline_color {
            commands.push(Command::UnderlineColor(cell.underline_color.into_termina().wire()));
            self.underline_color = cell.underline_color;
        }
        if !attributes.is_empty() {
            commands.push(Command::Attributes(attributes));
        }
        commands.push(Command::Print(cell.symbol.clone()));

        assert(commands@ =~= old(self).commands_for(position, *cell, capabilities));
        commands
    }

    /// Resets the record, as the terminal is reset by [`Command::ResetStyle`].
    pub fn reset(&mut self)
        ensures
            *final(self) == StyleState::neutral(),
    {
        *self = StyleState::new();
    }
}

/// The place of the `i`-th entry of `content`.
pub open spec fn position_at(content: Seq<(u16, u16, Cell)>, i: int) -> Position {
    Position { x: content[i].0, y: content[i].1 }
}

/// What the terminal has been told when the `i`-th cell of `content` is about
/// to be written, from `start` on: `start` itself before the first cell, and
/// after that what the cell just before has left.
pub open spec fn state_before(
    start: StyleState,
    content: Seq<(u16, u16, Cell)>,
    i: int,
    capabilities: Capabilities,
) -> StyleState {
    if i <= 0 {
        start
    } else {
        start.after(position_at(content, i - 1), content[i - 1].2, capabilities)
    }
}

/// What is sent for the `i`-th cell of `content`.
pub open spec fn cell_commands(
    start: StyleState,
    content: Seq<(u16, u16, Cell)>,
    i: int,
    capabilities: Capabilities,
) -> Seq<Command> {
    state_before(start, content, i, capabilities).commands_for(
        position_at(content, i),
        content[i].2,
        capabilities,
    )
}

/// What is sent for the first `n` cells of `content`.
pub open spec fn cells_commands(
    start: StyleState,
    content: Seq<(u16, u16, Cell)>,
    n: nat,
    capabilities: Capabilities,
) -> Seq<Command>
    decreases n,
{
    if n == 0 {
        Seq::empty()
    } else {
        cells_commands(start, content, (n - 1) as nat, capabilities) + cell_commands(
            start,
            content,
            n - 1,
            capabilities,
        )
    }
}

/// What is sent for a frame: what is sent for each of its cells, in order,
/// and one reset of the style at the end.
pub open spec fn draw_commands(
    start: StyleState,
    content: Seq<(u16, u16, Cell)>,
    capabilities: Capabilities,
) -> Seq<Command> {
    cells_commands(start, content, content.len(), capabilities) + seq![Command::ResetStyle]
}

/// Whether a frame can be sent: every cell that the cursor has to be moved to
/// lies at a place that the protocol can name.
pub open spec fn drawable(start: StyleState, content: Seq<(u16, u16, Cell)>) -> bool {
    forall|i: int|
        0 <= i < content.len() ==> #[trigger] needs_move_at(start, content, i) ==> position_at(
            content,
            i,
        ).addressable()
}

/// Whether the cursor has to be moved before the `i`-th cell of `content` is
/// written.
pub open spec fn needs_move_at(start: StyleState, content: Seq<(u16, u16, Cell)>, i: int) -> bool {
    if i <= 0 {
        start.needs_move(position_at(content, i))
    } else {
        !position_at(content, i).follows(position_at(content, i - 1))
    }
}

/// Whether a frame can be sent.
pub fn can_draw(start: &StyleState, content: &Vec<(u16, u16, Cell)>) -> (yes: bool)
    ensures
        yes == drawable(*start, content@),
{
    let mut last = start.last_pos;
    let mut i: usize = 0;
    while i < content.len()
        invariant
            i <= content.len(),
            last == if i == 0 {
                start.last_pos
            } else {
                Some(position_at(content@, i - 1))
            },
            forall|j: int|
                0 <= j < i ==> #[trigger] needs_move_at(*start, content@, j) ==> position_at(
                    content@,
                    j,
                ).addressable(),
        decreases content.len() - i,
    {
        let position = Position::new(content[i].0, content[i].1);
        let follows = match last {
            Some(before) => position.follows(before),
            None => false,
        };
        assert(follows == !needs_move_at(*start, content@, i as int));
        if !follows && !position.addressable() {
            return false;
        }
        last = Some(position);
        i += 1;
    }
    true
}

/// Decides what to send for a frame of changed cells, from the state that
/// `state` records, and leaves the record as the final reset leaves the
/// terminal.
pub fn plan_draw(state: &mut StyleState, content: &Vec<(u16, u16, Cell)>, capabilities: Capabilities) -> (commands:
    Vec<Command>)
    ensures
        commands@ == draw_commands(*old(state), content@, capabilities),
        *final(state) == StyleState::neutral(),
        drawable(*old(state), content@) ==> all_encodable(commands@),
{
    let ghost start = *state;
    let mut commands: Vec<Command> = Vec::new();
    let mut i: usize = 0;
    while i < content.len()
        invariant
            i <= content.len(),
            *state == state_before(start, content@, i as int, capabilities),
            commands@ == cells_commands(start, content@, i as nat, capabilities),
            drawable(start, content@) ==> all_encodable(commands@),
        decreases content.len() - i,
    {
        let position = Position::new(content[i].0, content[i].1);
        let ghost before = *state;
        let ghost sent = commands@;
        let mut part = state.advance(position, &content[i].2, capabilities);
        proof {
            assert(part@ == cell_commands(start, content@, i as int, capabilities));
            assert(before.needs_move(position) == needs_move_at(start, content@, i as int));
            assert(drawable(start, content@) ==> all_encodable(part@));
            assert(drawable(start, content@) ==> all_encodable(sent + part@));
        }
        commands.append(&mut part);
        i += 1;
    }
    commands.push(Command::ResetStyle);
    state.reset();
    commands
}

/// The number of cursor moves among `commands`.
pub open spec fn count_moves(commands: Seq<Command>) -> nat
    decreases commands.len(),
{
    if commands.len() == 0 {
        0
    } else {
        count_moves(commands.drop_last()) + if commands.last() is MoveTo {
            1nat
        } else {
            0nat
        }
    }
}

/// Whether every cell of `content` but the first lies just right of the cell
/// before it, on the same row.
pub open spec fn contiguous(content: Seq<(u16, u16, Cell)>) -> bool {
    forall|i: int|
        1 <= i < content.len() ==> (#[trigger] position_at(content, i)).follows(
            position_at(content, i - 1),
        )
}

/// The cursor moves of two sequences of commands add up.
pub proof fn lemma_count_moves_concat(first: Seq<Command>, second: Seq<Command>)
    ensures
        count_moves(first + second) == count_moves(first) + count_moves(second),
    decreases second.len(),
{
    if second.len() == 0 {
        assert(first + second =~= first);
    } else {
        assert((first + second).drop_last() =~= first + second.drop_last());
        assert((first + second).last() == second.last());
        lemma_count_moves_concat(first, second.drop_last());
    }
}

/// One cell takes one cursor move where the cursor has to be moved, and none
/// where it has not; the move, if any, comes first.
pub proof fn lemma_cell_moves(
    state: StyleState,
    position: Position,
    cell: Cell,
    capabilities: Capabilities,
)
    ensures
        count_moves(state.commands_for(position, cell, capabilities)) == if state.needs_move(
            position,
        ) {
            1nat
        } else {
            0nat
        },
        state.needs_move(position) ==> state.commands_for(position, cell, capabilities)[0]
            == Command::MoveTo(position),
        state.commands_for(position, cell, capabilities).len() >= 1,
{
    let to_position = if state.needs_move(position) {
        seq![Command::MoveTo(position)]
    } else {
        Seq::empty()
    };
    let underline = if state.needs_underline_color(cell, capabilities) {
        seq![Command::UnderlineColor(cell.underline_color.to_native().wire())]
    } else {
        Seq::empty()
    };
    let attributes = if !state.attributes_for(cell).is_empty() {
        seq![Command::Attributes(state.attributes_for(cell))]
    } else {
        Seq::empty()
    };
    let text = seq![Command::Print(cell.symbol)];
    lemma_count_moves_concat(to_position, underline);
    lemma_count_moves_concat(to_position + underline, attributes);
    lemma_count_moves_concat(to_position + underline + attributes, text);
    lemma_count_single(Command::MoveTo(position));
    lemma_count_single(Command::UnderlineColor(cell.underline_color.to_native().wire()));
    lemma_count_single(Command::Attributes(state.attributes_for(cell)));
    lemma_count_single(Command::Print(cell.symbol));
    assert(count_moves(Seq::<Command>::empty()) == 0);
}

proof fn lemma_count_single(command: Command)
    ensures
        count_moves(seq![command]) == if command is MoveTo {
            1nat
        } else {
            0nat
        },
{
    let one = seq![command];
    assert(one.drop_last() =~= Seq::<Command>::empty());
    assert(count_moves(one.drop_last()) == 0);
    assert(one.last() == command);
}

proof fn lemma_contiguous_prefix_moves_once(
    start: StyleState,
    content: Seq<(u16, u16, Cell)>,
    n: nat,
    capabilities: Capabilities,
)
    requires
        1 <= n <= content.len(),
        contiguous(content),
        start.needs_move(position_at(content, 0)),
    ensures
        count_moves(cells_commands(start, content, n, capabilities)) == 1,
        cells_commands(start, content, n, capabilities).len() >= 1,
        cells_commands(start, content, n, capabilities)[0] == Command::MoveTo(
            position_at(content, 0),
        ),
    decreases n,
{
    let before = cells_commands(start, content, (n - 1) as nat, capabilities);
    let last = cell_commands(start, content, n - 1, capabilities);
    lemma_count_moves_concat(before, last);
    lemma_cell_moves(
        state_before(start, content, n - 1, capabilities),
        position_at(content, n - 1),
        content[n - 1].2,
        capabilities,
    );
    if n == 1 {
        assert(before =~= Seq::<Command>::empty());
        assert(before + last =~= last);
    } else {
        lemma_contiguous_prefix_moves_once(start, content, (n - 1) as nat, capabilities);
        assert(position_at(content, n - 1).follows(position_at(content, n - 2)));
    }
}

/// Cells at contiguous columns of one row take a single cursor move, and it
/// is the first thing sent: the terminal's own advance after each cell brings
/// the cursor to the next.
pub proof fn lemma_contiguous_cells_move_once(
    start: StyleState,
    content: Seq<(u16, u16, Cell)>,
    capabilities: Capabilities,
)
    requires
        content.len() >= 1,
        contiguous(content),
        start.needs_move(position_at(content, 0)),
    ensures
        count_moves(draw_commands(start, content, capabilities)) == 1,
        draw_commands(start, content, capabilities)[0] == Command::MoveTo(position_at(content, 0)),
{
    let cells = cells_commands(start, content, content.len(), capabilities);
    lemma_contiguous_prefix_moves_once(start, content, content.len(), capabilities);
    lemma_count_moves_concat(cells, seq![Command::ResetStyle]);
    lemma_count_single(Command::ResetStyle);
}

/// A cell that is styled like the cell just left of it, which was written
/// before it, adds nothing but its text: the style is set once, for the
/// first of the two.
pub proof fn lemma_same_style_neighbour_only_prints(
    start: StyleState,
    content: Seq<(u16, u16, Cell)>,
    i: int,
    capabilities: Capabilities,
)
    requires
        1 <= i < content.len(),
        position_at(content, i).follows(position_at(content, i - 1)),
        content[i].2.same_style(content[i - 1].2),
    ensures
        cell_commands(start, content, i, capabilities) == seq![Command::Print(content[i].2.symbol)],
{
    let state = state_before(start, content, i, capabilities);
    lemma_diff_of_equal_is_empty(content[i].2.modifier);
    assert(state.attributes_for(content[i].2).is_empty());
    assert(cell_commands(start, content, i, capabilities) =~= seq![
        Command::Print(content[i].2.symbol),
    ]);
}

/// Two cells side by side that are styled alike: everything that sets a style
/// is sent for the first, before its text, and the second adds only its text
/// before the final reset.
pub proof fn lemma_two_alike_cells_set_style_once(
    start: StyleState,
    x: u16,
    y: u16,
    first: Cell,
    second: Cell,
    capabilities: Capabilities,
)
    requires
        x < u16::MAX,
        first.same_style(second),
    ensures
        draw_commands(start, seq![(x, y, first), ((x + 1) as u16, y, second)], capabilities)
            == start.commands_for(Position { x, y }, first, capabilities) + seq![
            Command::Print(second.symbol),
            Command::ResetStyle,
        ],
{
    let content = seq![(x, y, first), ((x + 1) as u16, y, second)];
    lemma_same_style_neighbour_only_prints(start, content, 1, capabilities);
    let one = cells_commands(start, content, 1, capabilities);
    assert(cells_commands(start, content, 0, capabilities) =~= Seq::<Command>::empty());
    assert(one =~= cell_commands(start, content, 0, capabilities));
    assert(cells_commands(start, content, 2, capabilities) =~= one + cell_commands(
        start,
        content,
        1,
        capabilities,
    ));
    assert(draw_commands(start, content, capabilities) =~= start.commands_for(
        Position { x, y },
        first,
        capabilities,
    ) + seq![Command::Print(second.symbol), Command::ResetStyle]);
}

/// Once a cell is written, the record holds the cell's own style, so that
/// nothing of an earlier cell's style is left to set or to clear.
pub proof fn lemma_record_follows_cell(
    state: StyleState,
    position: Position,
    cell: Cell,
    capabilities: Capabilities,
)
    ensures
        state.after(position, cell, capabilities).fg == cell.fg,
        state.after(position, cell, capabilities).bg == cell.bg,
        state.after(position, cell, capabilities).modifier == cell.modifier,
        capabilities.underline_color ==> state.after(position, cell, capabilities).underline_color
            == cell.underline_color,
        state.after(position, cell, capabilities).last_pos == Some(position),
{
}

} // verus!
