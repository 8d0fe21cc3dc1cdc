//! The commands that the backend sends to a terminal, and their text.

use crate::cell::Position;
use crate::color::WireColor;
use crate::escape;
use crate::escape::EraseInDisplay;
use crate::escape::EraseInLine;
use crate::escape::SgrAttributes;
use vstd::prelude::*;

verus! {

/// One thing to send to the terminal.
#[derive(Debug, Clone, PartialEq, Eq, Hash)]
pub enum Command {
    /// Put the cursor at a place.
    MoveTo(Position),
    /// Set the colour of underlines.
    UnderlineColor(WireColor),
    /// Set colours and attributes, several at once.
    Attributes(SgrAttributes),
    /// Write text at the cursor, which moves right.
    Print(String),
    /// Reset every colour and attribute.
    ResetStyle,
    ShowCursor,
    HideCursor,
    EraseInDisplay(EraseInDisplay),
    EraseInLine(EraseInLine),
    /// Confine scrolling to the rows from `top` to `bottom`, counted from zero.
    ScrollMargins { top: u16, bottom: u16 },
    /// Scroll the region up by a number of lines.
    ScrollUp(u16),
    /// Scroll the region down by a number of lines.
    ScrollDown(u16),
    /// Ask the terminal where its cursor is.
    RequestCursorPosition,
    /// End the line.
    NewLine,
}

/// The first row of the full screen.
pub const FIRST_ROW: u16 = 0;

/// The last row that the protocol can name.
pub const LAST_ROW: u16 = 0xfffe;

impl Command {
    /// The command that lets the whole screen scroll again.
    pub open spec fn full_screen_margins() -> Command {
        Command::ScrollMargins { top: FIRST_ROW, bottom: LAST_ROW }
    }

    /// Whether the protocol can express the command: the places and rows that
    /// it names must have a number in the protocol.
    pub open spec fn spec_encodable(&self) -> bool {
        match *self {
            Command::MoveTo(position) => position.addressable(),
            Command::ScrollMargins { top, bottom } => top < u16::MAX && bottom < u16::MAX,
            _ => true,
        }
    }

    /// Whether the command changes how text is styled.
    pub open spec fn is_style_update(self) -> bool {
        self is UnderlineColor || self is Attributes || self is ResetStyle
    }

    /// The text of the command.
    pub open spec fn text(self) -> Seq<char> {
        match self {
            Command::MoveTo(position) => escape::cursor_position(position.x, position.y),
            Command::UnderlineColor(color) => escape::underline_color(color),
            Command::Attributes(attributes) => escape::sgr_attributes(attributes),
            Command::Print(text) => text@,
            Command::ResetStyle => escape::sgr_reset(),
            Command::ShowCursor => escape::cursor_visibility(true),
            Command::HideCursor => escape::cursor_visibility(false),
            Command::EraseInDisplay(kind) => escape::erase_in_display(kind),
            Command::EraseInLine(kind) => escape::erase_in_line(kind),
            Command::ScrollMargins { top, bottom } => escape::scroll_margins(top, bottom),
            Command::ScrollUp(lines) => escape::scroll_up(lines),
            Command::ScrollDown(lines) => escape::scroll_down(lines),
            Command::RequestCursorPosition => escape::position_request(),
            Command::NewLine => seq!['\n'],
        }
    }

    /// Whether the protocol can express the command.
    #[verifier::when_used_as_spec(spec_encodable)]
    pub fn encodable(&self) -> (yes: bool)
        ensures
            yes == self.spec_encodable(),
    {
        match self {
            Command::MoveTo(position) => position.addressable(),
            Command::ScrollMargins { top, bottom } => *top < u16::MAX && *bottom < u16::MAX,
            _ => true,
        }
    }

    /// Writes the command out.
    pub fn encode(&self) -> (text: String)
        requires
            self.encodable(),
        ensures
            text@ == self.text(),
    {
        match self {
            Command::MoveTo(position) => escape::cursor_position_text(position.x, position.y),
            Command::UnderlineColor(color) => escape::underline_color_text(*color),
            Command::Attributes(attributes) => escape::sgr_attributes_text(attributes),
            Command::Print(text) => text.clone(),
            Command::ResetStyle => escape::sgr_reset_text(),
            Command::ShowCursor => escape::cursor_visibility_text(true),
            Command::HideCursor => escape::cursor_visibility_text(false),
            Command::EraseInDisplay(kind) => escape::erase_in_display_text(*kind),
            Command::EraseInLine(kind) => escape::erase_in_line_text(*kind),
            Command::ScrollMargins { top, bottom } => escape::scroll_margins_text(*top, *bottom),
            Command::ScrollUp(lines) => escape::scroll_up_text(*lines),
            Command::ScrollDown(lines) => escape::scroll_down_text(*lines),
            Command::RequestCursorPosition => escape::position_request_text(),
            Command::NewLine => {
                proof {
                    reveal_strlit("\n");
                }
                let text = String::from_str("\n");
                assert(text@ =~= seq!['\n']);
                text
            },
        }
    }
}

/// Whether the protocol can express every command of a sequence.
pub open spec fn all_encodable(commands: Seq<Command>) -> bool {
    forall|i: int| 0 <= i < commands.len() ==> (#[trigger] commands[i]).encodable()
}

/// The text of a sequence of commands: the text of each, in order.
pub open spec fn render(commands: Seq<Command>) -> Seq<char>
    decreases commands.len(),
{
    if commands.len() == 0 {
        Seq::empty()
    } else {
        render(commands.drop_last()) + commands.last().text()
    }
}

/// The text of two sequences of commands, one after the other, is the text of
/// the first followed by the text of the second.
pub proof fn lemma_render_concat(first: Seq<Command>, second: Seq<Command>)
    ensures
        render(first + second) == render(first) + render(second),
    decreases second.len(),
{
    if second.len() == 0 {
        assert(first + second =~= first);
        assert(render(second) =~= Seq::<char>::empty());
        assert(render(first) + render(second) =~= render(first));
    } else {
        assert((first + second).drop_last() =~= first + second.drop_last());
        assert((first + second).last() == second.last());
        lemma_render_concat(first, second.drop_last());
        assert(render(first + second) =~= render(first) + render(second));
    }
}

/// The text of a single command.
pub proof fn lemma_render_one(command: Command)
    ensures
        render(seq![command]) == command.text(),
{
    let one = seq![command];
    assert(one.drop_last() =~= Seq::<Command>::empty());
    assert(render(one.drop_last()) =~= Seq::<char>::empty());
    assert(render(one) =~= command.text());
}

/// Whether every command of `commands` can be expressed.
pub fn can_encode(commands: &Vec<Command>) -> (yes: bool)
    ensures
        yes == all_encodable(commands@),
{
    let mut i: usize = 0;
    while i < commands.len()
        invariant
            i <= commands.len(),
            forall|j: int| 0 <= j < i ==> (#[trigger] commands@[j]).encodable(),
        decreases commands.len() - i,
    {
        if !commands[i].encodable() {
            return false;
        }
        i += 1;
    }
    true
}

/// Writes a sequence of commands out, one after the other.
pub fn encode(commands: &Vec<Command>) -> (text: String)
    requires
        all_encodable(commands@),
    ensures
        text@ == render(commands@),
{
    let mut text = String::new();
    let mut i: usize = 0;
    while i < commands.len()
        invariant
            i <= commands.len(),
            all_encodable(commands@),
            text@ == render(commands@.take(i as int)),
        decreases commands.len() - i,
    {
        let part = commands[i].encode();
        text.append(part.as_str());
        proof {
            let done = commands@.take(i + 1);
            assert(done.drop_last() =~= commands@.take(i as int));
            assert(done.last() == commands@[i as int]);
        }
        i += 1;
    }
    assert(commands@.take(i as int) =~= commands@);
    text
}

} // verus!
