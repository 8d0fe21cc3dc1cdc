//! The operations of the backend, as what they put on the wire.
//!
//! Each operation returns an [`Output`]: the text to write to the terminal,
//! and whether the channel has to be flushed at once. Writing and flushing is
//! left to the owner of the channel. A frame is not flushed, so that its
//! owner can decide when it is shown; every other operation is, because it
//! is meant to take effect before whatever is written or read next.

use crate::cell::Cell;
use crate::cell::Position;
use crate::cell::Size;
use crate::command::encode;
use crate::command::lemma_render_concat;
use crate::command::lemma_render_one;
use crate::command::render;
use crate::command::Command;
use crate::command::FIRST_ROW;
use crate::command::LAST_ROW;
use crate::escape;
use crate::escape::EraseInDisplay;
use crate::escape::EraseInLine;
use crate::style::can_draw;
use crate::style::draw_commands;
use crate::style::drawable;
use crate::style::plan_draw;
use crate::style::Capabilities;
use crate::style::StyleState;
use core::ops::Range;
use vstd::prelude::*;

verus! {

/// What to clear.
#[derive(Debug, Clone, Copy, PartialEq, Eq, Hash, Structural)]
pub enum ClearType {
    /// The whole screen.
    All,
    /// From the cursor to the end of the screen.
    AfterCursor,
    /// From the start of the screen to the cursor.
    BeforeCursor,
    /// The cursor's line.
    CurrentLine,
    /// From the cursor to the end of its line.
    UntilNewLine,
}

/// The size of a terminal as its device reports it: in cells, and in pixels
/// where the device knows them.
#[derive(Debug, Clone, Copy, PartialEq, Eq, Hash, Structural)]
pub struct Dimensions {
    pub cols: u16,
    pub rows: u16,
    pub pixel_width: Option<u16>,
    pub pixel_height: Option<u16>,
}

/// The size of a terminal window, in cells and in pixels.
#[derive(Debug, Clone, Copy, PartialEq, Eq, Hash, Structural)]
pub struct WindowSize {
    pub columns_rows: Size,
    pub pixels: Size,
}

/// What an operation puts on the wire.
#[derive(Debug, Clone, PartialEq, Eq, Hash)]
pub struct Output {
    /// The text to write.
    pub text: String,
    /// Whether the channel has to be flushed once the text is written.
    pub flush: bool,
}

/// The encoding side of a backend: what the terminal supports, and what it
/// was last told.
#[derive(Debug, Clone, Copy, PartialEq, Eq, Hash)]
pub struct Encoder {
    capabilities: Capabilities,
    style: StyleState,
}

impl ClearType {
    /// The one command that clears this part.
    pub open spec fn command(self) -> Command {
        match self {
            ClearType::All => Command::EraseInDisplay(EraseInDisplay::EraseDisplay),
            ClearType::AfterCursor => Command::EraseInDisplay(EraseInDisplay::EraseToEndOfDisplay),
            ClearType::BeforeCursor => Command::EraseInDisplay(
                EraseInDisplay::EraseToStartOfDisplay,
            ),
            ClearType::CurrentLine => Command::EraseInLine(EraseInLine::EraseLine),
            ClearType::UntilNewLine => Command::EraseInLine(EraseInLine::EraseToEndOfLine),
        }
    }
}

impl Dimensions {
    /// The size in cells.
    pub open spec fn cells(self) -> Size {
        Size { width: self.cols, height: self.rows }
    }

    /// The size in pixels; a side that the device does not know is zero.
    pub open spec fn pixels(self) -> Size {
        Size {
            width: match self.pixel_width {
                Some(width) => width,
                None => 0,
            },
            height: match self.pixel_height {
                Some(height) => height,
                None => 0,
            },
        }
    }
}

/// The size of the terminal in cells, from what its device reports.
pub fn size(dimensions: Dimensions) -> (size: Size)
    ensures
        size == dimensions.cells(),
{
    Size { width: dimensions.cols, height: dimensions.rows }
}

/// The size of the terminal in cells and in pixels, from what its device
/// reports.
pub fn window_size(dimensions: Dimensions) -> (size: WindowSize)
    ensures
        size.columns_rows == dimensions.cells(),
        size.pixels == dimensions.pixels(),
{
    WindowSize {
        columns_rows: Size { width: dimensions.cols, height: dimensions.rows },
        pixels: Size {
            width: match dimensions.pixel_width {
                Some(width) => width,
                None => 0,
            },
            height: match dimensions.pixel_height {
                Some(height) => height,
                None => 0,
            },
        },
    }
}

/// A number of line ends.
pub open spec fn line_ends(n: nat) -> Seq<char> {
    Seq::new(n, |i: int| '\n')
}

/// What a scroll of a region sends: the margins that confine scrolling to the
/// rows from `region.start` to `region.end`, both counted from zero, the
/// scroll itself, and the margins of the full screen.
pub open spec fn scroll_commands(region: Range<u16>, scroll: Command) -> Seq<Command> {
    seq![
        Command::ScrollMargins { top: region.start, bottom: region.end },
        scroll,
        Command::full_screen_margins(),
    ]
}

/// The text of a scroll of a region.
pub open spec fn scroll_text(region: Range<u16>, scroll: Command) -> Seq<char> {
    escape::scroll_margins(region.start, region.end) + scroll.text() + escape::scroll_margins(
        FIRST_ROW,
        LAST_ROW,
    )
}

/// A scroll of a region ends with the margins of the full screen, whatever
/// the region and however many lines are scrolled, none included: the last
/// command restores them, and the text ends with that command's text.
pub proof fn lemma_scroll_restores_margins(region: Range<u16>, scroll: Command)
    ensures
        scroll_commands(region, scroll).last() == Command::full_screen_margins(),
        render(scroll_commands(region, scroll)) == scroll_text(region, scroll),
        scroll_text(region, scroll) == render(scroll_commands(region, scroll).drop_last())
            + Command::full_screen_margins().text(),
{
    let margins = Command::ScrollMargins { top: region.start, bottom: region.end };
    let restore = Command::full_screen_margins();
    let all = scroll_commands(region, scroll);
    assert(all =~= seq![margins] + seq![scroll] + seq![restore]);
    assert(all.drop_last() =~= seq![margins] + seq![scroll]);
    lemma_render_one(margins);
    lemma_render_one(scroll);
    lemma_render_one(restore);
    lemma_render_concat(seq![margins], seq![scroll]);
    lemma_render_concat(seq![margins] + seq![scroll], seq![restore]);
}

impl Encoder {
    /// What the terminal supports.
    pub closed spec fn spec_capabilities(&self) -> Capabilities {
        self.capabilities
    }

    /// What the terminal was last told.
    pub closed spec fn spec_style(&self) -> StyleState {
        self.style
    }

    /// An encoder for a terminal in its neutral state.
    pub fn new(capabilities: Capabilities) -> (encoder: Encoder)
        ensures
            encoder.capabilities() == capabilities,
            encoder.style() == StyleState::neutral(),
    {
        Encoder { capabilities, style: StyleState::new() }
    }

    /// What the terminal supports.
    #[verifier::when_used_as_spec(spec_capabilities)]
    pub fn capabilities(&self) -> (capabilities: Capabilities)
        ensures
            capabilities == self.spec_capabilities(),
    {
        self.capabilities
    }

    /// What the terminal was last told.
    #[verifier::when_used_as_spec(spec_style)]
    pub fn style(&self) -> (style: StyleState)
        ensures
            style == self.spec_style(),
    {
        self.style
    }

    /// Whether `content` can be drawn: every cell that the cursor has to be
    /// moved to lies at a place that the protocol can name.
    pub fn can_draw(&self, content: &Vec<(u16, u16, Cell)>) -> (yes: bool)
        ensures
            yes == drawable(self.style(), content@),
    {
        can_draw(&self.style, content)
    }

    /// Encodes a frame: the changed cells, in the order given, each with
    /// the cursor move and the style changes that it needs and no others,
    /// and a reset of the style at the end. The frame is not flushed.
    pub fn draw(&mut self, content: &Vec<(u16, u16, Cell)>) -> (out: Output)
        requires
            drawable(old(self).style(), content@),
        ensures
            out.text@ == render(
                draw_commands(old(self).style(), content@, old(self).capabilities()),
            ),
            !out.flush,
            final(self).style() == StyleState::neutral(),
            final(self).capabilities() == old(self).capabilities(),
    {
        let commands = plan_draw(&mut self.style, content, self.capabilities);
        Output { text: encode(&commands), flush: false }
    }

    /// Hides the cursor.
    pub fn hide_cursor(&self) -> (out: Output)
        ensures
            out.text@ == Command::HideCursor.text(),
            out.flush,
    {
        Output { text: Command::HideCursor.encode(), flush: true }
    }

    /// Shows the cursor.
    pub fn show_cursor(&self) -> (out: Output)
        ensures
            out.text@ == Command::ShowCursor.text(),
            out.flush,
    {
        Output { text: Command::ShowCursor.encode(), flush: true }
    }

    /// Asks the terminal where its cursor is. The answer comes as an event
    /// on the input side; see [`crate::query`].
    pub fn request_cursor_position(&self) -> (out: Output)
        ensures
            out.text@ == Command::RequestCursorPosition.text(),
            out.flush,
    {
        Output { text: Command::RequestCursorPosition.encode(), flush: true }
    }

    /// Puts the cursor at `position`.
    pub fn set_cursor_position(&self, position: Position) -> (out: Output)
        requires
            position.addressable(),
        ensures
            out.text@ == Command::MoveTo(position).text(),
            out.flush,
    {
        Output { text: Command::MoveTo(position).encode(), flush: true }
    }

    /// Clears the whole screen.
    pub fn clear(&self) -> (out: Output)
        ensures
            out.text@ == ClearType::All.command().text(),
            out.flush,
    {
        self.clear_region(ClearType::All)
    }

    /// Clears a part of the screen, with the one command that does so.
    pub fn clear_region(&self, clear_type: ClearType) -> (out: Output)
        ensures
            out.text@ == clear_type.command().text(),
            out.flush,
    {
        let command = match clear_type {
            ClearType::All => Command::EraseInDisplay(EraseInDisplay::EraseDisplay),
            ClearType::AfterCursor => Command::EraseInDisplay(EraseInDisplay::EraseToEndOfDisplay),
            ClearType::BeforeCursor => Command::EraseInDisplay(
                EraseInDisplay::EraseToStartOfDisplay,
            ),
            ClearType::CurrentLine => Command::EraseInLine(EraseInLine::EraseLine),
            ClearType::UntilNewLine => Command::EraseInLine(EraseInLine::EraseToEndOfLine),
        };
        Output { text: command.encode(), flush: true }
    }

    /// Ends `n` lines, which makes room below the cursor.
    pub fn append_lines(&self, n: u16) -> (out: Output)
        ensures
            out.text@ == line_ends(n as nat),
            out.flush,
    {
        let mut text = String::new();
        let mut i: u16 = 0;
        while i < n
            invariant
                i <= n,
                text@ == line_ends(i as nat),
            decreases n - i,
        {
            let line_end = Command::NewLine.encode();
            text.append(line_end.as_str());
            i += 1;
            assert(text@ =~= line_ends(i as nat));
        }
        Output { text, flush: true }
    }

    /// Flushes what was written so far, and writes nothing.
    pub fn flush(&self) -> (out: Output)
        ensures
            out.text@ == Seq::<char>::empty(),
            out.flush,
    {
        Output { text: String::new(), flush: true }
    }

    /// Scrolls the rows from `region.start` to `region.end` up by `amount`
    /// lines, and lets the whole screen scroll again afterwards. Nothing is
    /// sent to a terminal that does not support scrolling regions.
    pub fn scroll_region_up(&self, region: Range<u16>, amount: u16) -> (out: Option<Output>)
        requires
            region.start < u16::MAX,
            region.end < u16::MAX,
        ensures
            out is Some <==> self.capabilities().scrolling_regions,
            out matches Some(sent) ==> sent.flush && sent.text@ == scroll_text(
                region,
                Command::ScrollUp(amount),
            ),
    {
        if !self.capabilities.scrolling_regions {
            return None;
        }
        Some(scroll_region(region, Command::ScrollUp(amount)))
    }

    /// Scrolls the rows from `region.start` to `region.end` down by `amount`
    /// lines, and lets the whole screen scroll again afterwards. Nothing is
    /// sent to a terminal that does not support scrolling regions.
    pub fn scroll_region_down(&self, region: Range<u16>, amount: u16) -> (out: Option<Output>)
        requires
            region.start < u16::MAX,
            region.end < u16::MAX,
        ensures
            out is Some <==> self.capabilities().scrolling_regions,
            out matches Some(sent) ==> sent.flush && sent.text@ == scroll_text(
                region,
                Command::ScrollDown(amount),
            ),
    {
        if !self.capabilities.scrolling_regions {
            return None;
        }
        Some(scroll_region(region, Command::ScrollDown(amount)))
    }
}

/// Encodes a scroll of a region: the region's margins, the scroll, and the
/// margins of the full screen, which are restored whatever the scroll is.
fn scroll_region(region: Range<u16>, scroll: Command) -> (out: Output)
    requires
        region.start < u16::MAX,
        region.end < u16::MAX,
        scroll is ScrollUp || scroll is ScrollDown,
    ensures
        out.flush,
        out.text@ == scroll_text(region, scroll),
{
    let mut commands: Vec<Command> = Vec::new();
    commands.push(Command::ScrollMargins { top: region.start, bottom: region.end });
    commands.push(scroll);
    commands.push(Command::ScrollMargins { top: FIRST_ROW, bottom: LAST_ROW });
    proof {
        assert(commands@ =~= scroll_commands(region, scroll));
        lemma_scroll_restores_margins(region, scroll);
    }
    Output { text: encode(&commands), flush: true }
}

} // verus!
