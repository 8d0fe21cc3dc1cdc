//! The control sequences of the terminal protocol, as text.
//!
//! The sequences are formatted by the `termina` crate: every function of this
//! file that returns text hands plain values to `termina`'s `Display`
//! implementation for `Csi` and returns what it wrote. Nothing here is proved;
//! the contracts state what `termina` writes.

use crate::color::WireColor;
use crate::color::RgbaColor;
use crate::color::OPAQUE;
use crate::modifier::SgrModifiers;
use termina::escape::csi;
use termina::style;
use vstd::prelude::*;

verus! {

/// A combined attribute update: the colours to set, where they change, and
/// the attribute codes to send.
#[derive(Debug, Clone, Copy, PartialEq, Eq, Hash, Structural)]
pub struct SgrAttributes {
    pub foreground: Option<WireColor>,
    pub background: Option<WireColor>,
    pub modifiers: SgrModifiers,
}

/// Which part of the display to erase.
#[derive(Debug, Clone, Copy, PartialEq, Eq, Hash, Structural)]
pub enum EraseInDisplay {
    EraseToEndOfDisplay,
    EraseToStartOfDisplay,
    EraseDisplay,
    EraseScrollback,
}

/// Which part of the cursor's line to erase.
#[derive(Debug, Clone, Copy, PartialEq, Eq, Hash, Structural)]
pub enum EraseInLine {
    EraseToEndOfLine,
    EraseToStartOfLine,
    EraseLine,
}

impl SgrAttributes {
    /// Nothing to set and nothing to send.
    pub open spec fn spec_is_empty(&self) -> bool {
        self.foreground is None && self.background is None && self.modifiers.is_empty()
    }

    /// Whether there is nothing to set and nothing to send. Such an update
    /// must not be written: the terminal would read it as a reset.
    #[verifier::when_used_as_spec(spec_is_empty)]
    pub fn is_empty(&self) -> (empty: bool)
        ensures
            empty == self.spec_is_empty(),
    {
        self.foreground.is_none() && self.background.is_none() && self.modifiers.is_empty()
    }
}

impl EraseInDisplay {
    /// The parameter that the protocol gives this kind.
    pub open spec fn code(self) -> nat {
        match self {
            EraseInDisplay::EraseToEndOfDisplay => 0,
            EraseInDisplay::EraseToStartOfDisplay => 1,
            EraseInDisplay::EraseDisplay => 2,
            EraseInDisplay::EraseScrollback => 3,
        }
    }
}

impl EraseInLine {
    /// The parameter that the protocol gives this kind.
    pub open spec fn code(self) -> nat {
        match self {
            EraseInLine::EraseToEndOfLine => 0,
            EraseInLine::EraseToStartOfLine => 1,
            EraseInLine::EraseLine => 2,
        }
    }
}

/// The introducer that every control sequence starts with: escape, then `[`.
pub open spec fn introducer() -> Seq<char> {
    seq!['\u{1b}', '[']
}

/// The character of a decimal digit.
pub open spec fn digit(d: nat) -> char {
    if d == 0 {
        '0'
    } else if d == 1 {
        '1'
    } else if d == 2 {
        '2'
    } else if d == 3 {
        '3'
    } else if d == 4 {
        '4'
    } else if d == 5 {
        '5'
    } else if d == 6 {
        '6'
    } else if d == 7 {
        '7'
    } else if d == 8 {
        '8'
    } else {
        '9'
    }
}

/// A number in decimal, without sign or leading zeros.
pub open spec fn decimal(n: nat) -> Seq<char>
    decreases n,
{
    if n < 10 {
        seq![digit(n)]
    } else {
        decimal(n / 10).push(digit(n % 10))
    }
}

/// The parameter of an editing sequence: the protocol's writer leaves the
/// number out where it is one.
pub open spec fn edit_parameter(n: nat) -> Seq<char> {
    if n == 1 {
        Seq::empty()
    } else {
        decimal(n)
    }
}

/// The sequence that moves the cursor to column `x` of row `y`, both counted
/// from zero; the protocol counts from one and names the row first.
pub open spec fn cursor_position(x: u16, y: u16) -> Seq<char> {
    introducer() + decimal((y + 1) as nat) + seq![';'] + decimal((x + 1) as nat) + seq!['H']
}

/// The sequence that resets every colour and attribute.
pub open spec fn sgr_reset() -> Seq<char> {
    introducer() + seq!['m']
}

/// The sequence that shows the cursor, or hides it.
pub open spec fn cursor_visibility(visible: bool) -> Seq<char> {
    introducer() + seq!['?', '2', '5'] + seq![if visible { 'h' } else { 'l' }]
}

/// The sequence that erases a part of the display.
pub open spec fn erase_in_display(kind: EraseInDisplay) -> Seq<char> {
    introducer() + edit_parameter(kind.code()) + seq!['J']
}

/// The sequence that erases a part of the cursor's line.
pub open spec fn erase_in_line(kind: EraseInLine) -> Seq<char> {
    introducer() + edit_parameter(kind.code()) + seq!['K']
}

/// The sequence that confines scrolling to the rows from `top` to `bottom`,
/// both counted from zero. Where the two name the widest region there is, the
/// protocol's writer leaves them out, which a terminal reads as its full
/// screen.
pub open spec fn scroll_margins(top: u16, bottom: u16) -> Seq<char> {
    if top == 0 && bottom + 1 == u16::MAX {
        introducer() + seq!['r']
    } else {
        introducer() + decimal((top + 1) as nat) + seq![';'] + decimal((bottom + 1) as nat) + seq![
            'r',
        ]
    }
}

/// The sequence that scrolls the region up by `lines`.
pub open spec fn scroll_up(lines: u16) -> Seq<char> {
    introducer() + edit_parameter(lines as nat) + seq!['S']
}

/// The sequence that scrolls the region down by `lines`.
pub open spec fn scroll_down(lines: u16) -> Seq<char> {
    introducer() + edit_parameter(lines as nat) + seq!['T']
}

/// The sequence that asks the terminal to report where its cursor is.
pub open spec fn position_request() -> Seq<char> {
    introducer() + seq!['6', 'n']
}

/// The sequence that sets the colour of underlines.
pub open spec fn underline_color(color: WireColor) -> Seq<char> {
    introducer() + match color {
        WireColor::Reset => seq!['5', '9'],
        WireColor::PaletteIndex(index) => seq!['5', '8', ':', '5', ':'] + decimal(index as nat),
        WireColor::TrueColor(c) => if c.alpha == OPAQUE {
            seq!['5', '8', ':', '2', ':', ':'] + decimal(c.red as nat) + seq![':'] + decimal(
                c.green as nat,
            ) + seq![':'] + decimal(c.blue as nat)
        } else {
            seq!['5', '8', ':', '6', ':', ':'] + decimal(c.red as nat) + seq![':'] + decimal(
                c.green as nat,
            ) + seq![':'] + decimal(c.blue as nat) + seq![':'] + decimal(c.alpha as nat)
        },
    } + seq!['m']
}

/// The text that `termina` writes for a combined attribute update. It is a
/// function of the update alone; what it is for a given update is `termina`'s
/// to say, in the order and grouping of parameters that it chooses.
pub uninterp spec fn sgr_attributes(attributes: SgrAttributes) -> Seq<char>;

/// Formats `Csi::Cursor(Cursor::Position { line, col })` with `termina`, the
/// coordinates converted by `OneBased::from_zero_based`, which does not accept
/// the largest `u16`. `termina` writes the introducer, the line, `;`, the
/// column and `H`.
#[verifier::external_body]
pub(crate) fn cursor_position_text(x: u16, y: u16) -> (text: String)
    requires
        x < u16::MAX,
        y < u16::MAX,
    ensures
        text@ == cursor_position(x, y),
{
    let line = termina::OneBased::from_zero_based(y);
    let col = termina::OneBased::from_zero_based(x);
    csi::Csi::Cursor(csi::Cursor::Position { line, col }).to_string()
}

/// Formats `Csi::Sgr(Sgr::Reset)` with `termina`, which writes the introducer
/// and `m`, leaving out the parameter 0 that a terminal assumes.
#[verifier::external_body]
pub(crate) fn sgr_reset_text() -> (text: String)
    ensures
        text@ == sgr_reset(),
{
    csi::Csi::Sgr(csi::Sgr::Reset).to_string()
}

/// Formats `Csi::Sgr(Sgr::Attributes(..))` with `termina`, from an update with
/// the same colours and the same code bits, no underline colour, and
/// `termina`'s default limit on the parameters of one sequence. The contract
/// only names the text.
#[verifier::external_body]
pub(crate) fn sgr_attributes_text(attributes: &SgrAttributes) -> (text: String)
    ensures
        text@ == sgr_attributes(*attributes),
{
    let native = |color: WireColor| match color {
        WireColor::Reset => style::ColorSpec::Reset,
        WireColor::PaletteIndex(index) => style::ColorSpec::PaletteIndex(index),
        WireColor::TrueColor(RgbaColor { red, green, blue, alpha }) =>
            style::ColorSpec::TrueColor(style::RgbaColor { red, green, blue, alpha }),
    };
    let attributes = csi::SgrAttributes {
        foreground: attributes.foreground.map(native),
        background: attributes.background.map(native),
        modifiers: csi::SgrModifiers::from_bits_retain(attributes.modifiers.bits),
        ..Default::default()
    };
    csi::Csi::Sgr(csi::Sgr::Attributes(attributes)).to_string()
}

/// Formats `Csi::Sgr(Sgr::UnderlineColor(..))` with `termina`, which writes
/// the introducer, then `59` for a reset, `58:5:` and the index for a palette
/// entry, `58:2::` and the three channels for an opaque true colour, `58:6::`
/// and the four channels for any other, and `m`.
#[verifier::external_body]
pub(crate) fn underline_color_text(color: WireColor) -> (text: String)
    ensures
        text@ == underline_color(color),
{
    let color = match color {
        WireColor::Reset => style::ColorSpec::Reset,
        WireColor::PaletteIndex(index) => style::ColorSpec::PaletteIndex(index),
        WireColor::TrueColor(RgbaColor { red, green, blue, alpha }) =>
            style::ColorSpec::TrueColor(style::RgbaColor { red, green, blue, alpha }),
    };
    csi::Csi::Sgr(csi::Sgr::UnderlineColor(color)).to_string()
}

/// Formats the setting (`visible`) or resetting of the private mode
/// `ShowCursor` with `termina`, which writes the introducer, `?25`, and `h` to
/// set or `l` to reset.
#[verifier::external_body]
pub(crate) fn cursor_visibility_text(visible: bool) -> (text: String)
    ensures
        text@ == cursor_visibility(visible),
{
    let mode = csi::DecPrivateMode::Code(csi::DecPrivateModeCode::ShowCursor);
    let mode = if visible {
        csi::Mode::SetDecPrivateMode(mode)
    } else {
        csi::Mode::ResetDecPrivateMode(mode)
    };
    csi::Csi::Mode(mode).to_string()
}

/// Formats `Csi::Edit(Edit::EraseInDisplay(..))` with `termina`, which writes
/// the introducer, the kind's number unless it is 1, and `J`.
#[verifier::external_body]
pub(crate) fn erase_in_display_text(kind: EraseInDisplay) -> (text: String)
    ensures
        text@ == erase_in_display(kind),
{
    let kind = match kind {
        EraseInDisplay::EraseToEndOfDisplay => csi::EraseInDisplay::EraseToEndOfDisplay,
        EraseInDisplay::EraseToStartOfDisplay => csi::EraseInDisplay::EraseToStartOfDisplay,
        EraseInDisplay::EraseDisplay => csi::EraseInDisplay::EraseDisplay,
        EraseInDisplay::EraseScrollback => csi::EraseInDisplay::EraseScrollback,
    };
    csi::Csi::Edit(csi::Edit::EraseInDisplay(kind)).to_string()
}

/// Formats `Csi::Edit(Edit::EraseInLine(..))` with `termina`, which writes the
/// introducer, the kind's number unless it is 1, and `K`.
#[verifier::external_body]
pub(crate) fn erase_in_line_text(kind: EraseInLine) -> (text: String)
    ensures
        text@ == erase_in_line(kind),
{
    let kind = match kind {
        EraseInLine::EraseToEndOfLine => csi::EraseInLine::EraseToEndOfLine,
        EraseInLine::EraseToStartOfLine => csi::EraseInLine::EraseToStartOfLine,
        EraseInLine::EraseLine => csi::EraseInLine::EraseLine,
    };
    csi::Csi::Edit(csi::Edit::EraseInLine(kind)).to_string()
}

/// Formats `Csi::Cursor(Cursor::SetTopAndBottomMargins { top, bottom })` with
/// `termina`, the rows converted by `OneBased::from_zero_based`, which does
/// not accept the largest `u16`. `termina` writes the introducer, the two
/// numbers with `;` between them unless they are 1 and the largest `u16`, and
/// `r`.
#[verifier::external_body]
pub(crate) fn scroll_margins_text(top: u16, bottom: u16) -> (text: String)
    requires
        top < u16::MAX,
        bottom < u16::MAX,
    ensures
        text@ == scroll_margins(top, bottom),
{
    let top = termina::OneBased::from_zero_based(top);
    let bottom = termina::OneBased::from_zero_based(bottom);
    csi::Csi::Cursor(csi::Cursor::SetTopAndBottomMargins { top, bottom }).to_string()
}

/// Formats `Csi::Edit(Edit::ScrollUp(..))` with `termina`, which writes the
/// introducer, the number of lines unless it is 1, and `S`.
#[verifier::external_body]
pub(crate) fn scroll_up_text(lines: u16) -> (text: String)
    ensures
        text@ == scroll_up(lines),
{
    csi::Csi::Edit(csi::Edit::ScrollUp(u32::from(lines))).to_string()
}

/// Formats `Csi::Edit(Edit::ScrollDown(..))` with `termina`, which writes the
/// introducer, the number of lines unless it is 1, and `T`.
#[verifier::external_body]
pub(crate) fn scroll_down_text(lines: u16) -> (text: String)
    ensures
        text@ == scroll_down(lines),
{
    csi::Csi::Edit(csi::Edit::ScrollDown(u32::from(lines))).to_string()
}

/// Formats `Csi::Cursor(Cursor::RequestActivePositionReport)` with `termina`,
/// which writes the introducer and `6n`.
#[verifier::external_body]
pub(crate) fn position_request_text() -> (text: String)
    ensures
        text@ == position_request(),
{
    csi::Csi::Cursor(csi::Cursor::RequestActivePositionReport).to_string()
}

} // verus!
