//! The colour models and the mappings between them.
//!
//! [`Color`] is what the rendering layer speaks: a reset, sixteen named
//! colours, a palette index or an RGB triple. [`ColorSpec`] is the terminal's
//! counterpart: a reset, one of sixteen named palette entries, a palette
//! index or a true colour with an alpha channel. The two map onto each other
//! variant by variant, so that every colour comes back from the terminal's
//! model as itself.
//!
//! [`WireColor`] is what the protocol can say. It has one number for a named
//! colour and for the palette entry of the same index, so the two look alike
//! once they are written, and a colour read from the wire is taken for the
//! named one.

use vstd::prelude::*;

verus! {

/// A colour as the rendering layer names it.
#[derive(Debug, Clone, Copy, PartialEq, Eq, Hash, Structural)]
pub enum Color {
    /// The terminal's default colour.
    Reset,
    Black,
    Red,
    Green,
    Yellow,
    Blue,
    Magenta,
    Cyan,
    Gray,
    DarkGray,
    LightRed,
    LightGreen,
    LightYellow,
    LightBlue,
    LightMagenta,
    LightCyan,
    White,
    /// Red, green and blue channels.
    Rgb(u8, u8, u8),
    /// An entry of the 256-colour palette.
    Indexed(u8),
}

/// Red, green and blue channels of a true colour.
#[derive(Debug, Clone, Copy, PartialEq, Eq, Hash, Structural)]
pub struct RgbColor {
    pub red: u8,
    pub green: u8,
    pub blue: u8,
}

/// A true colour with its opacity.
#[derive(Debug, Clone, Copy, PartialEq, Eq, Hash, Structural)]
pub struct RgbaColor {
    pub red: u8,
    pub green: u8,
    pub blue: u8,
    pub alpha: u8,
}

/// The sixteen palette entries that carry a name, in the order of the
/// palette: eight standard colours, then their bright variants.
#[derive(Debug, Clone, Copy, PartialEq, Eq, Hash, Structural)]
pub enum AnsiColor {
    Black,
    Red,
    Green,
    Yellow,
    Blue,
    Magenta,
    Cyan,
    White,
    BrightBlack,
    BrightRed,
    BrightGreen,
    BrightYellow,
    BrightBlue,
    BrightMagenta,
    BrightCyan,
    BrightWhite,
}

/// A colour as the terminal names it.
#[derive(Debug, Clone, Copy, PartialEq, Eq, Hash, Structural)]
pub enum ColorSpec {
    /// The terminal's default colour.
    Reset,
    /// One of the sixteen named palette entries.
    Ansi(AnsiColor),
    /// An entry of the 256-colour palette, asked for by its index.
    PaletteIndex(u8),
    /// A true colour.
    TrueColor(RgbaColor),
}

/// A colour as the protocol writes it.
#[derive(Debug, Clone, Copy, PartialEq, Eq, Hash, Structural)]
pub enum WireColor {
    /// The terminal's default colour.
    Reset,
    /// An entry of the 256-colour palette; entries 0 to 15 are the named colours.
    PaletteIndex(u8),
    /// A true colour.
    TrueColor(RgbaColor),
}

/// The alpha value of a fully opaque colour.
pub const OPAQUE: u8 = 255;

/// The number of palette entries that carry a name.
pub const NAMED_COLORS: u8 = 16;

impl RgbColor {
    pub fn new(red: u8, green: u8, blue: u8) -> (c: RgbColor)
        ensures
            c == (RgbColor { red, green, blue }),
    {
        RgbColor { red, green, blue }
    }

    /// The same colour, fully opaque.
    pub open spec fn opaque(self) -> RgbaColor {
        RgbaColor { red: self.red, green: self.green, blue: self.blue, alpha: OPAQUE }
    }
}

impl RgbaColor {
    /// The colour without its opacity.
    pub open spec fn rgb(self) -> RgbColor {
        RgbColor { red: self.red, green: self.green, blue: self.blue }
    }
}

impl From<RgbColor> for RgbaColor {
    fn from(color: RgbColor) -> (c: RgbaColor) {
        RgbaColor { red: color.red, green: color.green, blue: color.blue, alpha: OPAQUE }
    }
}

impl vstd::std_specs::convert::FromSpecImpl<RgbColor> for RgbaColor {
    open spec fn obeys_from_spec() -> bool {
        true
    }

    open spec fn from_spec(color: RgbColor) -> RgbaColor {
        color.opaque()
    }
}

impl From<RgbaColor> for RgbColor {
    fn from(color: RgbaColor) -> (c: RgbColor) {
        RgbColor { red: color.red, green: color.green, blue: color.blue }
    }
}

impl vstd::std_specs::convert::FromSpecImpl<RgbaColor> for RgbColor {
    open spec fn obeys_from_spec() -> bool {
        true
    }

    open spec fn from_spec(color: RgbaColor) -> RgbColor {
        color.rgb()
    }
}

impl AnsiColor {
    /// The palette index of the entry.
    pub open spec fn spec_index(&self) -> u8 {
        match *self {
            AnsiColor::Black => 0,
            AnsiColor::Red => 1,
            AnsiColor::Green => 2,
            AnsiColor::Yellow => 3,
            AnsiColor::Blue => 4,
            AnsiColor::Magenta => 5,
            AnsiColor::Cyan => 6,
            AnsiColor::White => 7,
            AnsiColor::BrightBlack => 8,
            AnsiColor::BrightRed => 9,
            AnsiColor::BrightGreen => 10,
            AnsiColor::BrightYellow => 11,
            AnsiColor::BrightBlue => 12,
            AnsiColor::BrightMagenta => 13,
            AnsiColor::BrightCyan => 14,
            AnsiColor::BrightWhite => 15,
        }
    }

    /// The named entry at a palette index, if the index is below sixteen.
    pub open spec fn at(index: u8) -> Option<AnsiColor> {
        match index {
            0 => Some(AnsiColor::Black),
            1 => Some(AnsiColor::Red),
            2 => Some(AnsiColor::Green),
            3 => Some(AnsiColor::Yellow),
            4 => Some(AnsiColor::Blue),
            5 => Some(AnsiColor::Magenta),
            6 => Some(AnsiColor::Cyan),
            7 => Some(AnsiColor::White),
            8 => Some(AnsiColor::BrightBlack),
            9 => Some(AnsiColor::BrightRed),
            10 => Some(AnsiColor::BrightGreen),
            11 => Some(AnsiColor::BrightYellow),
            12 => Some(AnsiColor::BrightBlue),
            13 => Some(AnsiColor::BrightMagenta),
            14 => Some(AnsiColor::BrightCyan),
            15 => Some(AnsiColor::BrightWhite),
            _ => None,
        }
    }

    /// The palette index of the entry.
    #[verifier::when_used_as_spec(spec_index)]
    pub fn index(&self) -> (index: u8)
        ensures
            index == self.spec_index(),
            index < NAMED_COLORS,
    {
        match self {
            AnsiColor::Black => 0,
            AnsiColor::Red => 1,
            AnsiColor::Green => 2,
            AnsiColor::Yellow => 3,
            AnsiColor::Blue => 4,
            AnsiColor::Magenta => 5,
            AnsiColor::Cyan => 6,
            AnsiColor::White => 7,
            AnsiColor::BrightBlack => 8,
            AnsiColor::BrightRed => 9,
            AnsiColor::BrightGreen => 10,
            AnsiColor::BrightYellow => 11,
            AnsiColor::BrightBlue => 12,
            AnsiColor::BrightMagenta => 13,
            AnsiColor::BrightCyan => 14,
            AnsiColor::BrightWhite => 15,
        }
    }

    /// The named entry at a palette index, if the index is below sixteen.
    pub fn from_index(index: u8) -> (entry: Option<AnsiColor>)
        ensures
            entry == AnsiColor::at(index),
            entry is Some <==> index < NAMED_COLORS,
            entry matches Some(found) ==> found.index() == index,
    {
        match index {
            0 => Some(AnsiColor::Black),
            1 => Some(AnsiColor::Red),
            2 => Some(AnsiColor::Green),
            3 => Some(AnsiColor::Yellow),
            4 => Some(AnsiColor::Blue),
            5 => Some(AnsiColor::Magenta),
            6 => Some(AnsiColor::Cyan),
            7 => Some(AnsiColor::White),
            8 => Some(AnsiColor::BrightBlack),
            9 => Some(AnsiColor::BrightRed),
            10 => Some(AnsiColor::BrightGreen),
            11 => Some(AnsiColor::BrightYellow),
            12 => Some(AnsiColor::BrightBlue),
            13 => Some(AnsiColor::BrightMagenta),
            14 => Some(AnsiColor::BrightCyan),
            15 => Some(AnsiColor::BrightWhite),
            _ => None,
        }
    }
}

impl ColorSpec {
    /// The colour as the protocol writes it: a named entry goes by its
    /// palette index.
    pub open spec fn spec_wire(&self) -> WireColor {
        match *self {
            ColorSpec::Reset => WireColor::Reset,
            ColorSpec::Ansi(entry) => WireColor::PaletteIndex(entry.index()),
            ColorSpec::PaletteIndex(index) => WireColor::PaletteIndex(index),
            ColorSpec::TrueColor(color) => WireColor::TrueColor(color),
        }
    }

    /// What a colour on the wire is taken for: a palette index below sixteen
    /// is taken for the named entry.
    pub open spec fn read(wire: WireColor) -> ColorSpec {
        match wire {
            WireColor::Reset => ColorSpec::Reset,
            WireColor::PaletteIndex(index) => match AnsiColor::at(index) {
                Some(entry) => ColorSpec::Ansi(entry),
                None => ColorSpec::PaletteIndex(index),
            },
            WireColor::TrueColor(color) => ColorSpec::TrueColor(color),
        }
    }

    /// The colour as the protocol writes it.
    #[verifier::when_used_as_spec(spec_wire)]
    pub fn wire(&self) -> (wire: WireColor)
        ensures
            wire == self.spec_wire(),
    {
        match self {
            ColorSpec::Reset => WireColor::Reset,
            ColorSpec::Ansi(entry) => WireColor::PaletteIndex(entry.index()),
            ColorSpec::PaletteIndex(index) => WireColor::PaletteIndex(*index),
            ColorSpec::TrueColor(color) => WireColor::TrueColor(*color),
        }
    }

    /// What a colour on the wire is taken for.
    pub fn from_wire(wire: WireColor) -> (color: ColorSpec)
        ensures
            color == ColorSpec::read(wire),
    {
        match wire {
            WireColor::Reset => ColorSpec::Reset,
            WireColor::PaletteIndex(index) => match AnsiColor::from_index(index) {
                Some(entry) => ColorSpec::Ansi(entry),
                None => ColorSpec::PaletteIndex(index),
            },
            WireColor::TrueColor(color) => ColorSpec::TrueColor(color),
        }
    }
}

impl Color {
    /// Whether this is one of the sixteen named colours.
    pub open spec fn is_named(self) -> bool {
        !(self is Reset) && !(self is Rgb) && !(self is Indexed)
    }

    /// The palette entry of a named colour.
    pub open spec fn ansi(self) -> AnsiColor
        recommends
            self.is_named(),
    {
        match self {
            Color::Black => AnsiColor::Black,
            Color::Red => AnsiColor::Red,
            Color::Green => AnsiColor::Green,
            Color::Yellow => AnsiColor::Yellow,
            Color::Blue => AnsiColor::Blue,
            Color::Magenta => AnsiColor::Magenta,
            Color::Cyan => AnsiColor::Cyan,
            Color::Gray => AnsiColor::White,
            Color::DarkGray => AnsiColor::BrightBlack,
            Color::LightRed => AnsiColor::BrightRed,
            Color::LightGreen => AnsiColor::BrightGreen,
            Color::LightYellow => AnsiColor::BrightYellow,
            Color::LightBlue => AnsiColor::BrightBlue,
            Color::LightMagenta => AnsiColor::BrightMagenta,
            Color::LightCyan => AnsiColor::BrightCyan,
            _ => AnsiColor::BrightWhite,
        }
    }

    /// The named colour that a palette entry stands for.
    pub open spec fn named(entry: AnsiColor) -> Color {
        match entry {
            AnsiColor::Black => Color::Black,
            AnsiColor::Red => Color::Red,
            AnsiColor::Green => Color::Green,
            AnsiColor::Yellow => Color::Yellow,
            AnsiColor::Blue => Color::Blue,
            AnsiColor::Magenta => Color::Magenta,
            AnsiColor::Cyan => Color::Cyan,
            AnsiColor::White => Color::Gray,
            AnsiColor::BrightBlack => Color::DarkGray,
            AnsiColor::BrightRed => Color::LightRed,
            AnsiColor::BrightGreen => Color::LightGreen,
            AnsiColor::BrightYellow => Color::LightYellow,
            AnsiColor::BrightBlue => Color::LightBlue,
            AnsiColor::BrightMagenta => Color::LightMagenta,
            AnsiColor::BrightCyan => Color::LightCyan,
            AnsiColor::BrightWhite => Color::White,
        }
    }

    /// The terminal's name for this colour: a named colour is its palette
    /// entry, a palette index and an RGB triple pass through, the triple
    /// fully opaque.
    pub open spec fn to_native(self) -> ColorSpec {
        match self {
            Color::Reset => ColorSpec::Reset,
            Color::Indexed(i) => ColorSpec::PaletteIndex(i),
            Color::Rgb(red, green, blue) => ColorSpec::TrueColor((RgbColor { red, green, blue }).opaque()),
            named => ColorSpec::Ansi(named.ansi()),
        }
    }

    /// The rendering layer's name for a terminal colour: a named entry is
    /// its named colour, a palette index and a true colour pass through, the
    /// true colour without its alpha channel.
    pub open spec fn from_native(value: ColorSpec) -> Color {
        match value {
            ColorSpec::Reset => Color::Reset,
            ColorSpec::Ansi(entry) => Color::named(entry),
            ColorSpec::PaletteIndex(i) => Color::Indexed(i),
            ColorSpec::TrueColor(c) => Color::Rgb(c.red, c.green, c.blue),
        }
    }
}

/// Conversion of a rendering-layer value into its terminal counterpart.
pub trait IntoTermina<C> {
    /// Converts the value into the terminal's type.
    fn into_termina(self) -> C;
}

/// Conversion of a terminal value into its rendering-layer counterpart.
pub trait FromTermina<C>: Sized {
    /// Converts the terminal's value into this type.
    fn from_termina(value: C) -> Self;
}

impl IntoTermina<ColorSpec> for Color {
    fn into_termina(self) -> (native: ColorSpec)
        ensures
            native == self.to_native(),
    {
        match self {
            Color::Reset => ColorSpec::Reset,
            Color::Black => ColorSpec::Ansi(AnsiColor::Black),
            Color::Red => ColorSpec::Ansi(AnsiColor::Red),
            Color::Green => ColorSpec::Ansi(AnsiColor::Green),
            Color::Yellow => ColorSpec::Ansi(AnsiColor::Yellow),
            Color::Blue => ColorSpec::Ansi(AnsiColor::Blue),
            Color::Magenta => ColorSpec::Ansi(AnsiColor::Magenta),
            Color::Cyan => ColorSpec::Ansi(AnsiColor::Cyan),
            Color::Gray => ColorSpec::Ansi(AnsiColor::White),
            Color::DarkGray => ColorSpec::Ansi(AnsiColor::BrightBlack),
            Color::LightRed => ColorSpec::Ansi(AnsiColor::BrightRed),
            Color::LightGreen => ColorSpec::Ansi(AnsiColor::BrightGreen),
            Color::LightBlue => ColorSpec::Ansi(AnsiColor::BrightBlue),
            Color::LightYellow => ColorSpec::Ansi(AnsiColor::BrightYellow),
            Color::LightMagenta => ColorSpec::Ansi(AnsiColor::BrightMagenta),
            Color::LightCyan => ColorSpec::Ansi(AnsiColor::BrightCyan),
            Color::White => ColorSpec::Ansi(AnsiColor::BrightWhite),
            Color::Indexed(i) => ColorSpec::PaletteIndex(i),
            Color::Rgb(r, g, b) => ColorSpec::TrueColor(RgbaColor::from(RgbColor::new(r, g, b))),
        }
    }
}

impl FromTermina<ColorSpec> for Color {
    fn from_termina(value: ColorSpec) -> (color: Color)
        ensures
            color == Color::from_native(value),
    {
        match value {
            ColorSpec::Reset => Color::Reset,
            ColorSpec::Ansi(AnsiColor::Black) => Color::Black,
            ColorSpec::Ansi(AnsiColor::Red) => Color::Red,
            ColorSpec::Ansi(AnsiColor::Green) => Color::Green,
            ColorSpec::Ansi(AnsiColor::Yellow) => Color::Yellow,
            ColorSpec::Ansi(AnsiColor::Blue) => Color::Blue,
            ColorSpec::Ansi(AnsiColor::Magenta) => Color::Magenta,
            ColorSpec::Ansi(AnsiColor::Cyan) => Color::Cyan,
            ColorSpec::Ansi(AnsiColor::White) => Color::Gray,
            ColorSpec::Ansi(AnsiColor::BrightBlack) => Color::DarkGray,
            ColorSpec::Ansi(AnsiColor::BrightRed) => Color::LightRed,
            ColorSpec::Ansi(AnsiColor::BrightGreen) => Color::LightGreen,
            ColorSpec::Ansi(AnsiColor::BrightBlue) => Color::LightBlue,
            ColorSpec::Ansi(AnsiColor::BrightYellow) => Color::LightYellow,
            ColorSpec::Ansi(AnsiColor::BrightMagenta) => Color::LightMagenta,
            ColorSpec::Ansi(AnsiColor::BrightCyan) => Color::LightCyan,
            ColorSpec::Ansi(AnsiColor::BrightWhite) => Color::White,
            ColorSpec::TrueColor(c) => Color::Rgb(c.red, c.green, c.blue),
            ColorSpec::PaletteIndex(v) => Color::Indexed(v),
        }
    }
}

/// Every named colour survives the trip to the terminal's model and back.
pub proof fn lemma_named_round_trip(c: Color)
    requires
        c.is_named(),
    ensures
        Color::from_native(c.to_native()) == c,
{
}

/// Every RGB triple survives the trip to the terminal's model and back.
pub proof fn lemma_rgb_round_trip(r: u8, g: u8, b: u8)
    ensures
        Color::from_native(Color::Rgb(r, g, b).to_native()) == Color::Rgb(r, g, b),
{
}

/// Every palette index survives the trip to the terminal's model and back.
pub proof fn lemma_indexed_round_trip(i: u8)
    ensures
        Color::from_native(Color::Indexed(i).to_native()) == Color::Indexed(i),
{
}

/// Every colour survives the trip to the terminal's model and back.
pub proof fn lemma_round_trip(c: Color)
    ensures
        Color::from_native(c.to_native()) == c,
{
}

/// Whatever comes back from the terminal's model goes there again unchanged,
/// but for the alpha channel of a true colour, which is made opaque.
pub proof fn lemma_native_round_trip(value: ColorSpec)
    ensures
        Color::from_native(value).to_native() == match value {
            ColorSpec::TrueColor(c) => ColorSpec::TrueColor(c.rgb().opaque()),
            other => other,
        },
{
}

/// What is read from the wire is written there again unchanged.
pub proof fn lemma_wire_round_trip(wire: WireColor)
    ensures
        ColorSpec::read(wire).wire() == wire,
{
}

/// A named colour and the palette entry of its index are written alike, and
/// what is read back is the named colour.
pub proof fn lemma_named_entry_on_wire(entry: AnsiColor)
    ensures
        ColorSpec::Ansi(entry).wire() == ColorSpec::PaletteIndex(entry.index()).wire(),
        ColorSpec::read(ColorSpec::Ansi(entry).wire()) == ColorSpec::Ansi(entry),
        AnsiColor::at(entry.index()) == Some(entry),
        entry.index() < NAMED_COLORS,
{
}

} // verus!
