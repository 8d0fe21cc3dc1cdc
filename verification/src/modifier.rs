//! Text attributes and the minimal update that takes a terminal from one set
//! of them to another.
//!
//! [`Modifier`] is the set of attributes a cell asks for. [`SgrModifiers`] is
//! a set of attribute codes to send to the terminal: for every attribute a
//! code that turns it on, and a code that turns it off. Bold and dim share
//! their turn-off code ("normal intensity"), and so do the two blink rates
//! ("no blink").

use vstd::prelude::*;

verus! {

/// The attributes of a cell's text, one bit each.
#[derive(Debug, Clone, Copy, PartialEq, Eq, Hash, Structural)]
pub struct Modifier {
    pub bits: u16,
}

/// A set of attribute codes for the terminal, one bit each. The bits are those
/// of the terminal library's own set, so that a set travels there unchanged.
#[derive(Debug, Clone, Copy, PartialEq, Eq, Hash, Structural)]
pub struct SgrModifiers {
    pub bits: u32,
}

impl Modifier {
    pub const BOLD: u16 = 0x0001;

    pub const DIM: u16 = 0x0002;

    pub const ITALIC: u16 = 0x0004;

    pub const UNDERLINED: u16 = 0x0008;

    pub const SLOW_BLINK: u16 = 0x0010;

    pub const RAPID_BLINK: u16 = 0x0020;

    pub const REVERSED: u16 = 0x0040;

    pub const HIDDEN: u16 = 0x0080;

    pub const CROSSED_OUT: u16 = 0x0100;

    /// Every attribute at once.
    pub const ALL: u16 = 0x01ff;

    /// Only bits that stand for an attribute are set.
    pub open spec fn wf(self) -> bool {
        known_bits(self.bits)
    }

    /// At most one intensity and at most one blink rate are asked for. A
    /// terminal holds one of each, so only such a set is a state that a
    /// terminal can be in.
    pub open spec fn exclusive(self) -> bool {
        exclusive_bits(self.bits)
    }

    pub open spec fn spec_contains(&self, flags: u16) -> bool {
        self.bits & flags == flags
    }

    pub open spec fn spec_difference(self, other: Modifier) -> Modifier {
        Modifier { bits: self.bits & !other.bits }
    }

    pub open spec fn spec_union(self, other: Modifier) -> Modifier {
        Modifier { bits: self.bits | other.bits }
    }

    /// The attributes a terminal shows after it was showing `self` and then
    /// received the codes of `codes`.
    pub open spec fn apply(self, codes: SgrModifiers) -> Modifier {
        Modifier { bits: apply_bits(self.bits, codes.bits) }
    }

    /// No attribute.
    pub fn empty() -> (m: Modifier)
        ensures
            m.bits == 0,
            m.wf(),
            m.exclusive(),
    {
        proof {
            lemma_no_bits();
        }
        Modifier { bits: 0 }
    }

    /// The attributes among `bits`; bits that stand for none are dropped.
    pub fn from_bits_truncate(bits: u16) -> (m: Modifier)
        ensures
            m.bits == bits & Modifier::ALL,
            m.wf(),
            known_bits(bits) ==> m.bits == bits,
    {
        proof {
            lemma_truncate(bits);
        }
        Modifier { bits: bits & Modifier::ALL }
    }

    /// The attributes among `bits`, unless a bit stands for none.
    pub fn from_bits(bits: u16) -> (m: Option<Modifier>)
        ensures
            m is Some <==> known_bits(bits),
            m matches Some(found) ==> found.bits == bits && found.wf(),
    {
        if bits & !Modifier::ALL == 0 {
            Some(Modifier { bits })
        } else {
            None
        }
    }

    pub fn bits(&self) -> (bits: u16)
        ensures
            bits == self.bits,
    {
        self.bits
    }

    pub fn is_empty(&self) -> (empty: bool)
        ensures
            empty == (self.bits == 0),
    {
        self.bits == 0
    }

    /// Whether every attribute of `flags` is in the set.
    #[verifier::when_used_as_spec(spec_contains)]
    pub fn contains(&self, flags: u16) -> (found: bool)
        ensures
            found == self.spec_contains(flags),
    {
        self.bits & flags == flags
    }

    /// The attributes of `self` that `other` lacks.
    #[verifier::when_used_as_spec(spec_difference)]
    pub fn difference(self, other: Modifier) -> (m: Modifier)
        ensures
            m == self.spec_difference(other),
            self.wf() ==> m.wf(),
    {
        proof {
            if self.wf() {
                lemma_subset_known(self.bits, other.bits);
            }
        }
        Modifier { bits: self.bits & !other.bits }
    }

    /// The attributes of either set.
    #[verifier::when_used_as_spec(spec_union)]
    pub fn union(self, other: Modifier) -> (m: Modifier)
        ensures
            m == self.spec_union(other),
            self.wf() && other.wf() ==> m.wf(),
    {
        proof {
            if self.wf() && other.wf() {
                lemma_union_known(self.bits, other.bits);
            }
        }
        Modifier { bits: self.bits | other.bits }
    }
}

impl SgrModifiers {
    /// No code.
    pub const NONE: u32 = 0;

    /// Reset every attribute and colour.
    pub const RESET: u32 = 0x0000_0002;

    pub const INTENSITY_NORMAL: u32 = 0x0000_0004;

    pub const INTENSITY_DIM: u32 = 0x0000_0008;

    pub const INTENSITY_BOLD: u32 = 0x0000_0010;

    pub const UNDERLINE_NONE: u32 = 0x0000_0020;

    pub const UNDERLINE_SINGLE: u32 = 0x0000_0040;

    pub const UNDERLINE_DOUBLE: u32 = 0x0000_0080;

    pub const UNDERLINE_CURLY: u32 = 0x0000_0100;

    pub const UNDERLINE_DOTTED: u32 = 0x0000_0200;

    pub const UNDERLINE_DASHED: u32 = 0x0000_0400;

    pub const BLINK_NONE: u32 = 0x0000_0800;

    pub const BLINK_SLOW: u32 = 0x0000_1000;

    pub const BLINK_RAPID: u32 = 0x0000_2000;

    pub const ITALIC: u32 = 0x0000_4000;

    pub const NO_ITALIC: u32 = 0x0000_8000;

    pub const REVERSE: u32 = 0x0001_0000;

    pub const NO_REVERSE: u32 = 0x0002_0000;

    pub const INVISIBLE: u32 = 0x0004_0000;

    pub const NO_INVISIBLE: u32 = 0x0008_0000;

    pub const STRIKE_THROUGH: u32 = 0x0010_0000;

    pub const NO_STRIKE_THROUGH: u32 = 0x0020_0000;

    /// Every code at once.
    pub const ALL: u32 = 0x003f_fffe;

    /// Only bits that stand for a code are set.
    pub open spec fn wf(self) -> bool {
        self.bits & !SgrModifiers::ALL == 0
    }

    pub open spec fn spec_contains(&self, codes: u32) -> bool {
        self.bits & codes == codes
    }

    pub open spec fn spec_is_empty(&self) -> bool {
        self.bits == 0
    }

    /// No code.
    pub fn empty() -> (m: SgrModifiers)
        ensures
            m.bits == 0,
    {
        SgrModifiers { bits: 0 }
    }

    pub fn bits(&self) -> (bits: u32)
        ensures
            bits == self.bits,
    {
        self.bits
    }

    #[verifier::when_used_as_spec(spec_is_empty)]
    pub fn is_empty(&self) -> (empty: bool)
        ensures
            empty == self.spec_is_empty(),
    {
        self.bits == 0
    }

    /// Whether every code of `codes` is in the set.
    #[verifier::when_used_as_spec(spec_contains)]
    pub fn contains(&self, codes: u32) -> (found: bool)
        ensures
            found == self.spec_contains(codes),
    {
        self.bits & codes == codes
    }

    /// Adds the codes of `codes` to the set.
    pub fn insert(&mut self, codes: u32)
        ensures
            final(self).bits == old(self).bits | codes,
    {
        self.bits = self.bits | codes;
    }

    /// Adds the codes of `codes` to the set where they are wanted.
    pub fn insert_if(&mut self, wanted: bool, codes: u32)
        ensures
            final(self).bits == old(self).bits | code_if(wanted, codes),
    {
        if wanted {
            self.bits = self.bits | codes;
        } else {
            let bits = self.bits;
            assert(bits | 0 == bits) by (bit_vector);
        }
    }
}

/// Only bits that stand for an attribute are set.
pub open spec fn known_bits(bits: u16) -> bool {
    bits & !Modifier::ALL == 0
}

/// Not both intensities and not both blink rates.
pub open spec fn exclusive_bits(bits: u16) -> bool {
    &&& bits & (Modifier::BOLD | Modifier::DIM) != Modifier::BOLD | Modifier::DIM
    &&& bits & (Modifier::SLOW_BLINK | Modifier::RAPID_BLINK) != Modifier::SLOW_BLINK
        | Modifier::RAPID_BLINK
}

/// `code` where it is wanted, and no code where it is not.
pub open spec fn code_if(wanted: bool, code: u32) -> u32 {
    if wanted {
        code
    } else {
        SgrModifiers::NONE
    }
}

/// The codes that take a terminal from the attributes `from` to the
/// attributes `to`: for each attribute that goes away its turn-off code, for
/// each that comes its turn-on code, and nothing for one that stays. Normal
/// intensity is not sent for bold going away when dim comes in the same step,
/// because the dim code replaces bold by itself.
pub open spec fn diff_bits(from: u16, to: u16) -> u32 {
    let removed = from & !to;
    let added = to & !from;
    SgrModifiers::NONE
        | code_if(removed & Modifier::REVERSED == Modifier::REVERSED, SgrModifiers::NO_REVERSE)
        | code_if(
            (removed & Modifier::BOLD == Modifier::BOLD && !(added & Modifier::DIM == Modifier::DIM))
                || removed & Modifier::DIM == Modifier::DIM,
            SgrModifiers::INTENSITY_NORMAL,
        )
        | code_if(removed & Modifier::ITALIC == Modifier::ITALIC, SgrModifiers::NO_ITALIC)
        | code_if(removed & Modifier::UNDERLINED == Modifier::UNDERLINED, SgrModifiers::UNDERLINE_NONE)
        | code_if(
            removed & Modifier::CROSSED_OUT == Modifier::CROSSED_OUT,
            SgrModifiers::NO_STRIKE_THROUGH,
        )
        | code_if(removed & Modifier::HIDDEN == Modifier::HIDDEN, SgrModifiers::NO_INVISIBLE)
        | code_if(
            removed & Modifier::SLOW_BLINK == Modifier::SLOW_BLINK || removed & Modifier::RAPID_BLINK
                == Modifier::RAPID_BLINK,
            SgrModifiers::BLINK_NONE,
        )
        | code_if(added & Modifier::REVERSED == Modifier::REVERSED, SgrModifiers::REVERSE)
        | code_if(added & Modifier::BOLD == Modifier::BOLD, SgrModifiers::INTENSITY_BOLD)
        | code_if(added & Modifier::DIM == Modifier::DIM, SgrModifiers::INTENSITY_DIM)
        | code_if(added & Modifier::ITALIC == Modifier::ITALIC, SgrModifiers::ITALIC)
        | code_if(added & Modifier::UNDERLINED == Modifier::UNDERLINED, SgrModifiers::UNDERLINE_SINGLE)
        | code_if(added & Modifier::CROSSED_OUT == Modifier::CROSSED_OUT, SgrModifiers::STRIKE_THROUGH)
        | code_if(added & Modifier::HIDDEN == Modifier::HIDDEN, SgrModifiers::INVISIBLE)
        | code_if(added & Modifier::SLOW_BLINK == Modifier::SLOW_BLINK, SgrModifiers::BLINK_SLOW)
        | code_if(added & Modifier::RAPID_BLINK == Modifier::RAPID_BLINK, SgrModifiers::BLINK_RAPID)
}

/// `attributes` where a code was sent, and none where it was not.
pub open spec fn attributes_if(sent: bool, attributes: u16) -> u16 {
    if sent {
        attributes
    } else {
        0
    }
}

/// `state` after one code: where the code was sent, the attributes of `off`
/// are cleared and then those of `on` are set.
pub open spec fn after_code(state: u16, sent: bool, off: u16, on: u16) -> u16 {
    (state & !attributes_if(sent, off)) | attributes_if(sent, on)
}

/// The attributes a terminal shows after it was showing `state` and then
/// received the codes of `codes`, in the order in which a set of codes is
/// written out: within intensity, underline and blink the shared turn-off
/// code first; for the other attributes the turn-on code, then the turn-off
/// code. A terminal holds one intensity and one blink rate, so the code for
/// one replaces the other.
pub open spec fn apply_bits(state: u16, codes: u32) -> u16 {
    let intensity = Modifier::BOLD | Modifier::DIM;
    let blink = Modifier::SLOW_BLINK | Modifier::RAPID_BLINK;
    let s = state;
    let s = after_code(s, codes & SgrModifiers::RESET != 0, Modifier::ALL, 0);
    let s = after_code(s, codes & SgrModifiers::INTENSITY_NORMAL != 0, intensity, 0);
    let s = after_code(s, codes & SgrModifiers::INTENSITY_DIM != 0, intensity, Modifier::DIM);
    let s = after_code(s, codes & SgrModifiers::INTENSITY_BOLD != 0, intensity, Modifier::BOLD);
    let s = after_code(s, codes & SgrModifiers::UNDERLINE_NONE != 0, Modifier::UNDERLINED, 0);
    let s = after_code(s, codes & SgrModifiers::UNDERLINE_SINGLE != 0, 0, Modifier::UNDERLINED);
    let s = after_code(s, codes & SgrModifiers::UNDERLINE_DOUBLE != 0, 0, Modifier::UNDERLINED);
    let s = after_code(s, codes & SgrModifiers::UNDERLINE_CURLY != 0, 0, Modifier::UNDERLINED);
    let s = after_code(s, codes & SgrModifiers::UNDERLINE_DOTTED != 0, 0, Modifier::UNDERLINED);
    let s = after_code(s, codes & SgrModifiers::UNDERLINE_DASHED != 0, 0, Modifier::UNDERLINED);
    let s = after_code(s, codes & SgrModifiers::BLINK_NONE != 0, blink, 0);
    let s = after_code(s, codes & SgrModifiers::BLINK_SLOW != 0, blink, Modifier::SLOW_BLINK);
    let s = after_code(s, codes & SgrModifiers::BLINK_RAPID != 0, blink, Modifier::RAPID_BLINK);
    let s = after_code(s, codes & SgrModifiers::ITALIC != 0, 0, Modifier::ITALIC);
    let s = after_code(s, codes & SgrModifiers::NO_ITALIC != 0, Modifier::ITALIC, 0);
    let s = after_code(s, codes & SgrModifiers::REVERSE != 0, 0, Modifier::REVERSED);
    let s = after_code(s, codes & SgrModifiers::NO_REVERSE != 0, Modifier::REVERSED, 0);
    let s = after_code(s, codes & SgrModifiers::INVISIBLE != 0, 0, Modifier::HIDDEN);
    let s = after_code(s, codes & SgrModifiers::NO_INVISIBLE != 0, Modifier::HIDDEN, 0);
    let s = after_code(s, codes & SgrModifiers::STRIKE_THROUGH != 0, 0, Modifier::CROSSED_OUT);
    let s = after_code(s, codes & SgrModifiers::NO_STRIKE_THROUGH != 0, Modifier::CROSSED_OUT, 0);
    s
}

/// The codes that take a terminal from the attributes `from` to the
/// attributes `to`.
pub open spec fn diff(from: Modifier, to: Modifier) -> SgrModifiers {
    SgrModifiers { bits: diff_bits(from.bits, to.bits) }
}

/// Computes the codes that take a terminal from the attributes `from` to the
/// attributes `to`, and no code for an attribute that does not change.
pub fn diff_modifiers(from: Modifier, to: Modifier) -> (codes: SgrModifiers)
    ensures
        codes == diff(from, to),
        from == to ==> codes.is_empty(),
        !codes.contains(SgrModifiers::RESET),
        codes.wf(),
{
    let removed = from.difference(to);
    let added = to.difference(from);

    let mut codes = SgrModifiers::empty();
    codes.insert_if(removed.contains(Modifier::REVERSED), SgrModifiers::NO_REVERSE);
    codes.insert_if(
        (removed.contains(Modifier::BOLD) && !added.contains(Modifier::DIM)) || removed.contains(
            Modifier::DIM,
        ),
        SgrModifiers::INTENSITY_NORMAL,
    );
    codes.insert_if(removed.contains(Modifier::ITALIC), SgrModifiers::NO_ITALIC);
    codes.insert_if(removed.contains(Modifier::UNDERLINED), SgrModifiers::UNDERLINE_NONE);
    codes.insert_if(removed.contains(Modifier::CROSSED_OUT), SgrModifiers::NO_STRIKE_THROUGH);
    codes.insert_if(removed.contains(Modifier::HIDDEN), SgrModifiers::NO_INVISIBLE);
    codes.insert_if(
        removed.contains(Modifier::SLOW_BLINK) || removed.contains(Modifier::RAPID_BLINK),
        SgrModifiers::BLINK_NONE,
    );

    codes.insert_if(added.contains(Modifier::REVERSED), SgrModifiers::REVERSE);
    codes.insert_if(added.contains(Modifier::BOLD), SgrModifiers::INTENSITY_BOLD);
    codes.insert_if(added.contains(Modifier::DIM), SgrModifiers::INTENSITY_DIM);
    codes.insert_if(added.contains(Modifier::ITALIC), SgrModifiers::ITALIC);
    codes.insert_if(added.contains(Modifier::UNDERLINED), SgrModifiers::UNDERLINE_SINGLE);
    codes.insert_if(added.contains(Modifier::CROSSED_OUT), SgrModifiers::STRIKE_THROUGH);
    codes.insert_if(added.contains(Modifier::HIDDEN), SgrModifiers::INVISIBLE);
    codes.insert_if(added.contains(Modifier::SLOW_BLINK), SgrModifiers::BLINK_SLOW);
    codes.insert_if(added.contains(Modifier::RAPID_BLINK), SgrModifiers::BLINK_RAPID);
    proof {
        lemma_diff_of_equal_is_empty(from);
        lemma_diff_shape(from, to);
    }
    codes
}

proof fn lemma_no_bits()
    by (bit_vector)
    ensures
        known_bits(0),
        exclusive_bits(0),
{
}

proof fn lemma_truncate(bits: u16)
    by (bit_vector)
    ensures
        known_bits(bits & Modifier::ALL),
        known_bits(bits) ==> bits & Modifier::ALL == bits,
{
}

proof fn lemma_subset_known(a: u16, b: u16)
    by (bit_vector)
    requires
        known_bits(a),
    ensures
        known_bits(a & !b),
{
}

proof fn lemma_union_known(a: u16, b: u16)
    by (bit_vector)
    requires
        known_bits(a),
        known_bits(b),
    ensures
        known_bits(a | b),
{
}

proof fn lemma_diff_bits_reach(from: u16, to: u16)
    by (bit_vector)
    requires
        known_bits(from),
        known_bits(to),
        exclusive_bits(from),
        exclusive_bits(to),
    ensures
        apply_bits(from, diff_bits(from, to)) == to,
{
}

proof fn lemma_diff_bits_same(a: u16)
    by (bit_vector)
    ensures
        diff_bits(a, a) == 0,
{
}

proof fn lemma_diff_bits_empty(from: u16, to: u16)
    by (bit_vector)
    requires
        known_bits(from),
        known_bits(to),
        diff_bits(from, to) == 0,
    ensures
        from == to,
{
}

proof fn lemma_diff_bits_shape(from: u16, to: u16)
    by (bit_vector)
    ensures
        diff_bits(from, to) & !SgrModifiers::ALL == 0,
        diff_bits(from, to) & SgrModifiers::RESET != SgrModifiers::RESET,
        diff_bits(from, to) & (SgrModifiers::UNDERLINE_DOUBLE | SgrModifiers::UNDERLINE_CURLY
            | SgrModifiers::UNDERLINE_DOTTED | SgrModifiers::UNDERLINE_DASHED) == 0,
{
}

/// Sending the codes of `diff(from, to)` to a terminal that shows `from`
/// leaves it showing `to`. This holds where both sets are states of a
/// terminal: with bold and dim at once, or both blink rates, in either of
/// them it does not.
pub proof fn lemma_diff_reaches_target(from: Modifier, to: Modifier)
    requires
        from.wf(),
        to.wf(),
        from.exclusive(),
        to.exclusive(),
    ensures
        from.apply(diff(from, to)) == to,
{
    lemma_diff_bits_reach(from.bits, to.bits);
}

/// Nothing is sent where nothing changes.
pub proof fn lemma_diff_of_equal_is_empty(a: Modifier)
    ensures
        diff(a, a).is_empty(),
{
    lemma_diff_bits_same(a.bits);
}

/// Something is sent wherever an attribute changes.
pub proof fn lemma_empty_diff_means_equal(from: Modifier, to: Modifier)
    requires
        from.wf(),
        to.wf(),
        diff(from, to).is_empty(),
    ensures
        from == to,
{
    lemma_diff_bits_empty(from.bits, to.bits);
}

/// A difference holds codes for single attributes only: never the blanket
/// reset, which would also clear what was meant to stay, and no underline
/// style but the plain one.
pub proof fn lemma_diff_shape(from: Modifier, to: Modifier)
    ensures
        diff(from, to).wf(),
        !diff(from, to).contains(SgrModifiers::RESET),
        diff(from, to).bits & (SgrModifiers::UNDERLINE_DOUBLE | SgrModifiers::UNDERLINE_CURLY
            | SgrModifiers::UNDERLINE_DOTTED | SgrModifiers::UNDERLINE_DASHED) == 0,
{
    lemma_diff_bits_shape(from.bits, to.bits);
}

} // verus!
