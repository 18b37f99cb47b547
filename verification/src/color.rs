//! Colors, text attributes, and the style a cell carries.
//!
//! The drawing logic only ever stores and compares these values; turning
//! them into escape codes is the responsibility of whatever drives the
//! terminal. Blending for anti-aliasing happens on 8-bit RGB channels.

use vstd::prelude::*;

verus! {

/// A terminal color: one of the 16 ANSI names, a 24-bit RGB value, an
/// 8-bit palette index, or the terminal's configured default (`Reset`).
#[derive(Clone, Copy, Debug, PartialEq, Eq, Structural)]
pub enum Color {
    Reset,
    Black,
    DarkGrey,
    Red,
    DarkRed,
    Green,
    DarkGreen,
    Yellow,
    DarkYellow,
    Blue,
    DarkBlue,
    Magenta,
    DarkMagenta,
    Cyan,
    DarkCyan,
    White,
    Grey,
    Rgb { r: u8, g: u8, b: u8 },
    AnsiValue(u8),
}

/// A 24-bit RGB triple, the channel format anti-aliased drawing blends in.
#[derive(Clone, Copy, Debug, PartialEq, Eq, Structural)]
pub struct Rgb8 {
    pub r: u8,
    pub g: u8,
    pub b: u8,
}

impl Rgb8 {
    pub fn new(r: u8, g: u8, b: u8) -> (c: Rgb8)
        ensures
            c == (Rgb8 { r, g, b }),
    {
        Rgb8 { r, g, b }
    }

    /// The `Color` that paints this RGB value.
    pub fn to_color(self) -> (c: Color)
        ensures
            c == (Color::Rgb { r: self.r, g: self.g, b: self.b }),
    {
        Color::Rgb { r: self.r, g: self.g, b: self.b }
    }
}

/// One text attribute. Each maps to a distinct bit in [`Attributes`].
#[derive(Clone, Copy, Debug, PartialEq, Eq, Structural)]
pub enum Attribute {
    Reset,
    Bold,
    Dim,
    Italic,
    Underlined,
    SlowBlink,
    RapidBlink,
    Reverse,
    Hidden,
    CrossedOut,
    NoItalic,
}

impl Attribute {
    /// The bit this attribute occupies in an attribute set.
    pub open spec fn spec_mask(self) -> u32 {
        match self {
            Attribute::Reset => 0x001,
            Attribute::Bold => 0x002,
            Attribute::Dim => 0x004,
            Attribute::Italic => 0x008,
            Attribute::Underlined => 0x010,
            Attribute::SlowBlink => 0x020,
            Attribute::RapidBlink => 0x040,
            Attribute::Reverse => 0x080,
            Attribute::Hidden => 0x100,
            Attribute::CrossedOut => 0x200,
            Attribute::NoItalic => 0x400,
        }
    }

    #[verifier::when_used_as_spec(spec_mask)]
    pub fn mask(self) -> (m: u32)
        ensures
            m == self.spec_mask(),
    {
        match self {
            Attribute::Reset => 0x001,
            Attribute::Bold => 0x002,
            Attribute::Dim => 0x004,
            Attribute::Italic => 0x008,
            Attribute::Underlined => 0x010,
            Attribute::SlowBlink => 0x020,
            Attribute::RapidBlink => 0x040,
            Attribute::Reverse => 0x080,
            Attribute::Hidden => 0x100,
            Attribute::CrossedOut => 0x200,
            Attribute::NoItalic => 0x400,
        }
    }
}

/// A set of text attributes, one bit per [`Attribute`].
#[derive(Clone, Copy, Debug, PartialEq, Eq, Structural)]
pub struct Attributes {
    pub bits: u32,
}

impl Attributes {
    /// The empty attribute set.
    pub fn none() -> (a: Attributes)
        ensures
            a.bits == 0,
    {
        Attributes { bits: 0 }
    }

    /// Whether `attr` is in the set.
    pub open spec fn spec_has(self, attr: Attribute) -> bool {
        self.bits & attr.spec_mask() != 0
    }

    #[verifier::when_used_as_spec(spec_has)]
    pub fn has(self, attr: Attribute) -> (r: bool)
        ensures
            r == self.spec_has(attr),
    {
        self.bits & attr.mask() != 0
    }

    /// The set with `attr` added.
    pub fn set(self, attr: Attribute) -> (a: Attributes)
        ensures
            a.bits == self.bits | attr.spec_mask(),
            a.has(attr),
            forall|other: Attribute| self.has(other) ==> a.has(other),
    {
        let bits = self.bits | attr.mask();
        proof {
            let old_bits = self.bits;
            let mask = attr.spec_mask();
            assert(mask != 0);
            assert((old_bits | mask) & mask != 0) by (bit_vector)
                requires
                    mask != 0,
            ;
            assert(forall|m: u32| (old_bits & m != 0) ==> ((old_bits | mask) & m != 0))
                by (bit_vector);
        }
        Attributes { bits }
    }
}

impl Default for Attributes {
    fn default() -> (a: Attributes)
        ensures
            a.bits == 0,
    {
        Attributes { bits: 0 }
    }
}

/// The full style a cell carries: color slots and attribute set. The two
/// color slots double as the storage for the two half-block sub-pixels.
#[derive(Clone, Copy, Debug, PartialEq, Eq, Structural)]
pub struct CellStyle {
    pub foreground_color: Option<Color>,
    pub background_color: Option<Color>,
    pub underline_color: Option<Color>,
    pub attributes: Attributes,
}

impl Default for CellStyle {
    fn default() -> (s: CellStyle)
        ensures
            s == CellStyle::empty(),
    {
        CellStyle {
            foreground_color: None,
            background_color: None,
            underline_color: None,
            attributes: Attributes { bits: 0 },
        }
    }
}

impl CellStyle {
    /// The style with nothing set: what a blank cell carries.
    pub open spec fn empty() -> CellStyle {
        CellStyle {
            foreground_color: None,
            background_color: None,
            underline_color: None,
            attributes: Attributes { bits: 0 },
        }
    }

    pub fn new_empty() -> (s: CellStyle)
        ensures
            s == CellStyle::empty(),
    {
        CellStyle {
            foreground_color: None,
            background_color: None,
            underline_color: None,
            attributes: Attributes { bits: 0 },
        }
    }
}

/// One channel of the anti-aliasing blend: the value `cover/total` of the
/// way from `bg` to `fg`, as an exact rational, rounded down.
///
/// `bg*(total-cover) + fg*cover` over `total` equals
/// `bg + (fg - bg)*cover/total`; the former stays non-negative, so floor
/// division computes it without signed arithmetic.
pub open spec fn spec_blend_channel(bg: u8, fg: u8, cover: int, total: int) -> int
    recommends
        0 < total,
        0 <= cover <= total,
{
    (bg * (total - cover) + fg * cover) / total
}

/// Blends one 8-bit channel `cover/total` of the way from `bg` to `fg`.
pub fn blend_channel(bg: u8, fg: u8, cover: u32, total: u32) -> (r: u8)
    requires
        0 < total,
        cover <= total,
        total <= 0x100_0000,
    ensures
        r == spec_blend_channel(bg, fg, cover as int, total as int),
{
    proof {
        assert(bg * (total - cover) <= 255 * 0x100_0000) by (nonlinear_arith)
            requires
                bg <= 255,
                0 <= total - cover <= 0x100_0000,
        ;
        assert(fg * cover <= 255 * 0x100_0000) by (nonlinear_arith)
            requires
                fg <= 255,
                0 <= cover <= 0x100_0000,
        ;
    }
    let num: u64 = (bg as u64) * ((total - cover) as u64) + (fg as u64) * (cover as u64);
    let q: u64 = num / (total as u64);
    proof {
        let b = bg as int;
        let f = fg as int;
        let c = cover as int;
        let t = total as int;
        assert(b * (t - c) + f * c <= 255 * (t - c) + 255 * c) by (nonlinear_arith)
            requires
                b <= 255,
                f <= 255,
                0 <= c <= t,
        ;
        assert(255 * (t - c) + 255 * c == 255 * t) by (nonlinear_arith);
        assert((b * (t - c) + f * c) / t <= (255 * t) / t) by (nonlinear_arith)
            requires
                0 < t,
                b * (t - c) + f * c <= 255 * t,
                0 <= b * (t - c) + f * c,
        ;
        assert((255 * t) / t == 255) by (nonlinear_arith)
            requires
                0 < t,
        ;
    }
    q as u8
}

/// Blends a full RGB color `cover/total` of the way from `bg` to `fg`.
pub fn blend_rgb(bg: Rgb8, fg: Rgb8, cover: u32, total: u32) -> (r: Rgb8)
    requires
        0 < total,
        cover <= total,
        total <= 0x100_0000,
    ensures
        r.r == spec_blend_channel(bg.r, fg.r, cover as int, total as int),
        r.g == spec_blend_channel(bg.g, fg.g, cover as int, total as int),
        r.b == spec_blend_channel(bg.b, fg.b, cover as int, total as int),
{
    Rgb8 {
        r: blend_channel(bg.r, fg.r, cover, total),
        g: blend_channel(bg.g, fg.g, cover, total),
        b: blend_channel(bg.b, fg.b, cover, total),
    }
}

/// Full coverage paints the foreground exactly; zero coverage leaves the
/// background exactly.
pub proof fn lemma_blend_extremes(bg: u8, fg: u8, total: int)
    requires
        0 < total,
    ensures
        spec_blend_channel(bg, fg, total, total) == fg,
        spec_blend_channel(bg, fg, 0, total) == bg,
{
    assert((bg * (total - total) + fg * total) / total == fg) by (nonlinear_arith)
        requires
            0 < total,
    ;
    assert((bg * (total - 0) + fg * 0) / total == bg) by (nonlinear_arith)
        requires
            0 < total,
    ;
}

} // verus!
