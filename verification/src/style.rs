//! The style a text box is painted with: colors, attributes, per-edge
//! borders and padding, and alignment.
//!
//! Styles are plain configuration values; every mutation is a pure
//! transformation returning a modified copy, so styled calls chain
//! without hidden state.

use vstd::prelude::*;

use crate::align::CanvasAlignment;
use crate::color::Attribute;
use crate::color::Attributes;
use crate::color::CellStyle;
use crate::color::Color;
use crate::color::Rgb8;

verus! {

/// How borders are drawn.
#[derive(Clone, Copy, Debug, PartialEq, Eq, Structural)]
pub enum BorderType {
    HalfBlock,
    PaddedHalfBlock,
    Line,
}

impl Default for BorderType {
    fn default() -> (r: BorderType)
        ensures
            r == BorderType::HalfBlock,
    {
        BorderType::HalfBlock
    }
}

/// Optional per-edge border colors. A configured edge contributes one
/// cell of width or height; an unconfigured edge contributes nothing.
#[derive(Clone, Copy, Debug, PartialEq, Eq, Structural)]
pub struct BorderStyle {
    /// The border type.
    pub border_type: BorderType,
    /// The top border color.
    pub top_border: Option<Color>,
    /// The bottom border color.
    pub bottom_border: Option<Color>,
    /// The right border color.
    pub right_border: Option<Color>,
    /// The left border color.
    pub left_border: Option<Color>,
}

impl Default for BorderStyle {
    fn default() -> (r: BorderStyle)
        ensures
            r == BorderStyle::empty(),
    {
        BorderStyle {
            border_type: BorderType::HalfBlock,
            top_border: None,
            bottom_border: None,
            right_border: None,
            left_border: None,
        }
    }
}

impl BorderStyle {
    /// The style with no edge configured.
    pub open spec fn empty() -> BorderStyle {
        BorderStyle {
            border_type: BorderType::HalfBlock,
            top_border: None,
            bottom_border: None,
            right_border: None,
            left_border: None,
        }
    }

    /// The thickness of a configured border edge, in cells.
    pub open spec fn spec_border_width(self) -> u16 {
        1
    }

    pub fn border_width(&self) -> (r: u16)
        ensures
            r == self.spec_border_width(),
    {
        1
    }

    pub open spec fn spec_left_width(self) -> u16 {
        if self.left_border is Some {
            self.spec_border_width()
        } else {
            0
        }
    }

    pub open spec fn spec_right_width(self) -> u16 {
        if self.right_border is Some {
            self.spec_border_width()
        } else {
            0
        }
    }

    pub open spec fn spec_top_width(self) -> u16 {
        if self.top_border is Some {
            self.spec_border_width()
        } else {
            0
        }
    }

    pub open spec fn spec_bottom_width(self) -> u16 {
        if self.bottom_border is Some {
            self.spec_border_width()
        } else {
            0
        }
    }

    /// The width the left border adds to a box.
    pub fn left_width(&self) -> (r: u16)
        ensures
            r == self.spec_left_width(),
    {
        if self.left_border.is_some() {
            self.border_width()
        } else {
            0
        }
    }

    /// The width the right border adds to a box.
    pub fn right_width(&self) -> (r: u16)
        ensures
            r == self.spec_right_width(),
    {
        if self.right_border.is_some() {
            self.border_width()
        } else {
            0
        }
    }

    /// The height the top border adds to a box.
    pub fn top_width(&self) -> (r: u16)
        ensures
            r == self.spec_top_width(),
    {
        if self.top_border.is_some() {
            self.border_width()
        } else {
            0
        }
    }

    /// The height the bottom border adds to a box.
    pub fn bottom_width(&self) -> (r: u16)
        ensures
            r == self.spec_bottom_width(),
    {
        if self.bottom_border.is_some() {
            self.border_width()
        } else {
            0
        }
    }

    /// The total width both vertical borders add to a box.
    pub fn extra_width(&self) -> (r: u16)
        ensures
            r == self.spec_left_width() + self.spec_right_width(),
    {
        self.left_width() + self.right_width()
    }

    /// The total height both horizontal borders add to a box.
    pub fn extra_height(&self) -> (r: u16)
        ensures
            r == self.spec_top_width() + self.spec_bottom_width(),
    {
        self.top_width() + self.bottom_width()
    }
}

/// Per-edge padding, in cells, independent of borders.
#[derive(Clone, Copy, Debug, PartialEq, Eq, Structural)]
pub struct Padding {
    /// The top padding.
    pub top_padding: u16,
    /// The bottom padding.
    pub bottom_padding: u16,
    /// The right padding.
    pub right_padding: u16,
    /// The left padding.
    pub left_padding: u16,
}

impl Default for Padding {
    fn default() -> (r: Padding)
        ensures
            r == Padding::none(),
    {
        Padding { top_padding: 0, bottom_padding: 0, right_padding: 0, left_padding: 0 }
    }
}

impl Padding {
    /// No padding on any edge.
    pub open spec fn none() -> Padding {
        Padding { top_padding: 0, bottom_padding: 0, right_padding: 0, left_padding: 0 }
    }
}

/// The full style of one printed text box.
#[derive(Clone, Copy, Debug, PartialEq, Eq, Structural)]
pub struct PrintStyle {
    /// The foreground color.
    pub foreground_color: Option<Color>,
    /// The background color.
    pub background_color: Option<Color>,
    /// The underline color.
    pub underline_color: Option<Color>,
    /// The border style.
    pub border_style: BorderStyle,
    /// The content padding.
    pub padding: Padding,
    /// The content alignment.
    pub alignment: Option<CanvasAlignment>,
    /// The set of text attributes.
    pub attributes: Attributes,
}

impl Default for PrintStyle {
    fn default() -> (r: PrintStyle)
        ensures
            r == PrintStyle::plain(),
    {
        PrintStyle {
            foreground_color: None,
            background_color: None,
            underline_color: None,
            border_style: BorderStyle {
                border_type: BorderType::HalfBlock,
                top_border: None,
                bottom_border: None,
                right_border: None,
                left_border: None,
            },
            padding: Padding { top_padding: 0, bottom_padding: 0, right_padding: 0, left_padding: 0 },
            alignment: None,
            attributes: Attributes { bits: 0 },
        }
    }
}

impl PrintStyle {
    /// The style with nothing configured.
    pub open spec fn plain() -> PrintStyle {
        PrintStyle {
            foreground_color: None,
            background_color: None,
            underline_color: None,
            border_style: BorderStyle::empty(),
            padding: Padding::none(),
            alignment: None,
            attributes: Attributes { bits: 0 },
        }
    }

    /// The cells the box is wider than its content on the left: padding
    /// plus border.
    pub open spec fn spec_left_width(self) -> int {
        self.padding.left_padding + self.border_style.spec_left_width()
    }

    pub open spec fn spec_right_width(self) -> int {
        self.padding.right_padding + self.border_style.spec_right_width()
    }

    pub open spec fn spec_top_width(self) -> int {
        self.padding.top_padding + self.border_style.spec_top_width()
    }

    pub open spec fn spec_bottom_width(self) -> int {
        self.padding.bottom_padding + self.border_style.spec_bottom_width()
    }

    /// The width the style adds around the content on both sides.
    pub open spec fn spec_extra_width(self) -> int {
        self.spec_left_width() + self.spec_right_width()
    }

    /// The height the style adds around the content on both sides.
    pub open spec fn spec_extra_height(self) -> int {
        self.spec_top_width() + self.spec_bottom_width()
    }

    pub fn left_width(&self) -> (r: u16)
        requires
            self.spec_left_width() <= u16::MAX,
        ensures
            r == self.spec_left_width(),
    {
        self.padding.left_padding + self.border_style.left_width()
    }

    pub fn right_width(&self) -> (r: u16)
        requires
            self.spec_right_width() <= u16::MAX,
        ensures
            r == self.spec_right_width(),
    {
        self.padding.right_padding + self.border_style.right_width()
    }

    pub fn top_width(&self) -> (r: u16)
        requires
            self.spec_top_width() <= u16::MAX,
        ensures
            r == self.spec_top_width(),
    {
        self.padding.top_padding + self.border_style.top_width()
    }

    pub fn bottom_width(&self) -> (r: u16)
        requires
            self.spec_bottom_width() <= u16::MAX,
        ensures
            r == self.spec_bottom_width(),
    {
        self.padding.bottom_padding + self.border_style.bottom_width()
    }

    pub fn extra_width(&self) -> (r: u16)
        requires
            self.spec_extra_width() <= u16::MAX,
        ensures
            r == self.spec_extra_width(),
    {
        self.left_width() + self.right_width()
    }

    pub fn extra_height(&self) -> (r: u16)
        requires
            self.spec_extra_height() <= u16::MAX,
        ensures
            r == self.spec_extra_height(),
    {
        self.top_width() + self.bottom_width()
    }

    /// The style the content glyphs themselves carry.
    pub open spec fn spec_content_style(self) -> CellStyle {
        CellStyle {
            foreground_color: self.foreground_color,
            background_color: self.background_color,
            underline_color: self.underline_color,
            attributes: self.attributes,
        }
    }

    pub fn content_style(&self) -> (r: CellStyle)
        ensures
            r == self.spec_content_style(),
    {
        CellStyle {
            foreground_color: self.foreground_color,
            background_color: self.background_color,
            underline_color: self.underline_color,
            attributes: self.attributes,
        }
    }

    /// Applies this style to `content`, ready to print.
    pub fn apply(self, content: &str) -> (r: StyledPrint<'_>)
        ensures
            r.spec_content() == content@,
            r.spec_style() == self,
    {
        StyledPrint { content, style: self }
    }

    /// The style with the foreground color set.
    pub fn with(self, color: Color) -> (r: PrintStyle)
        ensures
            r == (PrintStyle { foreground_color: Some(color), ..self }),
    {
        PrintStyle { foreground_color: Some(color), ..self }
    }

    /// The style with the background color set.
    pub fn on(self, color: Color) -> (r: PrintStyle)
        ensures
            r == (PrintStyle { background_color: Some(color), ..self }),
    {
        PrintStyle { background_color: Some(color), ..self }
    }

    /// The style with the underline color set.
    pub fn underline(self, color: Color) -> (r: PrintStyle)
        ensures
            r == (PrintStyle { underline_color: Some(color), ..self }),
    {
        PrintStyle { underline_color: Some(color), ..self }
    }

    /// The style with `attr` added to the attribute set.
    pub fn attribute(self, attr: Attribute) -> (r: PrintStyle)
        ensures
            r.attributes.bits == self.attributes.bits | attr.spec_mask(),
            r == (PrintStyle { attributes: r.attributes, ..self }),
    {
        PrintStyle { attributes: self.attributes.set(attr), ..self }
    }

    /// The style with the alignment set.
    pub fn align(self, alignment: CanvasAlignment) -> (r: PrintStyle)
        ensures
            r == (PrintStyle { alignment: Some(alignment), ..self }),
    {
        PrintStyle { alignment: Some(alignment), ..self }
    }

    /// The style with the top border set to `color`.
    pub fn top_border_with(self, color: Color) -> (r: PrintStyle)
        ensures
            r == (PrintStyle {
                border_style: BorderStyle { top_border: Some(color), ..self.border_style },
                ..self
            }),
    {
        PrintStyle {
            border_style: BorderStyle { top_border: Some(color), ..self.border_style },
            ..self
        }
    }

    /// The style with the bottom border set to `color`.
    pub fn bottom_border_with(self, color: Color) -> (r: PrintStyle)
        ensures
            r == (PrintStyle {
                border_style: BorderStyle { bottom_border: Some(color), ..self.border_style },
                ..self
            }),
    {
        PrintStyle {
            border_style: BorderStyle { bottom_border: Some(color), ..self.border_style },
            ..self
        }
    }

    /// The style with the left border set to `color`.
    pub fn left_border_with(self, color: Color) -> (r: PrintStyle)
        ensures
            r == (PrintStyle {
                border_style: BorderStyle { left_border: Some(color), ..self.border_style },
                ..self
            }),
    {
        PrintStyle {
            border_style: BorderStyle { left_border: Some(color), ..self.border_style },
            ..self
        }
    }

    /// The style with the right border set to `color`.
    pub fn right_border_with(self, color: Color) -> (r: PrintStyle)
        ensures
            r == (PrintStyle {
                border_style: BorderStyle { right_border: Some(color), ..self.border_style },
                ..self
            }),
    {
        PrintStyle {
            border_style: BorderStyle { right_border: Some(color), ..self.border_style },
            ..self
        }
    }

    /// The style with all four borders set to `color`.
    pub fn border_with(self, color: Color) -> (r: PrintStyle)
        ensures
            r == (PrintStyle {
                border_style: BorderStyle {
                    top_border: Some(color),
                    bottom_border: Some(color),
                    left_border: Some(color),
                    right_border: Some(color),
                    ..self.border_style
                },
                ..self
            }),
    {
        PrintStyle {
            border_style: BorderStyle {
                top_border: Some(color),
                bottom_border: Some(color),
                left_border: Some(color),
                right_border: Some(color),
                ..self.border_style
            },
            ..self
        }
    }

    /// The style with the top padding set.
    pub fn top_padding(self, value: u16) -> (r: PrintStyle)
        ensures
            r == (PrintStyle {
                padding: Padding { top_padding: value, ..self.padding },
                ..self
            }),
    {
        PrintStyle { padding: Padding { top_padding: value, ..self.padding }, ..self }
    }

    /// The style with the bottom padding set.
    pub fn bottom_padding(self, value: u16) -> (r: PrintStyle)
        ensures
            r == (PrintStyle {
                padding: Padding { bottom_padding: value, ..self.padding },
                ..self
            }),
    {
        PrintStyle { padding: Padding { bottom_padding: value, ..self.padding }, ..self }
    }

    /// The style with the left padding set.
    pub fn left_padding(self, value: u16) -> (r: PrintStyle)
        ensures
            r == (PrintStyle {
                padding: Padding { left_padding: value, ..self.padding },
                ..self
            }),
    {
        PrintStyle { padding: Padding { left_padding: value, ..self.padding }, ..self }
    }

    /// The style with the right padding set.
    pub fn right_padding(self, value: u16) -> (r: PrintStyle)
        ensures
            r == (PrintStyle {
                padding: Padding { right_padding: value, ..self.padding },
                ..self
            }),
    {
        PrintStyle { padding: Padding { right_padding: value, ..self.padding }, ..self }
    }

    /// The style with the same padding on all four edges.
    pub fn padding(self, value: u16) -> (r: PrintStyle)
        ensures
            r == (PrintStyle {
                padding: Padding {
                    top_padding: value,
                    bottom_padding: value,
                    left_padding: value,
                    right_padding: value,
                },
                ..self
            }),
    {
        PrintStyle {
            padding: Padding {
                top_padding: value,
                bottom_padding: value,
                left_padding: value,
                right_padding: value,
            },
            ..self
        }
    }

    /// The style with the same padding on the left and right edges.
    pub fn horizontal_padding(self, value: u16) -> (r: PrintStyle)
        ensures
            r == (PrintStyle {
                padding: Padding { left_padding: value, right_padding: value, ..self.padding },
                ..self
            }),
    {
        PrintStyle {
            padding: Padding { left_padding: value, right_padding: value, ..self.padding },
            ..self
        }
    }

    /// The style with the same padding on the top and bottom edges.
    pub fn vertical_padding(self, value: u16) -> (r: PrintStyle)
        ensures
            r == (PrintStyle {
                padding: Padding { top_padding: value, bottom_padding: value, ..self.padding },
                ..self
            }),
    {
        PrintStyle {
            padding: Padding { top_padding: value, bottom_padding: value, ..self.padding },
            ..self
        }
    }
}

/// A piece of text together with the style it is to be painted with:
/// one paint operation.
#[derive(Clone, Copy, Debug)]
pub struct StyledPrint<'a> {
    content: &'a str,
    style: PrintStyle,
}

impl<'a> StyledPrint<'a> {
    pub closed spec fn spec_content(self) -> Seq<char> {
        self.content@
    }

    pub closed spec fn spec_style(self) -> PrintStyle {
        self.style
    }

    /// Creates a styled text value.
    pub fn new(content: &'a str, style: PrintStyle) -> (r: StyledPrint<'a>)
        ensures
            r.spec_content() == content@,
            r.spec_style() == style,
    {
        StyledPrint { content, style }
    }

    /// The text.
    pub fn content(&self) -> (r: &'a str)
        ensures
            r@ == self.spec_content(),
    {
        self.content
    }

    /// The style.
    pub fn style(&self) -> (r: &PrintStyle)
        ensures
            *r == self.spec_style(),
    {
        &self.style
    }

    /// Replaces the style wholesale.
    pub fn set_style(&mut self, style: PrintStyle)
        ensures
            final(self).spec_style() == style,
            final(self).spec_content() == old(self).spec_content(),
    {
        self.style = style;
    }

    /// A mutable borrow of the style, for further manipulation.
    pub fn style_mut(&mut self) -> (r: &mut PrintStyle)
        ensures
            *r == old(self).spec_style(),
            final(self).spec_style() == *final(r),
            final(self).spec_content() == old(self).spec_content(),
    {
        &mut self.style
    }

    /// The same text with the foreground color set.
    pub fn with(self, color: Color) -> (r: StyledPrint<'a>)
        ensures
            r.spec_content() == self.spec_content(),
            r.spec_style() == (PrintStyle { foreground_color: Some(color), ..self.spec_style() }),
    {
        StyledPrint { content: self.content, style: self.style.with(color) }
    }

    /// The same text with the background color set.
    pub fn on(self, color: Color) -> (r: StyledPrint<'a>)
        ensures
            r.spec_content() == self.spec_content(),
            r.spec_style() == (PrintStyle { background_color: Some(color), ..self.spec_style() }),
    {
        StyledPrint { content: self.content, style: self.style.on(color) }
    }

    /// The same text with the underline color set.
    pub fn underline(self, color: Color) -> (r: StyledPrint<'a>)
        ensures
            r.spec_content() == self.spec_content(),
            r.spec_style() == (PrintStyle { underline_color: Some(color), ..self.spec_style() }),
    {
        StyledPrint { content: self.content, style: self.style.underline(color) }
    }

    /// The same text with `attr` added to the attribute set.
    pub fn attribute(self, attr: Attribute) -> (r: StyledPrint<'a>)
        ensures
            r.spec_content() == self.spec_content(),
            r.spec_style().attributes.bits == self.spec_style().attributes.bits
                | attr.spec_mask(),
            r.spec_style() == (PrintStyle { attributes: r.spec_style().attributes, ..self.spec_style() }),
    {
        StyledPrint { content: self.content, style: self.style.attribute(attr) }
    }

    /// The same text with the alignment set.
    pub fn align(self, alignment: CanvasAlignment) -> (r: StyledPrint<'a>)
        ensures
            r.spec_content() == self.spec_content(),
            r.spec_style() == (PrintStyle { alignment: Some(alignment), ..self.spec_style() }),
    {
        StyledPrint { content: self.content, style: self.style.align(alignment) }
    }
}

impl<'a> From<&'a str> for StyledPrint<'a> {
    fn from(content: &'a str) -> (r: StyledPrint<'a>) {
        StyledPrint {
            content,
            style: PrintStyle {
                foreground_color: None,
                background_color: None,
                underline_color: None,
                border_style: BorderStyle {
                    border_type: BorderType::HalfBlock,
                    top_border: None,
                    bottom_border: None,
                    right_border: None,
                    left_border: None,
                },
                padding: Padding {
                    top_padding: 0,
                    bottom_padding: 0,
                    right_padding: 0,
                    left_padding: 0,
                },
                alignment: None,
                attributes: Attributes { bits: 0 },
            },
        }
    }
}

impl<'a> vstd::std_specs::convert::FromSpecImpl<&'a str> for StyledPrint<'a> {
    open spec fn obeys_from_spec() -> bool {
        true
    }

    closed spec fn from_spec(content: &'a str) -> StyledPrint<'a> {
        StyledPrint { content, style: PrintStyle::plain() }
    }
}

/// Converting a bare string applies the plain style.
pub proof fn lemma_styled_print_from_str(content: &str)
    ensures
        (<StyledPrint as vstd::std_specs::convert::FromSpec<&str>>::from_spec(
            content,
        )).spec_content() == content@,
        (<StyledPrint as vstd::std_specs::convert::FromSpec<&str>>::from_spec(
            content,
        )).spec_style() == PrintStyle::plain(),
{
}

/// An anti-aliased circle or ring, described in quarter-pixel units: the
/// painted band reaches from `radius - inner stroke` to
/// `radius + outer stroke`. An unset stroke width defaults to half a
/// pixel, so a circle with neither set is a ring about one pixel wide
/// centered on the radius; a filled circle degenerates the inner stroke
/// to the radius.
#[derive(Clone, Copy, Debug, PartialEq, Eq, Structural)]
pub struct Circle {
    /// The radius, in quarter-pixels.
    pub radius: u32,
    /// The stroke width inward from the radius, in quarter-pixels.
    pub inner_stroke: Option<u32>,
    /// The stroke width outward from the radius, in quarter-pixels.
    pub outer_stroke: Option<u32>,
    /// The stroke color; white when unset.
    pub stroke_color: Option<Rgb8>,
    /// Whether the disc inside the ring is painted as well.
    pub filled: bool,
}

impl Circle {
    /// A ring of the given radius, in quarter-pixels, with default
    /// strokes.
    pub fn with_radius(radius: u32) -> (c: Circle)
        ensures
            c == (Circle {
                radius,
                inner_stroke: None,
                outer_stroke: None,
                stroke_color: None,
                filled: false,
            }),
    {
        Circle { radius, inner_stroke: None, outer_stroke: None, stroke_color: None, filled: false }
    }

    /// The circle with both stroke widths set to `width` quarter-pixels.
    pub fn stroke(self, width: u32) -> (c: Circle)
        ensures
            c == (Circle { inner_stroke: Some(width), outer_stroke: Some(width), ..self }),
    {
        Circle { inner_stroke: Some(width), outer_stroke: Some(width), ..self }
    }

    /// The circle with the inward stroke width set.
    pub fn with_inner_stroke(self, width: u32) -> (c: Circle)
        ensures
            c == (Circle { inner_stroke: Some(width), ..self }),
    {
        Circle { inner_stroke: Some(width), ..self }
    }

    /// The circle with the outward stroke width set.
    pub fn with_outer_stroke(self, width: u32) -> (c: Circle)
        ensures
            c == (Circle { outer_stroke: Some(width), ..self }),
    {
        Circle { outer_stroke: Some(width), ..self }
    }

    /// The circle with the stroke color set.
    pub fn with_stroke_color(self, color: Rgb8) -> (c: Circle)
        ensures
            c == (Circle { stroke_color: Some(color), ..self }),
    {
        Circle { stroke_color: Some(color), ..self }
    }

    /// The circle with the filled flag set.
    pub fn fill(self) -> (c: Circle)
        ensures
            c == (Circle { filled: true, ..self }),
    {
        Circle { filled: true, ..self }
    }

    /// The effective inward stroke: the configured width, or half a
    /// pixel when unset.
    pub open spec fn spec_inner_stroke(self) -> u32 {
        match self.inner_stroke {
            Some(w) => w,
            None => 2,
        }
    }

    /// The effective outward stroke: the configured width, or half a
    /// pixel when unset.
    pub open spec fn spec_outer_stroke(self) -> u32 {
        match self.outer_stroke {
            Some(w) => w,
            None => 2,
        }
    }

    /// The effective inward stroke, in quarter-pixels.
    pub fn inner_stroke_width(&self) -> (w: u32)
        ensures
            w == self.spec_inner_stroke(),
    {
        match self.inner_stroke {
            Some(w) => w,
            None => 2,
        }
    }

    /// The effective outward stroke, in quarter-pixels.
    pub fn outer_stroke_width(&self) -> (w: u32)
        ensures
            w == self.spec_outer_stroke(),
    {
        match self.outer_stroke {
            Some(w) => w,
            None => 2,
        }
    }
}

} // verus!
