//! Text styles and the attributes that apply to byte ranges of a text.
//!
//! Sizes and colors are floating-point values in the engine; this library carries
//! them as their IEEE-754 bit patterns (`f64::to_bits`), which it stores and copies
//! but never computes with.

use std::ops::Range;
use vstd::prelude::*;

verus! {

/// Upright or slanted glyphs.
#[derive(Clone, Copy, Debug, PartialEq, Eq, Structural)]
pub enum FontStyle {
    Regular,
    Italic,
}

/// An RGBA color, each channel an `f64` given by its bit pattern.
#[derive(Clone, Copy, Debug, PartialEq, Eq, Structural)]
pub struct ColorBits {
    pub r: u64,
    pub g: u64,
    pub b: u64,
    pub a: u64,
}

/// One formatting attribute.
#[derive(Clone, Debug)]
pub enum TextAttribute {
    FontFamily(String),
    /// Font size, as the bit pattern of an `f64`.
    FontSize(u64),
    FontWeight(u16),
    Style(FontStyle),
    TextColor(ColorBits),
    Underline(bool),
    Strikethrough(bool),
}

/// What a [`TextAttribute`] stands for.
pub enum TextAttributeView {
    FontFamily(Seq<char>),
    FontSize(u64),
    FontWeight(u16),
    Style(FontStyle),
    TextColor(ColorBits),
    Underline(bool),
    Strikethrough(bool),
}

impl View for TextAttribute {
    type V = TextAttributeView;

    open spec fn view(&self) -> TextAttributeView {
        match self {
            TextAttribute::FontFamily(f) => TextAttributeView::FontFamily(f@),
            TextAttribute::FontSize(s) => TextAttributeView::FontSize(*s),
            TextAttribute::FontWeight(w) => TextAttributeView::FontWeight(*w),
            TextAttribute::Style(s) => TextAttributeView::Style(*s),
            TextAttribute::TextColor(c) => TextAttributeView::TextColor(*c),
            TextAttribute::Underline(u) => TextAttributeView::Underline(*u),
            TextAttribute::Strikethrough(s) => TextAttributeView::Strikethrough(*s),
        }
    }
}

impl TextAttribute {
    /// A copy of this attribute.
    pub fn duplicate(&self) -> (copy: Self)
        ensures
            copy@ == self@,
    {
        match self {
            TextAttribute::FontFamily(f) => TextAttribute::FontFamily(f.clone()),
            TextAttribute::FontSize(s) => TextAttribute::FontSize(*s),
            TextAttribute::FontWeight(w) => TextAttribute::FontWeight(*w),
            TextAttribute::Style(s) => TextAttribute::Style(*s),
            TextAttribute::TextColor(c) => TextAttribute::TextColor(*c),
            TextAttribute::Underline(u) => TextAttribute::Underline(*u),
            TextAttribute::Strikethrough(s) => TextAttribute::Strikethrough(*s),
        }
    }
}

/// An attribute together with the byte range of the text it applies to.
#[derive(Debug)]
pub struct RangedTextAttribute {
    pub attribute: TextAttribute,
    pub range: Range<usize>,
}

/// What a [`RangedTextAttribute`] stands for.
pub struct RangedTextAttributeView {
    pub attribute: TextAttributeView,
    pub start: usize,
    pub end: usize,
}

impl View for RangedTextAttribute {
    type V = RangedTextAttributeView;

    open spec fn view(&self) -> RangedTextAttributeView {
        RangedTextAttributeView {
            attribute: self.attribute@,
            start: self.range.start,
            end: self.range.end,
        }
    }
}

/// Where a byte position of a text lands when the bytes between `lo` and `hi` are
/// replaced by `n` new bytes: positions up to `lo` stay, positions inside the
/// replaced part move to the end of the new bytes, and positions after it move by
/// the change in length (held at `usize::MAX` should that be exceeded).
pub open spec fn remap_position(p: usize, lo: usize, hi: usize, n: usize) -> usize {
    if p <= lo {
        p
    } else if p <= hi {
        (lo + n) as usize
    } else if p - hi + lo + n > usize::MAX {
        usize::MAX
    } else {
        (p - hi + lo + n) as usize
    }
}

impl RangedTextAttributeView {
    /// This attribute after the bytes between `lo` and `hi` are replaced by `n` bytes.
    pub open spec fn remapped(self, lo: usize, hi: usize, n: usize) -> RangedTextAttributeView {
        RangedTextAttributeView {
            attribute: self.attribute,
            start: remap_position(self.start, lo, hi, n),
            end: remap_position(self.end, lo, hi, n),
        }
    }

    /// The attribute's range and `start..end` overlap: each begins before the
    /// other ends.
    pub open spec fn overlaps(self, start: usize, end: usize) -> bool {
        self.start < end && start < self.end
    }
}

/// The views of a sequence of ranged attributes.
pub open spec fn attributes_view(attrs: Seq<RangedTextAttribute>) -> Seq<RangedTextAttributeView> {
    attrs.map_values(|a: RangedTextAttribute| a@)
}

/// `attrs` with every attribute remapped for a replacement of `lo..hi` by `n` bytes.
pub open spec fn remap_attributes(
    attrs: Seq<RangedTextAttributeView>,
    lo: usize,
    hi: usize,
    n: usize,
) -> Seq<RangedTextAttributeView> {
    attrs.map_values(|a: RangedTextAttributeView| a.remapped(lo, hi, n))
}

/// `attrs` without the attributes whose range overlaps `start..end`, in their order.
pub open spec fn attributes_outside(
    attrs: Seq<RangedTextAttributeView>,
    start: usize,
    end: usize,
) -> Seq<RangedTextAttributeView> {
    attrs.filter(|a: RangedTextAttributeView| !a.overlaps(start, end))
}

/// Computes [`remap_position`].
pub fn remap_position_exec(p: usize, lo: usize, hi: usize, n: usize) -> (q: usize)
    requires
        lo <= hi,
        lo + n <= usize::MAX,
    ensures
        q == remap_position(p, lo, hi, n),
{
    if p <= lo {
        p
    } else if p <= hi {
        lo + n
    } else {
        (p - hi).saturating_add(lo + n)
    }
}

impl Clone for RangedTextAttribute {
    fn clone(&self) -> (copy: Self)
        ensures
            copy@ == self@,
    {
        self.duplicate()
    }
}

impl RangedTextAttribute {
    /// A copy of this ranged attribute.
    pub fn duplicate(&self) -> (copy: Self)
        ensures
            copy@ == self@,
    {
        RangedTextAttribute {
            attribute: self.attribute.duplicate(),
            range: Range { start: self.range.start, end: self.range.end },
        }
    }

    /// This attribute after the bytes between `lo` and `hi` are replaced by `n` bytes.
    pub fn remapped(&self, lo: usize, hi: usize, n: usize) -> (r: Self)
        requires
            lo <= hi,
            lo + n <= usize::MAX,
        ensures
            r@ == self@.remapped(lo, hi, n),
    {
        RangedTextAttribute {
            attribute: self.attribute.duplicate(),
            range: Range {
                start: remap_position_exec(self.range.start, lo, hi, n),
                end: remap_position_exec(self.range.end, lo, hi, n),
            },
        }
    }
}

/// The attributes of `attrs`, each remapped for a replacement of `lo..hi` by `n` bytes.
pub fn remap_attribute_list(attrs: &Vec<RangedTextAttribute>, lo: usize, hi: usize, n: usize) -> (r:
    Vec<RangedTextAttribute>)
    requires
        lo <= hi,
        lo + n <= usize::MAX,
    ensures
        attributes_view(r@) == remap_attributes(attributes_view(attrs@), lo, hi, n),
{
    let mut r: Vec<RangedTextAttribute> = Vec::new();
    let mut i: usize = 0;
    while i < attrs.len()
        invariant
            i <= attrs.len(),
            lo <= hi,
            lo + n <= usize::MAX,
            attributes_view(r@) == remap_attributes(attributes_view(attrs@.take(i as int)), lo, hi, n),
        decreases attrs.len() - i,
    {
        let ghost prev = attrs@.take(i as int);
        r.push(attrs[i].remapped(lo, hi, n));
        assert(attrs@.take(i + 1) == prev.push(attrs@[i as int]));
        assert(attributes_view(prev.push(attrs@[i as int])) =~= attributes_view(prev).push(attrs@[i as int]@));
        assert(remap_attributes(attributes_view(prev).push(attrs@[i as int]@), lo, hi, n) =~= remap_attributes(attributes_view(prev), lo, hi, n).push(attrs@[i as int]@.remapped(lo, hi, n)));
        assert(attributes_view(r@) =~= remap_attributes(attributes_view(attrs@.take(i + 1)), lo, hi, n));
        i = i + 1;
    }
    assert(attrs@.take(i as int) =~= attrs@);
    r
}

/// The attributes of `attrs` whose range does not overlap `start..end`, in their order.
pub fn attribute_list_outside(attrs: &Vec<RangedTextAttribute>, start: usize, end: usize) -> (r: Vec<
    RangedTextAttribute,
>)
    ensures
        attributes_view(r@) == attributes_outside(attributes_view(attrs@), start, end),
{
    let mut r: Vec<RangedTextAttribute> = Vec::new();
    let mut i: usize = 0;
    while i < attrs.len()
        invariant
            i <= attrs.len(),
            attributes_view(r@) == attributes_outside(attributes_view(attrs@.take(i as int)), start, end),
        decreases attrs.len() - i,
    {
        let a = &attrs[i];
        let keep = !(a.range.start < end && start < a.range.end);
        let ghost before = attributes_view(attrs@.take(i as int));
        assert(attributes_view(attrs@.take(i + 1)) =~= before.push(attrs@[i as int]@));
        proof {
            reveal(Seq::filter);
            assert(before.push(attrs@[i as int]@).drop_last() =~= before);
        }
        if keep {
            r.push(a.duplicate());
        }
        assert(attributes_view(r@) =~= attributes_outside(attributes_view(attrs@.take(i + 1)), start, end));
        i = i + 1;
    }
    assert(attrs@.take(i as int) =~= attrs@);
    r
}

/// The style of a text: a base font and color, an optional width limit for line
/// wrapping (an `f64` bit pattern), and attributes for ranges of the text.
#[derive(Clone, Debug)]
pub struct TextStyle {
    pub font_family: String,
    /// Font size, as the bit pattern of an `f64`.
    pub font_size: u64,
    pub font_weight: u16,
    pub font_style: FontStyle,
    pub color: ColorBits,
    /// Maximum line width, as the bit pattern of an `f64`.
    pub max_width: Option<u64>,
    pub ranged_text_attributes: Vec<RangedTextAttribute>,
}

/// What a [`TextStyle`] stands for.
pub struct TextStyleView {
    pub font_family: Seq<char>,
    pub font_size: u64,
    pub font_weight: u16,
    pub font_style: FontStyle,
    pub color: ColorBits,
    pub max_width: Option<u64>,
    pub ranged_text_attributes: Seq<RangedTextAttributeView>,
}

impl View for TextStyle {
    type V = TextStyleView;

    open spec fn view(&self) -> TextStyleView {
        TextStyleView {
            font_family: self.font_family@,
            font_size: self.font_size,
            font_weight: self.font_weight,
            font_style: self.font_style,
            color: self.color,
            max_width: self.max_width,
            ranged_text_attributes: attributes_view(self.ranged_text_attributes@),
        }
    }
}

impl TextStyleView {
    /// This style without any ranged attributes.
    pub open spec fn without_ranged_attributes(self) -> TextStyleView {
        TextStyleView { ranged_text_attributes: Seq::empty(), ..self }
    }
}

impl TextStyle {
    /// A copy of this style.
    pub fn duplicate(&self) -> (copy: Self)
        ensures
            copy@ == self@,
    {
        let mut attrs: Vec<RangedTextAttribute> = Vec::new();
        let mut i: usize = 0;
        while i < self.ranged_text_attributes.len()
            invariant
                i <= self.ranged_text_attributes.len(),
                attributes_view(attrs@) == attributes_view(self.ranged_text_attributes@.take(i as int)),
            decreases self.ranged_text_attributes.len() - i,
        {
            let ghost prev = self.ranged_text_attributes@.take(i as int);
            attrs.push(self.ranged_text_attributes[i].duplicate());
            assert(self.ranged_text_attributes@.take(i + 1) == prev.push(self.ranged_text_attributes@[i as int]));
            assert(attributes_view(prev.push(self.ranged_text_attributes@[i as int])) =~= attributes_view(prev).push(self.ranged_text_attributes@[i as int]@));
            assert(attributes_view(attrs@) =~= attributes_view(self.ranged_text_attributes@.take(i + 1)));
            i = i + 1;
        }
        assert(self.ranged_text_attributes@.take(i as int) =~= self.ranged_text_attributes@);
        TextStyle {
            font_family: self.font_family.clone(),
            font_size: self.font_size,
            font_weight: self.font_weight,
            font_style: self.font_style,
            color: self.color,
            max_width: self.max_width,
            ranged_text_attributes: attrs,
        }
    }
}

} // verus!
