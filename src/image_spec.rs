//! The description of an image processing request: an ordered list of
//! operations (resize, filter, blend, watermark) applied to one image.

use vstd::prelude::*;

verus! {

/// How a resize computes the new image.
#[derive(Debug, Clone, Copy, PartialEq, Eq)]
pub enum ResizeType {
    Normal,
    SeamCarve,
}

/// The sampling filter of a normal resize.
#[derive(Debug, Clone, Copy, PartialEq, Eq)]
pub enum SampleFilter {
    Undefined,
    Nearest,
    Triangle,
    CatmullRom,
    Gaussian,
    Lanczos3,
}

/// A colour filter.
#[derive(Debug, Clone, Copy, PartialEq, Eq)]
pub enum Filter {
    Unspecified,
    Oceanic,
    Islands,
    Marine,
    Seagreen,
    Flagblue,
    Liquid,
    Diamante,
    Radio,
    Twenties,
    Rosetint,
    Mauve,
    Bluechrome,
    Vintage,
    Perfume,
    Serenity,
}

/// A blend mode.
#[derive(Debug, Clone, Copy, PartialEq, Eq)]
pub enum Blend {
    Overlay,
    Over,
    Atop,
    Xor,
    Multiply,
    Burn,
    SoftLight,
    HardLight,
    Difference,
    Lighten,
    Darken,
    Dodge,
    Plus,
    Exclusion,
}

/// Resize to `width` x `height`.
#[derive(Debug, Clone, Copy, PartialEq, Eq)]
pub struct Resize {
    pub width: u32,
    pub height: u32,
    pub rtype: ResizeType,
    pub filter: SampleFilter,
}

/// Apply a colour filter.
#[derive(Debug, Clone, Copy, PartialEq, Eq)]
pub struct ApplyFilter {
    pub filter: Filter,
}

/// Blend with the given mode.
#[derive(Debug, Clone, Copy, PartialEq, Eq)]
pub struct ApplyBlend {
    pub blend: Blend,
}

/// Put the watermark at (`x`, `y`).
#[derive(Debug, Clone, Copy, PartialEq, Eq)]
pub struct Watermark {
    pub x: u32,
    pub y: u32,
}

/// What one operation does.
#[derive(Debug, Clone, Copy, PartialEq, Eq)]
pub enum SpecData {
    Resize(Resize),
    Filter(ApplyFilter),
    Blend(ApplyBlend),
    Watermark(Watermark),
}

/// One operation on an image.
#[derive(Debug, Clone, Copy, PartialEq, Eq)]
pub struct Spec {
    pub data: Option<SpecData>,
}

/// The operations to apply, in order.
#[derive(Debug, PartialEq, Eq)]
pub struct ImageSpec {
    pub specs: Vec<Spec>,
}

/// Something that an operation of type `T` can transform in place.
pub trait SpecTransform<T> {
    fn transform(&mut self, op: T);
}

impl ImageSpec {
    pub fn new(specs: Vec<Spec>) -> (r: ImageSpec)
        ensures
            r.specs == specs,
    {
        ImageSpec { specs }
    }
}

/// The name under which the image library knows a filter; none for
/// `Unspecified`.
pub open spec fn filter_name(f: Filter) -> Option<&'static str> {
    match f {
        Filter::Unspecified => None,
        Filter::Oceanic => Some("oceanic"),
        Filter::Islands => Some("islands"),
        Filter::Marine => Some("marine"),
        Filter::Seagreen => Some("seagreen"),
        Filter::Flagblue => Some("flagblue"),
        Filter::Liquid => Some("liquid"),
        Filter::Diamante => Some("diamante"),
        Filter::Radio => Some("radio"),
        Filter::Twenties => Some("twenties"),
        Filter::Rosetint => Some("rosetint"),
        Filter::Mauve => Some("mauve"),
        Filter::Bluechrome => Some("bluechrome"),
        Filter::Vintage => Some("vintage"),
        Filter::Perfume => Some("perfume"),
        Filter::Serenity => Some("serenity"),
    }
}

/// The name under which the image library knows a blend mode.
pub open spec fn blend_name(b: Blend) -> &'static str {
    match b {
        Blend::Overlay => "overlay",
        Blend::Over => "over",
        Blend::Atop => "atop",
        Blend::Xor => "xor",
        Blend::Multiply => "multiply",
        Blend::Burn => "burn",
        Blend::SoftLight => "softLight",
        Blend::HardLight => "hardLight",
        Blend::Difference => "difference",
        Blend::Lighten => "lighten",
        Blend::Darken => "darken",
        Blend::Dodge => "dodge",
        Blend::Plus => "plus",
        Blend::Exclusion => "exclusion",
    }
}

impl Filter {
    pub fn to_str(&self) -> (r: Option<&'static str>)
        ensures
            r == filter_name(*self),
    {
        match self {
            Filter::Unspecified => None,
            Filter::Oceanic => Some("oceanic"),
            Filter::Islands => Some("islands"),
            Filter::Marine => Some("marine"),
            Filter::Seagreen => Some("seagreen"),
            Filter::Flagblue => Some("flagblue"),
            Filter::Liquid => Some("liquid"),
            Filter::Diamante => Some("diamante"),
            Filter::Radio => Some("radio"),
            Filter::Twenties => Some("twenties"),
            Filter::Rosetint => Some("rosetint"),
            Filter::Mauve => Some("mauve"),
            Filter::Bluechrome => Some("bluechrome"),
            Filter::Vintage => Some("vintage"),
            Filter::Perfume => Some("perfume"),
            Filter::Serenity => Some("serenity"),
        }
    }
}

impl Blend {
    pub fn to_str(&self) -> (r: Option<&'static str>)
        ensures
            r == Some(blend_name(*self)),
    {
        match self {
            Blend::Overlay => Some("overlay"),
            Blend::Over => Some("over"),
            Blend::Atop => Some("atop"),
            Blend::Xor => Some("xor"),
            Blend::Multiply => Some("multiply"),
            Blend::Burn => Some("burn"),
            Blend::SoftLight => Some("softLight"),
            Blend::HardLight => Some("hardLight"),
            Blend::Difference => Some("difference"),
            Blend::Lighten => Some("lighten"),
            Blend::Darken => Some("darken"),
            Blend::Dodge => Some("dodge"),
            Blend::Plus => Some("plus"),
            Blend::Exclusion => Some("exclusion"),
        }
    }
}

impl Spec {
    /// A seam-carving resize to `width` x `height`.
    pub fn new_resize_seam_carve(width: u32, height: u32) -> (r: Spec)
        ensures
            r.data == Some(
                SpecData::Resize(
                    Resize {
                        width,
                        height,
                        rtype: ResizeType::SeamCarve,
                        filter: SampleFilter::Undefined,
                    },
                ),
            ),
    {
        Spec {
            data: Some(
                SpecData::Resize(
                    Resize {
                        width,
                        height,
                        rtype: ResizeType::SeamCarve,
                        filter: SampleFilter::Undefined,
                    },
                ),
            ),
        }
    }

    /// A normal resize to `width` x `height` with the given sampling filter.
    pub fn new_resize(width: u32, height: u32, filter: SampleFilter) -> (r: Spec)
        ensures
            r.data == Some(
                SpecData::Resize(Resize { width, height, rtype: ResizeType::Normal, filter }),
            ),
    {
        Spec {
            data: Some(
                SpecData::Resize(Resize { width, height, rtype: ResizeType::Normal, filter }),
            ),
        }
    }

    /// A colour filter.
    pub fn new_filter(filter: Filter) -> (r: Spec)
        ensures
            r.data == Some(SpecData::Filter(ApplyFilter { filter })),
    {
        Spec { data: Some(SpecData::Filter(ApplyFilter { filter })) }
    }

    /// A watermark at (`x`, `y`).
    pub fn watermark(x: u32, y: u32) -> (r: Spec)
        ensures
            r.data == Some(SpecData::Watermark(Watermark { x, y })),
    {
        Spec { data: Some(SpecData::Watermark(Watermark { x, y })) }
    }

    /// A blend with the given mode.
    pub fn new_blend(blend: Blend) -> (r: Spec)
        ensures
            r.data == Some(SpecData::Blend(ApplyBlend { blend })),
    {
        Spec { data: Some(SpecData::Blend(ApplyBlend { blend })) }
    }
}

} // verus!
