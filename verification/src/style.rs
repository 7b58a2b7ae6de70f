//! Plain-value styling types shared by the widgets and their managers.
//!
//! An entity (alert or toast) stores only the style settings its caller set
//! explicitly; everything else is `None` ("left unset"). At render time the
//! unset fields are filled in — from the widget's own defaults when it is
//! rendered standalone, or from the manager's configuration when a manager
//! renders it — producing a [`ResolvedStyle`] that the paint layer consumes.

use vstd::prelude::*;

verus! {

/// An sRGBA color with 8-bit channels, the premultiplied form the paint
/// layer expects.
#[derive(Debug, Clone, Copy, PartialEq, Eq, Hash, Structural)]
pub struct Rgba {
    /// Red channel.
    pub red: u8,
    /// Green channel.
    pub green: u8,
    /// Blue channel.
    pub blue: u8,
    /// Alpha channel; 255 is fully opaque.
    pub alpha: u8,
}

impl Rgba {
    /// Build a fully opaque color from its three channels.
    pub fn from_rgb(red: u8, green: u8, blue: u8) -> (c: Rgba)
        ensures
            c == (Rgba { red, green, blue, alpha: 255u8 }),
    {
        Rgba { red, green, blue, alpha: 255 }
    }
}

/// The complete set of style settings a single entity is painted with, after
/// every optional field has been resolved against a default.
#[derive(Debug, Clone, Copy, PartialEq, Eq, Structural)]
pub struct ResolvedStyle {
    /// Background color of the entity's frame.
    pub color: Rgba,
    /// Padding inside the frame, in points; never negative.
    pub inner_margin: i8,
    /// Margin outside the frame, in points; never negative.
    pub outer_margin: i8,
    /// Corner radius of the frame, in points.
    pub corner_radius: u8,
    /// Whether the entity shows a close affordance on its trailing edge.
    pub can_close: bool,
    /// Fixed width in points, or `None` to inherit the available width.
    pub width: Option<u32>,
}

/// One entry of a frame's render plan: which entity to paint (by its
/// insertion index in the collection) and the fully resolved style to
/// paint it with. The plan lists its items in display order, top of the
/// stack first.
#[derive(Debug, Clone, Copy, PartialEq, Eq, Structural)]
pub struct RenderItem {
    /// Insertion index of the entity in the shared collection.
    pub index: usize,
    /// The style the entity is painted with this frame.
    pub style: ResolvedStyle,
}

/// The default that fills a style setting the caller left unset.
pub open spec fn opt_or<T>(setting: Option<T>, default: T) -> T {
    match setting {
        Some(v) => v,
        None => default,
    }
}

/// Executable counterpart of [`opt_or`] for the small copyable settings.
pub fn resolve_i8(setting: Option<i8>, default: i8) -> (r: i8)
    ensures
        r == opt_or(setting, default),
{
    match setting {
        Some(v) => v,
        None => default,
    }
}

/// Executable counterpart of [`opt_or`] for `u8` settings.
pub fn resolve_u8(setting: Option<u8>, default: u8) -> (r: u8)
    ensures
        r == opt_or(setting, default),
{
    match setting {
        Some(v) => v,
        None => default,
    }
}

/// Executable counterpart of [`opt_or`] for `bool` settings.
pub fn resolve_bool(setting: Option<bool>, default: bool) -> (r: bool)
    ensures
        r == opt_or(setting, default),
{
    match setting {
        Some(v) => v,
        None => default,
    }
}

} // verus!
