//! The toast entity: a transient notification that expires on its own.
//!
//! A toast carries an optional creation timestamp and an optional lifespan,
//! both in milliseconds on the host's monotonic clock. A toast with a set
//! lifespan is transient: once `now - created_at >= lifespan` it is expired
//! and a manager removes it. A toast without a lifespan never expires.

use vstd::prelude::*;

use crate::style::{opt_or, resolve_i8, resolve_u8, ResolvedStyle, Rgba};

verus! {

broadcast use vstd::string::group_string_axioms;

/// Default lifespan of a toast, in milliseconds.
pub const TOAST_DEFAULT_LIFESPAN_MS: u64 = 3000;

/// Default inner padding of a standalone toast box, in points.
pub const TOAST_DEFAULT_INNER_MARGIN: i8 = 10;

/// Default outer margin of a standalone toast box, in points.
pub const TOAST_DEFAULT_OUTER_MARGIN: i8 = 10;

/// Default corner radius of a standalone toast box, in points.
pub const TOAST_DEFAULT_CORNER_RADIUS: u8 = 4;

/// A single toast notification: message, color, optional style overrides,
/// and its expiry bookkeeping. Style settings left `None` inherit a default
/// at render time; an explicit setting is never overridden by a manager.
#[derive(Debug, Clone, PartialEq)]
pub struct Toast {
    /// The message displayed in the toast.
    pub message: String,
    /// Background color of the toast box.
    pub color: Rgba,
    /// Explicit inner padding, in points; never negative when set.
    pub inner_margin: Option<i8>,
    /// Explicit outer margin, in points; never negative when set.
    pub outer_margin: Option<i8>,
    /// Explicit corner radius, in points.
    pub corner_radius: Option<u8>,
    /// Explicit fixed width, in points.
    pub width: Option<u32>,
    /// When the toast was created, in clock milliseconds; assigned at
    /// construction and not mutable afterward.
    pub created_at_ms: Option<u64>,
    /// How long the toast lives, in milliseconds; `None` means it never
    /// expires on its own.
    pub lifespan_ms: Option<u64>,
}

impl Toast {
    /// Padding is non-negative wherever it is set, and a lifespan is only
    /// ever set together with a creation timestamp.
    pub open spec fn wf(self) -> bool {
        &&& (self.inner_margin matches Some(m) ==> m >= 0)
        &&& (self.outer_margin matches Some(m) ==> m >= 0)
        &&& (self.lifespan_ms is Some ==> self.created_at_ms is Some)
    }

    /// Whether the toast is expired at clock time `now_ms`: a transient
    /// toast expires exactly when its lifespan has elapsed since creation;
    /// a toast without a lifespan never expires.
    pub open spec fn spec_expired(self, now_ms: u64) -> bool {
        match self.lifespan_ms {
            Some(lifespan) => match self.created_at_ms {
                Some(created) => now_ms >= created + lifespan,
                None => false,
            },
            None => false,
        }
    }

    /// The style a standalone toast is painted with: every unset setting
    /// falls back to the widget default.
    pub open spec fn spec_standalone_style(self) -> ResolvedStyle {
        ResolvedStyle {
            color: self.color,
            inner_margin: opt_or(self.inner_margin, TOAST_DEFAULT_INNER_MARGIN),
            outer_margin: opt_or(self.outer_margin, TOAST_DEFAULT_OUTER_MARGIN),
            corner_radius: opt_or(self.corner_radius, TOAST_DEFAULT_CORNER_RADIUS),
            can_close: false,
            width: self.width,
        }
    }

    /// Create a new toast with the given message, created at clock time
    /// `now_ms`, with the default color and lifespan and no explicit style
    /// settings.
    pub fn new(message: &str, now_ms: u64) -> (t: Toast)
        ensures
            t.message@ == message@,
            t.color == (Rgba { red: 200, green: 200, blue: 255, alpha: 255 }),
            t.inner_margin is None,
            t.outer_margin is None,
            t.corner_radius is None,
            t.width is None,
            t.created_at_ms == Some(now_ms),
            t.lifespan_ms == Some(TOAST_DEFAULT_LIFESPAN_MS),
            t.wf(),
    {
        Toast {
            message: message.to_string(),
            color: Rgba::from_rgb(200, 200, 255),
            inner_margin: None,
            outer_margin: None,
            corner_radius: None,
            width: None,
            created_at_ms: Some(now_ms),
            lifespan_ms: Some(TOAST_DEFAULT_LIFESPAN_MS),
        }
    }

    /// Set the background color of the toast.
    pub fn with_color(self, color: Rgba) -> (t: Toast)
        ensures
            t == (Toast { color, ..self }),
    {
        Toast { color, ..self }
    }

    /// Set the inner margin (padding) of the toast box.
    pub fn inner_margin(self, margin: i8) -> (t: Toast)
        requires
            margin >= 0,
        ensures
            t == (Toast { inner_margin: Some(margin), ..self }),
    {
        Toast { inner_margin: Some(margin), ..self }
    }

    /// Set the outer margin of the toast box.
    pub fn outer_margin(self, margin: i8) -> (t: Toast)
        requires
            margin >= 0,
        ensures
            t == (Toast { outer_margin: Some(margin), ..self }),
    {
        Toast { outer_margin: Some(margin), ..self }
    }

    /// Set the corner radius of the toast box.
    pub fn corner_radius(self, radius: u8) -> (t: Toast)
        ensures
            t == (Toast { corner_radius: Some(radius), ..self }),
    {
        Toast { corner_radius: Some(radius), ..self }
    }

    /// Set a fixed width for the toast box, in points.
    pub fn width(self, width: u32) -> (t: Toast)
        ensures
            t == (Toast { width: Some(width), ..self }),
    {
        Toast { width: Some(width), ..self }
    }

    /// Set the lifespan of the toast, in milliseconds. The creation
    /// timestamp must already be set; [`Toast::new`] always sets it.
    pub fn duration(self, lifespan_ms: u64) -> (t: Toast)
        requires
            self.created_at_ms is Some,
        ensures
            t == (Toast { lifespan_ms: Some(lifespan_ms), ..self }),
    {
        Toast { lifespan_ms: Some(lifespan_ms), ..self }
    }

    /// Whether the toast is expired at clock time `now_ms`: false whenever
    /// `now_ms` is before creation time plus lifespan, true from that
    /// instant on, and always false for a toast without a lifespan.
    pub fn has_expired(&self, now_ms: u64) -> (r: bool)
        ensures
            r == self.spec_expired(now_ms),
    {
        match self.lifespan_ms {
            Some(lifespan) => match self.created_at_ms {
                Some(created) => now_ms >= created && now_ms - created >= lifespan,
                None => false,
            },
            None => false,
        }
    }

    /// The style this toast is painted with when rendered standalone,
    /// outside any manager.
    pub fn resolved_style(&self) -> (r: ResolvedStyle)
        ensures
            r == self.spec_standalone_style(),
    {
        ResolvedStyle {
            color: self.color,
            inner_margin: resolve_i8(self.inner_margin, TOAST_DEFAULT_INNER_MARGIN),
            outer_margin: resolve_i8(self.outer_margin, TOAST_DEFAULT_OUTER_MARGIN),
            corner_radius: resolve_u8(self.corner_radius, TOAST_DEFAULT_CORNER_RADIUS),
            can_close: false,
            width: self.width,
        }
    }
}

} // verus!
