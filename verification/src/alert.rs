//! The alert box entity: a message with a severity level, optional style
//! overrides, and a close affordance.
//!
//! An alert stores only what its caller set explicitly; style settings left
//! unset resolve to the widget defaults when rendered standalone, or to the
//! manager's configuration when rendered through an
//! [`crate::AlertManager`].

use vstd::prelude::*;

use crate::style::{opt_or, resolve_bool, resolve_i8, resolve_u8, ResolvedStyle, Rgba};

verus! {

broadcast use vstd::string::group_string_axioms;

/// Default inner padding of a standalone alert box, in points.
pub const ALERT_DEFAULT_INNER_MARGIN: i8 = 10;

/// Default outer margin of a standalone alert box, in points.
pub const ALERT_DEFAULT_OUTER_MARGIN: i8 = 1;

/// Default corner radius of a standalone alert box, in points.
pub const ALERT_DEFAULT_CORNER_RADIUS: u8 = 4;

/// Severity of an alert; determines the background color and the semantic
/// weight of the message.
#[derive(Debug, Clone, Copy, PartialEq, Eq, Hash, Structural)]
pub enum AlertLevel {
    /// A successful operation or state (green).
    Success,
    /// An informational message that is not critical (blue).
    Info,
    /// A condition that may need attention but is not critical (yellow).
    Warning,
    /// An error that needs immediate attention (red).
    Error,
}

/// The background color that belongs to a severity level.
pub open spec fn spec_level_color(level: AlertLevel) -> Rgba {
    match level {
        AlertLevel::Success => Rgba { red: 144, green: 238, blue: 144, alpha: 255 },
        AlertLevel::Info => Rgba { red: 173, green: 216, blue: 230, alpha: 255 },
        AlertLevel::Warning => Rgba { red: 255, green: 255, blue: 224, alpha: 255 },
        AlertLevel::Error => Rgba { red: 255, green: 128, blue: 128, alpha: 255 },
    }
}

/// A single alert box: message, severity color, and the style settings the
/// caller chose to pin down. Settings left `None` inherit a default at
/// render time; an explicit setting is never overridden by a manager.
#[derive(Debug, Clone, PartialEq)]
pub struct Alert {
    /// Background color of the alert box.
    pub color: Rgba,
    /// The message displayed in the alert box.
    pub message: String,
    /// Explicit inner padding, in points; never negative when set.
    pub inner_margin: Option<i8>,
    /// Explicit outer margin, in points; never negative when set.
    pub outer_margin: Option<i8>,
    /// Explicit corner radius, in points.
    pub corner_radius: Option<u8>,
    /// Explicit choice whether the close affordance is shown.
    pub can_close: Option<bool>,
    /// Explicit fixed width, in points.
    pub width: Option<u32>,
}

impl Alert {
    /// Padding and rounding are non-negative wherever they are set.
    pub open spec fn wf(self) -> bool {
        &&& (self.inner_margin matches Some(m) ==> m >= 0)
        &&& (self.outer_margin matches Some(m) ==> m >= 0)
    }

    /// The style a standalone alert box is painted with: every unset
    /// setting falls back to the widget default.
    pub open spec fn spec_standalone_style(self) -> ResolvedStyle {
        ResolvedStyle {
            color: self.color,
            inner_margin: opt_or(self.inner_margin, ALERT_DEFAULT_INNER_MARGIN),
            outer_margin: opt_or(self.outer_margin, ALERT_DEFAULT_OUTER_MARGIN),
            corner_radius: opt_or(self.corner_radius, ALERT_DEFAULT_CORNER_RADIUS),
            can_close: opt_or(self.can_close, true),
            width: self.width,
        }
    }

    /// Create a new alert with the given message, the info color, and no
    /// explicit style settings.
    pub fn new(message: &str) -> (a: Alert)
        ensures
            a.message@ == message@,
            a.color == spec_level_color(AlertLevel::Info),
            a.inner_margin is None,
            a.outer_margin is None,
            a.corner_radius is None,
            a.can_close is None,
            a.width is None,
            a.wf(),
    {
        Alert {
            color: level_to_color(AlertLevel::Info),
            message: message.to_string(),
            inner_margin: None,
            outer_margin: None,
            corner_radius: None,
            can_close: None,
            width: None,
        }
    }

    /// Set the alert's severity level, which determines its background
    /// color.
    pub fn with_level(self, level: AlertLevel) -> (a: Alert)
        ensures
            a == (Alert { color: spec_level_color(level), ..self }),
    {
        Alert { color: level_to_color(level), ..self }
    }

    /// Set the inner margin (padding) of the alert box.
    pub fn inner_margin(self, margin: i8) -> (a: Alert)
        requires
            margin >= 0,
        ensures
            a == (Alert { inner_margin: Some(margin), ..self }),
    {
        Alert { inner_margin: Some(margin), ..self }
    }

    /// Set the outer margin of the alert box.
    pub fn outer_margin(self, margin: i8) -> (a: Alert)
        requires
            margin >= 0,
        ensures
            a == (Alert { outer_margin: Some(margin), ..self }),
    {
        Alert { outer_margin: Some(margin), ..self }
    }

    /// Set the corner radius of the alert box.
    pub fn corner_radius(self, radius: u8) -> (a: Alert)
        ensures
            a == (Alert { corner_radius: Some(radius), ..self }),
    {
        Alert { corner_radius: Some(radius), ..self }
    }

    /// Set whether the close affordance is shown.
    pub fn can_close(self, closeable: bool) -> (a: Alert)
        ensures
            a == (Alert { can_close: Some(closeable), ..self }),
    {
        Alert { can_close: Some(closeable), ..self }
    }

    /// Set a fixed width for the alert box, in points.
    pub fn width(self, width: u32) -> (a: Alert)
        ensures
            a == (Alert { width: Some(width), ..self }),
    {
        Alert { width: Some(width), ..self }
    }

    /// The style this alert is painted with when rendered standalone,
    /// outside any manager.
    pub fn resolved_style(&self) -> (r: ResolvedStyle)
        ensures
            r == self.spec_standalone_style(),
    {
        ResolvedStyle {
            color: self.color,
            inner_margin: resolve_i8(self.inner_margin, ALERT_DEFAULT_INNER_MARGIN),
            outer_margin: resolve_i8(self.outer_margin, ALERT_DEFAULT_OUTER_MARGIN),
            corner_radius: resolve_u8(self.corner_radius, ALERT_DEFAULT_CORNER_RADIUS),
            can_close: resolve_bool(self.can_close, true),
            width: self.width,
        }
    }
}

impl Default for Alert {
    /// A placeholder alert: pale red, a generic message, and no explicit
    /// style settings.
    fn default() -> (a: Alert)
        ensures
            a.message@ == "No message provided"@,
            a.color == (Rgba { red: 255, green: 200, blue: 200, alpha: 255 }),
            a.inner_margin is None,
            a.outer_margin is None,
            a.corner_radius is None,
            a.can_close is None,
            a.width is None,
            a.wf(),
    {
        Alert {
            color: Rgba { red: 255, green: 200, blue: 200, alpha: 255 },
            message: "No message provided".to_string(),
            inner_margin: None,
            outer_margin: None,
            corner_radius: None,
            can_close: None,
            width: None,
        }
    }
}

/// Map a severity level to its background color.
fn level_to_color(level: AlertLevel) -> (c: Rgba)
    ensures
        c == spec_level_color(level),
{
    match level {
        AlertLevel::Success => Rgba::from_rgb(144, 238, 144),
        AlertLevel::Info => Rgba::from_rgb(173, 216, 230),
        AlertLevel::Warning => Rgba::from_rgb(255, 255, 224),
        AlertLevel::Error => Rgba::from_rgb(255, 128, 128),
    }
}

/// Create an alert with the given severity level and message; equivalent to
/// [`Alert::new`] followed by [`Alert::with_level`].
pub fn alert(level: AlertLevel, message: &str) -> (a: Alert)
    ensures
        a.message@ == message@,
        a.color == spec_level_color(level),
        a.inner_margin is None,
        a.outer_margin is None,
        a.corner_radius is None,
        a.can_close is None,
        a.width is None,
        a.wf(),
{
    Alert::new(message).with_level(level)
}

} // verus!
