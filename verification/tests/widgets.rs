//! Tests of the widget entities: alerts, toasts, anchors, display order and
//! the toggle switch's state logic.

use egui_widget_ext::{
    alert, display_order, display_position, toggle_next, Alert, AlertLevel, Anchor, Rgba, Toast,
};

fn rgb(red: u8, green: u8, blue: u8) -> Rgba {
    Rgba { red, green, blue, alpha: 255 }
}

#[test]
fn alert_new_has_info_color_and_message() {
    let a = Alert::new("hello");
    assert_eq!(a.message, "hello");
    assert_eq!(a.color, rgb(173, 216, 230));
    assert_eq!(a.inner_margin, None);
    assert_eq!(a.outer_margin, None);
    assert_eq!(a.corner_radius, None);
    assert_eq!(a.can_close, None);
    assert_eq!(a.width, None);
}

#[test]
fn alert_level_colors() {
    assert_eq!(alert(AlertLevel::Success, "s").color, rgb(144, 238, 144));
    assert_eq!(alert(AlertLevel::Info, "i").color, rgb(173, 216, 230));
    assert_eq!(alert(AlertLevel::Warning, "w").color, rgb(255, 255, 224));
    assert_eq!(alert(AlertLevel::Error, "e").color, rgb(255, 128, 128));
}

#[test]
fn alert_builders_set_explicit_fields() {
    let a = Alert::new("m")
        .with_level(AlertLevel::Error)
        .inner_margin(7)
        .outer_margin(3)
        .corner_radius(9)
        .can_close(false)
        .width(240);
    assert_eq!(a.color, rgb(255, 128, 128));
    assert_eq!(a.inner_margin, Some(7));
    assert_eq!(a.outer_margin, Some(3));
    assert_eq!(a.corner_radius, Some(9));
    assert_eq!(a.can_close, Some(false));
    assert_eq!(a.width, Some(240));
}

#[test]
fn alert_default_is_placeholder() {
    let a = Alert::default();
    assert_eq!(a.message, "No message provided");
    assert_eq!(a.color, rgb(255, 200, 200));
    assert_eq!(a.inner_margin, None);
}

#[test]
fn alert_standalone_style_fills_widget_defaults() {
    let a = Alert::new("m");
    let style = a.resolved_style();
    assert_eq!(style.inner_margin, 10);
    assert_eq!(style.outer_margin, 1);
    assert_eq!(style.corner_radius, 4);
    assert!(style.can_close);
    assert_eq!(style.width, None);

    let b = Alert::new("m").inner_margin(2).can_close(false);
    let style = b.resolved_style();
    assert_eq!(style.inner_margin, 2);
    assert!(!style.can_close);
}

#[test]
fn toast_new_has_defaults() {
    let t = Toast::new("saved", 500);
    assert_eq!(t.message, "saved");
    assert_eq!(t.color, rgb(200, 200, 255));
    assert_eq!(t.created_at_ms, Some(500));
    assert_eq!(t.lifespan_ms, Some(3000));
    assert_eq!(t.inner_margin, None);
    assert_eq!(t.width, None);
}

#[test]
fn toast_builders_set_explicit_fields() {
    let t = Toast::new("m", 0)
        .with_color(rgb(1, 2, 3))
        .inner_margin(16)
        .outer_margin(8)
        .corner_radius(12)
        .width(300)
        .duration(5000);
    assert_eq!(t.color, rgb(1, 2, 3));
    assert_eq!(t.inner_margin, Some(16));
    assert_eq!(t.outer_margin, Some(8));
    assert_eq!(t.corner_radius, Some(12));
    assert_eq!(t.width, Some(300));
    assert_eq!(t.lifespan_ms, Some(5000));
}

#[test]
fn toast_standalone_style_fills_widget_defaults() {
    let t = Toast::new("m", 0);
    let style = t.resolved_style();
    assert_eq!(style.inner_margin, 10);
    assert_eq!(style.outer_margin, 10);
    assert_eq!(style.corner_radius, 4);
    assert!(!style.can_close);
}

#[test]
fn toast_expiry_boundary() {
    // A toast with a 2 s lifespan created at T=0: still live at 1.9 s,
    // expired from exactly 2.0 s on.
    let t = Toast::new("m", 0).duration(2000);
    assert!(!t.has_expired(1900));
    assert!(t.has_expired(2000));
    assert!(t.has_expired(2001));
}

#[test]
fn toast_expiry_with_late_creation() {
    let t = Toast::new("m", 1000).duration(500);
    assert!(!t.has_expired(0));
    assert!(!t.has_expired(1499));
    assert!(t.has_expired(1500));
}

#[test]
fn toast_expiry_zero_lifespan() {
    let t = Toast::new("m", 7).duration(0);
    assert!(!t.has_expired(6));
    assert!(t.has_expired(7));
}

#[test]
fn anchor_validity() {
    assert!(Anchor::LeftTop.is_valid());
    assert!(Anchor::CenterTop.is_valid());
    assert!(Anchor::RightTop.is_valid());
    assert!(Anchor::LeftBottom.is_valid());
    assert!(Anchor::CenterBottom.is_valid());
    assert!(Anchor::RightBottom.is_valid());
    assert!(!Anchor::LeftCenter.is_valid());
    assert!(!Anchor::Center.is_valid());
    assert!(!Anchor::RightCenter.is_valid());
}

#[test]
fn anchor_bottom_detection() {
    assert!(Anchor::RightBottom.is_bottom());
    assert!(Anchor::LeftBottom.is_bottom());
    assert!(Anchor::CenterBottom.is_bottom());
    assert!(!Anchor::CenterTop.is_bottom());
    assert!(!Anchor::LeftTop.is_bottom());
}

#[test]
fn display_order_bottom_is_insertion_order() {
    assert_eq!(display_order(Anchor::CenterBottom, 3), vec![0, 1, 2]);
}

#[test]
fn display_order_top_is_reversed() {
    assert_eq!(display_order(Anchor::CenterTop, 3), vec![2, 1, 0]);
}

#[test]
fn display_order_empty_collection() {
    assert_eq!(display_order(Anchor::LeftTop, 0), Vec::<usize>::new());
}

#[test]
fn display_position_is_inverse_of_order() {
    for anchor in [Anchor::CenterTop, Anchor::CenterBottom] {
        let order = display_order(anchor, 4);
        for (pos, &idx) in order.iter().enumerate() {
            assert_eq!(display_position(anchor, 4, idx), pos);
        }
    }
}

#[test]
fn newest_entity_sits_nearest_the_anchor() {
    // Top anchor: newest first, so insertion index 2 is at display
    // position 0, right at the top edge.
    assert_eq!(display_order(Anchor::CenterTop, 3)[0], 2);
    // Bottom anchor: insertion order, so insertion index 2 is at the last
    // display position, right at the bottom edge.
    assert_eq!(display_order(Anchor::CenterBottom, 3)[2], 2);
}

#[test]
fn toggle_flips_only_on_click() {
    assert!(toggle_next(false, true));
    assert!(!toggle_next(true, true));
    assert!(!toggle_next(false, false));
    assert!(toggle_next(true, false));
}
