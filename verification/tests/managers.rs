//! Tests of the collection managers: pruning, ordering, style merging,
//! dismissal commits and the two-pass layout stabilizer.

use egui_widget_ext::{
    alert_manager, effective_extent, select_pass, toast_manager, Alert, AlertLevel, AlertManager,
    Anchor, LayoutMemory, RenderPass, Rgba, Toast, ToastManager,
};

fn rgb(red: u8, green: u8, blue: u8) -> Rgba {
    Rgba { red, green, blue, alpha: 255 }
}

#[test]
fn alert_manager_defaults() {
    let m = AlertManager::new("main");
    assert_eq!(m.unique_key, "alert_manager_main");
    assert_eq!(m.inner_margin, 10);
    assert_eq!(m.outer_margin, 1);
    assert_eq!(m.corner_radius, 4);
    assert_eq!(m.width, None);
    assert!(m.can_close);
    assert_eq!(m.anchor, Anchor::CenterTop);
    assert_eq!(m.anchor_offset, None);
    assert_eq!(m.max_height, None);
}

#[test]
fn alert_manager_builders() {
    let m = alert_manager("side")
        .inner_margin(6)
        .outer_margin(2)
        .corner_radius(8)
        .width(400)
        .can_close(false)
        .anchor(Anchor::RightBottom)
        .anchor_offset((-10, 5))
        .max_height(300);
    assert_eq!(m.inner_margin, 6);
    assert_eq!(m.outer_margin, 2);
    assert_eq!(m.corner_radius, 8);
    assert_eq!(m.width, Some(400));
    assert!(!m.can_close);
    assert_eq!(m.anchor, Anchor::RightBottom);
    assert_eq!(m.anchor_offset, Some((-10, 5)));
    assert_eq!(m.max_height, Some(300));
}

#[test]
fn toast_manager_defaults() {
    let m = ToastManager::new("main");
    assert_eq!(m.unique_key, "toast_manager_main");
    assert_eq!(m.max_toasts, 1);
    assert_eq!(m.inner_margin, 5);
    assert_eq!(m.outer_margin, 1);
    assert_eq!(m.corner_radius, 4);
    assert_eq!(m.width, 200);
    assert_eq!(m.anchor, Anchor::RightBottom);
    assert_eq!(m.anchor_offset, (0, 0));
}

#[test]
fn toast_manager_builders() {
    let m = toast_manager("corner")
        .max_toasts(3)
        .inner_margin(8)
        .outer_margin(4)
        .corner_radius(6)
        .width(260)
        .anchor(Anchor::LeftTop)
        .anchor_offset((12, -3));
    assert_eq!(m.max_toasts, 3);
    assert_eq!(m.inner_margin, 8);
    assert_eq!(m.outer_margin, 4);
    assert_eq!(m.corner_radius, 6);
    assert_eq!(m.width, 260);
    assert_eq!(m.anchor, Anchor::LeftTop);
    assert_eq!(m.anchor_offset, (12, -3));
}

#[test]
fn bottom_anchor_displays_oldest_at_top() {
    // Collection [A("x"), B("y")] under a bottom anchor: display order
    // top-to-bottom is [A, B] — oldest at the top, newest nearest the
    // bottom edge it anchors to.
    let alerts = vec![Alert::new("x"), Alert::new("y")];
    let m = alert_manager("p").anchor(Anchor::CenterBottom);
    let items = m.plan_frame(&alerts);
    assert_eq!(items.len(), 2);
    assert_eq!(items[0].index, 0);
    assert_eq!(items[1].index, 1);
}

#[test]
fn top_anchor_displays_newest_at_top() {
    let alerts = vec![Alert::new("x"), Alert::new("y")];
    let m = alert_manager("p").anchor(Anchor::CenterTop);
    let items = m.plan_frame(&alerts);
    assert_eq!(items.len(), 2);
    assert_eq!(items[0].index, 1);
    assert_eq!(items[1].index, 0);
}

#[test]
fn manager_style_fills_unset_entity_settings() {
    let alerts = vec![Alert::new("m")];
    let mgr = alert_manager("s").inner_margin(6).corner_radius(9).can_close(false);
    let items = mgr.plan_frame(&alerts);
    let style = items[0].style;
    assert_eq!(style.inner_margin, 6);
    assert_eq!(style.outer_margin, 1);
    assert_eq!(style.corner_radius, 9);
    assert!(!style.can_close);
    assert_eq!(style.width, None);
}

#[test]
fn manager_style_keeps_explicit_entity_settings() {
    let alerts = vec![Alert::new("m").inner_margin(2).can_close(true).width(120)];
    let mgr = alert_manager("s").inner_margin(6).can_close(false);
    let style = mgr.plan_frame(&alerts)[0].style;
    assert_eq!(style.inner_margin, 2);
    assert!(style.can_close);
    assert_eq!(style.width, Some(120));
}

#[test]
fn manager_width_forcibly_overrides_entity_width() {
    let alerts = vec![Alert::new("m").width(120)];
    let mgr = alert_manager("s").width(400);
    let style = mgr.plan_frame(&alerts)[0].style;
    assert_eq!(style.width, Some(400));
}

#[test]
fn commit_without_clicks_mutates_nothing() {
    let mut alerts = vec![Alert::new("a"), Alert::new("b"), Alert::new("c")];
    let before = alerts.clone();
    let mgr = alert_manager("idem");
    let clicked = vec![false, false, false];
    mgr.commit_frame(&mut alerts, &clicked);
    assert_eq!(alerts, before);
}

#[test]
fn dismissing_one_alert_removes_exactly_that_alert() {
    // Top anchor: display position 0 shows the newest alert "c"
    // (insertion index 2); clicking display position 1 dismisses "b".
    let mut alerts = vec![Alert::new("a"), Alert::new("b"), Alert::new("c")];
    let mgr = alert_manager("dis").anchor(Anchor::CenterTop);
    let clicked = vec![false, true, false];
    mgr.commit_frame(&mut alerts, &clicked);
    assert_eq!(alerts.len(), 2);
    assert_eq!(alerts[0].message, "a");
    assert_eq!(alerts[1].message, "c");
}

#[test]
fn dismissing_under_bottom_anchor_uses_display_positions() {
    let mut alerts = vec![Alert::new("a"), Alert::new("b"), Alert::new("c")];
    let mgr = alert_manager("dis2").anchor(Anchor::CenterBottom);
    // Bottom anchor renders in insertion order, so position 0 is "a".
    let clicked = vec![true, false, false];
    mgr.commit_frame(&mut alerts, &clicked);
    assert_eq!(alerts.len(), 2);
    assert_eq!(alerts[0].message, "b");
    assert_eq!(alerts[1].message, "c");
}

#[test]
fn clicks_on_undismissible_alerts_are_ignored() {
    let mut alerts = vec![Alert::new("a").can_close(false), Alert::new("b")];
    let before = alerts.clone();
    let mgr = alert_manager("nc").anchor(Anchor::CenterBottom).can_close(false);
    // "a" pinned its own can_close off; "b" inherits the manager's false.
    let clicked = vec![true, true];
    mgr.commit_frame(&mut alerts, &clicked);
    assert_eq!(alerts, before);
}

#[test]
fn prune_caps_collection_to_newest_toasts() {
    // maxToasts = 2, three toasts pushed in order: pruning evicts the
    // oldest, leaving [t2, t3].
    let mut toasts = vec![
        Toast::new("t1", 0),
        Toast::new("t2", 1),
        Toast::new("t3", 2),
    ];
    let mgr = toast_manager("cap").max_toasts(2);
    mgr.prune(&mut toasts, 10);
    assert_eq!(toasts.len(), 2);
    assert_eq!(toasts[0].message, "t2");
    assert_eq!(toasts[1].message, "t3");
}

#[test]
fn prune_removes_expired_toasts() {
    let mut toasts = vec![
        Toast::new("old", 0).duration(100),
        Toast::new("fresh", 0).duration(10_000),
    ];
    let mgr = toast_manager("exp").max_toasts(10);
    mgr.prune(&mut toasts, 5000);
    assert_eq!(toasts.len(), 1);
    assert_eq!(toasts[0].message, "fresh");
}

#[test]
fn prune_applies_expiry_before_capacity() {
    let mut toasts = vec![
        Toast::new("gone", 0).duration(1),
        Toast::new("a", 10),
        Toast::new("b", 11),
        Toast::new("c", 12),
    ];
    let mgr = toast_manager("both").max_toasts(2);
    mgr.prune(&mut toasts, 100);
    assert_eq!(toasts.len(), 2);
    assert_eq!(toasts[0].message, "b");
    assert_eq!(toasts[1].message, "c");
}

#[test]
fn prune_with_zero_capacity_empties_collection() {
    let mut toasts = vec![Toast::new("t", 0)];
    let mgr = toast_manager("zero").max_toasts(0);
    mgr.prune(&mut toasts, 0);
    assert!(toasts.is_empty());
}

#[test]
fn prune_is_idempotent_at_one_instant() {
    let mut toasts = vec![
        Toast::new("t1", 0).duration(100),
        Toast::new("t2", 0),
        Toast::new("t3", 1),
        Toast::new("t4", 2),
    ];
    let mgr = toast_manager("idem").max_toasts(2);
    mgr.prune(&mut toasts, 500);
    let after_first = toasts.clone();
    mgr.prune(&mut toasts, 500);
    assert_eq!(toasts, after_first);
}

#[test]
fn toast_plan_orders_and_clamps_width() {
    let toasts = vec![Toast::new("a", 0), Toast::new("b", 1)];
    let mgr = toast_manager("plan").anchor(Anchor::RightBottom).width(300);
    let items = mgr.plan_frame(&toasts, 250);
    assert_eq!(items.len(), 2);
    // Bottom anchor: insertion order, newest nearest the bottom edge.
    assert_eq!(items[0].index, 0);
    assert_eq!(items[1].index, 1);
    // The manager width is clamped to the parent and forcibly applied.
    assert_eq!(items[0].style.width, Some(250));
    assert!(!items[0].style.can_close);
}

#[test]
fn toast_plan_merges_styles() {
    let toasts = vec![Toast::new("a", 0).inner_margin(9).with_color(rgb(1, 2, 3))];
    let mgr = toast_manager("merge").outer_margin(7);
    let style = mgr.plan_frame(&toasts, 500)[0].style;
    assert_eq!(style.inner_margin, 9);
    assert_eq!(style.outer_margin, 7);
    assert_eq!(style.corner_radius, 4);
    assert_eq!(style.color, rgb(1, 2, 3));
}

#[test]
fn effective_extent_clamps_to_parent() {
    assert_eq!(effective_extent(Some(300), 250), 250);
    assert_eq!(effective_extent(Some(100), 250), 100);
    assert_eq!(effective_extent(Some(0), 250), 1);
    assert_eq!(effective_extent(None, 250), 250);
    // A degenerate parent still yields a visible extent of one point.
    assert_eq!(effective_extent(None, 0), 1);
}

#[test]
fn identical_frames_share_a_fingerprint_and_skip_measurement() {
    // Two consecutive frames with byte-identical content and
    // configuration: the second recomputes the same fingerprint and runs
    // the display pass, reusing the cached size.
    let alerts = vec![Alert::new("x").with_level(AlertLevel::Warning)];
    let mgr = alert_manager("fp").width(400);
    let first = mgr.fingerprint(&alerts);
    let second = mgr.fingerprint(&alerts);
    assert_eq!(first, second);
    assert_eq!(select_pass(Some(first), second), RenderPass::Display);
}

#[test]
fn changed_content_triggers_measurement() {
    let mgr = alert_manager("fp_changed");
    let before = mgr.fingerprint(&vec![Alert::new("x")]);
    let after = mgr.fingerprint(&vec![Alert::new("y")]);
    assert_ne!(before, after);
    assert_eq!(select_pass(Some(before), after), RenderPass::Measure);
}

#[test]
fn first_frame_always_measures() {
    assert_eq!(select_pass(None, 42), RenderPass::Measure);
}

#[test]
fn fingerprint_covers_configuration() {
    let alerts = vec![Alert::new("x")];
    let plain = alert_manager("cfg");
    let wide = alert_manager("cfg").width(500);
    assert_ne!(plain.fingerprint(&alerts), wide.fingerprint(&alerts));
}

#[test]
fn layout_memory_stores_per_manager_identity() {
    let mut memory = LayoutMemory::new();
    let key_a = "a".to_string();
    let key_b = "b".to_string();
    assert_eq!(memory.lookup(&key_a), None);
    memory.store(&key_a, 1);
    memory.store(&key_b, 2);
    assert_eq!(memory.lookup(&key_a), Some(1));
    assert_eq!(memory.lookup(&key_b), Some(2));
    memory.store(&key_a, 3);
    assert_eq!(memory.lookup(&key_a), Some(3));
    assert_eq!(memory.lookup(&key_b), Some(2));
}
