//! Widget-logic library for an extension pack of immediate-mode GUI widgets:
//! alert boxes, toast notifications, a toggle switch, and manager overlays
//! that stack, cap, auto-expire and dismiss them.
//!
//! The painting itself (frames, text, hit-testing) belongs to the host GUI
//! toolkit; this crate holds the decisions behind it — expiry timing, anchor
//! ordering, capacity pruning, style merging, dismissal bookkeeping and the
//! fingerprint-driven two-pass layout stabilizer — stated and proved over
//! plain values.

mod alert;
mod alert_manager;
mod anchor;
mod fingerprint;
mod layout;
mod order;
mod selection;
mod style;
mod toast;
mod toast_manager;
mod toggle;

pub use alert::{alert, Alert, AlertLevel};
pub use alert::{ALERT_DEFAULT_CORNER_RADIUS, ALERT_DEFAULT_INNER_MARGIN, ALERT_DEFAULT_OUTER_MARGIN};
pub use alert_manager::{
    alert_manager, lemma_dismiss_exactly_one, lemma_fingerprint_stability,
    lemma_no_interaction_no_mutation, spec_commit, spec_commit_keep, spec_dismissed,
    spec_fingerprint, spec_managed_style, AlertManager,
};
pub use anchor::Anchor;
pub use fingerprint::{FNV_OFFSET_BASIS, FNV_PRIME};
pub use layout::{
    effective_extent, select_pass, spec_effective_extent, spec_lookup, spec_select_pass,
    LayoutMemory, RenderPass,
};
pub use order::{
    display_order, display_position, lemma_display_index_position_inverse,
    lemma_newest_nearest_anchor, spec_display_index, spec_display_position, spec_edge_distance,
};
pub use selection::{
    lemma_keep_all, lemma_keep_all_but_one, lemma_keep_indices_all, lemma_keep_indices_step,
    spec_keep_indices,
};
pub use style::{RenderItem, ResolvedStyle, Rgba};
pub use toast::Toast;
pub use toast::{
    TOAST_DEFAULT_CORNER_RADIUS, TOAST_DEFAULT_INNER_MARGIN, TOAST_DEFAULT_LIFESPAN_MS,
    TOAST_DEFAULT_OUTER_MARGIN,
};
pub use toast_manager::{
    lemma_prune_idempotent, lemma_pruned_not_expired, spec_live, spec_live_keep, spec_prune,
    spec_toast_style, toast_manager, ToastManager,
};
pub use toggle::toggle_next;
