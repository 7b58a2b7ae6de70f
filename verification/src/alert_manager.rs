//! The alert collection manager.
//!
//! An alert manager renders a shared, ordered collection of alerts as one
//! overlay: per frame it computes the content fingerprint, decides between
//! the measurement and the display pass, lays the alerts out in the order
//! its anchor dictates with its configuration merged onto each entity's
//! unset style settings, and afterwards removes the alerts whose close
//! affordance was activated.
//!
//! The paint layer drives one frame as: [`AlertManager::fingerprint`] and
//! the [`crate::LayoutMemory`] pick the pass, [`AlertManager::plan_frame`]
//! says what to paint where, and once the clicks of the frame are known
//! [`AlertManager::commit_frame`] mutates the collection. Acquiring the
//! collection's lock is the caller's business; on contention it skips the
//! frame and calls nothing.

use vstd::prelude::*;

use crate::alert::Alert;
use crate::anchor::Anchor;
use crate::fingerprint::{
    mix, mix_alerts, mix_anchor, mix_bool, mix_i8, mix_opt_offset, mix_opt_u32, mix_str,
    spec_anchor_code, spec_enc_i8, spec_mix, spec_mix_alerts, spec_mix_bool, spec_mix_opt_offset,
    spec_mix_opt_u32, spec_mix_text, FNV_OFFSET_BASIS,
};
use crate::layout::{spec_select_pass, RenderPass};
use crate::order::{display_order, display_position, spec_display_index, spec_display_position};
use crate::selection::{
    lemma_keep_all, lemma_keep_all_but_one, lemma_keep_indices_step, spec_keep_indices,
};
use crate::style::{opt_or, resolve_bool, resolve_i8, resolve_u8, RenderItem, ResolvedStyle};

verus! {

broadcast use vstd::string::group_string_axioms;

use vstd::string::StringExecFns;

/// Manages and displays a collection of alerts with shared styling and
/// positioning. The manager holds only its configuration; the collection
/// itself is handed to each call by the caller, who owns its lock.
#[derive(Debug, PartialEq)]
pub struct AlertManager {
    /// Identity of this manager instance, used to key its entry in the
    /// process-wide layout memory so that instances do not collide.
    pub unique_key: String,
    /// Inner margin merged onto alerts that set none; never negative.
    pub inner_margin: i8,
    /// Outer margin merged onto alerts that set none; never negative.
    pub outer_margin: i8,
    /// Corner radius merged onto alerts that set none.
    pub corner_radius: u8,
    /// Overlay width, in points. When set it overrides every alert's own
    /// width; when unset the overlay inherits the parent width.
    pub width: Option<u32>,
    /// Whether alerts without an explicit choice show a close affordance.
    pub can_close: bool,
    /// Where the overlay sits in the parent area; always one of the six
    /// valid anchors.
    pub anchor: Anchor,
    /// Optional offset from the anchor position, in points.
    pub anchor_offset: Option<(i32, i32)>,
    /// Optional maximum overlay height, in points; enables scrolling when
    /// the content is taller.
    pub max_height: Option<u32>,
}

/// The style one alert is painted with under a manager: the entity's own
/// explicit settings, the manager's configuration where the entity left a
/// setting unset — except the width, which the manager forcibly overrides
/// whenever it sets one.
pub open spec fn spec_managed_style(a: Alert, m: AlertManager) -> ResolvedStyle {
    ResolvedStyle {
        color: a.color,
        inner_margin: opt_or(a.inner_margin, m.inner_margin),
        outer_margin: opt_or(a.outer_margin, m.outer_margin),
        corner_radius: opt_or(a.corner_radius, m.corner_radius),
        can_close: opt_or(a.can_close, m.can_close),
        width: if m.width is Some {
            m.width
        } else {
            a.width
        },
    }
}

/// The content fingerprint of one frame: every field of the configuration
/// and of each alert that affects the rendered size, folded into a digest.
/// A pure function of its arguments, so unchanged content always gives an
/// unchanged fingerprint.
pub open spec fn spec_fingerprint(m: AlertManager, alerts: Seq<Alert>) -> u64 {
    let h = FNV_OFFSET_BASIS;
    let h = spec_mix_text(h, m.unique_key@);
    let h = spec_mix_alerts(h, alerts);
    let h = spec_mix(h, spec_enc_i8(m.inner_margin));
    let h = spec_mix(h, spec_enc_i8(m.outer_margin));
    let h = spec_mix(h, m.corner_radius as u64);
    let h = spec_mix_opt_u32(h, m.width);
    let h = spec_mix_bool(h, m.can_close);
    let h = spec_mix(h, spec_anchor_code(m.anchor));
    let h = spec_mix_opt_offset(h, m.anchor_offset);
    spec_mix_opt_u32(h, m.max_height)
}

/// Whether the alert at insertion index `j` is dismissed this frame: its
/// display position was clicked and its resolved style shows a close
/// affordance.
pub open spec fn spec_dismissed(
    m: AlertManager,
    alerts: Seq<Alert>,
    clicked: Seq<bool>,
    j: int,
) -> bool {
    clicked[spec_display_position(m.anchor, alerts.len() as int, j)] && spec_managed_style(
        alerts[j],
        m,
    ).can_close
}

/// The predicate the commit of one frame keeps alerts by: position `j`
/// stays exactly when it was not dismissed.
pub open spec fn spec_commit_keep(
    m: AlertManager,
    alerts: Seq<Alert>,
    clicked: Seq<bool>,
) -> spec_fn(int) -> bool {
    |j: int| !spec_dismissed(m, alerts, clicked, j)
}

/// The collection after the dismissals of one frame are committed: every
/// alert stays, in insertion order, except those dismissed this frame.
pub open spec fn spec_commit(m: AlertManager, alerts: Seq<Alert>, clicked: Seq<bool>) -> Seq<
    Alert,
> {
    spec_keep_indices(alerts, spec_commit_keep(m, alerts, clicked))
}

impl AlertManager {
    /// Margins are non-negative and the anchor is one of the six valid
    /// positions.
    pub open spec fn wf(self) -> bool {
        &&& self.inner_margin >= 0
        &&& self.outer_margin >= 0
        &&& self.anchor.spec_is_valid()
    }

    /// Create an alert manager with the given identity and the default
    /// configuration: top-center anchor, close affordances shown, no width
    /// or height constraint. The stored identity carries the manager kind
    /// as a prefix, so alert and toast managers built from the same key
    /// never collide in the host's state.
    pub fn new(unique_key: &str) -> (m: AlertManager)
        ensures
            m.unique_key@ == "alert_manager_"@ + unique_key@,
            m.inner_margin == 10i8,
            m.outer_margin == 1i8,
            m.corner_radius == 4u8,
            m.width is None,
            m.can_close == true,
            m.anchor == Anchor::CenterTop,
            m.anchor_offset is None,
            m.max_height is None,
            m.wf(),
    {
        AlertManager {
            unique_key: "alert_manager_".to_string().concat(unique_key),
            inner_margin: 10,
            outer_margin: 1,
            corner_radius: 4,
            width: None,
            can_close: true,
            anchor: Anchor::CenterTop,
            anchor_offset: None,
            max_height: None,
        }
    }

    /// Set the inner margin merged onto alerts that set none.
    pub fn inner_margin(self, margin: i8) -> (m: AlertManager)
        requires
            margin >= 0,
        ensures
            m == (AlertManager { inner_margin: margin, ..self }),
    {
        AlertManager { inner_margin: margin, ..self }
    }

    /// Set the outer margin merged onto alerts that set none.
    pub fn outer_margin(self, margin: i8) -> (m: AlertManager)
        requires
            margin >= 0,
        ensures
            m == (AlertManager { outer_margin: margin, ..self }),
    {
        AlertManager { outer_margin: margin, ..self }
    }

    /// Set the corner radius merged onto alerts that set none.
    pub fn corner_radius(self, radius: u8) -> (m: AlertManager)
        ensures
            m == (AlertManager { corner_radius: radius, ..self }),
    {
        AlertManager { corner_radius: radius, ..self }
    }

    /// Set the overlay width; it then overrides every alert's own width.
    pub fn width(self, width: u32) -> (m: AlertManager)
        ensures
            m == (AlertManager { width: Some(width), ..self }),
    {
        AlertManager { width: Some(width), ..self }
    }

    /// Set whether alerts without an explicit choice show a close
    /// affordance.
    pub fn can_close(self, can_close: bool) -> (m: AlertManager)
        ensures
            m == (AlertManager { can_close, ..self }),
    {
        AlertManager { can_close, ..self }
    }

    /// Set the anchor position of the overlay. Only the six edge anchors
    /// are valid; configuring any other position is a programmer error,
    /// ruled out here rather than at render time.
    pub fn anchor(self, anchor: Anchor) -> (m: AlertManager)
        requires
            anchor.spec_is_valid(),
        ensures
            m == (AlertManager { anchor, ..self }),
    {
        AlertManager { anchor, ..self }
    }

    /// Set an offset from the anchor position, in points.
    pub fn anchor_offset(self, offset: (i32, i32)) -> (m: AlertManager)
        ensures
            m == (AlertManager { anchor_offset: Some(offset), ..self }),
    {
        AlertManager { anchor_offset: Some(offset), ..self }
    }

    /// Set the maximum overlay height; taller content scrolls.
    pub fn max_height(self, max_height: u32) -> (m: AlertManager)
        ensures
            m == (AlertManager { max_height: Some(max_height), ..self }),
    {
        AlertManager { max_height: Some(max_height), ..self }
    }

    /// The style the given alert is painted with under this manager,
    /// matching [`spec_managed_style`].
    pub fn managed_style(&self, a: &Alert) -> (r: ResolvedStyle)
        ensures
            r == spec_managed_style(*a, *self),
    {
        ResolvedStyle {
            color: a.color,
            inner_margin: resolve_i8(a.inner_margin, self.inner_margin),
            outer_margin: resolve_i8(a.outer_margin, self.outer_margin),
            corner_radius: resolve_u8(a.corner_radius, self.corner_radius),
            can_close: resolve_bool(a.can_close, self.can_close),
            width: match self.width {
                Some(w) => Some(w),
                None => a.width,
            },
        }
    }

    /// The content fingerprint of this frame, matching
    /// [`spec_fingerprint`].
    pub fn fingerprint(&self, alerts: &Vec<Alert>) -> (r: u64)
        ensures
            r == spec_fingerprint(*self, alerts@),
    {
        let h = mix_str(FNV_OFFSET_BASIS, self.unique_key.as_str());
        let h = mix_alerts(h, alerts);
        let h = mix_i8(h, self.inner_margin);
        let h = mix_i8(h, self.outer_margin);
        let h = mix(h, self.corner_radius as u64);
        let h = mix_opt_u32(h, self.width);
        let h = mix_bool(h, self.can_close);
        let h = mix_anchor(h, self.anchor);
        let h = mix_opt_offset(h, self.anchor_offset);
        mix_opt_u32(h, self.max_height)
    }

    /// Lay the collection out for one frame: one item per alert, in the
    /// order the anchor dictates (newest nearest the anchored edge), each
    /// carrying the insertion index it came from and the style it is
    /// painted with.
    pub fn plan_frame(&self, alerts: &Vec<Alert>) -> (items: Vec<RenderItem>)
        requires
            self.wf(),
        ensures
            items@.len() == alerts@.len(),
            forall|p: int|
                0 <= p < items@.len() ==> {
                    let j = spec_display_index(self.anchor, alerts@.len() as int, p);
                    &&& #[trigger] items@[p].index == j
                    &&& items@[p].style == spec_managed_style(alerts@[j], *self)
                },
    {
        let n = alerts.len();
        let order = display_order(self.anchor, n);
        let mut items: Vec<RenderItem> = Vec::new();
        let mut p: usize = 0;
        while p < n
            invariant
                p <= n,
                n == alerts@.len(),
                order@.len() == n,
                self.wf(),
                forall|q: int|
                    0 <= q < n ==> order@[q] == spec_display_index(self.anchor, n as int, q),
                items@.len() == p,
                forall|q: int|
                    0 <= q < p ==> {
                        let j = spec_display_index(self.anchor, n as int, q);
                        &&& #[trigger] items@[q].index == j
                        &&& items@[q].style == spec_managed_style(alerts@[j], *self)
                    },
            decreases n - p,
        {
            let idx = order[p];
            assert(idx < n);
            let style = self.managed_style(&alerts[idx]);
            items.push(RenderItem { index: idx, style });
            p += 1;
        }
        items
    }

    /// Commit the dismissals of one frame: `clicked[p]` says whether the
    /// close affordance at display position `p` of this frame's plan was
    /// activated. Exactly the alerts whose position was clicked and whose
    /// resolved style shows a close affordance leave the collection; every
    /// other alert stays, unchanged and in insertion order.
    pub fn commit_frame(&self, alerts: &mut Vec<Alert>, clicked: &Vec<bool>)
        requires
            self.wf(),
            clicked@.len() == old(alerts)@.len(),
        ensures
            final(alerts)@ == spec_commit(*self, old(alerts)@, clicked@),
    {
        let ghost orig = alerts@;
        let n = alerts.len();
        let mut kept: Vec<Alert> = Vec::new();
        proof {
            assert(orig.take(0) =~= Seq::<Alert>::empty());
        }
        let mut j: usize = 0;
        while j < n
            invariant
                j <= n,
                n == orig.len(),
                alerts@ == orig,
                clicked@.len() == n,
                self.wf(),
                kept@ == spec_keep_indices(
                    orig.take(j as int),
                    spec_commit_keep(*self, orig, clicked@),
                ),
            decreases n - j,
        {
            let ghost prev = kept@;
            let p = display_position(self.anchor, n, j);
            let style = self.managed_style(&alerts[j]);
            let dismissed = clicked[p] && style.can_close;
            proof {
                assert(dismissed == spec_dismissed(*self, orig, clicked@, j as int));
                assert(spec_commit_keep(*self, orig, clicked@)(j as int) == !dismissed);
                lemma_keep_indices_step(orig, spec_commit_keep(*self, orig, clicked@), j as int);
            }
            if !dismissed {
                let a = copy_alert(&alerts[j]);
                kept.push(a);
                proof {
                    assert(kept@ =~= prev + seq![orig[j as int]]);
                }
            } else {
                proof {
                    assert(prev + Seq::<Alert>::empty() =~= prev);
                }
            }
            j += 1;
        }
        proof {
            assert(orig.take(n as int) =~= orig);
        }
        *alerts = kept;
    }
}

/// A field-for-field copy of an alert; the message is the only non-`Copy`
/// field.
fn copy_alert(a: &Alert) -> (r: Alert)
    ensures
        r == *a,
{
    Alert {
        color: a.color,
        message: a.message.clone(),
        inner_margin: a.inner_margin,
        outer_margin: a.outer_margin,
        corner_radius: a.corner_radius,
        can_close: a.can_close,
        width: a.width,
    }
}

/// Convenience function to create an alert manager with the given
/// identity, equivalent to [`AlertManager::new`].
pub fn alert_manager(unique_key: &str) -> (m: AlertManager)
    ensures
        m.unique_key@ == "alert_manager_"@ + unique_key@,
        m.inner_margin == 10i8,
        m.outer_margin == 1i8,
        m.corner_radius == 4u8,
        m.width is None,
        m.can_close == true,
        m.anchor == Anchor::CenterTop,
        m.anchor_offset is None,
        m.max_height is None,
        m.wf(),
{
    AlertManager::new(unique_key)
}

/// A frame without user interaction mutates nothing: when no display
/// position was clicked, committing the frame returns the collection
/// unchanged.
pub proof fn lemma_no_interaction_no_mutation(
    m: AlertManager,
    alerts: Seq<Alert>,
    clicked: Seq<bool>,
)
    requires
        clicked.len() == alerts.len(),
        forall|p: int| 0 <= p < clicked.len() ==> !clicked[p],
    ensures
        spec_commit(m, alerts, clicked) == alerts,
{
    let keep = spec_commit_keep(m, alerts, clicked);
    assert forall|j: int| 0 <= j < alerts.len() implies #[trigger] keep(j) by {
        let p = spec_display_position(m.anchor, alerts.len() as int, j);
        if 0 <= p < clicked.len() {
            assert(!clicked[p]);
        }
    }
    lemma_keep_all(alerts, keep);
}

/// Fingerprint stability: a frame whose entity content and configuration
/// equal those of the previous frame recomputes the same fingerprint, so
/// against the cached value the display pass is selected and the
/// previously resolved size is reused — no re-measurement pass.
pub proof fn lemma_fingerprint_stability(
    previous_m: AlertManager,
    current_m: AlertManager,
    previous_alerts: Seq<Alert>,
    current_alerts: Seq<Alert>,
    cached: Option<u64>,
)
    requires
        previous_m == current_m,
        previous_alerts == current_alerts,
        cached == Some(spec_fingerprint(previous_m, previous_alerts)),
    ensures
        spec_select_pass(cached, spec_fingerprint(current_m, current_alerts))
            == RenderPass::Display,
{
}

/// Clicking the close affordance of exactly one dismissible alert removes
/// exactly that alert: the committed collection is the old one with the
/// entity at that insertion index taken out, and no other entity's content
/// or order changes.
pub proof fn lemma_dismiss_exactly_one(
    m: AlertManager,
    alerts: Seq<Alert>,
    clicked: Seq<bool>,
    j: int,
)
    requires
        m.wf(),
        clicked.len() == alerts.len(),
        0 <= j < alerts.len(),
        forall|p: int|
            0 <= p < clicked.len() ==> (clicked[p] <==> p == spec_display_position(
                m.anchor,
                alerts.len() as int,
                j,
            )),
        spec_managed_style(alerts[j], m).can_close,
    ensures
        spec_commit(m, alerts, clicked) == alerts.remove(j),
{
    let n = alerts.len() as int;
    let keep = spec_commit_keep(m, alerts, clicked);
    assert forall|k: int| 0 <= k < n implies (#[trigger] keep(k) <==> k != j) by {
        let pk = spec_display_position(m.anchor, n, k);
        let pj = spec_display_position(m.anchor, n, j);
        assert(0 <= pk < n);
        assert(clicked[pk] <==> pk == pj);
        if k == j {
            assert(spec_dismissed(m, alerts, clicked, k));
        } else {
            assert(pk != pj);
            assert(!clicked[pk]);
        }
    }
    lemma_keep_all_but_one(alerts, keep, j);
}

} // verus!
