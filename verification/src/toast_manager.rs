//! The toast collection manager.
//!
//! A toast manager renders a shared, ordered collection of toasts as one
//! auto-sized overlay: per frame it prunes the collection — dropping every
//! expired toast, then evicting the oldest until at most `max_toasts`
//! remain — and lays the survivors out in the order its anchor dictates,
//! with its configuration merged onto each toast's unset style settings.
//! Toasts carry no close affordance; they leave by expiry or eviction.
//!
//! The paint layer drives one frame as: [`ToastManager::prune`] mutates
//! the collection, then [`ToastManager::plan_frame`] says what to paint
//! where. Acquiring the collection's lock is the caller's business; on
//! contention it skips the frame and calls nothing.

use vstd::prelude::*;

use crate::anchor::Anchor;
use crate::layout::{effective_extent, spec_effective_extent};
use crate::order::{display_order, spec_display_index};
use crate::selection::{
    lemma_keep_all, lemma_keep_indices_all, lemma_keep_indices_step, spec_keep_indices,
};
use crate::style::{opt_or, resolve_i8, resolve_u8, RenderItem, ResolvedStyle};
use crate::toast::Toast;

verus! {

broadcast use vstd::string::group_string_axioms;

use vstd::string::StringExecFns;

/// Manages and displays a collection of toasts with shared styling and
/// positioning. The manager holds only its configuration; the collection
/// itself is handed to each call by the caller, who owns its lock.
#[derive(Debug, PartialEq)]
pub struct ToastManager {
    /// Identity of this manager instance, used to key its overlay in the
    /// host's state so that instances do not collide.
    pub unique_key: String,
    /// How many toasts may remain after pruning; the oldest beyond this
    /// count are evicted.
    pub max_toasts: usize,
    /// Inner margin merged onto toasts that set none; never negative.
    pub inner_margin: i8,
    /// Outer margin merged onto toasts that set none; never negative.
    pub outer_margin: i8,
    /// Corner radius merged onto toasts that set none.
    pub corner_radius: u8,
    /// Width of the toast area, in points; clamped to the parent width at
    /// render time and forcibly applied to every toast.
    pub width: u32,
    /// Where the overlay sits; always one of the six valid anchors.
    pub anchor: Anchor,
    /// Offset from the anchor position, in points.
    pub anchor_offset: (i32, i32),
}

/// The predicate pruning keeps toasts by before the capacity cut: position
/// `j` survives exactly when it is not expired at `now_ms`.
pub open spec fn spec_live_keep(toasts: Seq<Toast>, now_ms: u64) -> spec_fn(int) -> bool {
    |j: int| !toasts[j].spec_expired(now_ms)
}

/// The collection with every expired toast removed, in insertion order.
pub open spec fn spec_live(toasts: Seq<Toast>, now_ms: u64) -> Seq<Toast> {
    spec_keep_indices(toasts, spec_live_keep(toasts, now_ms))
}

/// The collection after one frame's pruning: expired toasts removed, then
/// the oldest survivors evicted until at most `max` remain.
pub open spec fn spec_prune(toasts: Seq<Toast>, now_ms: u64, max: int) -> Seq<Toast> {
    let live = spec_live(toasts, now_ms);
    if live.len() > max {
        live.skip(live.len() - max)
    } else {
        live
    }
}

/// The style one toast is painted with under a manager: the toast's own
/// explicit settings, the manager's configuration where the toast left a
/// setting unset — except the width, which the manager always applies,
/// clamped to the parent width.
pub open spec fn spec_toast_style(t: Toast, m: ToastManager, parent_width: u32) -> ResolvedStyle {
    ResolvedStyle {
        color: t.color,
        inner_margin: opt_or(t.inner_margin, m.inner_margin),
        outer_margin: opt_or(t.outer_margin, m.outer_margin),
        corner_radius: opt_or(t.corner_radius, m.corner_radius),
        can_close: false,
        width: Some(spec_effective_extent(Some(m.width), parent_width)),
    }
}

impl ToastManager {
    /// Margins are non-negative and the anchor is one of the six valid
    /// positions.
    pub open spec fn wf(self) -> bool {
        &&& self.inner_margin >= 0
        &&& self.outer_margin >= 0
        &&& self.anchor.spec_is_valid()
    }

    /// Create a toast manager with the given identity and the default
    /// configuration: bottom-right anchor, one toast at a time, a 200
    /// point wide area. The stored identity carries the manager kind as a
    /// prefix, so alert and toast managers built from the same key never
    /// collide in the host's state.
    pub fn new(unique_key: &str) -> (m: ToastManager)
        ensures
            m.unique_key@ == "toast_manager_"@ + unique_key@,
            m.max_toasts == 1usize,
            m.inner_margin == 5i8,
            m.outer_margin == 1i8,
            m.corner_radius == 4u8,
            m.width == 200u32,
            m.anchor == Anchor::RightBottom,
            m.anchor_offset == (0i32, 0i32),
            m.wf(),
    {
        ToastManager {
            unique_key: "toast_manager_".to_string().concat(unique_key),
            max_toasts: 1,
            inner_margin: 5,
            outer_margin: 1,
            corner_radius: 4,
            width: 200,
            anchor: Anchor::RightBottom,
            anchor_offset: (0, 0),
        }
    }

    /// Set the maximum number of toasts to display.
    pub fn max_toasts(self, max: usize) -> (m: ToastManager)
        ensures
            m == (ToastManager { max_toasts: max, ..self }),
    {
        ToastManager { max_toasts: max, ..self }
    }

    /// Set the inner margin merged onto toasts that set none.
    pub fn inner_margin(self, margin: i8) -> (m: ToastManager)
        requires
            margin >= 0,
        ensures
            m == (ToastManager { inner_margin: margin, ..self }),
    {
        ToastManager { inner_margin: margin, ..self }
    }

    /// Set the outer margin merged onto toasts that set none.
    pub fn outer_margin(self, margin: i8) -> (m: ToastManager)
        requires
            margin >= 0,
        ensures
            m == (ToastManager { outer_margin: margin, ..self }),
    {
        ToastManager { outer_margin: margin, ..self }
    }

    /// Set the corner radius merged onto toasts that set none.
    pub fn corner_radius(self, radius: u8) -> (m: ToastManager)
        ensures
            m == (ToastManager { corner_radius: radius, ..self }),
    {
        ToastManager { corner_radius: radius, ..self }
    }

    /// Set the width of the toast area, in points.
    pub fn width(self, width: u32) -> (m: ToastManager)
        ensures
            m == (ToastManager { width, ..self }),
    {
        ToastManager { width, ..self }
    }

    /// Set the anchor position of the overlay. Only the six edge anchors
    /// are valid; configuring any other position is a programmer error,
    /// ruled out here rather than at render time.
    pub fn anchor(self, anchor: Anchor) -> (m: ToastManager)
        requires
            anchor.spec_is_valid(),
        ensures
            m == (ToastManager { anchor, ..self }),
    {
        ToastManager { anchor, ..self }
    }

    /// Set an offset from the anchor position, in points.
    pub fn anchor_offset(self, offset: (i32, i32)) -> (m: ToastManager)
        ensures
            m == (ToastManager { anchor_offset: offset, ..self }),
    {
        ToastManager { anchor_offset: offset, ..self }
    }

    /// Prune the collection for one frame: remove every toast expired at
    /// `now_ms`, then evict the oldest survivors until at most
    /// `max_toasts` remain. Surviving toasts keep their insertion order;
    /// after pruning the collection never exceeds the configured count.
    pub fn prune(&self, toasts: &mut Vec<Toast>, now_ms: u64)
        ensures
            final(toasts)@ == spec_prune(old(toasts)@, now_ms, self.max_toasts as int),
            final(toasts)@.len() <= self.max_toasts,
    {
        let ghost orig = toasts@;
        let n = toasts.len();
        let mut live: Vec<Toast> = Vec::new();
        proof {
            assert(orig.take(0) =~= Seq::<Toast>::empty());
        }
        let mut j: usize = 0;
        while j < n
            invariant
                j <= n,
                n == orig.len(),
                toasts@ == orig,
                live@ == spec_keep_indices(orig.take(j as int), spec_live_keep(orig, now_ms)),
                live@.len() <= j,
            decreases n - j,
        {
            let ghost prev = live@;
            let expired = toasts[j].has_expired(now_ms);
            proof {
                assert(spec_live_keep(orig, now_ms)(j as int) == !expired);
                lemma_keep_indices_step(orig, spec_live_keep(orig, now_ms), j as int);
            }
            if !expired {
                let t = copy_toast(&toasts[j]);
                live.push(t);
                proof {
                    assert(live@ =~= prev + seq![orig[j as int]]);
                }
            } else {
                proof {
                    assert(prev + Seq::<Toast>::empty() =~= prev);
                }
            }
            j += 1;
        }
        proof {
            assert(orig.take(n as int) =~= orig);
        }
        let live_len = live.len();
        let drop: usize = if live_len > self.max_toasts {
            live_len - self.max_toasts
        } else {
            0
        };
        let mut kept: Vec<Toast> = Vec::new();
        proof {
            assert(live@.subrange(drop as int, drop as int) =~= Seq::<Toast>::empty());
        }
        let mut i: usize = drop;
        while i < live_len
            invariant
                drop <= i <= live_len,
                live_len == live@.len(),
                kept@ == live@.subrange(drop as int, i as int),
            decreases live_len - i,
        {
            let ghost prev = kept@;
            let t = copy_toast(&live[i]);
            kept.push(t);
            proof {
                assert(kept@ =~= live@.subrange(drop as int, i as int + 1));
            }
            i += 1;
        }
        proof {
            assert(live@.subrange(drop as int, live_len as int) =~= live@.skip(drop as int));
        }
        *toasts = kept;
    }

    /// Lay the pruned collection out for one frame: one item per toast, in
    /// the order the anchor dictates (newest nearest the anchored edge),
    /// each carrying the insertion index it came from and the style it is
    /// painted with inside a parent area `parent_width` points wide.
    pub fn plan_frame(&self, toasts: &Vec<Toast>, parent_width: u32) -> (items: Vec<RenderItem>)
        requires
            self.wf(),
        ensures
            items@.len() == toasts@.len(),
            forall|p: int|
                0 <= p < items@.len() ==> {
                    let j = spec_display_index(self.anchor, toasts@.len() as int, p);
                    &&& #[trigger] items@[p].index == j
                    &&& items@[p].style == spec_toast_style(toasts@[j], *self, parent_width)
                },
    {
        let n = toasts.len();
        let order = display_order(self.anchor, n);
        let width = effective_extent(Some(self.width), parent_width);
        let mut items: Vec<RenderItem> = Vec::new();
        let mut p: usize = 0;
        while p < n
            invariant
                p <= n,
                n == toasts@.len(),
                order@.len() == n,
                self.wf(),
                width == spec_effective_extent(Some(self.width), parent_width),
                forall|q: int|
                    0 <= q < n ==> order@[q] == spec_display_index(self.anchor, n as int, q),
                items@.len() == p,
                forall|q: int|
                    0 <= q < p ==> {
                        let j = spec_display_index(self.anchor, n as int, q);
                        &&& #[trigger] items@[q].index == j
                        &&& items@[q].style == spec_toast_style(toasts@[j], *self, parent_width)
                    },
            decreases n - p,
        {
            let idx = order[p];
            assert(idx < n);
            let t = &toasts[idx];
            let style = ResolvedStyle {
                color: t.color,
                inner_margin: resolve_i8(t.inner_margin, self.inner_margin),
                outer_margin: resolve_i8(t.outer_margin, self.outer_margin),
                corner_radius: resolve_u8(t.corner_radius, self.corner_radius),
                can_close: false,
                width: Some(width),
            };
            items.push(RenderItem { index: idx, style });
            p += 1;
        }
        items
    }
}

/// A field-for-field copy of a toast; the message is the only non-`Copy`
/// field.
fn copy_toast(t: &Toast) -> (r: Toast)
    ensures
        r == *t,
{
    Toast {
        message: t.message.clone(),
        color: t.color,
        inner_margin: t.inner_margin,
        outer_margin: t.outer_margin,
        corner_radius: t.corner_radius,
        width: t.width,
        created_at_ms: t.created_at_ms,
        lifespan_ms: t.lifespan_ms,
    }
}

/// Convenience function to create a toast manager with the given identity,
/// equivalent to [`ToastManager::new`].
pub fn toast_manager(unique_key: &str) -> (m: ToastManager)
    ensures
        m.unique_key@ == "toast_manager_"@ + unique_key@,
        m.max_toasts == 1usize,
        m.inner_margin == 5i8,
        m.outer_margin == 1i8,
        m.corner_radius == 4u8,
        m.width == 200u32,
        m.anchor == Anchor::RightBottom,
        m.anchor_offset == (0i32, 0i32),
        m.wf(),
{
    ToastManager::new(unique_key)
}

/// No toast of a pruned collection is expired.
pub proof fn lemma_pruned_not_expired(toasts: Seq<Toast>, now_ms: u64, max: int)
    requires
        max >= 0,
    ensures
        forall|i: int|
            0 <= i < spec_prune(toasts, now_ms, max).len() ==> !(#[trigger] spec_prune(
                toasts,
                now_ms,
                max,
            )[i]).spec_expired(now_ms),
{
    let live = spec_live(toasts, now_ms);
    let prop = |t: Toast| !t.spec_expired(now_ms);
    lemma_keep_indices_all(toasts, spec_live_keep(toasts, now_ms), prop);
    assert forall|i: int| 0 <= i < spec_prune(toasts, now_ms, max).len() implies !(
    #[trigger] spec_prune(toasts, now_ms, max)[i]).spec_expired(now_ms) by {
        if live.len() > max {
            assert(spec_prune(toasts, now_ms, max)[i] == live[live.len() - max + i]);
            assert(prop(live[live.len() - max + i]));
        } else {
            assert(prop(live[i]));
        }
    }
}

/// Pruning is idempotent: a second frame at the same instant, with no new
/// toasts, mutates nothing beyond what the first frame's expiry-driven
/// pruning already did.
pub proof fn lemma_prune_idempotent(toasts: Seq<Toast>, now_ms: u64, max: int)
    requires
        max >= 0,
    ensures
        spec_prune(spec_prune(toasts, now_ms, max), now_ms, max) == spec_prune(
            toasts,
            now_ms,
            max,
        ),
{
    let pruned = spec_prune(toasts, now_ms, max);
    lemma_pruned_not_expired(toasts, now_ms, max);
    assert forall|j: int| 0 <= j < pruned.len() implies #[trigger] spec_live_keep(
        pruned,
        now_ms,
    )(j) by {
        assert(!pruned[j].spec_expired(now_ms));
    }
    lemma_keep_all(pruned, spec_live_keep(pruned, now_ms));
    assert(spec_live(pruned, now_ms) == pruned);
    assert(pruned.len() <= max);
}

} // verus!
