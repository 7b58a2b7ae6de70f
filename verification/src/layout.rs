//! The two-pass layout stabilizer.
//!
//! An overlay that sizes itself to its content cannot know that size before
//! it commits to a scrollable region, so each frame is one of two passes: a
//! measurement pass that renders the content at its natural size only to
//! learn how big it is, and the ordinary display pass that renders inside a
//! size-clamped, scrollable region. A manager re-measures exactly when the
//! content fingerprint changed since the previous frame — on the first
//! frame, or after any entity or configuration change — and otherwise
//! reuses the size resolved before.

use vstd::prelude::*;

verus! {

/// Which of the two passes a frame runs.
#[derive(Debug, Clone, Copy, PartialEq, Eq, Structural)]
pub enum RenderPass {
    /// Invisible, non-interactive render at natural size, made only to let
    /// the layout engine compute the required size.
    Measure,
    /// The normal case: visible, interactive render within a scrollable,
    /// size-clamped region.
    Display,
}

/// The pass a frame must run, given the fingerprint cached by the previous
/// frame (`None` on the first frame) and the fingerprint of the current
/// content: measure exactly when they differ.
pub open spec fn spec_select_pass(previous: Option<u64>, current: u64) -> RenderPass {
    match previous {
        Some(p) => if p == current {
            RenderPass::Display
        } else {
            RenderPass::Measure
        },
        None => RenderPass::Measure,
    }
}

/// Executable counterpart of [`spec_select_pass`].
pub fn select_pass(previous: Option<u64>, current: u64) -> (r: RenderPass)
    ensures
        r == spec_select_pass(previous, current),
{
    match previous {
        Some(p) => if p == current {
            RenderPass::Display
        } else {
            RenderPass::Measure
        },
        None => RenderPass::Measure,
    }
}

/// An overlay extent clamped to the parent area: the configured value where
/// one is set, else the full parent extent, capped at the parent extent and
/// raised to at least 1 point so that something shows even in a degenerate
/// parent.
pub open spec fn spec_effective_extent(configured: Option<u32>, parent: u32) -> u32 {
    let wanted = match configured {
        Some(v) => v,
        None => parent,
    };
    if wanted > parent {
        parent
    } else if wanted < 1 {
        1u32
    } else {
        wanted
    }
}

/// Executable counterpart of [`spec_effective_extent`].
pub fn effective_extent(configured: Option<u32>, parent: u32) -> (r: u32)
    ensures
        r == spec_effective_extent(configured, parent),
{
    let wanted = match configured {
        Some(v) => v,
        None => parent,
    };
    if wanted > parent {
        parent
    } else if wanted < 1 {
        1
    } else {
        wanted
    }
}

/// The process-wide registry of layout fingerprints, keyed by manager
/// identity string so that several manager instances do not collide. It
/// holds the fingerprint each manager cached on its previous frame;
/// entries are created on first use and overwritten on change.
pub struct LayoutMemory {
    /// One entry per manager identity; keys are unique.
    pub entries: Vec<(String, u64)>,
}

/// The fingerprint stored under `key`, if any.
pub open spec fn spec_lookup(entries: Seq<(String, u64)>, key: Seq<char>) -> Option<u64>
    decreases entries.len(),
{
    if entries.len() == 0 {
        None
    } else if entries[0].0@ == key {
        Some(entries[0].1)
    } else {
        spec_lookup(entries.drop_first(), key)
    }
}

impl LayoutMemory {
    /// Keys are unique, so each manager identity owns one cached value.
    pub open spec fn wf(self) -> bool {
        forall|i: int, j: int|
            0 <= i < j < self.entries@.len() ==> self.entries@[i].0@ != self.entries@[j].0@
    }

    /// An empty registry.
    pub fn new() -> (r: LayoutMemory)
        ensures
            r.entries@.len() == 0,
            r.wf(),
    {
        LayoutMemory { entries: Vec::new() }
    }

    /// The fingerprint cached under `key` by a previous frame, or `None` if
    /// this manager has not rendered yet.
    pub fn lookup(&self, key: &String) -> (r: Option<u64>)
        ensures
            r == spec_lookup(self.entries@, key@),
    {
        proof {
            assert(self.entries@.skip(0) =~= self.entries@);
        }
        let n = self.entries.len();
        let mut i: usize = 0;
        while i < n
            invariant
                i <= n,
                n == self.entries@.len(),
                spec_lookup(self.entries@, key@) == spec_lookup(
                    self.entries@.skip(i as int),
                    key@,
                ),
                forall|j: int| 0 <= j < i ==> self.entries@[j].0@ != key@,
            decreases n - i,
        {
            proof {
                assert(self.entries@.skip(i as int).len() > 0);
                assert(self.entries@.skip(i as int)[0] == self.entries@[i as int]);
                assert(self.entries@.skip(i as int).drop_first() =~= self.entries@.skip(
                    i as int + 1,
                ));
            }
            if self.entries[i].0 == *key {
                return Some(self.entries[i].1);
            }
            i += 1;
        }
        proof {
            assert(self.entries@.skip(n as int) =~= Seq::<(String, u64)>::empty());
        }
        None
    }

    /// Cache `fingerprint` under `key`, overwriting what an earlier frame
    /// stored there; every other manager's entry is untouched.
    pub fn store(&mut self, key: &String, fingerprint: u64)
        requires
            old(self).wf(),
        ensures
            final(self).wf(),
            spec_lookup(final(self).entries@, key@) == Some(fingerprint),
            forall|other: Seq<char>|
                other != key@ ==> spec_lookup(final(self).entries@, other) == spec_lookup(
                    old(self).entries@,
                    other,
                ),
    {
        let n = self.entries.len();
        let mut i: usize = 0;
        while i < n
            invariant
                i <= n,
                n == self.entries@.len(),
                self.entries@ == old(self).entries@,
                old(self).wf(),
                forall|j: int| 0 <= j < i ==> self.entries@[j].0@ != key@,
            decreases n - i,
        {
            if self.entries[i].0 == *key {
                let ghost old_entries = self.entries@;
                self.entries[i].1 = fingerprint;
                proof {
                    assert(self.entries@ =~= old_entries.update(
                        i as int,
                        (old_entries[i as int].0, fingerprint),
                    ));
                    lemma_lookup_update(old_entries, i as int, fingerprint, key@);
                    assert forall|a: int, b: int|
                        0 <= a < b < self.entries@.len() implies self.entries@[a].0@
                        != self.entries@[b].0@ by {
                        assert(self.entries@[a].0 == old_entries[a].0);
                        assert(self.entries@[b].0 == old_entries[b].0);
                    }
                }
                return ;
            }
            i += 1;
        }
        let ghost old_entries = self.entries@;
        let entry = (key.clone(), fingerprint);
        proof {
            assert(entry.0@ == key@);
        }
        self.entries.push(entry);
        proof {
            lemma_lookup_push(old_entries, entry);
            assert forall|a: int, b: int|
                0 <= a < b < self.entries@.len() implies self.entries@[a].0@
                != self.entries@[b].0@ by {
                if b < old_entries.len() {
                    assert(self.entries@[a] == old_entries[a]);
                    assert(self.entries@[b] == old_entries[b]);
                } else {
                    assert(self.entries@[a] == old_entries[a]);
                    assert(self.entries@[b] == entry);
                }
            }
        }
    }
}

/// Updating the value at a position whose key is `key` — and is the first
/// position with that key — changes the lookup of `key` to the new value
/// and of no other key.
proof fn lemma_lookup_update(entries: Seq<(String, u64)>, i: int, v: u64, key: Seq<char>)
    requires
        0 <= i < entries.len(),
        entries[i].0@ == key,
        forall|j: int| 0 <= j < i ==> entries[j].0@ != key,
    ensures
        spec_lookup(entries.update(i, (entries[i].0, v)), key) == Some(v),
        forall|other: Seq<char>|
            other != key ==> spec_lookup(entries.update(i, (entries[i].0, v)), other)
                == spec_lookup(entries, other),
    decreases entries.len(),
{
    let updated = entries.update(i, (entries[i].0, v));
    if i == 0 {
        assert(updated[0].0@ == key);
        assert(updated.drop_first() =~= entries.drop_first());
        assert forall|other: Seq<char>| other != key implies spec_lookup(updated, other)
            == spec_lookup(entries, other) by {
            assert(spec_lookup(updated, other) == spec_lookup(updated.drop_first(), other));
            assert(spec_lookup(entries, other) == spec_lookup(entries.drop_first(), other));
        }
    } else {
        let sub = entries.drop_first();
        let subupd = sub.update(i - 1, (sub[i - 1].0, v));
        assert(updated[0] == entries[0]);
        assert(entries[0].0@ != key);
        assert(sub[i - 1] == entries[i]);
        assert(updated.drop_first() =~= subupd);
        lemma_lookup_update(sub, i - 1, v, key);
        assert(spec_lookup(updated, key) == spec_lookup(subupd, key));
        assert forall|other: Seq<char>| other != key implies spec_lookup(updated, other)
            == spec_lookup(entries, other) by {
            if entries[0].0@ == other {
                assert(spec_lookup(updated, other) == Some(updated[0].1));
                assert(spec_lookup(entries, other) == Some(entries[0].1));
            } else {
                assert(spec_lookup(updated, other) == spec_lookup(subupd, other));
                assert(spec_lookup(entries, other) == spec_lookup(sub, other));
            }
        }
    }
}

/// Appending an entry whose key is absent makes the lookup of that key find
/// it, and changes the lookup of no other key.
proof fn lemma_lookup_push(entries: Seq<(String, u64)>, entry: (String, u64))
    requires
        forall|j: int| 0 <= j < entries.len() ==> entries[j].0@ != entry.0@,
    ensures
        spec_lookup(entries.push(entry), entry.0@) == Some(entry.1),
        forall|other: Seq<char>|
            other != entry.0@ ==> spec_lookup(entries.push(entry), other) == spec_lookup(
                entries,
                other,
            ),
    decreases entries.len(),
{
    let pushed = entries.push(entry);
    if entries.len() == 0 {
        assert(pushed[0] == entry);
        assert(pushed.drop_first() =~= Seq::<(String, u64)>::empty());
        assert forall|other: Seq<char>| other != entry.0@ implies spec_lookup(pushed, other)
            == spec_lookup(entries, other) by {
            assert(spec_lookup(pushed, other) == spec_lookup(pushed.drop_first(), other));
            assert(spec_lookup(pushed.drop_first(), other) is None);
            assert(spec_lookup(entries, other) is None);
        }
    } else {
        let sub = entries.drop_first();
        assert(pushed[0] == entries[0]);
        assert(pushed.drop_first() =~= sub.push(entry));
        lemma_lookup_push(sub, entry);
        assert(entries[0].0@ != entry.0@);
        assert(spec_lookup(pushed, entry.0@) == spec_lookup(sub.push(entry), entry.0@));
        assert forall|other: Seq<char>| other != entry.0@ implies spec_lookup(pushed, other)
            == spec_lookup(entries, other) by {
            if entries[0].0@ == other {
                assert(spec_lookup(pushed, other) == Some(pushed[0].1));
                assert(spec_lookup(entries, other) == Some(entries[0].1));
            } else {
                assert(spec_lookup(pushed, other) == spec_lookup(sub.push(entry), other));
                assert(spec_lookup(entries, other) == spec_lookup(sub, other));
            }
        }
    }
}

} // verus!
