//! The broadcast primitive: a version counter plus a slot table of pending
//! wake tokens.
//!
//! [`NotifyOwned`] owns the shared state; [`Waiter`] is the per-task handle
//! that registers a wake token and removes it again on disposal. A broadcast
//! drains every slot, advances the version, and hands the drained tokens
//! back so the caller can invoke the corresponding wake callbacks outside
//! whatever lock guards this state (collect-then-invoke).

use vstd::prelude::*;

use slab::Slab;

use crate::slots::empty_table;
use crate::slots::enumerated_by;
use crate::slots::enumerates;
use crate::slots::slab_capacity;
use crate::slots::slab_drain;
use crate::slots::slab_insert;
use crate::slots::slab_len;
use crate::slots::slab_new;
use crate::slots::slab_overwrite;
use crate::slots::slab_remove;
use crate::slots::slab_with_capacity;
use crate::slots::MAX_SLOTS;

verus! {

/// The abstract state of the primitive: the broadcast version and the map
/// from occupied slot index to the wake token stored there.
pub ghost struct NotifyModel {
    pub version: u64,
    pub slots: Map<int, u64>,
}

/// One waiter's record of its slot: the slot index it was handed and the
/// version the table had at that moment. The index may be trusted only while
/// the versions still agree; after a broadcast it is stale.
pub struct Registration {
    pub version: u64,
    pub index: usize,
}

/// The version counter after one broadcast: it advances by exactly one,
/// wrapping to zero at the top of the `u64` range.
pub open spec fn next_version(v: u64) -> u64 {
    if v == u64::MAX {
        0
    } else {
        (v + 1) as u64
    }
}

/// The waiter holds a registration made before the latest broadcast, if any:
/// its slot index is live and identifies its own entry in the table.
pub open spec fn has_live_slot(w: Option<Registration>, m: NotifyModel) -> bool {
    match w {
        Some(r) => r.version == m.version,
        None => false,
    }
}

/// The slot index a registered waiter holds.
pub open spec fn slot_of(w: Option<Registration>) -> int {
    match w {
        Some(r) => r.index as int,
        None => -1,
    }
}

/// A waiter's record is consistent with the shared state it registered
/// against: while the versions agree, its slot index is an occupied entry.
/// Once a broadcast intervenes the index is stale and claims nothing.
pub open spec fn valid_waiter(w: Option<Registration>, m: NotifyModel) -> bool {
    has_live_slot(w, m) ==> m.slots.dom().contains(slot_of(w))
}

/// Law: one broadcast wakes each live registration exactly once. With `k`
/// slots occupied, exactly `k` tokens are handed back — one per slot, since
/// the slots are listed without duplicates — and every registered token is
/// among them.
pub proof fn lemma_broadcast_wakes_each_registration_once(woken: Seq<u64>, slots: Map<int, u64>)
    requires
        slots.dom().finite(),
        enumerates(woken, slots),
    ensures
        woken.len() == slots.dom().len(),
        forall|k: int|
            slots.dom().contains(k) ==> exists|i: int|
                0 <= i < woken.len() && woken[i] == slots[k],
{
    let ks = choose|ks: Seq<int>| enumerated_by(woken, slots, ks);
    assert(ks.to_set() =~= slots.dom()) by {
        assert forall|k: int| ks.to_set().contains(k) implies slots.dom().contains(k) by {
            let i = choose|i: int| 0 <= i < ks.len() && ks[i] == k;
            assert(slots.dom().contains(ks[i]));
        }
    }
    ks.unique_seq_to_set();
    assert forall|k: int| slots.dom().contains(k) implies exists|i: int|
        0 <= i < woken.len() && woken[i] == slots[k] by {
        let i = choose|i: int| 0 <= i < ks.len() && ks[i] == k;
        assert(woken[i] == slots[ks[i]]);
    }
}

/// Law: however many times one waiter re-registers with no broadcast in
/// between, it occupies exactly one slot, holding the latest token. The
/// first registration takes a fresh slot `k`, and every further one
/// overwrites that same slot in place.
pub proof fn lemma_reregistration_keeps_one_slot(slots: Map<int, u64>, k: int, t1: u64, t2: u64)
    requires
        slots.dom().finite(),
        !slots.dom().contains(k),
    ensures
        slots.insert(k, t1).insert(k, t2).dom() =~= slots.dom().insert(k),
        slots.insert(k, t1).insert(k, t2).dom().len() == slots.dom().len() + 1,
        slots.insert(k, t1).insert(k, t2)[k] == t2,
{
}

/// Broadcasts an event to any number of waiters.
pub struct NotifyOwned {
    version: u64,
    wakers: Slab<u64>,
}

impl View for NotifyOwned {
    type V = NotifyModel;

    closed spec fn view(&self) -> NotifyModel {
        NotifyModel { version: self.version, slots: crate::slots::slab_model(self.wakers) }
    }
}

impl NotifyOwned {
    /// The slot table only ever holds finitely many entries.
    pub open spec fn wf(&self) -> bool {
        self@.slots.dom().finite()
    }

    /// Fresh shared state: version zero, no slots.
    pub fn new() -> (n: Self)
        ensures
            n.wf(),
            n@.version == 0,
            n@.slots == empty_table(),
    {
        NotifyOwned { version: 0, wakers: slab_new() }
    }

    /// Advances the version by one (wrapping) and drains every slot,
    /// handing back the stored tokens, each slot's token exactly once, so
    /// the caller can invoke the corresponding callbacks after releasing
    /// whatever lock guards this state. When the table's capacity is more
    /// than four times what was drained, it is reallocated at that size, so
    /// memory follows recent peak usage rather than the historical maximum.
    pub fn notify_all(&mut self) -> (woken: Vec<u64>)
        requires
            old(self).wf(),
        ensures
            final(self).wf(),
            final(self)@.version == next_version(old(self)@.version),
            final(self)@.slots == empty_table(),
            woken@.len() == old(self)@.slots.dom().len(),
            enumerates(woken@, old(self)@.slots),
    {
        let woken = slab_drain(&mut self.wakers);
        let n = woken.len();
        if (n as u128) * 4 < (slab_capacity(&self.wakers) as u128) {
            self.wakers = slab_with_capacity(n);
        }
        self.version = if self.version == u64::MAX {
            0
        } else {
            self.version + 1
        };
        woken
    }

    /// A fresh waiter on this shared state, not yet registered.
    pub fn wait(&self) -> (w: Waiter)
        ensures
            w@ is None,
    {
        Waiter { registration: None }
    }

    /// The current broadcast version.
    pub fn version(&self) -> (v: u64)
        ensures
            v == self@.version,
    {
        self.version
    }

    /// How many registrations are pending: one per occupied slot.
    pub fn live_count(&self) -> (n: usize)
        ensures
            n as nat == self@.slots.dom().len(),
    {
        slab_len(&self.wakers)
    }

    /// How many slots the table can hold without reallocating; never fewer
    /// than are pending.
    pub fn capacity(&self) -> (n: usize)
        ensures
            n as nat >= self@.slots.dom().len(),
    {
        slab_capacity(&self.wakers)
    }
}

/// A per-task handle: registers a wake token to be handed back by the next
/// broadcast, and withdraws it again on disposal.
pub struct Waiter {
    registration: Option<Registration>,
}

impl View for Waiter {
    type V = Option<Registration>;

    closed spec fn view(&self) -> Option<Registration> {
        self.registration
    }
}

impl Waiter {
    /// Registers `token` to be handed back by the next broadcast on
    /// `shared`. A waiter with no live slot (never registered, or its slot
    /// already reclaimed by a broadcast) is given a fresh slot; a waiter
    /// whose slot is still live has that same slot overwritten in place, so
    /// one waiter never holds two slots.
    pub fn register(&mut self, shared: &mut NotifyOwned, token: u64)
        requires
            old(shared).wf(),
            valid_waiter(old(self)@, old(shared)@),
            old(shared)@.slots.dom().len() < MAX_SLOTS as nat,
        ensures
            final(shared).wf(),
            final(shared)@.version == old(shared)@.version,
            has_live_slot(final(self)@, final(shared)@),
            valid_waiter(final(self)@, final(shared)@),
            final(shared)@.slots == old(shared)@.slots.insert(slot_of(final(self)@), token),
            has_live_slot(old(self)@, old(shared)@) ==> final(self)@ == old(self)@,
            !has_live_slot(old(self)@, old(shared)@) ==> !old(shared)@.slots.dom().contains(
                slot_of(final(self)@),
            ),
    {
        let overwrite = match &self.registration {
            Some(r) => if r.version == shared.version {
                Some(r.index)
            } else {
                None
            },
            None => None,
        };
        match overwrite {
            Some(index) => {
                slab_overwrite(&mut shared.wakers, index, token);
            },
            None => {
                let index = slab_insert(&mut shared.wakers, token);
                self.registration = Some(Registration { version: shared.version, index });
            },
        }
    }

    /// Withdraws the waiter's slot from `shared`, if it still has one: a
    /// live slot is removed, so the pending count drops by one; a stale or
    /// absent registration leaves the table exactly as it was, since that
    /// slot was already reclaimed by a broadcast.
    pub fn dispose(self, shared: &mut NotifyOwned)
        requires
            old(shared).wf(),
            valid_waiter(self@, old(shared)@),
        ensures
            final(shared).wf(),
            final(shared)@.version == old(shared)@.version,
            has_live_slot(self@, old(shared)@) ==> {
                &&& final(shared)@.slots == old(shared)@.slots.remove(slot_of(self@))
                &&& final(shared)@.slots.dom().len() == old(shared)@.slots.dom().len() - 1
            },
            !has_live_slot(self@, old(shared)@) ==> final(shared)@ == old(shared)@,
    {
        match self.registration {
            Some(r) => {
                if r.version == shared.version {
                    let _ = slab_remove(&mut shared.wakers, r.index);
                }
            },
            None => {},
        }
    }
}

} // verus!
