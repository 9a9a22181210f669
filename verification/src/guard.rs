//! Keeping the handle of a supervisor until its worker ends.
//!
//! The handle leaves its slot by a report to the supervisor and in no other way,
//! unless it can be cloned.
use crossbeam::atomic::AtomicCell;
use vstd::prelude::*;

use crate::actor::Actor;
use crate::internal_handlers::Supervises;
use crate::supervisor::{report_to, PanicData, SupervisorSlot};

verus! {

/// Allows one swap of what is in a slot.
pub struct Permit {
    once: (),
}

impl<P> SupervisorSlot<P> {
    /// Takes the handle out of the slot, if it is there. A handle that cannot be
    /// cloned stays there for a report.
    pub fn take(&self) -> (held: Option<P>) where P: Clone
        ensures
            held is None || held == self.owner(),
            self.swapped(None, held),
    {
        self.exchange(None, Permit { once: () })
    }

    /// Puts the handle back into the slot. What comes back is what was there.
    pub fn put_back(&self, handle: Option<P>) -> (held: Option<P>) where P: Clone
        requires
            handle is None || handle == self.owner(),
        ensures
            held is None || held == self.owner(),
            self.swapped(handle, held),
    {
        self.exchange(handle, Permit { once: () })
    }

    /// Reports the end of a worker to its supervisor. Whoever reports first
    /// takes the handle out of the slot, so that no second report is sent.
    pub fn report<W: Actor>(&self, worker_id: usize, info: Option<PanicData>) -> (notice: Option<
        P::Notice,
    >) where P: Supervises<W>
        ensures
            notice matches Some(n) ==> self.owner() matches Some(sup) && call_ensures(
                <P as Supervises<W>>::notify_worker_stopped,
                (&sup, worker_id, info),
                n,
            ),
            exists|held: Option<P>|
                {
                    &&& held is None || held == self.owner()
                    &&& #[trigger] self.swapped(None, held)
                    &&& call_ensures(report_to::<W, P>, (held, worker_id, info), notice)
                },
    {
        self.take_and_report(worker_id, info, Permit { once: () })
    }
}

/// Keeps the handle of the supervisor of one worker until the worker ends.
#[verifier::reject_recursive_types(P)]
pub struct SupervisorGuard<P> {
    id: usize,
    inner: SupervisorSlot<P>,
}

impl<P> SupervisorGuard<P> {
    /// The id of the worker.
    pub closed spec fn id(self) -> usize {
        self.id
    }

    /// The supervisor of the worker, if it has one.
    pub closed spec fn supervisor(self) -> Option<P> {
        self.inner.owner()
    }

    /// The place where the handle is kept.
    pub closed spec fn slot(self) -> SupervisorSlot<P> {
        self.inner
    }

    pub fn new(id: usize, sup: Option<P>) -> (guard: Self)
        ensures
            guard.id() == id,
            guard.supervisor() == sup,
            call_ensures(AtomicCell::<Option<P>>::new, (sup,), guard.slot().cell()),
    {
        SupervisorGuard { id, inner: SupervisorSlot::new(sup) }
    }

    /// Whether the end of the worker is still to be reported to somebody.
    pub fn is_some(&self) -> (some: bool)
        ensures
            some ==> self.supervisor() is Some,
            exists|held: Option<P>, displaced: Option<P>|
                {
                    &&& some == (held is Some)
                    &&& held is None || held == self.supervisor()
                    &&& displaced is None || displaced == self.supervisor()
                    &&& #[trigger] self.slot().swapped(None, held)
                    &&& #[trigger] self.slot().swapped(held, displaced)
                },
    {
        assert(self.slot() == self.inner);
        self.inner.take_and_put_back(Permit { once: () }, Permit { once: () })
    }

    /// The slot that holds the handle, to share with a panic hook.
    pub fn guard(&self) -> (slot: SupervisorSlot<P>)
        ensures
            slot == self.slot(),
            slot.owner() == self.supervisor(),
    {
        self.inner.share()
    }

    /// Reports that the worker stopped gracefully, unless its end was reported
    /// before.
    pub fn stopped<W: Actor>(&self) -> (notice: Option<P::Notice>) where P: Supervises<W>
        ensures
            notice matches Some(n) ==> self.supervisor() matches Some(sup) && call_ensures(
                <P as Supervises<W>>::notify_worker_stopped,
                (&sup, self.id(), None),
                n,
            ),
            call_ensures(
                SupervisorSlot::<P>::report::<W>,
                (&self.slot(), self.id(), None),
                notice,
            ),
    {
        self.inner.report(self.id, None)
    }
}

} // verus!
