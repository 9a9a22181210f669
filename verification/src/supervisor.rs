//! Supervision: a supervisor learns of the end of its workers, and workers
//! learn of the end of their supervisor.
use std::sync::Arc;

use crossbeam::atomic::AtomicCell;
use vstd::prelude::*;

use crate::actor::Actor;
use crate::guard::Permit;
use crate::internal_handlers::{SupervisedBy, Supervises};

pub use crate::guard::SupervisorGuard;

verus! {

/// An actor that supervises workers of type `W`.
pub trait Supervisor<W: Actor>: Actor {
    /// A worker has stopped. If there is panic data, there was a crash. If there
    /// is none, it stopped gracefully.
    fn worker_stopped(&mut self, worker_id: usize, info: Option<PanicData>);
}

/// What is known of a panic: its message and where it happened.
#[derive(Debug)]
pub struct PanicData {
    pub message: Option<String>,
    pub file: String,
    pub line: u32,
    pub column: u32,
}

impl PanicData {
    pub fn new(message: Option<&str>, file: &str, line: u32, column: u32) -> (data: Self)
        ensures
            match message {
                Some(text) => data.message matches Some(kept) && kept@ == text@,
                None => data.message is None,
            },
            data.file@ == file@,
            data.line == line,
            data.column == column,
    {
        let message = match message {
            Some(text) => Some(text.to_owned()),
            None => None,
        };
        PanicData { message, file: file.to_owned(), line, column }
    }
}

/// A place in memory that threads share.
#[verifier::external_type_specification]
#[verifier::external_body]
#[verifier::reject_recursive_types(T)]
pub struct ExAtomicCell<T: ?Sized>(AtomicCell<T>);

/// `crossbeam::atomic::AtomicCell::new` makes a cell that holds the value. What
/// a cell holds changes behind a shared reference, so a contract cannot name it.
pub assume_specification<T>[ AtomicCell::<T>::new ](value: T) -> (cell: AtomicCell<T>);

/// `std::sync::Arc::clone` gives another pointer to the same allocation.
#[verifier::external_body]
fn share<T>(shared: &Arc<T>) -> (other: Arc<T>)
    ensures
        other == *shared,
{
    shared.clone()
}

/// A shared place that holds the handle of one supervisor, or nothing.
#[verifier::reject_recursive_types(P)]
pub struct SupervisorSlot<P> {
    cell: Arc<AtomicCell<Option<P>>>,
    owner: Ghost<Option<P>>,
}

impl<P> SupervisorSlot<P> {
    /// The one supervisor whose handle the slot may hold.
    pub closed spec fn owner(self) -> Option<P> {
        self.owner@
    }

    /// The place in memory.
    pub closed spec fn cell(self) -> AtomicCell<Option<P>> {
        *self.cell
    }

    /// The cell was made with the handle of the owner in it.
    #[verifier::type_invariant]
    spec fn is_made_for_owner(self) -> bool {
        call_ensures(AtomicCell::<Option<P>>::new, (self.owner@,), *self.cell)
    }

    pub(crate) fn new(sup: Option<P>) -> (slot: Self)
        ensures
            slot.owner() == sup,
            call_ensures(AtomicCell::<Option<P>>::new, (sup,), slot.cell()),
    {
        let ghost owner: Option<P> = sup;
        SupervisorSlot { cell: Arc::new(AtomicCell::new(sup)), owner: Ghost(owner) }
    }

    /// `crossbeam::atomic::AtomicCell::swap` puts a value into the cell and
    /// takes out the one that was there. A cell that was made with the handle of
    /// the owner in it, or empty, and into which nothing else is ever put, gives
    /// nothing else out. Which of the two it is depends on the threads that share
    /// the slot. A permit is used up, and has no bearing on what comes out.
    #[verifier::external_body]
    fn swap(&self, handle: Option<P>, permit: Permit) -> (held: Option<P>)
        requires
            call_ensures(AtomicCell::<Option<P>>::new, (self.owner(),), self.cell()),
            handle is None || handle == self.owner(),
        ensures
            held is None || held == self.owner(),
    {
        self.cell.swap(handle)
    }

    /// Whether `held` is what came out of the slot when `handle` was swapped for
    /// what was there.
    pub closed spec fn swapped(self, handle: Option<P>, held: Option<P>) -> bool {
        exists|permit: Permit| #[trigger]
            call_ensures(SupervisorSlot::<P>::swap, (&self, handle, permit), held)
    }

    /// Nothing comes out of a slot but the handle of its owner.
    pub proof fn law_only_the_owner_comes_out(self, handle: Option<P>, held: Option<P>)
        requires
            self.swapped(handle, held),
        ensures
            held is None || held == self.owner(),
    {
    }

    /// Takes the handle out of the slot, if it is there, and reports the end of a
    /// worker to the supervisor that it leads to.
    pub(crate) fn take_and_report<W: Actor>(
        &self,
        worker_id: usize,
        info: Option<PanicData>,
        permit: Permit,
    ) -> (notice: Option<P::Notice>) where P: Supervises<W>
        ensures
            exists|held: Option<P>|
                {
                    &&& held is None || held == self.owner()
                    &&& #[trigger] self.swapped(None, held)
                    &&& call_ensures(report_to::<W, P>, (held, worker_id, info), notice)
                },
    {
        proof {
            use_type_invariant(self);
        }
        let held = self.swap(None, permit);
        assert(self.swapped(None, held));
        report_to(held, worker_id, info)
    }

    /// Looks whether the handle is in the slot: takes out what is there and puts
    /// it back.
    pub(crate) fn take_and_put_back(&self, out: Permit, back: Permit) -> (some: bool)
        ensures
            exists|held: Option<P>, displaced: Option<P>|
                {
                    &&& some == (held is Some)
                    &&& held is None || held == self.owner()
                    &&& displaced is None || displaced == self.owner()
                    &&& #[trigger] self.swapped(None, held)
                    &&& #[trigger] self.swapped(held, displaced)
                },
    {
        proof {
            use_type_invariant(self);
        }
        let held = self.swap(None, out);
        let ghost taken: Option<P> = held;
        let some: bool = held.is_some();
        let displaced = self.swap(held, back);
        assert(self.swapped(None, taken) && self.swapped(taken, displaced));
        some
    }

    /// Swaps a handle for what is in the slot, and gives that out.
    pub(crate) fn exchange(&self, handle: Option<P>, permit: Permit) -> (held: Option<P>) where
        P: Clone,

        requires
            handle is None || handle == self.owner(),
        ensures
            held is None || held == self.owner(),
            self.swapped(handle, held),
    {
        proof {
            use_type_invariant(self);
        }
        self.swap(handle, permit)
    }

    /// Another way to the same place.
    pub(crate) fn share(&self) -> (slot: Self)
        ensures
            slot == *self,
    {
        proof {
            use_type_invariant(self);
        }
        SupervisorSlot { cell: share(&self.cell), owner: Ghost(self.owner@) }
    }
}

/// Reports the end of a worker to the supervisor `sup`, if there is one.
pub fn report_to<W: Actor, P: Supervises<W>>(
    sup: Option<P>,
    worker_id: usize,
    info: Option<PanicData>,
) -> (notice: Option<P::Notice>)
    ensures
        match sup {
            Some(sup) => notice matches Some(n) && call_ensures(
                <P as Supervises<W>>::notify_worker_stopped,
                (&sup, worker_id, info),
                n,
            ),
            None => notice is None,
        },
{
    match sup {
        Some(sup) => Some(sup.notify_worker_stopped(worker_id, info)),
        None => None,
    }
}

/// The workers of one supervisor, until they are told that it has stopped.
pub struct ChildGuard<C> {
    children: Vec<C>,
}

impl<C> View for ChildGuard<C> {
    type V = Seq<C>;

    closed spec fn view(&self) -> Seq<C> {
        self.children@
    }
}

impl<C> ChildGuard<C> {
    pub fn new() -> (guard: Self)
        ensures
            guard@ == Seq::<C>::empty(),
    {
        ChildGuard { children: Vec::new() }
    }

    pub fn push(&mut self, child: C)
        ensures
            final(self)@ == old(self)@.push(child),
    {
        self.children.push(child);
    }

    /// Tells each worker, in the order in which they were started, that the
    /// supervisor has stopped. Then they are no longer its workers, so that none
    /// is told twice.
    pub fn notify_all(&mut self) -> (notices: Vec<C::Notice>) where C: SupervisedBy
        ensures
            all_told(old(self)@, notices@),
            final(self)@ == Seq::<C>::empty(),
    {
        let mut notices: Vec<C::Notice> = Vec::new();
        for i in 0..self.children.len()
            invariant
                notices@.len() == i,
                self.children@ == old(self)@,
                forall|j: int|
                    0 <= j < i ==> call_ensures(
                        <C as SupervisedBy>::notify_supervisor_stopped,
                        (&self.children@[j],),
                        #[trigger] notices@[j],
                    ),
        {
            notices.push(self.children[i].notify_supervisor_stopped());
        }
        self.children = Vec::new();
        notices
    }
}

/// Whether `notices` are what came of telling each of `children`, in order, that
/// their supervisor has stopped.
pub open spec fn all_told<C: SupervisedBy>(children: Seq<C>, notices: Seq<C::Notice>) -> bool {
    &&& notices.len() == children.len()
    &&& forall|i: int|
        0 <= i < children.len() ==> call_ensures(
            <C as SupervisedBy>::notify_supervisor_stopped,
            (&children[i],),
            #[trigger] notices[i],
        )
}

} // verus!
