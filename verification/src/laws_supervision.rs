//! What holds of supervision: the end of a worker reaches its supervisor.
use vstd::prelude::*;

use crate::actor::{Actor, BacklogPolicy, Handle, Host, Message};
use crate::channel::{Polled, Replied};
use crate::guard::SupervisorGuard;
use crate::internal_handlers::{SupervisedBy, Supervises};
use crate::mailbox::{Envelope, EnvelopeProxy, Reject};
use crate::supervisor::{ChildGuard, PanicData, SupervisorSlot};
use crate::system::{is_index, ActorBundle, Released, Settled, TurnOf};

verus! {

/// A report gets through whenever the handle is still in the slot, whatever is
/// known of a panic: where a slot cannot be found empty, reporting gives a notice,
/// and that is what came of telling the owner which worker ended and how.
pub proof fn law_report_gets_through<W: Actor, P: Supervises<W>>(
    slot: SupervisorSlot<P>,
    worker_id: usize,
    info: Option<PanicData>,
    notice: Option<P::Notice>,
)
    requires
        !slot.swapped(None, None),
        call_ensures(SupervisorSlot::<P>::report::<W>, (&slot, worker_id, info), notice),
    ensures
        slot.owner() matches Some(sup) && notice matches Some(n) && call_ensures(
            <P as Supervises<W>>::notify_worker_stopped,
            (&sup, worker_id, info),
            n,
        ),
{
}

/// Where there is no supervisor, nobody is told of the end of a worker.
pub proof fn law_without_supervisor_nobody_is_told<W: Actor, P: Supervises<W>>(
    slot: SupervisorSlot<P>,
    worker_id: usize,
    info: Option<PanicData>,
    notice: Option<P::Notice>,
)
    requires
        slot.owner() is None,
        call_ensures(SupervisorSlot::<P>::report::<W>, (&slot, worker_id, info), notice),
    ensures
        notice is None,
{
}

/// Who ends gracefully is reported with its own id and without panic data, while
/// the handle is still in the slot.
pub proof fn law_graceful_end_is_reported<W: Actor, P: Supervises<W>>(
    guard: SupervisorGuard<P>,
    notice: Option<P::Notice>,
)
    requires
        !guard.slot().swapped(None, None),
        call_ensures(SupervisorGuard::<P>::stopped::<W>, (&guard,), notice),
    ensures
        guard.supervisor() matches Some(sup) && notice matches Some(n) && call_ensures(
            <P as Supervises<W>>::notify_worker_stopped,
            (&sup, guard.id(), None),
            n,
        ),
{
    law_report_gets_through::<W, P>(guard.slot(), guard.id(), None, notice);
}

/// Looking into a slot does not lose the handle: it puts back what it found. Where
/// the slot cannot be found empty, the handle is seen.
pub proof fn law_looking_finds_the_handle<P>(guard: SupervisorGuard<P>, some: bool)
    requires
        call_ensures(SupervisorGuard::<P>::is_some, (&guard,), some),
    ensures
        !guard.slot().swapped(None, None) ==> some,
        some ==> guard.supervisor() is Some,
        some ==> exists|displaced: Option<P>| #[trigger]
            guard.slot().swapped(guard.supervisor(), displaced),
{
}

/// An actor keeps its supervisor while it runs: whatever is decided about its queue,
/// however a message went, and when it comes to its end, the worker id, the place of
/// the handle and its owner stay the same.
pub proof fn law_running_keeps_the_supervisor<A: Actor, H: Host>()
    ensures
        forall|b: &mut ActorBundle<A, H>, found: Polled<H::Envelope>, held: bool, turn: TurnOf<H>|
            #[trigger] call_ensures(ActorBundle::<A, H>::on_polled, (b, found, held), turn)
                ==> final(b).supervisor == b.supervisor,
        forall|b: &mut ActorBundle<A, H>, completed: bool, turn: TurnOf<H>| #[trigger]
            call_ensures(ActorBundle::<A, H>::on_processed, (b, completed), turn)
                ==> final(b).supervisor == b.supervisor,
        forall|
            b: &mut ActorBundle<A, H>,
            notices: Vec<<H::Child as SupervisedBy>::Notice>,
        | #[trigger]
            call_ensures(ActorBundle::<A, H>::notify_children, (b,), notices)
                ==> final(b).supervisor == b.supervisor,
{
}

/// A message leaves the supervisor of the actor that it is given to as it is.
pub proof fn law_message_keeps_the_supervisor<M: Message, A: Handle<M, H>, H: Host>(
    envelope: Envelope<M>,
    before: ActorBundle<A, H>,
    after: ActorBundle<A, H>,
    receipt: Option<Replied<M::Result>>,
)
    requires
        exists|b: &mut ActorBundle<A, H>|
            *b == before && *final(b) == after && #[trigger] call_ensures(
                <Envelope<M> as EnvelopeProxy<ActorBundle<A, H>>>::accept,
                (envelope, b),
                receipt,
            ),
    ensures
        after.supervisor == before.supervisor,
        after.recv == before.recv,
        after.listeners == before.listeners,
{
}

/// The states of an actor that settles its backlog all have the supervisor that it
/// had at first, where no message takes it away.
proof fn lemma_settling_keeps_the_supervisor<A: Actor, H: Host>(
    backlog: Seq<H::Envelope>,
    receipts: Seq<<H::Envelope as Reject>::Receipt>,
    states: Seq<ActorBundle<A, H>>,
    n: int,
) where H::Envelope: EnvelopeProxy<ActorBundle<A, H>>
    requires
        forall|
            envelope: H::Envelope,
            b: &mut ActorBundle<A, H>,
            receipt: <H::Envelope as Reject>::Receipt,
        | #[trigger]
            call_ensures(
                <H::Envelope as EnvelopeProxy<ActorBundle<A, H>>>::accept,
                (envelope, b),
                receipt,
            ) ==> final(b).supervisor == b.supervisor,
        states.len() == receipts.len() + 1,
        forall|i: int| #[trigger]
            is_index(receipts, i) ==> exists|b: &mut ActorBundle<A, H>|
                *b == states[i] && *final(b) == states[i + 1] && #[trigger] call_ensures(
                    <H::Envelope as EnvelopeProxy<ActorBundle<A, H>>>::accept,
                    (backlog[i], b),
                    receipts[i],
                ),
        0 <= n < states.len(),
    ensures
        states[n].supervisor == states[0].supervisor,
    decreases n,
{
    if n > 0 {
        lemma_settling_keeps_the_supervisor::<A, H>(backlog, receipts, states, n - 1);
        assert(is_index(receipts, n - 1));
    }
}

/// A worker that settles its backlog and is then released is reported to its
/// supervisor, with its id and without panic data, where the handle is still in its
/// slot and no message of the backlog takes the supervisor away.
pub proof fn law_settled_worker_is_reported<A: Actor, H: Host>(
    before: ActorBundle<A, H>,
    ended: ActorBundle<A, H>,
    after: ActorBundle<A, H>,
    backlog: Vec<H::Envelope>,
    settled: Settled<A, H>,
    released: Released<
        <H::Child as SupervisedBy>::Notice,
        <H::Supervisor as Supervises<A>>::Notice,
    >,
) where H::Envelope: EnvelopeProxy<ActorBundle<A, H>>, H::Supervisor: Supervises<A>
    requires
        forall|
            envelope: H::Envelope,
            b: &mut ActorBundle<A, H>,
            receipt: <H::Envelope as Reject>::Receipt,
        | #[trigger]
            call_ensures(
                <H::Envelope as EnvelopeProxy<ActorBundle<A, H>>>::accept,
                (envelope, b),
                receipt,
            ) ==> final(b).supervisor == b.supervisor,
        !before.supervisor.slot().swapped(None, None),
        exists|b: &mut ActorBundle<A, H>|
            *b == before && *final(b) == ended && #[trigger] call_ensures(
                ActorBundle::<A, H>::settle,
                (b, backlog),
                settled,
            ),
        exists|b: &mut ActorBundle<A, H>|
            *b == ended && *final(b) == after && #[trigger] call_ensures(
                ActorBundle::<A, H>::release,
                (b,),
                released,
            ),
    ensures
        ended.supervisor == before.supervisor,
        before.supervisor.supervisor() matches Some(sup) && released.reported matches Some(n)
            && call_ensures(
            <H::Supervisor as Supervises<A>>::notify_worker_stopped,
            (&sup, before.supervisor.id(), None),
            n,
        ),
        released.told@.len() == 0,
{
    match settled.policy {
        BacklogPolicy::Reject => {
            let n = backlog@.len() as int;
            if n > 0 {
                assert(settled.states@[(n - 1) + 1] == before) by {
                    let receipt = settled.receipts@[n - 1];
                }
            }
        },
        BacklogPolicy::Flush => {
            lemma_settling_keeps_the_supervisor::<A, H>(
                backlog@,
                settled.receipts@,
                settled.states@,
                backlog@.len() as int,
            );
        },
    }
    assert(settled.states@.last().supervisor == before.supervisor);
    assert(ended.supervisor == before.supervisor);
    law_graceful_end_is_reported::<A, H::Supervisor>(ended.supervisor, released.reported);
}

/// A worker that comes to its end because no message is left and none can come, and
/// is then released, is reported to its supervisor, with its id and without panic
/// data, where the handle is still in its slot.
pub proof fn law_worker_that_runs_dry_is_reported<A: Actor, H: Host>(
    before: ActorBundle<A, H>,
    ended: ActorBundle<A, H>,
    after: ActorBundle<A, H>,
    found: Polled<H::Envelope>,
    turn: TurnOf<H>,
    released: Released<
        <H::Child as SupervisedBy>::Notice,
        <H::Supervisor as Supervises<A>>::Notice,
    >,
) where H::Supervisor: Supervises<A>
    requires
        found !is Message,
        !before.supervisor.slot().swapped(None, None),
        exists|b: &mut ActorBundle<A, H>|
            *b == before && *final(b) == ended && #[trigger] call_ensures(
                ActorBundle::<A, H>::on_polled,
                (b, found, false),
                turn,
            ),
        exists|b: &mut ActorBundle<A, H>|
            *b == ended && *final(b) == after && #[trigger] call_ensures(
                ActorBundle::<A, H>::release,
                (b,),
                released,
            ),
    ensures
        turn is Done,
        before.supervisor.supervisor() matches Some(sup) && released.reported matches Some(n)
            && call_ensures(
            <H::Supervisor as Supervises<A>>::notify_worker_stopped,
            (&sup, before.supervisor.id(), None),
            n,
        ),
        released.told@.len() == 0,
{
    law_graceful_end_is_reported::<A, H::Supervisor>(ended.supervisor, released.reported);
}

/// A worker that crashed is reported with what is known of the panic, by whoever
/// shares its slot, where the handle is still in it: what the crash leads to leaves
/// the slot as it is.
pub proof fn law_crashed_worker_is_reported<A: Actor, H: Host>(
    before: ActorBundle<A, H>,
    ended: ActorBundle<A, H>,
    slot: SupervisorSlot<H::Supervisor>,
    info: PanicData,
    turn: TurnOf<H>,
    notice: Option<<H::Supervisor as Supervises<A>>::Notice>,
) where H::Supervisor: Supervises<A>
    requires
        !before.supervisor.slot().swapped(None, None),
        exists|b: &mut ActorBundle<A, H>|
            *b == before && *final(b) == ended && #[trigger] call_ensures(
                ActorBundle::<A, H>::on_processed,
                (b, false),
                turn,
            ),
        call_ensures(SupervisorGuard::<H::Supervisor>::guard, (&ended.supervisor,), slot),
        call_ensures(
            SupervisorSlot::<H::Supervisor>::report::<A>,
            (&slot, before.supervisor.id(), Some(info)),
            notice,
        ),
    ensures
        turn is Abandon,
        before.supervisor.supervisor() matches Some(sup) && notice matches Some(n) && call_ensures(
            <H::Supervisor as Supervises<A>>::notify_worker_stopped,
            (&sup, before.supervisor.id(), Some(info)),
            n,
        ),
{
    law_report_gets_through::<A, H::Supervisor>(
        slot,
        before.supervisor.id(),
        Some(info),
        notice,
    );
}

/// Telling the workers that their supervisor has stopped tells each of them, in the
/// order in which they were started, and none is left to tell.
pub proof fn law_each_worker_is_told<C: SupervisedBy>(
    before: ChildGuard<C>,
    after: ChildGuard<C>,
    notices: Vec<C::Notice>,
    i: int,
)
    requires
        exists|guard: &mut ChildGuard<C>|
            *guard == before && *final(guard) == after && #[trigger] call_ensures(
                ChildGuard::<C>::notify_all,
                (guard,),
                notices,
            ),
    ensures
        notices@.len() == before@.len(),
        0 <= i < before@.len() ==> call_ensures(
            <C as SupervisedBy>::notify_supervisor_stopped,
            (&before@[i],),
            notices@[i],
        ),
        after@.len() == 0,
{
}

/// Telling the workers of an actor changes nothing about the actor but that it has
/// no workers: not the actor itself, nor its queue, nor who listens, nor its id, its
/// mailbox, its system and how far it is in its life.
pub proof fn law_telling_workers_changes_nothing_else<A: Actor, H: Host>(
    before: ActorBundle<A, H>,
    after: ActorBundle<A, H>,
    notices: Vec<<H::Child as SupervisedBy>::Notice>,
)
    requires
        exists|b: &mut ActorBundle<A, H>|
            *b == before && *final(b) == after && #[trigger] call_ensures(
                ActorBundle::<A, H>::notify_children,
                (b,),
                notices,
            ),
    ensures
        notices@.len() == before.inner.children@.len(),
        after.inner.children@.len() == 0,
        after.actor == before.actor,
        after.recv == before.recv,
        after.listeners == before.listeners,
        after.supervisor == before.supervisor,
        after.inner.id == before.inner.id,
        after.inner.home == before.inner.home,
        after.inner.system == before.inner.system,
        after.inner.state == before.inner.state,
{
}

} // verus!
