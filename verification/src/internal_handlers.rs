//! The messages that the system itself sends, and how every actor takes them.
use std::marker::PhantomData;

use vstd::prelude::*;

use crate::actor::{Actor, ActorContext, ActorState, Handle, Host, Message};
use crate::channel::Sent;
use crate::mailbox::{Envelope, Mailbox, MailboxSendError};
use crate::supervisor::{PanicData, Supervisor};

verus! {

/// All actors can be stopped by a `StopActor` message, sent by the system.
pub struct StopActor;

impl Message for StopActor {
    type Result = ();
}

impl<A: Actor, H: Host> Handle<StopActor, H> for A {
    type Response = ();

    fn accept(&mut self, msg: StopActor, cx: &mut ActorContext<H>)
        ensures
            *final(self) == *old(self),
            *final(cx) == (ActorContext { state: ActorState::Stopping, ..*old(cx) }),
    {
        cx.stop();
    }
}

/// A service that the system can stop.
pub trait StoppableActor {
    type Notice;

    fn stop_me(&self) -> Self::Notice;
}

impl<H: Host> StoppableActor for Mailbox<H> where H::Envelope: From<Envelope<StopActor>> {
    type Notice = Result<Sent<H::Envelope>, MailboxSendError>;

    fn stop_me(&self) -> (notice: Result<Sent<H::Envelope>, MailboxSendError>)
        ensures
            notice matches Ok(sent) ==> {
                &&& sent.to() == self.tx
                &&& call_ensures(
                    <H::Envelope as From<Envelope<StopActor>>>::from,
                    (Envelope { msg: StopActor, reply: None },),
                    sent.item(),
                )
            },
            call_ensures(Mailbox::<H>::send::<StopActor>, (self, StopActor), notice),
    {
        self.send(StopActor)
    }
}

/// All supervisors get this message when a worker that they supervise has
/// stopped.
///
/// If there is panic data, there was a crash. If there is none, it stopped
/// gracefully.
pub struct WorkerStopped<W: Actor>(pub usize, pub Option<PanicData>, pub PhantomData<W>);

impl<W: Actor> Message for WorkerStopped<W> {
    type Result = ();
}

/// The way to the supervisor of an actor of type `A`.
pub trait Supervises<A: Actor> {
    type Notice;

    fn notify_worker_stopped(&self, worker_id: usize, info: Option<PanicData>) -> Self::Notice;
}

impl<S: Supervisor<W>, W: Actor, H: Host> Handle<WorkerStopped<W>, H> for S {
    type Response = ();

    fn accept(&mut self, msg: WorkerStopped<W>, cx: &mut ActorContext<H>)
        ensures
            *final(cx) == *old(cx),
            exists|s: &mut S|
                *s == *old(self) && *final(s) == *final(self) && #[trigger] call_ensures(
                    <S as Supervisor<W>>::worker_stopped,
                    (s, msg.0, msg.1),
                    (),
                ),
    {
        self.worker_stopped(msg.0, msg.1)
    }
}

impl<W: Actor, H: Host> Supervises<W> for Mailbox<H> where
    H::Envelope: From<Envelope<WorkerStopped<W>>>,
 {
    type Notice = Result<Sent<H::Envelope>, MailboxSendError>;

    fn notify_worker_stopped(&self, worker_id: usize, info: Option<PanicData>) -> (notice: Result<
        Sent<H::Envelope>,
        MailboxSendError,
    >)
        ensures
            notice matches Ok(sent) ==> {
                &&& sent.to() == self.tx
                &&& call_ensures(
                    <H::Envelope as From<Envelope<WorkerStopped<W>>>>::from,
                    (Envelope { msg: WorkerStopped(worker_id, info, PhantomData), reply: None },),
                    sent.item(),
                )
            },
            call_ensures(
                Mailbox::<H>::send::<WorkerStopped<W>>,
                (self, WorkerStopped(worker_id, info, PhantomData)),
                notice,
            ),
    {
        self.send(WorkerStopped(worker_id, info, PhantomData))
    }
}

/// Workers are notified when their supervisor has stopped.
pub struct SupervisorStopped;

impl Message for SupervisorStopped {
    type Result = ();
}

/// The way to a worker that has a supervisor.
pub trait SupervisedBy {
    type Notice;

    fn notify_supervisor_stopped(&self) -> Self::Notice;
}

impl<A: Actor, H: Host> Handle<SupervisorStopped, H> for A {
    type Response = ();

    fn accept(&mut self, msg: SupervisorStopped, cx: &mut ActorContext<H>)
        ensures
            exists|a: &mut A, c: &mut ActorContext<H>|
                {
                    &&& *a == *old(self) && *final(a) == *final(self)
                    &&& *c == *old(cx) && *final(c) == *final(cx)
                    &&& #[trigger] call_ensures(
                        <A as Actor>::supervisor_stopped::<H>,
                        (a, c),
                        (),
                    )
                },
    {
        self.supervisor_stopped(cx);
    }
}

impl<H: Host> SupervisedBy for Mailbox<H> where H::Envelope: From<Envelope<SupervisorStopped>> {
    type Notice = Result<Sent<H::Envelope>, MailboxSendError>;

    fn notify_supervisor_stopped(&self) -> (notice: Result<Sent<H::Envelope>, MailboxSendError>)
        ensures
            notice matches Ok(sent) ==> {
                &&& sent.to() == self.tx
                &&& call_ensures(
                    <H::Envelope as From<Envelope<SupervisorStopped>>>::from,
                    (Envelope { msg: SupervisorStopped, reply: None },),
                    sent.item(),
                )
            },
            call_ensures(
                Mailbox::<H>::send::<SupervisorStopped>,
                (self, SupervisorStopped),
                notice,
            ),
    {
        self.send(SupervisorStopped)
    }
}

} // verus!
