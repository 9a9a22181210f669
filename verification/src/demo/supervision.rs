//! A supervisor that has workers do its work.
use std::collections::HashSet;

use vstd::prelude::*;

use crate::actor::{Actor, ActorContext, ActorState, Handle, Host, Message};
use crate::channel::Sent;
use crate::mailbox::{Envelope, Mailbox, MailboxSendError};
use crate::supervisor::{PanicData, Supervisor};
use crate::system::ActorBundle;
use crate::system_context::{is_new, Spawn, SystemContext};

verus! {

/// The supervisor, which knows the workers that it waits for.
pub struct FibberSup {
    active_workers: HashSet<usize>,
}

/// Work to do.
#[derive(Debug)]
pub struct FibRequest(pub u64);

/// The result of a worker.
#[derive(Debug)]
pub struct FibReply {
    pub worker: usize,
    pub result: u64,
}

impl Message for FibRequest {
    type Result = ();
}

impl Message for FibReply {
    type Result = ();
}

impl Actor for FibberSup {
    /// Goes on as before.
    fn supervisor_stopped<H: Host>(&mut self, cx: &mut ActorContext<H>) {
    }
}

/// A worker, made ready to run.
#[verifier::reject_recursive_types(H)]
#[verifier::reject_recursive_types(G)]
pub struct StartedWorker<H: Host, G: Host> {
    pub mailbox: Mailbox<G>,
    pub bundle: ActorBundle<FibberWorker<H>, G>,
    /// What came of sending it the work.
    pub told: Result<Sent<G::Envelope>, MailboxSendError>,
}

impl FibberSup {
    /// The ids of the workers that are not done.
    pub closed spec fn active_workers(self) -> Set<usize> {
        self.active_workers@
    }

    pub fn new() -> (sup: Self)
        ensures
            sup.active_workers() == Set::<usize>::empty(),
    {
        broadcast use vstd::std_specs::hash::group_hash_axioms;

        FibberSup { active_workers: HashSet::new() }
    }

    /// Makes a worker ready to run, with the next id, and sends it the work.
    pub fn accept_request<H, G, V>(
        &mut self,
        msg: FibRequest,
        cx: &mut ActorContext<H>,
        context: &mut SystemContext<V>,
        spawn: Spawn<G>,
    ) -> (started: StartedWorker<H, G>) where
        H: Host,
        G: Host,
        G::Envelope: From<Envelope<FibRequest>>,
        G::Supervisor: From<Mailbox<H>>,
        H::Child: From<Mailbox<G>>,

        requires
            old(context).has_ids(),
        ensures
            final(self).active_workers() == old(self).active_workers().insert(
                old(context).next_id(),
            ),
            *final(cx) == (ActorContext { children: final(cx).children, ..*old(cx) }),
            exists|copy: Mailbox<G>, child: H::Child|
                {
                    &&& started.mailbox.is_copy(copy)
                    &&& #[trigger] call_ensures(
                        <H::Child as From<Mailbox<G>>>::from,
                        (copy,),
                        child,
                    )
                    &&& final(cx).children@ == old(cx).children@.push(child)
                },
            final(context).next_id() == old(context).next_id() + 1,
            final(context).registry() == old(context).registry(),
            old(cx).home.is_home_of(started.bundle.actor.master),
            exists|own: Mailbox<H>, sup: G::Supervisor|
                {
                    &&& old(cx).home.is_home_of(own)
                    &&& #[trigger] call_ensures(
                        <G::Supervisor as From<Mailbox<H>>>::from,
                        (own,),
                        sup,
                    )
                    &&& is_new(
                        old(context).next_id(),
                        spawn,
                        Some(sup),
                        started.mailbox,
                        started.bundle,
                    )
                },
            call_ensures(
                Mailbox::<G>::send::<FibRequest>,
                (&started.mailbox, msg),
                started.told,
            ),
    {
        broadcast use vstd::std_specs::hash::group_hash_axioms;

        let worker = FibberWorker { master: cx.mailbox() };
        let (mailbox, bundle) = cx.spawn_child::<Self, FibberWorker<H>, G, V>(
            context,
            worker,
            spawn,
        ).unwrap();
        self.active_workers.insert(mailbox.id());
        let told = mailbox.send(msg);
        StartedWorker { mailbox, bundle, told }
    }

    /// A worker is not to be waited for any more. What comes back is whether
    /// there is none left.
    fn worker_done(&mut self, worker: usize) -> (done: bool)
        ensures
            final(self).active_workers() == old(self).active_workers().remove(worker),
            done == (final(self).active_workers() == Set::<usize>::empty()),
    {
        broadcast use vstd::std_specs::hash::group_hash_axioms;

        self.active_workers.remove(&worker);
        self.active_workers.is_empty()
    }
}

impl<H: Host> Handle<FibReply, H> for FibberSup {
    type Response = ();

    /// The worker is done. When there is none left, so is the supervisor.
    fn accept(&mut self, msg: FibReply, cx: &mut ActorContext<H>)
        ensures
            final(self).active_workers() == old(self).active_workers().remove(msg.worker),
            *final(cx) == (if final(self).active_workers() == Set::<usize>::empty() {
                ActorContext { state: ActorState::Stopping, ..*old(cx) }
            } else {
                *old(cx)
            }),
    {
        if self.worker_done(msg.worker) {
            cx.stop();
        }
    }
}

impl<G: Host> Supervisor<FibberWorker<G>> for FibberSup {
    /// The worker is not waited for any more.
    fn worker_stopped(&mut self, worker_id: usize, info: Option<PanicData>)
        ensures
            final(self).active_workers() == old(self).active_workers().remove(worker_id),
    {
        self.worker_done(worker_id);
    }
}

/// A worker, which knows its supervisor.
#[verifier::reject_recursive_types(G)]
pub struct FibberWorker<G: Host> {
    pub master: Mailbox<G>,
}

impl<G: Host> Actor for FibberWorker<G> {
    /// Goes on as before.
    fn supervisor_stopped<H: Host>(&mut self, cx: &mut ActorContext<H>) {
    }
}

impl<G: Host> FibberWorker<G> {
    /// Does the work, tells the supervisor and stops.
    pub fn accept_request<H: Host>(&mut self, msg: FibRequest, cx: &mut ActorContext<H>) -> (told:
        Result<Sent<G::Envelope>, MailboxSendError>) where G::Envelope: From<Envelope<FibReply>>
        requires
            msg.0 < u64::MAX,
        ensures
            *final(self) == *old(self),
            *final(cx) == (ActorContext { state: ActorState::Stopping, ..*old(cx) }),
            call_ensures(
                Mailbox::<G>::send::<FibReply>,
                (
                    &old(self).master,
                    FibReply { worker: old(cx).id, result: (msg.0 + 1) as u64 },
                ),
                told,
            ),
    {
        if msg.0 % 2 == 0 {
            cx.stop();
        }
        let told = self.master.send(FibReply { worker: cx.id(), result: msg.0 + 1 });
        cx.stop();
        told
    }
}

} // verus!
