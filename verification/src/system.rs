//! Running an actor, and the system that actors run in.
use std::task::Context;

use vstd::prelude::*;

use crate::actor::{Actor, ActorContext, BacklogPolicy, Host};
use crate::channel::{ClosedQueue, Inbox, Polled, Sent};
use crate::http::{Router, Serve};
use crate::internal_handlers::{StoppableActor, SupervisedBy, Supervises};
use crate::mailbox::{Envelope, EnvelopeProxy, Lessor, Mailbox, MailboxSendError, Reject};
use crate::supervisor::{all_told, SupervisorGuard};
use crate::system_context::{is_new, Spawn, SystemContext};

verus! {

/// An actor together with all that it takes to run it.
#[verifier::reject_recursive_types(A)]
#[verifier::reject_recursive_types(H)]
pub struct ActorBundle<A: Actor, H: Host> {
    pub actor: A,
    pub inner: ActorContext<H>,
    /// The queue of messages, until it is closed.
    pub recv: Option<Inbox<H::Envelope>>,
    pub supervisor: SupervisorGuard<H::Supervisor>,
    pub listeners: H::Listeners,
}

/// What whoever runs an actor has to do next. `N` is what came of telling a worker
/// of the actor that the actor has stopped.
#[verifier::reject_recursive_types(E)]
pub enum Turn<E, N> {
    /// Look into the queue again.
    Poll,
    /// Give the message to the actor, and say whether that went well.
    Process(E),
    /// Wait until a message comes.
    Suspend,
    /// The actor has crashed, and its workers were told: throw away what is left
    /// in the queue. Then the actor is done.
    Abandon(ClosedQueue<E>, Vec<N>),
    /// The actor stops: read what is left in the queue, and settle it. Then the
    /// actor is done.
    Settle(ClosedQueue<E>),
    /// The actor is done, and its workers were told.
    Done(Vec<N>),
}

/// What whoever runs an actor on `H` has to do next.
pub type TurnOf<H> = Turn<<H as Host>::Envelope, <<H as Host>::Child as SupervisedBy>::Notice>;

impl<A: Actor, H: Host> ActorBundle<A, H> {
    /// Looks into the queue.
    pub fn poll_queue(&mut self, cx: &mut Context<'_>) -> (found: Polled<H::Envelope>)
        requires
            old(self).recv is Some,
        ensures
            final(self).recv is Some,
            *final(self) == (ActorBundle { recv: final(self).recv, ..*old(self) }),
            exists|inbox: &mut Inbox<H::Envelope>, c: &mut Context<'_>|
                {
                    &&& *inbox == old(self).recv->0 && *final(inbox) == final(self).recv->0
                    &&& *c == *old(cx) && *final(c) == *final(cx)
                    &&& #[trigger] call_ensures(Inbox::<H::Envelope>::poll, (inbox, c), found)
                },
    {
        self.recv.as_mut().unwrap().poll(cx)
    }

    /// Tells the workers of the actor that it has stopped. From then on they are
    /// not its workers.
    pub fn notify_children(&mut self) -> (notices: Vec<<H::Child as SupervisedBy>::Notice>)
        ensures
            all_told(old(self).inner.children@, notices@),
            has_no_children(*old(self), *final(self)),
    {
        self.inner.children.notify_all()
    }

    /// Decides what to do about what the queue held. `held` says whether anybody
    /// had a mailbox of the actor when the queue was looked into. When no message
    /// is left and none can come, the actor has stopped.
    pub fn on_polled(&mut self, found: Polled<H::Envelope>, held: bool) -> (turn: TurnOf<H>)
        ensures
            match found {
                Polled::Message(msg) => turn == TurnOf::<H>::Process(msg),
                Polled::Closed => turn is Done,
                Polled::Pending => if held {
                    turn is Suspend
                } else {
                    turn is Done
                },
            },
            turn !is Done ==> *final(self) == *old(self),
            turn matches Turn::Done(notices) ==> {
                &&& all_told(old(self).inner.children@, notices@)
                &&& has_no_children(
                    ActorBundle { actor: final(self).actor, ..*old(self) },
                    *final(self),
                )
                &&& exists|a: &mut A|
                    *a == old(self).actor && *final(a) == final(self).actor
                        && #[trigger] call_ensures(A::stopped, (a,), ())
            },
    {
        match found {
            Polled::Message(msg) => Turn::Process(msg),
            Polled::Pending if held => Turn::Suspend,
            Polled::Pending | Polled::Closed => {
                self.actor.stopped();
                Turn::Done(self.notify_children())
            },
        }
    }

    /// Looks into the queue and decides what to do about what it held. `held` says
    /// whether anybody had a mailbox of the actor before the queue was looked into.
    pub fn look(&mut self, cx: &mut Context<'_>, held: bool) -> (turn: TurnOf<H>)
        requires
            old(self).recv is Some,
        ensures
            turn is Process || turn is Suspend || turn is Done,
            final(self).recv is Some,
            exists|
                looking: &mut Self,
                c: &mut Context<'_>,
                found: Polled<H::Envelope>,
                deciding: &mut Self,
            |
                {
                    &&& *looking == *old(self) && *final(looking) == *deciding
                    &&& *c == *old(cx) && *final(c) == *final(cx)
                    &&& #[trigger] call_ensures(
                        ActorBundle::<A, H>::poll_queue,
                        (looking, c),
                        found,
                    )
                    &&& *final(deciding) == *final(self)
                    &&& #[trigger] call_ensures(
                        ActorBundle::<A, H>::on_polled,
                        (deciding, found, held),
                        turn,
                    )
                },
    {
        let found = self.poll_queue(cx);
        self.on_polled(found, held)
    }

    /// Asks whether anybody has a mailbox of the actor, and then looks into the
    /// queue and decides what to do about what it held. In this order a message
    /// that was sent before the last mailbox went is found.
    pub fn poll(&mut self, cx: &mut Context<'_>) -> (turn: TurnOf<H>)
        requires
            old(self).recv is Some,
        ensures
            turn is Process || turn is Suspend || turn is Done,
            final(self).recv is Some,
            exists|held: bool, bundle: &mut Self, c: &mut Context<'_>|
                {
                    &&& #[trigger] call_ensures(
                        <H::Lessor as Lessor>::is_held,
                        (&old(self).inner.home.lessor,),
                        held,
                    )
                    &&& *bundle == *old(self) && *final(bundle) == *final(self)
                    &&& *c == *old(cx) && *final(c) == *final(cx)
                    &&& #[trigger] call_ensures(
                        ActorBundle::<A, H>::look,
                        (bundle, c, held),
                        turn,
                    )
                },
    {
        let held: bool = self.inner.home.lessor.is_held();
        self.look(cx, held)
    }

    /// Polls an actor that may have ended. An actor that has no queue any more is
    /// left alone, and there is nothing to do.
    pub fn poll_unless_ended(&mut self, cx: &mut Context<'_>) -> (turn: Option<TurnOf<H>>)
        ensures
            match turn {
                Some(turn) => {
                    &&& old(self).recv is Some
                    &&& exists|bundle: &mut Self, c: &mut Context<'_>|
                        {
                            &&& *bundle == *old(self) && *final(bundle) == *final(self)
                            &&& *c == *old(cx) && *final(c) == *final(cx)
                            &&& #[trigger] call_ensures(
                                ActorBundle::<A, H>::poll,
                                (bundle, c),
                                turn,
                            )
                        }
                },
                None => old(self).recv is None && *final(self) == *old(self) && *final(cx) == *old(
                    cx,
                ),
            },
    {
        if self.recv.is_some() {
            Some(self.poll(cx))
        } else {
            None
        }
    }

    /// Tells the actor that it is stopping, when its queue has been closed.
    pub fn stop_closed(&mut self, queue: ClosedQueue<H::Envelope>) -> (rest: ClosedQueue<
        H::Envelope,
    >)
        ensures
            rest == queue,
            *final(self) == (ActorBundle { actor: final(self).actor, ..*old(self) }),
            exists|a: &mut A|
                *a == old(self).actor && *final(a) == final(self).actor && #[trigger] call_ensures(
                    A::stopping,
                    (a,),
                    (),
                ),
    {
        self.actor.stopping();
        queue
    }

    /// Closes the queue, and then tells the actor that it is stopping.
    pub fn close_and_stop(&mut self) -> (queue: ClosedQueue<H::Envelope>)
        requires
            old(self).recv is Some,
        ensures
            queue.source() == old(self).recv->0.source(),
            *final(self) == (ActorBundle { actor: final(self).actor, recv: None, ..*old(self) }),
            exists|a: &mut A|
                *a == old(self).actor && *final(a) == final(self).actor && #[trigger] call_ensures(
                    A::stopping,
                    (a,),
                    (),
                ),
            exists|closed: ClosedQueue<H::Envelope>, bundle: &mut Self|
                {
                    &&& #[trigger] call_ensures(
                        Inbox::<H::Envelope>::close,
                        (old(self).recv->0,),
                        closed,
                    )
                    &&& *bundle == (ActorBundle { recv: None, ..*old(self) })
                    &&& *final(bundle) == *final(self)
                    &&& #[trigger] call_ensures(
                        ActorBundle::<A, H>::stop_closed,
                        (bundle, closed),
                        queue,
                    )
                },
    {
        let closed = self.recv.take().unwrap().close();
        self.stop_closed(closed)
    }

    /// Decides what to do once the actor was given a message. `completed` says
    /// that the handler returned; otherwise it panicked.
    pub fn on_processed(&mut self, completed: bool) -> (turn: TurnOf<H>)
        requires
            old(self).recv is Some,
        ensures
            completed && old(self).inner.state !is Stopping ==> turn is Poll && *final(self)
                == *old(self),
            !completed ==> (turn matches Turn::Abandon(queue, notices) && queue.source() == old(
                self,
            ).recv->0.source() && all_told(old(self).inner.children@, notices@)),
            !completed ==> has_no_children(
                ActorBundle { actor: final(self).actor, recv: None, ..*old(self) },
                *final(self),
            ),
            completed && old(self).inner.state is Stopping ==> (turn matches Turn::Settle(queue)
                && queue.source() == old(self).recv->0.source()),
            completed && old(self).inner.state is Stopping ==> *final(self) == (ActorBundle {
                actor: final(self).actor,
                recv: None,
                ..*old(self)
            }),
            !completed || old(self).inner.state is Stopping ==> exists|a: &mut A|
                *a == old(self).actor && *final(a) == final(self).actor && #[trigger] call_ensures(
                    A::stopping,
                    (a,),
                    (),
                ),
            !completed || old(self).inner.state is Stopping ==> exists|
                bundle: &mut Self,
                closed: ClosedQueue<H::Envelope>,
            |
                {
                    &&& *bundle == *old(self)
                    &&& #[trigger] call_ensures(
                        ActorBundle::<A, H>::close_and_stop,
                        (bundle,),
                        closed,
                    )
                    &&& match turn {
                        Turn::Settle(queue) => queue == closed && *final(self) == *final(bundle),
                        Turn::Abandon(queue, _) => queue == closed && has_no_children(
                            *final(bundle),
                            *final(self),
                        ),
                        _ => false,
                    }
                },
    {
        if !completed {
            // `stopped` is not called: the actor might be in a bad state.
            let queue = self.close_and_stop();
            Turn::Abandon(queue, self.notify_children())
        } else if self.inner.is_stopping() {
            Turn::Settle(self.close_and_stop())
        } else {
            Turn::Poll
        }
    }
}

/// What came of telling whoever is to know that an actor has ended.
pub struct Released<N, S> {
    /// What came of telling the workers of the actor.
    pub told: Vec<N>,
    /// What came of telling the supervisor of the actor, unless its end was
    /// reported before.
    pub reported: Option<S>,
}

impl<A: Actor, H: Host> ActorBundle<A, H> where H::Supervisor: Supervises<A> {
    /// Tells whoever is to know that the actor has ended: the workers that it
    /// still has, and its supervisor, unless the end was reported before.
    pub fn release(&mut self) -> (released: Released<
        <H::Child as SupervisedBy>::Notice,
        <H::Supervisor as Supervises<A>>::Notice,
    >)
        ensures
            all_told(old(self).inner.children@, released.told@),
            has_no_children(*old(self), *final(self)),
            call_ensures(
                SupervisorGuard::<H::Supervisor>::stopped::<A>,
                (&old(self).supervisor,),
                released.reported,
            ),
    {
        let told = self.notify_children();
        Released { told, reported: self.supervisor.stopped::<A>() }
    }
}

/// Whether `after` is `before` without its workers.
pub open spec fn has_no_children<A: Actor, H: Host>(
    before: ActorBundle<A, H>,
    after: ActorBundle<A, H>,
) -> bool {
    &&& after == (ActorBundle::<A, H> {
        inner: ActorContext { children: after.inner.children, ..before.inner },
        ..before
    })
    &&& after.inner.children@ == Seq::<H::Child>::empty()
}

/// Whether `i` is the index of an element of `s`.
pub open spec fn is_index<T>(s: Seq<T>, i: int) -> bool {
    0 <= i < s.len()
}

/// What became of the messages that were left when an actor stopped.
#[verifier::reject_recursive_types(A)]
#[verifier::reject_recursive_types(H)]
pub struct Settled<A: Actor, H: Host> where H::Envelope: Reject {
    /// What the actor wanted done with them.
    pub policy: BacklogPolicy,
    /// What is left of each of them.
    pub receipts: Vec<<H::Envelope as Reject>::Receipt>,
    /// The actor before the first of them, and after each of them.
    pub states: Ghost<Seq<ActorBundle<A, H>>>,
    /// What came of telling the workers of the actor that it has stopped.
    pub told: Vec<<H::Child as SupervisedBy>::Notice>,
}

impl<A: Actor, H: Host> ActorBundle<A, H> where H::Envelope: EnvelopeProxy<ActorBundle<A, H>> {
    /// Gives each message of the backlog to the actor, in order.
    fn accept_all(&mut self, backlog: Vec<H::Envelope>) -> (settled: (
        Vec<<H::Envelope as Reject>::Receipt>,
        Ghost<Seq<ActorBundle<A, H>>>,
    ))
        ensures
            settled.0@.len() == backlog@.len(),
            settled.1@.len() == backlog@.len() + 1,
            settled.1@[0] == *old(self),
            settled.1@.last() == *final(self),
            forall|i: int| #[trigger]
                is_index(settled.0@, i) ==> exists|b: &mut ActorBundle<A, H>|
                    *b == settled.1@[i] && *final(b) == settled.1@[i + 1]
                        && #[trigger] call_ensures(
                        <H::Envelope as EnvelopeProxy<ActorBundle<A, H>>>::accept,
                        (backlog@[i], b),
                        settled.0@[i],
                    ),
    {
        let mut receipts: Vec<<H::Envelope as Reject>::Receipt> = Vec::new();
        let ghost messages: Seq<H::Envelope> = backlog@;
        let ghost mut states: Seq<ActorBundle<A, H>> = seq![*self];
        for msg in iter: backlog
            invariant
                iter.seq() == messages,
                receipts@.len() == iter.index(),
                states.len() == receipts@.len() + 1,
                states[0] == *old(self),
                states.last() == *self,
                forall|i: int| #[trigger]
                    is_index(receipts@, i) ==> exists|b: &mut ActorBundle<A, H>|
                        *b == states[i] && *final(b) == states[i + 1] && #[trigger] call_ensures(
                            <H::Envelope as EnvelopeProxy<ActorBundle<A, H>>>::accept,
                            (messages[i], b),
                            receipts@[i],
                        ),
        {
            let ghost earlier: Seq<<H::Envelope as Reject>::Receipt> = receipts@;
            let ghost before: Seq<ActorBundle<A, H>> = states;
            let receipt = msg.accept(self);
            receipts.push(receipt);
            proof {
                states = states.push(*self);
                assert forall|i: int| #[trigger] is_index(receipts@, i) implies exists|
                    b: &mut ActorBundle<A, H>,
                |
                    *b == states[i] && *final(b) == states[i + 1] && #[trigger] call_ensures(
                        <H::Envelope as EnvelopeProxy<ActorBundle<A, H>>>::accept,
                        (messages[i], b),
                        receipts@[i],
                    ) by {
                    if i < earlier.len() {
                        assert(is_index(earlier, i));
                        assert(receipts@[i] == earlier[i]);
                        assert(states[i] == before[i] && states[i + 1] == before[i + 1]);
                    } else {
                        assert(receipts@[i] == receipt);
                        assert(states[i] == before.last());
                    }
                }
            }
        }
        (receipts, Ghost(states))
    }

    /// Brings the actor to its end, when the messages that were left have been
    /// dealt with: the actor has stopped, and its workers are told.
    pub fn conclude(
        &mut self,
        policy: BacklogPolicy,
        receipts: Vec<<H::Envelope as Reject>::Receipt>,
        states: Ghost<Seq<ActorBundle<A, H>>>,
    ) -> (settled: Settled<A, H>)
        ensures
            settled.policy == policy,
            settled.receipts == receipts,
            settled.states == states,
            has_no_children(
                ActorBundle { actor: final(self).actor, ..*old(self) },
                *final(self),
            ),
            all_told(old(self).inner.children@, settled.told@),
            exists|a: &mut A|
                *a == old(self).actor && *final(a) == final(self).actor && #[trigger] call_ensures(
                    A::stopped,
                    (a,),
                    (),
                ),
    {
        self.actor.stopped();
        Settled { policy, receipts, states, told: self.notify_children() }
    }

    /// Deals with the messages that were left when the actor stopped, in the
    /// order in which they were sent and as the actor would have it. Then the
    /// actor has stopped, and its workers are told.
    pub fn settle(&mut self, backlog: Vec<H::Envelope>) -> (settled: Settled<A, H>)
        ensures
            call_ensures(A::backlog_policy, (&old(self).actor,), settled.policy),
            settled.receipts@.len() == backlog@.len(),
            settled.states@.len() == backlog@.len() + 1,
            settled.states@[0] == *old(self),
            settled.policy is Reject ==> forall|i: int|
                0 <= i < backlog@.len() ==> settled.states@[i + 1] == *old(self) && call_ensures(
                    <H::Envelope as Reject>::reject,
                    (backlog@[i],),
                    #[trigger] settled.receipts@[i],
                ),
            settled.policy is Flush ==> forall|i: int| #[trigger]
                is_index(settled.receipts@, i) ==> exists|b: &mut ActorBundle<A, H>|
                    *b == settled.states@[i] && *final(b) == settled.states@[i + 1]
                        && #[trigger] call_ensures(
                        <H::Envelope as EnvelopeProxy<ActorBundle<A, H>>>::accept,
                        (backlog@[i], b),
                        settled.receipts@[i],
                    ),
            has_no_children(
                ActorBundle { actor: final(self).actor, ..settled.states@.last() },
                *final(self),
            ),
            all_told(settled.states@.last().inner.children@, settled.told@),
            exists|a: &mut A|
                *a == settled.states@.last().actor && *final(a) == final(self).actor
                    && #[trigger] call_ensures(A::stopped, (a,), ()),
            exists|bundle: &mut Self|
                *bundle == settled.states@.last() && *final(bundle) == *final(self)
                    && #[trigger] call_ensures(
                    ActorBundle::<A, H>::conclude,
                    (bundle, settled.policy, settled.receipts, settled.states),
                    settled,
                ),
    {
        let policy = self.actor.backlog_policy();
        match policy {
            BacklogPolicy::Reject => {
                let ghost states: Seq<ActorBundle<A, H>> = Seq::new(
                    backlog@.len() + 1,
                    |i: int| *self,
                );
                let receipts = reject_all(backlog);
                self.conclude(policy, receipts, Ghost(states))
            },
            BacklogPolicy::Flush => {
                let (receipts, states) = self.accept_all(backlog);
                self.conclude(policy, receipts, states)
            },
        }
    }
}

/// Turns each message of the backlog away, in order.
fn reject_all<E: Reject>(backlog: Vec<E>) -> (receipts: Vec<E::Receipt>)
    ensures
        receipts@.len() == backlog@.len(),
        forall|i: int|
            0 <= i < backlog@.len() ==> call_ensures(
                E::reject,
                (backlog@[i],),
                #[trigger] receipts@[i],
            ),
{
    let mut receipts: Vec<E::Receipt> = Vec::new();
    let ghost messages: Seq<E> = backlog@;
    for msg in iter: backlog
        invariant
            iter.seq() == messages,
            receipts@.len() == iter.index(),
            forall|i: int|
                0 <= i < receipts@.len() ==> call_ensures(
                    E::reject,
                    (messages[i],),
                    #[trigger] receipts@[i],
                ),
    {
        receipts.push(msg.reject());
    }
    receipts
}

/// A system of actors, as seen from outside.
#[verifier::reject_recursive_types(H)]
pub struct System<H: Host> {
    /// The mailbox of the router.
    pub json_router: Mailbox<H>,
    /// Whether actors are being served over HTTP.
    pub http_started: bool,
}

/// What came of serving an actor.
#[verifier::reject_recursive_types(H)]
pub struct Served<H: Host> {
    /// What came of telling the router.
    pub told: Result<Sent<H::Envelope>, MailboxSendError>,
    /// The router to serve from now on, where nothing was served before.
    pub start: Option<Mailbox<H>>,
}

impl<H: Host> System<H> {
    /// Makes a system on a context that was just made. Its first actor is the
    /// router, which is ready to run.
    pub fn new<K: Send + 'static, V>(
        context: &mut SystemContext<V>,
        spawn: Spawn<H>,
    ) -> (made: (Self, ActorBundle<Router<K>, H>))
        requires
            old(context).has_ids(),
        ensures
            !made.0.http_started,
            is_new(old(context).next_id(), spawn, None, made.0.json_router, made.1),
            made.1.actor.routes() == Map::<Seq<char>, K>::empty(),
            final(context).next_id() == old(context).next_id() + 1,
            final(context).registry() == old(context).registry(),
    {
        let (json_router, bundle) = context.spawn_actor(Router::new(), spawn, None).unwrap();
        (System { json_router, http_started: false }, bundle)
    }

    /// Lets `handler` answer requests to `path`. The first time, the router has
    /// to be served.
    pub fn serve<K: Send + 'static>(&mut self, path: &str, handler: K) -> (served: Served<H>) where
        H::Envelope: From<Envelope<Serve<K>>>,

        ensures
            exists|name: String|
                name@ == path@ && #[trigger] call_ensures(
                    Mailbox::<H>::send::<Serve<K>>,
                    (&old(self).json_router, Serve(name, handler)),
                    served.told,
                ),
            match served.start {
                Some(router) => !old(self).http_started && old(self).json_router.is_copy(router),
                None => old(self).http_started,
            },
            *final(self) == (System { http_started: true, ..*old(self) }),
    {
        let told = self.json_router.send(Serve(path.to_owned(), handler));
        let start = if self.http_started {
            None
        } else {
            self.http_started = true;
            Some(self.json_router.copy())
        };
        Served { told, start }
    }

    /// Makes an actor ready to run that nobody supervises.
    pub fn start<A: Actor, G: Host, V>(
        &mut self,
        context: &mut SystemContext<V>,
        actor: A,
        spawn: Spawn<G>,
    ) -> (spawned: (Mailbox<G>, ActorBundle<A, G>))
        requires
            old(context).has_ids(),
        ensures
            *final(self) == *old(self),
            final(context).next_id() == old(context).next_id() + 1,
            final(context).registry() == old(context).registry(),
            is_new(old(context).next_id(), spawn, None, spawned.0, spawned.1),
            exists|a: &mut A|
                *a == actor && *final(a) == spawned.1.actor && #[trigger] call_ensures(
                    A::starting,
                    (a,),
                    (),
                ),
    {
        context.spawn_actor(actor, spawn, None).unwrap()
    }

    /// Makes a service ready to run and puts it under a name, in place of the
    /// one before.
    pub fn register<A: Actor, G: Host, V>(
        &mut self,
        context: &mut SystemContext<V>,
        name: &str,
        kind: u64,
        actor: A,
        spawn: Spawn<G>,
    ) -> (spawned: (Mailbox<G>, ActorBundle<A, G>)) where V: From<Mailbox<G>>
        requires
            old(context).has_ids(),
        ensures
            *final(self) == *old(self),
            exists|c: &mut SystemContext<V>|
                *c == *old(context) && *final(c) == *final(context) && #[trigger] call_ensures(
                    SystemContext::<V>::register::<A, G>,
                    (c, name, kind, actor, spawn),
                    spawned,
                ),
    {
        context.register(name, kind, actor, spawn)
    }

    /// The service under a name, if it is of the type with the number `kind`.
    pub fn find<'a, V>(&self, context: &'a SystemContext<V>, name: &str, kind: u64) -> (found:
        Option<&'a V>)
        ensures
            match found {
                Some(mailbox) => context.service(name@, kind) == Some(*mailbox),
                None => context.service(name@, kind) is None,
            },
    {
        context.find(name, kind)
    }

    /// Stops each service, so that the system can come to its end. Waiting for
    /// that end is left to the caller.
    pub fn run_until_completion<V: StoppableActor>(self, context: &SystemContext<V>) -> (notices:
        Vec<V::Notice>)
        ensures
            context.registry().wf(),
            notices@.len() == context.registry().order().len(),
            forall|i: int|
                0 <= i < notices@.len() ==> call_ensures(
                    V::stop_me,
                    (&context.registry()@[context.registry().order()[i]].mailbox,),
                    #[trigger] notices@[i],
                ),
    {
        context.stop_services()
    }
}

} // verus!
