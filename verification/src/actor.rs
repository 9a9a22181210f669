//! Actors, the messages they take, and the context they run in.
use vstd::prelude::*;

use crate::internal_handlers::SupervisedBy;
use crate::mailbox::{Home, Lessor, Mailbox};
use crate::response::Response;
use crate::supervisor::{ChildGuard, Supervisor};
use crate::system::ActorBundle;
use crate::system_context::{is_new, Spawn, SystemContext};

verus! {

/// Something that can be sent to an actor, and what it is answered with.
pub trait Message: Send + 'static {
    type Result;
}

/// What an actor runs on: the types that the surrounding program supplies.
pub trait Host: 'static {
    /// What the queue of a mailbox carries: any of the messages of the actor.
    type Envelope: Send + 'static;

    /// The table of listeners of one actor, which lives as long as the actor.
    type Listeners;

    /// A way to the table of listeners, which does not keep it alive.
    type ListenersRef: Clone + Send + 'static;

    /// What tells whether anybody outside the actor has a mailbox of it.
    type Lessor: Lessor;

    /// A way to a worker of the actor.
    type Child: SupervisedBy;

    /// A handle to the system, by which an actor starts other work.
    type System;

    /// A handle by which the supervisor of the actor is notified.
    type Supervisor;
}

/// An actor that takes messages of type `M`.
pub trait Handle<M: Message, H: Host>: Actor {
    type Response: Response<M::Result, H::System>;

    fn accept(&mut self, msg: M, cx: &mut ActorContext<H>) -> Self::Response;
}

/// Decide what to do in the event of being stopped before the message backlog is empty
pub enum BacklogPolicy {
    Flush,
    Reject,
}

/// An actor, with the hooks that mark the steps of its life. By default a hook
/// does nothing.
pub trait Actor: Sized + Send + 'static {
    fn starting(&mut self)
        default_ensures
            *final(self) == *old(self),
    {
    }

    fn started(&mut self)
        default_ensures
            *final(self) == *old(self),
    {
    }

    fn stopping(&mut self)
        default_ensures
            *final(self) == *old(self),
    {
    }

    fn stopped(&mut self)
        default_ensures
            *final(self) == *old(self),
    {
    }

    /// The supervisor of the actor has stopped.
    fn supervisor_stopped<H: Host>(&mut self, cx: &mut ActorContext<H>)
        default_ensures
            *final(self) == *old(self),
            *final(cx) == *old(cx),
    {
    }

    fn backlog_policy(&self) -> (policy: BacklogPolicy)
        default_ensures
            policy is Flush,
    {
        BacklogPolicy::Flush
    }
}

/// How far an actor has come in its life.
#[derive(PartialEq, Eq, Structural)]
pub enum ActorState {
    Started,
    Stopping,
    Stopped,
}

/// What an actor sees of the system while it handles a message.
#[verifier::reject_recursive_types(H)]
pub struct ActorContext<H: Host> {
    pub id: usize,
    pub state: ActorState,
    pub home: Home<H>,
    pub system: H::System,
    /// The workers that the actor supervises.
    pub children: ChildGuard<H::Child>,
}

impl<H: Host> ActorContext<H> {
    pub fn new(id: usize, home: Home<H>, system: H::System) -> (cx: Self)
        ensures
            cx == (ActorContext::<H> {
                id,
                state: ActorState::Started,
                home,
                system,
                children: cx.children,
            }),
            cx.children@ == Seq::<H::Child>::empty(),
    {
        ActorContext { id, state: ActorState::Started, home, system, children: ChildGuard::new() }
    }

    pub fn id(&self) -> (id: usize)
        ensures
            id == self.id,
    {
        self.id
    }

    pub fn is_stopping(&self) -> (stopping: bool)
        ensures
            stopping == (self.state is Stopping),
    {
        self.state == ActorState::Stopping
    }

    pub fn mailbox(&self) -> (mailbox: Mailbox<H>)
        ensures
            self.home.is_home_of(mailbox),
    {
        self.home.mailbox()
    }

    /// Asks the actor to stop, once the message at hand is done with.
    pub fn stop(&mut self)
        ensures
            *final(self) == (ActorContext { state: ActorState::Stopping, ..*old(self) }),
    {
        self.state = ActorState::Stopping;
    }

    /// Makes an actor ready to run that nobody supervises.
    pub fn spawn_actor<A: Actor, G: Host, V>(
        &self,
        context: &mut SystemContext<V>,
        actor: A,
        spawn: Spawn<G>,
    ) -> (spawned: Option<(Mailbox<G>, ActorBundle<A, G>)>)
        requires
            old(context).has_ids(),
        ensures
            final(context).registry() == old(context).registry(),
            final(context).next_id() == old(context).next_id() + 1,
            spawned is Some,
            is_new(old(context).next_id(), spawn, None, (spawned->0).0, (spawned->0).1),
            exists|a: &mut A|
                *a == actor && *final(a) == (spawned->0).1.actor && #[trigger] call_ensures(
                    A::starting,
                    (a,),
                    (),
                ),
    {
        match context.spawn_actor(actor, spawn, None) {
            Ok(spawned) => Some(spawned),
            Err(_) => None,
        }
    }

    /// Makes an actor ready to run that this actor, of type `Me`, supervises. The
    /// new actor reports its end to this one, and is told of the end of this one.
    pub fn spawn_child<Me, W, G, V>(
        &mut self,
        context: &mut SystemContext<V>,
        actor: W,
        spawn: Spawn<G>,
    ) -> (spawned: Option<(Mailbox<G>, ActorBundle<W, G>)>) where
        Me: Supervisor<W>,
        W: Actor,
        G: Host,
        G::Supervisor: From<Mailbox<H>>,
        H::Child: From<Mailbox<G>>,

        requires
            old(context).has_ids(),
        ensures
            final(context).registry() == old(context).registry(),
            final(context).next_id() == old(context).next_id() + 1,
            spawned is Some,
            exists|own: Mailbox<H>, sup: G::Supervisor|
                {
                    &&& old(self).home.is_home_of(own)
                    &&& #[trigger] call_ensures(
                        <G::Supervisor as From<Mailbox<H>>>::from,
                        (own,),
                        sup,
                    )
                    &&& is_new(
                        old(context).next_id(),
                        spawn,
                        Some(sup),
                        (spawned->0).0,
                        (spawned->0).1,
                    )
                },
            exists|a: &mut W|
                *a == actor && *final(a) == (spawned->0).1.actor && #[trigger] call_ensures(
                    W::starting,
                    (a,),
                    (),
                ),
            *final(self) == (ActorContext { children: final(self).children, ..*old(self) }),
            exists|copy: Mailbox<G>, child: H::Child|
                {
                    &&& (spawned->0).0.is_copy(copy)
                    &&& #[trigger] call_ensures(
                        <H::Child as From<Mailbox<G>>>::from,
                        (copy,),
                        child,
                    )
                    &&& final(self).children@ == old(self).children@.push(child)
                },
    {
        let sup = G::Supervisor::from(self.mailbox());
        match context.spawn_actor(actor, spawn, Some(sup)) {
            Ok((mailbox, bundle)) => {
                self.children.push(H::Child::from(mailbox.copy()));
                Some((mailbox, bundle))
            },
            Err(_) => None,
        }
    }

    /// Makes a service ready to run and puts it under a name, in place of the
    /// one before.
    pub fn register<A: Actor, G: Host, V>(
        &self,
        context: &mut SystemContext<V>,
        name: &str,
        kind: u64,
        actor: A,
        spawn: Spawn<G>,
    ) -> (bundle: ActorBundle<A, G>) where V: From<Mailbox<G>>
        requires
            old(context).has_ids(),
        ensures
            final(context).next_id() == old(context).next_id() + 1,
            final(context).registry()@.contains_key(name@),
            ({
                let service = final(context).registry()@[name@];
                &&& final(context).registry()@ == old(context).registry()@.insert(name@, service)
                &&& service.kind == kind
                &&& exists|mailbox: Mailbox<G>, copy: Mailbox<G>|
                    {
                        &&& #[trigger] is_new(
                            old(context).next_id(),
                            spawn,
                            None,
                            mailbox,
                            bundle,
                        )
                        &&& mailbox.is_copy(copy)
                        &&& #[trigger] call_ensures(
                            <V as From<Mailbox<G>>>::from,
                            (copy,),
                            service.mailbox,
                        )
                    }
            }),
            exists|a: &mut A|
                *a == actor && *final(a) == bundle.actor && #[trigger] call_ensures(
                    A::starting,
                    (a,),
                    (),
                ),
            exists|c: &mut SystemContext<V>, spawned: (Mailbox<G>, ActorBundle<A, G>)|
                {
                    &&& *c == *old(context) && *final(c) == *final(context)
                    &&& spawned.1 == bundle
                    &&& #[trigger] call_ensures(
                        SystemContext::<V>::register::<A, G>,
                        (c, name, kind, actor, spawn),
                        spawned,
                    )
                },
            final(context).registry().order() == (if old(context).registry()@.contains_key(name@) {
                old(context).registry().order()
            } else {
                old(context).registry().order().push(name@)
            }),
    {
        let (_, bundle) = context.register(name, kind, actor, spawn);
        bundle
    }

    /// The service under a name, if it is of the type with the number `kind`.
    pub fn find<'a, V>(&self, context: &'a SystemContext<V>, name: &str, kind: u64) -> (found:
        Option<&'a V>)
        ensures
            match found {
                Some(mailbox) => context.service(name@, kind) == Some(*mailbox),
                None => context.service(name@, kind) is None,
            },
    {
        context.find(name, kind)
    }
}

} // verus!
