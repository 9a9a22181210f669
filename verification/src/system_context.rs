//! What all actors of a system share: the ids, and the services by name.
use vstd::prelude::*;

use crate::actor::{Actor, ActorContext, Host};
use crate::channel::Inbox;
use crate::internal_handlers::StoppableActor;
use crate::mailbox::{Home, Mailbox};
use crate::names::NameTable;
use crate::supervisor::SupervisorGuard;
use crate::system::ActorBundle;

verus! {

/// A service: an actor that can be found by name.
pub struct Service<V> {
    /// The number of the type of the actor.
    pub kind: u64,
    /// The mailbox of the actor.
    pub mailbox: V,
}

/// What a new actor gets from what it runs on.
#[verifier::reject_recursive_types(H)]
pub struct Spawn<H: Host> {
    pub system: H::System,
    pub listeners: H::Listeners,
    pub listeners_ref: H::ListenersRef,
    pub lessor: H::Lessor,
}

/// Whether `mailbox` and `bundle` are those of a new actor with the id `id`,
/// made of `spawn` and supervised by `sup`.
pub open spec fn is_new<A: Actor, H: Host>(
    id: usize,
    spawn: Spawn<H>,
    sup: Option<H::Supervisor>,
    mailbox: Mailbox<H>,
    bundle: ActorBundle<A, H>,
) -> bool {
    &&& bundle.inner.id == id
    &&& bundle.inner.state is Started
    &&& bundle.inner.home.actor_id == id
    &&& bundle.inner.home.listeners == spawn.listeners_ref
    &&& bundle.inner.home.lessor == spawn.lessor
    &&& bundle.inner.home.is_home_of(mailbox)
    &&& bundle.inner.system == spawn.system
    &&& bundle.inner.children@ == Seq::<H::Child>::empty()
    &&& bundle.recv matches Some(inbox) && inbox.source() == mailbox.tx
    &&& bundle.supervisor.id() == id
    &&& bundle.supervisor.supervisor() == sup
    &&& bundle.listeners == spawn.listeners
}

/// The ids that were given out, and the services by name.
pub struct SystemContext<V> {
    registry: NameTable<Service<V>>,
    id_counter: usize,
}

impl<V> SystemContext<V> {
    /// The services by name.
    pub closed spec fn registry(self) -> NameTable<Service<V>> {
        self.registry
    }

    /// The id that the next actor gets.
    pub closed spec fn next_id(self) -> usize {
        self.id_counter
    }

    /// The service under a name, if it is of the type with the number `kind`.
    pub open spec fn service(self, name: Seq<char>, kind: u64) -> Option<V> {
        if self.registry()@.contains_key(name) && self.registry()@[name].kind == kind {
            Some(self.registry()@[name].mailbox)
        } else {
            None
        }
    }

    /// Whether another actor can get an id.
    pub open spec fn has_ids(self) -> bool {
        self.next_id() < usize::MAX
    }

    pub fn new() -> (context: Self)
        ensures
            context.registry()@ == Map::<Seq<char>, Service<V>>::empty(),
            context.registry().order() == Seq::<Seq<char>>::empty(),
            context.next_id() == 0,
    {
        SystemContext { registry: NameTable::new(), id_counter: 0 }
    }

    /// Whether another actor can get an id.
    pub fn can_spawn(&self) -> (possible: bool)
        ensures
            possible == self.has_ids(),
    {
        self.id_counter < usize::MAX
    }

    /// Makes an actor ready to run: gives it the next id, a mailbox and a
    /// context, and tells it that it is starting. Running it is left to the
    /// caller.
    pub fn spawn_actor<A: Actor, H: Host>(
        &mut self,
        actor: A,
        spawn: Spawn<H>,
        sup: Option<H::Supervisor>,
    ) -> (spawned: Result<(Mailbox<H>, ActorBundle<A, H>), ()>)
        requires
            old(self).has_ids(),
        ensures
            final(self).registry() == old(self).registry(),
            final(self).next_id() == old(self).next_id() + 1,
            spawned is Ok,
            is_new(old(self).next_id(), spawn, sup, (spawned->Ok_0).0, (spawned->Ok_0).1),
            exists|a: &mut A|
                *a == actor && *final(a) == (spawned->Ok_0).1.actor && #[trigger] call_ensures(
                    A::starting,
                    (a,),
                    (),
                ),
    {
        let actor_id: usize = self.id_counter;
        self.id_counter = actor_id + 1;
        let (tx, rx) = Inbox::open();
        let home = Home { actor_id, tx, listeners: spawn.listeners_ref, lessor: spawn.lessor };
        let mailbox = home.mailbox();
        let mut bundle = ActorBundle {
            actor,
            inner: ActorContext::new(actor_id, home, spawn.system),
            recv: Some(rx),
            supervisor: SupervisorGuard::new(actor_id, sup),
            listeners: spawn.listeners,
        };
        bundle.actor.starting();
        Ok((mailbox, bundle))
    }

    /// Makes a service ready to run and puts it under a name, in place of the
    /// one before. `kind` is the number of the type of the actor.
    pub fn register<A: Actor, H: Host>(
        &mut self,
        name: &str,
        kind: u64,
        actor: A,
        spawn: Spawn<H>,
    ) -> (spawned: (Mailbox<H>, ActorBundle<A, H>)) where V: From<Mailbox<H>>
        requires
            old(self).has_ids(),
        ensures
            final(self).next_id() == old(self).next_id() + 1,
            is_new(old(self).next_id(), spawn, None, spawned.0, spawned.1),
            exists|a: &mut A|
                *a == actor && *final(a) == spawned.1.actor && #[trigger] call_ensures(
                    A::starting,
                    (a,),
                    (),
                ),
            final(self).registry()@.contains_key(name@),
            ({
                let service = final(self).registry()@[name@];
                &&& final(self).registry()@ == old(self).registry()@.insert(name@, service)
                &&& service.kind == kind
                &&& exists|copy: Mailbox<H>|
                    spawned.0.is_copy(copy) && #[trigger] call_ensures(
                        <V as From<Mailbox<H>>>::from,
                        (copy,),
                        service.mailbox,
                    )
            }),
            final(self).registry().order() == (if old(self).registry()@.contains_key(name@) {
                old(self).registry().order()
            } else {
                old(self).registry().order().push(name@)
            }),
    {
        let (mailbox, bundle) = self.spawn_actor(actor, spawn, None).unwrap();
        let copy = mailbox.copy();
        let ghost sent: Mailbox<H> = copy;
        let service = Service { kind, mailbox: V::from(copy) };
        assert(call_ensures(<V as From<Mailbox<H>>>::from, (sent,), service.mailbox));
        self.registry.insert(name, service);
        (mailbox, bundle)
    }

    /// The service under a name, if it is of the type with the number `kind`.
    pub fn find(&self, name: &str, kind: u64) -> (found: Option<&V>)
        ensures
            match found {
                Some(mailbox) => self.service(name@, kind) == Some(*mailbox),
                None => self.service(name@, kind) is None,
            },
    {
        match self.registry.get(name) {
            Some(service) => if service.kind == kind {
                Some(&service.mailbox)
            } else {
                None
            },
            None => None,
        }
    }

    /// Stops each service, in the order in which their names were first used.
    pub fn stop_services(&self) -> (notices: Vec<V::Notice>) where V: StoppableActor
        ensures
            self.registry().wf(),
            notices@.len() == self.registry().order().len(),
            forall|i: int|
                0 <= i < notices@.len() ==> call_ensures(
                    V::stop_me,
                    (&self.registry()@[self.registry().order()[i]].mailbox,),
                    #[trigger] notices@[i],
                ),
    {
        proof {
            use_type_invariant(&self.registry);
        }
        let mut notices: Vec<V::Notice> = Vec::new();
        let count: usize = self.registry.len();
        for i in 0..count
            invariant
                count == self.registry().order().len(),
                notices@.len() == i,
                forall|j: int|
                    0 <= j < notices@.len() ==> call_ensures(
                        V::stop_me,
                        (&self.registry()@[self.registry().order()[j]].mailbox,),
                        #[trigger] notices@[j],
                    ),
        {
            notices.push(self.registry.value_at(i).mailbox.stop_me());
        }
        notices
    }
}

} // verus!
