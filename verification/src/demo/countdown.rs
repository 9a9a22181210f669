//! An actor that has further actors count down.
use vstd::prelude::*;

use crate::actor::{Actor, ActorContext, Host, Message};
use crate::mailbox::Mailbox;
use crate::system::ActorBundle;
use crate::system_context::{is_new, Spawn, SystemContext};

verus! {

pub struct Dummy {
    pub count: u64,
}

/// How far to count down.
#[derive(Debug)]
pub struct Msg(pub u64);

impl Actor for Dummy {
    /// Goes on as before.
    fn supervisor_stopped<H: Host>(&mut self, cx: &mut ActorContext<H>) {
    }
}

impl Message for Msg {
    type Result = u64;
}

impl Dummy {
    pub fn new() -> (dummy: Self)
        ensures
            dummy.count == 0,
    {
        Dummy { count: 0 }
    }

    /// Takes a number, and makes a further actor ready to run that counts on.
    pub fn accept<H: Host, G: Host, V>(
        &mut self,
        msg: Msg,
        cx: &mut ActorContext<H>,
        context: &mut SystemContext<V>,
        spawn: Spawn<G>,
    ) -> (started: (Countdown<G>, ActorBundle<Dummy, G>))
        requires
            old(context).has_ids(),
        ensures
            *final(self) == *old(self),
            *final(cx) == *old(cx),
            started.0.from == msg.0,
            is_new(old(context).next_id(), spawn, None, started.0.slave, started.1),
            started.1.actor.count == 0,
            final(context).next_id() == old(context).next_id() + 1,
            final(context).registry() == old(context).registry(),
    {
        let (slave, bundle) = cx.spawn_actor(context, Dummy::new(), spawn).unwrap();
        (Countdown { slave, from: msg.0 }, bundle)
    }
}

/// A number whose countdown goes on.
#[verifier::reject_recursive_types(G)]
pub struct Countdown<G: Host> {
    /// The actor that counts on.
    pub slave: Mailbox<G>,
    pub from: u64,
}

impl<G: Host> Countdown<G> {
    /// What the further actor is to be asked first, if the end is not reached.
    pub fn further(&self) -> (msg: Option<Msg>)
        ensures
            msg == (if self.from > 0 {
                Some(Msg((self.from - 1) as u64))
            } else {
                None
            }),
    {
        if self.from > 0 {
            Some(Msg(self.from - 1))
        } else {
            None
        }
    }

    /// The answer, whatever the further actor said.
    pub fn finish(self) -> (answer: u64)
        ensures
            answer == self.from,
    {
        self.from
    }
}

} // verus!
