//! Showing a message to whoever looks at it, and handing it to an actor.
//!
//! A message is shown once at most: showing it gives a [`Seen`] message, which can
//! be handed to an actor, but not be shown again.
use vstd::prelude::*;

use crate::actor::{ActorContext, Handle, Host, Message};

verus! {

/// Whether `peek` can be shown `msg`.
pub closed spec fn may_look<M, P: FnOnce(&M)>(peek: P, msg: M) -> bool {
    call_requires(peek, (&msg,))
}

/// Whoever can be called with a message can be shown it.
pub proof fn lemma_may_look<M, P: FnOnce(&M)>(peek: P, msg: M)
    requires
        call_requires(peek, (&msg,)),
    ensures
        may_look(peek, msg),
{
}

/// A message that is ready to be handed to an actor.
pub struct Seen<M> {
    msg: M,
}

impl<M> Seen<M> {
    /// The message.
    pub closed spec fn msg(self) -> M {
        self.msg
    }

    /// A message that nobody is to be shown.
    pub fn unseen(msg: M) -> (seen: Self)
        ensures
            seen.msg() == msg,
    {
        Seen { msg }
    }

    /// Shows a message to `peek`. It stays as it is.
    pub fn shown<P: FnOnce(&M)>(msg: M, peek: P) -> (seen: Self)
        requires
            may_look(peek, msg),
        ensures
            seen.msg() == msg,
            call_ensures(peek, (&msg,), ()),
    {
        peek(&msg);
        Seen { msg }
    }
}

impl<M: Message> Seen<M> {
    /// Hands the message to an actor.
    pub fn give_to<A: Handle<M, H>, H: Host>(self, actor: &mut A, cx: &mut ActorContext<H>) -> (
    response: A::Response)
        ensures
            exists|a: &mut A, c: &mut ActorContext<H>|
                {
                    &&& *a == *old(actor) && *final(a) == *final(actor)
                    &&& *c == *old(cx) && *final(c) == *final(cx)
                    &&& #[trigger] call_ensures(
                        <A as Handle<M, H>>::accept,
                        (a, self.msg(), c),
                        response,
                    )
                },
    {
        assert(self.msg() == self.msg);
        actor.accept(self.msg, cx)
    }
}

} // verus!
