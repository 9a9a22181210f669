//! What holds of mailboxes, and of the messages that are sent by them.
use tokio_sync::{mpsc, oneshot};
use vstd::prelude::*;

use crate::actor::{Actor, ActorContext, Handle, Host, Message};
use crate::channel::{Replied, ReplyPort, Sent};
use crate::mailbox::{
    ask_outcome, asked_outcome, send_outcome, Asked, Envelope, Home, Lessor, Mailbox,
    MailboxAskError, MailboxSendError, PeekGrab, Reject,
};
use crate::response::answer;
use crate::system::ActorBundle;
use crate::system_context::{Spawn, SystemContext};

verus! {

/// A listener that looks at a message is shown just that message, and the actor
/// gets the same message after it, whether somebody waits for the answer or not.
pub proof fn law_looked_at_message_is_passed_on<M, A, H, P, F, G>(
    envelope: Envelope<M>,
    before: ActorBundle<A, H>,
    after: ActorBundle<A, H>,
    peek: P,
    listener: PeekGrab<P, F, G>,
    receipt: Option<Replied<M::Result>>,
) where
    M: Message,
    A: Handle<M, H>,
    H: Host,
    P: Fn(&M),
    F: Fn(M) -> M,
    G: Fn(M) -> M::Result,

    requires
        listener == PeekGrab::<P, F, G>::Peek(peek),
        exists|b: &mut ActorBundle<A, H>|
            *b == before && *final(b) == after && #[trigger] call_ensures(
                Envelope::<M>::accept_with::<A, H, P, F, G>,
                (envelope, b, Some(&listener)),
                receipt,
            ),
    ensures
        call_ensures(peek, (&envelope.msg,), ()),
        after.supervisor == before.supervisor && after.recv == before.recv,
        exists|a: &mut A, cx: &mut ActorContext<H>, response: A::Response|
            {
                &&& *a == before.actor && *final(a) == after.actor && *cx == before.inner
                &&& #[trigger] call_ensures(
                    <A as Handle<M, H>>::accept,
                    (a, envelope.msg, cx),
                    response,
                )
            },
{
}

/// A message that a listener alters reaches the actor as what the listener made of
/// it.
pub proof fn law_altered_message_is_passed_on<M, A, H, P, F, G>(
    envelope: Envelope<M>,
    before: ActorBundle<A, H>,
    after: ActorBundle<A, H>,
    alter: F,
    listener: PeekGrab<P, F, G>,
    receipt: Option<Replied<M::Result>>,
) where
    M: Message,
    A: Handle<M, H>,
    H: Host,
    P: Fn(&M),
    F: Fn(M) -> M,
    G: Fn(M) -> M::Result,

    requires
        listener == PeekGrab::<P, F, G>::Alter(alter),
        exists|b: &mut ActorBundle<A, H>|
            *b == before && *final(b) == after && #[trigger] call_ensures(
                Envelope::<M>::accept_with::<A, H, P, F, G>,
                (envelope, b, Some(&listener)),
                receipt,
            ),
    ensures
        after.supervisor == before.supervisor && after.recv == before.recv,
        exists|seen: M, a: &mut A, cx: &mut ActorContext<H>, response: A::Response|
            {
                &&& call_ensures(alter, (envelope.msg,), seen)
                &&& *a == before.actor && *final(a) == after.actor && *cx == before.inner
                &&& #[trigger] call_ensures(
                    <A as Handle<M, H>>::accept,
                    (a, seen, cx),
                    response,
                )
            },
{
}

/// A message that a listener grabs never reaches the actor. Whoever waits for the
/// answer gets that of the listener.
pub proof fn law_grabbed_message_is_answered<M, A, H, P, F, G>(
    envelope: Envelope<M>,
    before: ActorBundle<A, H>,
    after: ActorBundle<A, H>,
    grab: G,
    listener: PeekGrab<P, F, G>,
    receipt: Option<Replied<M::Result>>,
) where
    M: Message,
    A: Handle<M, H>,
    H: Host,
    P: Fn(&M),
    F: Fn(M) -> M,
    G: Fn(M) -> M::Result,

    requires
        listener == PeekGrab::<P, F, G>::Grab(grab),
        exists|b: &mut ActorBundle<A, H>|
            *b == before && *final(b) == after && #[trigger] call_ensures(
                Envelope::<M>::accept_with::<A, H, P, F, G>,
                (envelope, b, Some(&listener)),
                receipt,
            ),
    ensures
        after == before,
        envelope.reply matches Some(tx) ==> exists|result: M::Result| #[trigger]
            call_ensures(grab, (envelope.msg,), result) && (receipt matches Some(replied)
                && replied.to() == tx && replied.value() == Some(result)),
        envelope.reply is None ==> receipt is None,
{
}

/// An answer goes back on the channel that waits for it, as it is, and nowhere
/// where nobody waits.
pub proof fn law_answer_goes_back<R>(
    reply_to: Option<oneshot::Sender<Option<R>>>,
    value: Option<R>,
    replied: Option<Replied<R>>,
)
    requires
        call_ensures(answer::<R>, (reply_to, value), replied),
    ensures
        replied is Some <==> reply_to is Some,
        replied matches Some(receipt) ==> reply_to == Some(receipt.to()) && receipt.value()
            == value,
{
}

/// A message that is turned away is answered with nothing.
pub proof fn law_rejected_message_gets_no_answer<M: Message>(
    envelope: Envelope<M>,
    receipt: Option<Replied<M::Result>>,
)
    requires
        call_ensures(<Envelope<M> as Reject>::reject, (envelope,), receipt),
    ensures
        envelope.reply matches Some(tx) ==> (receipt matches Some(replied) && replied.to() == tx
            && replied.value() is None),
        envelope.reply is None ==> receipt is None,
{
}

/// Each thing that can come back on the reply channel has its own outcome, and the
/// answer is given as it is.
pub proof fn law_reply_is_told<R>(
    reply: Result<Option<R>, oneshot::error::RecvError>,
    outcome: Result<R, MailboxAskError>,
)
    requires
        call_ensures(ask_outcome::<R>, (reply,), outcome),
    ensures
        reply matches Ok(Some(response)) ==> outcome == Ok::<R, MailboxAskError>(response),
        reply matches Ok(None) ==> (outcome matches Err(err) && err is MessageDropped),
        reply is Err ==> (outcome matches Err(err) && err is CouldNotRecv),
{
}

/// What the queue said to a message is what sending and asking with it come to.
pub proof fn law_queue_is_believed<R, T>(
    posted: Result<Sent<T>, mpsc::error::UnboundedTrySendError<T>>,
    port: ReplyPort<R>,
    sent: Result<Sent<T>, MailboxSendError>,
    asked: Result<Asked<R, T>, MailboxAskError>,
)
    requires
        call_ensures(send_outcome::<T>, (posted,), sent),
        call_ensures(asked_outcome::<R, T>, (posted, port), asked),
    ensures
        posted matches Ok(receipt) ==> sent == Ok::<Sent<T>, MailboxSendError>(receipt) && (
        asked matches Ok(both) && both.sent == receipt && both.reply == port),
        posted is Err ==> (sent matches Err(err) && err is CouldNotSend) && (asked matches Err(err)
            && err is CouldNotSend),
{
}

/// A copy of a mailbox leads to where the mailbox leads, and is not without a
/// lease: it has a clone of that of the mailbox.
pub proof fn law_copy_leads_to_the_same_actor<H: Host>(mailbox: Mailbox<H>, copy: Mailbox<H>)
    requires
        call_ensures(Mailbox::<H>::copy, (&mailbox,), copy),
    ensures
        copy.actor_id == mailbox.actor_id,
        copy.tx == mailbox.tx,
        cloned(mailbox.listeners, copy.listeners),
        cloned(mailbox.lease, copy.lease),
{
}

/// A mailbox that an actor makes of its own leads to its queue, under its id, and
/// has a lease of its own.
pub proof fn law_own_mailbox_leads_home<H: Host>(home: Home<H>, mailbox: Mailbox<H>)
    requires
        call_ensures(Home::<H>::mailbox, (&home,), mailbox),
    ensures
        mailbox.actor_id == home.actor_id,
        mailbox.tx == home.tx,
        cloned(home.listeners, mailbox.listeners),
        call_ensures(<H::Lessor as Lessor>::lease, (&home.lessor,), mailbox.lease),
{
}

/// A new actor has one id, the next one, wherever it says who it is. Its mailbox
/// leads to its queue, nobody is its worker, and it has the supervisor that was
/// asked for.
pub proof fn law_new_actor_is_reached_by_its_mailbox<A: Actor, H: Host, V>(
    before: SystemContext<V>,
    after: SystemContext<V>,
    actor: A,
    spawn: Spawn<H>,
    sup: Option<H::Supervisor>,
    mailbox: Mailbox<H>,
    bundle: ActorBundle<A, H>,
)
    requires
        exists|context: &mut SystemContext<V>|
            *context == before && *final(context) == after && #[trigger] call_ensures(
                SystemContext::<V>::spawn_actor::<A, H>,
                (context, actor, spawn, sup),
                Ok((mailbox, bundle)),
            ),
    ensures
        mailbox.actor_id == before.next_id(),
        bundle.inner.id == before.next_id(),
        bundle.inner.home.actor_id == before.next_id(),
        bundle.supervisor.id() == before.next_id(),
        bundle.supervisor.supervisor() == sup,
        bundle.recv matches Some(inbox) && inbox.source() == mailbox.tx,
        bundle.inner.home.tx == mailbox.tx,
        bundle.inner.state is Started,
        bundle.inner.children@.len() == 0,
        bundle.inner.system == spawn.system,
        bundle.listeners == spawn.listeners,
        cloned(spawn.listeners_ref, mailbox.listeners),
        call_ensures(<H::Lessor as Lessor>::lease, (&spawn.lessor,), mailbox.lease),
        after.next_id() == before.next_id() + 1,
{
}

/// Actors can be made as long as there are ids: just the last number is not given
/// out.
pub proof fn law_ids_last_to_the_end<V>(context: SystemContext<V>, possible: bool)
    requires
        call_ensures(SystemContext::<V>::can_spawn, (&context,), possible),
    ensures
        possible <==> context.next_id() < usize::MAX,
{
}

} // verus!
