//! Mailboxes, and the envelopes that messages travel in.
use std::collections::HashMap;

use tokio_sync::{mpsc, oneshot};
use vstd::prelude::*;

use crate::actor::{ActorContext, Handle, Host, Message};
use crate::channel::{post, Replied, ReplyPort, Sent};
use crate::listen::{may_look, Seen};
use crate::response::{answer, answered, Response};
use crate::system::ActorBundle;

verus! {

/// A message on its way, with the way back if somebody waits for the answer.
#[verifier::reject_recursive_types(M)]
pub struct Envelope<M: Message> {
    pub msg: M,
    pub reply: Option<oneshot::Sender<Option<M::Result>>>,
}

impl<M: Message> Envelope<M> {
    pub fn new(msg: M) -> (envelope: Self)
        ensures
            envelope == (Envelope::<M> { msg, reply: None }),
    {
        Envelope { msg, reply: None }
    }

    pub fn with_reply(msg: M, reply_to: oneshot::Sender<Option<M::Result>>) -> (envelope: Self)
        ensures
            envelope == (Envelope::<M> { msg, reply: Some(reply_to) }),
    {
        Envelope { msg, reply: Some(reply_to) }
    }
}

/// Something that a message travels in and that can be turned away.
///
/// Rejecting uses the envelope up, and so does accepting: a message is dealt
/// with once.
pub trait Reject: Sized {
    /// What is left of the message once it was dealt with.
    type Receipt;

    fn reject(self) -> Self::Receipt;
}

/// Something that a message travels in, to an actor that is run as `B`.
pub trait EnvelopeProxy<B>: Reject {
    fn accept(self, actor: &mut B) -> Self::Receipt;
}

/// What a listener does with a message before the actor sees it.
pub enum PeekGrab<P, F, G> {
    /// Look at the message.
    Peek(P),
    /// Put another message in its place.
    Alter(F),
    /// Answer it, so that the actor never sees it.
    Grab(G),
}

impl<P, F, G> PeekGrab<P, F, G> {
    /// Whether the listener can be called with `msg`.
    pub open spec fn takes<M: Message>(self, msg: M) -> bool where
        P: Fn(&M),
        F: Fn(M) -> M,
        G: Fn(M) -> M::Result,
     {
        match self {
            PeekGrab::Peek(peek) => may_look::<M, &P>(&peek, msg),
            PeekGrab::Alter(alter) => call_requires(alter, (msg,)),
            PeekGrab::Grab(grab) => call_requires(grab, (msg,)),
        }
    }

    /// Whether the actor gets to see `seen` when `msg` was sent: a message that
    /// is looked at is passed on as it is, and one that is altered is passed on
    /// as what the listener made of it.
    pub open spec fn passes<M: Message>(self, msg: M, seen: M) -> bool where
        P: Fn(&M),
        F: Fn(M) -> M,
        G: Fn(M) -> M::Result,
     {
        match self {
            PeekGrab::Peek(peek) => call_ensures(peek, (&msg,), ()) && seen == msg,
            PeekGrab::Alter(alter) => call_ensures(alter, (msg,), seen),
            PeekGrab::Grab(_) => false,
        }
    }
}

impl<M: Message> Envelope<M> {
    /// Hands the message to the actor, unless the listener grabs it, and sends
    /// the answer back.
    pub fn accept_with<A, H, P, F, G>(
        self,
        actor: &mut ActorBundle<A, H>,
        listener: Option<&PeekGrab<P, F, G>>,
    ) -> (receipt: Option<Replied<M::Result>>) where
        A: Handle<M, H>,
        H: Host,
        P: Fn(&M),
        F: Fn(M) -> M,
        G: Fn(M) -> M::Result,

        requires
            listener matches Some(l) ==> l.takes(self.msg),
        ensures
            listener matches Some(PeekGrab::Grab(grab)) ==> {
                &&& *final(actor) == *old(actor)
                &&& exists|result: M::Result| #[trigger]
                    call_ensures(grab, (self.msg,), result) && answered(
                        receipt,
                        self.reply,
                        Some(result),
                    )
            },
            !(listener matches Some(PeekGrab::Grab(_))) ==> {
                &&& *final(actor) == (ActorBundle {
                    actor: final(actor).actor,
                    inner: final(actor).inner,
                    ..*old(actor)
                })
                &&& exists|
                    seen: M,
                    a: &mut A,
                    cx: &mut ActorContext<H>,
                    response: A::Response,
                    s: &mut H::System,
                |
                    {
                        &&& match listener {
                            Some(l) => l.passes(self.msg, seen),
                            None => seen == self.msg,
                        }
                        &&& *a == old(actor).actor && *final(a) == final(actor).actor
                        &&& *cx == old(actor).inner
                        &&& #[trigger] call_ensures(
                            <A as Handle<M, H>>::accept,
                            (a, seen, cx),
                            response,
                        )
                        &&& *s == final(cx).system
                        &&& final(actor).inner == (ActorContext::<H> {
                            system: *final(s),
                            ..*final(cx)
                        })
                        &&& #[trigger] call_ensures(
                            <A::Response as Response<M::Result, H::System>>::handle,
                            (response, s, self.reply),
                            receipt,
                        )
                    }
            },
    {
        let msg = self.msg;
        let seen = match listener {
            Some(PeekGrab::Peek(peek)) => Seen::shown(msg, peek),
            Some(PeekGrab::Alter(alter)) => Seen::unseen(alter(msg)),
            Some(PeekGrab::Grab(grab)) => {
                let result = grab(msg);
                return answer(self.reply, Some(result));
            },
            None => Seen::unseen(msg),
        };
        let response = seen.give_to(&mut actor.actor, &mut actor.inner);
        response.handle(&mut actor.inner.system, self.reply)
    }
}

impl<M: Message> Reject for Envelope<M> {
    type Receipt = Option<Replied<M::Result>>;

    /// Turns the message away: whoever waits for an answer is told that there
    /// is none.
    fn reject(self) -> (receipt: Option<Replied<M::Result>>)
        ensures
            answered(receipt, self.reply, None),
    {
        answer(self.reply, None)
    }
}

impl<M: Message, A: Handle<M, H>, H: Host> EnvelopeProxy<ActorBundle<A, H>> for Envelope<M> {
    /// Hands the message to the actor and sends the answer back.
    fn accept(self, actor: &mut ActorBundle<A, H>) -> (receipt: Option<Replied<M::Result>>)
        ensures
            *final(actor) == (ActorBundle {
                actor: final(actor).actor,
                inner: final(actor).inner,
                ..*old(actor)
            }),
            exists|
                a: &mut A,
                cx: &mut ActorContext<H>,
                response: A::Response,
                s: &mut H::System,
            |
                {
                    &&& *a == old(actor).actor && *final(a) == final(actor).actor
                    &&& *cx == old(actor).inner
                    &&& #[trigger] call_ensures(
                        <A as Handle<M, H>>::accept,
                        (a, self.msg, cx),
                        response,
                    )
                    &&& *s == final(cx).system
                    &&& final(actor).inner == (ActorContext::<H> {
                        system: *final(s),
                        ..*final(cx)
                    })
                    &&& #[trigger] call_ensures(
                        <A::Response as Response<M::Result, H::System>>::handle,
                        (response, s, self.reply),
                        receipt,
                    )
                },
    {
        let response = actor.actor.accept(self.msg, &mut actor.inner);
        response.handle(&mut actor.inner.system, self.reply)
    }
}

/// Gives a lease to each mailbox of one actor, and knows whether one is out.
///
/// When the last lease goes, the task that runs the actor is to be woken.
pub trait Lessor {
    type Lease: Clone + Send + 'static;

    fn lease(&self) -> Self::Lease;

    /// Whether a lease is out.
    fn is_held(&self) -> bool;
}

/// The address of an actor.
#[verifier::reject_recursive_types(H)]
pub struct Mailbox<H: Host> {
    pub actor_id: usize,
    pub tx: mpsc::UnboundedSender<H::Envelope>,
    pub listeners: H::ListenersRef,
    /// What tells the actor that the mailbox is there.
    pub lease: <H::Lessor as Lessor>::Lease,
}

/// What an actor makes its own mailboxes of. It holds no lease, so that an actor
/// which nobody else has a mailbox of comes to its end.
#[verifier::reject_recursive_types(H)]
pub struct Home<H: Host> {
    pub actor_id: usize,
    pub tx: mpsc::UnboundedSender<H::Envelope>,
    pub listeners: H::ListenersRef,
    pub lessor: H::Lessor,
}

impl<H: Host> Home<H> {
    /// Whether `mailbox` is a mailbox of the actor: it leads to its queue, and it
    /// got a lease from its lessor.
    pub open spec fn is_home_of(self, mailbox: Mailbox<H>) -> bool {
        &&& mailbox.actor_id == self.actor_id
        &&& mailbox.tx == self.tx
        &&& cloned(self.listeners, mailbox.listeners)
        &&& call_ensures(<H::Lessor as Lessor>::lease, (&self.lessor,), mailbox.lease)
    }

    pub fn mailbox(&self) -> (mailbox: Mailbox<H>)
        ensures
            self.is_home_of(mailbox),
    {
        Mailbox::new(self.actor_id, self.tx.clone(), self.listeners.clone(), self.lessor.lease())
    }
}

/// Why a message could not be sent.
#[derive(Debug)]
pub enum MailboxSendError {
    CouldNotSend,
}

/// Why a message got no answer.
#[derive(Debug)]
pub enum MailboxAskError {
    CouldNotSend,
    CouldNotRecv,
    MessageDropped,
}

/// A message that was sent and whose answer is still to come.
#[verifier::reject_recursive_types(R)]
#[verifier::reject_recursive_types(E)]
pub struct Asked<R, E> {
    /// Where the answer will come.
    pub reply: ReplyPort<R>,
    /// The receipt for the message.
    pub sent: Sent<E>,
}

/// What waiting for an answer comes to: the answer itself, or that the message
/// was turned away, or that the actor went away without a word.
pub open spec fn ask_result<R>(reply: Result<Option<R>, oneshot::error::RecvError>) -> Result<
    R,
    MailboxAskError,
> {
    match reply {
        Ok(Some(response)) => Ok(response),
        Ok(None) => Err(MailboxAskError::MessageDropped),
        Err(_) => Err(MailboxAskError::CouldNotRecv),
    }
}

/// Makes the result of an ask out of what came back on the reply channel.
pub fn ask_outcome<R>(reply: Result<Option<R>, oneshot::error::RecvError>) -> (outcome: Result<
    R,
    MailboxAskError,
>)
    ensures
        outcome == ask_result(reply),
{
    match reply {
        Ok(Some(response)) => Ok(response),
        Ok(None) => Err(MailboxAskError::MessageDropped),
        Err(_) => Err(MailboxAskError::CouldNotRecv),
    }
}

/// What a send comes to: the receipt, or that the queue took no more messages.
pub open spec fn send_result<T>(
    posted: Result<Sent<T>, mpsc::error::UnboundedTrySendError<T>>,
) -> Result<Sent<T>, MailboxSendError> {
    match posted {
        Ok(sent) => Ok(sent),
        Err(_) => Err(MailboxSendError::CouldNotSend),
    }
}

/// Makes the result of a send out of what the queue said to it.
pub fn send_outcome<T>(
    posted: Result<Sent<T>, mpsc::error::UnboundedTrySendError<T>>,
) -> (outcome: Result<Sent<T>, MailboxSendError>)
    ensures
        outcome == send_result(posted),
{
    match posted {
        Ok(sent) => Ok(sent),
        Err(_) => Err(MailboxSendError::CouldNotSend),
    }
}

/// Makes the first half of an ask out of what the queue said to the message and
/// of the channel on which the answer will come.
pub fn asked_outcome<R, T>(
    posted: Result<Sent<T>, mpsc::error::UnboundedTrySendError<T>>,
    reply: ReplyPort<R>,
) -> (outcome: Result<Asked<R, T>, MailboxAskError>)
    ensures
        outcome == (match posted {
            Ok(sent) => Ok::<Asked<R, T>, MailboxAskError>(Asked { reply, sent }),
            Err(_) => Err(MailboxAskError::CouldNotSend),
        }),
{
    match posted {
        Ok(sent) => Ok(Asked { reply, sent }),
        Err(_) => Err(MailboxAskError::CouldNotSend),
    }
}

impl<H: Host> Mailbox<H> {
    /// Whether `other` is a copy of this mailbox: it leads to the same queue of
    /// the same actor, and its handle to the listeners and its lease were cloned.
    pub open spec fn is_copy(self, other: Self) -> bool {
        &&& other.actor_id == self.actor_id
        &&& other.tx == self.tx
        &&& cloned(self.listeners, other.listeners)
        &&& cloned(self.lease, other.lease)
    }

    pub fn new(
        actor_id: usize,
        inbox: mpsc::UnboundedSender<H::Envelope>,
        listeners: H::ListenersRef,
        lease: <H::Lessor as Lessor>::Lease,
    ) -> (mailbox: Self)
        ensures
            mailbox == (Mailbox::<H> { actor_id, tx: inbox, listeners, lease }),
    {
        Mailbox { actor_id, tx: inbox, listeners, lease }
    }

    pub fn id(&self) -> (id: usize)
        ensures
            id == self.actor_id,
    {
        self.actor_id
    }

    pub fn copy(&self) -> (mailbox: Self)
        ensures
            self.is_copy(mailbox),
    {
        Mailbox {
            actor_id: self.actor_id,
            tx: self.tx.clone(),
            listeners: self.listeners.clone(),
            lease: self.lease.clone(),
        }
    }

    /// Sends a message and waits for no answer. The receipt is for an envelope
    /// that holds the message and no way back.
    pub fn send<M: Message>(&self, msg: M) -> (outcome: Result<
        Sent<H::Envelope>,
        MailboxSendError,
    >) where H::Envelope: From<Envelope<M>>
        ensures
            outcome matches Ok(sent) ==> {
                &&& sent.to() == self.tx
                &&& call_ensures(
                    <H::Envelope as From<Envelope<M>>>::from,
                    (Envelope { msg, reply: None },),
                    sent.item(),
                )
            },
            outcome is Err ==> exists|env: H::Envelope, refusal|
                {
                    &&& #[trigger] call_ensures(
                        <H::Envelope as From<Envelope<M>>>::from,
                        (Envelope { msg, reply: None },),
                        env,
                    )
                    &&& #[trigger] call_ensures(post::<H::Envelope>, (&self.tx, env), Err(refusal))
                },
    {
        let env = H::Envelope::from(Envelope::new(msg));
        send_outcome(post(&self.tx, env))
    }

    /// Sends a message whose answer is wanted. The receipt is for an envelope
    /// that holds the message and a way back.
    pub fn ask_future<M: Message>(&self, msg: M) -> (outcome: Result<
        Asked<M::Result, H::Envelope>,
        MailboxAskError,
    >) where H::Envelope: From<Envelope<M>>
        ensures
            match outcome {
                Ok(asked) => {
                    &&& asked.sent.to() == self.tx
                    &&& call_ensures(
                        <H::Envelope as From<Envelope<M>>>::from,
                        (Envelope { msg, reply: Some(asked.reply.source()) },),
                        asked.sent.item(),
                    )
                },
                Err(err) => {
                    &&& err is CouldNotSend
                    &&& exists|reply_to, env: H::Envelope, refusal|
                        {
                            &&& #[trigger] call_ensures(
                                <H::Envelope as From<Envelope<M>>>::from,
                                (Envelope { msg, reply: Some(reply_to) },),
                                env,
                            )
                            &&& #[trigger] call_ensures(
                                post::<H::Envelope>,
                                (&self.tx, env),
                                Err(refusal),
                            )
                        }
                },
            },
    {
        let (reply_tx, reply_rx) = ReplyPort::open();
        let env = H::Envelope::from(Envelope::with_reply(msg, reply_tx));
        asked_outcome(post(&self.tx, env), reply_rx)
    }

    /// Asks with a message: sends it, waits for its answer by `wait`, and makes the
    /// result out of what came back.
    pub fn ask<M: Message, W>(&self, msg: M, wait: W) -> (outcome: Result<
        M::Result,
        MailboxAskError,
    >) where
        H::Envelope: From<Envelope<M>>,
        W: FnOnce(oneshot::Receiver<Option<M::Result>>) -> Result<
            Option<M::Result>,
            oneshot::error::RecvError,
        >,

        requires
            forall|rx: oneshot::Receiver<Option<M::Result>>| #[trigger] call_requires(wait, (rx,)),
        ensures
            exists|asked: Result<Asked<M::Result, H::Envelope>, MailboxAskError>|
                {
                    &&& #[trigger] call_ensures(
                        Mailbox::<H>::ask_future::<M>,
                        (self, msg),
                        asked,
                    )
                    &&& match asked {
                        Ok(asked) => exists|reply: Result<
                            Option<M::Result>,
                            oneshot::error::RecvError,
                        >| #[trigger]
                            call_ensures(wait, (asked.reply.receiver(),), reply) && outcome
                                == ask_result(reply),
                        Err(err) => outcome == Err::<M::Result, MailboxAskError>(err),
                    }
                },
    {
        match self.ask_future(msg) {
            Ok(asked) => ask_outcome(wait(asked.reply.into_receiver())),
            Err(err) => Err(err),
        }
    }
}

/// A way to ask an actor one time. Asking uses the way up.
pub trait AskOnce<M: Message, H: Host>: Sized where H::Envelope: From<Envelope<M>> {
    /// The mailbox that the message goes to.
    spec fn mailbox(self) -> Mailbox<H>;

    /// Sends a message whose answer is wanted.
    fn ask_once(self, msg: M) -> (outcome: Result<Asked<M::Result, H::Envelope>, MailboxAskError>)
        ensures
            call_ensures(Mailbox::<H>::ask_future::<M>, (&self.mailbox(), msg), outcome),
    ;
}

impl<'a, M: Message, H: Host> AskOnce<M, H> for &'a Mailbox<H> where
    H::Envelope: From<Envelope<M>>,
 {
    open spec fn mailbox(self) -> Mailbox<H> {
        *self
    }

    fn ask_once(self, msg: M) -> (outcome: Result<
        Asked<M::Result, H::Envelope>,
        MailboxAskError,
    >) {
        self.ask_future(msg)
    }
}

/// The listeners of one actor, at most one for each kind of message.
#[verifier::reject_recursive_types(L)]
pub struct ListenerTable<L> {
    map: HashMap<u64, L>,
}

impl<L> View for ListenerTable<L> {
    type V = Map<u64, L>;

    closed spec fn view(&self) -> Map<u64, L> {
        self.map@
    }
}

impl<L> ListenerTable<L> {
    pub fn new() -> (table: Self)
        ensures
            table@ == Map::<u64, L>::empty(),
    {
        broadcast use vstd::std_specs::hash::group_hash_axioms;

        ListenerTable { map: HashMap::new() }
    }

    /// Sets the listener for one kind of message, in place of the one before.
    pub fn insert(&mut self, kind: u64, listener: L)
        ensures
            final(self)@ == old(self)@.insert(kind, listener),
    {
        broadcast use vstd::std_specs::hash::group_hash_axioms;

        self.map.insert(kind, listener);
    }

    /// Takes the listener for one kind of message away.
    pub fn remove(&mut self, kind: u64)
        ensures
            final(self)@ == old(self)@.remove(kind),
    {
        broadcast use vstd::std_specs::hash::group_hash_axioms;

        self.map.remove(&kind);
    }

    /// The listener for one kind of message.
    pub fn get_listener(&self, kind: u64) -> (listener: Option<&L>)
        ensures
            listener == (if self@.contains_key(kind) {
                Some(&self@[kind])
            } else {
                None
            }),
    {
        broadcast use vstd::std_specs::hash::group_hash_axioms;

        self.map.get(&kind)
    }
}

/// Setting and clearing listeners. The caller follows the handle of the mailbox to
/// the table of listeners, which is there as long as the actor is. Without it
/// nothing is done.
impl<H: Host> Mailbox<H> {
    fn add_listener<L>(&self, listeners: Option<&mut ListenerTable<L>>, kind: u64, listener: L)
        ensures
            listeners matches Some(table) ==> final(table)@ == table@.insert(kind, listener),
    {
        if let Some(table) = listeners {
            table.insert(kind, listener);
        }
    }

    /// Takes the listener for one kind of message away.
    pub fn clear_listener<L>(&self, listeners: Option<&mut ListenerTable<L>>, kind: u64)
        ensures
            listeners matches Some(table) ==> final(table)@ == table@.remove(kind),
    {
        if let Some(table) = listeners {
            table.remove(kind);
        }
    }

    /// Lets `handler` look at each message of one kind.
    pub fn peek<L, P, F, G>(
        &self,
        listeners: Option<&mut ListenerTable<L>>,
        kind: u64,
        handler: P,
    ) where L: From<PeekGrab<P, F, G>>
        ensures
            listeners matches Some(table) ==> exists|listener: L| #[trigger]
                call_ensures(
                    <L as From<PeekGrab<P, F, G>>>::from,
                    (PeekGrab::Peek(handler),),
                    listener,
                ) && final(table)@ == table@.insert(kind, listener),
    {
        self.add_listener(listeners, kind, L::from(PeekGrab::Peek(handler)));
    }

    /// Lets `handler` put another message in the place of each of one kind.
    pub fn alter<L, P, F, G>(
        &self,
        listeners: Option<&mut ListenerTable<L>>,
        kind: u64,
        handler: F,
    ) where L: From<PeekGrab<P, F, G>>
        ensures
            listeners matches Some(table) ==> exists|listener: L| #[trigger]
                call_ensures(
                    <L as From<PeekGrab<P, F, G>>>::from,
                    (PeekGrab::Alter(handler),),
                    listener,
                ) && final(table)@ == table@.insert(kind, listener),
    {
        self.add_listener(listeners, kind, L::from(PeekGrab::Alter(handler)));
    }

    /// Lets `handler` answer each message of one kind, in place of the actor.
    pub fn grab<L, P, F, G>(
        &self,
        listeners: Option<&mut ListenerTable<L>>,
        kind: u64,
        handler: G,
    ) where L: From<PeekGrab<P, F, G>>
        ensures
            listeners matches Some(table) ==> exists|listener: L| #[trigger]
                call_ensures(
                    <L as From<PeekGrab<P, F, G>>>::from,
                    (PeekGrab::Grab(handler),),
                    listener,
                ) && final(table)@ == table@.insert(kind, listener),
    {
        self.add_listener(listeners, kind, L::from(PeekGrab::Grab(handler)));
    }
}

} // verus!
