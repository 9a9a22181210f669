//! The channels between actors: an unbounded queue for each mailbox, and a
//! one-shot channel for each reply.
//!
//! Sending is an effect that a contract cannot read off a return value of `()`.
//! The two operations of this module that send therefore give back a receipt,
//! [`Sent`] or [`Replied`]. Nothing but the send makes one, so a function that
//! promises a receipt has made the send that the receipt speaks of.
use std::task::{Context, Poll};

use tokio_sync::{mpsc, oneshot};
use vstd::prelude::*;

verus! {

/// The sending half of a mailbox. Two handles are equal when they lead to the
/// same queue.
#[verifier::external_type_specification]
#[verifier::external_body]
#[verifier::reject_recursive_types(T)]
pub struct ExUnboundedSender<T>(mpsc::UnboundedSender<T>);

/// The receiving half of a mailbox.
#[verifier::external_type_specification]
#[verifier::external_body]
#[verifier::reject_recursive_types(T)]
pub struct ExUnboundedReceiver<T>(mpsc::UnboundedReceiver<T>);

/// What a refused send comes back with.
#[verifier::external_type_specification]
#[verifier::external_body]
#[verifier::reject_recursive_types(T)]
pub struct ExUnboundedTrySendError<T>(mpsc::error::UnboundedTrySendError<T>);

/// The side of a one-shot channel that replies.
#[verifier::external_type_specification]
#[verifier::external_body]
#[verifier::reject_recursive_types(T)]
pub struct ExOneshotSender<T>(oneshot::Sender<T>);

/// The side of a one-shot channel that waits for the reply.
#[verifier::external_type_specification]
#[verifier::external_body]
#[verifier::reject_recursive_types(T)]
pub struct ExOneshotReceiver<T>(oneshot::Receiver<T>);

/// What waiting ends with when the replying side went away.
#[verifier::external_type_specification]
#[verifier::external_body]
pub struct ExRecvError(oneshot::error::RecvError);

/// The task context that a poll registers its waker with.
#[verifier::external_type_specification]
#[verifier::external_body]
pub struct ExContext<'a>(Context<'a>);

/// `tokio_sync::mpsc::unbounded_channel` makes the two halves of a new queue.
/// That what goes in at the one half comes out at the other is not stated.
pub assume_specification<T>[ mpsc::unbounded_channel::<T> ]() -> (halves: (
    mpsc::UnboundedSender<T>,
    mpsc::UnboundedReceiver<T>,
));

/// `Clone::clone` of `tokio_sync::mpsc::UnboundedSender` gives another handle
/// to the same queue.
pub assume_specification<T>[ <mpsc::UnboundedSender<T> as Clone>::clone ](
    tx: &mpsc::UnboundedSender<T>,
) -> (copy: mpsc::UnboundedSender<T>)
    ensures
        copy == *tx,
;

/// `tokio_sync::mpsc::UnboundedSender::try_send` puts a message at the end of
/// the queue, or refuses it when the receiving half was closed. Which of the
/// two depends on the receiver, so the contract only says that the handle goes
/// on leading to the same queue.
pub assume_specification<T>[ mpsc::UnboundedSender::<T>::try_send ](
    tx: &mut mpsc::UnboundedSender<T>,
    message: T,
) -> (outcome: Result<(), mpsc::error::UnboundedTrySendError<T>>)
    ensures
        *final(tx) == *old(tx),
;

/// `tokio_sync::mpsc::UnboundedReceiver::close` lets no further message into the
/// queue. The messages that are in it can still be read. Nothing of that shows
/// in the value of the handle, so nothing is stated.
pub assume_specification<T>[ mpsc::UnboundedReceiver::<T>::close ](
    rx: &mut mpsc::UnboundedReceiver<T>,
);

/// `tokio_sync::oneshot::channel` makes the two sides of a new one-shot
/// channel. That the one receives what the other sends is not stated.
pub assume_specification<T>[ oneshot::channel::<T> ]() -> (sides: (
    oneshot::Sender<T>,
    oneshot::Receiver<T>,
));

/// `tokio_sync::oneshot::Sender::send` hands the value to the waiting side, or
/// gives that same value back when the waiting side is gone.
pub assume_specification<T>[ oneshot::Sender::<T>::send ](
    tx: oneshot::Sender<T>,
    value: T,
) -> (outcome: Result<(), T>)
    ensures
        outcome matches Err(returned) ==> returned == value,
;

/// What one look into a mailbox finds.
pub enum Polled<T> {
    /// A message, taken out of the queue.
    Message(T),
    /// No message is left, and none can come.
    Closed,
    /// No message is there yet; the task is woken when one comes.
    Pending,
}

/// `tokio_sync::mpsc::UnboundedReceiver::poll_recv` takes the oldest message
/// out of the queue, if there is one. What it finds depends on the senders, so
/// nothing is promised of the result.
#[verifier::external_body]
pub(crate) fn poll_recv<T>(rx: &mut mpsc::UnboundedReceiver<T>, cx: &mut Context<'_>) -> (found:
    Polled<T>) {
    match rx.poll_recv(cx) {
        Poll::Ready(Some(message)) => Polled::Message(message),
        Poll::Ready(None) => Polled::Closed,
        Poll::Pending => Polled::Pending,
    }
}

/// Whether `found` is what one look into the queue of `rx` found, on behalf of the
/// task of `cx`.
pub closed spec fn looked<T>(
    rx: &mut mpsc::UnboundedReceiver<T>,
    cx: &mut Context<'_>,
    found: Polled<T>,
) -> bool {
    call_ensures(poll_recv::<T>, (rx, cx), found)
}

/// Looking into a queue is no guess: what was found is what polling the queue gave.
pub(crate) proof fn law_looking_polls_the_queue<T>(
    rx: &mut mpsc::UnboundedReceiver<T>,
    cx: &mut Context<'_>,
    found: Polled<T>,
)
    requires
        looked(rx, cx, found),
    ensures
        call_ensures(poll_recv::<T>, (rx, cx), found),
{
}

/// The receiving half of a queue that [`Inbox::open`] made.
#[verifier::reject_recursive_types(T)]
pub struct Inbox<T> {
    rx: mpsc::UnboundedReceiver<T>,
    source: Ghost<mpsc::UnboundedSender<T>>,
}

impl<T> Inbox<T> {
    /// The sending half that was made together with this one.
    pub closed spec fn source(self) -> mpsc::UnboundedSender<T> {
        self.source@
    }

    /// The receiving half itself.
    pub closed spec fn receiver(self) -> mpsc::UnboundedReceiver<T> {
        self.rx
    }

    /// Makes a queue.
    pub fn open() -> (halves: (mpsc::UnboundedSender<T>, Inbox<T>))
        ensures
            halves.1.source() == halves.0,
            call_ensures(mpsc::unbounded_channel::<T>, (), (halves.0, halves.1.receiver())),
    {
        let (tx, rx) = mpsc::unbounded_channel();
        let inbox = Inbox { rx, source: Ghost(tx) };
        (tx, inbox)
    }

    /// Takes the oldest message out of the queue, if there is one.
    pub fn poll(&mut self, cx: &mut Context<'_>) -> (found: Polled<T>)
        ensures
            final(self).source() == old(self).source(),
            exists|rx: &mut mpsc::UnboundedReceiver<T>, c: &mut Context<'_>|
                {
                    &&& *rx == old(self).receiver() && *final(rx) == final(self).receiver()
                    &&& *c == *old(cx) && *final(c) == *final(cx)
                    &&& #[trigger] looked(rx, c, found)
                },
    {
        let found = poll_recv(&mut self.rx, cx);
        assert(exists|rx: &mut mpsc::UnboundedReceiver<T>, c: &mut Context<'_>|
            {
                &&& *rx == old(self).rx && *final(rx) == self.rx
                &&& *c == *old(cx) && *final(c) == *cx
                &&& #[trigger] call_ensures(poll_recv::<T>, (rx, c), found)
                &&& looked(rx, c, found)
            });
        found
    }

    /// Lets no further message into the queue.
    pub fn close(self) -> (queue: ClosedQueue<T>)
        ensures
            queue.source() == self.source(),
            exists|rx: &mut mpsc::UnboundedReceiver<T>|
                *rx == self.receiver() && *final(rx) == queue.rest() && #[trigger] call_ensures(
                    mpsc::UnboundedReceiver::<T>::close,
                    (rx,),
                    (),
                ),
    {
        let mut rx = self.rx;
        rx.close();
        ClosedQueue { rx, source: self.source }
    }
}

/// The receiving half of a queue that was closed: it takes no more messages, and
/// those that are left in it can still be read.
#[verifier::reject_recursive_types(T)]
pub struct ClosedQueue<T> {
    rx: mpsc::UnboundedReceiver<T>,
    source: Ghost<mpsc::UnboundedSender<T>>,
}

impl<T> ClosedQueue<T> {
    /// The sending half that was made together with this one.
    pub closed spec fn source(self) -> mpsc::UnboundedSender<T> {
        self.source@
    }

    /// The receiving half, to read the messages that are left.
    pub closed spec fn rest(self) -> mpsc::UnboundedReceiver<T> {
        self.rx
    }

    pub fn into_rest(self) -> (rest: mpsc::UnboundedReceiver<T>)
        ensures
            rest == self.rest(),
    {
        self.rx
    }
}

/// The receipt for a message that was put into a queue.
#[verifier::reject_recursive_types(T)]
pub struct Sent<T> {
    to: Ghost<mpsc::UnboundedSender<T>>,
    item: Ghost<T>,
}

impl<T> Sent<T> {
    /// The queue that took the message.
    pub closed spec fn to(self) -> mpsc::UnboundedSender<T> {
        self.to@
    }

    /// The message.
    pub closed spec fn item(self) -> T {
        self.item@
    }
}

/// Puts `item` into the queue behind `tx`. The receipt is for exactly that item
/// and that queue. There is none just if the queue refused the item.
pub fn post<T>(tx: &mpsc::UnboundedSender<T>, item: T) -> (outcome: Result<
    Sent<T>,
    mpsc::error::UnboundedTrySendError<T>,
>)
    ensures
        outcome matches Ok(sent) ==> sent.to() == *tx && sent.item() == item,
        exists|handle: &mut mpsc::UnboundedSender<T>, said|
            {
                &&& *handle == *tx
                &&& #[trigger] call_ensures(
                    mpsc::UnboundedSender::<T>::try_send,
                    (handle, item),
                    said,
                )
                &&& match said {
                    Ok(()) => outcome is Ok,
                    Err(err) => outcome == Err::<Sent<T>, _>(err),
                }
            },
{
    let mut tx = tx.clone();
    let ghost kept: T = item;
    match tx.try_send(item) {
        Ok(()) => Ok(Sent { to: Ghost(tx), item: Ghost(kept) }),
        Err(err) => Err(err),
    }
}

/// Where the answer to a message will come. It is one side of a one-shot channel
/// that [`ReplyPort::open`] made.
#[verifier::reject_recursive_types(R)]
pub struct ReplyPort<R> {
    rx: oneshot::Receiver<Option<R>>,
    source: Ghost<oneshot::Sender<Option<R>>>,
}

impl<R> ReplyPort<R> {
    /// The side that was made together with this one.
    pub closed spec fn source(self) -> oneshot::Sender<Option<R>> {
        self.source@
    }

    /// The side to wait on.
    pub closed spec fn receiver(self) -> oneshot::Receiver<Option<R>> {
        self.rx
    }

    /// Makes a one-shot channel.
    pub fn open() -> (sides: (oneshot::Sender<Option<R>>, ReplyPort<R>))
        ensures
            sides.1.source() == sides.0,
            call_ensures(oneshot::channel::<Option<R>>, (), (sides.0, sides.1.receiver())),
    {
        let (tx, rx) = oneshot::channel();
        let port = ReplyPort { rx, source: Ghost(tx) };
        (tx, port)
    }

    pub fn into_receiver(self) -> (rx: oneshot::Receiver<Option<R>>)
        ensures
            rx == self.receiver(),
    {
        self.rx
    }
}

/// The receipt for a reply that was handed to a one-shot channel.
#[verifier::reject_recursive_types(R)]
pub struct Replied<R> {
    to: Ghost<oneshot::Sender<Option<R>>>,
    value: Ghost<Option<R>>,
    delivered: bool,
}

impl<R> Replied<R> {
    /// The channel that took the reply.
    pub closed spec fn to(self) -> oneshot::Sender<Option<R>> {
        self.to@
    }

    /// The reply: what the message was answered with, or `None` for a message
    /// that was turned away.
    pub closed spec fn value(self) -> Option<R> {
        self.value@
    }

    /// Whether somebody was still waiting for the reply.
    pub closed spec fn delivered(self) -> bool {
        self.delivered
    }

    /// Whether somebody was still waiting for the reply.
    pub fn is_delivered(&self) -> (delivered: bool)
        ensures
            delivered == self.delivered(),
    {
        self.delivered
    }
}

/// Replies with `value`. The receipt is for exactly that value and that channel,
/// and tells whether the channel took it.
pub fn reply<R>(tx: oneshot::Sender<Option<R>>, value: Option<R>) -> (replied: Replied<R>)
    ensures
        replied.to() == tx,
        replied.value() == value,
        exists|said|
            #[trigger] call_ensures(oneshot::Sender::<Option<R>>::send, (tx, value), said)
                && replied.delivered() == (said is Ok),
{
    let ghost to: oneshot::Sender<Option<R>> = tx;
    let ghost kept: Option<R> = value;
    let delivered: bool = tx.send(value).is_ok();
    Replied { to: Ghost(to), value: Ghost(kept), delivered }
}

} // verus!
