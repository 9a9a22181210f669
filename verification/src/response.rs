//! What a handler answers a message with, and how the answer gets back to
//! whoever asked.
use std::future::Future;
use std::marker::PhantomData;

use tokio_sync::oneshot;
use vstd::prelude::*;

use crate::actor::Message;
use crate::channel::{reply, Replied};

verus! {

/// A system that can run a task of type `T` on its own.
pub trait Spawner<T> {
    fn spawn(&mut self, task: T);
}

/// An answer to a message whose result is of type `R`, on a system of type `S`.
///
/// Handling an answer sends it back, if somebody waits for it, and gives the
/// receipt. An answer that is not there yet is left to the system, and then
/// there is no receipt.
pub trait Response<R, S> {
    fn handle(
        self,
        spawner: &mut S,
        reply_to: Option<oneshot::Sender<Option<R>>>,
    ) -> Option<Replied<R>>;
}

/// An answer that is known at once.
pub struct SyncResponse<M: Message>(M::Result);

/// An answer that a future will give.
pub struct AsyncResponse<M: Message, F: Future<Output = M::Result>>(F, PhantomData<M>);

/// A future whose result is to be sent back.
#[verifier::reject_recursive_types(M)]
pub struct PendingReply<M: Message, F: Future<Output = M::Result>> {
    pub future: F,
    pub reply_to: Option<oneshot::Sender<Option<M::Result>>>,
}

/// Whether `replied` is the receipt for answering with `value`: there is one
/// just if somebody waits, and then it is for that value.
pub open spec fn answered<R>(
    replied: Option<Replied<R>>,
    reply_to: Option<oneshot::Sender<Option<R>>>,
    value: Option<R>,
) -> bool {
    match reply_to {
        Some(tx) => replied matches Some(receipt) && receipt.to() == tx && receipt.value() == value,
        None => replied is None,
    }
}

/// Answers with `value`, if somebody waits for it.
pub fn answer<R>(reply_to: Option<oneshot::Sender<Option<R>>>, value: Option<R>) -> (replied:
    Option<Replied<R>>)
    ensures
        answered(replied, reply_to, value),
{
    match reply_to {
        Some(tx) => Some(reply(tx, value)),
        None => None,
    }
}

impl<M: Message> SyncResponse<M> {
    /// The answer.
    pub closed spec fn value(self) -> M::Result {
        self.0
    }

    pub fn new(value: M::Result) -> (response: Self)
        ensures
            response.value() == value,
    {
        SyncResponse(value)
    }
}

impl<M: Message, F: Future<Output = M::Result>> AsyncResponse<M, F> {
    /// The future that gives the answer.
    pub closed spec fn future(self) -> F {
        self.0
    }

    pub fn from_future(fut: F) -> (response: Self)
        ensures
            response.future() == fut,
    {
        AsyncResponse(fut, PhantomData)
    }
}

impl<M: Message, F: Future<Output = M::Result>> PendingReply<M, F> {
    /// Sends the result of the future back, if somebody waits for it.
    pub fn complete(
        reply_to: Option<oneshot::Sender<Option<M::Result>>>,
        result: M::Result,
    ) -> (replied: Option<Replied<M::Result>>)
        ensures
            answered(replied, reply_to, Some(result)),
    {
        answer(reply_to, Some(result))
    }
}

impl<M: Message, F: Future<Output = M::Result>, S: Spawner<PendingReply<M, F>>> Response<
    M::Result,
    S,
> for AsyncResponse<M, F> {
    /// Leaves the future to the system, together with the way back.
    fn handle(
        self,
        spawner: &mut S,
        reply_to: Option<oneshot::Sender<Option<M::Result>>>,
    ) -> (replied: Option<Replied<M::Result>>)
        ensures
            replied is None,
            exists|s: &mut S|
                *s == *old(spawner) && *final(s) == *final(spawner) && #[trigger] call_ensures(
                    S::spawn,
                    (s, PendingReply::<M, F> { future: self.future(), reply_to }),
                    (),
                ),
    {
        spawner.spawn(PendingReply { future: self.0, reply_to });
        None
    }
}

impl<M: Message, S> Response<M::Result, S> for SyncResponse<M> {
    fn handle(
        self,
        spawner: &mut S,
        reply_to: Option<oneshot::Sender<Option<M::Result>>>,
    ) -> (replied: Option<Replied<M::Result>>)
        ensures
            *final(spawner) == *old(spawner),
            answered(replied, reply_to, Some(self.value())),
    {
        answer(reply_to, Some(self.0))
    }
}

impl<S> Response<(), S> for () {
    fn handle(
        self,
        spawner: &mut S,
        reply_to: Option<oneshot::Sender<Option<()>>>,
    ) -> (replied: Option<Replied<()>>)
        ensures
            *final(spawner) == *old(spawner),
            answered(replied, reply_to, Some(self)),
    {
        answer(reply_to, Some(self))
    }
}

impl<S> Response<u8, S> for u8 {
    fn handle(
        self,
        spawner: &mut S,
        reply_to: Option<oneshot::Sender<Option<u8>>>,
    ) -> (replied: Option<Replied<u8>>)
        ensures
            *final(spawner) == *old(spawner),
            answered(replied, reply_to, Some(self)),
    {
        answer(reply_to, Some(self))
    }
}

impl<S> Response<u16, S> for u16 {
    fn handle(
        self,
        spawner: &mut S,
        reply_to: Option<oneshot::Sender<Option<u16>>>,
    ) -> (replied: Option<Replied<u16>>)
        ensures
            *final(spawner) == *old(spawner),
            answered(replied, reply_to, Some(self)),
    {
        answer(reply_to, Some(self))
    }
}

impl<S> Response<u32, S> for u32 {
    fn handle(
        self,
        spawner: &mut S,
        reply_to: Option<oneshot::Sender<Option<u32>>>,
    ) -> (replied: Option<Replied<u32>>)
        ensures
            *final(spawner) == *old(spawner),
            answered(replied, reply_to, Some(self)),
    {
        answer(reply_to, Some(self))
    }
}

impl<S> Response<u64, S> for u64 {
    fn handle(
        self,
        spawner: &mut S,
        reply_to: Option<oneshot::Sender<Option<u64>>>,
    ) -> (replied: Option<Replied<u64>>)
        ensures
            *final(spawner) == *old(spawner),
            answered(replied, reply_to, Some(self)),
    {
        answer(reply_to, Some(self))
    }
}

impl<S> Response<usize, S> for usize {
    fn handle(
        self,
        spawner: &mut S,
        reply_to: Option<oneshot::Sender<Option<usize>>>,
    ) -> (replied: Option<Replied<usize>>)
        ensures
            *final(spawner) == *old(spawner),
            answered(replied, reply_to, Some(self)),
    {
        answer(reply_to, Some(self))
    }
}

impl<S> Response<i8, S> for i8 {
    fn handle(
        self,
        spawner: &mut S,
        reply_to: Option<oneshot::Sender<Option<i8>>>,
    ) -> (replied: Option<Replied<i8>>)
        ensures
            *final(spawner) == *old(spawner),
            answered(replied, reply_to, Some(self)),
    {
        answer(reply_to, Some(self))
    }
}

impl<S> Response<i16, S> for i16 {
    fn handle(
        self,
        spawner: &mut S,
        reply_to: Option<oneshot::Sender<Option<i16>>>,
    ) -> (replied: Option<Replied<i16>>)
        ensures
            *final(spawner) == *old(spawner),
            answered(replied, reply_to, Some(self)),
    {
        answer(reply_to, Some(self))
    }
}

impl<S> Response<i32, S> for i32 {
    fn handle(
        self,
        spawner: &mut S,
        reply_to: Option<oneshot::Sender<Option<i32>>>,
    ) -> (replied: Option<Replied<i32>>)
        ensures
            *final(spawner) == *old(spawner),
            answered(replied, reply_to, Some(self)),
    {
        answer(reply_to, Some(self))
    }
}

impl<S> Response<i64, S> for i64 {
    fn handle(
        self,
        spawner: &mut S,
        reply_to: Option<oneshot::Sender<Option<i64>>>,
    ) -> (replied: Option<Replied<i64>>)
        ensures
            *final(spawner) == *old(spawner),
            answered(replied, reply_to, Some(self)),
    {
        answer(reply_to, Some(self))
    }
}

impl<S> Response<isize, S> for isize {
    fn handle(
        self,
        spawner: &mut S,
        reply_to: Option<oneshot::Sender<Option<isize>>>,
    ) -> (replied: Option<Replied<isize>>)
        ensures
            *final(spawner) == *old(spawner),
            answered(replied, reply_to, Some(self)),
    {
        answer(reply_to, Some(self))
    }
}

impl<S> Response<String, S> for String {
    fn handle(
        self,
        spawner: &mut S,
        reply_to: Option<oneshot::Sender<Option<String>>>,
    ) -> (replied: Option<Replied<String>>)
        ensures
            *final(spawner) == *old(spawner),
            answered(replied, reply_to, Some(self)),
    {
        answer(reply_to, Some(self))
    }
}

} // verus!
