//! What holds of the library as a whole.
use std::future::Future;
use std::task::Context;

use hyper::{HeaderMap, Uri};
use serde_json::Value;
use tokio_sync::oneshot;
use vstd::prelude::*;

use crate::actor::{Actor, ActorContext, ActorState, Host, Message};
use crate::channel::Replied;
use crate::fields::fields;
use crate::http::{
    body_message, dispatch, finds, handle_outcome, handled, http_result, json_outcome, path_of,
    reply_to_request, routed, told, Dispatch, HttpAnswer, HyperResponse, JsonMessage, Router,
};
use crate::json::{json_text, parsed_json, string_value};
use crate::internal_handlers::{StopActor, SupervisedBy, SupervisorStopped, WorkerStopped};
use crate::mailbox::{
    ask_outcome, ask_result, Asked, Envelope, EnvelopeProxy, ListenerTable, MailboxAskError, Reject,
};
use crate::response::{answered, AsyncResponse, PendingReply, Response, Spawner};
use crate::supervisor::{all_told, Supervisor};
use crate::system::{is_index, ActorBundle, Settled, System, TurnOf};
use crate::system_context::{Service, SystemContext};

verus! {

/// No two actors get the same id: where each of the contexts of a history comes
/// of the one before by giving out its next id, those ids go up.
pub proof fn law_ids_are_unique<V>(history: Seq<SystemContext<V>>, i: int, j: int)
    requires
        forall|k: int|
            0 <= k < history.len() - 1 ==> (#[trigger] history[k + 1]).next_id()
                == history[k].next_id() + 1,
        0 <= i < j < history.len(),
    ensures
        history[i].next_id() < history[j].next_id(),
    decreases j - i,
{
    assert(history[(j - 1) + 1].next_id() == history[j - 1].next_id() + 1);
    if i < j - 1 {
        law_ids_are_unique(history, i, j - 1);
    }
}

/// A service is found under the name that it was registered with, as what it is
/// and as nothing else, whatever was there before.
pub proof fn law_registered_is_found<V>(
    before: SystemContext<V>,
    after: SystemContext<V>,
    name: Seq<char>,
    service: Service<V>,
    kind: u64,
)
    requires
        after.registry()@ == before.registry()@.insert(name, service),
    ensures
        after.service(name, kind) == (if kind == service.kind {
            Some(service.mailbox)
        } else {
            None
        }),
{
}

/// Registering a service changes nothing under any other name.
pub proof fn law_registering_leaves_others<V>(
    before: SystemContext<V>,
    after: SystemContext<V>,
    name: Seq<char>,
    service: Service<V>,
    other: Seq<char>,
    kind: u64,
)
    requires
        after.registry()@ == before.registry()@.insert(name, service),
        other != name,
    ensures
        after.service(other, kind) == before.service(other, kind),
{
}

/// When the services are stopped in the order of their names, each is stopped,
/// and none is stopped twice.
pub proof fn law_each_service_is_stopped_once<V>(context: SystemContext<V>, name: Seq<char>)
    requires
        context.registry().wf(),
    ensures
        context.registry().order().no_duplicates(),
        context.registry()@.contains_key(name) <==> exists|i: int|
            0 <= i < context.registry().order().len() && context.registry().order()[i] == name,
{
    context.registry().lemma_order();
    if context.registry()@.contains_key(name) {
        assert(context.registry().order().contains(name));
    } else {
        assert(!context.registry().order().contains(name));
    }
}

/// What an actor answers is what whoever asked gets: the answer to an envelope
/// goes where the asker waits, and waiting there comes to that answer.
pub proof fn law_answer_reaches_asker<M: Message, E>(
    asked: Asked<M::Result, E>,
    envelope: Envelope<M>,
    receipt: Option<Replied<M::Result>>,
    value: M::Result,
)
    requires
        envelope.reply == Some(asked.reply.source()),
        answered(receipt, envelope.reply, Some(value)),
    ensures
        receipt matches Some(replied) && replied.to() == asked.reply.source() && ask_result(
            Ok(replied.value()),
        ) == Ok::<M::Result, MailboxAskError>(value),
{
}

/// Whoever asked with a message that was turned away is told that it was
/// dropped.
pub proof fn law_rejected_ask_is_dropped<M: Message, E>(
    asked: Asked<M::Result, E>,
    envelope: Envelope<M>,
    receipt: Option<Replied<M::Result>>,
)
    requires
        envelope.reply == Some(asked.reply.source()),
        call_ensures(<Envelope<M> as Reject>::reject, (envelope,), receipt),
    ensures
        receipt matches Some(replied) && replied.to() == asked.reply.source() && ask_result(
            Ok(replied.value()),
        ) == Err::<M::Result, MailboxAskError>(MailboxAskError::MessageDropped),
{
}

/// A message that nobody waits for is never answered, be it handled or turned
/// away.
pub proof fn law_sent_is_not_answered<M: Message>(
    envelope: Envelope<M>,
    receipt: Option<Replied<M::Result>>,
    value: Option<M::Result>,
)
    requires
        envelope.reply is None,
        answered(receipt, envelope.reply, value),
    ensures
        receipt is None,
{
}

/// Of the listeners for one kind of message, the last one that was set counts.
pub proof fn law_last_listener_counts<L>(
    before: ListenerTable<L>,
    between: ListenerTable<L>,
    after: ListenerTable<L>,
    kind: u64,
    first: L,
    second: L,
)
    requires
        between@ == before@.insert(kind, first),
        after@ == between@.insert(kind, second),
    ensures
        after@.contains_key(kind) && after@[kind] == second,
        after@ == before@.insert(kind, second),
{
}

/// Setting and clearing the listener for one kind of message leaves those for
/// all other kinds as they are, and none for that kind.
pub proof fn law_cleared_listener_is_gone<L>(
    before: ListenerTable<L>,
    between: ListenerTable<L>,
    after: ListenerTable<L>,
    kind: u64,
    listener: L,
)
    requires
        between@ == before@.insert(kind, listener),
        after@ == between@.remove(kind),
    ensures
        !after@.contains_key(kind),
        after@ == before@.remove(kind),
{
}

/// Once a path is served, its requests find the handler that it is served by,
/// whatever served it before.
pub proof fn law_served_path_is_found<K: Clone>(
    before: Router<K>,
    after: Router<K>,
    path: Seq<char>,
    handler: K,
    found: Option<K>,
)
    requires
        after.routes() == before.routes().insert(path, handler),
        finds(after.routes(), path, found),
    ensures
        found matches Some(copy) && cloned(handler, copy),
{
}

/// Serving a path changes nothing for the requests to any other path.
pub proof fn law_serving_leaves_other_paths<K: Clone>(
    before: Router<K>,
    after: Router<K>,
    path: Seq<char>,
    handler: K,
    other: Seq<char>,
    found: Option<K>,
)
    requires
        after.routes() == before.routes().insert(path, handler),
        other != path,
    ensures
        finds(after.routes(), other, found) == finds(before.routes(), other, found),
{
}

/// A request to a path that nobody serves is replied to with the status for not
/// found.
pub proof fn law_unserved_path_is_not_found<K: Clone>(
    router: Router<K>,
    path: Seq<char>,
    found: Option<K>,
)
    requires
        !router.routes().contains_key(path),
        finds(router.routes(), path, found),
    ensures
        found is None,
        reply_to_request(Ok(ask_result(Ok(Some(routed(None)))))) == (404int, "No route"@),
{
}

/// A request that its handler answers with a value is replied to with the JSON
/// text of that value.
pub proof fn law_answer_is_replied(json: Value)
    ensures
        reply_to_request(Ok(ask_result(Ok(Some(routed(Some(Ok(json)))))))) == (
            200int,
            json_text(json),
        ),
{
}

/// A request whose message the actor turned away, or went away without
/// answering, is still replied to: with the JSON text of what went wrong.
pub proof fn law_unanswered_is_replied(
    reply: Result<Option<Value>, oneshot::error::RecvError>,
)
    requires
        !(reply matches Ok(Some(_))),
    ensures
        handled(reply) matches Err(err) && reply_to_request(
            Ok(ask_result(Ok(Some(routed(Some(handled(reply))))))),
        ) == (200int, json_text(string_value(err))),
{
}

/// However often actors are served, HTTP is started once: where each system of a
/// history comes of the one before by serving, and `started` tells which of them
/// started HTTP, no two did.
pub proof fn law_http_starts_once<H: Host>(
    history: Seq<System<H>>,
    started: Seq<bool>,
    i: int,
    j: int,
)
    requires
        history.len() == started.len() + 1,
        forall|k: int|
            0 <= k < started.len() ==> #[trigger] started[k] == !history[k].http_started,
        forall|k: int| 0 < k < history.len() ==> (#[trigger] history[k]).http_started,
        0 <= i < j < started.len(),
    ensures
        !started[j],
{
    assert(history[j].http_started);
}

/// Every actor can be stopped by a message: once it was given [`StopActor`], it
/// is stopping, and is otherwise as before.
pub proof fn law_stop_message_stops<A: Actor, H: Host>(
    before: ActorBundle<A, H>,
    after: ActorBundle<A, H>,
    envelope: Envelope<StopActor>,
    receipt: Option<Replied<()>>,
)
    requires
        exists|bundle: &mut ActorBundle<A, H>|
            *bundle == before && *final(bundle) == after && #[trigger] call_ensures(
                <Envelope<StopActor> as EnvelopeProxy<ActorBundle<A, H>>>::accept,
                (envelope, bundle),
                receipt,
            ),
    ensures
        after == (ActorBundle::<A, H> {
            inner: ActorContext { state: ActorState::Stopping, ..before.inner },
            ..before
        }),
{
}

/// A supervisor that is given the message that a worker has stopped learns which
/// worker it was and whether it crashed, and goes on as before otherwise.
pub proof fn law_supervisor_learns_of_worker<S: Supervisor<W>, W: Actor, H: Host>(
    before: ActorBundle<S, H>,
    after: ActorBundle<S, H>,
    envelope: Envelope<WorkerStopped<W>>,
    receipt: Option<Replied<()>>,
)
    requires
        exists|bundle: &mut ActorBundle<S, H>|
            *bundle == before && *final(bundle) == after && #[trigger] call_ensures(
                <Envelope<WorkerStopped<W>> as EnvelopeProxy<ActorBundle<S, H>>>::accept,
                (envelope, bundle),
                receipt,
            ),
    ensures
        after == (ActorBundle::<S, H> { actor: after.actor, ..before }),
        exists|sup: &mut S|
            *sup == before.actor && *final(sup) == after.actor && #[trigger] call_ensures(
                <S as Supervisor<W>>::worker_stopped,
                (sup, envelope.msg.0, envelope.msg.1),
                (),
            ),
{
}

/// A worker that is given the message that its supervisor has stopped learns of
/// it, with its context at hand. Nothing else happens to it.
pub proof fn law_worker_learns_of_supervisor<A: Actor, H: Host>(
    before: ActorBundle<A, H>,
    after: ActorBundle<A, H>,
    envelope: Envelope<SupervisorStopped>,
    receipt: Option<Replied<()>>,
)
    requires
        exists|bundle: &mut ActorBundle<A, H>|
            *bundle == before && *final(bundle) == after && #[trigger] call_ensures(
                <Envelope<SupervisorStopped> as EnvelopeProxy<ActorBundle<A, H>>>::accept,
                (envelope, bundle),
                receipt,
            ),
    ensures
        after == (ActorBundle::<A, H> { actor: after.actor, inner: after.inner, ..before }),
        exists|worker: &mut A, cx: &mut ActorContext<H>|
            {
                &&& *worker == before.actor && *final(worker) == after.actor
                &&& *cx == before.inner && *final(cx) == after.inner
                &&& #[trigger] call_ensures(
                    <A as Actor>::supervisor_stopped::<H>,
                    (worker, cx),
                    (),
                )
            },
{
}

/// A worker is told once that its supervisor has stopped: who was told is no
/// longer a worker, so telling the workers again tells nobody.
pub proof fn law_workers_are_told_once<A: Actor, H: Host>(
    before: ActorBundle<A, H>,
    between: ActorBundle<A, H>,
    after: ActorBundle<A, H>,
    first: Vec<<H::Child as SupervisedBy>::Notice>,
    second: Vec<<H::Child as SupervisedBy>::Notice>,
)
    requires
        exists|b: &mut ActorBundle<A, H>|
            *b == before && *final(b) == between && #[trigger] call_ensures(
                ActorBundle::<A, H>::notify_children,
                (b,),
                first,
            ),
        exists|b: &mut ActorBundle<A, H>|
            *b == between && *final(b) == after && #[trigger] call_ensures(
                ActorBundle::<A, H>::notify_children,
                (b,),
                second,
            ),
    ensures
        all_told(before.inner.children@, first@),
        second@.len() == 0,
{
}

/// An actor that was stopped or has crashed is left alone when it is polled again:
/// there is nothing to do, and nothing of the actor changes.
pub proof fn law_ended_actor_is_left_alone<A: Actor, H: Host>(
    before: ActorBundle<A, H>,
    ended: ActorBundle<A, H>,
    after: ActorBundle<A, H>,
    completed: bool,
    turn: TurnOf<H>,
    again: Option<TurnOf<H>>,
)
    requires
        exists|b: &mut ActorBundle<A, H>|
            *b == before && *final(b) == ended && #[trigger] call_ensures(
                ActorBundle::<A, H>::on_processed,
                (b, completed),
                turn,
            ),
        !completed || before.inner.state is Stopping,
        exists|b: &mut ActorBundle<A, H>, cx: &mut Context<'_>|
            *b == ended && *final(b) == after && #[trigger] call_ensures(
                ActorBundle::<A, H>::poll_unless_ended,
                (b, cx),
                again,
            ),
    ensures
        turn is Settle || turn is Abandon,
        again is None,
        after == ended,
{
}

/// An actor that flushes its backlog handles each message once, and in order: the
/// messages that were taken out of its queue one by one, and then those that were
/// left when it stopped. `before` and `after` tell the actor around each message
/// that was taken, and the states of `settled` around each that was left. But for
/// the stop, each message finds the actor as the one before has left it.
pub proof fn law_flushed_run_handles_each_message<A: Actor, H: Host>(
    taken: Seq<H::Envelope>,
    receipts: Seq<<H::Envelope as Reject>::Receipt>,
    before: Seq<ActorBundle<A, H>>,
    after: Seq<ActorBundle<A, H>>,
    backlog: Vec<H::Envelope>,
    stopping: ActorBundle<A, H>,
    stopped: ActorBundle<A, H>,
    settled: Settled<A, H>,
) where H::Envelope: EnvelopeProxy<ActorBundle<A, H>>
    requires
        receipts.len() == taken.len(),
        before.len() == taken.len(),
        after.len() == taken.len(),
        forall|i: int| #[trigger]
            is_index(taken, i) ==> exists|b: &mut ActorBundle<A, H>|
                *b == before[i] && *final(b) == after[i] && #[trigger] call_ensures(
                    <H::Envelope as EnvelopeProxy<ActorBundle<A, H>>>::accept,
                    (taken[i], b),
                    receipts[i],
                ),
        forall|i: int| 0 < i < taken.len() ==> (#[trigger] before[i]).actor == after[i - 1].actor,
        exists|b: &mut ActorBundle<A, H>|
            *b == stopping && *final(b) == stopped && #[trigger] call_ensures(
                ActorBundle::<A, H>::settle,
                (b, backlog),
                settled,
            ),
        settled.policy is Flush,
    ensures
        settled.states@[0] == stopping,
        (receipts + settled.receipts@).len() == (taken + backlog@).len(),
        forall|i: int| #[trigger]
            is_index(taken + backlog@, i) ==> exists|b: &mut ActorBundle<A, H>|
                *b == (before + settled.states@.drop_last())[i] && *final(b) == (after
                    + settled.states@.drop_first())[i] && #[trigger] call_ensures(
                    <H::Envelope as EnvelopeProxy<ActorBundle<A, H>>>::accept,
                    ((taken + backlog@)[i], b),
                    (receipts + settled.receipts@)[i],
                ),
        forall|i: int|
            0 < i < (taken + backlog@).len() && i != taken.len() ==> (#[trigger] (before
                + settled.states@.drop_last())[i]).actor == (after
                + settled.states@.drop_first())[i - 1].actor,
{
    assert forall|i: int| #[trigger] is_index(taken + backlog@, i) implies exists|
        b: &mut ActorBundle<A, H>,
    |
        *b == (before + settled.states@.drop_last())[i] && *final(b) == (after
            + settled.states@.drop_first())[i] && #[trigger] call_ensures(
            <H::Envelope as EnvelopeProxy<ActorBundle<A, H>>>::accept,
            ((taken + backlog@)[i], b),
            (receipts + settled.receipts@)[i],
        ) by {
        let j = i - taken.len();
        if j < 0 {
            assert(is_index(taken, i));
            assert((taken + backlog@)[i] == taken[i]);
            assert((receipts + settled.receipts@)[i] == receipts[i]);
            assert((before + settled.states@.drop_last())[i] == before[i]);
            assert((after + settled.states@.drop_first())[i] == after[i]);
        } else {
            assert(is_index(settled.receipts@, j));
            assert((taken + backlog@)[i] == backlog@[j]);
            assert((receipts + settled.receipts@)[i] == settled.receipts@[j]);
            assert((before + settled.states@.drop_last())[i] == settled.states@[j]);
            assert((after + settled.states@.drop_first())[i] == settled.states@[j + 1]);
        }
    }
}

/// An answer that is not there yet is given once: handing it over answers nothing,
/// and completing it answers with the result of the future.
pub proof fn law_pending_answer_is_given_once<M, F, S>(
    response: AsyncResponse<M, F>,
    reply_to: Option<oneshot::Sender<Option<M::Result>>>,
    at_once: Option<Replied<M::Result>>,
    result: M::Result,
    later: Option<Replied<M::Result>>,
) where
    M: Message,
    F: Future<Output = M::Result>,
    S: Spawner<PendingReply<M, F>>,

    requires
        exists|spawner: &mut S| #[trigger]
            call_ensures(
                <AsyncResponse<M, F> as Response<M::Result, S>>::handle,
                (response, spawner, reply_to),
                at_once,
            ),
        call_ensures(PendingReply::<M, F>::complete, (reply_to, result), later),
    ensures
        at_once is None,
        answered(later, reply_to, Some(result)),
{
}

/// However one waits for an answer, asking comes to the same: the result of
/// [`Mailbox::ask`] is what [`ask_outcome`] makes of the reply that came back.
pub proof fn law_ways_of_asking_agree<R>(
    reply: Result<Option<R>, oneshot::error::RecvError>,
    asked: Result<R, MailboxAskError>,
    outcome: Result<R, MailboxAskError>,
)
    requires
        asked == ask_result(reply),
        call_ensures(ask_outcome::<R>, (reply,), outcome),
    ensures
        asked == outcome,
{
}

/// A request that names no protocol to upgrade to is passed on to the router, and
/// whatever becomes of it, the reply is not that for switching protocols.
pub proof fn law_plain_request_is_not_switched(
    request: HeaderMap,
    dispatched: Dispatch,
    routed: Result<Result<HyperResponse, MailboxAskError>, Seq<char>>,
)
    requires
        !fields(request).contains_key("upgrade"@),
        call_ensures(dispatch, (&request,), dispatched),
    ensures
        dispatched is Route,
        reply_to_request(routed).0 != 101,
{
}

/// What the client makes of the text of a reply, when `decode` tells which result a
/// text stands for, if any.
pub open spec fn read_reply<R>(
    text: Seq<char>,
    decode: spec_fn(Seq<char>) -> Option<R>,
) -> HttpAnswer<R> {
    match decode(text) {
        Some(result) => HttpAnswer::Decoded(result),
        None => HttpAnswer::Undecoded,
    }
}

/// Asking an actor over HTTP comes to what asking it comes to. `decode_message` and
/// `encode` tell how the server reads messages and writes results, and `decode`
/// how the client reads results. Where the body of the request stands for `msg`,
/// and reading the text of the result gives the result back, the message that is
/// passed on is `msg`, and the client gets what whoever asks the actor with `msg`
/// gets, when the actor answers with `result`.
pub proof fn law_asking_over_http_agrees<M, R, E>(
    uri: Uri,
    body: Vec<u8>,
    decode_message: spec_fn(Value) -> Option<M>,
    msg: M,
    message: Result<JsonMessage, &str>,
    result: R,
    encode: spec_fn(R) -> Value,
    decode: spec_fn(Seq<char>) -> Option<R>,
    said: Result<R, &'static str>,
    outcome: Result<Value, &'static str>,
)
    requires
        parsed_json(body@) is Some,
        decode_message(parsed_json(body@)->0) == Some(msg),
        body_message(path_of(uri), Ok::<Vec<u8>, E>(body), message),
        call_ensures(handle_outcome::<R>, (Ok(Some(result)),), said),
        call_ensures(
            json_outcome,
            (match said {
                Ok(result) => Ok(Some(encode(result))),
                Err(err) => Err(err),
            },),
            outcome,
        ),
        decode(json_text(encode(result))) == Some(result),
    ensures
        message matches Ok(request) && request.0@ == path_of(uri) && decode_message(request.1)
            == Some(msg),
        ({
            let reply = reply_to_request(
                Ok(ask_result(Ok(Some(routed(Some(told(outcome))))))),
            );
            reply.0 == 200 && http_result(read_reply(reply.1, decode)) == ask_result(
                Ok(Some(result)),
            )
        }),
{
}

} // verus!
