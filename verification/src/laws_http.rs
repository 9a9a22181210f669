//! What holds of serving actors over HTTP, whatever comes in.
use hyper::{HeaderMap, Uri};
use serde_json::Value;
use tokio_sync::oneshot;
use vstd::prelude::*;

use crate::actor::Host;
use crate::fields::{ascii, declared_length, fields, signature};
use crate::http::{
    close_request, deserialize_body, dispatch, first_room, handle_outcome, http_outcome,
    open_request, path_of, route_outcome, serve_request, switch_protocols, BodyCollector,
    Collected, Dispatch, HttpAnswer, HttpReply, HyperResponse, JsonMessage, ReplyHead,
};
use crate::json::{json_text, parsed_json, string_value};
use crate::mailbox::{AskOnce, Asked, Envelope, MailboxAskError};

verus! {

/// Room is made for just the length that is declared, whatever it is, as long as
/// it can be counted at all, and for 512 bytes where none is declared.
pub proof fn law_room_is_the_declared_length(length: Option<u64>, capacity: usize)
    requires
        call_ensures(first_room, (length,), capacity),
    ensures
        length matches Some(n) ==> n <= usize::MAX ==> capacity == n,
        length is None ==> capacity == 512,
{
}

/// A body is read whatever length its header declares, as long as memory can hold
/// so much, and where it declares none. Just a declared length beyond that is
/// refused.
pub proof fn law_body_that_fits_is_read(headers: HeaderMap, body: Option<BodyCollector>)
    requires
        call_ensures(BodyCollector::from_headers, (&headers,), body),
    ensures
        !fields(headers).contains_key("content-length"@) ==> body is Some,
        declared_length(fields(headers)["content-length"@]) is None ==> body is Some,
        declared_length(fields(headers)["content-length"@]) matches Some(n) ==> n <= isize::MAX
            ==> body is Some,
        body is None ==> fields(headers).contains_key("content-length"@) && (declared_length(
            fields(headers)["content-length"@],
        ) matches Some(n) && n > isize::MAX),
        (fields(headers).contains_key("content-length"@) && (declared_length(
            fields(headers)["content-length"@],
        ) matches Some(n) && isize::MAX < n <= usize::MAX)) ==> body is None,
        body matches Some(body) ==> body.chunks().len() == 0,
{
}

/// What was read of a body is its chunks, one after the other: taking one chunk
/// more and then the end gives the bytes from before, and then those of the chunk.
pub proof fn law_chunk_is_appended<E>(
    body: BodyCollector,
    longer: BodyCollector,
    chunk: &[u8],
    earlier: Vec<u8>,
    bytes: Vec<u8>,
)
    requires
        call_ensures(
            BodyCollector::next::<E>,
            (body, None),
            Collected::Done(Ok(earlier)),
        ),
        call_ensures(
            BodyCollector::next::<E>,
            (body, Some(Ok(chunk))),
            Collected::More(longer),
        ),
        call_ensures(
            BodyCollector::next::<E>,
            (longer, None),
            Collected::Done(Ok(bytes)),
        ),
    ensures
        bytes@ == earlier@ + chunk@,
{
    body.chunks().lemma_flatten_push(chunk@);
}

/// A request with a JSON value is passed on to the router as one message, with the
/// path and the value of the request. The way to the router can be used one time.
/// Any other request is replied to at once, and the way to the router is not used.
pub proof fn law_request_is_passed_on_once<R, H: Host, E>(
    router: R,
    uri: Uri,
    body: Result<Vec<u8>, E>,
    step: Result<Asked<HyperResponse, H::Envelope>, HttpReply>,
) where R: AskOnce<JsonMessage, H>, H::Envelope: From<Envelope<JsonMessage>>
    requires
        call_ensures(open_request::<H, E>, (router, &uri, body), step),
    ensures
        body matches Ok(bytes) ==> parsed_json(bytes@) matches Some(json) ==> match step {
            Ok(asked) => {
                &&& asked.sent.to() == router.mailbox().tx
                &&& exists|msg: JsonMessage|
                    {
                        &&& msg.0@ == path_of(uri)
                        &&& msg.1 == json
                        &&& #[trigger] call_ensures(
                            <H::Envelope as From<Envelope<JsonMessage>>>::from,
                            (Envelope { msg, reply: Some(asked.reply.source()) },),
                            asked.sent.item(),
                        )
                    }
            },
            Err(reply) => reply.status == 500 && reply.body@ == "Internal Server Error"@,
        },
        (body matches Ok(bytes) && parsed_json(bytes@) is None) ==> {
            &&& has_resolved(router)
            &&& step matches Err(reply) && reply.status == 500 && reply.body@
                == "Could not deserialize"@
        },
        body is Err ==> {
            &&& has_resolved(router)
            &&& step matches Err(reply) && reply.status == 500 && reply.body@
                == "Could not read body"@
        },
{
}

/// A body is taken for a message with the path of the location and the value that
/// the bytes stand for, and for nothing where it could not be read or is no JSON.
pub proof fn law_body_is_decoded<E>(
    uri: Uri,
    body: Result<Vec<u8>, E>,
    message: Result<JsonMessage, &'static str>,
)
    requires
        call_ensures(deserialize_body::<E>, (&uri, body), message),
    ensures
        message matches Ok(msg) ==> (body matches Ok(bytes) && parsed_json(bytes@) == Some(msg.1)
            && msg.0@ == path_of(uri)),
        message matches Err(err) ==> match body {
            Ok(bytes) => parsed_json(bytes@) is None && err@ == "Could not deserialize"@,
            Err(_) => err@ == "Could not read body"@,
        },
{
}

/// Whatever became of a request, the reply tells it: the text of the value that
/// answers it with 200, that there is no route with 404, and what went wrong with
/// 500.
pub proof fn law_reply_tells_what_became_of_a_request(
    routed: Result<Result<HyperResponse, MailboxAskError>, &'static str>,
    reply: HttpReply,
)
    requires
        call_ensures(serve_request, (routed,), reply),
    ensures
        routed matches Ok(Ok(HyperResponse::Json(json))) ==> reply.status == 200 && reply.body@
            == json_text(json),
        routed matches Ok(Ok(HyperResponse::NotFound)) ==> reply.status == 404 && reply.body@
            == "No route"@,
        routed matches Ok(Err(_)) ==> reply.status == 500 && reply.body@
            == "Internal Server Error"@,
        routed matches Err(err) ==> reply.status == 500 && reply.body@ == err@,
{
}

/// What came back from the router is sent on, and a router that turned the message
/// away or did not answer is an error of the server.
pub proof fn law_router_answer_is_sent_on(
    reply: Result<Option<HyperResponse>, oneshot::error::RecvError>,
    sent: HttpReply,
)
    requires
        call_ensures(close_request, (reply,), sent),
    ensures
        reply matches Ok(Some(HyperResponse::Json(json))) ==> sent.status == 200 && sent.body@
            == json_text(json),
        reply matches Ok(Some(HyperResponse::NotFound)) ==> sent.status == 404 && sent.body@
            == "No route"@,
        !(reply matches Ok(Some(_))) ==> sent.status == 500 && sent.body@
            == "Internal Server Error"@,
{
}

/// The value of a handler answers the request as it is, its error answers as a JSON
/// string of its text, and without a handler nobody answers.
pub proof fn law_handler_answers_request(
    outcome: Option<Result<Value, &'static str>>,
    response: HyperResponse,
)
    requires
        call_ensures(route_outcome, (outcome,), response),
    ensures
        outcome matches Some(Ok(value)) ==> response == HyperResponse::Json(value),
        outcome matches Some(Err(err)) ==> response == HyperResponse::Json(string_value(err@)),
        outcome is None ==> response is NotFound,
{
}

/// What an actor answers is the outcome of its handler, and each way of not
/// answering has its text.
pub proof fn law_handler_tells_what_the_actor_did<R>(
    reply: Result<Option<R>, oneshot::error::RecvError>,
    outcome: Result<R, &'static str>,
)
    requires
        call_ensures(handle_outcome::<R>, (reply,), outcome),
    ensures
        reply matches Ok(Some(result)) ==> outcome == Ok::<R, &'static str>(result),
        reply matches Ok(None) ==> (outcome matches Err(err) && err@ == "Message was dropped"@),
        reply is Err ==> (outcome matches Err(err) && err@ == "Could not recv reply"@),
{
}

/// Asking over HTTP gives the result that was decoded, and otherwise that there was
/// no answer to receive, however far it came.
pub proof fn law_http_answer_is_the_result<R>(
    answer: HttpAnswer<R>,
    outcome: Result<R, MailboxAskError>,
)
    requires
        call_ensures(http_outcome::<R>, (answer,), outcome),
    ensures
        answer matches HttpAnswer::Decoded(result) ==> outcome == Ok::<R, MailboxAskError>(result),
        answer !is Decoded ==> (outcome matches Err(err) && err is CouldNotRecv),
{
}

/// The reply that makes a connection a websocket has three fields, each with one
/// value: that the connection is upgraded, to what, and the answer to the key.
pub proof fn law_websocket_reply_answers_the_key(request: HeaderMap, head: ReplyHead)
    requires
        fields(request).contains_key("sec-websocket-key"@),
        call_ensures(switch_protocols, (&request,), head),
    ensures
        head.status == 101,
        fields(head.headers)["connection"@] == seq![ascii("upgrade"@)],
        fields(head.headers)["upgrade"@] == seq![ascii("websocket"@)],
        fields(head.headers)["sec-websocket-accept"@] == seq![
            signature(fields(request)["sec-websocket-key"@][0]),
        ],
        forall|name: Seq<char>| #[trigger]
            fields(head.headers).contains_key(name) <==> (name == "connection"@ || name
                == "upgrade"@ || name == "sec-websocket-accept"@),
{
    reveal_strlit("connection");
    reveal_strlit("upgrade");
    reveal_strlit("sec-websocket-accept");
    assert("connection"@.len() == 10);
    assert("upgrade"@.len() == 7);
    assert("sec-websocket-accept"@.len() == 20);
}

/// Whoever names a protocol to upgrade to gets a websocket, and a reply just where
/// there is a key to answer. Any other request goes to the router.
pub proof fn law_upgrade_makes_a_websocket(request: HeaderMap, dispatched: Dispatch)
    requires
        call_ensures(dispatch, (&request,), dispatched),
    ensures
        dispatched is Route <==> !fields(request).contains_key("upgrade"@),
        dispatched matches Dispatch::Upgrade(head) ==> (head is Some <==> fields(
            request,
        ).contains_key("sec-websocket-key"@)),
        dispatched matches Dispatch::Upgrade(Some(head)) ==> head.status == 101 && fields(
            head.headers,
        )["sec-websocket-accept"@] == seq![
            signature(fields(request)["sec-websocket-key"@][0]),
        ],
{
    reveal_strlit("connection");
    reveal_strlit("upgrade");
    reveal_strlit("sec-websocket-accept");
}

} // verus!
