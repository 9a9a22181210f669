//! Serving actors over HTTP: a router that knows which actor answers which
//! path, what is replied to a request, and asking an actor that is served
//! somewhere else.
use std::marker::PhantomData;

use hyper::{HeaderMap, Uri};
use serde_json::Value;
use tokio_sync::oneshot;
use vstd::prelude::*;

use crate::actor::{Actor, ActorContext, Handle, Host, Message};
use crate::channel::Replied;
use crate::fields::{
    ascii, content_length, fields, has_upgrade, has_websocket_key, header_length, insert_accept,
    insert_connection_upgrade, insert_upgrade_websocket, no_fields, signature,
};
use crate::json::{
    is_plain, json_string, json_text, parse_json, parsed_json, string_value, write_json,
};
use crate::mailbox::{
    ask_outcome, ask_result, AskOnce, Asked, Envelope, Mailbox, MailboxAskError,
};
use crate::names::NameTable;
use crate::response::{answer, answered, Response, Spawner};

verus! {

/// The address on which actors are served.
pub const SERVE_ADDRESS: &'static str = "127.0.0.1:12345";

/// What is written to a connection once it has become a websocket.
pub const GREETING: &'static str = "HEEELEOOO";

/// The actor that knows which handler answers which path.
pub struct Router<K> {
    routes: NameTable<K>,
}

impl<K> Router<K> {
    /// The handlers by path.
    pub closed spec fn routes(self) -> Map<Seq<char>, K> {
        self.routes@
    }

    pub fn new() -> (router: Self)
        ensures
            router.routes() == Map::<Seq<char>, K>::empty(),
    {
        Router { routes: NameTable::new() }
    }
}

impl<K: Send + 'static> Actor for Router<K> {
    /// Goes on as before.
    fn supervisor_stopped<H: Host>(&mut self, cx: &mut ActorContext<H>) {
    }
}

/// Sets the handler for a path.
pub struct Serve<K>(pub String, pub K);

impl<K: Send + 'static> Message for Serve<K> {
    type Result = ();
}

impl<K: Send + 'static, H: Host> Handle<Serve<K>, H> for Router<K> {
    type Response = ();

    /// From now on the handler answers the path, in place of the one before.
    fn accept(&mut self, msg: Serve<K>, cx: &mut ActorContext<H>)
        ensures
            final(self).routes() == old(self).routes().insert(msg.0@, msg.1),
            *final(cx) == *old(cx),
    {
        self.routes.insert(msg.0.as_str(), msg.1);
    }
}

/// A request to a path, with a JSON value.
pub struct JsonMessage(pub String, pub Value);

/// What a request is answered with.
pub enum HyperResponse {
    /// Nobody answers the path.
    NotFound,
    /// What the handler of the path answered.
    Json(Value),
}

impl Message for JsonMessage {
    type Result = HyperResponse;
}

/// The answer to a request, which the handler of its path will give.
pub struct RouteResponse<K> {
    /// The handler, if somebody answers the path.
    pub handler: Option<K>,
    pub json: Value,
}

/// A request that waits for its handler.
#[verifier::reject_recursive_types(K)]
pub struct RouteTask<K> {
    /// The handler, if somebody answers the path.
    pub handler: Option<K>,
    pub json: Value,
    pub reply_to: Option<oneshot::Sender<Option<HyperResponse>>>,
}

/// Whether `handler` is what answers requests to `path`: a clone of the handler
/// for the path, if there is one.
pub open spec fn finds<K: Clone>(
    routes: Map<Seq<char>, K>,
    path: Seq<char>,
    handler: Option<K>,
) -> bool {
    match handler {
        Some(handler) => routes.contains_key(path) && cloned(routes[path], handler),
        None => !routes.contains_key(path),
    }
}

impl<K: Clone + Send + 'static, H: Host> Handle<JsonMessage, H> for Router<K> where
    H::System: Spawner<RouteTask<K>>,
 {
    type Response = RouteResponse<K>;

    /// Finds the handler for the path.
    fn accept(&mut self, msg: JsonMessage, cx: &mut ActorContext<H>) -> (response: RouteResponse<
        K,
    >)
        ensures
            *final(self) == *old(self),
            *final(cx) == *old(cx),
            response.json == msg.1,
            finds(old(self).routes(), msg.0@, response.handler),
    {
        let handler = match self.routes.get(msg.0.as_str()) {
            Some(handler) => Some(handler.clone()),
            None => None,
        };
        RouteResponse { handler, json: msg.1 }
    }
}

impl<K, S: Spawner<RouteTask<K>>> Response<HyperResponse, S> for RouteResponse<K> {
    /// Leaves the request to the system, together with the way back.
    fn handle(
        self,
        spawner: &mut S,
        reply_to: Option<oneshot::Sender<Option<HyperResponse>>>,
    ) -> (replied: Option<Replied<HyperResponse>>)
        ensures
            replied is None,
            exists|s: &mut S|
                *s == *old(spawner) && *final(s) == *final(spawner) && #[trigger] call_ensures(
                    S::spawn,
                    (s, RouteTask { handler: self.handler, json: self.json, reply_to }),
                    (),
                ),
    {
        spawner.spawn(RouteTask { handler: self.handler, json: self.json, reply_to });
        None
    }
}

/// What a request is answered with, given what its handler came to: the value
/// that it answered, or the text of its error as a JSON string. Without a
/// handler, the path was not found.
pub open spec fn routed(outcome: Option<Result<Value, Seq<char>>>) -> HyperResponse {
    match outcome {
        Some(Ok(value)) => HyperResponse::Json(value),
        Some(Err(err)) => HyperResponse::Json(string_value(err)),
        None => HyperResponse::NotFound,
    }
}

/// The outcome of a handler, with an error as its text.
pub open spec fn told(outcome: Result<Value, &str>) -> Result<Value, Seq<char>> {
    match outcome {
        Ok(value) => Ok(value),
        Err(err) => Err(err@),
    }
}

/// Makes the answer to a request out of what its handler came to. There is no
/// outcome where there is no handler.
pub fn route_outcome(outcome: Option<Result<Value, &'static str>>) -> (response: HyperResponse)
    ensures
        response == routed(
            match outcome {
                Some(outcome) => Some(told(outcome)),
                None => None,
            },
        ),
        outcome matches Some(Err(err)) ==> is_plain(err@) ==> (response matches HyperResponse::Json(
            json,
        ) && json_text(json) == seq!['"'] + err@ + seq!['"']),
{
    match outcome {
        Some(Ok(reply)) => HyperResponse::Json(reply),
        Some(Err(err)) => HyperResponse::Json(json_string(err.to_owned())),
        None => HyperResponse::NotFound,
    }
}

/// Answers a request, once its handler is done or where there is none.
pub fn complete_route(
    reply_to: Option<oneshot::Sender<Option<HyperResponse>>>,
    outcome: Option<Result<Value, &'static str>>,
) -> (replied: Option<Replied<HyperResponse>>)
    ensures
        answered(
            replied,
            reply_to,
            Some(
                routed(
                    match outcome {
                        Some(outcome) => Some(told(outcome)),
                        None => None,
                    },
                ),
            ),
        ),
{
    answer(reply_to, Some(route_outcome(outcome)))
}

/// What a request came to that was passed on to an actor: its result, or the
/// text of what went wrong.
pub open spec fn handled<R>(reply: Result<Option<R>, oneshot::error::RecvError>) -> Result<
    R,
    Seq<char>,
> {
    match reply {
        Ok(Some(result)) => Ok(result),
        Ok(None) => Err("Message was dropped"@),
        Err(_) => Err("Could not recv reply"@),
    }
}

/// Makes the result of a request out of what came back from the actor.
pub fn handle_outcome<R>(reply: Result<Option<R>, oneshot::error::RecvError>) -> (outcome: Result<
    R,
    &'static str,
>)
    ensures
        match outcome {
            Ok(result) => handled(reply) == Ok::<R, Seq<char>>(result),
            Err(err) => handled(reply) == Err::<R, Seq<char>>(err@),
        },
{
    match reply {
        Ok(Some(result)) => Ok(result),
        Ok(None) => Err("Message was dropped"),
        Err(_) => Err("Could not recv reply"),
    }
}

impl<H: Host> Mailbox<H> {
    /// Passes a request on to the actor.
    pub fn handle<M: Message>(&self, msg: M) -> (outcome: Result<
        Asked<M::Result, H::Envelope>,
        &'static str,
    >) where H::Envelope: From<Envelope<M>>
        ensures
            match outcome {
                Ok(asked) => call_ensures(Mailbox::<H>::ask_future::<M>, (self, msg), Ok(asked)),
                Err(err) => {
                    &&& err@ == "Could not send request"@
                    &&& call_ensures(
                        Mailbox::<H>::ask_future::<M>,
                        (self, msg),
                        Err(MailboxAskError::CouldNotSend),
                    )
                },
            },
    {
        match self.ask_future(msg) {
            Ok(asked) => Ok(asked),
            Err(_) => Err("Could not send request"),
        }
    }
}

/// Passes the JSON value of a request on to an actor, as the message that it was
/// decoded to. There is no message where it could not be decoded.
pub fn handle_json<M: Message, H: Host>(mailbox: &Mailbox<H>, decoded: Option<M>) -> (outcome:
    Result<Asked<M::Result, H::Envelope>, &'static str>) where H::Envelope: From<Envelope<M>>
    ensures
        match decoded {
            Some(msg) => call_ensures(Mailbox::<H>::handle::<M>, (mailbox, msg), outcome),
            None => outcome matches Err(err) && err@ == "Could not deserialize"@,
        },
{
    match decoded {
        Some(msg) => mailbox.handle(msg),
        None => Err("Could not deserialize"),
    }
}

/// Makes the outcome of a handler out of the result of the actor, encoded as
/// JSON. There is no value where it could not be encoded.
pub fn json_outcome(encoded: Result<Option<Value>, &'static str>) -> (outcome: Result<
    Value,
    &'static str,
>)
    ensures
        match encoded {
            Ok(Some(value)) => outcome == Ok::<Value, &'static str>(value),
            Ok(None) => outcome matches Err(err) && err@ == "Could not deserialize"@,
            Err(err) => outcome == Err::<Value, &'static str>(err),
        },
{
    match encoded {
        Ok(Some(value)) => Ok(value),
        Ok(None) => Err("Could not deserialize"),
        Err(err) => Err(err),
    }
}

/// The location of something served over HTTP.
#[verifier::external_type_specification]
#[verifier::external_body]
pub struct ExUri(Uri);

/// The path of a location, without the query.
pub uninterp spec fn path_of(uri: Uri) -> Seq<char>;

/// `hyper::Uri::path` gives the path of a location, which is empty where the
/// location has none.
#[verifier::external_body]
fn uri_path(uri: &Uri) -> (path: &str)
    ensures
        path@ == path_of(*uri),
{
    uri.path()
}

/// What the body of a request to `path` is taken for, given what was read of it
/// and the value that it holds: a message, or the text of what went wrong.
pub open spec fn body_message<E>(
    path: Seq<char>,
    body: Result<Vec<u8>, E>,
    message: Result<JsonMessage, &str>,
) -> bool {
    match body {
        Err(_) => message matches Err(err) && err@ == "Could not read body"@,
        Ok(bytes) => match parsed_json(bytes@) {
            Some(json) => message matches Ok(msg) && msg.0@ == path && msg.1 == json,
            None => message matches Err(err) && err@ == "Could not deserialize"@,
        },
    }
}

/// Makes the message of a request to `uri` out of its body.
pub fn deserialize_body<E>(uri: &Uri, body: Result<Vec<u8>, E>) -> (message: Result<
    JsonMessage,
    &'static str,
>)
    ensures
        body_message(path_of(*uri), body, message),
{
    match body {
        Ok(bytes) => message_outcome(uri_path(uri), parse_json(bytes.as_slice())),
        Err(_) => Err("Could not read body"),
    }
}

/// Makes the message of a request to `path` out of the JSON value of its body.
pub fn message_outcome(path: &str, json: Result<Value, serde_json::Error>) -> (message: Result<
    JsonMessage,
    &'static str,
>)
    ensures
        match json {
            Ok(value) => message matches Ok(msg) && msg.0@ == path@ && msg.1 == value,
            Err(_) => message matches Err(err) && err@ == "Could not deserialize"@,
        },
{
    match json {
        Ok(value) => Ok(JsonMessage(path.to_owned(), value)),
        Err(_) => Err("Could not deserialize"),
    }
}

/// What is sent back for a request.
pub struct HttpReply {
    pub status: u16,
    pub body: String,
}

/// What is sent back for a request, as its status and the text of its body,
/// given what became of the request: its message could not be read, or the
/// router did not answer, or it did.
pub open spec fn reply_to_request(
    routed: Result<Result<HyperResponse, MailboxAskError>, Seq<char>>,
) -> (int, Seq<char>) {
    match routed {
        Ok(Ok(HyperResponse::Json(json))) => (200, json_text(json)),
        Ok(Ok(HyperResponse::NotFound)) => (404, "No route"@),
        Ok(Err(_)) => (500, "Internal Server Error"@),
        Err(err) => (500, err),
    }
}

/// Makes what is sent back for a request out of what became of it.
pub fn serve_request(
    routed: Result<Result<HyperResponse, MailboxAskError>, &'static str>,
) -> (reply: HttpReply)
    ensures
        (reply.status as int, reply.body@) == reply_to_request(
            match routed {
                Ok(asked) => Ok(asked),
                Err(err) => Err(err@),
            },
        ),
{
    match routed {
        Ok(Ok(HyperResponse::Json(json))) => {
            HttpReply { status: 200, body: write_json(&json).unwrap() }
        },
        Ok(Ok(HyperResponse::NotFound)) => HttpReply { status: 404, body: "No route".to_owned() },
        Ok(Err(_)) => HttpReply { status: 500, body: "Internal Server Error".to_owned() },
        Err(err) => HttpReply { status: 500, body: err.to_owned() },
    }
}

/// Takes a request to `uri` up: passes its message on to the router, or makes
/// the reply at once where that cannot be done. The router is asked one time at
/// most, and not at all where the request has no message.
pub fn open_request<H: Host, E>(
    router: impl AskOnce<JsonMessage, H>,
    uri: &Uri,
    body: Result<Vec<u8>, E>,
) -> (step: Result<Asked<HyperResponse, H::Envelope>, HttpReply>) where
    H::Envelope: From<Envelope<JsonMessage>>,

    ensures
        exists|message: Result<JsonMessage, &'static str>| #[trigger]
            body_message(path_of(*uri), body, message) && match (message, step) {
                (Ok(msg), Ok(asked)) => call_ensures(
                    Mailbox::<H>::ask_future::<JsonMessage>,
                    (&router.mailbox(), msg),
                    Ok(asked),
                ),
                (Ok(msg), Err(reply)) => {
                    &&& call_ensures(
                        Mailbox::<H>::ask_future::<JsonMessage>,
                        (&router.mailbox(), msg),
                        Err(MailboxAskError::CouldNotSend),
                    )
                    &&& (reply.status as int, reply.body@) == reply_to_request(
                        Ok(Err(MailboxAskError::CouldNotSend)),
                    )
                },
                (Err(err), Ok(_)) => false,
                (Err(err), Err(reply)) => {
                    &&& has_resolved(router)
                    &&& (reply.status as int, reply.body@) == reply_to_request(Err(err@))
                },
            },
{
    match deserialize_body(uri, body) {
        Ok(msg) => match router.ask_once(msg) {
            Ok(asked) => Ok(asked),
            Err(err) => Err(serve_request(Ok(Err(err)))),
        },
        Err(err) => Err(serve_request(Err(err))),
    }
}

/// Makes the reply to a request out of what came back from the router.
pub fn close_request(reply: Result<Option<HyperResponse>, oneshot::error::RecvError>) -> (sent:
    HttpReply)
    ensures
        (sent.status as int, sent.body@) == reply_to_request(Ok(ask_result(reply))),
{
    serve_request(Ok(ask_outcome(reply)))
}

/// The body of a message, as far as it has come.
pub struct BodyCollector {
    buff: Vec<u8>,
    chunks: Ghost<Seq<Seq<u8>>>,
}

/// Whether the rest of a body is still to come, or what was read of it.
pub enum Collected<E> {
    More(BodyCollector),
    Done(Result<Vec<u8>, E>),
}

/// The number of bytes to make room for at first: the declared length, cut down
/// to the width of an address, or 512 where there is none.
pub open spec fn room(length: Option<u64>) -> usize {
    match length {
        Some(length) => length as usize,
        None => 512,
    }
}

/// The number of bytes to make room for at first.
pub fn first_room(length: Option<u64>) -> (capacity: usize)
    ensures
        capacity == room(length),
        match length {
            Some(n) => capacity == n as usize && (n <= usize::MAX ==> capacity == n),
            None => capacity == 512,
        },
{
    match length {
        Some(length) => #[verifier::truncate] (length as usize),
        None => 512,
    }
}

impl BodyCollector {
    /// The chunks that have come.
    pub closed spec fn chunks(self) -> Seq<Seq<u8>> {
        self.chunks@
    }

    #[verifier::type_invariant]
    spec fn holds_chunks(self) -> bool {
        self.buff@ == self.chunks@.flatten()
    }

    /// A body of which nothing has come. There must be room for the length that
    /// it is declared to have.
    pub fn new(length: Option<u64>) -> (body: Self)
        requires
            length matches Some(n) ==> n as usize <= isize::MAX,
        ensures
            body.chunks() == Seq::<Seq<u8>>::empty(),
    {
        BodyCollector { buff: Vec::with_capacity(first_room(length)), chunks: Ghost(Seq::empty()) }
    }

    /// A body of which nothing has come, with room for the length that its header
    /// declares. There is none where memory cannot hold so much.
    pub fn from_headers(headers: &HeaderMap) -> (body: Option<Self>)
        ensures
            match body {
                Some(body) => {
                    &&& room(header_length(*headers)) <= isize::MAX
                    &&& body.chunks() == Seq::<Seq<u8>>::empty()
                },
                None => room(header_length(*headers)) > isize::MAX,
            },
            match header_length(*headers) {
                Some(n) => {
                    &&& body is Some <==> n as usize <= isize::MAX
                    &&& n <= isize::MAX ==> body is Some
                    &&& isize::MAX < n <= usize::MAX ==> body is None
                },
                None => body is Some,
            },
    {
        let length: Option<u64> = content_length(headers);
        if first_room(length) <= isize::MAX as usize {
            Some(BodyCollector::new(length))
        } else {
            None
        }
    }

    /// Takes what comes next: another chunk, or a failure to read, or the end of
    /// the body.
    pub fn next<E>(self, next: Option<Result<&[u8], E>>) -> (collected: Collected<E>)
        ensures
            match next {
                Some(Ok(chunk)) => collected matches Collected::More(body) && body.chunks()
                    == self.chunks().push(chunk@),
                Some(Err(err)) => collected == Collected::<E>::Done(Err(err)),
                None => collected matches Collected::Done(Ok(bytes)) && bytes@
                    == self.chunks().flatten(),
            },
    {
        proof {
            use_type_invariant(&self);
        }
        match next {
            Some(Ok(chunk)) => {
                let ghost chunks: Seq<Seq<u8>> = self.chunks@.push(chunk@);
                let ghost earlier: Seq<u8> = self.buff@;
                let mut buff = self.buff;
                buff.extend_from_slice(chunk);
                proof {
                    self.chunks@.lemma_flatten_push(chunk@);
                    assert(buff@ =~= earlier + chunk@);
                }
                Collected::More(BodyCollector { buff, chunks: Ghost(chunks) })
            },
            Some(Err(err)) => Collected::Done(Err(err)),
            None => Collected::Done(Ok(self.buff)),
        }
    }
}

/// The head of a reply.
pub struct ReplyHead {
    pub status: u16,
    pub headers: HeaderMap,
}

/// The header fields of the reply that makes a connection a websocket, in answer
/// to the key of the request.
pub open spec fn switching_fields(request: HeaderMap) -> Map<Seq<char>, Seq<Seq<u8>>> {
    map![
        "connection"@ => seq![ascii("upgrade"@)],
        "upgrade"@ => seq![ascii("websocket"@)],
        "sec-websocket-accept"@ => seq![signature(fields(request)["sec-websocket-key"@][0])],
    ]
}

/// The reply that makes a connection a websocket. The request must have a key
/// to answer.
pub fn switch_protocols(request: &HeaderMap) -> (head: ReplyHead)
    requires
        fields(*request).contains_key("sec-websocket-key"@),
    ensures
        head.status == 101,
        fields(head.headers) == switching_fields(*request),
{
    let mut headers = no_fields();
    insert_connection_upgrade(&mut headers);
    insert_upgrade_websocket(&mut headers);
    insert_accept(&mut headers, request);
    ReplyHead { status: 101, headers }
}

/// What to do about a request.
pub enum Dispatch {
    /// Make the connection a websocket. The reply is that to the key of the
    /// request, if it has one.
    Upgrade(Option<ReplyHead>),
    /// Read the body and pass the request on to the router.
    Route,
}

/// Decides by the header of a request what to do about it: whoever names a
/// protocol to upgrade to gets a websocket.
pub fn dispatch(request: &HeaderMap) -> (dispatch: Dispatch)
    ensures
        match dispatch {
            Dispatch::Upgrade(head) => {
                &&& fields(*request).contains_key("upgrade"@)
                &&& match head {
                    Some(head) => {
                        &&& fields(*request).contains_key("sec-websocket-key"@)
                        &&& head.status == 101
                        &&& fields(head.headers) == switching_fields(*request)
                    },
                    None => !fields(*request).contains_key("sec-websocket-key"@),
                }
            },
            Dispatch::Route => !fields(*request).contains_key("upgrade"@),
        },
{
    if has_upgrade(request) {
        if has_websocket_key(request) {
            Dispatch::Upgrade(Some(switch_protocols(request)))
        } else {
            Dispatch::Upgrade(None)
        }
    } else {
        Dispatch::Route
    }
}

/// The location that `hyper::Uri` is parsed to from a text, if the text is one.
pub uninterp spec fn parsed_uri(text: Seq<char>) -> Option<Uri>;

/// Parsing a string as a `hyper::Uri` gives the location that it names. It fails
/// on a text that is none.
#[verifier::external_body]
fn parse_uri(text: &str) -> (uri: Option<Uri>)
    ensures
        uri == parsed_uri(text@),
{
    text.parse::<Uri>().ok()
}

/// The way to an actor that is served somewhere else and takes messages of type
/// `M`.
pub struct HttpMailbox<M: Message> {
    uri: Uri,
    message: PhantomData<M>,
}

/// A request to be made over HTTP.
pub struct HttpRequest<'a> {
    pub method: &'static str,
    pub uri: &'a Uri,
    pub body: String,
}

/// How far asking over HTTP came.
pub enum HttpAnswer<R> {
    /// There was no response.
    NoResponse,
    /// The body of the response could not be read.
    NoBody,
    /// The body of the response could not be decoded.
    Undecoded,
    /// The result in the body of the response.
    Decoded(R),
}

impl<M: Message> HttpMailbox<M> {
    /// Where the actor is served.
    pub closed spec fn uri(self) -> Uri {
        self.uri
    }

    /// The way to the actor that is served at `path`, if that is a location.
    pub fn new_at(path: &str) -> (mailbox: Option<Self>)
        ensures
            match mailbox {
                Some(mailbox) => parsed_uri(path@) == Some(mailbox.uri()),
                None => parsed_uri(path@) is None,
            },
    {
        Self::at(parse_uri(path))
    }

    /// The way to the actor that is served at a location, if there is one.
    pub fn at(uri: Option<Uri>) -> (mailbox: Option<Self>)
        ensures
            match uri {
                Some(uri) => mailbox matches Some(mailbox) && mailbox.uri() == uri,
                None => mailbox is None,
            },
    {
        match uri {
            Some(uri) => Some(HttpMailbox { uri, message: PhantomData }),
            None => None,
        }
    }

    /// The one request that asking with a message makes: the JSON text of the
    /// message is posted to where the actor is served.
    pub fn request(&self, json: String) -> (request: HttpRequest<'_>)
        ensures
            request.method@ == "POST"@,
            *request.uri == self.uri(),
            request.body == json,
    {
        HttpRequest { method: "POST", uri: &self.uri, body: json }
    }
}

/// What asking over HTTP comes to: the result, or, whatever went wrong, that there
/// was no answer to receive.
pub open spec fn http_result<R>(answer: HttpAnswer<R>) -> Result<R, MailboxAskError> {
    match answer {
        HttpAnswer::Decoded(result) => Ok(result),
        HttpAnswer::NoResponse => Err(MailboxAskError::CouldNotRecv),
        HttpAnswer::NoBody => Err(MailboxAskError::CouldNotRecv),
        HttpAnswer::Undecoded => Err(MailboxAskError::CouldNotRecv),
    }
}

/// Makes the result of asking over HTTP out of how far it came.
pub fn http_outcome<R>(answer: HttpAnswer<R>) -> (outcome: Result<R, MailboxAskError>)
    ensures
        outcome == http_result(answer),
{
    match answer {
        HttpAnswer::Decoded(result) => Ok(result),
        HttpAnswer::NoResponse | HttpAnswer::NoBody | HttpAnswer::Undecoded => {
            Err(MailboxAskError::CouldNotRecv)
        },
    }
}

} // verus!
