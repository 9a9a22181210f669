//! Serving actors over HTTP.
use std::sync::Arc;

use actress::actor::Host;
use actress::channel::{Polled, ReplyPort};
use actress::http::{
    close_request, complete_route, deserialize_body, dispatch, first_room, handle_json, handle_outcome, http_outcome,
    json_outcome, message_outcome, open_request, route_outcome, serve_request, switch_protocols, BodyCollector,
    Collected, Dispatch, HttpAnswer, HttpMailbox, HyperResponse, JsonMessage, RouteResponse, RouteTask, GREETING,
    SERVE_ADDRESS,
};
use actress::internal_handlers::SupervisedBy;
use actress::mailbox::{ask_outcome, Envelope, Lessor, MailboxAskError};
use actress::names::NameTable;
use actress::response::{Response, Spawner};
use actress::system::ActorBundle;
use actress::system_context::{Spawn, SystemContext};
use actress::{Actor, Mailbox, Message};
use futures::executor::block_on;
use futures::task::{noop_waker_ref, Context};
use hyper::header::{HeaderMap, HeaderValue};
use hyper::Uri;
use serde_json::Value;

fn null() -> Value {
    Value::Null
}

fn uri(text: &str) -> Uri {
    text.parse().unwrap()
}

fn text_of(response: HyperResponse) -> String {
    match response {
        HyperResponse::Json(json) => json.to_string(),
        HyperResponse::NotFound => panic!("not found"),
    }
}

struct Server;

impl Actor for Server {}

/// Counts the mailboxes of one actor.
#[derive(Default)]
struct Counter(Arc<()>);

impl Lessor for Counter {
    type Lease = Arc<()>;

    fn lease(&self) -> Arc<()> {
        Arc::clone(&self.0)
    }

    fn is_held(&self) -> bool {
        Arc::strong_count(&self.0) > 1
    }
}

/// A worker that nobody has.
struct NoChild;

impl SupervisedBy for NoChild {
    type Notice = ();

    fn notify_supervisor_stopped(&self) {}
}

/// Takes requests.
struct Front;

impl Host for Front {
    type Envelope = Envelope<JsonMessage>;
    type Listeners = ();
    type ListenersRef = ();
    type Lessor = Counter;
    type Child = NoChild;
    type System = ();
    type Supervisor = ();
}

fn server() -> (Mailbox<Front>, ActorBundle<Server, Front>) {
    let spawn = Spawn { system: (), listeners: (), listeners_ref: (), lessor: Counter::default() };
    SystemContext::<()>::new().spawn_actor(Server, spawn, None).unwrap()
}

fn request(server: &mut ActorBundle<Server, Front>) -> Envelope<JsonMessage> {
    let mut cx = Context::from_waker(noop_waker_ref());
    match server.poll_queue(&mut cx) {
        Polled::Message(envelope) => envelope,
        _ => panic!("no request"),
    }
}

#[test]
fn names_are_unique() {
    let mut table = NameTable::new();
    table.insert("a", 1);
    table.insert("b", 2);
    table.insert("a", 3);
    assert_eq!(table.len(), 2);
    assert_eq!(table.get("a"), Some(&3));
    assert_eq!(table.get("b"), Some(&2));
    assert_eq!(table.get("c"), None);
    assert_eq!((*table.value_at(0), *table.value_at(1)), (3, 2));
}

#[derive(Default)]
struct Tasks(Vec<RouteTask<u8>>);

impl Spawner<RouteTask<u8>> for Tasks {
    fn spawn(&mut self, task: RouteTask<u8>) {
        self.0.push(task);
    }
}

#[test]
fn routed_request_is_left_to_the_system() {
    let mut tasks = Tasks::default();
    let (tx, port) = ReplyPort::open();
    let response = RouteResponse { handler: Some(4u8), json: Value::Bool(true) };
    assert!(response.handle(&mut tasks, Some(tx)).is_none());
    let task = tasks.0.pop().unwrap();
    assert_eq!(task.handler, Some(4));
    assert_eq!(task.json, Value::Bool(true));
    let receipt = complete_route(task.reply_to, Some(Ok(Value::from(17))));
    assert!(receipt.unwrap().is_delivered());
    match ask_outcome(block_on(port.into_receiver())) {
        Ok(response) => assert_eq!(text_of(response), "17"),
        Err(_) => panic!("no answer"),
    }
}

#[test]
fn outcome_of_a_handler_is_the_response() {
    assert_eq!(text_of(route_outcome(Some(Ok(Value::from(5))))), "5");
    assert_eq!(text_of(route_outcome(Some(Err("Message was dropped")))), "\"Message was dropped\"");
    assert!(matches!(route_outcome(None), HyperResponse::NotFound));
}

#[test]
fn result_of_the_actor_is_the_outcome() {
    let (tx, port) = ReplyPort::<u8>::open();
    drop(tx);
    let gone = block_on(port.into_receiver());
    assert_eq!(handle_outcome(gone), Err("Could not recv reply"));
    assert_eq!(handle_outcome::<u8>(Ok(Some(3))), Ok(3));
    assert_eq!(handle_outcome::<u8>(Ok(None)), Err("Message was dropped"));
}

#[test]
fn undecoded_request_is_not_passed_on() {
    let (mailbox, mut server) = server();
    assert!(matches!(handle_json::<JsonMessage, Front>(&mailbox, None), Err("Could not deserialize")));
    let mut cx = Context::from_waker(noop_waker_ref());
    assert!(matches!(server.poll_queue(&mut cx), Polled::Pending));
}

#[test]
fn decoded_request_is_passed_on() {
    let (mailbox, mut server) = server();
    let asked = handle_json(&mailbox, Some(JsonMessage("/foo".to_owned(), null()))).ok().unwrap();
    let envelope = request(&mut server);
    assert_eq!(envelope.msg.0, "/foo");
    complete_route(envelope.reply, None);
    let outcome = handle_outcome(block_on(asked.reply.into_receiver()));
    assert!(matches!(outcome, Ok(HyperResponse::NotFound)));
}

#[test]
fn request_to_a_stopped_actor_is_not_sent() {
    let (mailbox, mut server) = server();
    drop(server.close_and_stop());
    let outcome = mailbox.handle(JsonMessage("/foo".to_owned(), null()));
    assert!(matches!(outcome, Err("Could not send request")));
}

#[test]
fn encoded_result_is_the_outcome() {
    assert_eq!(json_outcome(Ok(Some(Value::from(1)))), Ok(Value::from(1)));
    assert_eq!(json_outcome(Ok(None)), Err("Could not deserialize"));
    assert_eq!(json_outcome(Err("Message was dropped")), Err("Message was dropped"));
}

#[test]
fn body_is_deserialized() {
    let body: Result<Vec<u8>, ()> = Ok(b"{\"x\": [1, 2]}".to_vec());
    let message = deserialize_body(&uri("http://localhost/foo?x=1"), body).ok().unwrap();
    assert_eq!(message.0, "/foo");
    assert_eq!(message.1.to_string(), "{\"x\":[1,2]}");
    assert!(matches!(deserialize_body::<()>(&uri("/foo"), Ok(b"{".to_vec())), Err("Could not deserialize")));
    assert!(matches!(deserialize_body::<()>(&uri("/foo"), Ok(Vec::new())), Err("Could not deserialize")));
    assert!(matches!(deserialize_body::<u8>(&uri("/foo"), Err(3)), Err("Could not read body")));
}

#[test]
fn parsed_body_is_the_message() {
    let message = message_outcome("/bar", serde_json::from_slice(b"true")).ok().unwrap();
    assert_eq!((message.0.as_str(), message.1), ("/bar", Value::Bool(true)));
    assert!(matches!(message_outcome("/bar", serde_json::from_slice(b"tru")), Err("Could not deserialize")));
}

#[test]
fn replies_tell_what_became_of_a_request() {
    let reply = serve_request(Ok(Ok(HyperResponse::Json(Value::from("hej")))));
    assert_eq!((reply.status, reply.body.as_str()), (200, "\"hej\""));
    let reply = serve_request(Ok(Ok(HyperResponse::NotFound)));
    assert_eq!((reply.status, reply.body.as_str()), (404, "No route"));
    let reply = serve_request(Ok(Err(MailboxAskError::CouldNotSend)));
    assert_eq!((reply.status, reply.body.as_str()), (500, "Internal Server Error"));
    let reply = serve_request(Err("Could not read body"));
    assert_eq!((reply.status, reply.body.as_str()), (500, "Could not read body"));
}

#[test]
fn request_is_opened_and_closed() {
    let (mailbox, mut server) = server();
    let asked = open_request::<Front, ()>(&mailbox, &uri("/foo?x=1"), Ok(b"3".to_vec())).ok().unwrap();
    let envelope = request(&mut server);
    assert_eq!((envelope.msg.0.as_str(), envelope.msg.1), ("/foo", Value::from(3)));
    complete_route(envelope.reply, Some(Err("Could not deserialize")));
    let reply = close_request(block_on(asked.reply.into_receiver()));
    assert_eq!((reply.status, reply.body.as_str()), (200, "\"Could not deserialize\""));
}

#[test]
fn bad_request_is_refused() {
    let (mailbox, _server) = server();
    let reply = open_request::<Front, ()>(&mailbox, &uri("/foo?x=1"), Ok(b"x".to_vec())).err().unwrap();
    assert_eq!((reply.status, reply.body.as_str()), (500, "Could not deserialize"));
    let reply = open_request::<Front, ()>(&mailbox, &uri("/foo?x=1"), Err(())).err().unwrap();
    assert_eq!((reply.status, reply.body.as_str()), (500, "Could not read body"));
}

#[test]
fn request_without_a_router_is_an_error() {
    let (mailbox, mut server) = server();
    drop(server.close_and_stop());
    let reply = open_request::<Front, ()>(&mailbox, &uri("/foo?x=1"), Ok(b"1".to_vec())).err().unwrap();
    assert_eq!((reply.status, reply.body.as_str()), (500, "Internal Server Error"));
    assert_eq!(close_request(Ok(None)).status, 500);
}

fn collect(chunks: Vec<&[u8]>) -> Vec<u8> {
    let mut body = BodyCollector::new(Some(4));
    for chunk in chunks {
        body = match body.next::<()>(Some(Ok(chunk))) {
            Collected::More(body) => body,
            Collected::Done(_) => panic!("not the end"),
        };
    }
    match body.next::<()>(None) {
        Collected::Done(Ok(bytes)) => bytes,
        _ => panic!("the end"),
    }
}

#[test]
fn body_is_what_the_chunks_hold() {
    assert_eq!(collect(vec![b"ab", b"", b"cde"]), b"abcde".to_vec());
    assert_eq!(collect(vec![b"abcde"]), b"abcde".to_vec());
    assert_eq!(collect(vec![]), Vec::<u8>::new());
}

#[test]
fn unreadable_body_is_an_error() {
    let body = BodyCollector::new(None);
    assert!(matches!(body.next(Some(Err("lost"))), Collected::Done(Err("lost"))));
}

#[test]
fn room_is_made_for_the_declared_length() {
    assert_eq!(first_room(Some(1000)), 1000);
    assert_eq!(first_room(Some(0)), 0);
    assert_eq!(first_room(None), 512);
}

fn headers(fields: Vec<(&'static str, &'static str)>) -> HeaderMap {
    let mut map = HeaderMap::new();
    for (name, value) in fields {
        map.append(name, HeaderValue::from_static(value));
    }
    map
}

#[test]
fn absurd_length_has_no_room() {
    assert!(BodyCollector::from_headers(&headers(vec![])).is_some());
    assert!(BodyCollector::from_headers(&headers(vec![("content-length", "100")])).is_some());
    let absurd = headers(vec![("content-length", "18446744073709551615")]);
    assert!(BodyCollector::from_headers(&absurd).is_none());
    let nonsense = headers(vec![("content-length", "18446744073709551616")]);
    assert!(BodyCollector::from_headers(&nonsense).is_some());
    let disagreeing = headers(vec![("content-length", "18446744073709551615"), ("content-length", "5")]);
    assert!(BodyCollector::from_headers(&disagreeing).is_some());
}

#[test]
fn upgrade_is_told_by_the_header() {
    assert!(matches!(dispatch(&headers(vec![])), Dispatch::Route));
    assert!(matches!(dispatch(&headers(vec![("content-length", "1")])), Dispatch::Route));
    assert!(matches!(dispatch(&headers(vec![("sec-websocket-key", "x")])), Dispatch::Route));
    assert!(matches!(dispatch(&headers(vec![("upgrade", "anything")])), Dispatch::Upgrade(None)));
}

#[test]
fn key_is_answered_with_its_signature() {
    let request = headers(vec![
        ("upgrade", "websocket"),
        ("sec-websocket-key", "dGhlIHNhbXBsZSBub25jZQ=="),
        ("sec-websocket-key", "another"),
    ]);
    let dispatched = match dispatch(&request) {
        Dispatch::Upgrade(Some(head)) => head,
        _ => panic!("no key"),
    };
    for head in vec![dispatched, switch_protocols(&request)] {
        assert_eq!(head.status, 101);
        assert_eq!(head.headers.len(), 3);
        assert_eq!(head.headers["connection"], "upgrade");
        assert_eq!(head.headers["upgrade"], "websocket");
        assert_eq!(head.headers["sec-websocket-accept"], "s3pPLMBiTxaQ9kYGzzhZRbK+xOo=");
    }
}

/// Asks for a number.
struct Ask;

impl Message for Ask {
    type Result = u64;
}

#[test]
fn mailbox_is_at_a_location() {
    let mailbox = HttpMailbox::<Ask>::new_at("http://localhost:12345/foo?x=1").unwrap();
    let request = mailbox.request("[1]".to_owned());
    assert_eq!((request.method, request.body.as_str()), ("POST", "[1]"));
    assert_eq!(*request.uri, uri("http://localhost:12345/foo?x=1"));
    assert!(HttpMailbox::<Ask>::new_at("").is_none());
    assert!(HttpMailbox::<Ask>::new_at("http://no spaces").is_none());
    assert!(HttpMailbox::<Ask>::at(None).is_none());
    let mailbox = HttpMailbox::<Ask>::at("/foo".parse().ok()).unwrap();
    assert_eq!(mailbox.request(String::new()).uri.path(), "/foo");
}

#[test]
fn asking_over_http_comes_to_an_answer() {
    assert!(matches!(http_outcome(HttpAnswer::Decoded(3)), Ok(3)));
    for answer in vec![HttpAnswer::<u8>::NoResponse, HttpAnswer::NoBody, HttpAnswer::Undecoded] {
        assert!(matches!(http_outcome(answer), Err(MailboxAskError::CouldNotRecv)));
    }
}

#[test]
fn service_has_an_address_and_a_greeting() {
    assert_eq!(SERVE_ADDRESS, "127.0.0.1:12345");
    assert_eq!(GREETING, "HEEELEOOO");
}
