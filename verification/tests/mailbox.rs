//! Mailboxes, envelopes, answers and listeners.
use std::sync::atomic::{AtomicUsize, Ordering};
use std::sync::Arc;

use actress::actor::{ActorState, BacklogPolicy, Host};
use actress::channel::{post, Inbox, Polled, Replied, ReplyPort};
use actress::internal_handlers::SupervisedBy;
use actress::mailbox::{
    ask_outcome, Envelope, EnvelopeProxy, Lessor, ListenerTable, MailboxAskError, MailboxSendError,
    PeekGrab, Reject,
};
use actress::response::{answer, PendingReply, Response, Spawner};
use actress::system::ActorBundle;
use actress::system_context::{Spawn, SystemContext};
use actress::{Actor, ActorContext, AsyncResponse, Handle, Mailbox, Message, SyncResponse};
use futures::executor::block_on;
use futures::future::{ready, Ready};
use futures::task::{noop_waker_ref, Context};

/// Adds a number to the sum, and answers the sum.
struct Add(u64);

impl Message for Add {
    type Result = u64;
}

/// Answers a text later.
struct Later(&'static str);

impl Message for Later {
    type Result = String;
}

struct Summer {
    sum: u64,
}

impl Actor for Summer {
    fn backlog_policy(&self) -> BacklogPolicy {
        BacklogPolicy::Reject
    }
}

impl Handle<Add, Kit> for Summer {
    type Response = u64;

    fn accept(&mut self, msg: Add, _cx: &mut ActorContext<Kit>) -> u64 {
        self.sum += msg.0;
        self.sum
    }
}

impl Handle<Later, Kit> for Summer {
    type Response = AsyncResponse<Later, Ready<String>>;

    fn accept(&mut self, msg: Later, _cx: &mut ActorContext<Kit>) -> Self::Response {
        AsyncResponse::from_future(ready(msg.0.to_owned()))
    }
}

/// Keeps the tasks that it is given.
#[derive(Default)]
struct Tasks {
    later: Vec<PendingReply<Later, Ready<String>>>,
}

impl Spawner<PendingReply<Later, Ready<String>>> for Tasks {
    fn spawn(&mut self, task: PendingReply<Later, Ready<String>>) {
        self.later.push(task);
    }
}

enum AnyMessage {
    Add(Envelope<Add>),
    Later(Envelope<Later>),
}

impl From<Envelope<Add>> for AnyMessage {
    fn from(envelope: Envelope<Add>) -> Self {
        AnyMessage::Add(envelope)
    }
}

impl From<Envelope<Later>> for AnyMessage {
    fn from(envelope: Envelope<Later>) -> Self {
        AnyMessage::Later(envelope)
    }
}

impl Reject for AnyMessage {
    type Receipt = ();

    fn reject(self) {
        match self {
            AnyMessage::Add(envelope) => drop(envelope.reject()),
            AnyMessage::Later(envelope) => drop(envelope.reject()),
        }
    }
}

impl EnvelopeProxy<ActorBundle<Summer, Kit>> for AnyMessage {
    fn accept(self, actor: &mut ActorBundle<Summer, Kit>) {
        match self {
            AnyMessage::Add(envelope) => drop(envelope.accept(actor)),
            AnyMessage::Later(envelope) => drop(envelope.accept(actor)),
        }
    }
}

/// Counts the mailboxes of one actor.
#[derive(Default)]
struct Counter(Arc<()>);

impl Lessor for Counter {
    type Lease = Arc<()>;

    fn lease(&self) -> Arc<()> {
        Arc::clone(&self.0)
    }

    fn is_held(&self) -> bool {
        Arc::strong_count(&self.0) > 1
    }
}

/// A worker that nobody has.
struct NoChild;

impl SupervisedBy for NoChild {
    type Notice = ();

    fn notify_supervisor_stopped(&self) {}
}

struct Kit;

impl Host for Kit {
    type Envelope = AnyMessage;
    type Listeners = ();
    type ListenersRef = &'static str;
    type Lessor = Counter;
    type Child = NoChild;
    type System = Tasks;
    type Supervisor = ();
}

type Listener = PeekGrab<Box<dyn Fn(&Add)>, Box<dyn Fn(Add) -> Add>, Box<dyn Fn(Add) -> u64>>;

fn summer() -> (Mailbox<Kit>, ActorBundle<Summer, Kit>) {
    let mut context = SystemContext::<()>::new();
    let spawn = Spawn { system: Tasks::default(), listeners: (), listeners_ref: "here", lessor: Counter::default() };
    context.spawn_actor(Summer { sum: 0 }, spawn, None).unwrap()
}

fn next(bundle: &mut ActorBundle<Summer, Kit>) -> Polled<AnyMessage> {
    let mut cx = Context::from_waker(noop_waker_ref());
    bundle.poll_queue(&mut cx)
}

#[test]
fn sent_message_comes_out_of_the_queue() {
    let (mailbox, mut bundle) = summer();
    assert!(matches!(next(&mut bundle), Polled::Pending));
    assert!(mailbox.send(Add(7)).is_ok());
    match next(&mut bundle) {
        Polled::Message(AnyMessage::Add(envelope)) => {
            assert_eq!(envelope.msg.0, 7);
            assert!(envelope.reply.is_none());
        }
        _ => panic!("no message"),
    }
    assert!(matches!(next(&mut bundle), Polled::Pending));
}

#[test]
fn queue_keeps_the_order() {
    let (mailbox, mut bundle) = summer();
    for value in 0..10 {
        assert!(mailbox.send(Add(value)).is_ok());
    }
    for value in 0..10 {
        match next(&mut bundle) {
            Polled::Message(AnyMessage::Add(envelope)) => assert_eq!(envelope.msg.0, value),
            _ => panic!("no message"),
        }
    }
}

#[test]
fn send_fails_once_the_queue_is_closed() {
    let (mailbox, mut bundle) = summer();
    drop(bundle.close_and_stop());
    assert!(matches!(mailbox.send(Add(1)), Err(MailboxSendError::CouldNotSend)));
    assert!(matches!(mailbox.ask_future(Add(1)), Err(MailboxAskError::CouldNotSend)));
}

#[test]
fn closed_queue_can_still_be_read() {
    let (tx, inbox) = Inbox::<u8>::open();
    assert!(post(&tx, 1).is_ok());
    let queue = inbox.close();
    assert!(post(&tx, 2).is_err());
    let mut rest = queue.into_rest();
    let mut cx = Context::from_waker(noop_waker_ref());
    assert!(matches!(rest.poll_recv(&mut cx), std::task::Poll::Ready(Some(1))));
    assert!(matches!(rest.poll_recv(&mut cx), std::task::Poll::Ready(None)));
}

#[test]
fn queue_closes_when_all_mailboxes_are_gone() {
    let (tx, mut inbox) = Inbox::<u8>::open();
    let mut cx = Context::from_waker(noop_waker_ref());
    assert!(matches!(inbox.poll(&mut cx), Polled::Pending));
    drop(tx);
    assert!(matches!(inbox.poll(&mut cx), Polled::Closed));
}

#[test]
fn asked_message_is_answered() {
    let (mailbox, mut bundle) = summer();
    let first = mailbox.ask_future(Add(3)).ok().unwrap();
    let second = mailbox.ask_future(Add(4)).ok().unwrap();
    for _ in 0..2 {
        match next(&mut bundle) {
            Polled::Message(message) => message.accept(&mut bundle),
            _ => panic!("no message"),
        }
    }
    assert_eq!(bundle.actor.sum, 7);
    assert!(matches!(ask_outcome(block_on(first.reply.into_receiver())), Ok(3)));
    assert!(matches!(ask_outcome(block_on(second.reply.into_receiver())), Ok(7)));
}

#[test]
fn asking_waits_for_the_answer() {
    let (mailbox, mut bundle) = summer();
    let outcome = mailbox.ask(Add(3), |rx| {
        match next(&mut bundle) {
            Polled::Message(message) => message.accept(&mut bundle),
            _ => panic!("no message"),
        }
        block_on(rx)
    });
    assert!(matches!(outcome, Ok(3)));
    assert!(matches!(mailbox.ask(Add(3), |_rx| Ok(None)), Err(MailboxAskError::MessageDropped)));
    let outcome = mailbox.ask(Add(3), |rx| {
        drop(next(&mut bundle));
        drop(next(&mut bundle));
        block_on(rx)
    });
    assert!(matches!(outcome, Err(MailboxAskError::CouldNotRecv)));
    drop(bundle.close_and_stop());
    let outcome = mailbox.ask(Add(3), |_rx| panic!("nothing to wait for"));
    assert!(matches!(outcome, Err(MailboxAskError::CouldNotSend)));
}

#[test]
fn own_mailbox_leads_to_the_actor() {
    let (mailbox, mut bundle) = summer();
    let own = bundle.inner.mailbox();
    assert_eq!((own.id(), own.listeners), (mailbox.id(), "here"));
    drop(mailbox);
    assert!(bundle.inner.home.lessor.is_held());
    assert!(own.send(Add(1)).is_ok());
    drop(own);
    assert!(!bundle.inner.home.lessor.is_held());
    assert!(matches!(next(&mut bundle), Polled::Message(_)));
}

#[test]
fn rejected_message_was_dropped() {
    let (mailbox, mut bundle) = summer();
    let asked = mailbox.ask_future(Add(3)).ok().unwrap();
    match next(&mut bundle) {
        Polled::Message(message) => message.reject(),
        _ => panic!("no message"),
    }
    assert_eq!(bundle.actor.sum, 0);
    let outcome = ask_outcome(block_on(asked.reply.into_receiver()));
    assert!(matches!(outcome, Err(MailboxAskError::MessageDropped)));
}

#[test]
fn forgotten_message_gets_no_reply() {
    let (mailbox, bundle) = summer();
    let asked = mailbox.ask_future(Add(3)).ok().unwrap();
    drop(bundle);
    let outcome = ask_outcome(block_on(asked.reply.into_receiver()));
    assert!(matches!(outcome, Err(MailboxAskError::CouldNotRecv)));
}

#[test]
fn copy_leads_to_the_same_actor() {
    let (mailbox, mut bundle) = summer();
    let copy = mailbox.copy();
    assert_eq!(copy.id(), mailbox.id());
    assert_eq!(copy.listeners, "here");
    assert!(copy.send(Add(5)).is_ok());
    assert!(matches!(next(&mut bundle), Polled::Message(AnyMessage::Add(_))));
    assert_eq!(bundle.inner.mailbox().id(), mailbox.id());
}

#[test]
fn sent_message_is_not_answered() {
    let (_mailbox, mut bundle) = summer();
    let receipt = Envelope::new(Add(2)).accept(&mut bundle);
    assert!(receipt.is_none());
    assert_eq!(bundle.actor.sum, 2);
    assert!(Envelope::new(Add(2)).reject().is_none());
    assert_eq!(bundle.actor.sum, 2);
}

#[test]
fn peeked_message_reaches_the_actor_unchanged() {
    let (_mailbox, mut bundle) = summer();
    let seen = Arc::new(AtomicUsize::new(0));
    let counter = Arc::clone(&seen);
    let listener: Listener = PeekGrab::Peek(Box::new(move |msg: &Add| {
        counter.fetch_add(msg.0 as usize, Ordering::SeqCst);
    }));
    let (tx, port) = ReplyPort::open();
    let receipt = Envelope::with_reply(Add(6), tx).accept_with(&mut bundle, Some(&listener));
    assert!(receipt.unwrap().is_delivered());
    assert_eq!(seen.load(Ordering::SeqCst), 6);
    assert_eq!(bundle.actor.sum, 6);
    assert!(matches!(ask_outcome(block_on(port.into_receiver())), Ok(6)));
}

#[test]
fn altered_message_reaches_the_actor() {
    let (_mailbox, mut bundle) = summer();
    let listener: Listener = PeekGrab::Alter(Box::new(|msg: Add| Add(msg.0 + 1)));
    let (tx, port) = ReplyPort::open();
    Envelope::with_reply(Add(6), tx).accept_with(&mut bundle, Some(&listener));
    assert_eq!(bundle.actor.sum, 7);
    assert!(matches!(ask_outcome(block_on(port.into_receiver())), Ok(7)));
}

#[test]
fn grabbed_message_does_not_reach_the_actor() {
    let (_mailbox, mut bundle) = summer();
    let listener: Listener = PeekGrab::Grab(Box::new(|msg: Add| msg.0 + 100));
    let (tx, port) = ReplyPort::open();
    let receipt = Envelope::with_reply(Add(6), tx).accept_with(&mut bundle, Some(&listener));
    assert!(receipt.is_some());
    assert_eq!(bundle.actor.sum, 0);
    assert!(matches!(ask_outcome(block_on(port.into_receiver())), Ok(106)));
    assert!(Envelope::new(Add(6)).accept_with(&mut bundle, Some(&listener)).is_none());
}

#[test]
fn unheard_message_reaches_the_actor() {
    let (_mailbox, mut bundle) = summer();
    let nobody: Option<&Listener> = None;
    Envelope::new(Add(6)).accept_with(&mut bundle, nobody);
    assert_eq!(bundle.actor.sum, 6);
}

/// Tells the kinds of listeners apart.
#[derive(Debug, PartialEq)]
enum Named {
    Peek(u8),
    Alter(u8),
    Grab(u8),
}

impl From<PeekGrab<u8, u8, u8>> for Named {
    fn from(listener: PeekGrab<u8, u8, u8>) -> Self {
        match listener {
            PeekGrab::Peek(handler) => Named::Peek(handler),
            PeekGrab::Alter(handler) => Named::Alter(handler),
            PeekGrab::Grab(handler) => Named::Grab(handler),
        }
    }
}

#[test]
fn last_listener_counts() {
    let (mailbox, _bundle) = summer();
    let mut table = ListenerTable::<Named>::new();
    assert!(table.get_listener(1).is_none());
    mailbox.peek::<Named, u8, u8, u8>(Some(&mut table), 1, 10);
    mailbox.alter::<Named, u8, u8, u8>(Some(&mut table), 2, 20);
    assert_eq!(table.get_listener(1), Some(&Named::Peek(10)));
    mailbox.grab::<Named, u8, u8, u8>(Some(&mut table), 1, 11);
    assert_eq!(table.get_listener(1), Some(&Named::Grab(11)));
    assert_eq!(table.get_listener(2), Some(&Named::Alter(20)));
}

#[test]
fn cleared_listener_is_gone() {
    let (mailbox, _bundle) = summer();
    let mut table = ListenerTable::<Named>::new();
    table.insert(1, Named::Peek(1));
    table.insert(2, Named::Grab(2));
    mailbox.clear_listener(Some(&mut table), 1);
    mailbox.clear_listener(Some(&mut table), 3);
    assert!(table.get_listener(1).is_none());
    assert_eq!(table.get_listener(2), Some(&Named::Grab(2)));
    table.remove(2);
    assert!(table.get_listener(2).is_none());
}

#[test]
fn listeners_of_a_lost_actor_are_not_set() {
    let (mailbox, _bundle) = summer();
    mailbox.peek::<Named, u8, u8, u8>(None, 1, 10);
    mailbox.clear_listener::<Named>(None, 1);
}

#[test]
fn pending_answer_is_left_to_the_system() {
    let (mailbox, mut bundle) = summer();
    let asked = mailbox.ask_future(Later("soon")).ok().unwrap();
    match next(&mut bundle) {
        Polled::Message(message) => message.accept(&mut bundle),
        _ => panic!("no message"),
    }
    assert_eq!(bundle.inner.system.later.len(), 1);
    let task = bundle.inner.system.later.pop().unwrap();
    let result = block_on(task.future);
    let receipt = PendingReply::<Later, Ready<String>>::complete(task.reply_to, result);
    assert!(receipt.unwrap().is_delivered());
    match ask_outcome(block_on(asked.reply.into_receiver())) {
        Ok(text) => assert_eq!(text, "soon"),
        Err(_) => panic!("no answer"),
    }
}

#[test]
fn reply_to_nobody_is_not_delivered() {
    let (tx, port) = ReplyPort::<u8>::open();
    drop(port);
    let receipt: Replied<u8> = answer(Some(tx), Some(1)).unwrap();
    assert!(!receipt.is_delivered());
    assert!(answer::<u8>(None, Some(1)).is_none());
}

/// Hands the answer over and reads what came back.
fn round_trip<R, A: Response<R, Tasks>>(response: A) -> R {
    let (tx, port) = ReplyPort::open();
    let receipt = response.handle(&mut Tasks::default(), Some(tx));
    assert!(receipt.unwrap().is_delivered());
    match ask_outcome(block_on(port.into_receiver())) {
        Ok(value) => value,
        Err(_) => panic!("no answer"),
    }
}

#[test]
fn simple_answers_come_back() {
    round_trip::<(), _>(());
    assert_eq!(round_trip::<u8, _>(200u8), 200);
    assert_eq!(round_trip::<u16, _>(60_000u16), 60_000);
    assert_eq!(round_trip::<u32, _>(4_000_000_000u32), 4_000_000_000);
    assert_eq!(round_trip::<u64, _>(u64::MAX), u64::MAX);
    assert_eq!(round_trip::<usize, _>(17usize), 17);
    assert_eq!(round_trip::<i8, _>(-128i8), -128);
    assert_eq!(round_trip::<i16, _>(-300i16), -300);
    assert_eq!(round_trip::<i32, _>(-70_000i32), -70_000);
    assert_eq!(round_trip::<i64, _>(i64::MIN), i64::MIN);
    assert_eq!(round_trip::<isize, _>(-1isize), -1);
    assert_eq!(round_trip::<String, _>("hej".to_owned()), "hej");
    assert_eq!(round_trip::<u64, _>(SyncResponse::<Add>::new(9)), 9);
}

#[test]
fn stopping_is_asked_for_once_and_stays() {
    let (_mailbox, mut bundle) = summer();
    assert!(!bundle.inner.is_stopping());
    bundle.inner.stop();
    assert!(bundle.inner.is_stopping());
    bundle.inner.stop();
    assert!(bundle.inner.state == ActorState::Stopping);
    assert_eq!(bundle.inner.id(), 0);
}
