//! Running actors, and the system that they run in.
use std::sync::{Arc, Mutex};

use actress::actor::{ActorState, BacklogPolicy, Host};
use actress::channel::Polled;
use actress::http::{JsonMessage, RouteTask, Router, Serve};
use actress::internal_handlers::{StopActor, StoppableActor, SupervisedBy};
use actress::mailbox::{
    ask_outcome, Envelope, EnvelopeProxy, Lessor, MailboxAskError, MailboxSendError, Reject,
};
use actress::response::Spawner;
use actress::system::{ActorBundle, Turn};
use actress::system_context::{Spawn, SystemContext};
use actress::{Actor, ActorContext, Handle, Mailbox, Message, System};
use futures::executor::block_on;
use futures::stream::StreamExt;
use futures::task::{noop_waker_ref, Context};

/// Adds a line to the journal, and answers its number.
struct Note(&'static str);

impl Message for Note {
    type Result = usize;
}

/// Writes down what happens to it.
struct Scribe {
    journal: Vec<&'static str>,
    rejects: bool,
}

impl Scribe {
    fn new() -> Self {
        Scribe { journal: Vec::new(), rejects: false }
    }

    fn rejecting() -> Self {
        Scribe { journal: Vec::new(), rejects: true }
    }
}

impl Actor for Scribe {
    fn starting(&mut self) {
        self.journal.push("starting");
    }

    fn stopping(&mut self) {
        self.journal.push("stopping");
    }

    fn stopped(&mut self) {
        self.journal.push("stopped");
    }

    fn backlog_policy(&self) -> BacklogPolicy {
        if self.rejects {
            BacklogPolicy::Reject
        } else {
            BacklogPolicy::Flush
        }
    }
}

impl<H: Host> Handle<Note, H> for Scribe {
    type Response = usize;

    fn accept(&mut self, msg: Note, _cx: &mut ActorContext<H>) -> usize {
        self.journal.push(msg.0);
        self.journal.len()
    }
}

enum AnyMessage {
    Note(Envelope<Note>),
    Stop(Envelope<StopActor>),
}

impl From<Envelope<Note>> for AnyMessage {
    fn from(envelope: Envelope<Note>) -> Self {
        AnyMessage::Note(envelope)
    }
}

impl From<Envelope<StopActor>> for AnyMessage {
    fn from(envelope: Envelope<StopActor>) -> Self {
        AnyMessage::Stop(envelope)
    }
}

impl Reject for AnyMessage {
    type Receipt = bool;

    fn reject(self) -> bool {
        match self {
            AnyMessage::Note(envelope) => envelope.reject().is_some(),
            AnyMessage::Stop(envelope) => envelope.reject().is_some(),
        }
    }
}

impl EnvelopeProxy<ActorBundle<Scribe, Desk>> for AnyMessage {
    fn accept(self, actor: &mut ActorBundle<Scribe, Desk>) -> bool {
        match self {
            AnyMessage::Note(envelope) => envelope.accept(actor).is_some(),
            AnyMessage::Stop(envelope) => envelope.accept(actor).is_some(),
        }
    }
}

/// Counts the mailboxes of one actor.
#[derive(Default)]
struct Counter(Arc<()>);

impl Lessor for Counter {
    type Lease = Arc<()>;

    fn lease(&self) -> Arc<()> {
        Arc::clone(&self.0)
    }

    fn is_held(&self) -> bool {
        Arc::strong_count(&self.0) > 1
    }
}

/// A worker that nobody has.
struct NoChild;

impl SupervisedBy for NoChild {
    type Notice = ();

    fn notify_supervisor_stopped(&self) {}
}

/// A worker that writes down that it was told.
struct Intern(Arc<Mutex<Vec<u8>>>, u8);

impl SupervisedBy for Intern {
    type Notice = u8;

    fn notify_supervisor_stopped(&self) -> u8 {
        self.0.lock().unwrap().push(self.1);
        self.1
    }
}

struct Desk;

impl Host for Desk {
    type Envelope = AnyMessage;
    type Listeners = ();
    type ListenersRef = ();
    type Lessor = Counter;
    type Child = Intern;
    type System = ();
    type Supervisor = ();
}

fn spawn() -> Spawn<Desk> {
    Spawn { system: (), listeners: (), listeners_ref: (), lessor: Counter::default() }
}

/// Runs the actor until it has to wait or is done. Says whether it is done.
fn run(bundle: &mut ActorBundle<Scribe, Desk>) -> bool {
    let mut cx = Context::from_waker(noop_waker_ref());
    loop {
        let message = match bundle.poll(&mut cx) {
            Turn::Process(message) => message,
            Turn::Suspend => return false,
            Turn::Done(_) => return true,
            _ => panic!("nothing was processed"),
        };
        message.accept(bundle);
        match bundle.on_processed(true) {
            Turn::Poll => {}
            Turn::Settle(queue) => {
                let backlog: Vec<AnyMessage> = block_on(queue.into_rest().collect());
                bundle.settle(backlog);
                return true;
            }
            _ => panic!("nothing crashed"),
        }
    }
}

fn scribe(actor: Scribe) -> (Mailbox<Desk>, ActorBundle<Scribe, Desk>) {
    SystemContext::<Mailbox<Desk>>::new().spawn_actor(actor, spawn(), None).unwrap()
}

#[test]
fn actor_handles_its_messages_in_order() {
    let (mailbox, mut bundle) = scribe(Scribe::new());
    assert!(mailbox.send(Note("one")).is_ok());
    assert!(mailbox.send(Note("two")).is_ok());
    assert!(!run(&mut bundle));
    assert_eq!(bundle.actor.journal, vec!["starting", "one", "two"]);
    assert!(bundle.recv.is_some());
}

#[test]
fn queue_is_closed_before_the_actor_is_stopping() {
    let (mailbox, mut bundle) = scribe(Scribe::new());
    let closed = bundle.recv.take().unwrap().close();
    assert!(mailbox.send(Note("late")).is_err());
    assert_eq!(bundle.actor.journal, vec!["starting"]);
    drop(bundle.stop_closed(closed));
    assert_eq!(bundle.actor.journal, vec!["starting", "stopping"]);
}

#[test]
fn message_of_the_last_mailbox_is_found() {
    let (mailbox, mut bundle) = scribe(Scribe::new());
    assert!(mailbox.send(Note("last")).is_ok());
    drop(mailbox);
    let mut cx = Context::from_waker(noop_waker_ref());
    assert!(matches!(bundle.poll_unless_ended(&mut cx), Some(Turn::Process(_))));
    assert!(matches!(bundle.look(&mut cx, true), Turn::Suspend));
    assert!(matches!(bundle.look(&mut cx, false), Turn::Done(_)));
}

#[test]
fn actor_ends_when_its_queue_does() {
    let (mailbox, mut bundle) = scribe(Scribe::new());
    assert!(mailbox.send(Note("one")).is_ok());
    let turn = bundle.on_polled(Polled::Closed, true);
    assert!(matches!(turn, Turn::Done(_)));
    assert_eq!(bundle.actor.journal, vec!["starting", "stopped"]);
}

#[test]
fn actor_ends_when_nobody_has_its_mailbox() {
    let (mailbox, mut bundle) = scribe(Scribe::new());
    let copy = mailbox.copy();
    drop(mailbox);
    assert!(!run(&mut bundle));
    assert!(copy.send(Note("last")).is_ok());
    drop(copy);
    assert!(run(&mut bundle));
    assert_eq!(bundle.actor.journal, vec!["starting", "last", "stopped"]);
}

#[test]
fn actor_goes_on_while_it_gave_its_mailbox_away() {
    let (mailbox, mut bundle) = scribe(Scribe::new());
    let given = bundle.inner.mailbox();
    drop(mailbox);
    assert!(!run(&mut bundle));
    drop(given);
    assert!(run(&mut bundle));
}

/// An actor with two workers, and what the workers wrote down.
fn manager(actor: Scribe) -> (Mailbox<Desk>, ActorBundle<Scribe, Desk>, Arc<Mutex<Vec<u8>>>) {
    let (mailbox, mut bundle) = scribe(actor);
    let told = Arc::new(Mutex::new(Vec::new()));
    bundle.inner.children.push(Intern(Arc::clone(&told), 1));
    bundle.inner.children.push(Intern(Arc::clone(&told), 2));
    (mailbox, bundle, told)
}

#[test]
fn workers_are_told_once_of_every_end() {
    let (mailbox, mut bundle, told) = manager(Scribe::new());
    assert!(mailbox.stop_me().is_ok());
    assert!(told.lock().unwrap().is_empty());
    assert!(run(&mut bundle));
    assert_eq!(*told.lock().unwrap(), vec![1, 2]);
    assert!(bundle.notify_children().is_empty());

    let (_mailbox, mut bundle, told) = manager(Scribe::new());
    match bundle.on_processed(false) {
        Turn::Abandon(_, notices) => assert_eq!(notices, vec![1, 2]),
        _ => panic!("the actor crashed"),
    }
    assert_eq!(*told.lock().unwrap(), vec![1, 2]);

    let (mailbox, mut bundle, told) = manager(Scribe::new());
    drop(mailbox);
    assert!(run(&mut bundle));
    assert_eq!(*told.lock().unwrap(), vec![1, 2]);

    let (_mailbox, mut bundle, told) = manager(Scribe::rejecting());
    assert_eq!(bundle.settle(Vec::new()).told, vec![1, 2]);
    assert_eq!(*told.lock().unwrap(), vec![1, 2]);
}

#[test]
fn pending_queue_is_waited_for_while_somebody_can_send() {
    let (_mailbox, mut bundle, _told) = manager(Scribe::new());
    assert!(matches!(bundle.on_polled(Polled::Pending, true), Turn::Suspend));
    assert_eq!(bundle.actor.journal, vec!["starting"]);
    match bundle.on_polled(Polled::Pending, false) {
        Turn::Done(notices) => assert_eq!(notices, vec![1, 2]),
        _ => panic!("nobody can send"),
    }
    assert_eq!(bundle.actor.journal, vec!["starting", "stopped"]);
}

#[test]
fn stopped_actor_flushes_its_backlog() {
    let (mailbox, mut bundle) = scribe(Scribe::new());
    assert!(mailbox.stop_me().is_ok());
    let asked = mailbox.ask_future(Note("late")).ok().unwrap();
    assert!(mailbox.send(Note("later")).is_ok());
    assert!(run(&mut bundle));
    assert_eq!(bundle.actor.journal, vec!["starting", "stopping", "late", "later", "stopped"]);
    assert!(matches!(ask_outcome(block_on(asked.reply.into_receiver())), Ok(3)));
    assert!(bundle.recv.is_none());
    assert!(matches!(mailbox.send(Note("too late")), Err(MailboxSendError::CouldNotSend)));
}

#[test]
fn stopped_actor_rejects_its_backlog() {
    let (mailbox, mut bundle) = scribe(Scribe::rejecting());
    assert!(mailbox.send(Note("early")).is_ok());
    assert!(mailbox.send(StopActor).is_ok());
    let first = mailbox.ask_future(Note("late")).ok().unwrap();
    let second = mailbox.ask_future(Note("later")).ok().unwrap();
    assert!(run(&mut bundle));
    assert_eq!(bundle.actor.journal, vec!["starting", "early", "stopping", "stopped"]);
    for asked in vec![first, second] {
        let outcome = ask_outcome(block_on(asked.reply.into_receiver()));
        assert!(matches!(outcome, Err(MailboxAskError::MessageDropped)));
    }
}

#[test]
fn settling_leaves_a_receipt_for_each_message() {
    let (_mailbox, mut bundle) = scribe(Scribe::rejecting());
    let backlog: Vec<AnyMessage> = vec![Envelope::new(Note("a")).into(), Envelope::new(StopActor).into()];
    let settled = bundle.settle(backlog);
    assert!(matches!(settled.policy, BacklogPolicy::Reject));
    assert_eq!(settled.receipts, vec![false, false]);
}

#[test]
fn crashed_actor_is_not_stopped_properly() {
    let (mailbox, mut bundle) = scribe(Scribe::new());
    let asked = mailbox.ask_future(Note("unread")).ok().unwrap();
    match bundle.on_processed(false) {
        Turn::Abandon(queue, _) => drop(queue),
        _ => panic!("the actor crashed"),
    }
    assert_eq!(bundle.actor.journal, vec!["starting", "stopping"]);
    let mut cx = Context::from_waker(noop_waker_ref());
    assert!(bundle.poll_unless_ended(&mut cx).is_none());
    assert_eq!(bundle.actor.journal, vec!["starting", "stopping"]);
    assert!(bundle.recv.is_none());
    let outcome = ask_outcome(block_on(asked.reply.into_receiver()));
    assert!(matches!(outcome, Err(MailboxAskError::CouldNotRecv)));
}

#[test]
fn stop_message_only_asks_for_a_stop() {
    let (_mailbox, mut bundle) = scribe(Scribe::new());
    Envelope::new(StopActor).accept(&mut bundle);
    assert!(bundle.inner.state == ActorState::Stopping);
    assert_eq!(bundle.actor.journal, vec!["starting"]);
}

#[test]
fn ids_go_up() {
    let mut context = SystemContext::<Mailbox<Desk>>::new();
    let mut ids = Vec::new();
    for _ in 0..5 {
        assert!(context.can_spawn());
        let (mailbox, bundle) = context.spawn_actor(Scribe::new(), spawn(), None).unwrap();
        assert_eq!(bundle.inner.id(), mailbox.id());
        ids.push(mailbox.id());
    }
    assert_eq!(ids, vec![0, 1, 2, 3, 4]);
}

#[test]
fn registered_service_is_found() {
    let mut context = SystemContext::<Mailbox<Desk>>::new();
    let (mailbox, _bundle) = context.register("scribe", 7, Scribe::new(), spawn());
    assert_eq!(context.find("scribe", 7).unwrap().id(), mailbox.id());
    assert!(context.find("scribe", 8).is_none());
    assert!(context.find("clerk", 7).is_none());
}

#[test]
fn registering_again_replaces_the_service() {
    let mut context = SystemContext::<Mailbox<Desk>>::new();
    let (first, _bundle) = context.register("scribe", 7, Scribe::new(), spawn());
    let (other, _bundle) = context.register("clerk", 7, Scribe::new(), spawn());
    let (second, _bundle) = context.register("scribe", 9, Scribe::new(), spawn());
    assert_eq!(context.find("scribe", 9).unwrap().id(), second.id());
    assert!(context.find("scribe", 7).is_none());
    assert_eq!(context.find("clerk", 7).unwrap().id(), other.id());
    assert!(first.id() != second.id());
}

#[test]
fn each_service_is_stopped_once() {
    let mut context = SystemContext::<Mailbox<Desk>>::new();
    let (_kept, mut first) = context.register("first", 1, Scribe::new(), spawn());
    let (_, mut second) = context.register("second", 1, Scribe::new(), spawn());
    let (_, mut replaced) = context.register("first", 1, Scribe::new(), spawn());
    let notices = context.stop_services();
    assert_eq!(notices.len(), 2);
    assert!(run(&mut second));
    assert!(run(&mut replaced));
    assert!(!run(&mut first));
}

#[test]
fn actor_starts_others() {
    let mut context = SystemContext::<Mailbox<Desk>>::new();
    let (_, bundle) = context.spawn_actor(Scribe::new(), spawn(), None).unwrap();
    let (mailbox, child) = bundle.inner.spawn_actor(&mut context, Scribe::new(), spawn()).unwrap();
    assert_eq!(mailbox.id(), 1);
    assert_eq!(child.actor.journal, vec!["starting"]);
    let service = bundle.inner.register(&mut context, "scribe", 3, Scribe::new(), spawn());
    assert_eq!(service.inner.id(), 2);
    assert_eq!(bundle.inner.find(&context, "scribe", 3).unwrap().id(), 2);
}

#[derive(Default)]
struct Requests {
    tasks: Vec<RouteTask<&'static str>>,
}

impl Spawner<RouteTask<&'static str>> for Requests {
    fn spawn(&mut self, task: RouteTask<&'static str>) {
        self.tasks.push(task);
    }
}

enum RouterMessage {
    Serve(Envelope<Serve<&'static str>>),
    Json(Envelope<JsonMessage>),
}

impl From<Envelope<Serve<&'static str>>> for RouterMessage {
    fn from(envelope: Envelope<Serve<&'static str>>) -> Self {
        RouterMessage::Serve(envelope)
    }
}

impl From<Envelope<JsonMessage>> for RouterMessage {
    fn from(envelope: Envelope<JsonMessage>) -> Self {
        RouterMessage::Json(envelope)
    }
}

struct Front;

impl Host for Front {
    type Envelope = RouterMessage;
    type Listeners = ();
    type ListenersRef = ();
    type Lessor = Counter;
    type Child = NoChild;
    type System = Requests;
    type Supervisor = ();
}

fn system() -> (System<Front>, ActorBundle<Router<&'static str>, Front>, SystemContext<Mailbox<Desk>>) {
    let mut context = SystemContext::new();
    let spawn = Spawn { system: Requests::default(), listeners: (), listeners_ref: (), lessor: Counter::default() };
    let (system, router) = System::new(&mut context, spawn);
    (system, router, context)
}

fn handle_one(router: &mut ActorBundle<Router<&'static str>, Front>) {
    let mut cx = Context::from_waker(noop_waker_ref());
    match router.poll_queue(&mut cx) {
        Polled::Message(RouterMessage::Serve(envelope)) => drop(envelope.accept(router)),
        Polled::Message(RouterMessage::Json(envelope)) => drop(envelope.accept(router)),
        _ => panic!("no message"),
    }
}

#[test]
fn router_is_the_first_actor() {
    let (system, router, mut context) = system();
    assert_eq!(system.json_router.id(), 0);
    assert_eq!(router.inner.id(), 0);
    let (mailbox, _bundle) = context.spawn_actor(Scribe::new(), spawn(), None).unwrap();
    assert_eq!(mailbox.id(), 1);
}

#[test]
fn http_is_started_once() {
    let (mut system, _router, _context) = system();
    let first = system.serve("/foo", "foo");
    assert!(first.told.is_ok());
    assert_eq!(first.start.unwrap().id(), 0);
    for _ in 0..3 {
        let again = system.serve("/bar", "bar");
        assert!(again.told.is_ok());
        assert!(again.start.is_none());
    }
}

#[test]
fn served_path_is_routed() {
    let (mut system, mut router, _context) = system();
    system.serve("/foo", "old foo");
    system.serve("/bar", "bar");
    system.serve("/foo", "foo");
    for path in vec!["/foo", "/bar", "/other"] {
        let msg = JsonMessage(path.to_owned(), serde_json::Value::Null);
        assert!(system.json_router.send(msg).is_ok());
    }
    for _ in 0..6 {
        handle_one(&mut router);
    }
    let handlers: Vec<Option<&str>> = router.inner.system.tasks.iter().map(|task| task.handler).collect();
    assert_eq!(handlers, vec![Some("foo"), Some("bar"), None]);
}

#[test]
fn system_starts_registers_finds_and_stops() {
    let (mut system, _router, mut context) = system();
    let (mailbox, mut started) = system.start(&mut context, Scribe::new(), spawn());
    assert_eq!(mailbox.id(), 1);
    let (service, mut registered) = system.register(&mut context, "scribe", 4, Scribe::new(), spawn());
    assert_eq!(system.find(&context, "scribe", 4).unwrap().id(), service.id());
    assert!(system.find(&context, "scribe", 5).is_none());
    assert_eq!(system.run_until_completion(&context).len(), 1);
    assert!(run(&mut registered));
    assert!(!run(&mut started));
}
