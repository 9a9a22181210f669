//! Supervision.
use std::sync::{Arc, Mutex};

use actress::actor::Host;
use actress::channel::Polled;
use actress::internal_handlers::{SupervisedBy, Supervises, SupervisorStopped, WorkerStopped};
use actress::mailbox::{Envelope, EnvelopeProxy, Lessor};
use actress::supervisor::{report_to, ChildGuard, SupervisorGuard};
use actress::system::ActorBundle;
use actress::system_context::{Spawn, SystemContext};
use actress::{Actor, ActorContext, Mailbox, PanicData, Supervisor};
use futures::task::{noop_waker_ref, Context};

struct Worker {
    /// The own id, once the supervisor has stopped.
    orphaned: Option<usize>,
}

impl Actor for Worker {
    fn supervisor_stopped<H: Host>(&mut self, cx: &mut ActorContext<H>) {
        self.orphaned = Some(cx.mailbox().id());
        cx.stop();
    }
}

#[derive(Default)]
struct Boss {
    ends: Vec<(usize, bool)>,
}

impl Actor for Boss {}

impl Supervisor<Worker> for Boss {
    fn worker_stopped(&mut self, worker_id: usize, info: Option<PanicData>) {
        self.ends.push((worker_id, info.is_some()));
    }
}

/// Counts the mailboxes of one actor.
#[derive(Default)]
struct Counter(Arc<()>);

impl Lessor for Counter {
    type Lease = Arc<()>;

    fn lease(&self) -> Arc<()> {
        Arc::clone(&self.0)
    }

    fn is_held(&self) -> bool {
        Arc::strong_count(&self.0) > 1
    }
}

/// A worker that nobody has.
struct NoChild;

impl SupervisedBy for NoChild {
    type Notice = ();

    fn notify_supervisor_stopped(&self) {}
}

struct Office;

impl Host for Office {
    type Envelope = Envelope<WorkerStopped<Worker>>;
    type Listeners = ();
    type ListenersRef = ();
    type Lessor = Counter;
    type Child = Mailbox<Bench>;
    type System = ();
    type Supervisor = ();
}

struct Bench;

impl Host for Bench {
    type Envelope = Envelope<SupervisorStopped>;
    type Listeners = ();
    type ListenersRef = ();
    type Lessor = Counter;
    type Child = NoChild;
    type System = ();
    type Supervisor = Mailbox<Office>;
}

fn office() -> Spawn<Office> {
    Spawn { system: (), listeners: (), listeners_ref: (), lessor: Counter::default() }
}

fn bench() -> Spawn<Bench> {
    Spawn { system: (), listeners: (), listeners_ref: (), lessor: Counter::default() }
}

fn boss_and_worker() -> (ActorBundle<Boss, Office>, Mailbox<Bench>, ActorBundle<Worker, Bench>) {
    let mut context = SystemContext::<()>::new();
    let (_, mut boss) = context.spawn_actor(Boss::default(), office(), None).unwrap();
    let (mailbox, worker) = boss
        .inner
        .spawn_child::<Boss, Worker, Bench, ()>(&mut context, Worker { orphaned: None }, bench())
        .unwrap();
    (boss, mailbox, worker)
}

/// Lets the supervisor handle all that it was told.
fn drain(boss: &mut ActorBundle<Boss, Office>) {
    let mut cx = Context::from_waker(noop_waker_ref());
    while let Polled::Message(envelope) = boss.poll_queue(&mut cx) {
        envelope.accept(boss);
    }
}

fn crash() -> PanicData {
    PanicData::new(Some("Oh noes"), "worker.rs", 12, 5)
}

#[test]
fn graceful_end_is_reported_once() {
    let (mut boss, _mailbox, worker) = boss_and_worker();
    assert!(worker.supervisor.is_some());
    assert!(worker.supervisor.stopped::<Worker>().unwrap().is_ok());
    assert!(!worker.supervisor.is_some());
    assert!(worker.supervisor.stopped::<Worker>().is_none());
    drain(&mut boss);
    assert_eq!(boss.actor.ends, vec![(1, false)]);
}

#[test]
fn crash_is_reported_in_place_of_the_graceful_end() {
    let (mut boss, _mailbox, worker) = boss_and_worker();
    let slot = worker.supervisor.guard();
    assert!(slot.report::<Worker>(worker.inner.id(), Some(crash())).unwrap().is_ok());
    assert!(worker.supervisor.stopped::<Worker>().is_none());
    assert!(slot.report::<Worker>(worker.inner.id(), Some(crash())).is_none());
    drain(&mut boss);
    assert_eq!(boss.actor.ends, vec![(1, true)]);
}

#[test]
fn looking_at_the_guard_keeps_the_supervisor() {
    let (mut boss, _mailbox, worker) = boss_and_worker();
    for _ in 0..3 {
        assert!(worker.supervisor.is_some());
    }
    assert!(worker.supervisor.stopped::<Worker>().is_some());
    drain(&mut boss);
    assert_eq!(boss.actor.ends.len(), 1);
}

#[test]
fn one_of_many_reports_gets_through() {
    let (mut boss, _mailbox, worker) = boss_and_worker();
    let slots: Vec<_> = (0..8).map(|_| worker.supervisor.guard()).collect();
    let sent: Vec<bool> = slots.iter().map(|slot| slot.report::<Worker>(1, None).is_some()).collect();
    assert_eq!(sent.iter().filter(|sent| **sent).count(), 1);
    drain(&mut boss);
    assert_eq!(boss.actor.ends, vec![(1, false)]);
}

#[test]
fn unsupervised_end_is_reported_to_nobody() {
    let guard = SupervisorGuard::<Mailbox<Office>>::new(3, None);
    assert!(!guard.is_some());
    assert!(guard.stopped::<Worker>().is_none());
    assert!(report_to::<Worker, Mailbox<Office>>(None, 3, None).is_none());
}

#[test]
fn report_tells_which_worker_and_why() {
    let (boss, _mailbox, _worker) = boss_and_worker();
    let mut boss = boss;
    assert!(report_to::<Worker, _>(Some(boss.inner.mailbox()), 9, Some(crash())).is_some());
    let mut cx = Context::from_waker(noop_waker_ref());
    match boss.poll_queue(&mut cx) {
        Polled::Message(envelope) => {
            assert_eq!(envelope.msg.0, 9);
            let data = envelope.msg.1.unwrap();
            assert_eq!(data.message, Some("Oh noes".to_owned()));
            assert_eq!(data.file, "worker.rs");
            assert_eq!((data.line, data.column), (12, 5));
        }
        _ => panic!("no report"),
    }
}

#[test]
fn panic_without_text_has_no_message() {
    let data = PanicData::new(None, "worker.rs", 1, 2);
    assert_eq!(data.message, None);
    assert_eq!(format!("{:?}", data), "PanicData { message: None, file: \"worker.rs\", line: 1, column: 2 }");
}

#[test]
fn worker_learns_of_the_end_of_its_supervisor() {
    let (_boss, mailbox, mut worker) = boss_and_worker();
    assert!(mailbox.notify_supervisor_stopped().is_ok());
    let mut cx = Context::from_waker(noop_waker_ref());
    match worker.poll_queue(&mut cx) {
        Polled::Message(envelope) => drop(envelope.accept(&mut worker)),
        _ => panic!("no message"),
    }
    assert_eq!(worker.actor.orphaned, Some(1));
    assert!(worker.inner.is_stopping());
}

#[test]
fn child_is_told_of_the_end_of_its_supervisor() {
    let (mut boss, _mailbox, mut worker) = boss_and_worker();
    let notices = boss.notify_children();
    assert_eq!(notices.len(), 1);
    assert!(notices[0].is_ok());
    assert!(boss.notify_children().is_empty());
    let mut cx = Context::from_waker(noop_waker_ref());
    match worker.poll_queue(&mut cx) {
        Polled::Message(envelope) => drop(envelope.accept(&mut worker)),
        _ => panic!("no message"),
    }
    assert_eq!(worker.actor.orphaned, Some(1));
    assert!(matches!(worker.poll_queue(&mut cx), Polled::Pending));
}

#[test]
fn released_worker_is_reported_once() {
    let (mut boss, _mailbox, mut worker) = boss_and_worker();
    let released = worker.release();
    assert!(released.told.is_empty());
    assert!(released.reported.unwrap().is_ok());
    assert!(worker.release().reported.is_none());
    drain(&mut boss);
    assert_eq!(boss.actor.ends, vec![(1, false)]);
}

#[test]
fn actor_without_a_hook_goes_on() {
    let (mut boss, _mailbox, _worker) = boss_and_worker();
    Envelope::new(SupervisorStopped).accept(&mut boss);
    assert!(!boss.inner.is_stopping());
    assert!(boss.actor.ends.is_empty());
}

/// Writes its number down.
struct Child(u8, Arc<Mutex<Vec<u8>>>);

impl SupervisedBy for Child {
    type Notice = u8;

    fn notify_supervisor_stopped(&self) -> u8 {
        self.1.lock().unwrap().push(self.0);
        self.0
    }
}

#[test]
fn each_child_is_notified_in_order() {
    let told = Arc::new(Mutex::new(Vec::new()));
    let mut children = ChildGuard::new();
    for number in 0..4 {
        children.push(Child(number, Arc::clone(&told)));
    }
    assert_eq!(children.notify_all(), vec![0, 1, 2, 3]);
    assert_eq!(*told.lock().unwrap(), vec![0, 1, 2, 3]);
    assert!(children.notify_all().is_empty());
}

#[test]
fn no_child_no_notice() {
    assert!(ChildGuard::<Child>::new().notify_all().is_empty());
}

#[test]
fn mailbox_of_a_supervisor_takes_reports() {
    let (mut boss, _mailbox, _worker) = boss_and_worker();
    let mailbox = boss.inner.mailbox();
    assert!(Supervises::<Worker>::notify_worker_stopped(&mailbox, 4, None).is_ok());
    drain(&mut boss);
    assert_eq!(boss.actor.ends, vec![(4, false)]);
}
