//! Fibonacci numbers, served over HTTP.
use vstd::prelude::*;

use crate::actor::{Actor, ActorContext, Host, Message};
use crate::mailbox::Mailbox;
use crate::system::ActorBundle;
use crate::system_context::{is_new, Spawn, SystemContext};

verus! {

/// Which Fibonacci number is wanted.
#[derive(Debug)]
pub struct Foo(pub u64);

#[derive(Debug)]
pub enum Choice {
    A,
    B,
    C,
}

/// What a request is answered with.
#[derive(Debug)]
pub struct Resp {
    pub x: usize,
    pub y: Option<isize>,
    pub nom: String,
    pub foo: Choice,
}

impl Message for Foo {
    type Result = Resp;
}

/// The actor that answers requests.
pub struct Webby;

impl Actor for Webby {
    /// Goes on as before.
    fn supervisor_stopped<H: Host>(&mut self, cx: &mut ActorContext<H>) {
    }
}

/// The actor that computes Fibonacci numbers.
pub struct Fibber {
    pub count: u64,
}

impl Actor for Fibber {
    /// Goes on as before.
    fn supervisor_stopped<H: Host>(&mut self, cx: &mut ActorContext<H>) {
    }
}

/// Which Fibonacci number is wanted.
#[derive(Debug)]
pub struct FibRequest(pub u64);

impl Message for FibRequest {
    type Result = u64;
}

/// The Fibonacci numbers.
pub open spec fn fib(n: nat) -> nat
    decreases n,
{
    if n < 2 {
        n
    } else {
        fib((n - 1) as nat) + fib((n - 2) as nat)
    }
}

/// What it takes to compute a Fibonacci number.
pub enum FibPlan {
    /// Nothing: it is known.
    Known(u64),
    /// The two numbers before it, which another actor is to be asked for.
    Ask(FibRequest, FibRequest),
}

impl Fibber {
    pub fn new() -> (fibber: Self)
        ensures
            fibber.count == 0,
    {
        Fibber { count: 0 }
    }

    /// Takes a request, and makes a further actor ready to run that can be asked
    /// for the numbers before.
    pub fn accept<H: Host, G: Host, V>(
        &mut self,
        msg: FibRequest,
        cx: &mut ActorContext<H>,
        context: &mut SystemContext<V>,
        spawn: Spawn<G>,
    ) -> (started: (FibTask<G>, ActorBundle<Fibber, G>))
        requires
            old(context).has_ids(),
        ensures
            *final(self) == *old(self),
            *final(cx) == *old(cx),
            started.0.request == msg,
            is_new(old(context).next_id(), spawn, None, started.0.slave, started.1),
            started.1.actor.count == 0,
            final(context).next_id() == old(context).next_id() + 1,
            final(context).registry() == old(context).registry(),
    {
        let (slave, bundle) = cx.spawn_actor(context, Fibber::new(), spawn).unwrap();
        (FibTask { slave, request: msg }, bundle)
    }

    /// Makes the answer out of those to the two requests of a plan.
    pub fn combine(f1: u64, f2: u64) -> (answer: u64)
        requires
            f1 + f2 <= u64::MAX,
        ensures
            answer == f1 + f2,
    {
        f1 + f2
    }
}

/// A request that is being answered.
#[verifier::reject_recursive_types(G)]
pub struct FibTask<G: Host> {
    /// The actor to ask for the numbers before.
    pub slave: Mailbox<G>,
    pub request: FibRequest,
}

impl<G: Host> FibTask<G> {
    /// What it takes to answer the request.
    pub fn plan(&self) -> (plan: FibPlan)
        ensures
            plan == fib_plan(self.request),
    {
        if self.request.0 < 2 {
            FibPlan::Known(self.request.0)
        } else {
            FibPlan::Ask(FibRequest(self.request.0 - 1), FibRequest(self.request.0 - 2))
        }
    }
}

/// What it takes to answer a request.
pub open spec fn fib_plan(request: FibRequest) -> FibPlan {
    if request.0 < 2 {
        FibPlan::Known(request.0)
    } else {
        FibPlan::Ask(FibRequest((request.0 - 1) as u64), FibRequest((request.0 - 2) as u64))
    }
}

/// The answer that `plan` leads to, when `answers` tells that to each request.
pub open spec fn answer_of(plan: FibPlan, answers: spec_fn(FibRequest) -> nat) -> nat {
    match plan {
        FibPlan::Known(value) => value as nat,
        FibPlan::Ask(f1, f2) => answers(f1) + answers(f2),
    }
}

/// Each answer of a plan is a Fibonacci number, when so are the answers to what
/// it asks: asking on and on computes the Fibonacci numbers.
pub proof fn law_plans_compute_fib(request: FibRequest, answers: spec_fn(FibRequest) -> nat)
    requires
        forall|before: FibRequest|
            before.0 < request.0 ==> #[trigger] answers(before) == fib(before.0 as nat),
    ensures
        answer_of(fib_plan(request), answers) == fib(request.0 as nat),
{
}

/// The Fibonacci numbers start with 0 and 1, and each of the others is the sum of the
/// two before it.
pub proof fn law_fib_is_the_sum_of_the_two_before(n: nat)
    ensures
        fib(0) == 0,
        fib(1) == 1,
        fib(n + 2) == fib(n + 1) + fib(n),
{
}

/// A plan asks just for the two numbers before, in descending order, and asks for
/// nothing where the number is its own place.
pub proof fn law_plan_asks_for_the_two_before<G: Host>(task: FibTask<G>, plan: FibPlan)
    requires
        call_ensures(FibTask::<G>::plan, (&task,), plan),
    ensures
        match plan {
            FibPlan::Known(value) => task.request.0 < 2 && value == task.request.0,
            FibPlan::Ask(f1, f2) => task.request.0 >= 2 && f1.0 + 1 == task.request.0 && f2.0 + 2
                == task.request.0,
        },
{
}

impl Webby {
    /// Takes a request, and makes an actor ready to run that is to be asked for
    /// the Fibonacci number.
    pub fn accept<H: Host, G: Host, V>(
        &mut self,
        msg: Foo,
        cx: &mut ActorContext<H>,
        context: &mut SystemContext<V>,
        spawn: Spawn<G>,
    ) -> (started: (Mailbox<G>, FibRequest, ActorBundle<Fibber, G>))
        requires
            old(context).has_ids(),
        ensures
            *final(self) == *old(self),
            *final(cx) == *old(cx),
            started.1.0 == msg.0,
            is_new(old(context).next_id(), spawn, None, started.0, started.2),
            started.2.actor.count == 0,
            final(context).next_id() == old(context).next_id() + 1,
            final(context).registry() == old(context).registry(),
    {
        let (fibber, bundle) = cx.spawn_actor(context, Fibber::new(), spawn).unwrap();
        (fibber, FibRequest(msg.0), bundle)
    }

    /// Makes the answer out of the Fibonacci number.
    pub fn respond(fib: u64) -> (resp: Resp)
        ensures
            resp.x == fib as usize,
            resp.y == Some(-1isize),
            resp.nom@ == "tomten"@,
            resp.foo is A,
    {
        Resp {
            x: #[verifier::truncate] (fib as usize),
            y: Some(-1),
            nom: "tomten".to_owned(),
            foo: Choice::A,
        }
    }
}

} // verus!
