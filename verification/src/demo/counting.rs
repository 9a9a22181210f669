//! An actor that counts the messages it gets.
use vstd::prelude::*;

use crate::actor::{Actor, ActorContext, ActorState, Host, Message};
use crate::channel::Sent;
use crate::mailbox::{Envelope, Mailbox, MailboxSendError};
use crate::system::ActorBundle;
use crate::system_context::{is_new, Spawn, SystemContext};

verus! {

/// How many strings and how many numbers came so far.
pub struct Dummy {
    pub str_count: usize,
    pub int_count: usize,
}

/// A string or a number.
pub struct Msg<T>(pub T);

impl Actor for Dummy {
    /// Goes on as before.
    fn supervisor_stopped<H: Host>(&mut self, cx: &mut ActorContext<H>) {
    }
}

impl Message for Msg<String> {
    type Result = String;
}

impl Message for Msg<usize> {
    type Result = usize;
}

impl Msg<String> {
    pub fn new(msg: &str) -> (message: Self)
        ensures
            message.0@ == msg@,
    {
        Msg(msg.to_owned())
    }

    /// What a further actor is sent when this message comes, if there is to be
    /// one.
    pub fn further(&self) -> (first: Option<Self>)
        ensures
            match first {
                Some(first) => is_passed_on(self.0@, first.0@),
                None => passed_on(self.0@) is None,
            },
            first is Some <==> (self.0@ == "overflow"@ || self.0@ == "mer"@),
            first matches Some(first) ==> first.0@ == "overflow"@ || first.0@ == "hejsan!"@,
    {
        if self.0 == "overflow".to_owned() {
            Some(Msg::<String>::new(self.0.as_str()))
        } else if self.0 == "mer".to_owned() {
            Some(Msg::<String>::new("hejsan!"))
        } else {
            None
        }
    }
}

impl Msg<usize> {
    pub fn new(msg: usize) -> (message: Self)
        ensures
            message.0 == msg,
    {
        Msg(msg)
    }
}

/// What a further actor is sent when the string `msg` comes, if there is to be
/// one: the same string again, for `overflow`, and a greeting, for `mer`.
pub open spec fn passed_on(msg: Seq<char>) -> Option<Seq<char>> {
    if msg == "overflow"@ {
        Some(msg)
    } else if msg == "mer"@ {
        Some("hejsan!"@)
    } else {
        None
    }
}

/// Whether a further actor is sent `first` when the string `msg` comes.
pub open spec fn is_passed_on(msg: Seq<char>, first: Seq<char>) -> bool {
    passed_on(msg) == Some(first)
}

/// Two strings are passed on, and no other: `overflow` as it is, so that it is
/// passed on again, and `mer` as a greeting, which is not.
pub proof fn law_two_strings_are_passed_on(msg: Msg<String>, first: Option<Msg<String>>)
    requires
        call_ensures(Msg::<String>::further, (&msg,), first),
    ensures
        msg.0@ == "overflow"@ ==> (first matches Some(first) && first.0@ == msg.0@),
        msg.0@ == "mer"@ ==> (first matches Some(first) && first.0@ == "hejsan!"@),
        msg.0@ != "overflow"@ && msg.0@ != "mer"@ ==> first is None,
        passed_on("hejsan!"@) is None,
{
    reveal_strlit("overflow");
    reveal_strlit("mer");
    reveal_strlit("hejsan!");
    assert("overflow"@.len() == 8);
    assert("mer"@.len() == 3);
    assert("hejsan!"@.len() == 7);
}

/// A further actor, made ready to run.
#[verifier::reject_recursive_types(G)]
pub struct Further<G: Host> {
    pub mailbox: Mailbox<G>,
    pub bundle: ActorBundle<Dummy, G>,
    /// What came of its first message.
    pub told: Result<Sent<G::Envelope>, MailboxSendError>,
}

impl Dummy {
    pub fn new() -> (dummy: Self)
        ensures
            dummy == (Dummy { str_count: 0, int_count: 0 }),
    {
        Dummy { str_count: 0, int_count: 0 }
    }

    /// Counts a string and answers it with itself. Where it is to be passed on,
    /// a further actor is made ready to run, and is sent the first message.
    pub fn accept_string<H: Host, G: Host, V>(
        &mut self,
        msg: Msg<String>,
        cx: &mut ActorContext<H>,
        context: &mut SystemContext<V>,
        spawn: Spawn<G>,
    ) -> (answer: (String, Option<Further<G>>)) where G::Envelope: From<Envelope<Msg<String>>>
        requires
            old(self).str_count < usize::MAX,
            passed_on(msg.0@) is Some ==> old(context).has_ids(),
        ensures
            answer.0 == msg.0,
            *final(self) == (Dummy { str_count: (old(self).str_count + 1) as usize, ..*old(self) }),
            *final(cx) == *old(cx),
            final(context).registry() == old(context).registry(),
            match answer.1 {
                Some(further) => {
                    &&& final(context).next_id() == old(context).next_id() + 1
                    &&& is_new(
                        old(context).next_id(),
                        spawn,
                        None,
                        further.mailbox,
                        further.bundle,
                    )
                    &&& further.bundle.actor == (Dummy { str_count: 0, int_count: 0 })
                    &&& exists|first: Msg<String>|
                        is_passed_on(msg.0@, first.0@) && #[trigger] call_ensures(
                            Mailbox::<G>::send::<Msg<String>>,
                            (&further.mailbox, first),
                            further.told,
                        )
                },
                None => {
                    &&& passed_on(msg.0@) is None
                    &&& final(context).next_id() == old(context).next_id()
                },
            },
    {
        self.str_count = self.str_count + 1;
        let first = match msg.further() {
            Some(first) => first,
            None => {
                return (msg.0, None);
            },
        };
        let further = match cx.spawn_actor(context, Dummy::new(), spawn) {
            Some((mailbox, bundle)) => {
                let ghost sent: Msg<String> = first;
                let told = mailbox.send(first);
                let further = Further { mailbox, bundle, told };
                assert(is_passed_on(msg.0@, sent.0@) && call_ensures(
                    Mailbox::<G>::send::<Msg<String>>,
                    (&further.mailbox, sent),
                    further.told,
                ));
                Some(further)
            },
            None => None,
        };
        (msg.0, further)
    }

    /// Counts a number, and stops at the hundredth.
    pub fn accept_number<H: Host>(&mut self, msg: Msg<usize>, cx: &mut ActorContext<H>) -> (answer:
        usize)
        requires
            old(self).int_count < usize::MAX,
        ensures
            answer == msg.0,
            *final(self) == (Dummy { int_count: (old(self).int_count + 1) as usize, ..*old(self) }),
            *final(cx) == (if old(self).int_count >= 99 {
                ActorContext { state: ActorState::Stopping, ..*old(cx) }
            } else {
                *old(cx)
            }),
    {
        self.int_count = self.int_count + 1;
        if self.int_count >= 100 {
            cx.stop();
        }
        msg.0
    }
}

} // verus!
