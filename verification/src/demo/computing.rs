//! An actor that adds numbers up.
use vstd::prelude::*;

use crate::actor::{Actor, ActorContext, Host, Message};

verus! {

/// The sum so far.
pub struct Dummy {
    pub count: u64,
}

#[derive(Debug)]
pub enum Msg {
    /// Add a number.
    Compute(u64),
    /// Tell the sum.
    Respond,
}

#[derive(Debug)]
pub enum Response {
    ComputeResponse,
    Response(u64),
}

impl Actor for Dummy {
    /// Goes on as before.
    fn supervisor_stopped<H: Host>(&mut self, cx: &mut ActorContext<H>) {
    }
}

impl Message for Msg {
    type Result = Response;
}

impl Dummy {
    pub fn new() -> (dummy: Self)
        ensures
            dummy.count == 0,
    {
        Dummy { count: 0 }
    }

    /// Adds a number, or tells the sum.
    pub fn accept(&mut self, msg: Msg) -> (response: Response)
        requires
            msg matches Msg::Compute(value) ==> old(self).count + value <= u64::MAX,
        ensures
            match msg {
                Msg::Compute(value) => {
                    &&& final(self).count == old(self).count + value
                    &&& response is ComputeResponse
                },
                Msg::Respond => {
                    &&& final(self).count == old(self).count
                    &&& response == Response::Response(old(self).count)
                },
            },
    {
        match msg {
            Msg::Compute(value) => {
                self.count = self.count + value;
                Response::ComputeResponse
            },
            Msg::Respond => Response::Response(self.count),
        }
    }
}

} // verus!
