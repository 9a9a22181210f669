//! An actor framework: small processes that communicate by sending messages to
//! each other.
//!
//! An actor is anything that implements [`Actor`], and takes the messages for
//! which it implements [`Handle`]. It is run as an [`system::ActorBundle`], and
//! reached by its [`Mailbox`]. What surrounds the actors, that is threads, locks
//! and the network, is supplied by a program as an [`actor::Host`].
pub mod actor;
pub mod channel;
pub mod demo;
pub mod fields;
pub mod guard;
pub mod http;
pub mod internal_handlers;
pub mod json;
pub mod laws;
pub mod laws_http;
pub mod laws_mailbox;
pub mod laws_supervision;
pub mod listen;
pub mod mailbox;
pub mod names;
pub mod response;
pub mod supervisor;
pub mod system;
pub mod system_context;

pub use crate::actor::{Actor, ActorContext, Handle, Message};
pub use crate::mailbox::Mailbox;
pub use crate::response::{AsyncResponse, SyncResponse};
pub use crate::supervisor::{PanicData, Supervisor};
pub use crate::system::System;
