//! The actors of the demonstration programs.
pub mod computing;
pub mod countdown;
pub mod counting;
pub mod supervision;
pub mod web;
