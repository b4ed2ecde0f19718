//! The verified core of a classical-music catalog: the protocol spoken with
//! the database thread, the life cycle of that thread, how a client turns
//! the thread's answers into results, and how a recording screen titles its
//! track rows.

pub mod action;
pub mod worker;
pub mod client;
pub mod recording;
