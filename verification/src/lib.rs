//! Write serialisation for a receipt repository service.
//!
//! Request handlers turn patch requests into [`WriterCommand`]s and submit them
//! to a bounded first-in-first-out queue. A single writer actor takes them off
//! the queue and has them applied to the store one at a time, in the order in
//! which they were accepted.
//!
//! Everything in this crate is synchronous and free of I/O: the queue, the
//! actor and the request handlers are written as functions from a state and an
//! input to the next state and what is to be done next. A runtime that owns the
//! sockets, the channel and the database performs those actions and reports
//! back what happened.
//!
//! [`WriterCommand`]: crate::models::v1::commands::writer_command::WriterCommand

pub mod configuration;
pub mod error;
pub mod handlers;
pub mod models;
pub mod services;
