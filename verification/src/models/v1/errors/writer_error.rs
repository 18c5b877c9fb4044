use vstd::prelude::*;
use crate::models::v1::commands::writer_command::WriterCommand;

verus! {

/// Why the store turned a command down.
#[derive(Clone, Copy, Debug, PartialEq, Eq, Structural)]
pub enum StoreError {
    /// The row that the command names does not exist.
    NotFound,
    /// The update would break a constraint of the store.
    ConstraintViolation,
    /// The store could not be reached.
    Connectivity,
}

/// A submission came after the queue was closed. The command was not queued
/// and is handed back.
#[derive(Clone, Debug, PartialEq, Eq)]
pub struct QueueClosed(pub WriterCommand);

/// The store rejected a command that the writer had taken off the queue. The
/// writer reports it and goes on; whoever submitted the command is not told.
#[derive(Clone, Copy, Debug, PartialEq, Eq, Structural)]
pub struct ApplyFailed(pub StoreError);

} // verus!
