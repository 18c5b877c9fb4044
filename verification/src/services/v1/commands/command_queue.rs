//! The queue between the request handlers and the writer.

use std::collections::VecDeque;
use vstd::prelude::*;
use crate::models::v1::commands::writer_command::WriterCommand;
use crate::models::v1::errors::writer_error::QueueClosed;

verus! {

/// The largest capacity a queue can be given: an eighth of what a `usize` can
/// count. It is the bound that the channel of the async runtime puts on its
/// buffer, so a capacity that is accepted here can be handed on to it.
pub const MAX_CAPACITY: usize = usize::MAX / 8;

/// How a submission to an open queue ended.
#[derive(Clone, Debug, PartialEq, Eq)]
pub enum Submission {
    /// The command is in the queue, behind everything accepted before it.
    Enqueued,
    /// The queue is full. The command is handed back: the producer waits until
    /// a command has been taken off the queue, then submits again.
    Suspended(WriterCommand),
}

/// What the consumer finds when it asks for the next command.
#[derive(Clone, Debug, PartialEq, Eq)]
pub enum Taken {
    /// The oldest pending command, now removed from the queue.
    Command(WriterCommand),
    /// Nothing is pending, but producers may still submit: the consumer waits.
    Empty,
    /// The queue is closed and everything that was accepted has been taken.
    Closed,
}

/// The mathematical content of a [`CommandQueue`].
pub struct QueueView {
    /// How many commands may be pending at once.
    pub capacity: nat,
    /// The pending commands, oldest first.
    pub pending: Seq<WriterCommand>,
    /// Whether the producer side has been closed.
    pub closed: bool,
}

impl QueueView {
    /// The bounds that every queue keeps.
    pub open spec fn wf(self) -> bool {
        &&& 0 < self.capacity <= MAX_CAPACITY
        &&& self.pending.len() <= self.capacity
    }

    /// An open queue with nothing pending.
    pub open spec fn fresh(capacity: nat) -> QueueView {
        QueueView { capacity, pending: Seq::empty(), closed: false }
    }

    /// Whether as many commands are pending as the queue has room for.
    pub open spec fn is_full(self) -> bool {
        self.pending.len() >= self.capacity
    }

    /// Whether a submission made now is accepted.
    pub open spec fn accepts(self) -> bool {
        !self.closed && !self.is_full()
    }

    /// The queue after a submission: the command goes to the back if the queue
    /// accepts it, and nothing changes otherwise.
    pub open spec fn submit(self, command: WriterCommand) -> QueueView {
        if self.accepts() {
            QueueView { pending: self.pending.push(command), ..self }
        } else {
            self
        }
    }

    /// What the producer is told about a submission.
    pub open spec fn submit_result(self, command: WriterCommand) -> Result<Submission, QueueClosed> {
        if self.closed {
            Err(QueueClosed(command))
        } else if self.is_full() {
            Ok(Submission::Suspended(command))
        } else {
            Ok(Submission::Enqueued)
        }
    }

    /// The queue after the consumer asked for the next command: the oldest
    /// pending command is gone, if there was one.
    pub open spec fn take(self) -> QueueView {
        if self.pending.len() > 0 {
            QueueView { pending: self.pending.drop_first(), ..self }
        } else {
            self
        }
    }

    /// What the consumer gets when it asks for the next command.
    pub open spec fn take_result(self) -> Taken {
        if self.pending.len() > 0 {
            Taken::Command(self.pending[0])
        } else if self.closed {
            Taken::Closed
        } else {
            Taken::Empty
        }
    }

    /// The queue after the producer side was closed. What is pending stays.
    pub open spec fn close(self) -> QueueView {
        QueueView { closed: true, ..self }
    }
}

/// A bounded first-in-first-out queue of commands, with a producer side that
/// can be closed.
///
/// Producers [`submit`](CommandQueue::submit) and never look inside; the one
/// consumer [`take`](CommandQueue::take)s. A full queue turns a submission back
/// rather than dropping or reordering anything.
pub struct CommandQueue {
    items: VecDeque<WriterCommand>,
    capacity: usize,
    closed: bool,
}

impl View for CommandQueue {
    type V = QueueView;

    closed spec fn view(&self) -> QueueView {
        QueueView { capacity: self.capacity as nat, pending: self.items@, closed: self.closed }
    }
}

impl CommandQueue {
    /// Holds of every queue, at all times.
    #[verifier::type_invariant]
    pub open spec fn inv(&self) -> bool {
        self@.wf()
    }

    /// An open, empty queue with room for `capacity` commands.
    pub fn new(capacity: usize) -> (queue: CommandQueue)
        requires
            0 < capacity <= MAX_CAPACITY,
        ensures
            queue@ == QueueView::fresh(capacity as nat),
    {
        CommandQueue { items: VecDeque::new(), capacity, closed: false }
    }

    /// Offers a command to the queue.
    ///
    /// The command goes to the back of the queue if the queue is open and has
    /// room. A full queue hands it back as [`Submission::Suspended`], a closed
    /// one as [`QueueClosed`]; in both cases the queue is left as it was.
    pub fn submit(&mut self, command: WriterCommand) -> (result: Result<Submission, QueueClosed>)
        ensures
            final(self)@ == old(self)@.submit(command),
            result == old(self)@.submit_result(command),
    {
        proof {
            use_type_invariant(&*self);
        }
        if self.closed {
            Err(QueueClosed(command))
        } else if self.items.len() >= self.capacity {
            Ok(Submission::Suspended(command))
        } else {
            let mut items = VecDeque::new();
            std::mem::swap(&mut items, &mut self.items);
            items.push_back(command);
            self.items = items;
            Ok(Submission::Enqueued)
        }
    }

    /// Takes the oldest pending command off the queue.
    pub fn take(&mut self) -> (taken: Taken)
        ensures
            final(self)@ == old(self)@.take(),
            taken == old(self)@.take_result(),
    {
        proof {
            use_type_invariant(&*self);
        }
        let mut items = VecDeque::new();
        std::mem::swap(&mut items, &mut self.items);
        let oldest = items.pop_front();
        self.items = items;
        match oldest {
            Some(command) => Taken::Command(command),
            None => {
                if self.closed {
                    Taken::Closed
                } else {
                    Taken::Empty
                }
            },
        }
    }

    /// Closes the producer side. Later submissions are refused; what is
    /// pending stays in the queue to be taken.
    pub fn close(&mut self)
        ensures
            final(self)@ == old(self)@.close(),
    {
        proof {
            use_type_invariant(&*self);
        }
        self.closed = true;
    }

    /// The number of pending commands.
    pub fn len(&self) -> (n: usize)
        ensures
            n == self@.pending.len(),
    {
        self.items.len()
    }

    /// The number of commands that may be pending at once.
    pub fn capacity(&self) -> (n: usize)
        ensures
            n == self@.capacity,
    {
        self.capacity
    }

    /// Whether nothing is pending.
    pub fn is_empty(&self) -> (empty: bool)
        ensures
            empty == (self@.pending.len() == 0),
    {
        self.items.len() == 0
    }

    /// Whether a submission made now would be suspended or refused for want
    /// of room.
    pub fn is_full(&self) -> (full: bool)
        ensures
            full == self@.is_full(),
    {
        self.items.len() >= self.capacity
    }

    /// Whether the producer side has been closed.
    pub fn is_closed(&self) -> (closed: bool)
        ensures
            closed == self@.closed,
    {
        self.closed
    }
}

} // verus!
