//! The queue and the writer together.
//!
//! Every method of [`CommandService`] is one step of a run as
//! [`command_history`](crate::services::v1::commands::command_history) defines
//! it, so what is proved there of all runs holds of every use of a service.

use vstd::prelude::*;
use crate::models::v1::commands::writer_command::WriterCommand;
use crate::models::v1::errors::writer_error::QueueClosed;
use crate::models::v1::errors::writer_error::StoreError;
use crate::services::v1::commands::command_queue::CommandQueue;
use crate::services::v1::commands::command_queue::QueueView;
use crate::services::v1::commands::command_queue::Submission;
use crate::services::v1::commands::command_queue::Taken;
use crate::services::v1::commands::command_queue::MAX_CAPACITY;
use crate::services::v1::commands::writer_actor::ActorAction;
use crate::services::v1::commands::writer_actor::ActorEvent;
use crate::services::v1::commands::writer_actor::ActorState;
use crate::services::v1::commands::writer_actor::ActorView;
use crate::services::v1::commands::writer_actor::WriterActor;

verus! {

/// The mathematical content of a [`CommandService`]: the queue and the writer
/// that drains it.
pub struct ServiceView {
    pub queue: QueueView,
    pub actor: ActorView,
}

impl ServiceView {
    /// What holds of a service however it has been used: the queue is within
    /// its bounds, and a stopped writer has left behind a closed, empty queue
    /// and nothing in flight.
    pub open spec fn wf(self) -> bool {
        &&& self.queue.wf()
        &&& self.actor.wf()
        &&& self.actor.state == ActorState::Stopped ==> self.queue.closed
            && self.queue.pending.len() == 0
    }

    /// A service that has just been started.
    pub open spec fn fresh(capacity: nat) -> ServiceView {
        ServiceView { queue: QueueView::fresh(capacity), actor: ActorView::fresh() }
    }

    /// The service after a producer offered a command.
    pub open spec fn submit(self, command: WriterCommand) -> ServiceView {
        ServiceView { queue: self.queue.submit(command), ..self }
    }

    /// The service after the producer side was closed.
    pub open spec fn close(self) -> ServiceView {
        ServiceView { queue: self.queue.close(), ..self }
    }

    /// The service after the writer was given its turn.
    ///
    /// An idle writer takes the oldest pending command, or stops if the queue
    /// is closed and empty. A writer that is busy or stopped leaves the queue
    /// alone.
    pub open spec fn pump(self) -> ServiceView {
        if self.actor.idle() {
            match self.queue.take_result() {
                Taken::Command(command) => ServiceView {
                    queue: self.queue.take(),
                    actor: self.actor.step(ActorEvent::Received(command)),
                },
                Taken::Empty => self,
                Taken::Closed => ServiceView {
                    actor: self.actor.step(ActorEvent::Closed),
                    ..self
                },
            }
        } else {
            self
        }
    }

    /// What the writer asks for when it is given its turn.
    pub open spec fn pump_action(self) -> ActorAction {
        if self.actor.state == ActorState::Stopped {
            ActorAction::Halt
        } else if self.actor.applying {
            ActorAction::AwaitCompletion
        } else {
            match self.queue.take_result() {
                Taken::Command(command) => ActorAction::Apply(command),
                Taken::Empty => ActorAction::Receive,
                Taken::Closed => ActorAction::Halt,
            }
        }
    }

    /// The service after the store reported that it has finished.
    pub open spec fn complete(self, outcome: Result<(), StoreError>) -> ServiceView {
        ServiceView { actor: self.actor.step(ActorEvent::Applied(outcome)), ..self }
    }

    /// What the writer asks for when the store reports that it has finished.
    pub open spec fn complete_action(self, outcome: Result<(), StoreError>) -> ActorAction {
        self.actor.action(ActorEvent::Applied(outcome))
    }
}

/// The write path in one piece: a bounded queue that producers submit to, and
/// the writer that takes commands off it one at a time.
///
/// The service holds no store. [`pump`](CommandService::pump) says which
/// command is to be applied next; the caller applies it and reports the
/// outcome with [`complete`](CommandService::complete).
pub struct CommandService {
    queue: CommandQueue,
    actor: WriterActor,
}

impl View for CommandService {
    type V = ServiceView;

    closed spec fn view(&self) -> ServiceView {
        ServiceView { queue: self.queue@, actor: self.actor@ }
    }
}

impl CommandService {
    /// Holds of every service, at all times.
    #[verifier::type_invariant]
    pub open spec fn inv(&self) -> bool {
        self@.wf()
    }

    /// Takes the service apart, leaving a fresh one of the smallest capacity
    /// in its place until the parts are put back.
    fn take_apart(&mut self) -> (parts: (CommandQueue, WriterActor))
        ensures
            parts.0@ == old(self)@.queue,
            parts.1@ == old(self)@.actor,
            old(self)@.wf(),
    {
        proof {
            use_type_invariant(&*self);
        }
        let mut service = CommandService { queue: CommandQueue::new(1), actor: WriterActor::new() };
        std::mem::swap(self, &mut service);
        (service.queue, service.actor)
    }

    /// Starts the write path: an open, empty queue with room for `capacity`
    /// commands, and a running writer.
    pub fn run(capacity: usize) -> (service: CommandService)
        requires
            0 < capacity <= MAX_CAPACITY,
        ensures
            service@ == ServiceView::fresh(capacity as nat),
    {
        CommandService { queue: CommandQueue::new(capacity), actor: WriterActor::new() }
    }

    /// Offers a command to the queue. Being enqueued says nothing about the
    /// command having been applied.
    pub fn submit(&mut self, command: WriterCommand) -> (result: Result<Submission, QueueClosed>)
        ensures
            final(self)@ == old(self)@.submit(command),
            result == old(self)@.queue.submit_result(command),
    {
        let (mut queue, actor) = self.take_apart();
        let result = queue.submit(command);
        *self = CommandService { queue, actor };
        result
    }

    /// Closes the producer side. The writer goes on until the queue is empty.
    pub fn close(&mut self)
        ensures
            final(self)@ == old(self)@.close(),
    {
        let (mut queue, actor) = self.take_apart();
        queue.close();
        *self = CommandService { queue, actor };
    }

    /// Gives the writer its turn and says what is to be done next.
    pub fn pump(&mut self) -> (action: ActorAction)
        ensures
            final(self)@ == old(self)@.pump(),
            action == old(self)@.pump_action(),
    {
        let (mut queue, mut actor) = self.take_apart();
        let idle = actor.state() == ActorState::Running && !actor.is_applying();
        let action = if idle {
            match queue.take() {
                Taken::Command(command) => actor.step(ActorEvent::Received(command)),
                Taken::Empty => ActorAction::Receive,
                Taken::Closed => actor.step(ActorEvent::Closed),
            }
        } else {
            actor.awaits()
        };
        *self = CommandService { queue, actor };
        action
    }

    /// Reports that the store has finished with the command in flight, and
    /// says what is to be done next.
    pub fn complete(&mut self, outcome: Result<(), StoreError>) -> (action: ActorAction)
        ensures
            final(self)@ == old(self)@.complete(outcome),
            action == old(self)@.complete_action(outcome),
    {
        let (queue, mut actor) = self.take_apart();
        let action = actor.step(ActorEvent::Applied(outcome));
        *self = CommandService { queue, actor };
        action
    }

    /// The number of commands waiting in the queue.
    pub fn pending(&self) -> (n: usize)
        ensures
            n == self@.queue.pending.len(),
    {
        self.queue.len()
    }

    /// Whether the writer is running or has stopped.
    pub fn state(&self) -> (state: ActorState)
        ensures
            state == self@.actor.state,
    {
        self.actor.state()
    }

    /// Whether the store is busy with a command.
    pub fn is_applying(&self) -> (applying: bool)
        ensures
            applying == self@.actor.applying,
    {
        self.actor.is_applying()
    }
}

} // verus!
