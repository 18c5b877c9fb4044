//! The writer: the one consumer of the queue, which has commands applied to
//! the store one at a time.

use vstd::prelude::*;
use crate::models::v1::commands::writer_command::WriterCommand;
use crate::models::v1::errors::writer_error::ApplyFailed;
use crate::models::v1::errors::writer_error::StoreError;

verus! {

/// The two states of the writer. It starts `Running` and, once `Stopped`,
/// stays so.
#[derive(Clone, Copy, Debug, PartialEq, Eq, Structural)]
pub enum ActorState {
    Running,
    Stopped,
}

/// What the runtime reports to the writer.
#[derive(Debug, PartialEq, Eq)]
pub enum ActorEvent {
    /// The queue yielded its oldest pending command.
    Received(WriterCommand),
    /// The queue is closed and has nothing left.
    Closed,
    /// The store finished with the command that was being applied.
    Applied(Result<(), StoreError>),
}

/// What the writer asks the runtime to do next.
#[derive(Clone, Debug, PartialEq, Eq)]
pub enum ActorAction {
    /// Wait for the queue to yield a command or to signal that it is closed
    /// and empty.
    Receive,
    /// Have the store apply this command, and report when that has finished.
    Apply(WriterCommand),
    /// Nothing new: the store is still busy with a command. Report when it has
    /// finished.
    AwaitCompletion,
    /// Make this failure known, then go on as for `Receive`.
    Report(ApplyFailed),
    /// The writer has stopped. There is nothing more to do.
    Halt,
    /// The command came while the writer could not take one, because the store
    /// is busy or the writer has stopped. It is handed back untouched.
    Refuse(WriterCommand),
}

/// The mathematical content of a [`WriterActor`].
pub struct ActorView {
    pub state: ActorState,
    /// Whether the store is busy with a command that the writer handed out.
    pub applying: bool,
}

impl ActorView {
    /// A stopped writer has nothing in flight.
    pub open spec fn wf(self) -> bool {
        self.state == ActorState::Stopped ==> !self.applying
    }

    /// A writer that has just been started.
    pub open spec fn fresh() -> ActorView {
        ActorView { state: ActorState::Running, applying: false }
    }

    /// Running, with nothing in flight: the one situation in which the writer
    /// takes a command.
    pub open spec fn idle(self) -> bool {
        self.state == ActorState::Running && !self.applying
    }

    /// Commands handed to the store and not yet reported as finished.
    pub open spec fn in_flight(self) -> nat {
        if self.applying {
            1
        } else {
            0
        }
    }

    /// The writer after an event.
    pub open spec fn step(self, event: ActorEvent) -> ActorView {
        match event {
            ActorEvent::Received(_) => {
                if self.idle() {
                    ActorView { applying: true, ..self }
                } else {
                    self
                }
            },
            ActorEvent::Closed => {
                if self.idle() {
                    ActorView { state: ActorState::Stopped, ..self }
                } else {
                    self
                }
            },
            ActorEvent::Applied(_) => ActorView { applying: false, ..self },
        }
    }

    /// What the writer asks for in answer to an event.
    pub open spec fn action(self, event: ActorEvent) -> ActorAction {
        match event {
            ActorEvent::Received(command) => {
                if self.idle() {
                    ActorAction::Apply(command)
                } else {
                    ActorAction::Refuse(command)
                }
            },
            ActorEvent::Closed => {
                if self.applying {
                    ActorAction::AwaitCompletion
                } else {
                    ActorAction::Halt
                }
            },
            ActorEvent::Applied(outcome) => {
                if self.state == ActorState::Stopped {
                    ActorAction::Halt
                } else if self.applying && outcome is Err {
                    ActorAction::Report(ApplyFailed(outcome->Err_0))
                } else {
                    ActorAction::Receive
                }
            },
        }
    }
}

/// The decisions of the single task that applies commands to the store.
///
/// The writer performs no I/O itself. The runtime tells it what happened
/// ([`ActorEvent`]) and carries out what it answers ([`ActorAction`]). It asks
/// for a command to be applied only when nothing is in flight, so the store
/// never sees two updates at once, and a failed update changes nothing about
/// what it does next.
pub struct WriterActor {
    state: ActorState,
    applying: bool,
}

impl View for WriterActor {
    type V = ActorView;

    closed spec fn view(&self) -> ActorView {
        ActorView { state: self.state, applying: self.applying }
    }
}

impl WriterActor {
    /// Holds of every writer, at all times.
    #[verifier::type_invariant]
    pub open spec fn inv(&self) -> bool {
        self@.wf()
    }

    /// A running writer with nothing in flight.
    pub fn new() -> (actor: WriterActor)
        ensures
            actor@ == ActorView::fresh(),
    {
        WriterActor { state: ActorState::Running, applying: false }
    }

    /// Takes note of an event and says what is to be done next.
    pub fn step(&mut self, event: ActorEvent) -> (action: ActorAction)
        ensures
            final(self)@ == old(self)@.step(event),
            action == old(self)@.action(event),
    {
        proof {
            use_type_invariant(&*self);
        }
        let running = match self.state {
            ActorState::Running => true,
            ActorState::Stopped => false,
        };
        match event {
            ActorEvent::Received(command) => {
                if running && !self.applying {
                    self.applying = true;
                    ActorAction::Apply(command)
                } else {
                    ActorAction::Refuse(command)
                }
            },
            ActorEvent::Closed => {
                if self.applying {
                    ActorAction::AwaitCompletion
                } else {
                    self.state = ActorState::Stopped;
                    ActorAction::Halt
                }
            },
            ActorEvent::Applied(outcome) => {
                let was_applying = self.applying;
                self.applying = false;
                if !running {
                    ActorAction::Halt
                } else {
                    match outcome {
                        Err(reason) if was_applying => ActorAction::Report(ApplyFailed(reason)),
                        _ => ActorAction::Receive,
                    }
                }
            },
        }
    }

    /// Whether the writer is running or has stopped.
    pub fn state(&self) -> (state: ActorState)
        ensures
            state == self@.state,
    {
        self.state
    }

    /// Whether the store is busy with a command that this writer handed out.
    pub fn is_applying(&self) -> (applying: bool)
        ensures
            applying == self@.applying,
    {
        self.applying
    }

    /// What the writer is waiting for: the action to carry out where the last
    /// answer was a [`ActorAction::Refuse`].
    pub fn awaits(&self) -> (action: ActorAction)
        ensures
            action == (if self@.state == ActorState::Stopped {
                ActorAction::Halt
            } else if self@.applying {
                ActorAction::AwaitCompletion
            } else {
                ActorAction::Receive
            }),
    {
        match self.state {
            ActorState::Stopped => ActorAction::Halt,
            ActorState::Running => {
                if self.applying {
                    ActorAction::AwaitCompletion
                } else {
                    ActorAction::Receive
                }
            },
        }
    }
}

/// The writer after a row of events, whatever they are and in whatever order
/// they come.
pub open spec fn after(a: ActorView, events: Seq<ActorEvent>) -> ActorView
    decreases events.len(),
{
    if events.len() == 0 {
        a
    } else {
        after(a, events.drop_last()).step(events.last())
    }
}

/// The commands that the writer has asked to have applied over a row of
/// events, in the order in which it asked.
pub open spec fn asked(a: ActorView, events: Seq<ActorEvent>) -> Seq<WriterCommand>
    decreases events.len(),
{
    if events.len() == 0 {
        Seq::empty()
    } else {
        let earlier = asked(a, events.drop_last());
        match after(a, events.drop_last()).action(events.last()) {
            ActorAction::Apply(command) => earlier.push(command),
            _ => earlier,
        }
    }
}

/// How many of the events in a row report the end of an apply that was in
/// flight.
pub open spec fn finished(a: ActorView, events: Seq<ActorEvent>) -> nat
    decreases events.len(),
{
    if events.len() == 0 {
        0
    } else {
        let earlier = finished(a, events.drop_last());
        if events.last() is Applied && after(a, events.drop_last()).applying {
            earlier + 1
        } else {
            earlier
        }
    }
}

/// The commands that a row of events delivers, in the order in which they
/// come.
pub open spec fn received(events: Seq<ActorEvent>) -> Seq<WriterCommand>
    decreases events.len(),
{
    if events.len() == 0 {
        Seq::empty()
    } else {
        let earlier = received(events.drop_last());
        match events.last() {
            ActorEvent::Received(command) => earlier.push(command),
            _ => earlier,
        }
    }
}

/// Whether every command in a row of events comes while the writer is idle,
/// as it does where the runtime waits for the writer to ask before it takes
/// the next command off the queue.
pub open spec fn in_turn(a: ActorView, events: Seq<ActorEvent>) -> bool
    decreases events.len(),
{
    if events.len() == 0 {
        true
    } else {
        &&& in_turn(a, events.drop_last())
        &&& events.last() is Received ==> after(a, events.drop_last()).idle()
    }
}

/// No row of events leads the writer out of its well-formed states.
pub proof fn lemma_after_wf(a: ActorView, events: Seq<ActorEvent>)
    requires
        a.wf(),
    ensures
        after(a, events).wf(),
    decreases events.len(),
{
    if events.len() > 0 {
        lemma_after_wf(a, events.drop_last());
    }
}

/// The writer never has two commands in flight, whatever it is told and in
/// whatever order: over any row of events, the applies it has asked for and
/// the applies reported as finished differ by what is in flight, and that is
/// never more than one.
pub proof fn lemma_one_in_flight(a: ActorView, events: Seq<ActorEvent>)
    requires
        a.wf(),
    ensures
        a.in_flight() + asked(a, events).len() == finished(a, events) + after(
            a,
            events,
        ).in_flight(),
        after(a, events).in_flight() <= 1,
    decreases events.len(),
{
    if events.len() > 0 {
        lemma_one_in_flight(a, events.drop_last());
        lemma_after_wf(a, events.drop_last());
    }
}

/// The writer passes commands on in the order in which it receives them, and
/// leaves none out: where every command comes in turn, what the writer has
/// asked to have applied is what it has received.
pub proof fn lemma_asks_in_order_received(a: ActorView, events: Seq<ActorEvent>)
    requires
        in_turn(a, events),
    ensures
        asked(a, events) == received(events),
    decreases events.len(),
{
    if events.len() > 0 {
        lemma_asks_in_order_received(a, events.drop_last());
    }
}

/// A stopped writer stays stopped and asks for nothing more, whatever it is
/// told.
pub proof fn lemma_stopped_asks_nothing(a: ActorView, events: Seq<ActorEvent>)
    requires
        a.wf(),
        a.state == ActorState::Stopped,
    ensures
        after(a, events) == a,
        asked(a, events) == Seq::<WriterCommand>::empty(),
    decreases events.len(),
{
    if events.len() > 0 {
        lemma_stopped_asks_nothing(a, events.drop_last());
    }
}

/// What the store reports changes nothing about what the writer does next:
/// after any report it is in the state in which a success would have left it.
pub proof fn lemma_outcome_is_forgotten(
    a: ActorView,
    one: Result<(), StoreError>,
    other: Result<(), StoreError>,
)
    ensures
        a.step(ActorEvent::Applied(one)) == a.step(ActorEvent::Applied(other)),
{
}

/// The writer asks for a command to be applied only when none is in flight,
/// and it is the command that it has just received.
pub proof fn lemma_apply_only_when_idle(a: ActorView, event: ActorEvent)
    requires
        a.action(event) is Apply,
    ensures
        a.in_flight() == 0,
        a.step(event).in_flight() == 1,
        event == ActorEvent::Received(a.action(event)->Apply_0),
{
}

/// No command is dropped or made up: a command that the writer receives is
/// either handed on to be applied or handed back, and no other event yields a
/// command.
pub proof fn lemma_received_is_applied_or_refused(a: ActorView, event: ActorEvent)
    ensures
        event matches ActorEvent::Received(command) ==> a.action(event) == (if a.idle() {
            ActorAction::Apply(command)
        } else {
            ActorAction::Refuse(command)
        }),
        event !is Received ==> a.action(event) !is Apply && a.action(event) !is Refuse,
{
}

/// A writer that is running stays running whatever the store reports, and is
/// free for the next command afterwards.
pub proof fn lemma_failure_is_not_fatal(a: ActorView, outcome: Result<(), StoreError>)
    requires
        a.state == ActorState::Running,
    ensures
        a.step(ActorEvent::Applied(outcome)).idle(),
{
}

} // verus!
