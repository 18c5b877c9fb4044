//! What a run of the write path has accepted and applied.
//!
//! A run is a start state and a finite sequence of steps, taken in any order
//! by any number of producers, the writer and the store. The functions here
//! read off a run what was accepted into the queue and what was handed to the
//! store; the lemmas say how the two relate, whatever the run.

use vstd::prelude::*;
use crate::models::v1::commands::writer_command::WriterCommand;
use crate::models::v1::errors::writer_error::QueueClosed;
use crate::models::v1::errors::writer_error::StoreError;
use crate::services::v1::commands::command_queue::QueueView;
use crate::services::v1::commands::command_queue::Submission;
use crate::services::v1::commands::command_queue::Taken;
use crate::services::v1::commands::command_service::ServiceView;
use crate::services::v1::commands::writer_actor::ActorAction;
use crate::services::v1::commands::writer_actor::ActorState;

verus! {

/// One step of a run.
pub enum ServiceStep {
    /// A producer offers a command.
    Submit { producer: nat, command: WriterCommand },
    /// The producer side is closed.
    Close,
    /// The writer is given its turn.
    Pump,
    /// The store reports that it has finished, with this outcome.
    Complete(Result<(), StoreError>),
}

/// A command that the queue accepted, with the producer it came from.
pub struct Accepted {
    pub producer: nat,
    pub command: WriterCommand,
}

/// The service after one step.
pub open spec fn step(s: ServiceView, step: ServiceStep) -> ServiceView {
    match step {
        ServiceStep::Submit { producer, command } => s.submit(command),
        ServiceStep::Close => s.close(),
        ServiceStep::Pump => s.pump(),
        ServiceStep::Complete(outcome) => s.complete(outcome),
    }
}

/// The service after a run.
pub open spec fn run(s: ServiceView, steps: Seq<ServiceStep>) -> ServiceView
    decreases steps.len(),
{
    if steps.len() == 0 {
        s
    } else {
        step(run(s, steps.drop_last()), steps.last())
    }
}

/// The submission that a step gets accepted, if it does.
pub open spec fn step_accepts(s: ServiceView, step: ServiceStep) -> Option<Accepted> {
    match step {
        ServiceStep::Submit { producer, command } => {
            if s.queue.accepts() {
                Some(Accepted { producer, command })
            } else {
                None
            }
        },
        _ => None,
    }
}

/// The command that a step hands to the store, if it does.
pub open spec fn step_applies(s: ServiceView, step: ServiceStep) -> Option<WriterCommand> {
    match step {
        ServiceStep::Pump => match s.pump_action() {
            ActorAction::Apply(command) => Some(command),
            _ => None,
        },
        _ => None,
    }
}

/// Whether a step is the report that ends an apply in flight.
pub open spec fn step_completes(s: ServiceView, step: ServiceStep) -> bool {
    step is Complete && s.actor.applying
}

/// The submissions that a run got accepted, in the order in which they were
/// accepted.
pub open spec fn accepted(s: ServiceView, steps: Seq<ServiceStep>) -> Seq<Accepted>
    decreases steps.len(),
{
    if steps.len() == 0 {
        Seq::empty()
    } else {
        let earlier = accepted(s, steps.drop_last());
        match step_accepts(run(s, steps.drop_last()), steps.last()) {
            Some(a) => earlier.push(a),
            None => earlier,
        }
    }
}

/// The commands that a run handed to the store, in the order in which it did.
pub open spec fn applied(s: ServiceView, steps: Seq<ServiceStep>) -> Seq<WriterCommand>
    decreases steps.len(),
{
    if steps.len() == 0 {
        Seq::empty()
    } else {
        let earlier = applied(s, steps.drop_last());
        match step_applies(run(s, steps.drop_last()), steps.last()) {
            Some(command) => earlier.push(command),
            None => earlier,
        }
    }
}

/// How many applies a run saw finished.
pub open spec fn completed(s: ServiceView, steps: Seq<ServiceStep>) -> nat
    decreases steps.len(),
{
    if steps.len() == 0 {
        0
    } else {
        let earlier = completed(s, steps.drop_last());
        if step_completes(run(s, steps.drop_last()), steps.last()) {
            earlier + 1
        } else {
            earlier
        }
    }
}

/// The commands of a log of accepted submissions.
pub open spec fn commands(log: Seq<Accepted>) -> Seq<WriterCommand> {
    log.map_values(|a: Accepted| a.command)
}

/// The commands in a log that came from one producer.
pub open spec fn from_producer(log: Seq<Accepted>, producer: nat) -> Seq<WriterCommand> {
    commands(log.filter(|a: Accepted| a.producer == producer))
}

/// No step leads out of the well-formed states.
pub proof fn lemma_step_wf(s: ServiceView, st: ServiceStep)
    requires
        s.wf(),
    ensures
        step(s, st).wf(),
{
}

/// No run leads out of the well-formed states.
pub proof fn lemma_run_wf(s: ServiceView, steps: Seq<ServiceStep>)
    requires
        s.wf(),
    ensures
        run(s, steps).wf(),
    decreases steps.len(),
{
    if steps.len() > 0 {
        lemma_run_wf(s, steps.drop_last());
        lemma_step_wf(run(s, steps.drop_last()), steps.last());
    }
}

/// The queue is first-in-first-out across all producers: what was pending at
/// the start followed by what the run got accepted is what the run handed to
/// the store followed by what is still pending.
pub proof fn lemma_applied_then_pending(s: ServiceView, steps: Seq<ServiceStep>)
    requires
        s.wf(),
    ensures
        s.queue.pending + commands(accepted(s, steps)) == applied(s, steps) + run(
            s,
            steps,
        ).queue.pending,
    decreases steps.len(),
{
    if steps.len() == 0 {
        assert(s.queue.pending + commands(accepted(s, steps)) =~= applied(s, steps) + run(
            s,
            steps,
        ).queue.pending);
    } else {
        let earlier = steps.drop_last();
        let before = run(s, earlier);
        lemma_applied_then_pending(s, earlier);
        lemma_run_wf(s, earlier);
        let start = s.queue.pending;
        let log = accepted(s, earlier);
        let done = applied(s, earlier);
        assert(start + commands(log) == done + before.queue.pending);
        match steps.last() {
            ServiceStep::Submit { producer, command } => {
                if before.queue.accepts() {
                    let a = Accepted { producer, command };
                    assert(commands(log.push(a)) =~= commands(log).push(command));
                    assert(start + commands(log).push(command) =~= (start + commands(log)).push(
                        command,
                    ));
                    assert(done + before.queue.pending.push(command) =~= (done
                        + before.queue.pending).push(command));
                }
            },
            ServiceStep::Close => {},
            ServiceStep::Pump => {
                if before.actor.idle() && before.queue.pending.len() > 0 {
                    let head = before.queue.pending[0];
                    assert(done.push(head) + before.queue.pending.drop_first() =~= done
                        + before.queue.pending);
                }
            },
            ServiceStep::Complete(outcome) => {},
        }
    }
}

/// Commands reach the store in the order in which the queue accepted them:
/// what a freshly started service has handed to the store is, at every moment,
/// the front part of what it has accepted.
pub proof fn lemma_applied_in_accepted_order(capacity: nat, steps: Seq<ServiceStep>)
    requires
        ServiceView::fresh(capacity).wf(),
    ensures
        applied(ServiceView::fresh(capacity), steps).is_prefix_of(
            commands(accepted(ServiceView::fresh(capacity), steps)),
        ),
        forall|k: int|
            0 <= k < applied(ServiceView::fresh(capacity), steps).len() ==> applied(
                ServiceView::fresh(capacity),
                steps,
            )[k] == #[trigger] accepted(ServiceView::fresh(capacity), steps)[k].command,
{
    let s = ServiceView::fresh(capacity);
    lemma_applied_then_pending(s, steps);
    let all = commands(accepted(s, steps));
    let done = applied(s, steps);
    let rest = run(s, steps).queue.pending;
    assert(s.queue.pending + all =~= all);
    assert(all == done + rest);
    assert(done =~= all.subrange(0, done.len() as int));
}

/// No command overtakes another: of two commands that a freshly started
/// service has accepted, the later one is handed to the store only after the
/// earlier one, whichever producers they came from.
pub proof fn lemma_no_overtaking(capacity: nat, steps: Seq<ServiceStep>, i: int, j: int)
    requires
        ServiceView::fresh(capacity).wf(),
        0 <= i < j < accepted(ServiceView::fresh(capacity), steps).len(),
        j < applied(ServiceView::fresh(capacity), steps).len(),
    ensures
        applied(ServiceView::fresh(capacity), steps)[i] == accepted(
            ServiceView::fresh(capacity),
            steps,
        )[i].command,
        applied(ServiceView::fresh(capacity), steps)[j] == accepted(
            ServiceView::fresh(capacity),
            steps,
        )[j].command,
{
    lemma_applied_in_accepted_order(capacity, steps);
}

/// No producer sees two of its commands change places: of the commands that
/// one producer got accepted, those that a freshly started service has handed
/// to the store are the front part, in the order in which they were accepted.
pub proof fn lemma_producer_order(capacity: nat, steps: Seq<ServiceStep>, producer: nat)
    requires
        ServiceView::fresh(capacity).wf(),
    ensures
        applied(ServiceView::fresh(capacity), steps).len() <= accepted(
            ServiceView::fresh(capacity),
            steps,
        ).len(),
        from_producer(
            accepted(ServiceView::fresh(capacity), steps).take(
                applied(ServiceView::fresh(capacity), steps).len() as int,
            ),
            producer,
        ).is_prefix_of(from_producer(accepted(ServiceView::fresh(capacity), steps), producer)),
{
    let s = ServiceView::fresh(capacity);
    lemma_applied_in_accepted_order(capacity, steps);
    let log = accepted(s, steps);
    let n = applied(s, steps).len() as int;
    let of = |a: Accepted| a.producer == producer;
    let front = log.take(n);
    let back = log.skip(n);
    assert(log =~= front + back);
    Seq::filter_distributes_over_add(front, back, of);
    assert(commands(front.filter(of) + back.filter(of)) =~= commands(front.filter(of)) + commands(
        back.filter(of),
    ));
    let mine = from_producer(log, producer);
    let mine_done = from_producer(front, producer);
    assert(mine == mine_done + commands(back.filter(of)));
    assert(mine_done =~= mine.subrange(0, mine_done.len() as int));
}

/// The store is never asked to apply a command while another is in flight:
/// over any run, the applies begun and the applies finished differ by what is
/// in flight, and that is never more than one.
pub proof fn lemma_one_apply_in_flight(s: ServiceView, steps: Seq<ServiceStep>)
    requires
        s.wf(),
    ensures
        s.actor.in_flight() + applied(s, steps).len() == completed(s, steps) + run(
            s,
            steps,
        ).actor.in_flight(),
        run(s, steps).actor.in_flight() <= 1,
    decreases steps.len(),
{
    if steps.len() > 0 {
        lemma_one_apply_in_flight(s, steps.drop_last());
        lemma_run_wf(s, steps.drop_last());
    }
}

/// A step asks the store to apply a command only when nothing is in flight.
pub proof fn lemma_apply_starts_idle(s: ServiceView, st: ServiceStep)
    ensures
        step_applies(s, st) is Some ==> s.actor.in_flight() == 0 && step(
            s,
            st,
        ).actor.in_flight() == 1,
{
}

/// The queue after a row of submissions with nothing taken in between.
pub open spec fn submit_all(q: QueueView, offered: Seq<WriterCommand>) -> QueueView
    decreases offered.len(),
{
    if offered.len() == 0 {
        q
    } else {
        submit_all(q, offered.drop_last()).submit(offered.last())
    }
}

/// An open, empty queue accepts as many commands as it has room for, and holds
/// them in the order in which they came.
pub proof fn lemma_accepts_up_to_capacity(capacity: nat, offered: Seq<WriterCommand>)
    requires
        offered.len() <= capacity,
    ensures
        submit_all(QueueView::fresh(capacity), offered) == (QueueView {
            pending: offered,
            ..QueueView::fresh(capacity)
        }),
        forall|k: int|
            0 <= k < offered.len() ==> #[trigger] submit_all(
                QueueView::fresh(capacity),
                offered.take(k),
            ).accepts(),
    decreases offered.len(),
{
    let q = QueueView::fresh(capacity);
    if offered.len() == 0 {
        assert(offered =~= Seq::<WriterCommand>::empty());
    } else {
        let earlier = offered.drop_last();
        lemma_accepts_up_to_capacity(capacity, earlier);
        assert(earlier.push(offered.last()) =~= offered);
        assert forall|k: int| 0 <= k < offered.len() implies #[trigger] submit_all(
            q,
            offered.take(k),
        ).accepts() by {
            if k < earlier.len() {
                assert(offered.take(k) =~= earlier.take(k));
            } else {
                assert(offered.take(k) =~= earlier);
            }
        }
    }
}

/// A full queue pushes back: once as many commands as the queue has room for
/// have been accepted and none taken, the next submission is suspended and
/// changes nothing, however often it is made; after one command has been
/// taken, it is accepted, behind the others.
pub proof fn lemma_full_queue_suspends(
    capacity: nat,
    offered: Seq<WriterCommand>,
    next: WriterCommand,
)
    requires
        0 < capacity,
        offered.len() == capacity,
    ensures
        ({
            let full = submit_all(QueueView::fresh(capacity), offered);
            &&& full.submit_result(next) == Ok::<Submission, QueueClosed>(
                Submission::Suspended(next),
            )
            &&& full.submit(next) == full
            &&& full.take_result() == Taken::Command(offered[0])
            &&& full.take().submit_result(next) == Ok::<Submission, QueueClosed>(
                Submission::Enqueued,
            )
            &&& full.take().submit(next).pending == offered.drop_first().push(next)
        }),
{
    lemma_accepts_up_to_capacity(capacity, offered);
}

/// Two runs that differ at most in what the store reported.
pub open spec fn same_but_outcomes(a: Seq<ServiceStep>, b: Seq<ServiceStep>) -> bool {
    &&& a.len() == b.len()
    &&& forall|i: int|
        0 <= i < a.len() ==> (#[trigger] a[i] == b[i] || (a[i] is Complete && b[i] is Complete))
}

/// A failed apply has no say in what happens next: two runs that differ only
/// in the outcomes that the store reported end in the same state, and have
/// accepted and handed to the store the same commands in the same order.
pub proof fn lemma_outcomes_change_nothing(
    s: ServiceView,
    a: Seq<ServiceStep>,
    b: Seq<ServiceStep>,
)
    requires
        same_but_outcomes(a, b),
    ensures
        run(s, a) == run(s, b),
        applied(s, a) == applied(s, b),
        accepted(s, a) == accepted(s, b),
        completed(s, a) == completed(s, b),
    decreases a.len(),
{
    if a.len() > 0 {
        lemma_outcomes_change_nothing(s, a.drop_last(), b.drop_last());
        assert(a.last() == a[a.len() - 1]);
        assert(b.last() == b[b.len() - 1]);
    }
}

/// After a failed apply the writer is idle and running, and its next turn
/// hands the oldest pending command to the store.
pub proof fn lemma_next_is_applied_after_failure(s: ServiceView, reason: StoreError)
    requires
        s.wf(),
        s.actor.applying,
    ensures
        s.complete(Err(reason)).actor.idle(),
        s.complete(Err(reason)).queue == s.queue,
        s.queue.pending.len() > 0 ==> s.complete(Err(reason)).pump_action() == ActorAction::Apply(
            s.queue.pending[0],
        ),
{
}

/// A run in two parts: the second part starts where the first has ended, and
/// what the run accepted, applied and saw finished is what the two parts did,
/// one after the other.
pub proof fn lemma_run_in_two_parts(s: ServiceView, a: Seq<ServiceStep>, b: Seq<ServiceStep>)
    ensures
        run(s, a + b) == run(run(s, a), b),
        applied(s, a + b) == applied(s, a) + applied(run(s, a), b),
        accepted(s, a + b) == accepted(s, a) + accepted(run(s, a), b),
        completed(s, a + b) == completed(s, a) + completed(run(s, a), b),
    decreases b.len(),
{
    if b.len() == 0 {
        assert(a + b =~= a);
        assert(applied(s, a) + applied(run(s, a), b) =~= applied(s, a));
        assert(accepted(s, a) + accepted(run(s, a), b) =~= accepted(s, a));
    } else {
        let earlier = b.drop_last();
        lemma_run_in_two_parts(s, a, earlier);
        assert((a + b).drop_last() =~= a + earlier);
        assert((a + b).last() == b.last());
        let before = run(run(s, a), earlier);
        match step_applies(before, b.last()) {
            Some(command) => {
                assert((applied(s, a) + applied(run(s, a), earlier)).push(command) =~= applied(s, a)
                    + applied(run(s, a), earlier).push(command));
            },
            None => {},
        }
        match step_accepts(before, b.last()) {
            Some(x) => {
                assert((accepted(s, a) + accepted(run(s, a), earlier)).push(x) =~= accepted(s, a)
                    + accepted(run(s, a), earlier).push(x));
            },
            None => {},
        }
    }
}

/// A stopped writer stays stopped: whatever is tried on a service whose writer
/// has stopped, nothing is accepted, nothing is handed to the store, and the
/// service stays as it is.
pub proof fn lemma_stopped_is_final(s: ServiceView, steps: Seq<ServiceStep>)
    requires
        s.wf(),
        s.actor.state == ActorState::Stopped,
    ensures
        run(s, steps) == s,
        applied(s, steps) == Seq::<WriterCommand>::empty(),
        accepted(s, steps) == Seq::<Accepted>::empty(),
    decreases steps.len(),
{
    if steps.len() > 0 {
        lemma_stopped_is_final(s, steps.drop_last());
    }
}

/// The writer stops only when its work is done: where a freshly started
/// service has stopped, the queue is closed and empty, nothing is in flight,
/// and every command that was accepted has been handed to the store, in the
/// order in which it was accepted.
pub proof fn lemma_stopped_means_drained(capacity: nat, steps: Seq<ServiceStep>)
    requires
        ServiceView::fresh(capacity).wf(),
        run(ServiceView::fresh(capacity), steps).actor.state == ActorState::Stopped,
    ensures
        run(ServiceView::fresh(capacity), steps).queue.closed,
        run(ServiceView::fresh(capacity), steps).queue.pending.len() == 0,
        run(ServiceView::fresh(capacity), steps).actor.in_flight() == 0,
        applied(ServiceView::fresh(capacity), steps) == commands(
            accepted(ServiceView::fresh(capacity), steps),
        ),
{
    let s = ServiceView::fresh(capacity);
    lemma_run_wf(s, steps);
    lemma_applied_then_pending(s, steps);
    assert(s.queue.pending + commands(accepted(s, steps)) =~= commands(accepted(s, steps)));
    assert(applied(s, steps) + run(s, steps).queue.pending =~= applied(s, steps));
}

/// The steps by which the writer empties the queue: a turn for the writer and
/// a report from the store for each outcome given, then one more turn.
pub open spec fn drain(outcomes: Seq<Result<(), StoreError>>) -> Seq<ServiceStep>
    decreases outcomes.len(),
{
    if outcomes.len() == 0 {
        seq![ServiceStep::Pump]
    } else {
        seq![ServiceStep::Pump, ServiceStep::Complete(outcomes[0])] + drain(
            outcomes.drop_first(),
        )
    }
}

/// The steps by which a running writer comes to its end: the report on the
/// command in flight, if there is one, and then the steps that empty the
/// queue.
pub open spec fn wind_down(s: ServiceView, outcomes: Seq<Result<(), StoreError>>) -> Seq<
    ServiceStep,
> {
    if s.actor.applying {
        seq![ServiceStep::Complete(outcomes[0])] + drain(outcomes.drop_first())
    } else {
        drain(outcomes)
    }
}

/// Once the queue is closed, an idle writer that is given its turns hands
/// every pending command to the store, oldest first and whatever the outcomes,
/// and only then stops.
pub proof fn lemma_closed_queue_is_drained(s: ServiceView, outcomes: Seq<Result<(), StoreError>>)
    requires
        s.wf(),
        s.queue.closed,
        s.actor.idle(),
        outcomes.len() == s.queue.pending.len(),
    ensures
        applied(s, drain(outcomes)) == s.queue.pending,
        completed(s, drain(outcomes)) == s.queue.pending.len(),
        run(s, drain(outcomes)).actor.state == ActorState::Stopped,
    decreases outcomes.len(),
{
    let nothing = Seq::<ServiceStep>::empty();
    let pump = seq![ServiceStep::Pump];
    assert(pump.drop_last() =~= nothing);
    assert(pump.last() == ServiceStep::Pump);
    assert(run(s, nothing) == s);
    assert(applied(s, nothing) =~= Seq::<WriterCommand>::empty());
    assert(completed(s, nothing) == 0);
    assert(run(s, pump) == s.pump());
    if outcomes.len() == 0 {
        assert(applied(s, pump) =~= s.queue.pending);
    } else {
        let head = s.queue.pending[0];
        let round = seq![ServiceStep::Pump, ServiceStep::Complete(outcomes[0])];
        assert(round.drop_last() =~= pump);
        assert(round.last() == ServiceStep::Complete(outcomes[0]));
        let after = s.pump().complete(outcomes[0]);
        assert(run(s, round) == after);
        assert(applied(s, pump) =~= seq![head]);
        assert(applied(s, round) =~= seq![head]);
        assert(completed(s, pump) == 0);
        assert(completed(s, round) == 1);
        lemma_closed_queue_is_drained(after, outcomes.drop_first());
        lemma_run_in_two_parts(s, round, drain(outcomes.drop_first()));
        assert(seq![head] + s.queue.pending.drop_first() =~= s.queue.pending);
    }
}

/// Closing the producer side loses nothing. Once the queue is closed, a
/// running writer that is given its turns, with the store reporting on each
/// command in turn, hands every pending command to the store, oldest first and
/// whatever the outcomes, and stops only when the queue is empty and the last
/// command has been reported on.
pub proof fn lemma_shutdown_drains(s: ServiceView, outcomes: Seq<Result<(), StoreError>>)
    requires
        s.wf(),
        s.queue.closed,
        s.actor.state == ActorState::Running,
        outcomes.len() == s.queue.pending.len() + s.actor.in_flight(),
    ensures
        applied(s, wind_down(s, outcomes)) == s.queue.pending,
        completed(s, wind_down(s, outcomes)) == outcomes.len(),
        run(s, wind_down(s, outcomes)).actor.state == ActorState::Stopped,
        run(s, wind_down(s, outcomes)).queue.pending.len() == 0,
        run(s, wind_down(s, outcomes)).actor.in_flight() == 0,
{
    if s.actor.applying {
        let nothing = Seq::<ServiceStep>::empty();
        let report = seq![ServiceStep::Complete(outcomes[0])];
        assert(report.drop_last() =~= nothing);
        assert(report.last() == ServiceStep::Complete(outcomes[0]));
        assert(run(s, nothing) == s);
        assert(applied(s, nothing) =~= Seq::<WriterCommand>::empty());
        assert(completed(s, nothing) == 0);
        let after = s.complete(outcomes[0]);
        assert(run(s, report) == after);
        assert(applied(s, report) =~= Seq::<WriterCommand>::empty());
        assert(completed(s, report) == 1);
        lemma_closed_queue_is_drained(after, outcomes.drop_first());
        lemma_run_in_two_parts(s, report, drain(outcomes.drop_first()));
        assert(Seq::<WriterCommand>::empty() + s.queue.pending =~= s.queue.pending);
    } else {
        lemma_closed_queue_is_drained(s, outcomes);
    }
    lemma_run_wf(s, wind_down(s, outcomes));
}

} // verus!
