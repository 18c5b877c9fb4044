use receipt_repository_api::models::v1::commands::writer_command::WriterCommand;
use receipt_repository_api::models::v1::errors::writer_error::ApplyFailed;
use receipt_repository_api::models::v1::errors::writer_error::QueueClosed;
use receipt_repository_api::models::v1::errors::writer_error::StoreError;
use receipt_repository_api::models::v1::forms::patch_payload::PatchCurrencyPayload;
use receipt_repository_api::models::v1::forms::patch_payload::PatchStorePayload;
use receipt_repository_api::services::v1::commands::command_queue::Submission;
use receipt_repository_api::services::v1::commands::command_service::CommandService;
use receipt_repository_api::services::v1::commands::writer_actor::ActorAction;
use receipt_repository_api::services::v1::commands::writer_actor::ActorState;

fn currency(id: i32, name: &str) -> WriterCommand {
    WriterCommand::PatchCurrency(id, PatchCurrencyPayload { name: Some(name.to_string()) })
}

fn store(id: i32, name: &str) -> WriterCommand {
    WriterCommand::PatchStore(id, PatchStorePayload { name: Some(name.to_string()) })
}

/// A store that keeps names by key, records every call in order, and counts
/// how many calls are under way at once.
struct RecordingStore {
    currencies: Vec<(i32, String)>,
    stores: Vec<(i32, String)>,
    calls: Vec<WriterCommand>,
    under_way: usize,
    most_under_way: usize,
}

impl RecordingStore {
    fn new(currencies: &[(i32, &str)], stores: &[(i32, &str)]) -> RecordingStore {
        RecordingStore {
            currencies: currencies.iter().map(|(id, name)| (*id, name.to_string())).collect(),
            stores: stores.iter().map(|(id, name)| (*id, name.to_string())).collect(),
            calls: Vec::new(),
            under_way: 0,
            most_under_way: 0,
        }
    }

    fn begin(&mut self, command: &WriterCommand) {
        self.calls.push(command.clone());
        self.under_way += 1;
        self.most_under_way = self.most_under_way.max(self.under_way);
    }

    fn finish(&mut self, command: &WriterCommand) -> Result<(), StoreError> {
        self.under_way -= 1;
        match command {
            WriterCommand::PatchCurrency(id, patch) => {
                match self.currencies.iter_mut().find(|(key, _)| key == id) {
                    Some((_, name)) => {
                        patch.apply_to(name);
                        Ok(())
                    }
                    None => Err(StoreError::NotFound),
                }
            }
            WriterCommand::PatchStore(id, patch) => {
                match self.stores.iter_mut().find(|(key, _)| key == id) {
                    Some((_, name)) => {
                        patch.apply_to(name);
                        Ok(())
                    }
                    None => Err(StoreError::NotFound),
                }
            }
        }
    }

    fn currency(&self, id: i32) -> Option<&str> {
        self.currencies.iter().find(|(key, _)| *key == id).map(|(_, name)| name.as_str())
    }

    fn store(&self, id: i32) -> Option<&str> {
        self.stores.iter().find(|(key, _)| *key == id).map(|(_, name)| name.as_str())
    }
}

/// Gives the writer turns until it has nothing to do, applying each command to
/// the store. Returns the failures that the writer reported.
fn pump_until_idle(service: &mut CommandService, repository: &mut RecordingStore) -> Vec<ApplyFailed> {
    let mut reported = Vec::new();
    loop {
        match service.pump() {
            ActorAction::Apply(command) => {
                repository.begin(&command);
                let outcome = repository.finish(&command);
                match service.complete(outcome) {
                    ActorAction::Receive => {}
                    ActorAction::Report(failure) => reported.push(failure),
                    other => panic!("unexpected answer to a completion: {other:?}"),
                }
            }
            ActorAction::Receive | ActorAction::Halt => return reported,
            other => panic!("unexpected answer to a turn: {other:?}"),
        }
    }
}

#[test]
fn three_producers_two_places() {
    let mut service = CommandService::run(2);
    let mut repository = RecordingStore::new(&[(5, "Dollar")], &[(9, "Store")]);
    let first = currency(5, "USD");
    let second = store(9, "Acme");
    let third = currency(5, "US Dollar");

    // three producers submit one command each, in this order
    assert_eq!(service.submit(first.clone()), Ok(Submission::Enqueued));
    assert_eq!(service.submit(second.clone()), Ok(Submission::Enqueued));
    // the queue has two places: the third producer has to wait
    let waiting = match service.submit(third.clone()) {
        Ok(Submission::Suspended(command)) => command,
        other => panic!("the third submission should wait, got {other:?}"),
    };
    assert_eq!(waiting, third);
    assert_eq!(service.pending(), 2);

    // the writer takes the first command, which makes room for the third
    let action = service.pump();
    assert_eq!(action, ActorAction::Apply(first.clone()));
    repository.begin(&first);
    assert_eq!(service.submit(waiting), Ok(Submission::Enqueued));
    let outcome = repository.finish(&first);
    assert_eq!(service.complete(outcome), ActorAction::Receive);
    assert_eq!(repository.currency(5), Some("USD"));

    assert!(pump_until_idle(&mut service, &mut repository).is_empty());
    assert_eq!(repository.calls, vec![first, second, third]);
    assert_eq!(repository.currency(5), Some("US Dollar"));
    assert_eq!(repository.store(9), Some("Acme"));
    assert_eq!(repository.most_under_way, 1);
}

#[test]
fn the_last_accepted_patch_of_a_row_wins() {
    let mut service = CommandService::run(4);
    let mut repository = RecordingStore::new(&[(5, "Dollar")], &[]);
    for name in ["zz", "US Dollar", "aa", "USD"] {
        assert_eq!(service.submit(currency(5, name)), Ok(Submission::Enqueued));
    }
    assert!(pump_until_idle(&mut service, &mut repository).is_empty());
    assert_eq!(repository.currency(5), Some("USD"));
}

#[test]
fn a_patch_without_fields_leaves_the_row_as_it_is() {
    let mut service = CommandService::run(2);
    let mut repository = RecordingStore::new(&[(1, "Euro")], &[(1, "Corner shop")]);
    let nothing = WriterCommand::PatchCurrency(1, PatchCurrencyPayload { name: None });
    assert_eq!(service.submit(nothing), Ok(Submission::Enqueued));
    let nothing = WriterCommand::PatchStore(1, PatchStorePayload { name: None });
    assert_eq!(service.submit(nothing), Ok(Submission::Enqueued));
    assert!(pump_until_idle(&mut service, &mut repository).is_empty());
    assert_eq!(repository.calls.len(), 2);
    assert_eq!(repository.currency(1), Some("Euro"));
    assert_eq!(repository.store(1), Some("Corner shop"));
}

#[test]
fn commands_of_interleaved_producers_keep_their_order() {
    let mut service = CommandService::run(3);
    let mut repository = RecordingStore::new(&[(1, ""), (2, ""), (3, "")], &[]);
    // three producers, each with its own row and its own numbered commands
    let mut next = [0usize; 3];
    let mut accepted = Vec::new();
    let schedule = [0usize, 1, 0, 2, 2, 1, 0, 1, 2, 0, 0, 1];
    for (step, producer) in schedule.iter().enumerate() {
        let command = currency(*producer as i32 + 1, &format!("{}", next[*producer]));
        match service.submit(command.clone()) {
            Ok(Submission::Enqueued) => {
                next[*producer] += 1;
                accepted.push(command);
            }
            Ok(Submission::Suspended(back)) => assert_eq!(back, command),
            Err(closed) => panic!("the queue is open: {closed:?}"),
        }
        if step % 4 == 3 {
            pump_until_idle(&mut service, &mut repository);
        }
    }
    pump_until_idle(&mut service, &mut repository);

    assert_eq!(repository.calls, accepted);
    for producer in 0..3 {
        let mine: Vec<String> = repository
            .calls
            .iter()
            .filter_map(|command| match command {
                WriterCommand::PatchCurrency(id, patch) if *id == producer + 1 => patch.name.clone(),
                _ => None,
            })
            .collect();
        let expected: Vec<String> = (0..mine.len()).map(|n| format!("{n}")).collect();
        assert_eq!(mine, expected);
    }
    assert_eq!(repository.most_under_way, 1);
}

#[test]
fn one_submission_too_many_waits_for_a_take() {
    for capacity in [1usize, 2, 5, 16] {
        let mut service = CommandService::run(capacity);
        for n in 0..capacity {
            assert_eq!(service.submit(store(n as i32, "s")), Ok(Submission::Enqueued));
        }
        let extra = store(-1, "extra");
        for _ in 0..3 {
            assert_eq!(service.submit(extra.clone()), Ok(Submission::Suspended(extra.clone())));
            assert_eq!(service.pending(), capacity);
        }
        assert_eq!(service.pump(), ActorAction::Apply(store(0, "s")));
        assert_eq!(service.pending(), capacity - 1);
        assert_eq!(service.submit(extra.clone()), Ok(Submission::Enqueued));
        assert_eq!(service.pending(), capacity);
        assert_eq!(service.submit(extra.clone()), Ok(Submission::Suspended(extra)));
    }
}

#[test]
fn room_is_made_by_taking_not_by_finishing() {
    let mut service = CommandService::run(1);
    assert_eq!(service.submit(store(1, "a")), Ok(Submission::Enqueued));
    assert_eq!(service.pump(), ActorAction::Apply(store(1, "a")));
    assert!(service.is_applying());
    assert_eq!(service.submit(store(2, "b")), Ok(Submission::Enqueued));
    assert_eq!(service.submit(store(3, "c")), Ok(Submission::Suspended(store(3, "c"))));
    assert_eq!(service.complete(Ok(())), ActorAction::Receive);
    assert_eq!(service.submit(store(3, "c")), Ok(Submission::Suspended(store(3, "c"))));
}

#[test]
fn the_writer_takes_nothing_while_the_store_is_busy() {
    let mut service = CommandService::run(3);
    assert_eq!(service.submit(store(1, "a")), Ok(Submission::Enqueued));
    assert_eq!(service.submit(store(2, "b")), Ok(Submission::Enqueued));
    assert_eq!(service.pump(), ActorAction::Apply(store(1, "a")));
    for _ in 0..4 {
        assert_eq!(service.pump(), ActorAction::AwaitCompletion);
        assert_eq!(service.pending(), 1);
        assert!(service.is_applying());
    }
    assert_eq!(service.complete(Ok(())), ActorAction::Receive);
    assert!(!service.is_applying());
    assert_eq!(service.pump(), ActorAction::Apply(store(2, "b")));
}

#[test]
fn a_failed_command_does_not_hold_up_the_next() {
    let mut service = CommandService::run(4);
    let mut repository = RecordingStore::new(&[(1, "Euro")], &[(1, "Corner shop")]);
    let commands = vec![
        currency(1, "EUR"),
        currency(404, "missing"),
        store(404, "missing"),
        store(1, "Acme"),
    ];
    for command in commands.clone() {
        assert_eq!(service.submit(command), Ok(Submission::Enqueued));
    }
    let reported = pump_until_idle(&mut service, &mut repository);
    assert_eq!(reported, vec![ApplyFailed(StoreError::NotFound), ApplyFailed(StoreError::NotFound)]);
    assert_eq!(repository.calls, commands);
    assert_eq!(repository.currency(1), Some("EUR"));
    assert_eq!(repository.store(1), Some("Acme"));
    assert_eq!(service.state(), ActorState::Running);
}

#[test]
fn every_kind_of_failure_is_reported_once_and_not_retried() {
    for reason in [StoreError::NotFound, StoreError::ConstraintViolation, StoreError::Connectivity] {
        let mut service = CommandService::run(2);
        assert_eq!(service.submit(store(1, "a")), Ok(Submission::Enqueued));
        assert_eq!(service.submit(store(2, "b")), Ok(Submission::Enqueued));
        assert_eq!(service.pump(), ActorAction::Apply(store(1, "a")));
        assert_eq!(service.complete(Err(reason)), ActorAction::Report(ApplyFailed(reason)));
        assert_eq!(service.state(), ActorState::Running);
        assert_eq!(service.pump(), ActorAction::Apply(store(2, "b")));
        assert_eq!(service.complete(Ok(())), ActorAction::Receive);
        assert_eq!(service.pump(), ActorAction::Receive);
    }
}

#[test]
fn closing_drains_the_queue_before_the_writer_stops() {
    let mut service = CommandService::run(3);
    let mut repository = RecordingStore::new(&[(1, "Euro"), (2, "Yen")], &[]);
    let commands = vec![currency(1, "EUR"), currency(2, "JPY"), currency(3, "???")];
    for command in commands.clone() {
        assert_eq!(service.submit(command), Ok(Submission::Enqueued));
    }
    service.close();
    assert_eq!(service.state(), ActorState::Running);
    assert_eq!(service.submit(currency(1, "late")), Err(QueueClosed(currency(1, "late"))));

    let reported = pump_until_idle(&mut service, &mut repository);
    assert_eq!(reported, vec![ApplyFailed(StoreError::NotFound)]);
    assert_eq!(repository.calls, commands);
    assert_eq!(service.pending(), 0);
    assert_eq!(service.state(), ActorState::Stopped);
}

#[test]
fn closing_while_the_store_is_busy_waits_for_it() {
    let mut service = CommandService::run(2);
    assert_eq!(service.submit(store(1, "a")), Ok(Submission::Enqueued));
    assert_eq!(service.pump(), ActorAction::Apply(store(1, "a")));
    service.close();
    assert_eq!(service.pump(), ActorAction::AwaitCompletion);
    assert_eq!(service.state(), ActorState::Running);
    assert_eq!(service.complete(Ok(())), ActorAction::Receive);
    assert_eq!(service.pump(), ActorAction::Halt);
    assert_eq!(service.state(), ActorState::Stopped);
}

#[test]
fn a_stopped_service_does_nothing_more() {
    let mut service = CommandService::run(2);
    service.close();
    assert_eq!(service.pump(), ActorAction::Halt);
    assert_eq!(service.state(), ActorState::Stopped);
    for _ in 0..3 {
        assert_eq!(service.submit(store(1, "a")), Err(QueueClosed(store(1, "a"))));
        assert_eq!(service.pump(), ActorAction::Halt);
        assert_eq!(service.complete(Ok(())), ActorAction::Halt);
        assert_eq!(service.complete(Err(StoreError::Connectivity)), ActorAction::Halt);
        service.close();
        assert_eq!(service.pending(), 0);
        assert!(!service.is_applying());
        assert_eq!(service.state(), ActorState::Stopped);
    }
}

#[test]
fn an_open_empty_queue_keeps_the_writer_waiting() {
    let mut service = CommandService::run(2);
    for _ in 0..3 {
        assert_eq!(service.pump(), ActorAction::Receive);
        assert_eq!(service.state(), ActorState::Running);
    }
    assert_eq!(service.submit(store(1, "a")), Ok(Submission::Enqueued));
    assert_eq!(service.pump(), ActorAction::Apply(store(1, "a")));
}

#[test]
fn outcomes_do_not_change_what_is_applied() {
    let commands: Vec<WriterCommand> = (0..6).map(|n| store(n, "x")).collect();
    let mut runs = Vec::new();
    for failing in [0u32, 0b101010, 0b111111] {
        let mut service = CommandService::run(3);
        let mut applied = Vec::new();
        let mut offered = commands.clone().into_iter();
        let mut waiting: Option<WriterCommand> = None;
        loop {
            while let Some(command) = waiting.take().or_else(|| offered.next()) {
                match service.submit(command) {
                    Ok(Submission::Enqueued) => {}
                    Ok(Submission::Suspended(back)) => {
                        waiting = Some(back);
                        break;
                    }
                    Err(closed) => panic!("the queue is open: {closed:?}"),
                }
            }
            match service.pump() {
                ActorAction::Apply(command) => {
                    let fails = failing >> applied.len() & 1 == 1;
                    applied.push(command);
                    let outcome = if fails { Err(StoreError::ConstraintViolation) } else { Ok(()) };
                    service.complete(outcome);
                }
                ActorAction::Receive => break,
                other => panic!("unexpected answer to a turn: {other:?}"),
            }
        }
        runs.push(applied);
    }
    assert_eq!(runs[0], commands);
    assert_eq!(runs[1], commands);
    assert_eq!(runs[2], commands);
}

/// A small generator of numbers that look random and are the same in every
/// run.
struct Dice(u64);

impl Dice {
    fn roll(&mut self, sides: u64) -> u64 {
        self.0 = self.0.wrapping_mul(6364136223846793005).wrapping_add(1442695040888963407);
        (self.0 >> 33) % sides
    }
}

#[test]
fn any_schedule_applies_what_was_accepted_in_order_one_at_a_time() {
    for seed in 0..200u64 {
        let mut dice = Dice(seed);
        let capacity = 1 + dice.roll(4) as usize;
        let mut service = CommandService::run(capacity);
        let mut accepted: Vec<WriterCommand> = Vec::new();
        let mut applied: Vec<WriterCommand> = Vec::new();
        let mut closed = false;
        let mut in_flight = 0usize;
        let mut next_id = 0i32;

        for _ in 0..120 {
            match dice.roll(8) {
                0..=3 => {
                    let producer = dice.roll(3);
                    let command = store(next_id, &format!("producer {producer}"));
                    next_id += 1;
                    let room = service.pending() < capacity;
                    match service.submit(command.clone()) {
                        Ok(Submission::Enqueued) => {
                            assert!(!closed && room);
                            accepted.push(command);
                        }
                        Ok(Submission::Suspended(back)) => {
                            assert!(!closed && !room);
                            assert_eq!(back, command);
                        }
                        Err(QueueClosed(back)) => {
                            assert!(closed);
                            assert_eq!(back, command);
                        }
                    }
                }
                4 | 5 => match service.pump() {
                    ActorAction::Apply(command) => {
                        assert_eq!(in_flight, 0);
                        in_flight += 1;
                        applied.push(command);
                    }
                    ActorAction::AwaitCompletion => assert_eq!(in_flight, 1),
                    ActorAction::Receive => {
                        assert_eq!(in_flight, 0);
                        assert!(!closed);
                        assert_eq!(service.pending(), 0);
                    }
                    ActorAction::Halt => {
                        assert_eq!(in_flight, 0);
                        assert!(closed);
                        assert_eq!(service.pending(), 0);
                        assert_eq!(service.state(), ActorState::Stopped);
                    }
                    other => panic!("unexpected answer to a turn: {other:?}"),
                },
                6 => {
                    let outcome = match dice.roll(4) {
                        0 => Err(StoreError::NotFound),
                        1 => Err(StoreError::ConstraintViolation),
                        2 => Err(StoreError::Connectivity),
                        _ => Ok(()),
                    };
                    let stopped = service.state() == ActorState::Stopped;
                    let answer = service.complete(outcome);
                    if stopped {
                        assert_eq!(answer, ActorAction::Halt);
                    } else if in_flight == 1 {
                        match outcome {
                            Ok(()) => assert_eq!(answer, ActorAction::Receive),
                            Err(reason) => assert_eq!(answer, ActorAction::Report(ApplyFailed(reason))),
                        }
                    } else {
                        assert_eq!(answer, ActorAction::Receive);
                    }
                    in_flight = 0;
                }
                _ => {
                    if dice.roll(10) == 0 {
                        service.close();
                        closed = true;
                    }
                }
            }
            assert!(service.pending() <= capacity);
            assert!(in_flight <= 1);
            assert_eq!(service.is_applying(), in_flight == 1);
            assert_eq!(applied.len() + service.pending(), accepted.len());
            assert_eq!(applied[..], accepted[..applied.len()]);
        }

        service.close();
        if service.is_applying() {
            service.complete(Ok(()));
        }
        loop {
            match service.pump() {
                ActorAction::Apply(command) => {
                    applied.push(command);
                    service.complete(Err(StoreError::Connectivity));
                }
                ActorAction::Halt => break,
                other => panic!("unexpected answer to a turn: {other:?}"),
            }
        }
        assert_eq!(applied, accepted);
        assert_eq!(service.state(), ActorState::Stopped);
        assert_eq!(service.pending(), 0);
    }
}
