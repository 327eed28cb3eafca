use comic_pipeline::comic::{
    Comic, ComicConfig, ComicStage, ComicStatus, Outcome, OutputFormat, ProgressEvent,
};
use comic_pipeline::supervisor::{
    poll_kindlegen, Phase, PollAction, PollEvent, PollStep, Supervisor,
};

fn assembled(id: usize) -> Comic {
    let mut comic = Comic::new(
        id,
        format!("in/{}.cbz", id),
        String::from("out"),
        format!("comic-{}", id),
        ComicConfig { output_format: OutputFormat::Mobi },
    );
    comic.advance(Outcome::Extracted { images: 1 });
    comic.advance(Outcome::Transformed { files: vec![String::from("0.jpg")] });
    comic.advance(Outcome::Packaged);
    comic
}

fn update(id: usize, status: ComicStatus) -> Option<ProgressEvent> {
    Some(ProgressEvent::ComicUpdate { id, status })
}

fn converting() -> ComicStatus {
    ComicStatus::InProgress { stage: ComicStage::Convert, progress: 75 }
}

fn spawn(supervisor: &mut Supervisor, id: usize, handle: u64) {
    let step = poll_kindlegen(supervisor, PollEvent::Received { comic: assembled(id) });
    assert_eq!(step, PollStep { action: PollAction::Spawn, event: update(id, converting()) });
    let step = poll_kindlegen(supervisor, PollEvent::Spawned { handle });
    assert_eq!(step, PollStep { action: PollAction::Receive, event: None });
}

#[test]
fn new_supervisor_drains_first() {
    let supervisor = Supervisor::new();
    assert_eq!(supervisor.phase(), Phase::Drain);
    assert_eq!(supervisor.next_action(), PollAction::Receive);
    assert_eq!(supervisor.in_flight_count(), 0);
    assert_eq!(supervisor.spawning(), None);
}

#[test]
fn received_entity_enters_conversion() {
    let mut supervisor = Supervisor::new();
    let step = poll_kindlegen(&mut supervisor, PollEvent::Received { comic: assembled(3) });
    assert_eq!(step.action, PollAction::Spawn);
    assert_eq!(step.event, update(3, converting()));
    assert_eq!(supervisor.phase(), Phase::Spawn);
    let waiting = supervisor.spawning().unwrap();
    assert_eq!(waiting.id, 3);
    assert_eq!(waiting.stage, ComicStage::Convert);
    assert_eq!(waiting.status, converting());
    assert_eq!(supervisor.in_flight_count(), 0);
}

#[test]
fn spawn_failure_never_enters_the_set() {
    let mut supervisor = Supervisor::new();
    poll_kindlegen(&mut supervisor, PollEvent::Received { comic: assembled(0) });
    let step = poll_kindlegen(
        &mut supervisor,
        PollEvent::SpawnFailed { error: String::from("kindlegen not found") },
    );
    assert_eq!(
        step.event,
        update(0, ComicStatus::Failed { error: String::from("kindlegen not found") })
    );
    assert_eq!(step.action, PollAction::Receive);
    assert_eq!(supervisor.in_flight_count(), 0);
    assert_eq!(supervisor.spawning(), None);
    let step = poll_kindlegen(&mut supervisor, PollEvent::QueueClosed);
    assert_eq!(step, PollStep { action: PollAction::Stop, event: Some(ProgressEvent::ProcessingComplete) });
}

#[test]
fn empty_queue_with_nothing_in_flight_idles() {
    let mut supervisor = Supervisor::new();
    let step = poll_kindlegen(&mut supervisor, PollEvent::QueueEmpty);
    assert_eq!(step, PollStep { action: PollAction::Sleep { millis: 100 }, event: None });
    assert_eq!(supervisor.phase(), Phase::Idle);
    let step = poll_kindlegen(&mut supervisor, PollEvent::Slept);
    assert_eq!(step, PollStep { action: PollAction::Receive, event: None });
}

#[test]
fn closed_queue_with_work_in_flight_keeps_polling() {
    let mut supervisor = Supervisor::new();
    spawn(&mut supervisor, 0, 40);
    let step = poll_kindlegen(&mut supervisor, PollEvent::QueueClosed);
    assert_eq!(step, PollStep { action: PollAction::Check { handle: 40 }, event: None });
    let step = poll_kindlegen(&mut supervisor, PollEvent::Running);
    assert_eq!(step, PollStep { action: PollAction::Sleep { millis: 100 }, event: None });
    assert_eq!(supervisor.in_flight_count(), 1);
    assert_eq!(poll_kindlegen(&mut supervisor, PollEvent::Slept).action, PollAction::Receive);
    let step = poll_kindlegen(&mut supervisor, PollEvent::QueueClosed);
    assert_eq!(step, PollStep { action: PollAction::Check { handle: 40 }, event: None });
}

#[test]
fn collection_error_fails_the_entity_and_removes_the_record() {
    let mut supervisor = Supervisor::new();
    spawn(&mut supervisor, 0, 7);
    poll_kindlegen(&mut supervisor, PollEvent::QueueEmpty);
    let step = poll_kindlegen(&mut supervisor, PollEvent::Exited);
    assert_eq!(step, PollStep { action: PollAction::Collect { handle: 7 }, event: None });
    let step = poll_kindlegen(
        &mut supervisor,
        PollEvent::CollectFailed { error: String::from("exit status 1") },
    );
    assert_eq!(step.event, update(0, ComicStatus::Failed { error: String::from("exit status 1") }));
    assert_eq!(step.action, PollAction::Sleep { millis: 100 });
    assert_eq!(supervisor.in_flight_count(), 0);
}

#[test]
fn in_flight_count_is_received_less_finalized() {
    let mut supervisor = Supervisor::new();
    let mut received: usize = 0;
    let mut finalized: usize = 0;
    for id in 0..4 {
        spawn(&mut supervisor, id, 100 + id as u64);
        received += 1;
    }
    // one spawn fails
    poll_kindlegen(&mut supervisor, PollEvent::Received { comic: assembled(4) });
    poll_kindlegen(&mut supervisor, PollEvent::SpawnFailed { error: String::from("no") });
    received += 1;
    finalized += 1;
    assert_eq!(supervisor.in_flight_count(), received - finalized);
    // first cycle: processes 101 and 103 have finished
    let mut action = poll_kindlegen(&mut supervisor, PollEvent::QueueEmpty).action;
    let mut checked = Vec::new();
    while let PollAction::Check { handle } = action {
        checked.push(handle);
        if handle % 2 == 1 {
            assert_eq!(
                poll_kindlegen(&mut supervisor, PollEvent::Exited).action,
                PollAction::Collect { handle }
            );
            let step = poll_kindlegen(&mut supervisor, PollEvent::Collected);
            assert_eq!(step.event, update((handle - 100) as usize, ComicStatus::Success));
            finalized += 1;
            action = step.action;
        } else {
            action = poll_kindlegen(&mut supervisor, PollEvent::Running).action;
        }
    }
    assert_eq!(checked, vec![100, 101, 102, 103]);
    assert_eq!(action, PollAction::Sleep { millis: 100 });
    assert_eq!(supervisor.in_flight_count(), 2);
    assert_eq!(supervisor.in_flight_count(), received - finalized);
    // second cycle: the rest, in their old order
    poll_kindlegen(&mut supervisor, PollEvent::Slept);
    let mut action = poll_kindlegen(&mut supervisor, PollEvent::QueueClosed).action;
    let mut checked = Vec::new();
    while let PollAction::Check { handle } = action {
        checked.push(handle);
        poll_kindlegen(&mut supervisor, PollEvent::Exited);
        action = poll_kindlegen(&mut supervisor, PollEvent::Collected).action;
        finalized += 1;
        assert_eq!(supervisor.in_flight_count(), received - finalized);
    }
    assert_eq!(checked, vec![100, 102]);
    assert_eq!(received, finalized);
}

#[test]
fn completion_is_reported_once() {
    let mut supervisor = Supervisor::new();
    let first = poll_kindlegen(&mut supervisor, PollEvent::QueueClosed);
    assert_eq!(first.event, Some(ProgressEvent::ProcessingComplete));
    let events = vec![
        PollEvent::QueueClosed,
        PollEvent::QueueEmpty,
        PollEvent::Slept,
        PollEvent::Received { comic: assembled(1) },
        PollEvent::Spawned { handle: 1 },
        PollEvent::Collected,
    ];
    for event in events {
        let step = poll_kindlegen(&mut supervisor, event);
        assert_eq!(step, PollStep { action: PollAction::Stop, event: None });
        assert_eq!(supervisor.phase(), Phase::Stopped);
        assert_eq!(supervisor.in_flight_count(), 0);
    }
}

#[test]
fn event_for_another_phase_changes_nothing() {
    let mut supervisor = Supervisor::new();
    spawn(&mut supervisor, 0, 5);
    for event in [
        PollEvent::Running,
        PollEvent::Exited,
        PollEvent::Collected,
        PollEvent::Slept,
        PollEvent::Spawned { handle: 6 },
        PollEvent::SpawnFailed { error: String::from("x") },
        PollEvent::CollectFailed { error: String::from("x") },
    ] {
        let step = poll_kindlegen(&mut supervisor, event);
        assert_eq!(step, PollStep { action: PollAction::Receive, event: None });
        assert_eq!(supervisor.phase(), Phase::Drain);
        assert_eq!(supervisor.in_flight_count(), 1);
    }
}

#[test]
fn terminal_arrival_is_not_reported_again() {
    let mut done = assembled(2);
    done.fail(String::from("earlier"));
    let mut supervisor = Supervisor::new();
    let step = poll_kindlegen(&mut supervisor, PollEvent::Received { comic: done.clone() });
    assert_eq!(step, PollStep { action: PollAction::Spawn, event: None });
    assert_eq!(supervisor.spawning(), Some(&done));
}
