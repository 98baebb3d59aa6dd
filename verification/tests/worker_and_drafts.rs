use whitenoise::whitenoise::discovery_sync_worker::{
    wait_outcome, DiscoverySyncWorker, Phase, WorkerEvent, DEBOUNCE_WINDOW,
};
use whitenoise::whitenoise::drafts::Drafts;
use whitenoise::whitenoise::error::WhitenoiseError;
use whitenoise::whitenoise::nostr::{EventId, PublicKey};

/// Lets the worker run until it is idle and returns how many rebuilds it made.
fn settle(worker: &mut DiscoverySyncWorker, failed: bool) -> u32 {
    let mut rebuilds = 0;
    loop {
        let event = match worker.phase {
            Phase::Idle if worker.requested => WorkerEvent::Notified,
            Phase::Idle | Phase::Stopped => return rebuilds,
            Phase::Rebuilding => {
                rebuilds += 1;
                WorkerEvent::Rebuilt { failed }
            }
            Phase::Debouncing if worker.requested => WorkerEvent::Notified,
            Phase::Debouncing => WorkerEvent::WindowPassed,
        };
        worker.run_with(event);
    }
}

#[test]
fn signal_triggers_one_rebuild() {
    let mut worker = DiscoverySyncWorker::new();
    worker.request_rebuild();
    assert_eq!(settle(&mut worker, false), 1);
    assert_eq!(DEBOUNCE_WINDOW, 500);
}

#[test]
fn rapid_signals_coalesce() {
    let mut worker = DiscoverySyncWorker::new();
    for _ in 0..5 {
        worker.request_rebuild();
    }
    assert_eq!(settle(&mut worker, false), 1);

    worker.request_rebuild();
    worker.run_with(WorkerEvent::Notified);
    for _ in 0..4 {
        worker.request_rebuild();
    }
    assert_eq!(settle(&mut worker, false), 2);
}

#[test]
fn request_rebuild_and_wait_blocks_until_done() {
    let mut worker = DiscoverySyncWorker::new();
    let current = worker.request_rebuild_and_wait();
    assert!(wait_outcome(current, worker.generation, false).is_none());
    worker.run_with(WorkerEvent::Notified);
    assert!(wait_outcome(current, worker.generation, false).is_none());
    worker.run_with(WorkerEvent::Rebuilt { failed: false });
    assert!(matches!(wait_outcome(current, worker.generation, false), Some(Ok(()))));
}

#[test]
fn generation_advances_with_each_rebuild() {
    let mut worker = DiscoverySyncWorker::new();
    assert_eq!(worker.generation, 0);
    for expected in 1..=3u64 {
        worker.request_rebuild_and_wait();
        settle(&mut worker, false);
        assert_eq!(worker.generation, expected);
    }
}

#[test]
fn shutdown_stops_worker() {
    let mut worker = DiscoverySyncWorker::new();
    worker.run_with(WorkerEvent::Shutdown);
    assert_eq!(worker.phase, Phase::Stopped);
    match wait_outcome(0, 0, true) {
        Some(Err(WhitenoiseError::Other(m))) => assert_eq!(m, "Discovery sync worker stopped"),
        other => panic!("unexpected outcome {other:?}"),
    }
}

#[test]
fn errors_do_not_stop_worker() {
    let mut worker = DiscoverySyncWorker::new();
    worker.request_rebuild();
    settle(&mut worker, true);
    worker.request_rebuild();
    settle(&mut worker, false);
    assert_eq!(worker.generation, 2);
}

fn account() -> PublicKey {
    PublicKey { bytes: [1; 32] }
}

fn group() -> Vec<u8> {
    b"test-group-id-00".to_vec()
}

#[test]
fn test_save_draft_creates_new() {
    let mut drafts = Drafts::new(account());
    drafts.save(group(), "hello".to_string(), None, vec![], 5);
    let draft = drafts.load(&group()).unwrap();
    assert!(draft.id.is_some());
    assert!(draft.account_pubkey == account());
    assert_eq!(draft.mls_group_id, group());
    assert_eq!(draft.content, "hello");
    assert!(draft.reply_to_id.is_none());
    assert!(draft.media_attachments.is_empty());
}

#[test]
fn test_save_draft_updates_existing() {
    let mut drafts = Drafts::new(account());
    drafts.save(group(), "first".to_string(), None, vec![], 5);
    let first = drafts.load(&group()).unwrap().id;
    let reply = Some(EventId { bytes: [3; 32] });
    drafts.save(group(), "second".to_string(), reply, vec!["{}".to_string()], 9);
    let second = drafts.load(&group()).unwrap();
    assert_eq!(first, second.id);
    assert_eq!(second.content, "second");
    assert_eq!((second.created_at, second.updated_at), (5, 9));
    assert_eq!(second.media_attachments, vec!["{}".to_string()]);
    assert_eq!(drafts.next_id(), 2);
}

#[test]
fn test_load_draft_returns_draft() {
    let mut drafts = Drafts::new(account());
    drafts.save(group(), "persisted".to_string(), None, vec![], 5);
    assert_eq!(drafts.load(&group()).unwrap().content, "persisted");
}

#[test]
fn test_load_draft_returns_none() {
    assert!(Drafts::new(account()).load(&group()).is_none());
}

#[test]
fn test_delete_draft_removes() {
    let mut drafts = Drafts::new(account());
    drafts.save(group(), "to delete".to_string(), None, vec![], 5);
    drafts.save(vec![9], "kept".to_string(), None, vec![], 5);
    drafts.delete(&group());
    assert!(drafts.load(&group()).is_none());
    assert_eq!(drafts.load(&vec![9]).unwrap().content, "kept");
}

#[test]
fn test_delete_draft_nonexistent_succeeds() {
    let mut drafts = Drafts::new(account());
    drafts.delete(&group());
    assert!(drafts.load(&group()).is_none());
}
