use music_bot::bulk::{BulkRun, PlayRequest};
use music_bot::cleanup::cleanup_guild;
use music_bot::commands::on_skip_request;
use music_bot::join::JoinCoordinator;
use music_bot::monitor::{compute_idle, InactivityMonitor};
use music_bot::queue_service::QueueService;
use music_bot::registry::SessionRegistry;
use music_bot::track::{Track, TrackSource};

fn yt(title: &str) -> Track {
    Track {
        title: title.to_string(),
        artist: "Channel".to_string(),
        url: format!("https://example.invalid/{title}"),
        source: TrackSource::YouTube,
        duration: None,
        thumbnail_url: None,
    }
}

fn sp(title: &str) -> Track {
    Track {
        title: title.to_string(),
        artist: "Artist".to_string(),
        url: String::new(),
        source: TrackSource::Spotify,
        duration: Some("3:20".to_string()),
        thumbnail_url: None,
    }
}

#[test]
fn cleanup_twice_equals_once() {
    let mut reg = SessionRegistry::new();
    let g = 11u64;
    QueueService::add_track(&mut reg.queues, g, yt("A"));
    QueueService::add_track(&mut reg.queues, g, yt("B"));
    reg.register_bulk_flag(g, 101);
    reg.register_bulk_flag(g, 102);
    assert!(reg.try_register_monitor(g, 7));
    reg.set_now_playing_message(g, 5, 6);

    let first = cleanup_guild(&mut reg, g);
    assert_eq!(first.cancel_flags, vec![101, 102]);
    assert_eq!(first.monitor, Some(7));
    assert_eq!(first.message, Some((5, 6)));
    assert!(QueueService::list(&reg.queues, g).is_empty());
    assert!(QueueService::current(&reg.queues, g).is_none());
    assert!(!reg.has_monitor(g));

    // The second call raises no error, detaches nothing, and leaves the
    // same state.
    let second = cleanup_guild(&mut reg, g);
    assert!(second.cancel_flags.is_empty());
    assert_eq!(second.monitor, None);
    assert_eq!(second.message, None);
    assert!(QueueService::list(&reg.queues, g).is_empty());
    assert!(QueueService::current(&reg.queues, g).is_none());
    assert!(!reg.has_monitor(g));
}

#[test]
fn cleanup_leaves_other_guilds_alone() {
    let mut reg = SessionRegistry::new();
    QueueService::add_track(&mut reg.queues, 1, yt("A"));
    QueueService::add_track(&mut reg.queues, 2, yt("B"));
    assert!(reg.try_register_monitor(2, 9));
    cleanup_guild(&mut reg, 1);
    assert_eq!(QueueService::list(&reg.queues, 2).len(), 1);
    assert!(reg.has_monitor(2));
}

#[test]
fn monitor_registration_is_at_most_one() {
    let mut reg = SessionRegistry::new();
    assert!(reg.try_register_monitor(4, 1));
    assert!(!reg.try_register_monitor(4, 2));
    assert!(reg.has_monitor(4));
    assert_eq!(reg.take_monitor(4), Some(1));
    assert_eq!(reg.take_monitor(4), None);
}

#[test]
fn repeat_flag_toggles() {
    let mut reg = SessionRegistry::new();
    assert!(!reg.repeat_state(3));
    assert!(reg.toggle_repeat(3));
    assert!(reg.repeat_state(3));
    assert!(!reg.toggle_repeat(3));
    assert!(!reg.repeat_state(3));
}

#[test]
fn guild_locks_are_created_once_and_reused() {
    let mut reg = SessionRegistry::new();
    assert_eq!(reg.ensure_join_lock(1, 100), 100);
    assert_eq!(reg.ensure_join_lock(1, 200), 100);
    assert_eq!(reg.ensure_join_lock(2, 200), 200);
    assert_eq!(reg.ensure_enqueue_lock(1, 300), 300);
    assert_eq!(reg.ensure_enqueue_lock(1, 400), 300);
}

#[test]
fn bulk_cancel_after_two_items_appends_exactly_two() {
    let mut queues = QueueService::new_guild_queues();
    let tracks = vec![yt("T1"), yt("T2"), yt("T3"), yt("T4"), yt("T5")];
    let mut run = BulkRun::new(tracks);
    // Flag clear for the first two checks, set from the third on.
    assert!(run.step(&mut queues, 1, false).is_some());
    assert!(run.step(&mut queues, 1, false).is_some());
    assert!(run.step(&mut queues, 1, true).is_none());
    // Once stopped, further steps add nothing.
    assert!(run.step(&mut queues, 1, false).is_none());
    assert_eq!(run.processed_count(), 2);
    let titles: Vec<String> = QueueService::list(&queues, 1).into_iter().map(|t| t.title).collect();
    assert_eq!(titles, vec!["T1".to_string(), "T2".to_string()]);
}

#[test]
fn bulk_runs_never_interleave() {
    // The bulk-enqueue mutex serializes whole runs; in either acquisition
    // order the result is one collection then the other.
    let a: Vec<Track> = (1..=10).map(|i| yt(&format!("X{i}"))).collect();
    let b: Vec<Track> = (1..=5).map(|i| yt(&format!("Y{i}"))).collect();

    for a_first in [true, false] {
        let mut queues = QueueService::new_guild_queues();
        let (first, second) = if a_first { (a.clone(), b.clone()) } else { (b.clone(), a.clone()) };
        let mut run1 = BulkRun::new(first.clone());
        while run1.step(&mut queues, 1, false).is_some() {}
        let mut run2 = BulkRun::new(second.clone());
        while run2.step(&mut queues, 1, false).is_some() {}

        let got: Vec<String> = QueueService::list(&queues, 1).into_iter().map(|t| t.title).collect();
        let mut expected: Vec<String> = first.iter().map(|t| t.title.clone()).collect();
        expected.extend(second.iter().map(|t| t.title.clone()));
        assert_eq!(got.len(), 15);
        assert_eq!(got, expected);
    }
}

#[test]
fn bulk_requests_follow_track_source() {
    let mut queues = QueueService::new_guild_queues();
    let mut run = BulkRun::new(vec![yt("Video"), sp("Song")]);
    match run.step(&mut queues, 1, false) {
        Some(PlayRequest::Direct(url)) => assert_eq!(url, "https://example.invalid/Video"),
        other => panic!("expected a direct request, got {:?}", other.is_some()),
    }
    match run.step(&mut queues, 1, false) {
        Some(PlayRequest::Search(q)) => assert_eq!(q, "Song Artist audio"),
        other => panic!("expected a search request, got {:?}", other.is_some()),
    }
    assert!(run.step(&mut queues, 1, false).is_none());
}

#[test]
fn three_callers_one_join() {
    let mut coord = JoinCoordinator::new();
    let g = 21u64;
    let mut joins = 0u32;
    let mut handles = Vec::new();
    // Three callers serialized by the guild's join-mutex; the provider
    // would answer handle 42.
    for _ in 0..3 {
        match coord.existing(g) {
            Some(h) => handles.push(h),
            None => {
                joins += 1;
                let h = coord.record_join(g, Ok(42)).unwrap();
                handles.push(h);
            }
        }
    }
    assert_eq!(joins, 1);
    assert_eq!(handles, vec![42, 42, 42]);
}

#[test]
fn failed_join_leaves_room_to_retry() {
    let mut coord = JoinCoordinator::new();
    let g = 22u64;
    let err = coord.record_join(g, Err("no permission".to_string())).unwrap_err();
    assert_eq!(err.message(), "Failed to join voice channel: no permission");
    assert_eq!(coord.existing(g), None);
    assert_eq!(coord.record_join(g, Ok(7)), Ok(7));
    assert_eq!(coord.existing(g), Some(7));
    coord.drop_connection(g);
    assert_eq!(coord.existing(g), None);
}

#[test]
fn idle_accumulation_fires_exactly_at_threshold() {
    // Poll interval 30 s, threshold 900 s: teardown on the 30th idle poll.
    let mut m = InactivityMonitor::new(30, 900);
    for _ in 0..29 {
        assert!(!m.poll(true));
    }
    // One non-idle poll resets the accumulator.
    assert!(!m.poll(false));
    // Idle again: not the 59th poll overall but the 30th after the reset.
    for _ in 0..29 {
        assert!(!m.poll(true));
    }
    assert!(m.poll(true));
}

#[test]
fn idle_or_semantics() {
    assert!(compute_idle(false, false, Some(5)));
    assert!(compute_idle(true, true, Some(5)));
    assert!(compute_idle(true, false, Some(1)));
    assert!(compute_idle(true, false, Some(0)));
    assert!(!compute_idle(true, false, Some(2)));
    assert!(!compute_idle(true, false, None));
}

#[test]
fn skip_request_needs_nonempty_pipeline() {
    let mut queues = QueueService::new_guild_queues();
    QueueService::add_track(&mut queues, 1, yt("A"));
    QueueService::advance(&mut queues, 1);
    let err = on_skip_request(&mut queues, 1, true).unwrap_err();
    assert_eq!(err.message(), "The queue is empty");
    // The failed request left the queue untouched.
    assert_eq!(QueueService::current(&queues, 1), Some(yt("A")));
    let skipped = on_skip_request(&mut queues, 1, false).unwrap();
    assert_eq!(skipped, Some(yt("A")));
    assert_eq!(QueueService::current(&queues, 1), None);
}
