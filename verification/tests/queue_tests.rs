use music_bot::queue::MusicQueue;
use music_bot::queue_service::QueueService;
use music_bot::track::{Track, TrackSource};

fn track(title: &str) -> Track {
    Track {
        title: title.to_string(),
        artist: "Artist".to_string(),
        url: format!("https://example.invalid/{title}"),
        source: TrackSource::YouTube,
        duration: None,
        thumbnail_url: None,
    }
}

#[test]
fn push_keeps_insertion_order() {
    let mut q = MusicQueue::new();
    q.push(track("A"));
    q.push(track("B"));
    q.push(track("C"));
    let titles: Vec<&str> = q.list().iter().map(|t| t.title.as_str()).collect();
    assert_eq!(titles, vec!["A", "B", "C"]);
    assert_eq!(q.len(), 3);
    assert!(!q.is_empty());
}

#[test]
fn advance_moves_front_into_current() {
    let mut q = MusicQueue::new();
    q.push(track("A"));
    q.push(track("B"));
    q.push(track("C"));
    let advanced = q.advance().cloned();
    assert_eq!(advanced, Some(track("A")));
    assert_eq!(q.current().cloned(), Some(track("A")));
    let titles: Vec<&str> = q.list().iter().map(|t| t.title.as_str()).collect();
    assert_eq!(titles, vec!["B", "C"]);
    assert_eq!(q.take_current(), Some(track("A")));
    assert!(q.current().is_none());
}

#[test]
fn advance_on_empty_pending_leaves_current_absent() {
    let mut q = MusicQueue::new();
    q.push(track("A"));
    assert!(q.advance().is_some());
    assert!(q.current().is_some());
    // Pending is now empty: advancing again clears the slot.
    assert!(q.advance().is_none());
    assert!(q.current().is_none());
}

#[test]
fn pop_removes_front_without_touching_current() {
    let mut q = MusicQueue::new();
    q.push(track("A"));
    q.push(track("B"));
    q.advance();
    assert_eq!(q.pop(), Some(track("B")));
    assert_eq!(q.pop(), None);
    assert_eq!(q.current().cloned(), Some(track("A")));
}

#[test]
fn clear_resets_pending_and_current() {
    let mut q = MusicQueue::new();
    q.push(track("A"));
    q.push(track("B"));
    q.advance();
    q.clear();
    assert!(q.is_empty());
    assert!(q.current().is_none());
    assert_eq!(q.len(), 0);
}

#[test]
fn service_add_and_list_per_guild() {
    let mut queues = QueueService::new_guild_queues();
    QueueService::add_track(&mut queues, 1, track("A"));
    QueueService::add_track(&mut queues, 1, track("B"));
    QueueService::add_track(&mut queues, 2, track("X"));
    let g1: Vec<String> = QueueService::list(&queues, 1).into_iter().map(|t| t.title).collect();
    let g2: Vec<String> = QueueService::list(&queues, 2).into_iter().map(|t| t.title).collect();
    assert_eq!(g1, vec!["A".to_string(), "B".to_string()]);
    assert_eq!(g2, vec!["X".to_string()]);
    assert!(QueueService::list(&queues, 3).is_empty());
}

#[test]
fn service_advance_current_skip() {
    let mut queues = QueueService::new_guild_queues();
    assert_eq!(QueueService::advance(&mut queues, 7), None);
    QueueService::add_track(&mut queues, 7, track("A"));
    QueueService::add_track(&mut queues, 7, track("B"));
    assert_eq!(QueueService::advance(&mut queues, 7), Some(track("A")));
    assert_eq!(QueueService::current(&queues, 7), Some(track("A")));
    assert_eq!(QueueService::skip(&mut queues, 7), Some(track("A")));
    assert_eq!(QueueService::current(&queues, 7), None);
    let rest: Vec<String> = QueueService::list(&queues, 7).into_iter().map(|t| t.title).collect();
    assert_eq!(rest, vec!["B".to_string()]);
}

#[test]
fn service_clear_only_touches_that_guild() {
    let mut queues = QueueService::new_guild_queues();
    QueueService::add_track(&mut queues, 1, track("A"));
    QueueService::add_track(&mut queues, 2, track("B"));
    QueueService::clear(&mut queues, 1);
    assert!(QueueService::list(&queues, 1).is_empty());
    assert_eq!(QueueService::list(&queues, 2).len(), 1);
    // Clearing a guild that never existed is a no-op.
    QueueService::clear(&mut queues, 9);
}
