use media_control::item::{join_names, MetadataUpdate, PlayableItem, PlaybackSnapshot};
use media_control::span::TimeSpan;
use media_control::sync::{CycleActions, StatusUpdate, SyncState, REFRESH_INTERVAL_MS};

fn track(name: &str, album: &str) -> PlayableItem {
    PlayableItem::Track {
        name: name.to_string(),
        album: album.to_string(),
        artists: vec!["Someone".to_string()],
        duration: Some(TimeSpan { secs: 180, nanos: 0 }),
        cover_url: None,
    }
}

fn playing_snapshot(item: PlayableItem) -> PlaybackSnapshot {
    PlaybackSnapshot {
        item: Some(item),
        is_playing: true,
        progress: Some(TimeSpan { secs: 5, nanos: 0 }),
    }
}

fn run_cycle(state: SyncState, snapshot: &PlaybackSnapshot) -> (SyncState, CycleActions) {
    state.step(snapshot)
}

#[test]
fn bootstrap_forces_playing_status() {
    // True state: paused, no progress. The first push still reports playing.
    let snapshot = PlaybackSnapshot {
        item: None,
        is_playing: false,
        progress: None,
    };
    let (state, actions) = run_cycle(SyncState::Bootstrapping, &snapshot);
    assert_eq!(
        actions.status,
        Some(StatusUpdate { playing: true, progress: None })
    );
    assert_eq!(actions.metadata, None);
    assert_eq!(
        state,
        SyncState::Steady { last_fingerprint: String::new() }
    );
}

#[test]
fn three_snapshots_push_metadata_exactly_twice() {
    // [TrackA/AlbumX, TrackA/AlbumX, TrackB/AlbumX]: pushes on the first
    // and third cycle, never on the repeat.
    let state = SyncState::Steady { last_fingerprint: String::new() };
    let a = playing_snapshot(track("TrackA", "AlbumX"));
    let b = playing_snapshot(track("TrackB", "AlbumX"));

    let (state, acts1) = run_cycle(state, &a);
    let (state, acts2) = run_cycle(state, &a);
    let (_, acts3) = run_cycle(state, &b);

    assert!(acts1.metadata.is_some());
    assert!(acts2.metadata.is_none());
    assert!(acts3.metadata.is_some());
}

#[test]
fn equal_fingerprints_push_at_most_once() {
    let state = SyncState::Steady { last_fingerprint: String::new() };
    let snapshot = playing_snapshot(track("Same", "Album"));
    let (state, acts1) = run_cycle(state, &snapshot);
    let (_, acts2) = run_cycle(state, &snapshot);
    assert!(acts1.metadata.is_some());
    assert!(acts2.metadata.is_none());
}

#[test]
fn steady_status_mirrors_the_snapshot() {
    let state = SyncState::Steady { last_fingerprint: String::new() };
    let snapshot = PlaybackSnapshot {
        item: Some(track("T", "A")),
        is_playing: false,
        progress: Some(TimeSpan { secs: 63, nanos: 250_000_000 }),
    };
    let (_, actions) = run_cycle(state, &snapshot);
    assert_eq!(
        actions.status,
        Some(StatusUpdate {
            playing: false,
            progress: Some(TimeSpan { secs: 63, nanos: 250_000_000 }),
        })
    );
}

#[test]
fn idle_cycle_pushes_nothing_and_keeps_state() {
    let state = SyncState::Steady { last_fingerprint: "T/A".to_string() };
    let snapshot = PlaybackSnapshot {
        item: None,
        is_playing: false,
        progress: None,
    };
    let (state_after, actions) = run_cycle(state.clone(), &snapshot);
    assert_eq!(actions.status, None);
    assert_eq!(actions.metadata, None);
    assert_eq!(state_after, state);
}

#[test]
fn track_metadata_carries_joined_artists() {
    let item = PlayableItem::Track {
        name: "Song".to_string(),
        album: "Record".to_string(),
        artists: vec!["First".to_string(), "Second".to_string()],
        duration: Some(TimeSpan { secs: 200, nanos: 0 }),
        cover_url: Some("https://example.invalid/cover.png".to_string()),
    };
    let state = SyncState::Steady { last_fingerprint: String::new() };
    let (_, actions) = run_cycle(state, &playing_snapshot(item));
    let expected = MetadataUpdate {
        title: "Song".to_string(),
        album: "Record".to_string(),
        artist: "First, Second".to_string(),
        duration: Some(TimeSpan { secs: 200, nanos: 0 }),
        cover_url: Some("https://example.invalid/cover.png".to_string()),
    };
    assert_eq!(actions.metadata, Some(expected));
}

#[test]
fn episode_metadata_uses_show_and_publisher() {
    let item = PlayableItem::Episode {
        name: "Pilot".to_string(),
        show: "The Show".to_string(),
        publisher: "Studio".to_string(),
        duration: None,
        cover_url: None,
    };
    let state = SyncState::Steady { last_fingerprint: String::new() };
    let (state_after, actions) = run_cycle(state, &playing_snapshot(item));
    let expected = MetadataUpdate {
        title: "Pilot".to_string(),
        album: "The Show".to_string(),
        artist: "Studio".to_string(),
        duration: None,
        cover_url: None,
    };
    assert_eq!(actions.metadata, Some(expected));
    assert_eq!(
        state_after,
        SyncState::Steady { last_fingerprint: "Pilot/The Show".to_string() }
    );
}

#[test]
fn fingerprint_is_the_raw_concatenation() {
    // Two different pairs can share one fingerprint when names contain a
    // slash; the change detector then treats them as the same item.
    let state = SyncState::Steady { last_fingerprint: String::new() };
    let first = playing_snapshot(track("a/b", "c"));
    let second = playing_snapshot(track("a", "b/c"));
    let (state, acts1) = run_cycle(state, &first);
    let (_, acts2) = run_cycle(state, &second);
    assert!(acts1.metadata.is_some());
    assert!(acts2.metadata.is_none());
}

#[test]
fn join_names_handles_empty_and_many() {
    assert_eq!(join_names(&vec![], ", "), "");
    assert_eq!(join_names(&vec!["One".to_string()], ", "), "One");
    assert_eq!(
        join_names(
            &vec!["One".to_string(), "Two".to_string(), "Three".to_string()],
            ", "
        ),
        "One, Two, Three"
    );
}

#[test]
fn refresh_interval_keeps_the_floor() {
    assert!(REFRESH_INTERVAL_MS >= 1000);
    assert_eq!(REFRESH_INTERVAL_MS, 1000);
}
