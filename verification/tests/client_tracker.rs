use rocks::client_tracker::{ClientTracker, ClientTrackersInner, ClientTrackersMsg};

#[test]
fn can_initialize() {
    let tracker = ClientTracker::new("Hello".to_string());
    assert_eq!(tracker.client(), "Hello");
    assert_eq!(tracker.total_traffic(), 0);
}

#[test]
fn get_creates_a_record_once() {
    let mut trackers = ClientTrackersInner::new();
    assert_eq!(trackers.num_trackers(), 0);
    let first = trackers.get("alice".to_string());
    assert_eq!(first.client(), "alice");
    assert_eq!(first.total_traffic(), 0);
    assert_eq!(trackers.num_trackers(), 1);
    let again = trackers.get("alice".to_string());
    assert_eq!(again.client(), "alice");
    assert_eq!(trackers.num_trackers(), 1);
}

#[test]
fn count_follows_distinct_clients() {
    let mut trackers = ClientTrackersInner::new();
    for name in ["a", "b", "a", "c", "b", ""] {
        let t = trackers.get(name.to_string());
        assert_eq!(t.client(), name);
    }
    assert_eq!(trackers.num_trackers(), 4);
}

#[test]
fn handle_serves_get() {
    let mut trackers = ClientTrackersInner::new();
    let t = trackers.handle(ClientTrackersMsg::Get("bob".to_string()));
    assert_eq!(t.client(), "bob");
    assert_eq!(trackers.num_trackers(), 1);
    let t = trackers.handle(ClientTrackersMsg::Get("bob".to_string()));
    assert_eq!(t.client(), "bob");
    assert_eq!(trackers.num_trackers(), 1);
}

#[test]
fn add_tracker_counts_every_call() {
    let mut trackers = ClientTrackersInner::new();
    trackers.add_tracker("x".to_string(), ClientTracker::new("x".to_string()));
    trackers.add_tracker("x".to_string(), ClientTracker::new("x".to_string()));
    assert_eq!(trackers.num_trackers(), 2);
    let y = trackers.get("y".to_string());
    assert_eq!(y.client(), "y");
    assert_eq!(trackers.num_trackers(), 3);
    let x = trackers.get("x".to_string());
    assert_eq!(x.client(), "x");
    assert_eq!(trackers.num_trackers(), 3);
}

#[test]
fn duplicate_keeps_fields() {
    let t = ClientTracker::new("carol".to_string());
    let d = t.duplicate();
    assert_eq!(d.client(), "carol");
    assert_eq!(d.total_traffic(), 0);
}
