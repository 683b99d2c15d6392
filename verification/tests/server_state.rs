use heartbeat::server::{ServerState, MAX_EVENTS};

fn beat(s: &mut ServerState, id: &str, name: &str, at: &str) {
    s.record_heartbeat(
        id.to_string(),
        name.to_string(),
        Some("dev".to_string()),
        Some("1.0".to_string()),
        at.to_string(),
        "status=ok subscription_active=true".to_string(),
    );
}

#[test]
fn heartbeats_are_counted_per_client() {
    let mut s = ServerState::new();
    beat(&mut s, "a", "Ann", "2024-01-01 10:00:00 UTC");
    beat(&mut s, "b", "Bob", "2024-01-01 10:00:01 UTC");
    beat(&mut s, "a", "Ann B", "2024-01-01 10:00:02 UTC");
    assert_eq!(s.total_heartbeats, 3);
    assert_eq!(s.clients.len(), 2);
    let a = s.clients.iter().find(|c| c.client_id == "a").unwrap();
    assert_eq!(a.beats_count, 2);
    assert_eq!(a.client_name, "Ann B");
    assert_eq!(a.last_seen, "2024-01-01 10:00:02 UTC");
    assert!(a.acknowledged);
    let sum: u64 = s.clients.iter().map(|c| c.beats_count).sum();
    assert_eq!(sum, s.total_heartbeats);
    assert!(s.clients.iter().all(|c| c.acknowledged && c.beats_count >= 1));
    assert!(s.events.len() as u64 <= s.total_heartbeats);
}

#[test]
fn events_keep_the_newest_two_hundred() {
    let mut s = ServerState::new();
    for i in 0..205 {
        beat(&mut s, "a", "Ann", &format!("t{i:03}"));
    }
    assert_eq!(s.events.len(), MAX_EVENTS);
    assert_eq!(s.events.front().unwrap().received_at, "t005");
    let recent = s.recent_events();
    assert_eq!(recent.len(), 50);
    assert_eq!(recent[0].received_at, "t204");
    assert_eq!(recent[49].received_at, "t155");
    assert_eq!(recent[0].client_id.as_deref(), Some("a"));
    assert_eq!(recent[0].ack_detail, "status=ok subscription_active=true");
}

#[test]
fn clients_are_listed_most_recent_first() {
    let mut s = ServerState::new();
    beat(&mut s, "a", "Ann", "2024-01-01 10:00:05 UTC");
    beat(&mut s, "b", "Bob", "2024-01-01 10:00:09 UTC");
    beat(&mut s, "c", "Cy", "2024-01-01 10:00:01 UTC");
    beat(&mut s, "d", "Di", "2024-01-01 10:00:07 UTC");
    let ids: Vec<String> = s.clients_by_recency().into_iter().map(|c| c.client_id).collect();
    assert_eq!(ids, vec!["b", "d", "a", "c"]);
}

#[test]
fn empty_server_shows_nothing() {
    let s = ServerState::new();
    assert!(s.recent_events().is_empty());
    assert!(s.clients_by_recency().is_empty());
    assert_eq!(s.find_client(&"x".to_string()), None);
}
