use heartbeat::client::{heartbeat_outcome, ClientState, Gate, ServerLoginReply, LOG_MAX};

fn is_uuid_v4(s: &str) -> bool {
    s.len() == 36
        && s.char_indices().all(|(i, c)| match i {
            8 | 13 | 18 | 23 => c == '-',
            _ => c.is_ascii_hexdigit() && !c.is_ascii_uppercase(),
        })
        && &s[14..15] == "4"
        && matches!(&s[19..20], "8" | "9" | "a" | "b")
}

fn beat(s: &mut ClientState, outcome: Result<String, String>) {
    let sent = s.next_heartbeat().expect("a heartbeat is due");
    s.record_heartbeat(&sent, outcome);
}

fn fresh(client_id: Option<&str>) -> ClientState {
    ClientState::new(None, 5, client_id.map(|s| s.to_string()), 9860, "0.1.0".to_string())
}

#[test]
fn new_client_without_id_asks_for_sign_in() {
    let s = fresh(None);
    assert!(matches!(s.gate, Gate::NeedLogin));
    assert_eq!(s.heartbeat_url, "http://127.0.0.1:9847/heartbeat");
    assert!(s.next_heartbeat().is_none());
    assert!(is_uuid_v4(&s.device_id));
    let st = s.status();
    assert_eq!(st.gate, "login");
    assert!(st.needs_login && !st.dashboard_access);
}

#[test]
fn new_client_with_blank_id_counts_as_none() {
    let s = fresh(Some("   "));
    assert!(matches!(s.gate, Gate::NeedLogin));
    assert_eq!(s.client_id, "");
}

#[test]
fn new_client_with_id_is_checking_and_beats() {
    let s = ClientState::new(Some("http://srv:1/hb".into()), 7, Some("  abc  ".into()), 1, "v".into());
    assert!(matches!(s.gate, Gate::Checking));
    assert_eq!(s.client_id, "abc");
    let b = s.next_heartbeat().expect("heartbeat");
    assert_eq!(b.client_id, "abc");
    assert_eq!(b.session_id, None);
    assert_eq!(b.app_version, "v");
    assert_eq!(s.login_url(), "http://srv:1/api/login");
    assert_eq!(s.logout_url(), "http://srv:1/api/logout");
}

#[test]
fn acknowledged_heartbeat_unlocks_and_logs() {
    let mut s = fresh(Some("abc"));
    beat(&mut s, Ok("{\"status\":\"ok\"}".to_string()));
    assert!(matches!(s.gate, Gate::Unlocked));
    assert!(s.last_ok);
    assert_eq!(s.total_sent, 1);
    let st = s.status();
    assert_eq!(st.gate, "unlocked");
    assert!(st.dashboard_access);
    assert_eq!(st.last_response.as_deref(), Some("{\"status\":\"ok\"}"));
    assert_eq!(st.recent_log.len(), 1);
    assert_eq!(st.recent_log[0].detail, "{\"status\":\"ok\"}");
    assert!(st.recent_log[0].ok);
    assert!(st.recent_log[0].at.ends_with(" UTC"));
}

#[test]
fn long_reply_is_summarised_to_200_bytes() {
    let mut s = fresh(Some("abc"));
    let long = "x".repeat(250);
    beat(&mut s, Ok(long.clone()));
    let detail = &s.status().recent_log[0].detail;
    assert_eq!(detail, &format!("{}…", &long[..200]));
    beat(&mut s, Ok("y".repeat(200)));
    assert_eq!(s.status().recent_log[0].detail, "y".repeat(200));
}

#[test]
fn failed_heartbeat_locks_with_reason() {
    let mut s = fresh(Some("abc"));
    beat(&mut s, Ok("{}".to_string()));
    beat(&mut s, Err("HTTP 401 Unauthorized: nope".to_string()));
    match &s.gate {
        Gate::Locked(m) => assert_eq!(m, "HTTP 401 Unauthorized: nope"),
        _ => panic!("expected locked"),
    }
    let st = s.status();
    assert_eq!(st.gate, "locked");
    assert_eq!(st.error.as_deref(), Some("HTTP 401 Unauthorized: nope"));
    assert_eq!(st.last_error.as_deref(), Some("HTTP 401 Unauthorized: nope"));
    assert_eq!(st.last_response, None);
    assert!(!st.last_ok);
    assert_eq!(st.total_sent, 2);
    assert_eq!(st.recent_log[0].detail, "HTTP 401 Unauthorized: nope");
    assert!(!st.recent_log[0].ok);
    assert_eq!(st.recent_log[1].detail, "{}");
    assert!(st.recent_log[1].ok);
}

#[test]
fn log_keeps_the_newest_forty_and_shows_twenty_five() {
    let mut s = fresh(Some("abc"));
    for i in 0..45 {
        beat(&mut s, Ok(format!("{i}")));
    }
    assert_eq!(s.log.len(), LOG_MAX);
    assert_eq!(s.log.front().unwrap().detail, "5");
    let st = s.status();
    assert_eq!(st.recent_log.len(), 25);
    assert_eq!(st.recent_log[0].detail, "44");
    assert_eq!(st.recent_log[24].detail, "20");
}

fn login_reply(ok: bool, cid: Option<&str>) -> ServerLoginReply {
    ServerLoginReply {
        ok,
        message: "Invalid email or password.".to_string(),
        client_id: cid.map(|s| s.to_string()),
        name: Some("Ann".to_string()),
        session_id: Some("sess-1".to_string()),
    }
}

#[test]
fn refused_sign_in_passes_the_message_on() {
    let mut s = fresh(None);
    let r = s.finish_login(true, login_reply(false, None), "a@b.c");
    assert_eq!((r.status, r.ok, r.message.as_str()), (401, false, "Invalid email or password."));
    let r = s.finish_login(false, login_reply(true, Some("x")), "a@b.c");
    assert_eq!(r.status, 401);
    assert!(matches!(s.gate, Gate::NeedLogin));
}

#[test]
fn sign_in_without_client_id_is_an_error() {
    let mut s = fresh(None);
    let r = s.finish_login(true, login_reply(true, Some("  ")), "a@b.c");
    assert_eq!((r.status, r.ok, r.message.as_str()), (500, false, "Server did not return a client ID."));
    let r = s.finish_login(true, login_reply(true, None), "a@b.c");
    assert_eq!(r.status, 500);
    assert!(matches!(s.gate, Gate::NeedLogin));
}

#[test]
fn sign_in_stores_identity_and_starts_checking() {
    let mut s = fresh(None);
    let r = s.finish_login(true, login_reply(true, Some("cid-9")), "  Ann@Example.COM ");
    assert_eq!((r.status, r.ok, r.message.as_str()), (200, true, "Signed in. Connecting…"));
    assert!(matches!(s.gate, Gate::Checking));
    assert_eq!(s.client_id, "cid-9");
    assert_eq!(s.user_name, "Ann");
    assert_eq!(s.session_id, "sess-1");
    assert_eq!(s.user_email, "ann@example.com");
    assert!(s.session_started_at.ends_with(" UTC"));
    let b = s.next_heartbeat().unwrap();
    assert_eq!(b.client_id, "cid-9");
    assert_eq!(b.session_id.as_deref(), Some("sess-1"));
}

#[test]
fn sign_out_target_and_reset() {
    let mut s = fresh(None);
    assert_eq!(s.logout_target("  "), None);
    s.finish_login(true, login_reply(true, Some("cid")), "a@b.c");
    assert_eq!(s.logout_target(" other "), Some("other".to_string()));
    assert_eq!(s.logout_target(""), Some("sess-1".to_string()));
    beat(&mut s, Ok("{}".into()));
    let r = s.sign_out();
    assert_eq!((r.status, r.ok, r.message.as_str()), (200, true, "Signed out."));
    assert!(matches!(s.gate, Gate::NeedLogin));
    assert!(s.next_heartbeat().is_none());
    assert_eq!(s.client_id, "");
    assert!(s.log.is_empty());
    assert_eq!(s.total_sent, 1);
    assert_eq!(s.status().gate, "login");
}

#[test]
fn page_follows_the_gate() {
    let mut s = fresh(None);
    assert_eq!(s.page_template(), "client_login.html");
    s.finish_login(true, login_reply(true, Some("cid")), "a@b.c");
    assert_eq!(s.page_template(), "client_checking.html");
    beat(&mut s, Ok("{}".into()));
    assert_eq!(s.page_template(), "client_dashboard.html");
    beat(&mut s, Err("down".into()));
    assert_eq!(s.page_template(), "client_blocked.html");
}

#[test]
fn late_answer_after_sign_out_is_ignored() {
    let mut s = fresh(Some("abc"));
    let sent = s.next_heartbeat().unwrap();
    s.sign_out();
    s.record_heartbeat(&sent, Ok("{}".into()));
    assert!(matches!(s.gate, Gate::NeedLogin));
    assert_eq!(s.page_template(), "client_login.html");
    assert_eq!(s.total_sent, 1);
    assert!(s.log.is_empty());
    assert!(s.last_response.is_none());
    s.record_heartbeat(&sent, Err("down".into()));
    assert!(matches!(s.gate, Gate::NeedLogin));
    assert_eq!(s.total_sent, 2);
}

#[test]
fn late_answer_for_another_account_is_ignored() {
    let mut s = fresh(Some("old-id"));
    let sent = s.next_heartbeat().unwrap();
    s.finish_login(true, login_reply(true, Some("new-id")), "a@b.c");
    s.record_heartbeat(&sent, Ok("{}".into()));
    assert!(matches!(s.gate, Gate::Checking));
    assert_eq!(s.status().gate, "checking");
}

#[test]
fn heartbeat_answers_are_judged() {
    assert_eq!(
        heartbeat_outcome(false, "401 Unauthorized", "{\"status\":\"error\"}"),
        Err("HTTP 401 Unauthorized: {\"status\":\"error\"}".to_string())
    );
    assert_eq!(
        heartbeat_outcome(true, "200 OK", "{ \"status\" : \"ok\", \"subscription_active\": true }"),
        Ok("{\"status\":\"ok\",\"subscription_active\":true}".to_string())
    );
    let bad = heartbeat_outcome(true, "200 OK", "not json").unwrap_err();
    let serde_err = serde_json::from_str::<serde_json::Value>("not json").unwrap_err();
    assert_eq!(bad, format!("parse JSON: {serde_err}"));
}
