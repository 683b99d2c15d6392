use argon2::password_hash::PasswordHasher;
use heartbeat::api::{
    accept_heartbeat, ack_detail, check_login, check_logout, control_command, control_plan, heartbeat_accepted,
    heartbeat_client_id, heartbeat_client_name, heartbeat_database_error, heartbeat_without_client,
    login_account, login_reply, logout_reply, open_session, prepare_registration,
    registration_stored_reply, scripts_missing_reply, session_to_touch, ControlAction,
};
use heartbeat::db::{fresh_client_ids, lacks_client_id_column, list_limit, lookup_key, session_row};

fn refused(r: Result<heartbeat::api::NewUser, heartbeat::api::RegisterReply>) -> (u16, String) {
    match r {
        Err(e) => {
            assert!(!e.ok && e.client_id.is_none());
            (e.status, e.message)
        }
        Ok(_) => panic!("expected refusal"),
    }
}

#[test]
fn registration_checks_in_order() {
    assert_eq!(refused(prepare_registration("  ", "n", "password", "c")).1, "Enter a valid email address.");
    assert_eq!(refused(prepare_registration("no-at", "n", "password", "c")).0, 400);
    let long_email = format!("{}@x.io", "a".repeat(250));
    assert_eq!(refused(prepare_registration(&long_email, "n", "password", "c")).1, "Enter a valid email address.");
    assert_eq!(refused(prepare_registration("a@b", "  ", "password", "c")).1, "Name is required (max 200 characters).");
    assert_eq!(refused(prepare_registration("a@b", &"n".repeat(201), "password", "c")).1, "Name is required (max 200 characters).");
    assert_eq!(refused(prepare_registration("a@b", "n", "short12", "c")).1, "Password must be at least 8 characters.");
    assert_eq!(refused(prepare_registration("a@b", "n", "password", " ")).1, "Country is required (max 100 characters).");
    assert_eq!(refused(prepare_registration("a@b", "n", "password", &"c".repeat(101))).1, "Country is required (max 100 characters).");
}

#[test]
fn registration_normalises_fields() {
    let u = prepare_registration("  Ann@Example.COM ", " Ann ", "password", " NZ ").ok().unwrap();
    assert_eq!(u.email, "ann@example.com");
    assert_eq!(u.name, "Ann");
    assert_eq!(u.country, "NZ");
    assert_eq!(u.client_id.len(), 36);
    assert!(u.created_at.ends_with("+00:00"));
    assert!(chrono::DateTime::parse_from_rfc3339(&u.created_at).is_ok());
    assert_eq!(&u.client_id[14..15], "4");
    let n200 = "n".repeat(200);
    assert!(prepare_registration("a@b", &n200, "password", "c").is_ok());
    assert!(prepare_registration("a@b", "n", "passwörd", "c").is_ok());
}

#[test]
fn registration_storage_outcomes() {
    let ok = registration_stored_reply(None, "cid".into());
    assert_eq!((ok.status, ok.ok, ok.client_id.as_deref()), (201, true, Some("cid")));
    assert_eq!(ok.message, "Registration successful. Save your Client ID for the heartbeat app.");
    let dup = registration_stored_reply(Some("UNIQUE constraint failed: users.email".into()), "cid".into());
    assert_eq!((dup.status, dup.message.as_str()), (409, "An account with this email already exists."));
    let other = registration_stored_reply(Some("disk I/O error".into()), "cid".into());
    assert_eq!((other.status, other.message.as_str()), (500, "Could not save registration."));
    assert!(other.client_id.is_none());
}

#[test]
fn sign_in_request_checks() {
    assert_eq!(check_login("  Bob@Example.COM ", "pw").ok().unwrap(), "bob@example.com");
    let r = check_login("bob", "pw").err().unwrap();
    assert_eq!((r.status, r.message.as_str()), (400, "Enter a valid email address."));
    let r = check_login("bob@x", "").err().unwrap();
    assert_eq!((r.status, r.message.as_str()), (400, "Password is required."));
}

fn argon2_hash(password: &str) -> String {
    let salt = argon2::password_hash::SaltString::encode_b64(b"0123456789abcdef").unwrap();
    argon2::Argon2::default().hash_password(password.as_bytes(), &salt).unwrap().to_string()
}

#[test]
fn sign_in_account_outcomes() {
    let hash = argon2_hash("correct horse");
    let r = login_account(Err(()), "x").err().unwrap();
    assert_eq!((r.status, r.message.as_str()), (500, "Could not verify credentials."));
    let r = login_account(Ok(None), "x").err().unwrap();
    assert_eq!((r.status, r.message.as_str()), (401, "Invalid email or password."));
    let r = login_account(Ok(Some(("cid".into(), "Ann".into(), hash.clone()))), "wrong").err().unwrap();
    assert_eq!((r.status, r.message.as_str()), (401, "Invalid email or password."));
    let r = login_account(Ok(Some(("cid".into(), "Ann".into(), "not a hash".into()))), "x").err().unwrap();
    assert_eq!(r.status, 401);
    let r = login_account(Ok(Some((" ".into(), "Ann".into(), hash.clone()))), "correct horse").err().unwrap();
    assert_eq!((r.status, r.message.as_str()), (500, "Account has no client ID. Re-register or contact support."));
    let (cid, name) = login_account(Ok(Some((" cid ".into(), "Ann".into(), hash))), "correct horse").ok().unwrap();
    assert_eq!((cid.as_str(), name.as_str()), ("cid", "Ann"));
}

fn is_display_time(s: &str) -> bool {
    let b = s.as_bytes();
    let n = b.len();
    n >= 23
        && b[..n - 19].iter().all(|c| c.is_ascii_digit())
        && b[n - 19..].iter().zip(b"-99-99 99:99:99 UTC").all(|(c, p)| if *p == b'9' { c.is_ascii_digit() } else { c == p })
}

#[test]
fn sign_in_session_and_reply() {
    let ua = "é".repeat(300);
    let s = open_session("a@b", "cid", "127.0.0.1", &ua);
    assert!(s.created_at.ends_with("+00:00"));
    assert_eq!(s.id.len(), 36);
    assert_eq!(s.client_kind, "heartbeat-client");
    assert_eq!(s.created_at, s.last_seen_at);
    assert_eq!(s.user_agent.as_deref(), Some(&ua[..512]));
    assert_eq!(s.remote_ip.as_deref(), Some("127.0.0.1"));
    let id = s.id.clone();
    let r = login_reply(None, s, "Ann".into());
    assert_eq!((r.status, r.ok, r.message.as_str()), (200, true, "Signed in."));
    assert_eq!(r.session_id, Some(id));
    assert_eq!(r.client_id.as_deref(), Some("cid"));
    assert_eq!(r.name.as_deref(), Some("Ann"));
    let s2 = open_session("a@b", "cid", "ip", "ua");
    let r = login_reply(Some("database is locked".into()), s2, "Ann".into());
    assert_eq!((r.status, r.ok, r.message.as_str()), (500, false, "Could not create session: database is locked"));
    assert!(r.session_id.is_none());
}

#[test]
fn sign_out_request_and_outcomes() {
    let r = check_logout("  ").err().unwrap();
    assert_eq!((r.status, r.ok, r.message.as_str()), (400, false, "session_id is required."));
    assert_eq!(check_logout(" s1 ").ok().unwrap(), "s1");
    let r = logout_reply(Ok(true));
    assert_eq!((r.status, r.ok, r.message.as_str()), (200, true, "Signed out."));
    let r = logout_reply(Ok(false));
    assert_eq!((r.status, r.message.as_str()), (404, "Session not found or already ended."));
    let r = logout_reply(Err(()));
    assert_eq!((r.status, r.message.as_str()), (500, "Could not end session."));
}

#[test]
fn heartbeat_answers() {
    assert_eq!(heartbeat_client_id(&Some("  c1 ".into())).as_deref(), Some("c1"));
    assert_eq!(heartbeat_client_id(&Some("   ".into())), None);
    assert_eq!(heartbeat_client_id(&None), None);
    let r = heartbeat_without_client();
    assert_eq!((r.status, r.outcome.as_str(), r.subscription_active), (401, "error", false));
    assert_eq!(r.message.as_deref(), Some("client_id is required"));
    let r = heartbeat_database_error();
    assert_eq!((r.status, r.message.as_deref()), (500, Some("Database error.")));
    let r = heartbeat_client_name(Ok(None)).err().unwrap();
    assert_eq!((r.status, r.message.as_deref()), (401, Some("Unknown or invalid client_id.")));
    assert_eq!(heartbeat_client_name(Err(())).err().unwrap().status, 500);
    assert_eq!(heartbeat_client_name(Ok(Some("Ann".into()))).ok().unwrap(), "Ann");
    let ok = heartbeat_accepted();
    assert_eq!((ok.status, ok.outcome.as_str(), ok.subscription_active, ok.message.is_none()), (200, "ok", true, true));
    assert_eq!(ack_detail(&ok), "status=ok subscription_active=true");
    assert_eq!(session_to_touch(&Some(" s ".into())).as_deref(), Some("s"));
    assert_eq!(session_to_touch(&Some(" ".into())), None);
}

#[test]
fn accepted_heartbeat_is_recorded_with_its_answer() {
    let mut state = heartbeat::server::ServerState::new();
    let r = accept_heartbeat(&mut state, "c1".into(), "Ann".into(), Some("dev".into()), None);
    assert_eq!((r.status, r.outcome.as_str(), r.subscription_active), (200, "ok", true));
    assert_eq!(state.total_heartbeats, 1);
    let ev = state.events.back().unwrap();
    assert_eq!(ev.ack_detail, "status=ok subscription_active=true");
    assert!(is_display_time(&ev.received_at), "{}", ev.received_at);
    assert_eq!(state.clients[0].last_seen, ev.received_at);
}

#[test]
fn control_requests() {
    let p = control_plan(ControlAction::Start);
    assert_eq!((p.script.as_str(), p.delay_ms), ("start.sh", 0));
    assert_eq!(p.reply.message, "Start requested. If the server was already running, the script will report that.");
    let p = control_plan(ControlAction::Stop);
    assert_eq!((p.script.as_str(), p.delay_ms), ("stop.sh", 400));
    assert_eq!(p.reply.message, "Stop scheduled. This page will disconnect when the server stops.");
    let p = control_plan(ControlAction::Restart);
    assert_eq!((p.script.as_str(), p.delay_ms, p.reply.status, p.reply.ok), ("restart.sh", 400, 200, true));
    assert_eq!(control_command("/srv/app", "stop.sh"), "cd '/srv/app' && exec ./scripts/stop.sh server");
    let m = scripts_missing_reply();
    assert_eq!((m.status, m.ok), (500, false));
}

#[test]
fn database_keys_and_limits() {
    assert_eq!(lookup_key("  x "), Some("x".to_string()));
    assert_eq!(lookup_key(" \t "), None);
    assert_eq!(list_limit(50), 50);
    assert_eq!(list_limit(500), 200);
    assert!(lacks_client_id_column(&vec!["id".into(), "email".into()]));
    assert!(!lacks_client_id_column(&vec!["id".into(), "client_id".into()]));
    let ids = fresh_client_ids(&vec![3, 7]);
    assert_eq!(ids.len(), 2);
    assert_eq!((ids[0].0, ids[1].0), (3, 7));
    assert_ne!(ids[0].1, ids[1].1);
    let row = session_row("id", "e", "c", "k", "ip", &"u".repeat(600), "now");
    assert_eq!(row.user_agent.unwrap().len(), 512);
    assert_eq!(row.created_at, "now");
}
