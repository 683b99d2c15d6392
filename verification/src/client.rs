//! The heartbeat client's state: the access state that keeps the local dashboard
//! locked until the server acknowledges a heartbeat, the signed-in identity,
//! and the bounded log of attempts.
use vstd::prelude::*;
use std::collections::VecDeque;
use crate::clock::{is_display_time, utc_now_display};
use crate::endpoints::{
    default_heartbeat_url, login_url_of, logout_url_of, server_login_url, server_logout_url,
};
use crate::history::{Duplicate, bounded_push, newest_entries, newest_first, push_bounded};
use crate::json::{compact_json, json_parsed};
use crate::ids::{is_uuid_v4_text, lowercase, new_uuid_text, to_lowercase_text};
use crate::text::{
    byte_len, byte_prefix, bytes_exceed, copy_opt, cuttable_at, is_blank, lemma_trimmed_len, text_or_empty,
    trim_text, trimmed, truncate_bytes,
};

verus! {

/// How many log entries the client keeps.
pub const LOG_MAX: usize = 40;

/// How many log entries the status report shows.
pub const RECENT_LOG: usize = 25;

/// How many bytes of a heartbeat reply the log keeps.
pub const SUMMARY_MAX: usize = 200;

/// Whether the local dashboard may be shown.
pub enum Gate {
    /// No identity yet: the sign-in form is shown.
    NeedLogin,
    /// An identity is set and no heartbeat has been answered yet.
    Checking,
    /// The server acknowledged the last heartbeat.
    Unlocked,
    /// The last heartbeat failed, for the reason given.
    Locked(String),
}

/// The name under which the status report shows a gate.
pub open spec fn gate_name(g: Gate) -> Seq<char> {
    match g {
        Gate::NeedLogin => "login"@,
        Gate::Checking => "checking"@,
        Gate::Unlocked => "unlocked"@,
        Gate::Locked(_) => "locked"@,
    }
}

/// The page template the local dashboard serves for a gate.
pub open spec fn page_file(g: Gate) -> Seq<char> {
    match g {
        Gate::NeedLogin => "client_login.html"@,
        Gate::Checking => "client_checking.html"@,
        Gate::Unlocked => "client_dashboard.html"@,
        Gate::Locked(_) => "client_blocked.html"@,
    }
}

/// The events that decide what the local dashboard shows, in the order they
/// took effect: the start (with or without a client ID), a sign-in the
/// server accepted, a sign-out, and the answer to a heartbeat sent for the
/// identity the client still holds.
pub enum ClientEvent {
    Started { with_id: bool },
    SignedIn,
    SignedOut,
    Acknowledged,
    Failed,
}

/// One heartbeat attempt as the log records it.
pub struct LogEntry {
    pub at: String,
    pub ok: bool,
    pub detail: String,
}

impl Duplicate for LogEntry {
    fn duplicate(&self) -> (r: LogEntry) {
        LogEntry { at: self.at.clone(), ok: self.ok, detail: self.detail.clone() }
    }
}

/// What a heartbeat carries to the server.
pub struct HeartbeatBody {
    pub client_id: String,
    pub session_id: Option<String>,
    pub device_id: String,
    pub app_version: String,
}

/// The server's answer to a sign-in, as far as it could be read.
pub struct ServerLoginReply {
    pub ok: bool,
    pub message: String,
    pub client_id: Option<String>,
    pub name: Option<String>,
    pub session_id: Option<String>,
}

/// The local API's answer to a sign-in or sign-out, with its HTTP status.
pub struct ClientReply {
    pub status: u16,
    pub ok: bool,
    pub message: String,
}

/// The status report of the local API.
pub struct ClientStatus {
    pub gate: String,
    pub dashboard_access: bool,
    pub needs_login: bool,
    pub error: Option<String>,
    pub heartbeat_url: String,
    pub interval_secs: u64,
    pub client_id: String,
    pub user_name: String,
    pub session_id: String,
    pub user_email: String,
    pub session_started_at: String,
    pub device_id: String,
    pub app_version: String,
    pub dashboard_port: u16,
    pub total_sent: u64,
    pub last_ok: bool,
    pub last_response: Option<String>,
    pub last_error: Option<String>,
    pub recent_log: Vec<LogEntry>,
}

/// Everything the client knows. `last_response` holds the last acknowledged
/// reply as compact JSON text.
pub struct ClientState {
    pub gate: Gate,
    pub heartbeat_url: String,
    pub interval_secs: u64,
    pub client_id: String,
    pub user_name: String,
    pub session_id: String,
    pub user_email: String,
    pub session_started_at: String,
    pub device_id: String,
    pub app_version: String,
    pub dashboard_port: u16,
    pub total_sent: u64,
    pub last_ok: bool,
    pub last_response: Option<String>,
    pub last_error: Option<String>,
    pub log: VecDeque<LogEntry>,
    /// The events that took effect so far, oldest first.
    pub trail: Ghost<Seq<ClientEvent>>,
}

/// The log line for an acknowledged heartbeat: the reply text, cut after
/// `SUMMARY_MAX` bytes and marked with an ellipsis when it is longer.
pub open spec fn summary_of(reply: Seq<char>) -> Seq<char> {
    if byte_len(reply) > SUMMARY_MAX {
        byte_prefix(reply, SUMMARY_MAX as int) + "\u{2026}"@
    } else {
        reply
    }
}

/// Whether the server acknowledged a heartbeat, from the HTTP answer: a
/// non-success status fails with `HTTP <status>: <body>`; a success whose
/// body is JSON is acknowledged with the body's compact JSON text; a success
/// whose body is not JSON fails with `parse JSON: ` and the parse error.
pub fn heartbeat_outcome(status_success: bool, status_text: &str, body: &str) -> (r: Result<
    String,
    String,
>)
    ensures
        !status_success ==> r is Err && r->Err_0@ == "HTTP "@ + status_text@ + ": "@ + body@,
        status_success ==> match json_parsed(body@) {
            Ok(t) => r is Ok && r->Ok_0@ == t,
            Err(e) => r is Err && r->Err_0@ == "parse JSON: "@ + e,
        },
{
    if !status_success {
        let mut m = String::from_str("HTTP ");
        m.append(status_text);
        m.append(": ");
        m.append(body);
        return Err(m);
    }
    match compact_json(body) {
        Ok(t) => Ok(t),
        Err(e) => {
            let mut m = String::from_str("parse JSON: ");
            m.append(e.as_str());
            Err(m)
        },
    }
}

impl ClientState {
    /// The log is bounded, the dashboard is open only after an acknowledged
    /// heartbeat, a lock always carries the error that caused it, and the
    /// sign-in form is shown only while no client ID is held; what is shown
    /// follows from the latest event in the trail.
    pub open spec fn wf(&self) -> bool {
        &&& self.log@.len() <= LOG_MAX
        &&& self.gate is Unlocked ==> {
            &&& self.last_ok
            &&& self.last_response is Some
            &&& self.last_error is None
        }
        &&& self.gate matches Gate::Locked(m) ==> !self.last_ok && self.last_error == Some(m)
        &&& self.gate is NeedLogin ==> self.client_id@.len() == 0
        &&& self.trail@.len() > 0
        &&& (self.gate is Unlocked <==> self.trail@.last() is Acknowledged)
        &&& (self.gate is Locked <==> self.trail@.last() is Failed)
        &&& (self.gate is NeedLogin <==> (self.trail@.last() == ClientEvent::Started {
            with_id: false,
        } || self.trail@.last() is SignedOut))
        &&& (self.gate is Checking <==> (self.trail@.last() == ClientEvent::Started {
            with_id: true,
        } || self.trail@.last() is SignedIn))
    }

    /// The heartbeat that the loop sends next: none while no client ID is
    /// set; the session ID goes along only when it is not blank.
    pub open spec fn planned_heartbeat(&self) -> Option<HeartbeatBody> {
        if self.client_id@.len() == 0 {
            None
        } else {
            Some(
                HeartbeatBody {
                    client_id: self.client_id,
                    session_id: if trimmed(self.session_id@).len() == 0 {
                        None
                    } else {
                        Some(self.session_id)
                    },
                    device_id: self.device_id,
                    app_version: self.app_version,
                },
            )
        }
    }

    /// The state that signing out leaves: no identity, no replies, no log,
    /// and the sign-in form.
    pub open spec fn is_signed_out(&self) -> bool {
        &&& self.gate == Gate::NeedLogin
        &&& self.client_id@.len() == 0
        &&& self.user_name@.len() == 0
        &&& self.session_id@.len() == 0
        &&& self.user_email@.len() == 0
        &&& self.session_started_at@.len() == 0
        &&& self.last_response is None
        &&& self.last_error is None
        &&& self.log@.len() == 0
    }

    /// The client as it starts: the heartbeat URL given or the default one, the
    /// client ID given (trimmed; a blank one counts as none), a fresh device
    /// ID, and access pending when a client ID is set and asking for
    /// sign-in otherwise.
    pub fn new(
        heartbeat_url: Option<String>,
        interval_secs: u64,
        client_id: Option<String>,
        dashboard_port: u16,
        app_version: String,
    ) -> (s: ClientState)
        ensures
            s.wf(),
            s.heartbeat_url@ == (match heartbeat_url {
                Some(u) => u@,
                None => "http://127.0.0.1:9847/heartbeat"@,
            }),
            s.client_id@ == (match client_id {
                Some(c) => trimmed(c@),
                None => Seq::<char>::empty(),
            }),
            s.gate == (if s.client_id@.len() > 0 {
                Gate::Checking
            } else {
                Gate::NeedLogin
            }),
            is_uuid_v4_text(s.device_id@),
            s.interval_secs == interval_secs,
            s.dashboard_port == dashboard_port,
            s.app_version == app_version,
            s.user_name@.len() == 0,
            s.session_id@.len() == 0,
            s.user_email@.len() == 0,
            s.session_started_at@.len() == 0,
            s.total_sent == 0,
            !s.last_ok,
            s.last_response is None,
            s.last_error is None,
            s.log@.len() == 0,
            s.trail@ == seq![ClientEvent::Started { with_id: s.client_id@.len() > 0 }],
    {
        let url = match heartbeat_url {
            Some(u) => u,
            None => default_heartbeat_url(),
        };
        let cid = match client_id {
            Some(c) => trim_text(c.as_str()),
            None => String::new(),
        };
        let gate = if cid.as_str().is_empty() {
            Gate::NeedLogin
        } else {
            Gate::Checking
        };
        ClientState {
            gate,
            heartbeat_url: url,
            interval_secs,
            client_id: cid,
            user_name: String::new(),
            session_id: String::new(),
            user_email: String::new(),
            session_started_at: String::new(),
            device_id: new_uuid_text(),
            app_version,
            dashboard_port,
            total_sent: 0,
            last_ok: false,
            last_response: None,
            last_error: None,
            log: VecDeque::new(),
            trail: Ghost(Seq::<ClientEvent>::empty().push(ClientEvent::Started { with_id: gate is Checking })),
        }
    }

    /// The page template to serve: the sign-in form, the waiting page, the
    /// dashboard, or the blocked page (which shows the reason).
    pub fn page_template(&self) -> (name: String)
        ensures
            name@ == page_file(self.gate),
    {
        match &self.gate {
            Gate::NeedLogin => String::from_str("client_login.html"),
            Gate::Checking => String::from_str("client_checking.html"),
            Gate::Unlocked => String::from_str("client_dashboard.html"),
            Gate::Locked(_) => String::from_str("client_blocked.html"),
        }
    }

    /// The server's sign-in endpoint.
    pub fn login_url(&self) -> (url: String)
        ensures
            url@ == login_url_of(self.heartbeat_url@),
    {
        server_login_url(self.heartbeat_url.as_str())
    }

    /// The server's sign-out endpoint.
    pub fn logout_url(&self) -> (url: String)
        ensures
            url@ == logout_url_of(self.heartbeat_url@),
    {
        server_logout_url(self.heartbeat_url.as_str())
    }

    /// The status report: the access state by name, whether the dashboard is open, the
    /// identity and counters, the last reply only while the dashboard is
    /// open, and the newest `RECENT_LOG` log entries, newest first.
    pub fn status(&self) -> (r: ClientStatus)
        ensures
            r.gate@ == gate_name(self.gate),
            r.dashboard_access == (self.gate is Unlocked),
            r.needs_login == (self.gate is NeedLogin),
            r.error == (match self.gate {
                Gate::Locked(m) => Some(m),
                _ => None,
            }),
            r.heartbeat_url == self.heartbeat_url,
            r.interval_secs == self.interval_secs,
            r.client_id == self.client_id,
            r.user_name == self.user_name,
            r.session_id == self.session_id,
            r.user_email == self.user_email,
            r.session_started_at == self.session_started_at,
            r.device_id == self.device_id,
            r.app_version == self.app_version,
            r.dashboard_port == self.dashboard_port,
            r.total_sent == self.total_sent,
            r.last_ok == self.last_ok,
            r.last_response == (if self.gate is Unlocked {
                self.last_response
            } else {
                None
            }),
            r.last_error == self.last_error,
            r.recent_log@ == newest_first(self.log@, RECENT_LOG as nat),
    {
        let (gate, dashboard_access, needs_login, error) = match &self.gate {
            Gate::NeedLogin => (String::from_str("login"), false, true, None),
            Gate::Checking => (String::from_str("checking"), false, false, None),
            Gate::Unlocked => (String::from_str("unlocked"), true, false, None),
            Gate::Locked(reason) => (String::from_str("locked"), false, false, Some(reason.clone())),
        };
        ClientStatus {
            gate,
            dashboard_access,
            needs_login,
            error,
            heartbeat_url: self.heartbeat_url.clone(),
            interval_secs: self.interval_secs,
            client_id: self.client_id.clone(),
            user_name: self.user_name.clone(),
            session_id: self.session_id.clone(),
            user_email: self.user_email.clone(),
            session_started_at: self.session_started_at.clone(),
            device_id: self.device_id.clone(),
            app_version: self.app_version.clone(),
            dashboard_port: self.dashboard_port,
            total_sent: self.total_sent,
            last_ok: self.last_ok,
            last_response: if dashboard_access {
                copy_opt(&self.last_response)
            } else {
                None
            },
            last_error: copy_opt(&self.last_error),
            recent_log: newest_entries(&self.log, RECENT_LOG),
        }
    }

    /// Records one heartbeat attempt in the log, stamped with the current
    /// time, dropping the oldest entry when the log is full.
    pub fn push_log(&mut self, ok: bool, detail: String)
        requires
            old(self).wf(),
        ensures
            final(self).wf(),
            final(self).log@ == bounded_push(
                old(self).log@,
                LogEntry { at: final(self).log@.last().at, ok, detail },
                LOG_MAX as nat,
            ),
            is_display_time(final(self).log@.last().at@),
            *final(self) == (ClientState { log: final(self).log, ..*old(self) }),
    {
        let at = utc_now_display();
        push_bounded(&mut self.log, LogEntry { at, ok, detail }, LOG_MAX);
    }

    /// The heartbeat to send next, if any.
    pub fn next_heartbeat(&self) -> (r: Option<HeartbeatBody>)
        ensures
            r == self.planned_heartbeat(),
    {
        if self.client_id.as_str().is_empty() {
            return None;
        }
        let session_id = if is_blank(self.session_id.as_str()) {
            None
        } else {
            Some(self.session_id.clone())
        };
        Some(
            HeartbeatBody {
                client_id: self.client_id.clone(),
                session_id,
                device_id: self.device_id.clone(),
                app_version: self.app_version.clone(),
            },
        )
    }

    /// Takes in the outcome of one heartbeat that was sent as `sent`: the
    /// reply text when the server acknowledged it, the error text otherwise.
    /// The attempt is always counted. When the client still holds the client
    /// ID the heartbeat was sent with, an acknowledgement opens the dashboard
    /// and logs the reply (cut to `SUMMARY_MAX` bytes) and a failure locks it
    /// with the error and logs the error, the log entry stamped with the
    /// current time. When the client has since signed out or switched
    /// accounts, the answer is stale and nothing else changes; in particular
    /// a client showing the sign-in form keeps showing it.
    pub fn record_heartbeat(&mut self, sent: &HeartbeatBody, outcome: Result<String, String>)
        requires
            old(self).wf(),
            old(self).total_sent < u64::MAX,
            sent.client_id@.len() > 0,
            outcome matches Ok(t) ==> cuttable_at(t@, SUMMARY_MAX as int),
        ensures
            final(self).wf(),
            final(self).total_sent == old(self).total_sent + 1,
            old(self).gate is NeedLogin ==> final(self).gate is NeedLogin,
            old(self).client_id@ != sent.client_id@ ==> *final(self) == (ClientState {
                total_sent: final(self).total_sent,
                ..*old(self)
            }),
            old(self).client_id@ == sent.client_id@ ==> {
                &&& final(self).log@ == bounded_push(
                    old(self).log@,
                    final(self).log@.last(),
                    LOG_MAX as nat,
                )
                &&& is_display_time(final(self).log@.last().at@)
                &&& match outcome {
                    Ok(t) => {
                        &&& final(self).gate == Gate::Unlocked
                        &&& final(self).last_ok
                        &&& final(self).last_response == Some(t)
                        &&& final(self).last_error is None
                        &&& final(self).log@.last().ok
                        &&& final(self).log@.last().detail@ == summary_of(t@)
                    },
                    Err(m) => {
                        &&& final(self).gate == Gate::Locked(m)
                        &&& !final(self).last_ok
                        &&& final(self).last_response == old(self).last_response
                        &&& final(self).last_error == Some(m)
                        &&& !final(self).log@.last().ok
                        &&& final(self).log@.last().detail == m
                    },
                }
                &&& final(self).trail@ == old(self).trail@.push(
                    if outcome is Ok {
                        ClientEvent::Acknowledged
                    } else {
                        ClientEvent::Failed
                    },
                )
                &&& *final(self) == (ClientState {
                    gate: final(self).gate,
                    total_sent: final(self).total_sent,
                    last_ok: final(self).last_ok,
                    last_response: final(self).last_response,
                    last_error: final(self).last_error,
                    log: final(self).log,
                    trail: final(self).trail,
                    ..*old(self)
                })
            },
    {
        self.total_sent = self.total_sent + 1;
        if self.client_id != sent.client_id {
            return;
        }
        match outcome {
            Ok(text) => {
                let short = if bytes_exceed(text.as_str(), SUMMARY_MAX) {
                    let mut cut = truncate_bytes(text.as_str(), SUMMARY_MAX);
                    cut.append("\u{2026}");
                    cut
                } else {
                    text.clone()
                };
                self.gate = Gate::Unlocked;
                self.trail = Ghost(self.trail@.push(ClientEvent::Acknowledged));
                self.last_ok = true;
                self.last_response = Some(text);
                self.last_error = None;
                self.push_log(true, short);
            },
            Err(msg) => {
                self.gate = Gate::Locked(msg.clone());
                self.trail = Ghost(self.trail@.push(ClientEvent::Failed));
                self.last_ok = false;
                self.last_error = Some(msg.clone());
                self.push_log(false, msg);
            },
        }
    }

    /// Takes in the server's answer to a sign-in. A refusal (an HTTP error or
    /// `ok: false`) is passed on with the server's message; an answer without
    /// a usable client ID is an error; otherwise the identity is stored, the
    /// e-mail trimmed and lower-cased, the session start stamped with the
    /// current time, and access set to pending.
    pub fn finish_login(&mut self, http_success: bool, reply: ServerLoginReply, email: &str) -> (r:
        ClientReply)
        requires
            old(self).wf(),
        ensures
            final(self).wf(),
            !http_success || !reply.ok ==> {
                &&& r == ClientReply { status: 401, ok: false, message: reply.message }
                &&& *final(self) == *old(self)
            },
            http_success && reply.ok && (reply.client_id is None || trimmed(
                reply.client_id->0@,
            ).len() == 0) ==> {
                &&& r.status == 500
                &&& !r.ok
                &&& r.message@ == "Server did not return a client ID."@
                &&& *final(self) == *old(self)
            },
            http_success && reply.ok && reply.client_id is Some && trimmed(
                reply.client_id->0@,
            ).len() > 0 ==> {
                &&& r.status == 200
                &&& r.ok
                &&& r.message@ == "Signed in. Connecting\u{2026}"@
                &&& final(self).gate == Gate::Checking
                &&& final(self).client_id == reply.client_id->0
                &&& final(self).user_name@ == text_or_empty(reply.name)
                &&& final(self).session_id@ == text_or_empty(reply.session_id)
                &&& final(self).user_email@ == lowercase(trimmed(email@))
                &&& is_display_time(final(self).session_started_at@)
                &&& final(self).planned_heartbeat() is Some
                &&& final(self).planned_heartbeat()->0.client_id == reply.client_id->0
                &&& final(self).trail@ == old(self).trail@.push(ClientEvent::SignedIn)
                &&& *final(self) == (ClientState {
                    gate: final(self).gate,
                    trail: final(self).trail,
                    client_id: final(self).client_id,
                    user_name: final(self).user_name,
                    session_id: final(self).session_id,
                    user_email: final(self).user_email,
                    session_started_at: final(self).session_started_at,
                    ..*old(self)
                })
            },
    {
        if !http_success || !reply.ok {
            return ClientReply { status: 401, ok: false, message: reply.message };
        }
        let cid = match reply.client_id {
            Some(c) => {
                if is_blank(c.as_str()) {
                    None
                } else {
                    Some(c)
                }
            },
            None => None,
        };
        match cid {
            None => ClientReply {
                status: 500,
                ok: false,
                message: String::from_str("Server did not return a client ID."),
            },
            Some(c) => {
                proof {
                    lemma_trimmed_len(c@);
                }
                let started = utc_now_display();
                let email_trimmed = trim_text(email);
                self.client_id = c;
                self.user_name = match reply.name {
                    Some(n) => n,
                    None => String::new(),
                };
                self.session_id = match reply.session_id {
                    Some(s) => s,
                    None => String::new(),
                };
                self.user_email = to_lowercase_text(email_trimmed.as_str());
                self.session_started_at = started;
                self.gate = Gate::Checking;
                self.trail = Ghost(self.trail@.push(ClientEvent::SignedIn));
                ClientReply {
                    status: 200,
                    ok: true,
                    message: String::from_str("Signed in. Connecting\u{2026}"),
                }
            },
        }
    }

    /// The session to end on sign-out: the one named in the request (trimmed)
    /// when it is not blank, else the client's own; none when both are empty,
    /// in which case the server need not be told.
    pub fn logout_target(&self, requested: &str) -> (r: Option<String>)
        ensures
            trimmed(requested@).len() > 0 ==> r is Some && r->0@ == trimmed(requested@),
            trimmed(requested@).len() == 0 ==> r == (if self.session_id@.len() == 0 {
                None
            } else {
                Some(self.session_id)
            }),
    {
        let t = trim_text(requested);
        if !t.as_str().is_empty() {
            Some(t)
        } else if self.session_id.as_str().is_empty() {
            None
        } else {
            Some(self.session_id.clone())
        }
    }

    /// Forgets the identity, the replies and the log, and returns to the
    /// sign-in form. Settings, the device ID and the counters stay.
    pub fn sign_out(&mut self) -> (r: ClientReply)
        requires
            old(self).wf(),
        ensures
            final(self).wf(),
            final(self).is_signed_out(),
            r.status == 200,
            r.ok,
            r.message@ == "Signed out."@,
            final(self).heartbeat_url == old(self).heartbeat_url,
            final(self).interval_secs == old(self).interval_secs,
            final(self).device_id == old(self).device_id,
            final(self).app_version == old(self).app_version,
            final(self).dashboard_port == old(self).dashboard_port,
            final(self).total_sent == old(self).total_sent,
            final(self).last_ok == old(self).last_ok,
            final(self).trail@ == old(self).trail@.push(ClientEvent::SignedOut),
    {
        self.client_id = String::new();
        self.user_name = String::new();
        self.session_id = String::new();
        self.user_email = String::new();
        self.session_started_at = String::new();
        self.last_response = None;
        self.last_error = None;
        self.log.clear();
        self.gate = Gate::NeedLogin;
        self.trail = Ghost(self.trail@.push(ClientEvent::SignedOut));
        ClientReply { status: 200, ok: true, message: String::from_str("Signed out.") }
    }
}

/// A signed-out client sends no heartbeat and keeps its dashboard closed
/// until someone signs in again.
pub proof fn signed_out_client_is_silent(s: ClientState)
    requires
        s.is_signed_out(),
    ensures
        s.planned_heartbeat() is None,
        !(s.gate is Unlocked),
{
}

proof fn reveal_page_names()
    ensures
        "client_login.html"@ =~= seq!['c', 'l', 'i', 'e', 'n', 't', '_', 'l', 'o', 'g', 'i', 'n', '.', 'h', 't', 'm', 'l'],
        "client_checking.html"@.len() == 20,
        "client_dashboard.html"@ =~= seq!['c', 'l', 'i', 'e', 'n', 't', '_', 'd', 'a', 's', 'h', 'b', 'o', 'a', 'r', 'd', '.', 'h', 't', 'm', 'l'],
        "client_blocked.html"@ =~= seq!['c', 'l', 'i', 'e', 'n', 't', '_', 'b', 'l', 'o', 'c', 'k', 'e', 'd', '.', 'h', 't', 'm', 'l'],
{
    reveal_strlit("client_login.html");
    reveal_strlit("client_checking.html");
    reveal_strlit("client_dashboard.html");
    reveal_strlit("client_blocked.html");
}

/// The dashboard is served, and reported as open, exactly when the latest
/// event that took effect was an acknowledged heartbeat: no sign-in,
/// sign-out or failed heartbeat came after it.
pub proof fn dashboard_only_after_latest_acknowledgement(s: ClientState)
    requires
        s.wf(),
    ensures
        page_file(s.gate) == "client_dashboard.html"@ <==> s.trail@.last() is Acknowledged,
        (s.gate is Unlocked) <==> s.trail@.last() is Acknowledged,
{
    reveal_page_names();
}

/// The sign-in page is served exactly while the latest event that took
/// effect is a start without a client ID or a sign-out; since heartbeat
/// answers never add a sign-in, only an accepted sign-in leaves it.
pub proof fn sign_in_page_until_sign_in(s: ClientState)
    requires
        s.wf(),
    ensures
        page_file(s.gate) == "client_login.html"@ <==> (s.trail@.last() == ClientEvent::Started {
            with_id: false,
        } || s.trail@.last() is SignedOut),
{
    reveal_page_names();
}

} // verus!
