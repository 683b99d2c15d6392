//! The decisions of the server's HTTP API: which requests are refused and
//! with what answer, what a registration or sign-in records, and how a
//! heartbeat or a control request is answered. The database and the
//! network stay with the caller, which hands their outcomes in.
use vstd::prelude::*;
use crate::clock::{is_display_time, is_rfc3339_time, utc_now_display, utc_now_rfc3339};
use crate::db::{SessionListRow, heartbeat_client_kind, kept_user_agent, session_row};
use crate::ids::{is_uuid_v4_text, lowercase, new_uuid_text, to_lowercase_text};
use crate::password::{check_password, password_matches};
use crate::server::{ServerState, heartbeat_recorded};
use crate::text::{
    byte_len, bytes_exceed, contains_char, contains_seq, contains_text, cuttable_at,
    trim_text, trimmed,
};

verus! {

/// The longest e-mail address, in bytes, that registration accepts.
pub const EMAIL_MAX: usize = 254;

/// The longest name, in bytes, that registration accepts.
pub const NAME_MAX: usize = 200;

/// The shortest password, in bytes, that registration accepts.
pub const PASSWORD_MIN: usize = 8;

/// The longest country, in bytes, that registration accepts.
pub const COUNTRY_MAX: usize = 100;

/// An answer with an HTTP status, a success flag and a message.
pub struct ApiReply {
    pub status: u16,
    pub ok: bool,
    pub message: String,
}

/// The answer to a registration.
pub struct RegisterReply {
    pub status: u16,
    pub ok: bool,
    pub message: String,
    pub client_id: Option<String>,
}

/// The answer to a sign-in.
pub struct LoginReply {
    pub status: u16,
    pub ok: bool,
    pub message: String,
    pub client_id: Option<String>,
    pub name: Option<String>,
    pub session_id: Option<String>,
}

/// The answer to a heartbeat.
pub struct HeartbeatReply {
    pub status: u16,
    pub outcome: String,
    pub subscription_active: bool,
    pub message: Option<String>,
}

/// A user ready to be stored: normalised fields, the time of registration
/// and a fresh client ID.
pub struct NewUser {
    pub email: String,
    pub name: String,
    pub country: String,
    pub created_at: String,
    pub client_id: String,
}

/// Why a registration is refused.
pub enum RegisterProblem {
    InvalidEmail,
    InvalidName,
    ShortPassword,
    InvalidCountry,
}

/// The first thing wrong with a registration, given the e-mail already
/// trimmed and lower-cased and the name and country trimmed; lengths are in
/// bytes.
pub open spec fn registration_problem(
    email: Seq<char>,
    name: Seq<char>,
    password: Seq<char>,
    country: Seq<char>,
) -> Option<RegisterProblem> {
    if email.len() == 0 || !email.contains('@') || byte_len(email) > EMAIL_MAX {
        Some(RegisterProblem::InvalidEmail)
    } else if name.len() == 0 || byte_len(name) > NAME_MAX {
        Some(RegisterProblem::InvalidName)
    } else if byte_len(password) < PASSWORD_MIN {
        Some(RegisterProblem::ShortPassword)
    } else if country.len() == 0 || byte_len(country) > COUNTRY_MAX {
        Some(RegisterProblem::InvalidCountry)
    } else {
        None
    }
}

/// The message that refuses a registration.
pub open spec fn problem_message(p: RegisterProblem) -> Seq<char> {
    match p {
        RegisterProblem::InvalidEmail => "Enter a valid email address."@,
        RegisterProblem::InvalidName => "Name is required (max 200 characters)."@,
        RegisterProblem::ShortPassword => "Password must be at least 8 characters."@,
        RegisterProblem::InvalidCountry => "Country is required (max 100 characters)."@,
    }
}

/// Whether `r` is the answer that refuses a registration for `p`.
pub open spec fn is_problem_reply(r: RegisterReply, p: RegisterProblem) -> bool {
    &&& r.status == 400
    &&& !r.ok
    &&& r.message@ == problem_message(p)
    &&& r.client_id is None
}

/// The first thing wrong with a registration whose e-mail is already
/// trimmed and lower-cased and whose name and country are trimmed.
pub fn check_registration_fields(email: &str, name: &str, password: &str, country: &str) -> (r:
    Option<RegisterProblem>)
    ensures
        r == registration_problem(email@, name@, password@, country@),
{
    if email.is_empty() || !contains_char(email, '@') || bytes_exceed(email, EMAIL_MAX) {
        Some(RegisterProblem::InvalidEmail)
    } else if name.is_empty() || bytes_exceed(name, NAME_MAX) {
        Some(RegisterProblem::InvalidName)
    } else if !bytes_exceed(password, PASSWORD_MIN - 1) {
        Some(RegisterProblem::ShortPassword)
    } else if country.is_empty() || bytes_exceed(country, COUNTRY_MAX) {
        Some(RegisterProblem::InvalidCountry)
    } else {
        None
    }
}

/// The answer that refuses a registration for `p`.
pub fn problem_reply(p: RegisterProblem) -> (r: RegisterReply)
    ensures
        is_problem_reply(r, p),
{
    let message = match p {
        RegisterProblem::InvalidEmail => String::from_str("Enter a valid email address."),
        RegisterProblem::InvalidName => String::from_str("Name is required (max 200 characters)."),
        RegisterProblem::ShortPassword => String::from_str(
            "Password must be at least 8 characters.",
        ),
        RegisterProblem::InvalidCountry => String::from_str(
            "Country is required (max 100 characters).",
        ),
    };
    RegisterReply { status: 400, ok: false, message, client_id: None }
}

/// Checks a registration request and, when nothing is wrong with it,
/// prepares the user to store: the e-mail trimmed and lower-cased, name and
/// country trimmed, the current time, and a fresh client ID.
pub fn prepare_registration(email: &str, name: &str, password: &str, country: &str) -> (r: Result<
    NewUser,
    RegisterReply,
>)
    ensures
        ({
            let e = lowercase(trimmed(email@));
            let n = trimmed(name@);
            let c = trimmed(country@);
            match registration_problem(e, n, password@, c) {
                Some(p) => r is Err && is_problem_reply(r->Err_0, p),
                None => {
                    &&& r is Ok
                    &&& r->Ok_0.email@ == e
                    &&& r->Ok_0.name@ == n
                    &&& r->Ok_0.country@ == c
                    &&& is_rfc3339_time(r->Ok_0.created_at@)
                    &&& is_uuid_v4_text(r->Ok_0.client_id@)
                },
            }
        }),
{
    let email_trimmed = trim_text(email);
    let email_norm = to_lowercase_text(email_trimmed.as_str());
    let name_trimmed = trim_text(name);
    let country_trimmed = trim_text(country);
    match check_registration_fields(
        email_norm.as_str(),
        name_trimmed.as_str(),
        password,
        country_trimmed.as_str(),
    ) {
        Some(p) => Err(problem_reply(p)),
        None => Ok(
            NewUser {
                email: email_norm,
                name: name_trimmed,
                country: country_trimmed,
                created_at: utc_now_rfc3339(),
                client_id: new_uuid_text(),
            },
        ),
    }
}

/// The answer once the new user has been stored (`None`) or storing failed
/// with the database's error text: a uniqueness violation means the e-mail
/// is taken.
pub fn registration_stored_reply(store_error: Option<String>, client_id: String) -> (r:
    RegisterReply)
    ensures
        store_error is None ==> {
            &&& r.status == 201
            &&& r.ok
            &&& r.message@ == "Registration successful. Save your Client ID for the heartbeat app."@
            &&& r.client_id == Some(client_id)
        },
        store_error matches Some(e) ==> {
            &&& !r.ok
            &&& r.client_id is None
            &&& contains_seq(e@, "UNIQUE"@) ==> r.status == 409 && r.message@
                == "An account with this email already exists."@
            &&& !contains_seq(e@, "UNIQUE"@) ==> r.status == 500 && r.message@
                == "Could not save registration."@
        },
{
    match store_error {
        None => RegisterReply {
            status: 201,
            ok: true,
            message: String::from_str(
                "Registration successful. Save your Client ID for the heartbeat app.",
            ),
            client_id: Some(client_id),
        },
        Some(e) => {
            if contains_text(e.as_str(), "UNIQUE") {
                RegisterReply {
                    status: 409,
                    ok: false,
                    message: String::from_str("An account with this email already exists."),
                    client_id: None,
                }
            } else {
                RegisterReply {
                    status: 500,
                    ok: false,
                    message: String::from_str("Could not save registration."),
                    client_id: None,
                }
            }
        },
    }
}

/// A refused sign-in with status `status` and message `message`.
pub open spec fn is_login_refusal(r: LoginReply, status: u16, message: Seq<char>) -> bool {
    &&& r.status == status
    &&& !r.ok
    &&& r.message@ == message
    &&& r.client_id is None
    &&& r.name is None
    &&& r.session_id is None
}

fn login_refusal(status: u16, message: &str) -> (r: LoginReply)
    ensures
        is_login_refusal(r, status, message@),
{
    LoginReply {
        status,
        ok: false,
        message: message.to_owned(),
        client_id: None,
        name: None,
        session_id: None,
    }
}

/// Checks a sign-in request whose e-mail is already trimmed and lower-cased:
/// the e-mail must hold an `@` and the password must not be empty.
pub fn check_login_fields(email: String, password: &str) -> (r: Result<String, LoginReply>)
    ensures
        !email@.contains('@') ==> r is Err && is_login_refusal(
            r->Err_0,
            400,
            "Enter a valid email address."@,
        ),
        email@.contains('@') && password@.len() == 0 ==> r is Err && is_login_refusal(
            r->Err_0,
            400,
            "Password is required."@,
        ),
        email@.contains('@') && password@.len() > 0 ==> r == Ok::<String, LoginReply>(email),
{
    if email.as_str().is_empty() || !contains_char(email.as_str(), '@') {
        return Err(login_refusal(400, "Enter a valid email address."));
    }
    if password.is_empty() {
        return Err(login_refusal(400, "Password is required."));
    }
    Ok(email)
}

/// Checks a sign-in request and gives the e-mail to look up: trimmed and
/// lower-cased.
pub fn check_login(email: &str, password: &str) -> (r: Result<String, LoginReply>)
    ensures
        ({
            let e = lowercase(trimmed(email@));
            &&& !e.contains('@') ==> r is Err && is_login_refusal(
                r->Err_0,
                400,
                "Enter a valid email address."@,
            )
            &&& e.contains('@') && password@.len() == 0 ==> r is Err && is_login_refusal(
                r->Err_0,
                400,
                "Password is required."@,
            )
            &&& e.contains('@') && password@.len() > 0 ==> r is Ok && r->Ok_0@ == e
        }),
{
    let t = trim_text(email);
    check_login_fields(to_lowercase_text(t.as_str()), password)
}

/// The account a sign-in may open a session for, from the outcome of the
/// user lookup (`Err` when the database failed; the client ID, name and
/// password hash when a user matched) and the password given: the trimmed
/// client ID and the name when the password matches the stored hash, or the
/// refusal.
pub fn login_account(lookup: Result<Option<(String, String, String)>, ()>, password: &str) -> (r:
    Result<(String, String), LoginReply>)
    ensures
        lookup is Err ==> r is Err && is_login_refusal(
            r->Err_0,
            500,
            "Could not verify credentials."@,
        ),
        lookup == Ok::<Option<(String, String, String)>, ()>(None) ==> r is Err && is_login_refusal(
            r->Err_0,
            401,
            "Invalid email or password."@,
        ),
        match lookup {
            Ok(Some(found)) => {
                let cid = trimmed(found.0@);
                &&& !password_matches(password@, found.2@) ==> r is Err && is_login_refusal(
                    r->Err_0,
                    401,
                    "Invalid email or password."@,
                )
                &&& password_matches(password@, found.2@) && cid.len() == 0 ==> r is Err
                    && is_login_refusal(
                    r->Err_0,
                    500,
                    "Account has no client ID. Re-register or contact support."@,
                )
                &&& password_matches(password@, found.2@) && cid.len() > 0 ==> r is Ok
                    && r->Ok_0.0@ == cid && r->Ok_0.1 == found.1
            },
            _ => true,
        },
{
    match lookup {
        Err(()) => Err(login_refusal(500, "Could not verify credentials.")),
        Ok(None) => Err(login_refusal(401, "Invalid email or password.")),
        Ok(Some((client_id, name, password_hash))) => {
            if !check_password(password, password_hash.as_str()) {
                return Err(login_refusal(401, "Invalid email or password."));
            }
            let cid = trim_text(client_id.as_str());
            if cid.as_str().is_empty() {
                Err(
                    login_refusal(500, "Account has no client ID. Re-register or contact support."),
                )
            } else {
                Ok((cid, name))
            }
        },
    }
}

/// The session a successful sign-in records: a fresh session ID, the
/// heartbeat client as its kind, created and seen now.
pub fn open_session(email: &str, client_id: &str, remote_ip: &str, user_agent: &str) -> (s:
    SessionListRow)
    requires
        cuttable_at(user_agent@, 512),
    ensures
        is_uuid_v4_text(s.id@),
        s.email@ == email@,
        s.client_id@ == client_id@,
        s.client_kind@ == heartbeat_client_kind(),
        s.created_at@ == s.last_seen_at@,
        is_rfc3339_time(s.created_at@),
        s.remote_ip is Some && s.remote_ip->0@ == remote_ip@,
        s.user_agent is Some && s.user_agent->0@ == kept_user_agent(user_agent@),
{
    let id = new_uuid_text();
    let now = utc_now_rfc3339();
    session_row(
        id.as_str(),
        email,
        client_id,
        "heartbeat-client",
        remote_ip,
        user_agent,
        now.as_str(),
    )
}

/// The answer once the session has been stored (`None`) or storing failed
/// with the database's error text.
pub fn login_reply(store_error: Option<String>, session: SessionListRow, name: String) -> (r:
    LoginReply)
    ensures
        store_error matches Some(e) ==> is_login_refusal(
            r,
            500,
            "Could not create session: "@ + e@,
        ),
        store_error is None ==> {
            &&& r.status == 200
            &&& r.ok
            &&& r.message@ == "Signed in."@
            &&& r.client_id == Some(session.client_id)
            &&& r.name == Some(name)
            &&& r.session_id == Some(session.id)
        },
{
    match store_error {
        Some(e) => {
            let mut message = String::from_str("Could not create session: ");
            message.append(e.as_str());
            LoginReply {
                status: 500,
                ok: false,
                message,
                client_id: None,
                name: None,
                session_id: None,
            }
        },
        None => LoginReply {
            status: 200,
            ok: true,
            message: String::from_str("Signed in."),
            client_id: Some(session.client_id),
            name: Some(name),
            session_id: Some(session.id),
        },
    }
}

/// Checks a sign-out request: the session ID, trimmed, must not be empty.
pub fn check_logout(session_id: &str) -> (r: Result<String, ApiReply>)
    ensures
        trimmed(session_id@).len() == 0 ==> r is Err && r->Err_0.status == 400 && !r->Err_0.ok
            && r->Err_0.message@ == "session_id is required."@,
        trimmed(session_id@).len() > 0 ==> r is Ok && r->Ok_0@ == trimmed(session_id@),
{
    let t = trim_text(session_id);
    if t.as_str().is_empty() {
        Err(ApiReply { status: 400, ok: false, message: String::from_str("session_id is required.") })
    } else {
        Ok(t)
    }
}

/// The answer to a sign-out from the outcome of deleting the session
/// (`Err` when the database failed, else whether a session was deleted).
pub fn logout_reply(deleted: Result<bool, ()>) -> (r: ApiReply)
    ensures
        deleted == Ok::<bool, ()>(true) ==> r.status == 200 && r.ok && r.message@ == "Signed out."@,
        deleted == Ok::<bool, ()>(false) ==> r.status == 404 && !r.ok && r.message@
            == "Session not found or already ended."@,
        deleted is Err ==> r.status == 500 && !r.ok && r.message@ == "Could not end session."@,
{
    match deleted {
        Ok(true) => ApiReply { status: 200, ok: true, message: String::from_str("Signed out.") },
        Ok(false) => ApiReply {
            status: 404,
            ok: false,
            message: String::from_str("Session not found or already ended."),
        },
        Err(()) => ApiReply {
            status: 500,
            ok: false,
            message: String::from_str("Could not end session."),
        },
    }
}

/// A refused heartbeat with status `status` and message `message`.
pub open spec fn is_heartbeat_refusal(r: HeartbeatReply, status: u16, message: Seq<char>) -> bool {
    &&& r.status == status
    &&& r.outcome@ == "error"@
    &&& !r.subscription_active
    &&& r.message is Some
    &&& r.message->0@ == message
}

fn heartbeat_refusal(status: u16, message: &str) -> (r: HeartbeatReply)
    ensures
        is_heartbeat_refusal(r, status, message@),
{
    HeartbeatReply {
        status,
        outcome: String::from_str("error"),
        subscription_active: false,
        message: Some(message.to_owned()),
    }
}

/// The client ID a heartbeat names: trimmed, and none when it is missing or
/// blank.
pub fn heartbeat_client_id(client_id: &Option<String>) -> (r: Option<String>)
    ensures
        match *client_id {
            Some(c) => if trimmed(c@).len() == 0 {
                r is None
            } else {
                r is Some && r->0@ == trimmed(c@)
            },
            None => r is None,
        },
{
    match client_id {
        Some(c) => {
            let t = trim_text(c.as_str());
            if t.as_str().is_empty() {
                None
            } else {
                Some(t)
            }
        },
        None => None,
    }
}

/// The answer to a heartbeat that names no client.
pub fn heartbeat_without_client() -> (r: HeartbeatReply)
    ensures
        is_heartbeat_refusal(r, 401, "client_id is required"@),
{
    heartbeat_refusal(401, "client_id is required")
}

/// The answer to a heartbeat when the database cannot be used.
pub fn heartbeat_database_error() -> (r: HeartbeatReply)
    ensures
        is_heartbeat_refusal(r, 500, "Database error."@),
{
    heartbeat_refusal(500, "Database error.")
}

/// The registered name behind a heartbeat, from the outcome of looking up
/// its client ID (`Err` when the database failed), or the refusal.
pub fn heartbeat_client_name(lookup: Result<Option<String>, ()>) -> (r: Result<
    String,
    HeartbeatReply,
>)
    ensures
        lookup is Err ==> r is Err && is_heartbeat_refusal(r->Err_0, 500, "Database error."@),
        lookup == Ok::<Option<String>, ()>(None) ==> r is Err && is_heartbeat_refusal(
            r->Err_0,
            401,
            "Unknown or invalid client_id."@,
        ),
        lookup matches Ok(Some(name)) ==> r == Ok::<String, HeartbeatReply>(name),
{
    match lookup {
        Err(()) => Err(heartbeat_database_error()),
        Ok(None) => Err(heartbeat_refusal(401, "Unknown or invalid client_id.")),
        Ok(Some(name)) => Ok(name),
    }
}

/// The answer to an accepted heartbeat.
pub fn heartbeat_accepted() -> (r: HeartbeatReply)
    ensures
        r.status == 200,
        r.outcome@ == "ok"@,
        r.subscription_active,
        r.message is None,
{
    HeartbeatReply {
        status: 200,
        outcome: String::from_str("ok"),
        subscription_active: true,
        message: None,
    }
}

/// The text of a boolean as `Display` writes it.
pub open spec fn bool_text(b: bool) -> Seq<char> {
    if b {
        "true"@
    } else {
        "false"@
    }
}

/// How a heartbeat event records the answer it got.
pub fn ack_detail(reply: &HeartbeatReply) -> (d: String)
    ensures
        d@ == "status="@ + reply.outcome@ + " subscription_active="@ + bool_text(
            reply.subscription_active,
        ),
{
    let mut d = String::from_str("status=");
    d.append(reply.outcome.as_str());
    d.append(" subscription_active=");
    if reply.subscription_active {
        d.append("true");
    } else {
        d.append("false");
    }
    d
}

/// Accepts a heartbeat of a known client: records it, stamped with the
/// current time and with the answer's text as its detail, and returns that
/// answer.
pub fn accept_heartbeat(
    state: &mut ServerState,
    client_id: String,
    client_name: String,
    device_id: Option<String>,
    app_version: Option<String>,
) -> (r: HeartbeatReply)
    requires
        old(state).wf(),
        old(state).total_heartbeats < u64::MAX,
    ensures
        r.status == 200,
        r.outcome@ == "ok"@,
        r.subscription_active,
        r.message is None,
        ({
            let ev = final(state).events@.last();
            &&& heartbeat_recorded(
                *old(state),
                *final(state),
                client_id,
                client_name,
                device_id,
                app_version,
                ev.received_at,
                ev.ack_detail,
            )
            &&& is_display_time(ev.received_at@)
            &&& ev.ack_detail@ == "status=ok subscription_active=true"@
        }),
{
    let now = utc_now_display();
    let reply = heartbeat_accepted();
    let detail = ack_detail(&reply);
    proof {
        reveal_strlit("ok");
        reveal_strlit("status=");
        reveal_strlit(" subscription_active=");
        reveal_strlit("true");
        reveal_strlit("status=ok subscription_active=true");
        assert(detail@ =~= "status=ok subscription_active=true"@);
    }
    state.record_heartbeat(client_id, client_name, device_id, app_version, now, detail);
    reply
}

/// The session a heartbeat keeps alive: its session ID, trimmed, when it
/// names one that is not blank.
pub fn session_to_touch(session_id: &Option<String>) -> (r: Option<String>)
    ensures
        match *session_id {
            Some(s) => if trimmed(s@).len() == 0 {
                r is None
            } else {
                r is Some && r->0@ == trimmed(s@)
            },
            None => r is None,
        },
{
    heartbeat_client_id(session_id)
}

/// What the dashboard can ask the server to do with itself.
pub enum ControlAction {
    Start,
    Stop,
    Restart,
}

/// The script that carries out `a`, how long to wait before running it, and
/// the answer.
pub struct ControlPlan {
    pub script: String,
    pub delay_ms: u64,
    pub reply: ApiReply,
}

/// The plan for a control request: the matching script under `scripts/`;
/// stopping and restarting wait 400 ms so that the answer gets out first.
pub fn control_plan(a: ControlAction) -> (p: ControlPlan)
    ensures
        p.script@ == (match a {
            ControlAction::Start => "start.sh"@,
            ControlAction::Stop => "stop.sh"@,
            ControlAction::Restart => "restart.sh"@,
        }),
        p.delay_ms == (match a {
            ControlAction::Start => 0u64,
            _ => 400u64,
        }),
        p.reply.status == 200,
        p.reply.ok,
        p.reply.message@ == (match a {
            ControlAction::Start =>
                "Start requested. If the server was already running, the script will report that."@,
            ControlAction::Stop => "Stop scheduled. This page will disconnect when the server stops."@,
            ControlAction::Restart =>
                "Restart scheduled. This page may disconnect briefly, then reload."@,
        }),
{
    let (script, delay_ms, message) = match a {
        ControlAction::Start => (
            "start.sh",
            0u64,
            "Start requested. If the server was already running, the script will report that.",
        ),
        ControlAction::Stop => (
            "stop.sh",
            400u64,
            "Stop scheduled. This page will disconnect when the server stops.",
        ),
        ControlAction::Restart => (
            "restart.sh",
            400u64,
            "Restart scheduled. This page may disconnect briefly, then reload.",
        ),
    };
    ControlPlan {
        script: script.to_owned(),
        delay_ms,
        reply: ApiReply { status: 200, ok: true, message: message.to_owned() },
    }
}

/// The answer when the control scripts cannot be found.
pub fn scripts_missing_reply() -> (r: ApiReply)
    ensures
        r.status == 500,
        !r.ok,
        r.message@
            == "scripts/ not found next to this project. Set WORKSPACE_ROOT to the repo root."@,
{
    ApiReply {
        status: 500,
        ok: false,
        message: String::from_str(
            "scripts/ not found next to this project. Set WORKSPACE_ROOT to the repo root.",
        ),
    }
}

/// The shell command that runs `script` for the server from the workspace
/// at `root`.
pub fn control_command(root: &str, script: &str) -> (cmd: String)
    ensures
        cmd@ == "cd '"@ + root@ + "' && exec ./scripts/"@ + script@ + " server"@,
{
    let mut cmd = String::from_str("cd '");
    cmd.append(root);
    cmd.append("' && exec ./scripts/");
    cmd.append(script);
    cmd.append(" server");
    cmd
}

} // verus!
