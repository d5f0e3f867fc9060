//! Server configuration, shared state, the stub authentication handshake
//! KStars expects, and the wording of listener shutdown reports.

use vstd::prelude::*;

use crate::kstars::Hub;
use crate::text::{push_str, string_of};

verus! {

/// Server configuration (command line or environment).
///
/// KStars connects inbound over plain HTTP from the same machine; browsers
/// connect over HTTPS, which the WebGPU planetarium needs. Both listeners
/// serve the same routes.
#[derive(Clone, Debug)]
pub struct Config {
    /// HTTP listen address, used by KStars.
    pub http_addr: String,
    /// HTTPS listen address, used by browsers.
    pub https_addr: String,
    /// Directory of the browser frontend to serve.
    pub dist_dir: String,
    /// PEM certificate to use instead of the managed one.
    pub tls_cert: Option<String>,
    /// PEM private key to use instead of the managed one.
    pub tls_key: Option<String>,
    /// Serve HTTP only.
    pub no_https: bool,
}

impl Config {
    /// The configuration used when nothing is given.
    pub fn defaults() -> (c: Config)
        ensures
            c.http_addr@ == "0.0.0.0:8080"@,
            c.https_addr@ == "0.0.0.0:8443"@,
            c.dist_dir@ == "rekos-wasm/dist"@,
            c.tls_cert is None,
            c.tls_key is None,
            !c.no_https,
    {
        Config {
            http_addr: String::from_str("0.0.0.0:8080"),
            https_addr: String::from_str("0.0.0.0:8443"),
            dist_dir: String::from_str("rekos-wasm/dist"),
            tls_cert: None,
            tls_key: None,
            no_https: false,
        }
    }
}

/// State shared by all request handlers.
#[derive(Clone, Debug)]
pub struct AppState {
    pub hub: Hub,
    pub config: Config,
}

// ── Authentication stub ──────────────────────────────────────────────────────

/// The login KStars posts to `/api/authenticate`.
#[derive(Clone, Debug)]
pub struct AuthRequest {
    pub username: String,
    pub password: String,
    pub machine_id: String,
}

/// Stub token `{"alg":"none"}.{"exp":9999999999}.`, shaped like a JWT so
/// that KStars can read an expiry (year 2286) from its middle segment.
pub const STUB_JWT: &'static str = "eyJhbGciOiJub25lIiwidHlwIjoiSldUIn0.eyJleHAiOjk5OTk5OTk5OTl9.";

/// The answer to a login. Nothing is checked: the bridge is local, and only
/// the shape of the answer matters to KStars.
#[derive(Clone, Debug)]
pub struct AuthReply {
    pub success: bool,
    pub token: String,
    pub username: String,
    pub email: String,
    pub from_date: String,
    pub to_date: String,
    pub plan_id: String,
    /// The account type (`"offline"`).
    pub kind: String,
    pub machine_id: String,
}

/// The user name reported back: the one given, or `"rekos"` when empty.
pub open spec fn reply_username(given: Seq<char>) -> Seq<char> {
    if given.len() == 0 {
        "rekos"@
    } else {
        given
    }
}

/// Answers a KStars login.
pub fn authenticate(req: AuthRequest) -> (r: AuthReply)
    ensures
        r.success,
        r.token@ == STUB_JWT@,
        r.username@ == reply_username(req.username@),
        r.email@ == "local@rekos.local"@,
        r.from_date@ == "2020-01-01"@,
        r.to_date@ == "2286-11-20"@,
        r.plan_id@ == "local"@,
        r.kind@ == "offline"@,
        r.machine_id@ == req.machine_id@,
{
    let username = if req.username.as_str().is_empty() {
        String::from_str("rekos")
    } else {
        req.username
    };
    AuthReply {
        success: true,
        token: String::from_str(STUB_JWT),
        username,
        email: String::from_str("local@rekos.local"),
        from_date: String::from_str("2020-01-01"),
        to_date: String::from_str("2286-11-20"),
        plan_id: String::from_str("local"),
        kind: String::from_str("offline"),
        machine_id: req.machine_id,
    }
}

// ── Listener shutdown ────────────────────────────────────────────────────────

/// How a listener task ended.
#[derive(Clone, Debug)]
pub enum ListenerExit {
    Clean,
    /// The server returned an error (its text).
    Failed(String),
    /// The task panicked (the join error's text).
    Panicked(String),
}

/// Whether a shutdown report is an error.
pub open spec fn exit_is_error(e: ListenerExit) -> bool {
    !(e is Clean)
}

/// The report for a listener that ended, and whether it is logged as an error.
pub fn log_exit(name: &str, r: &ListenerExit) -> (out: (bool, String))
    ensures
        out.0 == exit_is_error(*r),
        r is Clean ==> out.1@ == name@ + " listener exited cleanly"@,
        r matches ListenerExit::Failed(e) ==> out.1@ == name@ + " listener error: "@ + e@,
        r matches ListenerExit::Panicked(e) ==> out.1@ == name@ + " task panicked: "@ + e@,
{
    let mut v: Vec<char> = Vec::new();
    push_str(&mut v, name);
    match r {
        ListenerExit::Clean => {
            push_str(&mut v, " listener exited cleanly");
            (false, string_of(v.as_slice()))
        },
        ListenerExit::Failed(e) => {
            push_str(&mut v, " listener error: ");
            push_str(&mut v, e.as_str());
            (true, string_of(v.as_slice()))
        },
        ListenerExit::Panicked(e) => {
            push_str(&mut v, " task panicked: ");
            push_str(&mut v, e.as_str());
            (true, string_of(v.as_slice()))
        },
    }
}

} // verus!
