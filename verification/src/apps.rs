//! Application launcher bookkeeping: which of KStars and PHD2 the server
//! tracks, what a status probe, a launch or a stop does to that record, the
//! detection of instances already running at startup, and the `app_state`
//! message pushed to browsers.

use vstd::prelude::*;

use crate::text::{
    chars_eq_str, chars_of, has_prefix, lowercase, parse_u32_chars, parse_u32_spec, push_str,
    starts_with_chars, string_of, to_lowercase, trim, trim_chars,
};

verus! {

/// Executable name of KStars.
pub const APP_KSTARS: &'static str = "kstars";

/// Executable name of PHD2.
pub const APP_PHD2: &'static str = "phd2";

/// The applications the launcher knows.
#[derive(Clone, Copy, Debug, PartialEq, Eq)]
pub enum AppId {
    Kstars,
    Phd2,
}

/// How a tracked process is held.
#[derive(Clone, Copy, Debug, PartialEq, Eq)]
pub enum Handle {
    /// Not running as far as the launcher knows.
    Idle,
    /// Spawned by the launcher, which holds the child.
    Owned,
    /// Found already running at startup; only its pid is known.
    External(u32),
}

/// `"running"` or `"stopped"`.
pub fn state_str(running: bool) -> (r: &'static str)
    ensures
        running ==> r@ == "running"@,
        !running ==> r@ == "stopped"@,
{
    if running {
        "running"
    } else {
        "stopped"
    }
}

/// The state word for a flag.
pub open spec fn state_word(running: bool) -> Seq<char> {
    if running {
        "running"@
    } else {
        "stopped"@
    }
}

/// The `app_state` message for browsers.
pub open spec fn app_state_text(kstars: bool, phd2: bool) -> Seq<char> {
    "{\"payload\":{\"kstars\":\""@ + state_word(kstars) + "\",\"phd2\":\""@ + state_word(phd2)
        + "\"},\"type\":\"app_state\"}"@
}

/// Builds the `app_state` message for browsers.
pub fn build_app_state_msg(kstars: bool, phd2: bool) -> (r: String)
    ensures
        r@ == app_state_text(kstars, phd2),
{
    let mut out: Vec<char> = Vec::new();
    push_str(&mut out, "{\"payload\":{\"kstars\":\"");
    push_str(&mut out, state_str(kstars));
    push_str(&mut out, "\",\"phd2\":\"");
    push_str(&mut out, state_str(phd2));
    push_str(&mut out, "\"},\"type\":\"app_state\"}");
    string_of(out.as_slice())
}

/// Body of `POST /api/apps/launch` and `/api/apps/stop`.
#[derive(Clone, Debug)]
pub struct AppRequest {
    pub app: String,
}

/// The application a (lowercased) request names.
pub open spec fn app_named(name: Seq<char>) -> Option<AppId> {
    if name == "kstars"@ {
        Some(AppId::Kstars)
    } else if name == "phd2"@ {
        Some(AppId::Phd2)
    } else {
        None
    }
}

/// Looks up an application by name.
pub fn app_by_name(name: &str) -> (r: Option<AppId>)
    ensures
        r == app_named(name@),
{
    let v = chars_of(name);
    if chars_eq_str(&v, APP_KSTARS) {
        Some(AppId::Kstars)
    } else if chars_eq_str(&v, APP_PHD2) {
        Some(AppId::Phd2)
    } else {
        None
    }
}

/// `"unknown app: <name>"`.
pub fn unknown_app_message(name: &str) -> (r: String)
    ensures
        r@ == "unknown app: "@ + name@,
{
    let mut out: Vec<char> = Vec::new();
    push_str(&mut out, "unknown app: ");
    push_str(&mut out, name);
    string_of(out.as_slice())
}

/// `"<prefix><app>: <detail>"`, the text of a failed spawn or kill.
pub fn failure_message(prefix: &str, app: &str, detail: &str) -> (r: String)
    ensures
        r@ == prefix@ + app@ + ": "@ + detail@,
{
    let mut out: Vec<char> = Vec::new();
    push_str(&mut out, prefix);
    push_str(&mut out, app);
    push_str(&mut out, ": ");
    push_str(&mut out, detail);
    string_of(out.as_slice())
}

/// What to do about a launch request for an application in a given state.
#[derive(Clone, Copy, Debug, PartialEq, Eq)]
pub enum LaunchStep {
    /// It is already running: nothing to do.
    AlreadyRunning,
    /// Spawn it.
    Spawn,
}

/// The record of both applications.
#[derive(Clone, Copy, Debug)]
pub struct AppTable {
    pub kstars: Handle,
    pub phd2: Handle,
}

impl AppTable {
    /// Both applications idle.
    pub fn new() -> (t: AppTable)
        ensures
            t.kstars == Handle::Idle,
            t.phd2 == Handle::Idle,
    {
        AppTable { kstars: Handle::Idle, phd2: Handle::Idle }
    }

    pub open spec fn get(&self, id: AppId) -> Handle {
        match id {
            AppId::Kstars => self.kstars,
            AppId::Phd2 => self.phd2,
        }
    }

    /// The handle of an application.
    pub fn handle(&self, id: AppId) -> (h: Handle)
        ensures
            h == self.get(id),
    {
        match id {
            AppId::Kstars => self.kstars,
            AppId::Phd2 => self.phd2,
        }
    }

    fn set(&mut self, id: AppId, h: Handle)
        ensures
            final(self).get(id) == h,
            forall|o: AppId| o != id ==> final(self).get(o) == old(self).get(o),
    {
        match id {
            AppId::Kstars => self.kstars = h,
            AppId::Phd2 => self.phd2 = h,
        }
    }

    /// Records a status probe. `alive` is what the operating system said about
    /// the held process (child not yet exited / `/proc/<pid>` present). A
    /// process found gone is forgotten. Returns whether it is running.
    pub fn record_probe(&mut self, id: AppId, alive: bool) -> (running: bool)
        ensures
            running == (old(self).get(id) != Handle::Idle && alive),
            final(self).get(id) == (if running {
                old(self).get(id)
            } else {
                Handle::Idle
            }),
            forall|o: AppId| o != id ==> final(self).get(o) == old(self).get(o),
    {
        let h = self.handle(id);
        match h {
            Handle::Idle => false,
            _ => {
                if alive {
                    true
                } else {
                    self.set(id, Handle::Idle);
                    false
                }
            },
        }
    }

    /// Decides a launch request, given whether the application was just found
    /// running.
    pub fn launch_step(running: bool) -> (s: LaunchStep)
        ensures
            running ==> s == LaunchStep::AlreadyRunning,
            !running ==> s == LaunchStep::Spawn,
    {
        if running {
            LaunchStep::AlreadyRunning
        } else {
            LaunchStep::Spawn
        }
    }

    /// Records a successful spawn: the launcher now owns the process.
    pub fn record_spawn(&mut self, id: AppId)
        ensures
            final(self).get(id) == Handle::Owned,
            forall|o: AppId| o != id ==> final(self).get(o) == old(self).get(o),
    {
        self.set(id, Handle::Owned);
    }

    /// Records a stop: whatever was held has been signalled and is forgotten.
    pub fn record_stop(&mut self, id: AppId)
        ensures
            final(self).get(id) == Handle::Idle,
            forall|o: AppId| o != id ==> final(self).get(o) == old(self).get(o),
    {
        self.set(id, Handle::Idle);
    }

    /// Adopts instances found running at startup as external processes.
    pub fn adopt_existing(&mut self, found: (Option<u32>, Option<u32>))
        ensures
            final(self).kstars == (match found.0 {
                Some(p) => Handle::External(p),
                None => old(self).kstars,
            }),
            final(self).phd2 == (match found.1 {
                Some(p) => Handle::External(p),
                None => old(self).phd2,
            }),
    {
        if let Some(p) = found.0 {
            self.kstars = Handle::External(p);
        }
        if let Some(p) = found.1 {
            self.phd2 = Handle::External(p);
        }
    }
}

/// The executable name of an application.
pub open spec fn app_text(id: AppId) -> Seq<char> {
    match id {
        AppId::Kstars => "kstars"@,
        AppId::Phd2 => "phd2"@,
    }
}

/// What a launch request comes to before anything is spawned.
#[derive(Clone, Debug)]
pub enum LaunchPlan {
    /// No such application: the request fails with this text.
    Unknown(String),
    /// It is already running: the request succeeds with nothing done.
    AlreadyRunning,
    /// It is to be spawned.
    Spawn(AppId),
}

impl AppTable {
    /// A launch request for `name`. `alive` is what the operating system
    /// says of the process held for it (it matters only when one is held).
    /// An unknown name changes nothing; otherwise the probe is recorded and
    /// a process that is not running is to be spawned.
    pub fn plan_launch(&mut self, name: &str, alive: bool) -> (r: LaunchPlan)
        ensures
            match app_named(name@) {
                None => (r matches LaunchPlan::Unknown(m) && m@ == "unknown app: "@ + name@)
                    && *final(self) == *old(self),
                Some(id) => {
                    let running = old(self).get(id) != Handle::Idle && alive;
                    &&& running ==> r is AlreadyRunning
                    &&& !running ==> r == LaunchPlan::Spawn(id)
                    &&& final(self).get(id) == (if running {
                        old(self).get(id)
                    } else {
                        Handle::Idle
                    })
                    &&& forall|o: AppId| o != id ==> final(self).get(o) == old(self).get(o)
                },
            },
    {
        match app_by_name(name) {
            None => LaunchPlan::Unknown(unknown_app_message(name)),
            Some(id) => {
                let running = self.record_probe(id, alive);
                match Self::launch_step(running) {
                    LaunchStep::AlreadyRunning => LaunchPlan::AlreadyRunning,
                    LaunchStep::Spawn => LaunchPlan::Spawn(id),
                }
            },
        }
    }

    /// The end of a launch, given how the spawn went (its error text when it
    /// failed): a spawned process is owned from now on; a failure leaves the
    /// record as it was and is reported as `failed to spawn <app>: <error>`.
    pub fn finish_launch(&mut self, id: AppId, spawned: Result<(), String>) -> (r: Result<(), String>)
        ensures
            spawned is Ok ==> r is Ok && final(self).get(id) == Handle::Owned && forall|o: AppId|
                o != id ==> final(self).get(o) == old(self).get(o),
            spawned matches Err(e) ==> (r matches Err(m) && m@ == "failed to spawn "@ + app_text(id)
                + ": "@ + e@) && *final(self) == *old(self),
    {
        match spawned {
            Ok(()) => {
                self.record_spawn(id);
                Ok(())
            },
            Err(e) => {
                let name = match id {
                    AppId::Kstars => APP_KSTARS,
                    AppId::Phd2 => APP_PHD2,
                };
                Err(failure_message("failed to spawn ", name, e.as_str()))
            },
        }
    }
}

// ── Detecting running instances ──────────────────────────────────────────────

/// One `/proc` entry: the directory name and the contents of its `comm` file.
#[derive(Clone, Debug)]
pub struct ProcEntry {
    pub name: String,
    pub comm: String,
}

/// Whether a `/proc` entry is a process of the application `app`: its name
/// is a pid and its trimmed, lowercased command starts with `app`.
pub open spec fn entry_is(name: Seq<char>, comm: Seq<char>, app: Seq<char>) -> bool {
    parse_u32_spec(name) is Some && has_prefix(lowercase(trim(comm)), app)
}

/// The pid of the first entry, from index `j` on, that is a process of `app`.
pub open spec fn first_pid(es: Seq<ProcEntry>, app: Seq<char>, j: int) -> Option<u32>
    decreases es.len() - j,
{
    if j < 0 || j >= es.len() {
        None
    } else if entry_is(es[j].name@, es[j].comm@, app) {
        parse_u32_spec(es[j].name@)
    } else {
        first_pid(es, app, j + 1)
    }
}

/// The pids of the KStars and PHD2 instances among `/proc` entries, taking
/// the first match of each in the order given.
pub fn detect_running(entries: &[ProcEntry]) -> (r: (Option<u32>, Option<u32>))
    ensures
        r.0 == first_pid(entries@, "kstars"@, 0),
        r.1 == first_pid(entries@, "phd2"@, 0),
{
    let ks = chars_of(APP_KSTARS);
    let ph = chars_of(APP_PHD2);
    let mut k: Option<u32> = None;
    let mut p: Option<u32> = None;
    let mut i: usize = 0;
    while i < entries.len()
        invariant
            i <= entries@.len(),
            ks@ == "kstars"@,
            ph@ == "phd2"@,
            first_pid(entries@, "kstars"@, 0) == (match k {
                Some(x) => Some(x),
                None => first_pid(entries@, "kstars"@, i as int),
            }),
            first_pid(entries@, "phd2"@, 0) == (match p {
                Some(x) => Some(x),
                None => first_pid(entries@, "phd2"@, i as int),
            }),
        decreases entries.len() - i,
    {
        let nv = chars_of(entries[i].name.as_str());
        match parse_u32_chars(&nv) {
            Some(pid) => {
                let cv = chars_of(entries[i].comm.as_str());
                let t = trim_chars(&cv);
                let ts = string_of(t.as_slice());
                let low = to_lowercase(ts.as_str());
                let lv = chars_of(low.as_str());
                if k.is_none() && starts_with_chars(&lv, &ks) {
                    k = Some(pid);
                }
                if p.is_none() && starts_with_chars(&lv, &ph) {
                    p = Some(pid);
                }
            },
            None => {},
        }
        i += 1;
    }
    (k, p)
}

/// The `app_state` message to push when the observed states changed since
/// the previous poll; `None` when nothing changed.
pub fn monitor_change(prev: (bool, bool), cur: (bool, bool)) -> (r: Option<String>)
    ensures
        r is Some <==> prev != cur,
        r matches Some(m) ==> m@ == app_state_text(cur.0, cur.1),
{
    if prev.0 != cur.0 || prev.1 != cur.1 {
        Some(build_app_state_msg(cur.0, cur.1))
    } else {
        None
    }
}

} // verus!
