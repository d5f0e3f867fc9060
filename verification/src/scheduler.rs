//! Scheduler job form: mapping the chosen startup and completion conditions
//! onto the flags KStars' scheduler expects, where a job's sequence file is
//! saved, the requests that save it and that set the observatory scripts,
//! and the form as it is cleared.

use vstd::prelude::*;

use crate::sequence::{is_default_frame, SeqFrame};
use crate::text::{
    chars_eq_str, chars_of, json_quote, parse_i64, parse_i64_spec, push_chars, push_json_str,
    push_str, string_of,
};

verus! {

/// The completion flags for a condition:
/// `(sequence, repeat, repeat count, loop, at time, completion time)`.
pub open spec fn completion_flags(condition: Seq<char>, count: Seq<char>, at: Seq<char>) -> (
    bool,
    bool,
    i64,
    bool,
    bool,
    Seq<char>,
) {
    if condition == "repeat"@ {
        (
            false,
            true,
            match parse_i64_spec(count) {
                Some(n) => n,
                None => 1,
            },
            false,
            false,
            seq![],
        )
    } else if condition == "loop"@ {
        (false, false, 1, true, false, seq![])
    } else if condition == "at"@ {
        (false, false, 1, false, true, at)
    } else {
        (true, false, 1, false, false, seq![])
    }
}

/// Maps a completion condition (`"repeat"`, `"loop"`, `"at"`, anything else
/// meaning "sequence") onto the scheduler's completion flags. The repeat
/// count defaults to 1 when it is not an integer.
pub fn resolve_completion_condition(
    condition: &str,
    completion_count: String,
    completion_at: String,
) -> (r: (bool, bool, i64, bool, bool, String))
    ensures
        ({
            let f = completion_flags(condition@, completion_count@, completion_at@);
            r.0 == f.0 && r.1 == f.1 && r.2 == f.2 && r.3 == f.3 && r.4 == f.4 && r.5@ == f.5
        }),
{
    let c = chars_of(condition);
    if chars_eq_str(&c, "repeat") {
        let n = match parse_i64(completion_count.as_str()) {
            Some(n) => n,
            None => 1,
        };
        (false, true, n, false, false, String::new())
    } else if chars_eq_str(&c, "loop") {
        (false, false, 1, true, false, String::new())
    } else if chars_eq_str(&c, "at") {
        (false, false, 1, false, true, completion_at)
    } else {
        (true, false, 1, false, false, String::new())
    }
}

/// Maps a startup condition onto `(as soon as possible, at time, start time)`:
/// `"at"` keeps the given time, anything else starts as soon as possible.
pub fn resolve_startup_condition(condition: &str, startup_at: String) -> (r: (bool, bool, String))
    ensures
        condition@ == "at"@ ==> !r.0 && r.1 && r.2@ == startup_at@,
        condition@ != "at"@ ==> r.0 && !r.1 && r.2@ == Seq::<char>::empty(),
{
    let c = chars_of(condition);
    if chars_eq_str(&c, "at") {
        (false, true, startup_at)
    } else {
        (true, false, String::new())
    }
}

// ── Submitting a job ─────────────────────────────────────────────────────────

/// The name a job's sequence file is made from: the target name, or
/// `sequence` when there is none.
pub open spec fn sequence_base_text(name: Seq<char>) -> Seq<char> {
    if name.len() == 0 {
        "sequence"@
    } else {
        name
    }
}

/// The name a job's sequence file is made from (before it is made safe for
/// a file name).
pub fn sequence_base_name(name: &str) -> (r: String)
    ensures
        r@ == sequence_base_text(name@),
{
    if name.is_empty() {
        String::from_str("sequence")
    } else {
        String::from_str(name)
    }
}

/// A job's sequence file relative to the home directory.
pub open spec fn sequence_rel_text(safe_name: Seq<char>) -> Seq<char> {
    ".junos-sequences/"@ + safe_name + ".esq"@
}

/// A job's sequence file as KStars is told to load it: under the home
/// directory when it is known, else relative.
pub open spec fn sequence_abs_text(home: Seq<char>, safe_name: Seq<char>) -> Seq<char> {
    if home.len() == 0 {
        sequence_rel_text(safe_name)
    } else {
        home + "/"@ + sequence_rel_text(safe_name)
    }
}

/// Where a job's sequence file (named `safe_name`) is saved, relative to the
/// home directory, and the path the scheduler form is given.
pub fn sequence_paths(home: &str, safe_name: &str) -> (r: (String, String))
    ensures
        r.0@ == sequence_rel_text(safe_name@),
        r.1@ == sequence_abs_text(home@, safe_name@),
{
    let mut rel: Vec<char> = Vec::new();
    push_str(&mut rel, ".junos-sequences/");
    push_str(&mut rel, safe_name);
    push_str(&mut rel, ".esq");
    let mut abs: Vec<char> = Vec::new();
    if !home.is_empty() {
        push_str(&mut abs, home);
        push_str(&mut abs, "/");
    }
    push_chars(&mut abs, &rel);
    proof {
        if home@.len() == 0 {
            assert(abs@ =~= rel@);
        }
    }
    (string_of(rel.as_slice()), string_of(abs.as_slice()))
}

/// The request that saves a sequence file on the KStars machine.
pub open spec fn save_sequence_text(rel_path: Seq<char>, xml: Seq<char>) -> Seq<char> {
    "{\"payload\":{\"filedata\":"@ + json_quote(xml) + ",\"path\":"@ + json_quote(rel_path)
        + "},\"type\":\"scheduler_save_sequence_file\"}"@
}

/// The request that saves a sequence file, the first of a job submission.
pub fn save_sequence_msg(rel_path: &str, xml: &str) -> (r: String)
    ensures
        r@ == save_sequence_text(rel_path@, xml@),
{
    let mut v: Vec<char> = Vec::new();
    push_str(&mut v, "{\"payload\":{\"filedata\":");
    push_json_str(&mut v, xml);
    push_str(&mut v, ",\"path\":");
    push_json_str(&mut v, rel_path);
    push_str(&mut v, "},\"type\":\"scheduler_save_sequence_file\"}");
    string_of(v.as_slice())
}

/// `true` or `false` as JSON.
pub open spec fn bool_text(b: bool) -> Seq<char> {
    if b {
        "true"@
    } else {
        "false"@
    }
}

/// The observatory scripts of the scheduler.
pub struct ObservatoryScripts {
    pub startup_enabled: bool,
    pub pre_startup: String,
    pub post_startup: String,
    pub shutdown_enabled: bool,
    pub pre_shutdown: String,
    pub post_shutdown: String,
}

/// The `scheduler_set_all_settings` request that applies the observatory
/// scripts (members in key order).
pub open spec fn scripts_settings_text(s: ObservatoryScripts) -> Seq<char> {
    "{\"payload\":{\"schedulerPostShutdownScript\":"@ + json_quote(s.post_shutdown@)
        + ",\"schedulerPostStartupScript\":"@ + json_quote(s.post_startup@)
        + ",\"schedulerPreShutdownScript\":"@ + json_quote(s.pre_shutdown@)
        + ",\"schedulerPreStartupScript\":"@ + json_quote(s.pre_startup@)
        + ",\"schedulerShutdownEnabled\":"@ + bool_text(s.shutdown_enabled)
        + ",\"schedulerStartupEnabled\":"@ + bool_text(s.startup_enabled)
        + "},\"type\":\"scheduler_set_all_settings\"}"@
}

/// The request that applies the observatory scripts.
pub fn scripts_settings_msg(s: &ObservatoryScripts) -> (r: String)
    ensures
        r@ == scripts_settings_text(*s),
{
    let mut v: Vec<char> = Vec::new();
    push_str(&mut v, "{\"payload\":{\"schedulerPostShutdownScript\":");
    push_json_str(&mut v, s.post_shutdown.as_str());
    push_str(&mut v, ",\"schedulerPostStartupScript\":");
    push_json_str(&mut v, s.post_startup.as_str());
    push_str(&mut v, ",\"schedulerPreShutdownScript\":");
    push_json_str(&mut v, s.pre_shutdown.as_str());
    push_str(&mut v, ",\"schedulerPreStartupScript\":");
    push_json_str(&mut v, s.pre_startup.as_str());
    push_str(&mut v, ",\"schedulerShutdownEnabled\":");
    push_str(&mut v, if s.shutdown_enabled { "true" } else { "false" });
    push_str(&mut v, ",\"schedulerStartupEnabled\":");
    push_str(&mut v, if s.startup_enabled { "true" } else { "false" });
    push_str(&mut v, "},\"type\":\"scheduler_set_all_settings\"}");
    string_of(v.as_slice())
}

/// The add-job form: every field as typed or chosen.
pub struct JobForm {
    pub target_name: String,
    pub ra_hours: String,
    pub dec_deg: String,
    pub min_altitude: String,
    pub min_moon_separation: String,
    pub position_angle: String,
    pub step_track: bool,
    pub step_focus: bool,
    pub step_align: bool,
    pub step_guide: bool,
    pub startup_condition: String,
    pub startup_at: String,
    pub completion_condition: String,
    pub completion_count: String,
    pub completion_at: String,
    pub frames: Vec<SeqFrame>,
}

impl JobForm {
    /// The form as it is cleared: no target, altitude limit 30°, no moon
    /// limit, PA 0, tracking and guiding on, start as soon as possible,
    /// complete after one run of the sequence, one default frame row.
    pub fn cleared() -> (f: JobForm)
        ensures
            f.target_name@.len() == 0 && f.ra_hours@.len() == 0 && f.dec_deg@.len() == 0,
            f.min_altitude@ == "30"@,
            f.min_moon_separation@ == "0"@,
            f.position_angle@ == "0"@,
            f.step_track && !f.step_focus && !f.step_align && f.step_guide,
            f.startup_condition@ == "asap"@,
            f.startup_at@.len() == 0,
            f.completion_condition@ == "sequence"@,
            f.completion_count@ == "1"@,
            f.completion_at@.len() == 0,
            f.frames@.len() == 1,
            is_default_frame(f.frames@[0]),
    {
        let mut frames: Vec<SeqFrame> = Vec::new();
        frames.push(SeqFrame::new_default());
        JobForm {
            target_name: String::new(),
            ra_hours: String::new(),
            dec_deg: String::new(),
            min_altitude: String::from_str("30"),
            min_moon_separation: String::from_str("0"),
            position_angle: String::from_str("0"),
            step_track: true,
            step_focus: false,
            step_align: false,
            step_guide: true,
            startup_condition: String::from_str("asap"),
            startup_at: String::new(),
            completion_condition: String::from_str("sequence"),
            completion_count: String::from_str("1"),
            completion_at: String::new(),
            frames,
        }
    }
}

/// A job completes in exactly one way: after its sequence, after a number
/// of repeats, never (looping), or at a given time; only the last keeps a
/// completion time, and a repeat count other than 1 only comes with repeats.
pub proof fn law_one_completion_mode(condition: Seq<char>, count: Seq<char>, at: Seq<char>)
    ensures
        ({
            let f = completion_flags(condition, count, at);
            &&& (f.0 as int) + (f.1 as int) + (f.3 as int) + (f.4 as int) == 1
            &&& !f.4 ==> f.5.len() == 0
            &&& !f.1 ==> f.2 == 1
        }),
{
}

} // verus!
