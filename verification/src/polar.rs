//! Stages of the polar alignment assistant as the polar-alignment page
//! groups and colours them.

use vstd::prelude::*;

use crate::status::str_is;

verus! {

/// The stages in which the assistant captures and plate-solves.
pub open spec fn progress_stage(stage: Seq<char>) -> bool {
    ||| stage == "First Capture"@
    ||| stage == "First Solve"@
    ||| stage == "First Settle"@
    ||| stage == "Finding CP"@
    ||| stage == "Second Capture"@
    ||| stage == "Second Solve"@
    ||| stage == "Second Settle"@
    ||| stage == "Third Capture"@
    ||| stage == "Third Solve"@
}

/// The stages in which the user or the mount rotates the RA axis.
pub open spec fn rotation_stage(stage: Seq<char>) -> bool {
    stage == "First Rotation"@ || stage == "Second Rotation"@
}

/// The stages of the refresh loop that corrects the mount.
pub open spec fn refresh_stage(stage: Seq<char>) -> bool {
    stage == "Select Star"@ || stage == "Refreshing"@ || stage == "Refresh Complete"@
}

/// The stages before the assistant has started.
pub open spec fn intro_stage(stage: Seq<char>) -> bool {
    stage.len() == 0 || stage == "Idle"@
}

/// Whether the page shows its introduction (no alignment started yet).
pub fn is_intro_stage(stage: &str) -> (r: bool)
    ensures
        r == intro_stage(stage@),
{
    stage.is_empty() || str_is(stage, "Idle")
}

/// Whether the assistant is capturing, solving or settling.
pub fn is_progress_stage(stage: &str) -> (r: bool)
    ensures
        r == progress_stage(stage@),
{
    str_is(stage, "First Capture") || str_is(stage, "First Solve") || str_is(stage, "First Settle")
        || str_is(stage, "Finding CP") || str_is(stage, "Second Capture") || str_is(
        stage,
        "Second Solve",
    ) || str_is(stage, "Second Settle") || str_is(stage, "Third Capture") || str_is(
        stage,
        "Third Solve",
    )
}

/// Whether the assistant waits for a rotation of the RA axis.
pub fn is_rotation_stage(stage: &str) -> (r: bool)
    ensures
        r == rotation_stage(stage@),
{
    str_is(stage, "First Rotation") || str_is(stage, "Second Rotation")
}

/// Whether the assistant is in its refresh loop.
pub fn is_refresh_stage(stage: &str) -> (r: bool)
    ensures
        r == refresh_stage(stage@),
{
    str_is(stage, "Select Star") || str_is(stage, "Refreshing") || str_is(stage, "Refresh Complete")
}

/// The CSS colour of a stage label: muted before the start, informational
/// while capturing and solving, a warning while the user must act, success
/// in the refresh loop, plain text otherwise.
pub open spec fn stage_color_of(stage: Seq<char>) -> Seq<char> {
    if intro_stage(stage) {
        "var(--text-muted)"@
    } else if stage == "First Capture"@ || stage == "First Solve"@ || stage == "Second Capture"@
        || stage == "Second Solve"@ || stage == "Third Capture"@ || stage == "Third Solve"@ {
        "var(--state-info)"@
    } else if rotation_stage(stage) || stage == "First Settle"@ || stage == "Second Settle"@
        || stage == "Finding CP"@ || stage == "Select Star"@ {
        "var(--state-warn)"@
    } else if stage == "Refreshing"@ || stage == "Refresh Complete"@ {
        "var(--state-ok)"@
    } else {
        "var(--text)"@
    }
}

/// The CSS colour of a stage label.
pub fn stage_color(stage: &str) -> (r: &'static str)
    ensures
        r@ == stage_color_of(stage@),
{
    if is_intro_stage(stage) {
        "var(--text-muted)"
    } else if str_is(stage, "First Capture") || str_is(stage, "First Solve") || str_is(
        stage,
        "Second Capture",
    ) || str_is(stage, "Second Solve") || str_is(stage, "Third Capture") || str_is(
        stage,
        "Third Solve",
    ) {
        "var(--state-info)"
    } else if is_rotation_stage(stage) || str_is(stage, "First Settle") || str_is(
        stage,
        "Second Settle",
    ) || str_is(stage, "Finding CP") || str_is(stage, "Select Star") {
        "var(--state-warn)"
    } else if str_is(stage, "Refreshing") || str_is(stage, "Refresh Complete") {
        "var(--state-ok)"
    } else {
        "var(--text)"
    }
}

} // verus!
