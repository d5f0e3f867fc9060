//! The pages of the frontend and their order on the tab wheel.

use vstd::prelude::*;

verus! {

/// A page of the frontend.
#[derive(Clone, Copy, Debug, PartialEq, Eq, Structural)]
pub enum Tab {
    Sky,
    Mount,
    Focus,
    Imaging,
    Files,
    PolarAlign,
    Guide,
    Scheduler,
    Mosaic,
    FlatCal,
    Devices,
    Profiles,
}

/// The tabs on the wheel, from top to bottom.
pub open spec fn tab_order() -> Seq<Tab> {
    seq![
        Tab::Profiles,
        Tab::Sky,
        Tab::Mount,
        Tab::Focus,
        Tab::Imaging,
        Tab::Files,
        Tab::PolarAlign,
        Tab::Guide,
        Tab::Scheduler,
        Tab::Mosaic,
        Tab::FlatCal,
    ]
}

/// How many tabs the wheel has.
pub const TAB_COUNT: usize = 11;

/// The tabs on the wheel, from top to bottom.
pub fn tabs() -> (r: Vec<Tab>)
    ensures
        r@ == tab_order(),
{
    let r = vec![
        Tab::Profiles,
        Tab::Sky,
        Tab::Mount,
        Tab::Focus,
        Tab::Imaging,
        Tab::Files,
        Tab::PolarAlign,
        Tab::Guide,
        Tab::Scheduler,
        Tab::Mosaic,
        Tab::FlatCal,
    ];
    assert(r@ =~= tab_order());
    r
}

/// The first position at or after `j` of `t` on the wheel.
pub open spec fn position_from(t: Tab, j: int) -> Option<int>
    decreases 11 - j,
{
    if j < 0 || j >= 11 {
        None
    } else if tab_order()[j] == t {
        Some(j)
    } else {
        position_from(t, j + 1)
    }
}

/// The wheel position of a tab; a tab not on the wheel counts as the first.
pub open spec fn tab_position(t: Tab) -> int {
    match position_from(t, 0) {
        Some(i) => i,
        None => 0,
    }
}

/// The wheel position of a tab (the first slot for a tab not on the wheel).
pub fn tab_index(t: Tab) -> (r: usize)
    ensures
        r == tab_position(t),
        r < TAB_COUNT,
{
    let order = tabs();
    let mut i: usize = 0;
    while i < order.len()
        invariant
            order@ == tab_order(),
            i <= 11,
            position_from(t, 0) == position_from(t, i as int),
        decreases order.len() - i,
    {
        if order[i] == t {
            return i;
        }
        i += 1;
    }
    0
}

/// One notch of the mouse wheel: forward moves to the next tab, backward to
/// the previous one, stopping at either end.
pub fn wheel_step(cur: usize, forward: bool) -> (r: usize)
    requires
        cur < TAB_COUNT,
    ensures
        r == (if forward {
            if cur + 1 < TAB_COUNT {
                cur + 1
            } else {
                TAB_COUNT - 1
            }
        } else {
            if cur > 0 {
                cur - 1
            } else {
                0
            }
        }),
{
    if forward {
        if cur + 1 < TAB_COUNT {
            cur + 1
        } else {
            TAB_COUNT - 1
        }
    } else {
        if cur > 0 {
            cur - 1
        } else {
            0
        }
    }
}

/// The tab a drag of the wheel lands on: `steps` tab-widths away from the
/// tab it started on, clamped to the wheel.
pub fn snap_index(anchor: usize, steps: i32) -> (r: usize)
    requires
        anchor < TAB_COUNT,
    ensures
        r == (if anchor - steps < 0 {
            0
        } else if anchor - steps > TAB_COUNT - 1 {
            TAB_COUNT - 1
        } else {
            anchor - steps
        }),
{
    let v: i64 = anchor as i64 - steps as i64;
    if v < 0 {
        0
    } else if v > 10 {
        TAB_COUNT - 1
    } else {
        v as usize
    }
}

/// Each wheel position holds a different tab: the position of the tab at
/// slot `i` is `i`.
pub proof fn law_tab_index_inverts_order(i: int)
    requires
        0 <= i < 11,
    ensures
        tab_position(tab_order()[i]) == i,
{
    reveal_with_fuel(position_from, 12);
}

} // verus!
