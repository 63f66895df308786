//! Where a new window opens: cascaded down and right from the window that
//! opened it, skipping spots that another visible window already occupies.

use vstd::prelude::*;

verus! {

pub open spec fn clamp_i32(v: int) -> i32 {
    if v > i32::MAX {
        i32::MAX
    } else if v < i32::MIN {
        i32::MIN
    } else {
        v as i32
    }
}

fn saturating_add_i32(a: i32, b: i32) -> (r: i32)
    ensures
        r == clamp_i32(a + b),
{
    let s = a as i64 + b as i64;
    if s > i32::MAX as i64 {
        i32::MAX
    } else if s < i32::MIN as i64 {
        i32::MIN
    } else {
        s as i32
    }
}

fn abs_diff_i32(a: i32, b: i32) -> (r: u32)
    ensures
        r == if a >= b {
            a - b
        } else {
            b - a
        },
{
    if a >= b {
        (a as i64 - b as i64) as u32
    } else {
        (b as i64 - a as i64) as u32
    }
}

/// The `k`-th cascade step from `start`: `step` added `k` times to both
/// coordinates, saturating at the bounds of `i32`.
pub open spec fn cascade_step(start: (i32, i32), step: i32, k: nat) -> (i32, i32)
    decreases k,
{
    if k == 0 {
        start
    } else {
        let p = cascade_step(start, step, (k - 1) as nat);
        (clamp_i32(p.0 + step), clamp_i32(p.1 + step))
    }
}

pub open spec fn abs_diff(a: i32, b: i32) -> int {
    if a >= b {
        a - b
    } else {
        b - a
    }
}

/// No occupied origin lies within `slack` of `p` on both axes (`slack` is
/// read as unsigned).
pub open spec fn spot_free(p: (i32, i32), occupied: Seq<(i32, i32)>, slack: i32) -> bool {
    forall|j: int|
        0 <= j < occupied.len() ==> !(abs_diff(#[trigger] occupied[j].0, p.0) <= slack as u32
            && abs_diff(occupied[j].1, p.1) <= slack as u32)
}

/// Number of cascade steps tried before giving up.
pub const CASCADE_TRIES: usize = 32;

/// Origin for a new window: the first of the next 32 cascade steps from
/// `start` that no occupied origin is near; after 32 taken spots, one step
/// further.
pub fn cascade_screen_origin(start: (i32, i32), occupied: &[(i32, i32)], step: i32, slack: i32) -> (r: (
    i32,
    i32,
))
    ensures
        (exists|k: nat|
            1 <= k <= 32 && r == cascade_step(start, step, k) && spot_free(r, occupied@, slack)
                && forall|j: nat| 1 <= j < k ==> !spot_free(#[trigger] cascade_step(start, step, j), occupied@, slack))
            || (r == cascade_step(start, step, 33) && forall|j: nat|
            1 <= j <= 32 ==> !spot_free(#[trigger] cascade_step(start, step, j), occupied@, slack)),
{
    let mut x = saturating_add_i32(start.0, step);
    let mut y = saturating_add_i32(start.1, step);
    let mut tries: usize = 0;
    assert(cascade_step(start, step, 0) == start);
    while tries < CASCADE_TRIES
        invariant
            0 <= tries <= 32,
            (x, y) == cascade_step(start, step, (tries + 1) as nat),
            forall|j: nat| 1 <= j <= tries ==> !spot_free(#[trigger] cascade_step(start, step, j), occupied@, slack),
        decreases 32 - tries,
    {
        let mut taken = false;
        let mut i: usize = 0;
        while i < occupied.len()
            invariant
                0 <= i <= occupied@.len(),
                !taken ==> forall|j: int|
                    0 <= j < i ==> !(abs_diff(#[trigger] occupied@[j].0, x) <= slack as u32 && abs_diff(
                        occupied@[j].1,
                        y,
                    ) <= slack as u32),
                taken ==> !spot_free((x, y), occupied@, slack),
            decreases occupied@.len() - i,
        {
            let (ox, oy) = occupied[i];
            if abs_diff_i32(ox, x) <= slack as u32 && abs_diff_i32(oy, y) <= slack as u32 {
                taken = true;
            }
            i += 1;
        }
        if !taken {
            assert(spot_free((x, y), occupied@, slack));
            let ghost k = (tries + 1) as nat;
            assert(1 <= k <= 32 && (x, y) == cascade_step(start, step, k) && spot_free(
                (x, y),
                occupied@,
                slack,
            ) && forall|j: nat|
                1 <= j < k ==> !spot_free(#[trigger] cascade_step(start, step, j), occupied@, slack));
            return (x, y);
        }
        x = saturating_add_i32(x, step);
        y = saturating_add_i32(y, step);
        tries += 1;
    }
    (x, y)
}

} // verus!
