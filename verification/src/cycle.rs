//! Moving a selection through a list that wraps around at both ends.

use vstd::prelude::*;

use crate::split_layout::{lemma_pane_position, pane_position};
use crate::text::str_eq;

verus! {

/// Index `index + delta`, wrapped into `0..n` (`rem_euclid`); `0` for an
/// empty list.
pub open spec fn spec_wrap_index(index: usize, delta: isize, n: usize) -> usize {
    if n == 0 {
        0
    } else {
        ((index + delta) % (n as int)) as usize
    }
}

/// Moves selection `index` by `delta` steps in a list of `n` items, going
/// round from the last item to the first and back.
pub fn wrap_index(index: usize, delta: isize, n: usize) -> (r: usize)
    requires
        n <= isize::MAX,
        index <= isize::MAX,
        isize::MIN <= index + delta <= isize::MAX,
    ensures
        r == spec_wrap_index(index, delta, n),
        n > 0 ==> r < n,
{
    if n == 0 {
        return 0;
    }
    let s = index as isize + delta;
    match s.checked_rem_euclid(n as isize) {
        Some(v) => v as usize,
        None => 0,
    }
}

/// A step forward and the same step back return to the start.
pub proof fn lemma_wrap_round_trip(index: usize, delta: isize, n: usize)
    requires
        0 < n <= isize::MAX,
        index < n,
        isize::MIN < delta,
    ensures
        spec_wrap_index(spec_wrap_index(index, delta, n), -delta as isize, n) == index,
{
    let m = n as int;
    let x = index + delta;
    let k = x / m;
    let q = x % m;
    vstd::arithmetic::div_mod::lemma_fundamental_div_mod(x, m);
    vstd::arithmetic::div_mod::lemma_mod_bound(x, m);
    assert(q - delta == m * (-k) + index) by (nonlinear_arith)
        requires
            x == m * k + q,
            x == index + delta,
    ;
    vstd::arithmetic::div_mod::lemma_mod_multiples_vanish(-k, index as int, m);
    vstd::arithmetic::div_mod::lemma_small_mod(index as nat, m as nat);
}

/// Where stepping among workspaces starts: the current workspace's place
/// among `names`, or the first when it is not there.
pub open spec fn workspace_index(names: Seq<String>, current: Seq<char>) -> int {
    match pane_position(names, current) {
        Some(i) => i as int,
        None => 0,
    }
}

/// The workspace to switch to when stepping `delta` places from `current`
/// among `names`: none with fewer than two workspaces, or when the step
/// lands on the current one again.
pub open spec fn spec_next_workspace(names: Seq<String>, current: Seq<char>, delta: isize) -> Option<usize> {
    if names.len() < 2 {
        None
    } else {
        let next = spec_wrap_index(workspace_index(names, current) as usize, delta, names.len() as usize);
        if names[next as int]@ == current {
            None
        } else {
            Some(next)
        }
    }
}

/// The index among `names` of the workspace to switch to when stepping
/// `delta` places from `current`, or `None` when there is nothing to do.
pub fn next_workspace(names: &[String], current: &str, delta: isize) -> (r: Option<usize>)
    requires
        names@.len() <= isize::MAX,
        workspace_index(names@, current@) + delta <= isize::MAX,
    ensures
        r == spec_next_workspace(names@, current@, delta),
{
    if names.len() < 2 {
        return None;
    }
    let ghost s = names@;
    let mut found = false;
    let mut i: usize = 0;
    while i < names.len() && !found
        invariant
            s == names@,
            s.len() <= isize::MAX,
            0 <= i <= s.len(),
            forall|j: int| 0 <= j < i ==> s[j]@ != current@,
            found ==> i < s.len() && s[i as int]@ == current@,
        decreases s.len() - i, if found { 0int } else { 1int },
    {
        if str_eq(names[i].as_str(), current) {
            found = true;
        } else {
            i += 1;
        }
    }
    let idx = if found {
        i
    } else {
        0
    };
    proof {
        lemma_pane_position(s, current@);
        assert(idx == workspace_index(s, current@));
    }
    let next = wrap_index(idx, delta, names.len());
    if str_eq(names[next].as_str(), current) {
        None
    } else {
        Some(next)
    }
}

/// The window to bring forward when stepping `delta` places from window
/// `index` of `count`: none when there are no windows.
pub fn next_window(index: usize, delta: isize, count: usize) -> (r: Option<usize>)
    requires
        count <= isize::MAX,
        index <= isize::MAX,
        isize::MIN <= index + delta <= isize::MAX,
    ensures
        r == if count == 0 {
            None
        } else {
            Some(spec_wrap_index(index, delta, count))
        },
{
    if count == 0 {
        None
    } else {
        Some(wrap_index(index, delta, count))
    }
}

} // verus!
