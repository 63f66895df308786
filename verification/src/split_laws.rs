//! Properties of the pane tree and of tab layouts that hold across
//! operations.

use vstd::prelude::*;

use crate::split_layout::{
    rotate_ccw_steps, rotate_cw_steps, rotated_panes, swapped, LayoutNode, LayoutState, SplitAxis,
};

verus! {

broadcast use vstd::seq_lib::group_seq_properties;

/// Splitting a leaf finds it exactly when the tree holds it, and then inserts
/// the new leaf right after the first occurrence of the target in preorder.
pub proof fn lemma_split_leaf_leaves(
    node: LayoutNode,
    target: usize,
    axis: SplitAxis,
    new_leaf: usize,
    split_id: u64,
)
    ensures
        node.spec_split_leaf(target, axis, new_leaf, split_id).1 == node.leaves().contains(target),
        node.leaves().contains(target) ==> node.spec_split_leaf(
            target,
            axis,
            new_leaf,
            split_id,
        ).0.leaves() == node.leaves().insert(
            node.leaves().index_of_first(target).unwrap() + 1,
            new_leaf,
        ),
        !node.leaves().contains(target) ==> node.spec_split_leaf(target, axis, new_leaf, split_id).0
            == node,
    decreases node,
{
    node.lemma_split_leaf_not_found(target, axis, new_leaf, split_id);
    node.leaves().index_of_first_ensures(target);
    match node {
        LayoutNode::Leaf(i) => {
            assert(node.leaves()[0] == i);
            if i == target {
                let r = node.spec_split_leaf(target, axis, new_leaf, split_id).0;
                assert(LayoutNode::Leaf(target).leaves() == seq![target]);
                assert(LayoutNode::Leaf(new_leaf).leaves() == seq![new_leaf]);
                assert(r.leaves() =~= seq![target, new_leaf]);
                assert(node.leaves().insert(1, new_leaf) =~= seq![target, new_leaf]);
            }
        },
        LayoutNode::Split { axis: a, id, first, second } => {
            lemma_split_leaf_leaves(*first, target, axis, new_leaf, split_id);
            lemma_split_leaf_leaves(*second, target, axis, new_leaf, split_id);
            let l1 = first.leaves();
            let l2 = second.leaves();
            let l = node.leaves();
            assert(l == l1 + l2);
            l1.index_of_first_ensures(target);
            l2.index_of_first_ensures(target);
            if l1.contains(target) {
                let k = l1.index_of_first(target).unwrap();
                assert(l.contains(target)) by {
                    assert(l[k] == target);
                }
                assert(l.index_of_first(target).unwrap() == k) by {
                    let kk = l.index_of_first(target).unwrap();
                    if kk < k {
                        assert(l1[kk] == target);
                    } else if kk > k {
                        assert(l[k] == target);
                    }
                }
                let f = first.spec_split_leaf(target, axis, new_leaf, split_id).0;
                assert(f.leaves() + l2 =~= l.insert(k + 1, new_leaf));
            } else if l2.contains(target) {
                let k = l2.index_of_first(target).unwrap();
                assert(l.contains(target)) by {
                    assert(l[l1.len() + k] == target);
                }
                assert(l.index_of_first(target).unwrap() == l1.len() + k) by {
                    let kk = l.index_of_first(target).unwrap();
                    if kk < l1.len() {
                        assert(l1[kk] == target);
                    } else if kk < l1.len() + k {
                        assert(l2[kk - l1.len()] == target);
                    } else if kk > l1.len() + k {
                        assert(l[l1.len() + k] == target);
                    }
                }
                let s = second.spec_split_leaf(target, axis, new_leaf, split_id).0;
                assert(l1 + s.leaves() =~= l.insert(l1.len() + k + 1, new_leaf));
            } else {
                assert(!l.contains(target)) by {
                    if l.contains(target) {
                        let kk = l.index_of_first(target).unwrap();
                        if kk < l1.len() {
                            assert(l1[kk] == target);
                        } else {
                            assert(l2[kk - l1.len()] == target);
                        }
                    }
                }
            }
        },
    }
}

/// Pruning keeps exactly the other leaves, in order, and gives `None` when
/// there are none.
pub proof fn lemma_prune_leaves(node: LayoutNode, target: usize)
    ensures
        node.spec_prune(target) is None <==> node.leaves().filter(other_than(target)).len()
            == 0,
        node.spec_prune(target) matches Some(n) ==> n.leaves() == node.leaves().filter(
            other_than(target),
        ),
    decreases node,
{
    let pred = other_than(target);
    match node {
        LayoutNode::Leaf(i) => {
            assert(node.leaves() =~= seq![i]);
            assert(seq![i].drop_last() =~= Seq::<usize>::empty());
            assert(Seq::<usize>::empty().filter(pred) =~= Seq::<usize>::empty());
            reveal_with_fuel(Seq::filter, 2);
            if i == target {
                assert(node.leaves().filter(pred) =~= Seq::<usize>::empty());
            } else {
                assert(node.leaves().filter(pred) =~= seq![i]);
            }
        },
        LayoutNode::Split { first, second, .. } => {
            lemma_prune_leaves(*first, target);
            lemma_prune_leaves(*second, target);
            Seq::filter_distributes_over_add(first.leaves(), second.leaves(), pred);
        },
    }
}

/// Remapping moves every leaf above `removed` down by one and keeps the
/// rest.
pub proof fn lemma_remap_leaves(node: LayoutNode, removed: usize)
    ensures
        node.spec_remap(removed).leaves() == node.leaves().map_values(
            |x: usize| if x > removed {
                (x - 1) as usize
            } else {
                x
            },
        ),
    decreases node,
{
    match node {
        LayoutNode::Leaf(i) => {
            assert(node.spec_remap(removed).leaves() =~= node.leaves().map_values(
                |x: usize| if x > removed {
                    (x - 1) as usize
                } else {
                    x
                },
            ));
        },
        LayoutNode::Split { first, second, .. } => {
            lemma_remap_leaves(*first, removed);
            lemma_remap_leaves(*second, removed);
            assert(node.spec_remap(removed).leaves() =~= node.leaves().map_values(
                |x: usize| if x > removed {
                    (x - 1) as usize
                } else {
                    x
                },
            ));
        },
    }
}


/// Filtering a sequence without repeats gives a sequence without repeats.
pub proof fn lemma_filter_no_duplicates<A>(s: Seq<A>, pred: spec_fn(A) -> bool)
    requires
        s.no_duplicates(),
    ensures
        s.filter(pred).no_duplicates(),
    decreases s.len(),
{
    reveal(Seq::filter);
    if s.len() > 0 {
        let d = s.drop_last();
        assert(d.no_duplicates()) by {
            assert forall|a: int, b: int| 0 <= a < d.len() && 0 <= b < d.len() && a != b implies d[a]
                != d[b] by {
                assert(d[a] == s[a] && d[b] == s[b]);
            }
        }
        lemma_filter_no_duplicates(d, pred);
        if pred(s.last()) {
            let f = d.filter(pred);
            assert(!f.contains(s.last())) by {
                if f.contains(s.last()) {
                    d.lemma_filter_contains_rev(pred, s.last());
                    let j = choose|j: int| 0 <= j < d.len() && d[j] == s.last();
                    assert(s[j] == s[s.len() - 1]);
                }
            }
            let g = f.push(s.last());
            assert forall|a: int, b: int| 0 <= a < g.len() && 0 <= b < g.len() && a != b implies g[a]
                != g[b] by {
                if a == g.len() - 1 {
                    assert(f[b] != s.last());
                } else if b == g.len() - 1 {
                    assert(f[a] != s.last());
                }
            }
        }
    }
}

pub open spec fn other_than(i: usize) -> spec_fn(usize) -> bool {
    |x: usize| x != i
}

pub open spec fn shift_down(removed: usize) -> spec_fn(usize) -> usize {
    |x: usize| if x > removed {
        (x - 1) as usize
    } else {
        x
    }
}

/// Removing pane `i` from a well-formed tree of `n` panes leaves the leaves
/// `0..n-1`, each once.
proof fn lemma_prune_remap_indices(l: Seq<usize>, i: usize, n: int)
    requires
        l.no_duplicates(),
        forall|j: usize| j < n <==> #[trigger] l.contains(j),
        i < n,
        n <= usize::MAX,
    ensures
        l.filter(other_than(i)).map_values(shift_down(i)).no_duplicates(),
        forall|j: usize|
            j < n - 1 <==> #[trigger] l.filter(other_than(i)).map_values(shift_down(i)).contains(j),
{
    let pred = other_than(i);
    let f = l.filter(pred);
    let m = f.map_values(shift_down(i));
    lemma_filter_no_duplicates(l, pred);
    assert forall|k: int| 0 <= k < f.len() implies #[trigger] f[k] != i && f[k] < n by {
        l.lemma_filter_pred(pred, k);
        assert(f.contains(f[k]));
        l.lemma_filter_contains_rev(pred, f[k]);
    }
    assert forall|a: int, b: int| 0 <= a < m.len() && 0 <= b < m.len() && a != b implies m[a]
        != m[b] by {
        assert(f[a] != f[b]);
        assert(f[a] != i && f[b] != i);
    }
    assert forall|j: usize| j < n - 1 <==> #[trigger] m.contains(j) by {
        if j < n - 1 {
            let src: usize = if j < i {
                j
            } else {
                (j + 1) as usize
            };
            assert(l.contains(src));
            let k = choose|k: int| 0 <= k < l.len() && l[k] == src;
            l.lemma_filter_contains(pred, k);
            let kf = choose|kf: int| 0 <= kf < f.len() && f[kf] == src;
            assert(m[kf] == j);
        }
        if m.contains(j) {
            let k = choose|k: int| 0 <= k < m.len() && m[k] == j;
            assert(f[k] != i && f[k] < n);
        }
    }
}

/// Splitting keeps a non-empty layout well formed.
pub proof fn lemma_split_keeps_wf<T>(st: LayoutState<T>, axis: SplitAxis, new_pane: T, split_id: u64)
    requires
        st.wf(),
        st.panes.len() > 0,
        st.panes.len() < usize::MAX,
    ensures
        st.spec_split(axis, new_pane, split_id).wf(),
{
    let at = st.active_index() as usize;
    let n = st.panes.len() as usize;
    let l = st.root.leaves();
    assert(l.contains(at));
    lemma_split_leaf_leaves(st.root, at, axis, n, split_id);
    let k = l.index_of_first(at).unwrap();
    l.index_of_first_ensures(at);
    let l2 = l.insert(k + 1, n);
    l.insert_ensures(k + 1, n);
    assert(!l.contains(n));
    assert forall|a: int, b: int| 0 <= a < l2.len() && 0 <= b < l2.len() && a != b implies l2[a]
        != l2[b] by {
        if a == k + 1 {
            if b < k + 1 {
                assert(l2[b] == l[b]);
            } else {
                assert(l2[b] == l[b - 1]);
            }
        } else if b == k + 1 {
            if a < k + 1 {
                assert(l2[a] == l[a]);
            } else {
                assert(l2[a] == l[a - 1]);
            }
        } else {
            let a0 = if a < k + 1 {
                a
            } else {
                a - 1
            };
            let b0 = if b < k + 1 {
                b
            } else {
                b - 1
            };
            assert(l2[a] == l[a0] && l2[b] == l[b0]);
        }
    }
    assert forall|j: usize| j < n + 1 <==> #[trigger] l2.contains(j) by {
        if j < n {
            assert(l.contains(j));
            let q = choose|q: int| 0 <= q < l.len() && l[q] == j;
            if q < k + 1 {
                assert(l2[q] == j);
            } else {
                assert(l2[q + 1] == j);
            }
        } else if j == n {
            assert(l2[k + 1] == n);
        }
        if l2.contains(j) {
            let q = choose|q: int| 0 <= q < l2.len() && l2[q] == j;
            if q < k + 1 {
                assert(l.contains(l2[q]));
            } else if q > k + 1 {
                assert(l2[q] == l[q - 1]);
                assert(l.contains(l2[q]));
            }
        }
    }
}

/// Removing an existing pane keeps a well-formed layout well formed.
pub proof fn lemma_remove_keeps_wf<T>(st: LayoutState<T>, i: usize)
    requires
        st.wf(),
        st.panes.len() <= usize::MAX,
        i < st.panes.len(),
    ensures
        st.spec_remove_at(Some(i)).0.wf(),
{
    lemma_prune_leaves(st.root, i);
    if st.root.spec_prune(i) is None {
        let l = st.root.leaves();
        assert forall|k: int| 0 <= k < l.len() implies l[k] == i by {
            if l[k] != i {
                l.lemma_filter_contains(other_than(i), k);
            }
        }
        if st.panes.len() >= 2 {
            let j: usize = if i == 0 { 1 } else { 0 };
            assert(l.contains(j));
        }
        assert(l.contains(i));
        if l.len() >= 2 {
            assert(l[0] == l[1]);
        }
        assert(l =~= seq![0usize]);
    }
    if let Some(pruned) = st.root.spec_prune(i) {
        if st.panes.len() == 1 {
            let l = st.root.leaves();
            let f = l.filter(other_than(i));
            assert(f.len() > 0);
            l.lemma_filter_pred(other_than(i), 0);
            assert(f.contains(f[0]));
            l.lemma_filter_contains_rev(other_than(i), f[0]);
            assert(f[0] < 1);
        }
        lemma_remap_leaves(pruned, i);
        lemma_prune_remap_indices(st.root.leaves(), i, st.panes.len() as int);
        assert(pruned.spec_remap(i).leaves() == st.root.leaves().filter(other_than(i)).map_values(
            shift_down(i),
        )) by {
            assert(pruned.leaves() == st.root.leaves().filter(other_than(i)));
            assert(pruned.leaves().map_values(
                |x: usize| if x > i {
                    (x - 1) as usize
                } else {
                    x
                },
            ) =~= pruned.leaves().map_values(shift_down(i)));
        }
    }
}

/// The splits of a tree in preorder, each as its axis and id.
pub open spec fn split_tags(node: LayoutNode) -> Seq<(SplitAxis, u64)>
    decreases node,
{
    match node {
        LayoutNode::Leaf(_) => Seq::empty(),
        LayoutNode::Split { axis, id, first, second } => seq![(axis, id)] + split_tags(*first) + split_tags(
            *second,
        ),
    }
}

/// Every split that pruning leaves carries the axis and id of a split of
/// the old tree.
pub proof fn lemma_prune_keeps_split_tags(node: LayoutNode, target: usize)
    ensures
        node.spec_prune(target) matches Some(n) ==> forall|t: (SplitAxis, u64)|
            split_tags(n).contains(t) ==> split_tags(node).contains(t),
    decreases node,
{
    if let LayoutNode::Split { axis, id, first, second } = node {
        lemma_prune_keeps_split_tags(*first, target);
        lemma_prune_keeps_split_tags(*second, target);
        let s = split_tags(node);
        let s1 = split_tags(*first);
        let s2 = split_tags(*second);
        assert(s == seq![(axis, id)] + s1 + s2);
        assert forall|t: (SplitAxis, u64)| s1.contains(t) implies s.contains(t) by {
            let k = choose|k: int| 0 <= k < s1.len() && s1[k] == t;
            assert(s[1 + k] == t);
        }
        assert forall|t: (SplitAxis, u64)| s2.contains(t) implies s.contains(t) by {
            let k = choose|k: int| 0 <= k < s2.len() && s2[k] == t;
            assert(s[1 + s1.len() + k] == t);
        }
        assert(s[0] == (axis, id));
        if let (Some(f), Some(g)) = (first.spec_prune(target), second.spec_prune(target)) {
            let n = LayoutNode::Split { axis, id, first: Box::new(f), second: Box::new(g) };
            let sn = split_tags(n);
            assert(sn == seq![(axis, id)] + split_tags(f) + split_tags(g));
            assert forall|t: (SplitAxis, u64)| sn.contains(t) implies s.contains(t) by {
                let k = choose|k: int| 0 <= k < sn.len() && sn[k] == t;
                if k == 0 {
                } else if k < 1 + split_tags(f).len() {
                    assert(split_tags(f)[k - 1] == t);
                    assert(split_tags(f).contains(t));
                } else {
                    assert(split_tags(g)[k - 1 - split_tags(f).len()] == t);
                    assert(split_tags(g).contains(t));
                }
            }
        }
    }
}

/// Remapping the leaves keeps every split as it was.
pub proof fn lemma_remap_keeps_split_tags(node: LayoutNode, removed: usize)
    ensures
        split_tags(node.spec_remap(removed)) == split_tags(node),
    decreases node,
{
    if let LayoutNode::Split { first, second, .. } = node {
        lemma_remap_keeps_split_tags(*first, removed);
        lemma_remap_keeps_split_tags(*second, removed);
    }
}

/// Removing pane `i` from a well-formed layout: unless the tab is left
/// empty, the leaves, read through the panes, are the old ones read through
/// the old panes with pane `i` dropped, and every split left keeps the axis
/// and id of an old split.
pub proof fn lemma_remove_keeps_pane_order<T>(st: LayoutState<T>, i: usize)
    requires
        st.wf(),
        st.panes.len() <= usize::MAX,
        i < st.panes.len(),
    ensures
        ({
            let (after, empty) = st.spec_remove_at(Some(i));
            &&& after.panes == st.panes.remove(i as int)
            &&& !empty ==> after.root.leaves().map_values(|l: usize| after.panes[l as int])
                == st.root.leaves().filter(other_than(i)).map_values(|l: usize| st.panes[l as int])
            &&& forall|t: (SplitAxis, u64)| split_tags(after.root).contains(t) ==> split_tags(st.root).contains(t)
        }),
{
    let (after, empty) = st.spec_remove_at(Some(i));
    lemma_prune_leaves(st.root, i);
    lemma_prune_keeps_split_tags(st.root, i);
    lemma_remove_keeps_wf(st, i);
    if let Some(pruned) = st.root.spec_prune(i) {
        lemma_remap_leaves(pruned, i);
        lemma_remap_keeps_split_tags(pruned, i);
        let l = st.root.leaves();
        let f = l.filter(other_than(i));
        let shifted = f.map_values(shift_down(i));
        assert(after.root.leaves() =~= shifted);
        assert forall|k: int| 0 <= k < f.len() implies #[trigger] f[k] != i && f[k] < st.panes.len() by {
            l.lemma_filter_pred(other_than(i), k);
            assert(f.contains(f[k]));
            l.lemma_filter_contains_rev(other_than(i), f[k]);
        }
        let lhs = after.root.leaves().map_values(|x: usize| after.panes[x as int]);
        let rhs = f.map_values(|x: usize| st.panes[x as int]);
        assert forall|k: int| 0 <= k < lhs.len() implies lhs[k] == rhs[k] by {
            let x = f[k];
            assert(shifted[k] == shift_down(i)(x));
            if x > i {
                assert(st.panes.remove(i as int)[x - 1] == st.panes[x as int]);
            } else {
                assert(st.panes.remove(i as int)[x as int] == st.panes[x as int]);
            }
        }
        assert(lhs =~= rhs);
    } else {
        let l = st.root.leaves();
        if st.panes.len() >= 2 {
            let j: usize = if i == 0 {
                1
            } else {
                0
            };
            assert(l.contains(j));
            let k = choose|k: int| 0 <= k < l.len() && l[k] == j;
            l.lemma_filter_contains(other_than(i), k);
        }
        assert(after.panes =~= st.panes.remove(i as int));
    }
}

/// Removing pane `i` from a well-formed layout of two panes or more keeps
/// the focus on the same pane; when the focused pane itself goes, the pane
/// after it slides in (the new last pane when it was last). Zoom survives
/// only with two panes or more left.
pub proof fn lemma_remove_focus_and_zoom<T>(st: LayoutState<T>, i: usize)
    requires
        st.wf(),
        st.panes.len() <= usize::MAX,
        st.panes.len() >= 2,
        i < st.panes.len(),
    ensures
        ({
            let (after, empty) = st.spec_remove_at(Some(i));
            let n = st.panes.len();
            let a = st.active_index();
            &&& !empty
            &&& after.panes.len() == n - 1
            &&& a != i ==> after.panes[after.active_index()] == st.panes[a]
            &&& a == i ==> after.active_index() == if i < n - 2 {
                i as int
            } else {
                n - 2
            }
            &&& after.zoomed == (st.zoomed && n - 1 >= 2)
        }),
{
    let l = st.root.leaves();
    let j: usize = if i == 0 {
        1
    } else {
        0
    };
    assert(l.contains(j));
    let k = choose|k: int| 0 <= k < l.len() && l[k] == j;
    l.lemma_filter_contains(other_than(i), k);
    lemma_prune_leaves(st.root, i);
    assert(st.root.spec_prune(i) is Some);
    let (after, empty) = st.spec_remove_at(Some(i));
    let n = st.panes.len();
    let a = st.active_index();
    assert(after.panes.len() == n - 1);
    if a != i {
        if st.active > i && st.active >= n {
            assert(after.active_index() == n - 2);
            assert(st.panes.remove(i as int)[n - 2] == st.panes[n - 1]);
        } else if st.active > i {
            assert(st.panes.remove(i as int)[st.active - 1] == st.panes[st.active as int]);
        } else {
            assert(st.panes.remove(i as int)[st.active as int] == st.panes[st.active as int]);
        }
    }
}

/// Exchanging panes, toggling zoom and moving the focus keep a layout well
/// formed.
pub proof fn lemma_swap_zoom_focus_keep_wf<T>(st: LayoutState<T>, other: usize, keep_focus: bool, a: usize)
    requires
        st.wf(),
    ensures
        st.spec_swap_active_with(other, keep_focus).wf(),
        st.spec_toggle_zoom().wf(),
        (LayoutState { active: a, ..st }).wf(),
{
}

/// Pruning a leaf that the tree does not hold gives the tree back.
pub proof fn lemma_prune_absent(node: LayoutNode, target: usize)
    requires
        !node.leaves().contains(target),
    ensures
        node.spec_prune(target) == Some(node),
    decreases node,
{
    match node {
        LayoutNode::Leaf(i) => {
            assert(node.leaves()[0] == i);
        },
        LayoutNode::Split { first, second, .. } => {
            assert(!first.leaves().contains(target)) by {
                if first.leaves().contains(target) {
                    let k = choose|k: int| 0 <= k < first.leaves().len() && first.leaves()[k] == target;
                    assert(node.leaves()[k] == target);
                }
            }
            assert(!second.leaves().contains(target)) by {
                if second.leaves().contains(target) {
                    let k = choose|k: int|
                        0 <= k < second.leaves().len() && second.leaves()[k] == target;
                    assert(node.leaves()[first.leaves().len() + k] == target);
                }
            }
            lemma_prune_absent(*first, target);
            lemma_prune_absent(*second, target);
        },
    }
}

/// Remapping after removing an index above every leaf changes nothing.
pub proof fn lemma_remap_above(node: LayoutNode, removed: usize)
    requires
        forall|k: int| 0 <= k < node.leaves().len() ==> node.leaves()[k] <= removed,
    ensures
        node.spec_remap(removed) == node,
    decreases node,
{
    match node {
        LayoutNode::Leaf(i) => {
            assert(node.leaves()[0] == i);
        },
        LayoutNode::Split { first, second, .. } => {
            assert forall|k: int| 0 <= k < first.leaves().len() implies first.leaves()[k] <= removed by {
                assert(node.leaves()[k] == first.leaves()[k]);
            }
            assert forall|k: int| 0 <= k < second.leaves().len() implies second.leaves()[k]
                <= removed by {
                assert(node.leaves()[first.leaves().len() + k] == second.leaves()[k]);
            }
            lemma_remap_above(*first, removed);
            lemma_remap_above(*second, removed);
        },
    }
}

/// Pruning the leaf that a split just added gives back the tree before the
/// split.
pub proof fn lemma_prune_undoes_split_leaf(
    node: LayoutNode,
    target: usize,
    axis: SplitAxis,
    new_leaf: usize,
    split_id: u64,
)
    requires
        !node.leaves().contains(new_leaf),
    ensures
        node.spec_split_leaf(target, axis, new_leaf, split_id).0.spec_prune(new_leaf) == Some(node),
    decreases node,
{
    node.lemma_split_leaf_not_found(target, axis, new_leaf, split_id);
    match node {
        LayoutNode::Leaf(i) => {
            assert(node.leaves()[0] == i);
            assert(LayoutNode::Leaf(i).spec_prune(new_leaf) == Some(LayoutNode::Leaf(i)));
            assert(LayoutNode::Leaf(new_leaf).spec_prune(new_leaf) is None);
        },
        LayoutNode::Split { first, second, .. } => {
            assert(!first.leaves().contains(new_leaf)) by {
                if first.leaves().contains(new_leaf) {
                    let k = choose|k: int| 0 <= k < first.leaves().len() && first.leaves()[k] == new_leaf;
                    assert(node.leaves()[k] == new_leaf);
                }
            }
            assert(!second.leaves().contains(new_leaf)) by {
                if second.leaves().contains(new_leaf) {
                    let k = choose|k: int|
                        0 <= k < second.leaves().len() && second.leaves()[k] == new_leaf;
                    assert(node.leaves()[first.leaves().len() + k] == new_leaf);
                }
            }
            lemma_prune_undoes_split_leaf(*first, target, axis, new_leaf, split_id);
            lemma_prune_undoes_split_leaf(*second, target, axis, new_leaf, split_id);
            lemma_prune_absent(*first, new_leaf);
            lemma_prune_absent(*second, new_leaf);
            first.lemma_split_leaf_not_found(target, axis, new_leaf, split_id);
        },
    }
}

/// Splitting a well-formed, non-empty tab and then removing the pane that the
/// split added gives back the panes and the tree from before the split; the
/// tab is not left empty.
pub proof fn lemma_split_then_remove_restores<T>(
    st: LayoutState<T>,
    axis: SplitAxis,
    new_pane: T,
    split_id: u64,
)
    requires
        st.wf(),
        st.panes.len() > 0,
        st.panes.len() < usize::MAX,
    ensures
        ({
            let (after, empty) = st.spec_split(axis, new_pane, split_id).spec_remove_at(
                Some(st.panes.len() as usize),
            );
            &&& after.panes == st.panes
            &&& after.root == st.root
            &&& !empty
        }),
{
    let n = st.panes.len() as usize;
    let at = st.active_index() as usize;
    let l = st.root.leaves();
    assert(!l.contains(n));
    assert forall|k: int| 0 <= k < l.len() implies l[k] <= n by {
        assert(l.contains(l[k]));
    }
    lemma_prune_undoes_split_leaf(st.root, at, axis, n, split_id);
    lemma_remap_above(st.root, n);
    let s1 = st.spec_split(axis, new_pane, split_id);
    assert(s1.panes.remove(n as int) =~= st.panes);
}


pub open spec fn distinct_slots<T>(s: Seq<T>, l: Seq<usize>) -> bool {
    &&& s.len() <= usize::MAX
    &&& l.no_duplicates()
    &&& forall|k: int| 0 <= k < l.len() ==> #[trigger] l[k] < s.len()
}

proof fn lemma_cw_steps<T>(s: Seq<T>, l: Seq<usize>, m: nat)
    requires
        distinct_slots(s, l),
        l.len() >= 2,
        m <= l.len() - 1,
    ensures
        ({
            let p = rotate_cw_steps(s, l, m);
            let n = l.len();
            &&& p.len() == s.len()
            &&& p[l[n - 1 - m] as int] == s[l[n - 1] as int]
            &&& forall|k: int| n - m <= k < n ==> #[trigger] p[l[k] as int] == s[l[k - 1] as int]
            &&& forall|k: int| 0 <= k < n - 1 - m ==> #[trigger] p[l[k] as int] == s[l[k] as int]
            &&& forall|j: int| 0 <= j < s.len() && !l.contains(j as usize) ==> #[trigger] p[j] == s[j]
        }),
    decreases m,
{
    let n = l.len();
    if m > 0 {
        lemma_cw_steps(s, l, (m - 1) as nat);
        let p0 = rotate_cw_steps(s, l, (m - 1) as nat);
        let p = rotate_cw_steps(s, l, m);
        let i = n - m;
        assert(p == swapped(p0, l[i] as int, l[i - 1] as int));
        assert forall|k: int| n - m <= k < n implies #[trigger] p[l[k] as int] == s[l[k - 1] as int] by {
            if k != i {
                assert(l[k] != l[i] && l[k] != l[i - 1]);
            }
        }
        assert forall|k: int| 0 <= k < n - 1 - m implies #[trigger] p[l[k] as int] == s[l[k] as int] by {
            assert(l[k] != l[i] && l[k] != l[i - 1]);
        }
        assert forall|j: int| 0 <= j < s.len() && !l.contains(j as usize) implies #[trigger] p[j] == s[j] by {
            assert(l[i] != j && l[i - 1] != j);
        }
    }
}

proof fn lemma_ccw_steps<T>(s: Seq<T>, l: Seq<usize>, m: nat)
    requires
        distinct_slots(s, l),
        l.len() >= 2,
        m <= l.len() - 1,
    ensures
        ({
            let p = rotate_ccw_steps(s, l, m);
            let n = l.len();
            &&& p.len() == s.len()
            &&& p[l[m as int] as int] == s[l[0] as int]
            &&& forall|k: int| 0 <= k < m ==> #[trigger] p[l[k] as int] == s[l[k + 1] as int]
            &&& forall|k: int| m < k < n ==> #[trigger] p[l[k] as int] == s[l[k] as int]
            &&& forall|j: int| 0 <= j < s.len() && !l.contains(j as usize) ==> #[trigger] p[j] == s[j]
        }),
    decreases m,
{
    let n = l.len();
    if m > 0 {
        lemma_ccw_steps(s, l, (m - 1) as nat);
        let p0 = rotate_ccw_steps(s, l, (m - 1) as nat);
        let p = rotate_ccw_steps(s, l, m);
        assert(p == swapped(p0, l[m - 1] as int, l[m as int] as int));
        assert forall|k: int| 0 <= k < m implies #[trigger] p[l[k] as int] == s[l[k + 1] as int] by {
            if k != m - 1 {
                assert(l[k] != l[m - 1] && l[k] != l[m as int]);
            }
        }
        assert forall|k: int| m < k < n implies #[trigger] p[l[k] as int] == s[l[k] as int] by {
            assert(l[k] != l[m - 1] && l[k] != l[m as int]);
        }
        assert forall|j: int| 0 <= j < s.len() && !l.contains(j as usize) implies #[trigger] p[j] == s[j] by {
            assert(l[m - 1] != j && l[m as int] != j);
        }
    }
}

/// Over distinct leaf slots, a clockwise rotation moves the pane of the last
/// slot to the first and every other pane one slot on; panes outside the
/// slots stay.
pub proof fn lemma_rotate_clockwise_moves_last_to_first<T>(s: Seq<T>, l: Seq<usize>)
    requires
        distinct_slots(s, l),
        l.len() >= 2,
    ensures
        ({
            let p = rotated_panes(s, l, true);
            let n = l.len();
            &&& p.len() == s.len()
            &&& p[l[0] as int] == s[l[n - 1] as int]
            &&& forall|k: int| 1 <= k < n ==> #[trigger] p[l[k] as int] == s[l[k - 1] as int]
            &&& forall|j: int| 0 <= j < s.len() && !l.contains(j as usize) ==> #[trigger] p[j] == s[j]
        }),
{
    lemma_cw_steps(s, l, (l.len() - 1) as nat);
}

/// Over distinct leaf slots, a counter-clockwise rotation moves the pane of
/// the first slot to the last and every other pane one slot back; panes
/// outside the slots stay.
pub proof fn lemma_rotate_counter_clockwise_moves_first_to_last<T>(s: Seq<T>, l: Seq<usize>)
    requires
        distinct_slots(s, l),
        l.len() >= 2,
    ensures
        ({
            let p = rotated_panes(s, l, false);
            let n = l.len();
            &&& p.len() == s.len()
            &&& p[l[n - 1] as int] == s[l[0] as int]
            &&& forall|k: int| 0 <= k < n - 1 ==> #[trigger] p[l[k] as int] == s[l[k + 1] as int]
            &&& forall|j: int| 0 <= j < s.len() && !l.contains(j as usize) ==> #[trigger] p[j] == s[j]
        }),
{
    lemma_ccw_steps(s, l, (l.len() - 1) as nat);
}

/// Over distinct leaf slots, rotating one way and then the other gives the
/// panes back, in either order.
pub proof fn lemma_rotate_round_trip<T>(s: Seq<T>, l: Seq<usize>)
    requires
        distinct_slots(s, l),
    ensures
        rotated_panes(rotated_panes(s, l, true), l, false) == s,
        rotated_panes(rotated_panes(s, l, false), l, true) == s,
{
    if l.len() >= 2 {
        let n = l.len();
        let a = rotated_panes(s, l, true);
        let b = rotated_panes(s, l, false);
        lemma_rotate_clockwise_moves_last_to_first(s, l);
        lemma_rotate_counter_clockwise_moves_first_to_last(s, l);
        assert(distinct_slots(a, l));
        assert(distinct_slots(b, l));
        lemma_rotate_counter_clockwise_moves_first_to_last(a, l);
        lemma_rotate_clockwise_moves_last_to_first(b, l);
        let q = rotated_panes(a, l, false);
        let r = rotated_panes(b, l, true);
        assert forall|j: int| 0 <= j < s.len() implies q[j] == s[j] && r[j] == s[j] by {
            if l.contains(j as usize) {
                let k = choose|k: int| 0 <= k < n && l[k] == j as usize;
                assert(l[k] as int == j);
                if k < n - 1 {
                    assert(q[l[k] as int] == a[l[k + 1] as int]);
                    assert(a[l[k + 1] as int] == s[l[k] as int]);
                } else {
                    assert(q[l[k] as int] == a[l[0] as int]);
                    assert(a[l[0] as int] == s[l[n - 1] as int]);
                }
                if k > 0 {
                    assert(r[l[k] as int] == b[l[k - 1] as int]);
                    assert(b[l[k - 1] as int] == s[l[k] as int]);
                } else {
                    assert(r[l[k] as int] == b[l[n - 1] as int]);
                    assert(b[l[n - 1] as int] == s[l[0] as int]);
                }
            } else {
                assert(q[j] == a[j]);
                assert(a[j] == s[j]);
                assert(r[j] == b[j]);
                assert(b[j] == s[j]);
            }
        }
        assert(q =~= s);
        assert(r =~= s);
    }
}

/// Rotating keeps the tree, so a well-formed layout stays well formed.
pub proof fn lemma_rotate_keeps_wf<T>(st: LayoutState<T>, clockwise: bool, active: usize)
    requires
        st.wf(),
        st.leaves_in_range(),
        st.panes.len() <= usize::MAX,
    ensures
        (LayoutState {
            panes: rotated_panes(st.panes, st.root.leaves(), clockwise),
            active,
            ..st
        }).wf(),
{
    let l = st.root.leaves();
    if l.len() >= 2 && st.panes.len() > 0 {
        assert(distinct_slots(st.panes, l)) by {
            assert forall|k: int| 0 <= k < l.len() implies #[trigger] l[k] < st.panes.len() by {
                assert(l.contains(l[k]));
            }
        }
        lemma_rotate_clockwise_moves_last_to_first(st.panes, l);
        lemma_rotate_counter_clockwise_moves_first_to_last(st.panes, l);
    }
    if l.len() >= 2 && st.panes.len() == 0 {
        assert(l.contains(l[0]));
    }
}

/// Exchanging the focused pane with another: with `keep_focus` the focus
/// stays on the same pane, without it the focus stays on the same slot and
/// now shows the other pane; exchanging back with the old focused slot gives
/// the panes back.
pub proof fn lemma_swap_active_with<T>(st: LayoutState<T>, other: usize)
    requires
        other < st.panes.len(),
        other != st.active_index(),
    ensures
        ({
            let a = st.active_index();
            let kept = st.spec_swap_active_with(other, true);
            let stayed = st.spec_swap_active_with(other, false);
            &&& kept.panes[kept.active_index()] == st.panes[a]
            &&& stayed.panes[stayed.active_index()] == st.panes[other as int]
            &&& kept.spec_swap_active_with(a as usize, false).panes == st.panes
            &&& stayed.spec_swap_active_with(other, false).panes == st.panes
        }),
{
    let a = st.active_index();
    let kept = st.spec_swap_active_with(other, true);
    let stayed = st.spec_swap_active_with(other, false);
    assert(kept.active_index() == other);
    assert(stayed.active_index() == a);
    assert(kept.spec_swap_active_with(a as usize, false).panes =~= st.panes);
    assert(stayed.spec_swap_active_with(other, false).panes =~= st.panes);
}

/// The split that `ancestor_split` names is a split of the tree, and its
/// axis is the one asked for.
pub proof fn lemma_ancestor_split_is_a_split(node: LayoutNode, leaf: usize, axis: SplitAxis)
    ensures
        node.spec_ancestor_split(leaf, axis) matches Some(id) ==> node.split_ids().contains(id),
    decreases node,
{
    if let LayoutNode::Split { axis: a, id, first, second } = node {
        lemma_ancestor_split_is_a_split(*first, leaf, axis);
        lemma_ancestor_split_is_a_split(*second, leaf, axis);
        let s = node.split_ids();
        let s1 = first.split_ids();
        let s2 = second.split_ids();
        assert(s == seq![id] + s1 + s2);
        assert(s[0] == id);
        if let Some(x) = first.spec_ancestor_split(leaf, axis) {
            let k = choose|k: int| 0 <= k < s1.len() && s1[k] == x;
            assert(s[1 + k] == x);
        }
        if let Some(x) = second.spec_ancestor_split(leaf, axis) {
            let k = choose|k: int| 0 <= k < s2.len() && s2[k] == x;
            assert(s[1 + s1.len() + k] == x);
        }
    }
}
/// The splits on the way from the root down to the first (preorder)
/// occurrence of `leaf`, outermost first, each as its axis and id; empty
/// when the tree does not hold `leaf`.
pub open spec fn path_to_leaf(node: LayoutNode, leaf: usize) -> Seq<(SplitAxis, u64)>
    decreases node,
{
    match node {
        LayoutNode::Leaf(_) => Seq::empty(),
        LayoutNode::Split { axis, id, first, second } => if first.leaves().contains(leaf) {
            seq![(axis, id)] + path_to_leaf(*first, leaf)
        } else if second.leaves().contains(leaf) {
            seq![(axis, id)] + path_to_leaf(*second, leaf)
        } else {
            Seq::empty()
        },
    }
}

/// `r` names the nearest split of `axis` on the way `p` down to a leaf:
/// none exactly when no split on the way has that axis; otherwise a split
/// of that axis on the way, with no other split of that axis after it; and
/// the last split's id when that one has the axis.
pub open spec fn nearest_of_axis(p: Seq<(SplitAxis, u64)>, axis: SplitAxis, r: Option<u64>) -> bool {
    &&& r is None <==> forall|k: int| 0 <= k < p.len() ==> (#[trigger] p[k]).0 != axis
    &&& r matches Some(id) ==> exists|k: int|
        {
            &&& 0 <= k < p.len()
            &&& #[trigger] p[k] == (axis, id)
            &&& forall|j: int| k < j < p.len() ==> (#[trigger] p[j]).0 != axis
        }
    &&& p.len() > 0 && p.last().0 == axis ==> r == Some(p.last().1)
}

#[verifier::rlimit(40)]
proof fn lemma_nearest_step(a: SplitAxis, id: u64, q: Seq<(SplitAxis, u64)>, axis: SplitAxis, rc: Option<u64>)
    requires
        nearest_of_axis(q, axis, rc),
    ensures
        nearest_of_axis(
            seq![(a, id)] + q,
            axis,
            match rc {
                Some(x) => Some(x),
                None => if a == axis {
                    Some(id)
                } else {
                    None
                },
            },
        ),
{
    let p = seq![(a, id)] + q;
    assert(p.len() == q.len() + 1);
    assert(p[0] == (a, id));
    if q.len() > 0 {
        assert(p.last() == q.last());
    }
    match rc {
        Some(x) => {
            let k = choose|k: int|
                {
                    &&& 0 <= k < q.len()
                    &&& #[trigger] q[k] == (axis, x)
                    &&& forall|j: int| k < j < q.len() ==> (#[trigger] q[j]).0 != axis
                };
            assert(p[k + 1] == q[k]);
            assert forall|j: int| k + 1 < j < p.len() implies (#[trigger] p[j]).0 != axis by {
                assert(p[j] == q[j - 1]);
            }
        },
        None => {
            assert forall|k: int| 1 <= k < p.len() implies (#[trigger] p[k]).0 != axis by {
                assert(p[k] == q[k - 1]);
            }
            if a == axis {
                assert forall|j: int| 0 < j < p.len() implies (#[trigger] p[j]).0 != axis by {
                    assert(p[j] == q[j - 1]);
                }
            }
        },
    }
}

/// The split that a resize along `axis` adjusts is the nearest one of that
/// axis above the leaf: there is none exactly when no split on the way down
/// has that axis; otherwise it is a split of that axis on the way down with
/// no other split of that axis between it and the leaf. In particular a
/// leaf whose parent split has the axis gets its parent's id.
pub proof fn lemma_ancestor_split_nearest(node: LayoutNode, leaf: usize, axis: SplitAxis)
    ensures
        nearest_of_axis(path_to_leaf(node, leaf), axis, node.spec_ancestor_split(leaf, axis)),
    decreases node,
{
    if let LayoutNode::Split { axis: a, id, first, second } = node {
        if first.leaves().contains(leaf) {
            lemma_ancestor_split_nearest(*first, leaf, axis);
            lemma_nearest_step(a, id, path_to_leaf(*first, leaf), axis, first.spec_ancestor_split(leaf, axis));
        } else if second.leaves().contains(leaf) {
            lemma_ancestor_split_nearest(*second, leaf, axis);
            lemma_nearest_step(a, id, path_to_leaf(*second, leaf), axis, second.spec_ancestor_split(leaf, axis));
        }
    }
}

} // verus!
