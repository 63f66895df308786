//! Binary pane tree for one tab.
//!
//! Each leaf names an index into the tab's pane list. Indices stay stable
//! until a prune remaps them.

use vstd::prelude::*;

use crate::split_laws::{
    lemma_remove_keeps_wf, lemma_rotate_keeps_wf, lemma_split_keeps_wf, lemma_swap_zoom_focus_keep_wf,
};
use crate::text::str_eq;

verus! {

/// Left/right (`Horizontal`) or top/bottom (`Vertical`).
#[derive(Debug, Clone, Copy, PartialEq, Eq, Structural)]
pub enum SplitAxis {
    Horizontal,
    Vertical,
}

/// Direction for moving focus between panes.
#[derive(Debug, Clone, Copy, PartialEq, Eq, Structural)]
pub enum PaneDir {
    Left,
    Right,
    Up,
    Down,
}

impl PaneDir {
    pub open spec fn spec_from_palette_suffix(s: Seq<char>) -> Option<PaneDir> {
        if s == "Left"@ {
            Some(PaneDir::Left)
        } else if s == "Right"@ {
            Some(PaneDir::Right)
        } else if s == "Up"@ {
            Some(PaneDir::Up)
        } else if s == "Down"@ {
            Some(PaneDir::Down)
        } else {
            None
        }
    }

    pub fn from_palette_suffix(s: &str) -> (r: Option<PaneDir>)
        ensures
            r == Self::spec_from_palette_suffix(s@),
    {
        if str_eq(s, "Left") {
            Some(PaneDir::Left)
        } else if str_eq(s, "Right") {
            Some(PaneDir::Right)
        } else if str_eq(s, "Up") {
            Some(PaneDir::Up)
        } else if str_eq(s, "Down") {
            Some(PaneDir::Down)
        } else {
            None
        }
    }

    pub open spec fn spec_split_axis(self) -> SplitAxis {
        match self {
            PaneDir::Left | PaneDir::Right => SplitAxis::Horizontal,
            PaneDir::Up | PaneDir::Down => SplitAxis::Vertical,
        }
    }

    /// Axis of the parent split that a move in this direction walks.
    pub fn split_axis(self) -> (r: SplitAxis)
        ensures
            r == self.spec_split_axis(),
    {
        match self {
            PaneDir::Left | PaneDir::Right => SplitAxis::Horizontal,
            PaneDir::Up | PaneDir::Down => SplitAxis::Vertical,
        }
    }
}

} // verus!

verus! {

/// One node of the pane tree: a pane index, or a split of two subtrees.
#[derive(Debug, PartialEq, Eq)]
pub enum LayoutNode {
    Leaf(usize),
    Split { axis: SplitAxis, id: u64, first: Box<LayoutNode>, second: Box<LayoutNode> },
}

impl Clone for LayoutNode {
    fn clone(&self) -> (r: LayoutNode)
        ensures
            r == *self,
    {
        self.duplicate()
    }
}

impl LayoutNode {
    /// Pane indices of the leaves, in preorder (first child before second).
    pub open spec fn leaves(self) -> Seq<usize>
        decreases self,
    {
        match self {
            LayoutNode::Leaf(i) => seq![i],
            LayoutNode::Split { first, second, .. } => first.leaves() + second.leaves(),
        }
    }

    /// Split ids in preorder (a split before its children).
    pub open spec fn split_ids(self) -> Seq<u64>
        decreases self,
    {
        match self {
            LayoutNode::Leaf(_) => Seq::empty(),
            LayoutNode::Split { id, first, second, .. } => seq![id] + first.split_ids()
                + second.split_ids(),
        }
    }

    /// The innermost split of axis `axis` on the path from this node down to
    /// the first (preorder) leaf `leaf`.
    pub open spec fn spec_ancestor_split(self, leaf: usize, axis: SplitAxis) -> Option<u64>
        decreases self,
    {
        match self {
            LayoutNode::Leaf(_) => None,
            LayoutNode::Split { axis: a, id, first, second } => {
                let own = if a == axis {
                    Some(id)
                } else {
                    None
                };
                if first.leaves().contains(leaf) {
                    match first.spec_ancestor_split(leaf, axis) {
                        Some(x) => Some(x),
                        None => own,
                    }
                } else if second.leaves().contains(leaf) {
                    match second.spec_ancestor_split(leaf, axis) {
                        Some(x) => Some(x),
                        None => own,
                    }
                } else {
                    None
                }
            },
        }
    }

    /// The tree after the first (preorder) leaf `target` is replaced by a split
    /// whose first child is `target` and whose second is `new_leaf`; and
    /// whether such a leaf was found.
    pub open spec fn spec_split_leaf(
        self,
        target: usize,
        axis: SplitAxis,
        new_leaf: usize,
        split_id: u64,
    ) -> (LayoutNode, bool)
        decreases self,
    {
        match self {
            LayoutNode::Leaf(i) => {
                if i == target {
                    (
                        LayoutNode::Split {
                            axis,
                            id: split_id,
                            first: Box::new(LayoutNode::Leaf(target)),
                            second: Box::new(LayoutNode::Leaf(new_leaf)),
                        },
                        true,
                    )
                } else {
                    (self, false)
                }
            },
            LayoutNode::Split { axis: a, id, first, second } => {
                let (f, done) = first.spec_split_leaf(target, axis, new_leaf, split_id);
                if done {
                    (LayoutNode::Split { axis: a, id, first: Box::new(f), second }, true)
                } else {
                    let (s, done2) = second.spec_split_leaf(target, axis, new_leaf, split_id);
                    (LayoutNode::Split { axis: a, id, first, second: Box::new(s) }, done2)
                }
            },
        }
    }

    /// The tree without the leaves `target`; a split that loses one child
    /// collapses to the other; `None` when no leaf is left.
    pub open spec fn spec_prune(self, target: usize) -> Option<LayoutNode>
        decreases self,
    {
        match self {
            LayoutNode::Leaf(i) => if i == target {
                None
            } else {
                Some(LayoutNode::Leaf(i))
            },
            LayoutNode::Split { axis, id, first, second } => {
                match (first.spec_prune(target), second.spec_prune(target)) {
                    (None, Some(s)) => Some(s),
                    (Some(f), None) => Some(f),
                    (Some(f), Some(s)) => Some(
                        LayoutNode::Split { axis, id, first: Box::new(f), second: Box::new(s) },
                    ),
                    (None, None) => None,
                }
            },
        }
    }

    /// The same tree with every leaf above `removed` moved down by one.
    pub open spec fn spec_remap(self, removed: usize) -> LayoutNode
        decreases self,
    {
        match self {
            LayoutNode::Leaf(i) => if i > removed {
                LayoutNode::Leaf((i - 1) as usize)
            } else {
                LayoutNode::Leaf(i)
            },
            LayoutNode::Split { axis, id, first, second } => LayoutNode::Split {
                axis,
                id,
                first: Box::new(first.spec_remap(removed)),
                second: Box::new(second.spec_remap(removed)),
            },
        }
    }

    /// Splitting a leaf that is absent leaves the tree as it was.
    pub proof fn lemma_split_leaf_not_found(self, target: usize, axis: SplitAxis, new_leaf: usize, split_id: u64)
        ensures
            !self.spec_split_leaf(target, axis, new_leaf, split_id).1 ==> self.spec_split_leaf(
                target,
                axis,
                new_leaf,
                split_id,
            ).0 == self,
        decreases self,
    {
        if let LayoutNode::Split { first, second, .. } = self {
            first.lemma_split_leaf_not_found(target, axis, new_leaf, split_id);
            second.lemma_split_leaf_not_found(target, axis, new_leaf, split_id);
        }
    }

    pub fn leaf(index: usize) -> (r: LayoutNode)
        ensures
            r == LayoutNode::Leaf(index),
    {
        LayoutNode::Leaf(index)
    }

    /// A copy of the tree.
    pub fn duplicate(&self) -> (r: LayoutNode)
        ensures
            r == *self,
        decreases self,
    {
        match self {
            LayoutNode::Leaf(i) => LayoutNode::Leaf(*i),
            LayoutNode::Split { axis, id, first, second } => LayoutNode::Split {
                axis: *axis,
                id: *id,
                first: Box::new(first.duplicate()),
                second: Box::new(second.duplicate()),
            },
        }
    }

    /// Appends the leaves in preorder to `out`.
    pub fn collect_leaves(&self, out: &mut Vec<usize>)
        ensures
            final(out)@ == old(out)@ + self.leaves(),
        decreases self,
    {
        match self {
            LayoutNode::Leaf(i) => {
                out.push(*i);
            },
            LayoutNode::Split { first, second, .. } => {
                first.collect_leaves(out);
                second.collect_leaves(out);
                assert(final(out)@ =~= old(out)@ + self.leaves());
            },
        }
    }

    /// Appends the split ids in preorder to `out`.
    pub fn collect_split_ids(&self, out: &mut Vec<u64>)
        ensures
            final(out)@ == old(out)@ + self.split_ids(),
        decreases self,
    {
        match self {
            LayoutNode::Leaf(_) => {
                assert(final(out)@ =~= old(out)@ + self.split_ids());
            },
            LayoutNode::Split { id, first, second, .. } => {
                out.push(*id);
                first.collect_split_ids(out);
                second.collect_split_ids(out);
                assert(final(out)@ =~= old(out)@ + self.split_ids());
            },
        }
    }

    pub fn contains_leaf(&self, leaf: usize) -> (r: bool)
        ensures
            r == self.leaves().contains(leaf),
        decreases self,
    {
        match self {
            LayoutNode::Leaf(i) => {
                assert(self.leaves()[0] == *i);
                *i == leaf
            },
            LayoutNode::Split { first, second, .. } => {
                let a = first.contains_leaf(leaf);
                let b = second.contains_leaf(leaf);
                proof {
                    let l1 = first.leaves();
                    let l2 = second.leaves();
                    let l = self.leaves();
                    assert(l == l1 + l2);
                    if a {
                        let k = choose|k: int| 0 <= k < l1.len() && l1[k] == leaf;
                        assert(l[k] == leaf);
                    }
                    if b {
                        let k = choose|k: int| 0 <= k < l2.len() && l2[k] == leaf;
                        assert(l[l1.len() + k] == leaf);
                    }
                    if l.contains(leaf) {
                        let k = choose|k: int| 0 <= k < l.len() && l[k] == leaf;
                        if k < l1.len() {
                            assert(l1[k] == leaf);
                        } else {
                            assert(l2[k - l1.len()] == leaf);
                        }
                    }
                }
                a || b
            },
        }
    }

    /// Nearest ancestor split of `leaf` whose axis is `axis`.
    pub fn ancestor_split(&self, leaf: usize, axis: SplitAxis) -> (r: Option<u64>)
        ensures
            r == self.spec_ancestor_split(leaf, axis),
        decreases self,
    {
        match self {
            LayoutNode::Leaf(_) => None,
            LayoutNode::Split { axis: a, id, first, second } => {
                let in_first = first.contains_leaf(leaf);
                let in_second = second.contains_leaf(leaf);
                if !in_first && !in_second {
                    return None;
                }
                let deeper = if in_first {
                    first.ancestor_split(leaf, axis)
                } else {
                    second.ancestor_split(leaf, axis)
                };
                match deeper {
                    Some(x) => Some(x),
                    None => if *a == axis {
                        Some(*id)
                    } else {
                        None
                    },
                }
            },
        }
    }

    /// Replace the first (preorder) leaf `target` with a split: the old pane
    /// stays first (left/top) and `new_leaf` becomes second (right/bottom).
    /// Returns whether the leaf was found.
    pub fn split_leaf(&mut self, target: usize, axis: SplitAxis, new_leaf: usize, split_id: u64) -> (r:
        bool)
        ensures
            *final(self) == old(self).spec_split_leaf(target, axis, new_leaf, split_id).0,
            r == old(self).spec_split_leaf(target, axis, new_leaf, split_id).1,
        decreases *old(self),
    {
        let (is_leaf, is_target) = match &*self {
            LayoutNode::Leaf(i) => (true, *i == target),
            _ => (false, false),
        };
        if is_target {
            *self = LayoutNode::Split {
                axis,
                id: split_id,
                first: Box::new(LayoutNode::Leaf(target)),
                second: Box::new(LayoutNode::Leaf(new_leaf)),
            };
            return true;
        }
        if is_leaf {
            return false;
        }
        let done = match self {
            LayoutNode::Leaf(_) => false,
            LayoutNode::Split { first, .. } => first.split_leaf(target, axis, new_leaf, split_id),
        };
        if done {
            return true;
        }
        proof {
            if let LayoutNode::Split { first, .. } = *old(self) {
                first.lemma_split_leaf_not_found(target, axis, new_leaf, split_id);
            }
        }
        match self {
            LayoutNode::Leaf(_) => false,
            LayoutNode::Split { second, .. } => second.split_leaf(target, axis, new_leaf, split_id),
        }
    }

    /// Drop every leaf `target`. A split whose child disappeared collapses
    /// to the sibling.
    pub fn prune(self, target: usize) -> (r: Option<LayoutNode>)
        ensures
            r == self.spec_prune(target),
        decreases self,
    {
        match self {
            LayoutNode::Leaf(i) => if i == target {
                None
            } else {
                Some(LayoutNode::Leaf(i))
            },
            LayoutNode::Split { axis, id, first, second } => {
                let f = (*first).prune(target);
                let s = (*second).prune(target);
                match (f, s) {
                    (None, Some(s)) => Some(s),
                    (Some(f), None) => Some(f),
                    (Some(f), Some(s)) => Some(
                        LayoutNode::Split { axis, id, first: Box::new(f), second: Box::new(s) },
                    ),
                    (None, None) => None,
                }
            },
        }
    }

    /// After removing pane `removed` from the pane list, move every later
    /// index down by one.
    pub fn remap_after_remove(&mut self, removed: usize)
        ensures
            *final(self) == old(self).spec_remap(removed),
        decreases *old(self),
    {
        match self {
            LayoutNode::Leaf(i) => {
                if *i > removed {
                    *i -= 1;
                }
            },
            LayoutNode::Split { first, second, .. } => {
                first.remap_after_remove(removed);
                second.remap_after_remove(removed);
            },
        }
    }
}

} // verus!

verus! {

/// The first index of `s` whose item has the view `key`, if any.
pub open spec fn pane_position<T: View>(s: Seq<T>, key: T::V) -> Option<usize>
    decreases s.len(),
{
    if s.len() == 0 {
        None
    } else {
        match pane_position(s.drop_last(), key) {
            Some(i) => Some(i),
            None => if s.last()@ == key {
                Some((s.len() - 1) as usize)
            } else {
                None
            },
        }
    }
}

/// A pane lookup names the first pane whose view is `key`, and finds
/// nothing exactly when no pane has that view.
pub proof fn lemma_pane_position<T: View>(s: Seq<T>, key: T::V)
    requires
        s.len() <= usize::MAX,
    ensures
        match pane_position(s, key) {
            Some(i) => {
                &&& i < s.len()
                &&& s[i as int]@ == key
                &&& forall|j: int| 0 <= j < i ==> s[j]@ != key
            },
            None => forall|j: int| 0 <= j < s.len() ==> s[j]@ != key,
        },
    decreases s.len(),
{
    if s.len() > 0 {
        let d = s.drop_last();
        lemma_pane_position(d, key);
        match pane_position(d, key) {
            Some(i) => {
                assert(d[i as int] == s[i as int]);
                assert forall|j: int| 0 <= j < i implies s[j]@ != key by {
                    assert(d[j] == s[j]);
                }
            },
            None => {
                assert forall|j: int| 0 <= j < d.len() implies s[j]@ != key by {
                    assert(d[j] == s[j]);
                }
            },
        }
    }
}

/// A handle by which a layout looks its panes up: two handles name the
/// same pane exactly when their views are equal.
pub trait PaneKey: View + Sized {
    fn same(&self, other: &Self) -> (r: bool)
        ensures
            r == (self@ == other@),
    ;

    /// Another handle to the same pane.
    fn copy_key(&self) -> (r: Self)
        ensures
            r@ == self@,
    ;
}

impl<'a> PaneKey for &'a str {
    fn same(&self, other: &Self) -> (r: bool) {
        str_eq(*self, *other)
    }

    fn copy_key(&self) -> (r: Self) {
        *self
    }
}

impl PaneKey for String {
    fn same(&self, other: &Self) -> (r: bool) {
        str_eq(self.as_str(), other.as_str())
    }

    fn copy_key(&self) -> (r: Self) {
        self.clone()
    }
}

impl PaneKey for u64 {
    fn same(&self, other: &Self) -> (r: bool) {
        *self == *other
    }

    fn copy_key(&self) -> (r: Self) {
        *self
    }
}

impl PaneKey for u32 {
    fn same(&self, other: &Self) -> (r: bool) {
        *self == *other
    }

    fn copy_key(&self) -> (r: Self) {
        *self
    }
}

impl PaneKey for usize {
    fn same(&self, other: &Self) -> (r: bool) {
        *self == *other
    }

    fn copy_key(&self) -> (r: Self) {
        *self
    }
}

/// `s` with the items at `a` and `b` exchanged.
pub open spec fn swapped<T>(s: Seq<T>, a: int, b: int) -> Seq<T> {
    s.update(a, s[b]).update(b, s[a])
}

/// What a tab's layout holds: its panes, the split tree over their indices,
/// the focused index (clamped when read) and the zoom flag.
pub struct LayoutState<T> {
    pub panes: Seq<T>,
    pub root: LayoutNode,
    pub active: usize,
    pub zoomed: bool,
}

impl<T> LayoutState<T> {
    /// The focused index: `active`, clamped to the last pane (0 when empty).
    pub open spec fn active_index(self) -> int {
        if self.panes.len() == 0 {
            0
        } else if self.active < self.panes.len() {
            self.active as int
        } else {
            self.panes.len() - 1
        }
    }

    /// The leaves are exactly the pane indices, each once (a tab without
    /// panes keeps the single leaf 0); zoom needs two panes.
    pub open spec fn wf(self) -> bool {
        &&& self.panes.len() > 0 ==> {
            &&& self.root.leaves().no_duplicates()
            &&& forall|i: usize| i < self.panes.len() <==> #[trigger] self.root.leaves().contains(i)
        }
        &&& self.panes.len() == 0 ==> self.root.leaves() == seq![0usize]
        &&& self.zoomed ==> self.panes.len() >= 2
    }

    /// Every leaf names an existing pane whenever there are two leaves or more.
    pub open spec fn leaves_in_range(self) -> bool {
        self.root.leaves().len() >= 2 ==> forall|k: int|
            0 <= k < self.root.leaves().len() ==> self.root.leaves()[k] < self.panes.len()
    }

    pub open spec fn spec_toggle_zoom(self) -> LayoutState<T> {
        LayoutState {
            zoomed: if self.panes.len() < 2 {
                false
            } else {
                !self.zoomed
            },
            ..self
        }
    }

    /// The focused leaf split along `axis`; the new pane is appended, becomes
    /// the second child and takes the focus; zoom is cleared.
    pub open spec fn spec_split(self, axis: SplitAxis, new_pane: T, split_id: u64) -> LayoutState<T> {
        let at = self.active_index() as usize;
        let new_i = self.panes.len() as usize;
        LayoutState {
            panes: self.panes.push(new_pane),
            root: self.root.spec_split_leaf(at, axis, new_i, split_id).0,
            active: new_i,
            zoomed: false,
        }
    }

    /// The focused pane and pane `other` exchanged; with `keep_focus` the focus
    /// follows the pane that had it. Nothing happens when `other` is out of
    /// range or already focused.
    pub open spec fn spec_swap_active_with(self, other: usize, keep_focus: bool) -> LayoutState<T> {
        let a = self.active_index();
        if other >= self.panes.len() || other == a {
            self
        } else {
            LayoutState {
                panes: swapped(self.panes, a, other as int),
                active: if keep_focus {
                    other
                } else {
                    self.active
                },
                ..self
            }
        }
    }

    /// Removal of the pane at index `i` (`None`: no pane matched). The second
    /// value is whether the tab is left without panes.
    pub open spec fn spec_remove_at(self, found: Option<usize>) -> (LayoutState<T>, bool) {
        match found {
            None => (self, self.panes.len() == 0),
            Some(i) => match self.root.spec_prune(i) {
                None => (LayoutState { panes: Seq::empty(), active: 0, zoomed: false, ..self }, true),
                Some(pruned) => {
                    let panes = self.panes.remove(i as int);
                    let active: usize = if self.active == i {
                        if self.active < panes.len() {
                            self.active
                        } else if panes.len() == 0 {
                            0
                        } else {
                            (panes.len() - 1) as usize
                        }
                    } else if self.active > i {
                        (self.active - 1) as usize
                    } else {
                        self.active
                    };
                    (
                        LayoutState {
                            panes,
                            root: pruned.spec_remap(i),
                            active,
                            zoomed: if panes.len() < 2 {
                                false
                            } else {
                                self.zoomed
                            },
                        },
                        panes.len() == 0,
                    )
                },
            },
        }
    }
}

/// One tab's panes, their split tree, the focused pane and the zoom flag.
pub struct SplitLayout<T> {
    panes: Vec<T>,
    root: LayoutNode,
    active: usize,
    zoomed: bool,
}

impl<T> View for SplitLayout<T> {
    type V = LayoutState<T>;

    closed spec fn view(&self) -> LayoutState<T> {
        LayoutState { panes: self.panes@, root: self.root, active: self.active, zoomed: self.zoomed }
    }
}

/// Exchanges the items at `a` and `b`.
fn swap_items<T>(v: &mut Vec<T>, a: usize, b: usize)
    requires
        a < old(v).len(),
        b < old(v).len(),
    ensures
        final(v)@ == swapped(old(v)@, a as int, b as int),
{
    if a == b {
        assert(final(v)@ =~= swapped(old(v)@, a as int, b as int));
        return;
    }
    let (lo, hi) = if a < b {
        (a, b)
    } else {
        (b, a)
    };
    let ghost s = v@;
    let x = v.remove(hi);
    let y = v.remove(lo);
    v.insert(lo, x);
    v.insert(hi, y);
    assert(v@ =~= swapped(s, a as int, b as int));
}

impl<T> SplitLayout<T> {
    /// A tab with one pane.
    pub fn leaf(pane: T) -> (r: SplitLayout<T>)
        ensures
            r@ == (LayoutState { panes: seq![pane], root: LayoutNode::Leaf(0), active: 0, zoomed: false }),
            r@.wf(),
    {
        let mut panes = Vec::new();
        panes.push(pane);
        let r = SplitLayout { panes, root: LayoutNode::leaf(0), active: 0, zoomed: false };
        assert(r@.panes =~= seq![pane]);
        proof {
            let l = r@.root.leaves();
            assert(l =~= seq![0usize]);
            assert forall|i: usize| i < r@.panes.len() <==> #[trigger] l.contains(i) by {
                if l.contains(i) {
                    assert(l[0] == 0);
                }
                if i == 0 {
                    assert(l[0] == 0usize);
                }
            }
        }
        r
    }

    pub fn panes(&self) -> (r: &[T])
        ensures
            r@ == self@.panes,
    {
        self.panes.as_slice()
    }

    pub fn pane_count(&self) -> (r: usize)
        ensures
            r == self@.panes.len(),
    {
        self.panes.len()
    }

    pub fn root(&self) -> (r: &LayoutNode)
        ensures
            *r == self@.root,
    {
        &self.root
    }

    /// The focused index, clamped to the last pane.
    pub fn active_index(&self) -> (r: usize)
        ensures
            r == self@.active_index(),
            self@.panes.len() > 0 ==> r < self@.panes.len(),
    {
        let last = if self.panes.len() == 0 {
            0
        } else {
            self.panes.len() - 1
        };
        if self.active < last {
            self.active
        } else {
            last
        }
    }

    pub fn active_pane(&self) -> (r: Option<&T>)
        ensures
            self@.panes.len() == 0 ==> r is None,
            self@.panes.len() > 0 ==> r == Some(&self@.panes[self@.active_index()]),
    {
        let i = self.active_index();
        if i < self.panes.len() {
            Some(&self.panes[i])
        } else {
            None
        }
    }

    pub fn is_zoomed(&self) -> (r: bool)
        ensures
            r == self@.zoomed,
    {
        self.zoomed
    }

    /// Zoom on/off; zoom needs at least two panes.
    pub fn toggle_zoom(&mut self)
        ensures
            final(self)@ == old(self)@.spec_toggle_zoom(),
            old(self)@.wf() ==> final(self)@.wf(),
    {
        proof {
            if self@.wf() {
                lemma_swap_zoom_focus_keep_wf(self@, 0, false, 0);
            }
        }
        if self.panes.len() < 2 {
            self.zoomed = false;
            return;
        }
        self.zoomed = !self.zoomed;
    }

    pub fn unzoom(&mut self)
        ensures
            final(self)@ == (LayoutState { zoomed: false, ..old(self)@ }),
            old(self)@.wf() ==> final(self)@.wf(),
    {
        self.zoomed = false;
    }

    /// Nearest ancestor split of the focused leaf whose axis is `axis`.
    pub fn ancestor_split(&self, axis: SplitAxis) -> (r: Option<u64>)
        ensures
            r == self@.root.spec_ancestor_split(self@.active_index() as usize, axis),
    {
        self.root.ancestor_split(self.active_index(), axis)
    }

    /// Split the focused leaf; `new_pane` becomes the second child and takes
    /// the focus.
    pub fn split(&mut self, axis: SplitAxis, new_pane: T, split_id: u64)
        requires
            old(self)@.panes.len() < usize::MAX,
        ensures
            final(self)@ == old(self)@.spec_split(axis, new_pane, split_id),
            old(self)@.wf() && old(self)@.panes.len() > 0 ==> final(self)@.wf(),
    {
        proof {
            if self@.wf() && self@.panes.len() > 0 {
                lemma_split_keeps_wf(self@, axis, new_pane, split_id);
            }
        }
        self.zoomed = false;
        let at = self.active_index();
        let new_i = self.panes.len();
        let _ = self.root.split_leaf(at, axis, new_i, split_id);
        self.panes.push(new_pane);
        self.active = new_i;
    }

    /// Exchange the focused pane with pane `other`; with `keep_focus` the
    /// focus follows the pane that had it.
    pub fn swap_active_with(&mut self, other: usize, keep_focus: bool)
        ensures
            final(self)@ == old(self)@.spec_swap_active_with(other, keep_focus),
            old(self)@.wf() ==> final(self)@.wf(),
    {
        proof {
            if self@.wf() {
                lemma_swap_zoom_focus_keep_wf(self@, other, keep_focus, 0);
            }
        }
        let a = self.active_index();
        if other >= self.panes.len() || other == a {
            return;
        }
        swap_items(&mut self.panes, a, other);
        if keep_focus {
            self.active = other;
        }
    }
}

} // verus!

verus! {

impl<T: PaneKey> SplitLayout<T> {
    /// Index of the first pane that is `pane`.
    fn position(&self, pane: &T) -> (r: Option<usize>)
        ensures
            r == pane_position(self@.panes, pane@),
    {
        let ghost s = self.panes@;
        assert(s.len() == self.panes.len());
        let mut i: usize = 0;
        while i < self.panes.len()
            invariant
                s == self.panes@,
                s.len() <= usize::MAX,
                0 <= i <= s.len(),
                forall|j: int| 0 <= j < i ==> s[j]@ != pane@,
            decreases s.len() - i,
        {
            if self.panes[i].same(pane) {
                proof {
                    lemma_pane_position(s, pane@);
                }
                return Some(i);
            }
            i += 1;
        }
        proof {
            lemma_pane_position(s, pane@);
        }
        None
    }

    /// Whether some pane is `pane`.
    pub fn contains(&self, pane: &T) -> (r: bool)
        ensures
            r == pane_position(self@.panes, pane@) is Some,
    {
        self.position(pane).is_some()
    }

    /// Focus the first pane that is `pane`; false when there is none.
    pub fn set_active_pane(&mut self, pane: &T) -> (r: bool)
        ensures
            r == pane_position(old(self)@.panes, pane@) is Some,
            final(self)@ == match pane_position(old(self)@.panes, pane@) {
                Some(i) => LayoutState { active: i, ..old(self)@ },
                None => old(self)@,
            },
            old(self)@.wf() ==> final(self)@.wf(),
    {
        let found = self.position(pane);
        proof {
            if self@.wf() {
                if let Some(i) = found {
                    lemma_swap_zoom_focus_keep_wf(self@, 0, false, i);
                }
            }
        }
        match found {
            Some(i) => {
                self.active = i;
                true
            },
            None => false,
        }
    }

    /// Remove the first pane that is `pane`, and its leaves; true when the
    /// tab is left without panes.
    pub fn remove_pane(&mut self, pane: &T) -> (r: bool)
        ensures
            (final(self)@, r) == old(self)@.spec_remove_at(pane_position(old(self)@.panes, pane@)),
            old(self)@.wf() ==> final(self)@.wf(),
    {
        let ghost before = self@;
        let found = self.position(pane);
        let i = match found {
            Some(i) => i,
            None => {
                let r = self.panes.len() == 0;
                assert((self@, r) == before.spec_remove_at(found));
                return r;
            },
        };
        proof {
            assert(before.panes.len() == self.panes.len());
            lemma_pane_position(before.panes, pane@);
            if before.wf() {
                lemma_remove_keeps_wf(before, i);
            }
        }
        let r = match self.root.duplicate().prune(i) {
            None => {
                self.panes.clear();
                self.active = 0;
                self.zoomed = false;
                assert(self@.panes =~= Seq::<T>::empty());
                true
            },
            Some(new_root) => {
                self.root = new_root;
                self.panes.remove(i);
                self.root.remap_after_remove(i);
                if self.active == i {
                    let last = if self.panes.len() == 0 {
                        0
                    } else {
                        self.panes.len() - 1
                    };
                    if self.active >= last {
                        self.active = last;
                    }
                } else if self.active > i {
                    self.active -= 1;
                }
                if self.panes.len() < 2 {
                    self.zoomed = false;
                }
                self.panes.len() == 0
            },
        };
        assert((self@, r) == before.spec_remove_at(found));
        r
    }

    /// Remove `pane` and hand back a copy of it with the flag of
    /// `remove_pane`; `None` when no pane is `pane`.
    pub fn extract_pane(&mut self, pane: &T) -> (r: Option<(T, bool)>)
        where
            T: Clone,
        ensures
            r is Some == pane_position(old(self)@.panes, pane@) is Some,
            r is None ==> final(self)@ == old(self)@,
            old(self)@.wf() ==> final(self)@.wf(),
            r matches Some((taken, empty)) ==> {
                &&& cloned(*pane, taken)
                &&& (final(self)@, empty) == old(self)@.spec_remove_at(pane_position(old(self)@.panes, pane@))
            },
    {
        if !self.contains(pane) {
            return None;
        }
        let taken = pane.clone();
        let empty = self.remove_pane(pane);
        Some((taken, empty))
    }
}

} // verus!

verus! {

/// Unit rectangle used only to pick a neighbor: every split halves its
/// rectangle, the first child taking the left/top half (rounded down).
#[derive(Debug, Clone, Copy, PartialEq, Eq)]
pub struct LeafRect {
    pub x: u32,
    pub y: u32,
    pub w: u32,
    pub h: u32,
}

/// Side length of the square that the whole tab occupies for neighbor search.
pub const UNIT_SIDE: u32 = 1_048_576;

pub open spec fn unit_rect() -> LeafRect {
    LeafRect { x: 0, y: 0, w: UNIT_SIDE, h: UNIT_SIDE }
}

pub open spec fn rect_fits(r: LeafRect) -> bool {
    r.x + r.w <= u32::MAX && r.y + r.h <= u32::MAX
}

pub open spec fn rect_within(inner: LeafRect, outer: LeafRect) -> bool {
    &&& outer.x <= inner.x
    &&& inner.x + inner.w <= outer.x + outer.w
    &&& outer.y <= inner.y
    &&& inner.y + inner.h <= outer.y + outer.h
}

/// Two rectangles share no interior point: one lies wholly to a side of
/// the other.
pub open spec fn rects_disjoint(a: LeafRect, b: LeafRect) -> bool {
    ||| a.x + a.w <= b.x
    ||| b.x + b.w <= a.x
    ||| a.y + a.h <= b.y
    ||| b.y + b.h <= a.y
}

/// The total area of the rectangles of `s`.
pub open spec fn area_sum(s: Seq<(usize, LeafRect)>) -> int
    decreases s.len(),
{
    if s.len() == 0 {
        0
    } else {
        area_sum(s.drop_last()) + s.last().1.w * s.last().1.h
    }
}

proof fn lemma_area_sum_concat(a: Seq<(usize, LeafRect)>, b: Seq<(usize, LeafRect)>)
    ensures
        area_sum(a + b) == area_sum(a) + area_sum(b),
    decreases b.len(),
{
    if b.len() == 0 {
        assert(a + b =~= a);
    } else {
        lemma_area_sum_concat(a, b.drop_last());
        assert((a + b).drop_last() =~= a + b.drop_last());
        assert((a + b).last() == b.last());
    }
}

impl LayoutNode {
    /// Each leaf with its rectangle inside `r`, in preorder.
    pub open spec fn leaf_rects(self, r: LeafRect) -> Seq<(usize, LeafRect)>
        decreases self,
    {
        match self {
            LayoutNode::Leaf(i) => seq![(i, r)],
            LayoutNode::Split { axis, first, second, .. } => match axis {
                SplitAxis::Horizontal => {
                    let left_w = r.w / 2;
                    first.leaf_rects(LeafRect { w: left_w, ..r }) + second.leaf_rects(
                        LeafRect { x: (r.x + left_w) as u32, w: (r.w - left_w) as u32, ..r },
                    )
                },
                SplitAxis::Vertical => {
                    let top_h = r.h / 2;
                    first.leaf_rects(LeafRect { h: top_h, ..r }) + second.leaf_rects(
                        LeafRect { y: (r.y + top_h) as u32, h: (r.h - top_h) as u32, ..r },
                    )
                },
            },
        }
    }

    /// Every leaf rectangle lies inside the rectangle it was cut from.
    pub proof fn lemma_leaf_rects_within(self, r: LeafRect)
        requires
            rect_fits(r),
        ensures
            forall|k: int|
                0 <= k < self.leaf_rects(r).len() ==> rect_within(
                    #[trigger] self.leaf_rects(r)[k].1,
                    r,
                ),
        decreases self,
    {
        match self {
            LayoutNode::Leaf(_) => {},
            LayoutNode::Split { axis, first, second, .. } => {
                let (r1, r2) = match axis {
                    SplitAxis::Horizontal => {
                        let left_w = r.w / 2;
                        (
                            LeafRect { w: left_w, ..r },
                            LeafRect { x: (r.x + left_w) as u32, w: (r.w - left_w) as u32, ..r },
                        )
                    },
                    SplitAxis::Vertical => {
                        let top_h = r.h / 2;
                        (
                            LeafRect { h: top_h, ..r },
                            LeafRect { y: (r.y + top_h) as u32, h: (r.h - top_h) as u32, ..r },
                        )
                    },
                };
                first.lemma_leaf_rects_within(r1);
                second.lemma_leaf_rects_within(r2);
                let s1 = first.leaf_rects(r1);
                let s2 = second.leaf_rects(r2);
                assert(self.leaf_rects(r) == s1 + s2);
                assert forall|k: int| 0 <= k < self.leaf_rects(r).len() implies rect_within(
                    #[trigger] self.leaf_rects(r)[k].1,
                    r,
                ) by {
                    if k < s1.len() {
                        assert(self.leaf_rects(r)[k] == s1[k]);
                    } else {
                        assert(self.leaf_rects(r)[k] == s2[k - s1.len()]);
                    }
                }
            },
        }
    }

    /// The leaf rectangles name the leaves, in preorder.
    pub proof fn lemma_leaf_rects_leaves(self, r: LeafRect)
        ensures
            self.leaf_rects(r).len() == self.leaves().len(),
            forall|k: int| 0 <= k < self.leaves().len() ==> #[trigger] self.leaf_rects(r)[k].0 == self.leaves()[k],
        decreases self,
    {
        match self {
            LayoutNode::Leaf(_) => {},
            LayoutNode::Split { axis, first, second, .. } => {
                let (r1, r2) = match axis {
                    SplitAxis::Horizontal => {
                        let left_w = r.w / 2;
                        (
                            LeafRect { w: left_w, ..r },
                            LeafRect { x: (r.x + left_w) as u32, w: (r.w - left_w) as u32, ..r },
                        )
                    },
                    SplitAxis::Vertical => {
                        let top_h = r.h / 2;
                        (
                            LeafRect { h: top_h, ..r },
                            LeafRect { y: (r.y + top_h) as u32, h: (r.h - top_h) as u32, ..r },
                        )
                    },
                };
                first.lemma_leaf_rects_leaves(r1);
                second.lemma_leaf_rects_leaves(r2);
                let s1 = first.leaf_rects(r1);
                let s2 = second.leaf_rects(r2);
                assert(self.leaf_rects(r) == s1 + s2);
                assert forall|k: int| 0 <= k < self.leaves().len() implies #[trigger] self.leaf_rects(r)[k].0
                    == self.leaves()[k] by {
                    if k < s1.len() {
                        assert(self.leaf_rects(r)[k] == s1[k]);
                    } else {
                        assert(self.leaf_rects(r)[k] == s2[k - s1.len()]);
                    }
                }
            },
        }
    }

    /// The leaf rectangles tile the rectangle they were cut from: no two
    /// of them overlap, and their areas add up to its area.
    pub proof fn lemma_leaf_rects_tile(self, r: LeafRect)
        requires
            rect_fits(r),
        ensures
            forall|i: int, j: int|
                0 <= i < j < self.leaf_rects(r).len() ==> rects_disjoint(
                    #[trigger] self.leaf_rects(r)[i].1,
                    #[trigger] self.leaf_rects(r)[j].1,
                ),
            area_sum(self.leaf_rects(r)) == r.w * r.h,
        decreases self,
    {
        match self {
            LayoutNode::Leaf(_) => {
                let s = self.leaf_rects(r);
                assert(s.drop_last() =~= Seq::<(usize, LeafRect)>::empty());
                assert(area_sum(s.drop_last()) == 0);
                assert(s.last().1 == r);
            },
            LayoutNode::Split { axis, first, second, .. } => {
                let (r1, r2) = match axis {
                    SplitAxis::Horizontal => {
                        let left_w = r.w / 2;
                        (
                            LeafRect { w: left_w, ..r },
                            LeafRect { x: (r.x + left_w) as u32, w: (r.w - left_w) as u32, ..r },
                        )
                    },
                    SplitAxis::Vertical => {
                        let top_h = r.h / 2;
                        (
                            LeafRect { h: top_h, ..r },
                            LeafRect { y: (r.y + top_h) as u32, h: (r.h - top_h) as u32, ..r },
                        )
                    },
                };
                first.lemma_leaf_rects_within(r1);
                second.lemma_leaf_rects_within(r2);
                first.lemma_leaf_rects_tile(r1);
                second.lemma_leaf_rects_tile(r2);
                let s1 = first.leaf_rects(r1);
                let s2 = second.leaf_rects(r2);
                let s = self.leaf_rects(r);
                assert(s == s1 + s2);
                lemma_area_sum_concat(s1, s2);
                match axis {
                    SplitAxis::Horizontal => {
                        assert(r1.w * r.h + r2.w * r.h == r.w * r.h) by (nonlinear_arith)
                            requires
                                r1.w + r2.w == r.w,
                        ;
                    },
                    SplitAxis::Vertical => {
                        assert(r.w * r1.h + r.w * r2.h == r.w * r.h) by (nonlinear_arith)
                            requires
                                r1.h + r2.h == r.h,
                        ;
                    },
                }
                assert forall|i: int, j: int| 0 <= i < j < s.len() implies rects_disjoint(
                    #[trigger] s[i].1,
                    #[trigger] s[j].1,
                ) by {
                    if j < s1.len() {
                        assert(s[i] == s1[i] && s[j] == s1[j]);
                    } else if i >= s1.len() {
                        assert(s[i] == s2[i - s1.len()] && s[j] == s2[j - s1.len()]);
                    } else {
                        assert(s[i] == s1[i] && s[j] == s2[j - s1.len()]);
                        assert(rect_within(s1[i].1, r1));
                        assert(rect_within(s2[j - s1.len()].1, r2));
                    }
                }
            },
        }
    }

    /// Appends each leaf with its rectangle inside `r`, in preorder.
    fn collect_leaf_rects(&self, r: LeafRect, out: &mut Vec<(usize, LeafRect)>)
        requires
            rect_fits(r),
        ensures
            final(out)@ == old(out)@ + self.leaf_rects(r),
        decreases self,
    {
        match self {
            LayoutNode::Leaf(i) => {
                out.push((*i, r));
            },
            LayoutNode::Split { axis: SplitAxis::Horizontal, first, second, .. } => {
                let left_w = r.w / 2;
                first.collect_leaf_rects(LeafRect { x: r.x, y: r.y, w: left_w, h: r.h }, out);
                second.collect_leaf_rects(
                    LeafRect { x: r.x + left_w, y: r.y, w: r.w - left_w, h: r.h },
                    out,
                );
                assert(final(out)@ =~= old(out)@ + self.leaf_rects(r));
            },
            LayoutNode::Split { axis: SplitAxis::Vertical, first, second, .. } => {
                let top_h = r.h / 2;
                first.collect_leaf_rects(LeafRect { x: r.x, y: r.y, w: r.w, h: top_h }, out);
                second.collect_leaf_rects(
                    LeafRect { x: r.x, y: r.y + top_h, w: r.w, h: r.h - top_h },
                    out,
                );
                assert(final(out)@ =~= old(out)@ + self.leaf_rects(r));
            },
        }
    }
}

pub open spec fn sat_add(a: u32, b: u32) -> int {
    if a + b > u32::MAX {
        u32::MAX as int
    } else {
        a + b
    }
}

/// Length of the overlap of `[a0, a0 + a_len)` and `[b0, b0 + b_len)`, with
/// the ends saturated at `u32::MAX`.
pub open spec fn spec_overlap_len(a0: u32, a_len: u32, b0: u32, b_len: u32) -> int {
    let a1 = sat_add(a0, a_len);
    let b1 = sat_add(b0, b_len);
    let hi = if a1 < b1 {
        a1
    } else {
        b1
    };
    let lo = if a0 > b0 {
        a0 as int
    } else {
        b0 as int
    };
    if hi > lo {
        hi - lo
    } else {
        0
    }
}

pub fn overlap_len(a0: u32, a_len: u32, b0: u32, b_len: u32) -> (r: u32)
    ensures
        r == spec_overlap_len(a0, a_len, b0, b_len),
{
    let a1 = a0.saturating_add(a_len);
    let b1 = b0.saturating_add(b_len);
    let hi = if a1 < b1 {
        a1
    } else {
        b1
    };
    let lo = if a0 > b0 {
        a0
    } else {
        b0
    };
    hi.saturating_sub(lo)
}

/// `r` touches the side of `ar` that faces `dir`.
pub open spec fn adjacent(dir: PaneDir, ar: LeafRect, r: LeafRect) -> bool {
    match dir {
        PaneDir::Right => r.x == ar.x + ar.w,
        PaneDir::Left => r.x + r.w == ar.x,
        PaneDir::Down => r.y == ar.y + ar.h,
        PaneDir::Up => r.y + r.h == ar.y,
    }
}

/// Length of the edge that `r` shares with `ar` on the side facing `dir`
/// (0 when they do not touch there).
pub open spec fn shared_edge(dir: PaneDir, ar: LeafRect, r: LeafRect) -> int {
    if !adjacent(dir, ar, r) {
        0
    } else {
        match dir {
            PaneDir::Left | PaneDir::Right => spec_overlap_len(ar.y, ar.h, r.y, r.h),
            PaneDir::Up | PaneDir::Down => spec_overlap_len(ar.x, ar.w, r.x, r.w),
        }
    }
}

/// Rectangle of the first entry of `rects` for leaf `leaf`.
pub open spec fn rect_of(rects: Seq<(usize, LeafRect)>, leaf: usize) -> Option<LeafRect> {
    if exists|k: int| 0 <= k < rects.len() && rects[k].0 == leaf {
        Some(
            rects[choose|k: int|
                0 <= k < rects.len() && rects[k].0 == leaf && forall|j: int|
                    0 <= j < k ==> rects[j].0 != leaf].1,
        )
    } else {
        None
    }
}

/// Entry `k` of `rects` is another leaf sharing an edge with `ar` toward `dir`.
pub open spec fn is_neighbor_candidate(
    rects: Seq<(usize, LeafRect)>,
    active: usize,
    dir: PaneDir,
    ar: LeafRect,
    k: int,
) -> bool {
    &&& 0 <= k < rects.len()
    &&& rects[k].0 != active
    &&& shared_edge(dir, ar, rects[k].1) > 0
}

/// Edge `o1` of leaf `i1` is preferred to edge `o2` of leaf `i2`: longer
/// edge first, then the smaller pane index.
pub open spec fn edge_beats(o1: int, i1: usize, o2: int, i2: usize) -> bool {
    o1 > o2 || (o1 == o2 && i1 < i2)
}

/// The neighbor of `active` toward `dir`: among the leaves sharing an edge
/// with it on that side, the one with the longest shared edge, ties going to
/// the smaller pane index.
pub open spec fn is_best_neighbor(
    rects: Seq<(usize, LeafRect)>,
    active: usize,
    dir: PaneDir,
    ar: LeafRect,
    i: usize,
) -> bool {
    exists|k: int|
        {
            &&& is_neighbor_candidate(rects, active, dir, ar, k)
            &&& rects[k].0 == i
            &&& forall|j: int|
                is_neighbor_candidate(rects, active, dir, ar, j) ==> !edge_beats(
                    shared_edge(dir, ar, rects[j].1),
                    rects[j].0,
                    shared_edge(dir, ar, rects[k].1),
                    i,
                )
        }
}

impl<T> LayoutState<T> {
    /// The leaves with their rectangles in the unit square.
    pub open spec fn rects(self) -> Seq<(usize, LeafRect)> {
        self.root.leaf_rects(unit_rect())
    }

    /// The neighbor of the focused pane toward `dir`: the one answer that
    /// `neighbor_ok` admits.
    pub open spec fn neighbor(self, dir: PaneDir) -> Option<usize> {
        choose|n: Option<usize>| self.neighbor_ok(dir, n)
    }

    /// `r` is the neighbor pane index toward `dir` (`None`: there is none).
    pub open spec fn neighbor_ok(self, dir: PaneDir, r: Option<usize>) -> bool {
        let rects = self.rects();
        let active = self.active_index() as usize;
        match rect_of(rects, active) {
            None => r is None,
            Some(ar) => match r {
                None => forall|k: int| !is_neighbor_candidate(rects, active, dir, ar, k),
                Some(i) => is_best_neighbor(rects, active, dir, ar, i),
            },
        }
    }
}

/// At most one answer satisfies `neighbor_ok`: the neighbor toward a
/// direction is determined by the layout.
pub proof fn lemma_neighbor_unique<T>(st: LayoutState<T>, dir: PaneDir, a: Option<usize>, b: Option<usize>)
    requires
        st.neighbor_ok(dir, a),
        st.neighbor_ok(dir, b),
    ensures
        a == b,
{
    let rects = st.rects();
    let active = st.active_index() as usize;
    if let Some(ar) = rect_of(rects, active) {
        match (a, b) {
            (Some(i1), Some(i2)) => {
                let k1 = choose|k: int|
                    {
                        &&& is_neighbor_candidate(rects, active, dir, ar, k)
                        &&& rects[k].0 == i1
                        &&& forall|j: int|
                            is_neighbor_candidate(rects, active, dir, ar, j) ==> !edge_beats(
                                shared_edge(dir, ar, rects[j].1),
                                rects[j].0,
                                shared_edge(dir, ar, rects[k].1),
                                i1,
                            )
                    };
                let k2 = choose|k: int|
                    {
                        &&& is_neighbor_candidate(rects, active, dir, ar, k)
                        &&& rects[k].0 == i2
                        &&& forall|j: int|
                            is_neighbor_candidate(rects, active, dir, ar, j) ==> !edge_beats(
                                shared_edge(dir, ar, rects[j].1),
                                rects[j].0,
                                shared_edge(dir, ar, rects[k].1),
                                i2,
                            )
                    };
                assert(!edge_beats(shared_edge(dir, ar, rects[k2].1), rects[k2].0, shared_edge(dir, ar, rects[k1].1), i1));
                assert(!edge_beats(shared_edge(dir, ar, rects[k1].1), rects[k1].0, shared_edge(dir, ar, rects[k2].1), i2));
            },
            (Some(i1), None) => {
                let k1 = choose|k: int| is_neighbor_candidate(rects, active, dir, ar, k) && rects[k].0 == i1 && forall|j: int|
                    is_neighbor_candidate(rects, active, dir, ar, j) ==> !edge_beats(
                        shared_edge(dir, ar, rects[j].1),
                        rects[j].0,
                        shared_edge(dir, ar, rects[k].1),
                        i1,
                    );
                assert(is_neighbor_candidate(rects, active, dir, ar, k1));
            },
            (None, Some(i2)) => {
                let k2 = choose|k: int| is_neighbor_candidate(rects, active, dir, ar, k) && rects[k].0 == i2 && forall|j: int|
                    is_neighbor_candidate(rects, active, dir, ar, j) ==> !edge_beats(
                        shared_edge(dir, ar, rects[j].1),
                        rects[j].0,
                        shared_edge(dir, ar, rects[k].1),
                        i2,
                    );
                assert(is_neighbor_candidate(rects, active, dir, ar, k2));
            },
            (None, None) => {},
        }
    }
}

/// On a well-formed layout the neighbor toward any direction is an
/// existing pane.
pub proof fn lemma_neighbor_is_pane<T>(st: LayoutState<T>, dir: PaneDir, n: Option<usize>)
    requires
        st.wf(),
        st.neighbor_ok(dir, n),
    ensures
        n matches Some(j) ==> j < st.panes.len(),
{
    if let Some(j) = n {
        let rects = st.rects();
        let active = st.active_index() as usize;
        st.root.lemma_leaf_rects_leaves(unit_rect());
        if let Some(ar) = rect_of(rects, active) {
            let k = choose|k: int|
                {
                    &&& is_neighbor_candidate(rects, active, dir, ar, k)
                    &&& rects[k].0 == j
                    &&& forall|q: int|
                        is_neighbor_candidate(rects, active, dir, ar, q) ==> !edge_beats(
                            shared_edge(dir, ar, rects[q].1),
                            rects[q].0,
                            shared_edge(dir, ar, rects[k].1),
                            j,
                        )
                };
            assert(rects[k].0 == st.root.leaves()[k]);
            assert(st.root.leaves().contains(j));
            if st.panes.len() == 0 {
                assert(st.root.leaves() == seq![0usize]);
                assert(active == 0);
            }
        }
    }
}

impl<T> SplitLayout<T> {
    /// Neighbor of the focused pane toward `dir` by equal-half geometry:
    /// the pane sharing the longest edge on that side, ties to the smaller
    /// index. `None` at the edge of the tab.
    pub fn neighbor_in(&self, dir: PaneDir) -> (r: Option<usize>)
        ensures
            self@.neighbor_ok(dir, r),
            r == self@.neighbor(dir),
    {
        let r = self.find_neighbor(dir);
        proof {
            lemma_neighbor_unique(self@, dir, r, self@.neighbor(dir));
        }
        r
    }

    fn find_neighbor(&self, dir: PaneDir) -> (r: Option<usize>)
        ensures
            self@.neighbor_ok(dir, r),
    {
        let mut rects: Vec<(usize, LeafRect)> = Vec::new();
        let unit = LeafRect { x: 0, y: 0, w: UNIT_SIDE, h: UNIT_SIDE };
        self.root.collect_leaf_rects(unit, &mut rects);
        proof {
            assert(rects@ =~= self@.rects());
            self.root.lemma_leaf_rects_within(unit);
        }
        let active = self.active_index();
        let ghost s = rects@;
        let mut f: usize = 0;
        while f < rects.len() && rects[f].0 != active
            invariant
                rects@ == s,
                s == self@.rects(),
                active == self@.active_index(),
                0 <= f <= s.len(),
                forall|j: int| 0 <= j < f ==> s[j].0 != active,
            decreases s.len() - f,
        {
            f += 1;
        }
        if f == rects.len() {
            return None;
        }
        let ar = rects[f].1;
        proof {
            let w = choose|k: int|
                0 <= k < s.len() && s[k].0 == active && forall|j: int| 0 <= j < k ==> s[j].0 != active;
            assert(0 <= f < s.len() && s[f as int].0 == active);
            if w < f {
            } else if w > f {
                assert(s[f as int].0 != active);
            }
            assert(rect_of(s, active) == Some(ar));
            assert(rect_within(s[f as int].1, unit));
        }
        let mut best: Option<(u32, usize)> = None;
        let ghost mut bm: int = 0;
        let mut k: usize = 0;
        while k < rects.len()
            invariant
                rects@ == s,
                s == self@.rects(),
                active == self@.active_index(),
                rect_within(ar, unit_rect()),
                forall|m: int| 0 <= m < s.len() ==> rect_within(#[trigger] s[m].1, unit_rect()),
                0 <= k <= s.len(),
                best is None ==> forall|j: int|
                    0 <= j < k ==> !is_neighbor_candidate(s, active, dir, ar, j),
                best matches Some((o, i)) ==> {
                    &&& 0 <= bm < k
                    &&& is_neighbor_candidate(s, active, dir, ar, bm)
                    &&& s[bm].0 == i
                    &&& shared_edge(dir, ar, s[bm].1) == o
                    &&& forall|j: int|
                        0 <= j < k && is_neighbor_candidate(s, active, dir, ar, j) ==> !edge_beats(
                            shared_edge(dir, ar, s[j].1),
                            s[j].0,
                            o as int,
                            i,
                        )
                },
            decreases s.len() - k,
        {
            let (i, r) = rects[k];
            assert(rect_within(r, unit_rect()));
            if i != active {
                let adjacent = match dir {
                    PaneDir::Right => r.x == ar.x + ar.w,
                    PaneDir::Left => r.x + r.w == ar.x,
                    PaneDir::Down => r.y == ar.y + ar.h,
                    PaneDir::Up => r.y + r.h == ar.y,
                };
                if adjacent {
                    let overlap = match dir {
                        PaneDir::Left | PaneDir::Right => overlap_len(ar.y, ar.h, r.y, r.h),
                        PaneDir::Up | PaneDir::Down => overlap_len(ar.x, ar.w, r.x, r.w),
                    };
                    assert(overlap == shared_edge(dir, ar, r));
                    if overlap != 0 {
                        match best {
                            None => {
                                best = Some((overlap, i));
                                proof {
                                    bm = k as int;
                                }
                            },
                            Some((best_overlap, best_i)) => {
                                if overlap > best_overlap || (overlap == best_overlap && i < best_i) {
                                    best = Some((overlap, i));
                                    proof {
                                        bm = k as int;
                                    }
                                }
                            },
                        }
                    }
                }
            }
            k += 1;
        }
        proof {
            if let Some((o, i)) = best {
                assert(is_best_neighbor(s, active, dir, ar, i));
            }
        }
        match best {
            Some((_, i)) => Some(i),
            None => None,
        }
    }

    /// Move the focus to the neighbor toward `dir`; false at the edge.
    pub fn activate_direction(&mut self, dir: PaneDir) -> (r: bool)
        ensures
            r == old(self)@.neighbor(dir) is Some,
            final(self)@ == match old(self)@.neighbor(dir) {
                Some(i) => LayoutState { active: i, ..old(self)@ },
                None => old(self)@,
            },
            old(self)@.wf() ==> final(self)@.wf(),
            old(self)@.wf() ==> (old(self)@.neighbor(dir) matches Some(j) ==> final(self)@.active_index() == j),
    {
        let n = self.neighbor_in(dir);
        proof {
            if self@.wf() {
                lemma_neighbor_is_pane(self@, dir, n);
                if let Some(j) = n {
                    lemma_swap_zoom_focus_keep_wf(self@, 0, false, j);
                }
            }
        }
        match n {
            Some(i) => {
                self.active = i;
                true
            },
            None => false,
        }
    }
}

} // verus!

verus! {

/// Panes after the first `m` exchanges of a clockwise rotation over the leaf
/// slots `l`: the exchanges go from the last slot pair back to the first.
pub open spec fn rotate_cw_steps<T>(s: Seq<T>, l: Seq<usize>, m: nat) -> Seq<T>
    decreases m,
{
    if m == 0 {
        s
    } else {
        let p = rotate_cw_steps(s, l, (m - 1) as nat);
        let i = l.len() - m;
        swapped(p, l[i] as int, l[i - 1] as int)
    }
}

/// Panes after the first `m` exchanges of a counter-clockwise rotation over
/// the leaf slots `l`: the exchanges go from the first slot pair onward.
pub open spec fn rotate_ccw_steps<T>(s: Seq<T>, l: Seq<usize>, m: nat) -> Seq<T>
    decreases m,
{
    if m == 0 {
        s
    } else {
        let p = rotate_ccw_steps(s, l, (m - 1) as nat);
        swapped(p, l[m - 1] as int, l[m as int] as int)
    }
}

/// The panes after a rotation over the leaf slots `l` (nothing moves with
/// fewer than two leaves).
pub open spec fn rotated_panes<T>(s: Seq<T>, l: Seq<usize>, clockwise: bool) -> Seq<T> {
    if l.len() < 2 {
        s
    } else if clockwise {
        rotate_cw_steps(s, l, (l.len() - 1) as nat)
    } else {
        rotate_ccw_steps(s, l, (l.len() - 1) as nat)
    }
}

proof fn lemma_swapped_keeps<T>(p: Seq<T>, a: int, b: int, x: T)
    requires
        0 <= a < p.len(),
        0 <= b < p.len(),
        p.contains(x),
    ensures
        swapped(p, a, b).contains(x),
        swapped(p, a, b).len() == p.len(),
{
    let k = choose|k: int| 0 <= k < p.len() && p[k] == x;
    let q = swapped(p, a, b);
    if k == a {
        assert(q[b] == x);
    } else if k == b {
        assert(q[a] == x);
    } else {
        assert(q[k] == x);
    }
}

proof fn lemma_rotate_steps_keep<T>(s: Seq<T>, l: Seq<usize>, m: nat, clockwise: bool, x: T)
    requires
        m < l.len(),
        forall|k: int| 0 <= k < l.len() ==> l[k] < s.len(),
        s.contains(x),
    ensures
        clockwise ==> rotate_cw_steps(s, l, m).contains(x) && rotate_cw_steps(s, l, m).len() == s.len(),
        !clockwise ==> rotate_ccw_steps(s, l, m).contains(x) && rotate_ccw_steps(s, l, m).len() == s.len(),
    decreases m,
{
    if m > 0 {
        lemma_rotate_steps_keep(s, l, (m - 1) as nat, clockwise, x);
        if clockwise {
            let i = l.len() - m;
            lemma_swapped_keeps(rotate_cw_steps(s, l, (m - 1) as nat), l[i] as int, l[i - 1] as int, x);
        } else {
            lemma_swapped_keeps(rotate_ccw_steps(s, l, (m - 1) as nat), l[m - 1] as int, l[m as int] as int, x);
        }
    }
}

/// A rotation keeps every pane, and the number of panes.
pub proof fn lemma_rotated_panes_keep<T>(s: Seq<T>, l: Seq<usize>, clockwise: bool, x: T)
    requires
        forall|k: int| 0 <= k < l.len() ==> l[k] < s.len(),
        s.contains(x),
    ensures
        rotated_panes(s, l, clockwise).contains(x),
        rotated_panes(s, l, clockwise).len() == s.len(),
{
    if l.len() >= 2 {
        lemma_rotate_steps_keep(s, l, (l.len() - 1) as nat, clockwise, x);
    }
}

impl<T: PaneKey> SplitLayout<T> {
    /// Cycle the panes around the leaf slots; the tree keeps its shape.
    /// Clockwise the pane of the last (preorder) leaf moves to the first.
    /// The focus follows the pane that had it.
    pub fn rotate(&mut self, clockwise: bool)
        requires
            old(self)@.leaves_in_range(),
        ensures
            final(self)@.panes == rotated_panes(
                old(self)@.panes,
                old(self)@.root.leaves(),
                clockwise,
            ),
            final(self)@.root == old(self)@.root,
            final(self)@.zoomed == old(self)@.zoomed,
            old(self)@.root.leaves().len() < 2 ==> final(self)@ == old(self)@,
            old(self)@.root.leaves().len() >= 2 ==> final(self)@.active == match pane_position(
                final(self)@.panes,
                old(self)@.panes[old(self)@.active_index()]@,
            ) {
                Some(i) => i,
                None => old(self)@.active,
            },
            old(self)@.root.leaves().len() >= 2 ==> final(self)@.panes[final(self)@.active_index()]@
                == old(self)@.panes[old(self)@.active_index()]@,
            old(self)@.wf() ==> final(self)@.wf(),
    {
        let mut leaves: Vec<usize> = Vec::new();
        self.root.collect_leaves(&mut leaves);
        assert(leaves@ =~= self@.root.leaves());
        if leaves.len() < 2 {
            return;
        }
        let ghost l = leaves@;
        let ghost s0 = self.panes@;
        let ghost st0 = self@;
        proof {
            assert(l[0] < s0.len());
            assert(s0.len() == self.panes.len());
        }
        let ai = self.active_index();
        let focused = self.panes[ai].copy_key();
        let n = leaves.len();
        if clockwise {
            let mut m: usize = 0;
            while m < n - 1
                invariant
                    leaves@ == l,
                    n == l.len(),
                    n >= 2,
                    forall|k: int| 0 <= k < n ==> l[k] < s0.len(),
                    self.panes@.len() == s0.len(),
                    self@.root == st0.root,
                    self@.zoomed == st0.zoomed,
                    self@.active == st0.active,
                    0 <= m <= n - 1,
                    self.panes@ == rotate_cw_steps(s0, l, m as nat),
                decreases n - 1 - m,
            {
                let i = n - 1 - m;
                swap_items(&mut self.panes, leaves[i], leaves[i - 1]);
                m += 1;
            }
        } else {
            let mut m: usize = 0;
            while m < n - 1
                invariant
                    leaves@ == l,
                    n == l.len(),
                    n >= 2,
                    forall|k: int| 0 <= k < n ==> l[k] < s0.len(),
                    self.panes@.len() == s0.len(),
                    self@.root == st0.root,
                    self@.zoomed == st0.zoomed,
                    self@.active == st0.active,
                    0 <= m <= n - 1,
                    self.panes@ == rotate_ccw_steps(s0, l, m as nat),
                decreases n - 1 - m,
            {
                swap_items(&mut self.panes, leaves[m], leaves[m + 1]);
                m += 1;
            }
        }
        let ghost mid = self@;
        proof {
            assert(mid.panes == rotated_panes(s0, l, clockwise));
            assert(s0.contains(s0[ai as int]));
            lemma_rotated_panes_keep(s0, l, clockwise, s0[ai as int]);
            let k = choose|k: int| 0 <= k < mid.panes.len() && mid.panes[k] == s0[ai as int];
            assert(mid.panes[k]@ == focused@);
            assert(mid.panes.len() == self.panes.len());
            lemma_pane_position(mid.panes, focused@);
            if st0.wf() {
                let j = pane_position(mid.panes, focused@).unwrap();
                lemma_rotate_keeps_wf(st0, clockwise, j);
                assert((LayoutState { panes: rotated_panes(st0.panes, st0.root.leaves(), clockwise), active: j, ..st0 }) == (
                LayoutState { active: j, ..mid }));
            }
        }
        let _ = self.set_active_pane(&focused);
    }
}

} // verus!
