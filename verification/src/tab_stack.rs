//! The window's tabs in order, which one is active, and which one was
//! active before it (for "activate last tab" and for closing).

use vstd::prelude::*;

use crate::lua_ui::{active_after_close, spec_active_after_close};

verus! {

/// Ordered tabs with the active one and the one active before it.
pub struct TabStack<T> {
    tabs: Vec<T>,
    active: usize,
    last_active: Option<usize>,
}

/// The abstract state: the tabs, the active index and the previous one.
pub struct TabStackView<T> {
    pub tabs: Seq<T>,
    pub active: int,
    pub last_active: Option<int>,
}

impl<T> View for TabStack<T> {
    type V = TabStackView<T>;

    closed spec fn view(&self) -> TabStackView<T> {
        TabStackView {
            tabs: self.tabs@,
            active: self.active as int,
            last_active: match self.last_active {
                Some(i) => Some(i as int),
                None => None,
            },
        }
    }
}

impl<T> TabStackView<T> {
    /// No tabs and nothing active, or an active tab in range; the previous
    /// tab, if any, is another tab in range.
    pub open spec fn wf(self) -> bool {
        &&& self.tabs.len() <= usize::MAX
        &&& (self.tabs.len() == 0 ==> self.active == 0 && self.last_active is None)
        &&& (self.tabs.len() > 0 ==> 0 <= self.active < self.tabs.len())
        &&& (self.last_active matches Some(l) ==> 0 <= l < self.tabs.len() && l != self.active)
    }

    /// A new tab goes last and becomes active; the tab active before it,
    /// if there was one, becomes the previous tab.
    pub open spec fn spec_push(self, tab: T) -> TabStackView<T> {
        TabStackView {
            tabs: self.tabs.push(tab),
            active: self.tabs.len() as int,
            last_active: if self.tabs.len() == 0 {
                self.last_active
            } else {
                Some(self.active)
            },
        }
    }

    /// Activating a tab out of range, or the active tab, changes nothing;
    /// otherwise the active tab becomes the previous one.
    pub open spec fn spec_activate(self, index: int) -> TabStackView<T> {
        if index >= self.tabs.len() || index == self.active {
            self
        } else {
            TabStackView { tabs: self.tabs, active: index, last_active: Some(self.active) }
        }
    }

    /// The previous tab after tab `index` is removed: none if it was the one
    /// removed or is now the active one, else shifted past the gap.
    pub open spec fn last_after_remove(self, index: int, new_active: int) -> Option<int> {
        match self.last_active {
            Some(i) => if i == index {
                None
            } else {
                let adj = if i > index {
                    i - 1
                } else {
                    i
                };
                if adj == new_active {
                    None
                } else {
                    Some(adj)
                }
            },
            None => None,
        }
    }

    /// Removing a tab out of range changes nothing; removing the only tab
    /// empties the stack; otherwise the tab goes and the active index is the
    /// one `active_after_close` picks.
    pub open spec fn spec_remove(self, index: int, switch_to_last: bool) -> TabStackView<T> {
        if index >= self.tabs.len() {
            self
        } else if self.tabs.len() <= 1 {
            TabStackView { tabs: Seq::empty(), active: 0, last_active: None }
        } else {
            let new_active = spec_active_after_close(
                self.active as usize,
                match self.last_active {
                    Some(i) => Some(i as usize),
                    None => None,
                },
                index as usize,
                self.tabs.len() as usize,
                switch_to_last,
            );
            TabStackView {
                tabs: self.tabs.remove(index),
                active: new_active,
                last_active: self.last_after_remove(index, new_active),
            }
        }
    }
}

impl<T> TabStack<T> {
    /// No tabs.
    pub fn new() -> (r: Self)
        ensures
            r@.tabs.len() == 0,
            r@.active == 0,
            r@.last_active is None,
            r@.wf(),
    {
        TabStack { tabs: Vec::new(), active: 0, last_active: None }
    }

    pub fn tabs(&self) -> (r: &Vec<T>)
        ensures
            r@ == self@.tabs,
    {
        &self.tabs
    }

    pub fn len(&self) -> (r: usize)
        ensures
            r == self@.tabs.len(),
    {
        self.tabs.len()
    }

    pub fn active_index(&self) -> (r: usize)
        ensures
            r == self@.active,
    {
        self.active
    }

    pub fn last_active(&self) -> (r: Option<usize>)
        ensures
            r matches Some(i) ==> self@.last_active == Some(i as int),
            r is None ==> self@.last_active is None,
    {
        self.last_active
    }

    /// The active tab, if there is one.
    pub fn active_tab(&self) -> (r: Option<&T>)
        requires
            self@.wf(),
        ensures
            r matches Some(t) ==> self@.tabs.len() > 0 && *t == self@.tabs[self@.active],
            r is None ==> self@.tabs.len() == 0,
    {
        if self.active < self.tabs.len() {
            Some(&self.tabs[self.active])
        } else {
            None
        }
    }

    /// Adds `tab` last and makes it active.
    pub fn push(&mut self, tab: T)
        requires
            old(self)@.wf(),
            old(self)@.tabs.len() < usize::MAX,
        ensures
            final(self)@ == old(self)@.spec_push(tab),
            final(self)@.wf(),
    {
        proof {
            lemma_tab_stack_ops_keep_wf(old(self)@, tab, 0, false);
        }
        if self.tabs.len() > 0 {
            self.last_active = Some(self.active);
        }
        self.tabs.push(tab);
        self.active = self.tabs.len() - 1;
    }

    /// Makes tab `index` active, remembering the tab active before.
    pub fn activate(&mut self, index: usize)
        ensures
            final(self)@ == old(self)@.spec_activate(index as int),
            old(self)@.wf() ==> final(self)@.wf(),
    {
        proof {
            if old(self)@.wf() && old(self)@.tabs.len() < usize::MAX {
                lemma_tab_stack_ops_keep_wf(old(self)@, arbitrary(), index as int, false);
            }
        }
        if index >= self.tabs.len() || index == self.active {
            return;
        }
        self.last_active = Some(self.active);
        self.active = index;
    }

    /// Activates the tab that was active before the current one, if any.
    pub fn activate_last(&mut self)
        ensures
            old(self)@.last_active matches Some(l) ==> final(self)@ == old(self)@.spec_activate(l),
            old(self)@.last_active is None ==> final(self)@ == old(self)@,
    {
        if let Some(i) = self.last_active {
            self.activate(i);
        }
    }

    /// Removes tab `index` and returns it with whether the stack is now
    /// empty; out of range, nothing is removed.
    pub fn remove_at(&mut self, index: usize, switch_to_last: bool) -> (r: (Option<T>, bool))
        requires
            old(self)@.wf(),
        ensures
            final(self)@ == old(self)@.spec_remove(index as int, switch_to_last),
            r.0 matches Some(t) ==> index < old(self)@.tabs.len() && t == old(self)@.tabs[index as int],
            r.0 is None ==> index >= old(self)@.tabs.len(),
            r.1 == (final(self)@.tabs.len() == 0),
            final(self)@.wf(),
    {
        proof {
            if old(self)@.tabs.len() < usize::MAX {
                lemma_tab_stack_ops_keep_wf(old(self)@, arbitrary(), index as int, switch_to_last);
            }
        }
        if index >= self.tabs.len() {
            return (None, self.tabs.len() == 0);
        }
        if self.tabs.len() <= 1 {
            let t = self.tabs.remove(index);
            self.active = 0;
            self.last_active = None;
            assert(self@.tabs =~= Seq::<T>::empty());
            return (Some(t), true);
        }
        let new_active = active_after_close(
            self.active,
            self.last_active,
            index,
            self.tabs.len(),
            switch_to_last,
        );
        let prev_last = self.last_active;
        let t = self.tabs.remove(index);
        self.active = new_active;
        self.last_active = match prev_last {
            Some(i) => if i == index {
                None
            } else {
                let adj = if i > index {
                    i - 1
                } else {
                    i
                };
                if adj == new_active {
                    None
                } else {
                    Some(adj)
                }
            },
            None => None,
        };
        (Some(t), false)
    }
}

/// Adding, activating and removing tabs keep the stack well formed.
pub proof fn lemma_tab_stack_ops_keep_wf<T>(s: TabStackView<T>, tab: T, index: int, switch_to_last: bool)
    requires
        s.wf(),
        s.tabs.len() < usize::MAX,
        0 <= index,
        index <= usize::MAX,
    ensures
        s.spec_push(tab).wf(),
        s.spec_activate(index).wf(),
        s.spec_remove(index, switch_to_last).wf(),
{
    let r = s.spec_remove(index, switch_to_last);
    if index < s.tabs.len() && s.tabs.len() > 1 {
        let lv = match s.last_active {
            Some(i) => Some(i as usize),
            None => None,
        };
        let na = spec_active_after_close(s.active as usize, lv, index as usize, s.tabs.len() as usize, switch_to_last);
        crate::lua_ui::lemma_active_after_close_in_range(s.active as usize, lv, index as usize, s.tabs.len() as usize, switch_to_last);
        assert(0 <= na < s.tabs.len() - 1);
    }
}

/// Closing the active tab with the switch-to-last option set returns to the
/// tab that was active before it.
pub proof fn lemma_close_active_returns_to_last<T>(s: TabStackView<T>)
    requires
        s.wf(),
        s.tabs.len() > 1,
        s.last_active is Some,
    ensures
        ({
            let l = s.last_active.unwrap();
            let r = s.spec_remove(s.active, true);
            &&& r.active == (if l > s.active { l - 1 } else { l })
            &&& r.tabs[r.active] == s.tabs[l]
        }),
{
    let l = s.last_active.unwrap();
    let lv = Some(l as usize);
    assert(lv == match s.last_active {
        Some(i) => Some(i as usize),
        None => None,
    });
    let na = spec_active_after_close(s.active as usize, lv, s.active as usize, s.tabs.len() as usize, true);
    let p = if l > s.active { l - 1 } else { l };
    assert(na == p);
    let r = s.spec_remove(s.active, true);
    assert(r.active == p);
    assert(r.tabs[p] == s.tabs[l]);
}

} // verus!
