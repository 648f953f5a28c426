//! The code editor's tabs: which files are open, and which one is active.

use vstd::prelude::*;

verus! {

/// The open tabs of the code editor, each a file path with its content,
/// and the active tab.
#[derive(Debug)]
pub struct CodeTabs<T> {
    pub tabs: Vec<(String, T)>,
    pub active_tab: Option<usize>,
}

/// The paths of the open tabs.
pub open spec fn tab_paths<T>(tabs: Seq<(String, T)>) -> Seq<Seq<char>> {
    tabs.map_values(|t: (String, T)| t.0@)
}

/// No two tabs hold the same file.
pub open spec fn paths_distinct<T>(tabs: Seq<(String, T)>) -> bool {
    forall|i: int, j: int|
        0 <= i < j < tabs.len() ==> #[trigger] tabs[i].0@ != #[trigger] tabs[j].0@
}

/// Opening files keeps their tabs distinct: a new tab is only pushed for a
/// file that has none (an open file has its tab made active instead).
pub proof fn lemma_new_tab_keeps_paths_distinct<T>(tabs: Seq<(String, T)>, path: String, content: T)
    requires
        paths_distinct(tabs),
        !tab_paths(tabs).contains(path@),
    ensures
        paths_distinct(tabs.push((path, content))),
{
    let nt = tabs.push((path, content));
    assert forall|i: int, j: int| 0 <= i < j < nt.len() implies #[trigger] nt[i].0@ != #[trigger] nt[j].0@ by {
        if j == tabs.len() {
            assert(nt[i] == tabs[i]);
            assert(tab_paths(tabs)[i] == tabs[i].0@);
        } else {
            assert(nt[i] == tabs[i] && nt[j] == tabs[j]);
        }
    }
}

impl<T> CodeTabs<T> {
    /// The tabs are consistent: there is an active tab exactly when some
    /// tab is open, and it is one of them.
    pub open spec fn wf(&self) -> bool {
        match self.active_tab {
            Some(a) => a < self.tabs@.len(),
            None => self.tabs@.len() == 0,
        }
    }

    /// No tab is open.
    pub fn new() -> (r: Self)
        ensures
            r.tabs@.len() == 0,
            r.active_tab is None,
            r.wf(),
    {
        CodeTabs { tabs: Vec::new(), active_tab: None }
    }

    /// The index of the tab holding the file at `path`, if one is open.
    pub fn find_tab(&self, path: &str) -> (r: Option<usize>)
        ensures
            r is None <==> !tab_paths(self.tabs@).contains(path@),
            r matches Some(i) ==> i < self.tabs@.len() && self.tabs@[i as int].0@ == path@
                && forall|j: int| 0 <= j < i ==> #[trigger] self.tabs@[j].0@ != path@,
    {
        let mut i: usize = 0;
        while i < self.tabs.len()
            invariant
                i <= self.tabs.len(),
                forall|j: int| 0 <= j < i ==> #[trigger] self.tabs@[j].0@ != path@,
            decreases self.tabs.len() - i,
        {
            if crate::text::str_eq(self.tabs[i].0.as_str(), path) {
                assert(tab_paths(self.tabs@)[i as int] == path@);
                return Some(i);
            }
            i = i + 1;
        }
        proof {
            assert forall|j: int| 0 <= j < tab_paths(self.tabs@).len() implies tab_paths(
                self.tabs@,
            )[j] != path@ by {
                assert(tab_paths(self.tabs@)[j] == self.tabs@[j].0@);
            }
        }
        None
    }

    /// Makes an open tab the active one.
    pub fn select_tab(&mut self, i: usize)
        requires
            i < old(self).tabs@.len(),
        ensures
            final(self).tabs == old(self).tabs,
            final(self).active_tab == Some(i),
            final(self).wf(),
    {
        self.active_tab = Some(i);
    }

    /// Opening a file that already has a tab makes the first tab of that
    /// file the active one;
    /// tells whether it had one (otherwise the file is to be read and given
    /// a new tab).
    pub fn activate_if_open(&mut self, path: &str) -> (found: bool)
        ensures
            found == tab_paths(old(self).tabs@).contains(path@),
            final(self).tabs == old(self).tabs,
            found ==> ({
                let i = final(self).active_tab->0;
                &&& final(self).active_tab is Some
                &&& i < old(self).tabs@.len()
                &&& old(self).tabs@[i as int].0@ == path@
                &&& forall|j: int| 0 <= j < i ==> #[trigger] old(self).tabs@[j].0@ != path@
            }),
            !found ==> final(self).active_tab == old(self).active_tab,
            old(self).wf() ==> final(self).wf(),
    {
        match self.find_tab(path) {
            Some(i) => {
                self.active_tab = Some(i);
                assert(tab_paths(self.tabs@)[i as int] == path@);
                true
            },
            None => false,
        }
    }

    /// Opens a new tab for a file, and makes it the active one.
    pub fn push_tab(&mut self, path: String, content: T)
        ensures
            final(self).tabs@ == old(self).tabs@.push((path, content)),
            final(self).active_tab == Some(old(self).tabs@.len() as usize),
            final(self).wf(),
    {
        self.tabs.push((path, content));
        self.active_tab = Some(self.tabs.len() - 1);
    }

    /// Closes every tab.
    pub fn close_all_tabs(&mut self)
        ensures
            final(self).tabs@.len() == 0,
            final(self).active_tab is None,
            final(self).wf(),
    {
        self.active_tab = None;
        self.tabs.clear();
    }

    /// The active tab, if any.
    pub fn get_active_tab(&self) -> (r: Option<usize>)
        ensures
            r == self.active_tab,
    {
        self.active_tab
    }

    /// Closes tab `i`. The tab that takes its place (or the one before it,
    /// when it was the last) becomes active if the closed tab was active;
    /// otherwise the same file stays active.
    pub fn close_tab(&mut self, i: usize)
        requires
            old(self).tabs@.len() == 0 || i < old(self).tabs@.len(),
        ensures
            old(self).tabs@.len() == 0 ==> final(self).tabs == old(self).tabs
                && final(self).active_tab == old(self).active_tab,
            old(self).tabs@.len() > 0 ==> final(self).tabs@ == old(self).tabs@.remove(i as int),
            old(self).tabs@.len() == 1 ==> final(self).active_tab is None,
            old(self).tabs@.len() > 1 ==> final(self).active_tab == if old(self).active_tab is None
                || old(self).active_tab == Some(i) {
                if i + 1 == old(self).tabs@.len() {
                    Some((i - 1) as usize)
                } else {
                    Some(i)
                }
            } else if old(self).active_tab->0 > i {
                Some((old(self).active_tab->0 - 1) as usize)
            } else {
                old(self).active_tab
            },
            old(self).wf() ==> final(self).wf(),
    {
        if self.tabs.len() == 0 {
            return;
        }
        let _ = self.tabs.remove(i);
        let mut at = i;
        if self.tabs.len() == 0 {
            self.active_tab = None;
        } else {
            if at >= self.tabs.len() {
                at = at - 1;
            }
            match self.active_tab {
                None => {
                    self.active_tab = Some(at);
                },
                Some(a) => {
                    if a == i {
                        self.active_tab = Some(at);
                    } else if a > i {
                        self.active_tab = Some(a - 1);
                    }
                },
            }
        }
    }
}

/// The byte range that a piece of a text occupies within it, given where
/// each starts in memory and their lengths in bytes.
pub fn as_byte_range(whole_start: usize, whole_len: usize, range_start: usize, range_len: usize) -> (r: std::ops::Range<usize>)
    requires
        whole_start <= range_start,
        range_start + range_len <= whole_start + whole_len,
    ensures
        r.start == range_start - whole_start,
        r.end == range_start - whole_start + range_len,
{
    let offset = range_start - whole_start;
    offset..(offset + range_len)
}

} // verus!
