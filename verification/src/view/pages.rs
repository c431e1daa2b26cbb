use vstd::prelude::*;

pub mod manga;
pub mod reader;
pub mod search;

verus! {

/// The tab that is in view. Exactly one is, at any time.
#[derive(Clone, Copy, Debug, PartialEq, Eq, Structural)]
pub enum SelectedTabs {
    Search,
    MangaTab,
    ReaderTab,
}

impl SelectedTabs {
    /// The tab after this one in the cycle of the tabs that can be cycled to: the search
    /// tab and, while a detail page is there, the detail tab. The reader tab is not in the
    /// cycle: no step leads to it, and a step taken on it stays on it.
    pub open spec fn cycled(self, detail_resident: bool) -> SelectedTabs {
        match self {
            SelectedTabs::Search => if detail_resident {
                SelectedTabs::MangaTab
            } else {
                SelectedTabs::Search
            },
            SelectedTabs::MangaTab => SelectedTabs::Search,
            SelectedTabs::ReaderTab => SelectedTabs::ReaderTab,
        }
    }

    /// The position of the tab in the tab bar.
    pub open spec fn index(self) -> nat {
        match self {
            SelectedTabs::Search => 0,
            SelectedTabs::MangaTab => 1,
            SelectedTabs::ReaderTab => 2,
        }
    }

    /// The tab in view when the controller starts.
    pub fn default() -> (tab: SelectedTabs)
        ensures
            tab == SelectedTabs::Search,
    {
        SelectedTabs::Search
    }

    /// The tab after this one in the cycle.
    pub fn next(self, detail_resident: bool) -> (tab: SelectedTabs)
        ensures
            tab == self.cycled(detail_resident),
    {
        match self {
            SelectedTabs::Search => if detail_resident {
                SelectedTabs::MangaTab
            } else {
                SelectedTabs::Search
            },
            SelectedTabs::MangaTab => SelectedTabs::Search,
            SelectedTabs::ReaderTab => SelectedTabs::ReaderTab,
        }
    }

    /// The tab before this one in the cycle. With two tabs in the cycle it is the one after.
    pub fn previous(self, detail_resident: bool) -> (tab: SelectedTabs)
        ensures
            tab == self.cycled(detail_resident),
    {
        self.next(detail_resident)
    }

    /// The position of the tab in the tab bar.
    pub fn position(self) -> (index: usize)
        ensures
            index == self.index(),
    {
        match self {
            SelectedTabs::Search => 0,
            SelectedTabs::MangaTab => 1,
            SelectedTabs::ReaderTab => 2,
        }
    }
}

} // verus!
