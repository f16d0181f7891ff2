//! The tab strip: the ordered list of available views (the built-in default
//! view, saved views appended once they are fetched, and an ephemeral
//! trailing search-results tab), the active-tab index, and the translation
//! of tab-change keys into view activation requests.

use vstd::prelude::*;
use crate::events::{Key, TabChangeEvent};
use crate::iconmap::{ico_to_nf, spec_ico_to_nf};
use crate::views::ViewFragment;

verus! {

#[derive(Debug, PartialEq)]
pub enum TabType {
    MyIssues,
    CustomView,
    SearchResults,
}

/// One tab: a title, its kind, and the saved-view descriptor for saved
/// views.
#[derive(Debug)]
pub struct Tab {
    pub title: String,
    pub tab_type: TabType,
    pub custom_view: Option<ViewFragment>,
}

/// A tab holding this saved-view descriptor.
pub open spec fn is_custom_tab_of(t: Tab, v: ViewFragment) -> bool {
    &&& t.title == v.name
    &&& t.tab_type is CustomView
    &&& t.custom_view == Some(v)
}

pub struct TabWidget {
    pub selected_index: usize,
    pub tabs: Vec<Tab>,
}

/// The activation request for the tab at index `i`.
pub open spec fn event_at(tabs: Seq<Tab>, i: int) -> TabChangeEvent {
    match tabs[i].custom_view {
        Some(v) => TabChangeEvent::FetchCustomViewIssues(v),
        None => match tabs[i].tab_type {
            TabType::MyIssues => TabChangeEvent::FetchMyIssues,
            TabType::SearchResults => TabChangeEvent::SearchIssues,
            TabType::CustomView => TabChangeEvent::Nothing,
        },
    }
}

/// The index after moving one tab right, clamped at the last tab.
pub open spec fn spec_next_index(t: TabWidget) -> usize {
    if (t.selected_index as int) + 1 < t.tabs@.len() {
        (t.selected_index + 1) as usize
    } else {
        t.selected_index
    }
}

/// The index after moving one tab left, clamped at the first tab.
pub open spec fn spec_prev_index(t: TabWidget) -> usize {
    if t.selected_index > 0 {
        (t.selected_index - 1) as usize
    } else {
        0usize
    }
}

impl TabWidget {
    /// There is always at least the default tab, the active index is in
    /// range, and a search-results tab can only sit at the trailing
    /// position.
    pub open spec fn wf(&self) -> bool {
        &&& self.tabs@.len() >= 1
        &&& (self.selected_index as int) < self.tabs@.len()
        &&& forall|i: int|
            #![trigger self.tabs@[i]]
            0 <= i < self.tabs@.len() ==> (self.tabs@[i].tab_type is SearchResults ==> i
                == self.tabs@.len() - 1)
    }
}

impl Default for TabWidget {
    fn default() -> (r: Self)
        ensures
            r.wf(),
            r.selected_index == 0,
            r.tabs@.len() == 1,
            r.tabs@[0].title@ == "My Issues"@,
            r.tabs@[0].tab_type is MyIssues,
            r.tabs@[0].custom_view is None,
    {
        let tabs = vec![
            Tab {
                title: "My Issues".to_owned(),
                tab_type: TabType::MyIssues,
                custom_view: None,
            },
        ];
        TabWidget { selected_index: 0, tabs }
    }
}

/// How `show_and_select_search_tab` transforms the tab strip: when the
/// trailing tab is already the search tab nothing is added, otherwise
/// exactly one search tab is appended; either way it ends up selected.
pub open spec fn reveal_search_rel(pre: TabWidget, post: TabWidget) -> bool {
    &&& (pre.tabs@.last().tab_type is SearchResults ==> post.tabs@ == pre.tabs@)
    &&& (!(pre.tabs@.last().tab_type is SearchResults) ==> {
        &&& post.tabs@.len() == pre.tabs@.len() + 1
        &&& post.tabs@.take(pre.tabs@.len() as int) == pre.tabs@
        &&& post.tabs@.last().tab_type is SearchResults
        &&& post.tabs@.last().title@ == "Search Results"@
        &&& post.tabs@.last().custom_view is None
    })
    &&& (post.selected_index as int) == post.tabs@.len() - 1
}

impl TabWidget {
    /// Move to the next tab; clamped at the last tab, no wraparound.
    pub fn next(&mut self) -> (r: usize)
        requires
            old(self).wf(),
        ensures
            final(self).wf(),
            final(self).tabs == old(self).tabs,
            final(self).selected_index == spec_next_index(*old(self)),
            r == final(self).selected_index,
    {
        if self.selected_index < self.tabs.len() - 1 {
            self.selected_index = self.selected_index + 1;
        }
        self.selected_index
    }

    /// Move to the previous tab; clamped at the first tab, no wraparound.
    pub fn prev(&mut self) -> (r: usize)
        requires
            old(self).wf(),
        ensures
            final(self).wf(),
            final(self).tabs == old(self).tabs,
            final(self).selected_index == spec_prev_index(*old(self)),
            r == final(self).selected_index,
    {
        if self.selected_index > 0 {
            self.selected_index = self.selected_index - 1;
        }
        self.selected_index
    }

    /// Idempotently make sure a trailing search-results tab exists, and
    /// select it. No second search tab is ever created.
    pub fn show_and_select_search_tab(&mut self)
        requires
            old(self).wf(),
        ensures
            final(self).wf(),
            reveal_search_rel(*old(self), *final(self)),
    {
        let last = self.tabs.len() - 1;
        let is_search = match self.tabs[last].tab_type {
            TabType::SearchResults => true,
            _ => false,
        };
        if !is_search {
            self.tabs.push(
                Tab {
                    title: "Search Results".to_owned(),
                    tab_type: TabType::SearchResults,
                    custom_view: None,
                },
            );
            proof {
                assert(self.tabs@.take(self.tabs@.len() - 1) =~= old(self).tabs@);
            }
        }
        self.selected_index = self.tabs.len() - 1;
    }

    /// Append a tab for each saved view, in the order given, keeping the
    /// search-results tab (if one exists) at its trailing position. The tab
    /// that was active stays active.
    pub fn add_custom_views(&mut self, views: Vec<ViewFragment>)
        requires
            old(self).wf(),
        ensures
            final(self).wf(),
            final(self).tabs@.len() == old(self).tabs@.len() + views@.len(),
            ({
                let base = if old(self).tabs@.last().tab_type is SearchResults {
                    old(self).tabs@.len() - 1
                } else {
                    old(self).tabs@.len() as int
                };
                &&& final(self).tabs@.take(base) == old(self).tabs@.take(base)
                &&& forall|k: int|
                    #![trigger final(self).tabs@[base + k]]
                    0 <= k < views@.len() ==> is_custom_tab_of(
                        final(self).tabs@[base + k],
                        views@[k],
                    )
                &&& (old(self).tabs@.last().tab_type is SearchResults
                    ==> final(self).tabs@.last() == old(self).tabs@.last())
                &&& (old(self).tabs@.last().tab_type is SearchResults
                    && (old(self).selected_index as int) == old(self).tabs@.len() - 1
                    ==> (final(self).selected_index as int) == final(self).tabs@.len() - 1)
                &&& ((old(self).selected_index as int) < base
                    ==> final(self).selected_index == old(self).selected_index)
            }),
    {
        let last = self.tabs.len() - 1;
        let has_search = match self.tabs[last].tab_type {
            TabType::SearchResults => true,
            _ => false,
        };
        let was_on_search = has_search && self.selected_index == last;
        let search_tab = if has_search {
            self.tabs.pop()
        } else {
            None
        };
        let ghost base_tabs = self.tabs@;
        let base = self.tabs.len();
        let mut i: usize = 0;
        while i < views.len()
            invariant
                0 <= i <= views@.len(),
                base == base_tabs.len(),
                self.tabs@.len() == base + i,
                self.tabs@.take(base as int) == base_tabs,
                forall|k: int|
                    0 <= k < i ==> is_custom_tab_of(
                        #[trigger] self.tabs@[base + k],
                        views@[k],
                    ),
                forall|k: int|
                    #![trigger self.tabs@[k]]
                    0 <= k < self.tabs@.len() ==> !(self.tabs@[k].tab_type is SearchResults),
                self.selected_index == old(self).selected_index,
            decreases views@.len() - i,
        {
            let v = views[i].clone();
            self.tabs.push(
                Tab { title: v.name.clone(), tab_type: TabType::CustomView, custom_view: Some(v) },
            );
            proof {
                assert(self.tabs@.take(base as int) =~= base_tabs);
            }
            i += 1;
        }
        match search_tab {
            Some(st) => {
                self.tabs.push(st);
                if was_on_search {
                    self.selected_index = self.tabs.len() - 1;
                }
                proof {
                    assert(self.tabs@.take(base as int) =~= base_tabs);
                }
            },
            None => {},
        }
        proof {
            let base_i = base as int;
            assert(self.tabs@.take(base_i) =~= old(self).tabs@.take(base_i));
        }
    }

    fn event_for(&self, i: usize) -> (r: TabChangeEvent)
        requires
            (i as int) < self.tabs@.len(),
        ensures
            r == event_at(self.tabs@, i as int),
    {
        match &self.tabs[i].custom_view {
            Some(v) => TabChangeEvent::FetchCustomViewIssues(v.clone()),
            None => match self.tabs[i].tab_type {
                TabType::MyIssues => TabChangeEvent::FetchMyIssues,
                TabType::SearchResults => TabChangeEvent::SearchIssues,
                TabType::CustomView => TabChangeEvent::Nothing,
            },
        }
    }

    /// Translate a tab-change key press into the activation request for the
    /// newly selected tab.
    pub fn handle_event(&mut self, key: Key) -> (r: TabChangeEvent)
        requires
            old(self).wf(),
        ensures
            final(self).wf(),
            final(self).tabs == old(self).tabs,
            key is Tab ==> {
                &&& final(self).selected_index == spec_next_index(*old(self))
                &&& r == event_at(old(self).tabs@, spec_next_index(*old(self)) as int)
            },
            key is BackTab ==> {
                &&& final(self).selected_index == spec_prev_index(*old(self))
                &&& r == event_at(old(self).tabs@, spec_prev_index(*old(self)) as int)
            },
            !(key is Tab) && !(key is BackTab) ==> {
                &&& *final(self) == *old(self)
                &&& r is Nothing
            },
    {
        match key {
            Key::Tab => {
                let i = self.next();
                self.event_for(i)
            },
            Key::BackTab => {
                let i = self.prev();
                self.event_for(i)
            },
            _ => TabChangeEvent::Nothing,
        }
    }
}

/// Text and color of a tab's label: the view's icon glyph and title, and
/// the view's color (white for the built-in tabs or an undecorated view).
pub open spec fn spec_tab_label(t: Tab) -> Seq<char> {
    spec_tab_icon(t) + " "@ + t.title@
}

pub open spec fn spec_tab_icon(t: Tab) -> Seq<char> {
    match t.custom_view {
        Some(v) => match v.icon {
            Some(icon) => spec_ico_to_nf(icon@),
            None => Seq::<char>::empty(),
        },
        None => if t.tab_type is SearchResults {
            spec_ico_to_nf("Magnify"@)
        } else {
            spec_ico_to_nf("Home"@)
        },
    }
}

pub open spec fn spec_tab_color(t: Tab) -> Seq<char> {
    match t.custom_view {
        Some(v) => match v.color {
            Some(c) => c@,
            None => "#ffffff"@,
        },
        None => "#FFFFFF"@,
    }
}

/// The label text and color hex string drawn for one tab.
pub fn tab_label(t: &Tab) -> (r: (String, String))
    ensures
        r.0@ == spec_tab_label(*t),
        r.1@ == spec_tab_color(*t),
{
    let icon: String = match &t.custom_view {
        Some(v) => match &v.icon {
            Some(icon) => ico_to_nf(icon.as_str()),
            None => String::new(),
        },
        None => match t.tab_type {
            TabType::SearchResults => ico_to_nf("Magnify"),
            _ => ico_to_nf("Home"),
        },
    };
    let color: String = match &t.custom_view {
        Some(v) => match &v.color {
            Some(c) => c.clone(),
            None => "#ffffff".to_owned(),
        },
        None => "#FFFFFF".to_owned(),
    };
    let mut text = icon;
    text.append(" ");
    text.append(t.title.as_str());
    (text, color)
}

} // verus!
