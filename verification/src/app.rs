//! The application: the three components side by side, and the single
//! dispatcher that routes every key press to them in a fixed priority
//! order (quit, tab change, search-mode toggle, then the list and detail
//! components). It never performs a side effect itself; it reports the
//! side effect the caller must perform.

use vstd::prelude::*;
use crate::events::{Effect, InputMode, Key, LtEvent, Query};
use crate::issue::issue_matches;
use crate::issue_list::{MyIssuesWidget, handle_ev, handle_eff, handle_rel, run_rel};
use crate::selected_issue::{SelectedIssueWidget, scroll_rel};
use crate::tab_widget::{TabWidget, event_at, reveal_search_rel, spec_next_index, spec_prev_index};

verus! {

/// The key press asks to quit: `q` or `Esc` outside text entry.
pub open spec fn quit_requested(mode: InputMode, key: Key) -> bool {
    mode is Normal && (key == Key::Char('q') || key is Esc)
}

/// The key press flips search-entry mode: `/` outside it, `Esc` inside it.
pub open spec fn toggle_requested(mode: InputMode, key: Key) -> bool {
    (mode is Normal && key == Key::Char('/')) || (mode is Editing && key is Esc)
}

/// The tab index a tab-change key lands on.
pub open spec fn tab_target(t: TabWidget, key: Key) -> usize {
    if key is Tab {
        spec_next_index(t)
    } else {
        spec_prev_index(t)
    }
}

/// The side effect for a query handed back by the issue list.
pub open spec fn fetch_effect(q: Option<Query>) -> Effect {
    match q {
        Some(qq) => Effect::Fetch(qq),
        None => Effect::Nothing,
    }
}

/// Submitting a search while the search tab is already the trailing tab
/// creates no second search tab (revealing it leaves the tab list as it
/// is, still selecting the trailing tab), and the completed search
/// replaces the search view's cached rows and resets the cursor, leaving
/// every other view's cached rows alone.
pub proof fn lemma_search_resubmit(
    t_pre: TabWidget,
    t_post: TabWidget,
    w_pre: MyIssuesWidget,
    w_post: MyIssuesWidget,
    rows: Vec<crate::issue::IssueFragment>,
)
    requires
        t_pre.tabs@.len() >= 1,
        t_pre.tabs@.last().tab_type is SearchResults,
        reveal_search_rel(t_pre, t_post),
        crate::issue_list::complete_rel(w_pre, w_post, "search_results"@, Ok(rows)),
    ensures
        t_post.tabs@ == t_pre.tabs@,
        (t_post.selected_index as int) == t_pre.tabs@.len() - 1,
        w_post.state.issue_map.spec_get("search_results"@) == Some(rows@),
        w_post.state.cursor is None,
        forall|k: Seq<char>|
            k != "search_results"@ ==> w_post.state.issue_map.spec_get(k)
                == w_pre.state.issue_map.spec_get(k),
{
}

/// The whole application state.
pub struct App {
    pub should_quit: bool,
    pub issue_list_widget: MyIssuesWidget,
    pub selected_issue_widget: SelectedIssueWidget,
    pub tab_widget: TabWidget,
}

impl App {
    pub open spec fn wf(&self) -> bool {
        &&& self.issue_list_widget.state.wf()
        &&& self.tab_widget.wf()
    }

    pub fn new() -> (r: Self)
        ensures
            r.wf(),
            !r.should_quit,
            r.issue_list_widget.state.loading_state is Idle,
            r.issue_list_widget.state.cursor is None,
            forall|id: Seq<char>| r.issue_list_widget.state.issue_map.spec_get(id) is None,
            r.issue_list_widget.input_mode is Normal,
            !r.issue_list_widget.show_search_input,
            r.selected_issue_widget.selected_issue is None,
            r.selected_issue_widget.scroll == 0,
            r.tab_widget.selected_index == 0,
            r.tab_widget.tabs@.len() == 1,
            r.tab_widget.tabs@[0].tab_type is MyIssues,
            r.tab_widget.tabs@[0].title@ == "My Issues"@,
    {
        App {
            should_quit: false,
            issue_list_widget: MyIssuesWidget::default(),
            selected_issue_widget: SelectedIssueWidget::default(),
            tab_widget: TabWidget::default(),
        }
    }

    /// Dispatch one key press. Quit keys flip the quit flag; tab-change
    /// keys move the tab strip and activate the chosen view; toggle keys
    /// flip search entry; everything else goes to the detail component and
    /// then the issue list, whose selection changes and search submissions
    /// are pushed to the detail pane and the tab strip. No cached issue
    /// list is ever written here: cache writes happen only in
    /// `complete_fetch`, keyed by the fetched view's id.
    pub fn handle_event(&mut self, key: Key) -> (r: Effect)
        requires
            old(self).wf(),
        ensures
            final(self).wf(),
            final(self).issue_list_widget.state.issue_map == old(
                self,
            ).issue_list_widget.state.issue_map,
            final(self).should_quit == (old(self).should_quit || quit_requested(
                old(self).issue_list_widget.input_mode,
                key,
            )),
            quit_requested(old(self).issue_list_widget.input_mode, key) ==> {
                &&& final(self).issue_list_widget == old(self).issue_list_widget
                &&& final(self).selected_issue_widget == old(self).selected_issue_widget
                &&& final(self).tab_widget == old(self).tab_widget
                &&& r is Nothing
            },
            !quit_requested(old(self).issue_list_widget.input_mode, key) && (key is Tab
                || key is BackTab) ==> {
                &&& final(self).tab_widget.tabs == old(self).tab_widget.tabs
                &&& final(self).tab_widget.selected_index == tab_target(old(self).tab_widget, key)
                &&& run_rel(
                    old(self).issue_list_widget,
                    final(self).issue_list_widget,
                    event_at(
                        old(self).tab_widget.tabs@,
                        tab_target(old(self).tab_widget, key) as int,
                    ),
                    crate::issue_list::query_of_event(
                        event_at(
                            old(self).tab_widget.tabs@,
                            tab_target(old(self).tab_widget, key) as int,
                        ),
                    ),
                )
                &&& r == fetch_effect(
                    crate::issue_list::query_of_event(
                        event_at(
                            old(self).tab_widget.tabs@,
                            tab_target(old(self).tab_widget, key) as int,
                        ),
                    ),
                )
                &&& final(self).selected_issue_widget == old(self).selected_issue_widget
            },
            !quit_requested(old(self).issue_list_widget.input_mode, key) && !(key is Tab) && !(key
                is BackTab) && toggle_requested(old(self).issue_list_widget.input_mode, key) ==> {
                &&& crate::issue_list::toggle_rel(
                    old(self).issue_list_widget,
                    final(self).issue_list_widget,
                )
                &&& final(self).selected_issue_widget == old(self).selected_issue_widget
                &&& final(self).tab_widget == old(self).tab_widget
                &&& r is Nothing
            },
            !quit_requested(old(self).issue_list_widget.input_mode, key) && !(key is Tab) && !(key
                is BackTab) && !toggle_requested(old(self).issue_list_widget.input_mode, key)
                ==> {
                &&& handle_rel(old(self).issue_list_widget, final(self).issue_list_widget, key)
                &&& r == handle_eff(old(self).issue_list_widget, key)
                &&& (handle_ev(old(self).issue_list_widget, key) is SelectIssue ==> {
                    &&& final(self).tab_widget == old(self).tab_widget
                    &&& (match final(self).issue_list_widget.state.selected() {
                        Some(iss) => final(self).selected_issue_widget.selected_issue matches Some(
                            s,
                        ) && issue_matches(iss, s),
                        None => final(self).selected_issue_widget.selected_issue is None,
                    })
                    &&& final(self).selected_issue_widget.scroll == 0
                })
                &&& (handle_ev(old(self).issue_list_widget, key) matches LtEvent::SearchIssues(_)
                    ==> reveal_search_rel(old(self).tab_widget, final(self).tab_widget)
                        && final(self).selected_issue_widget == old(self).selected_issue_widget)
                &&& (handle_ev(old(self).issue_list_widget, key) is Nothing ==> {
                    &&& final(self).selected_issue_widget.selected_issue == old(
                        self,
                    ).selected_issue_widget.selected_issue
                    &&& scroll_rel(
                        old(self).selected_issue_widget,
                        final(self).selected_issue_widget,
                        key,
                    )
                    &&& final(self).tab_widget == old(self).tab_widget
                })
            },
    {
        let is_normal = match self.issue_list_widget.input_mode {
            InputMode::Normal => true,
            InputMode::Editing => false,
        };
        let quit = is_normal && (match key {
            Key::Char(c) => c == 'q',
            Key::Esc => true,
            _ => false,
        });
        if quit {
            self.should_quit = true;
            return Effect::Nothing;
        }
        match key {
            Key::Tab | Key::BackTab => {
                let ev = self.tab_widget.handle_event(key);
                let q = self.issue_list_widget.run(ev);
                match q {
                    Some(qq) => Effect::Fetch(qq),
                    None => Effect::Nothing,
                }
            },
            _ => {
                let toggle = match key {
                    Key::Char(c) => is_normal && c == '/',
                    Key::Esc => !is_normal,
                    _ => false,
                };
                if toggle {
                    self.issue_list_widget.toggle_search_mode();
                    return Effect::Nothing;
                }
                let _ = self.selected_issue_widget.handle_event(key);
                let (ev, eff) = self.issue_list_widget.handle_event(key);
                match ev {
                    LtEvent::SelectIssue => {
                        let sel = self.issue_list_widget.selected_issue();
                        self.selected_issue_widget.set_selected_issue(sel);
                    },
                    LtEvent::SearchIssues(_) => {
                        self.tab_widget.show_and_select_search_tab();
                    },
                    LtEvent::Nothing => {},
                }
                eff
            },
        }
    }
}

} // verus!
