//! The issue list component. It owns the view cache, the currently selected
//! view, the optional cursor into that view's list, and the lifecycle state
//! of the most recent fetch, and it turns key presses into cursor moves,
//! search submissions and side-effect requests.

use vstd::prelude::*;
use crate::cache::ViewCache;
use crate::events::{Effect, InputMode, Key, LtEvent, Query, TabChangeEvent, spec_query_view_id};
use crate::issue::IssueFragment;

verus! {

/// Lifecycle of the most recent fetch for the active view.
#[derive(Debug, PartialEq)]
pub enum LoadingState {
    Idle,
    Loading,
    Loaded,
    Error(String),
}

impl Default for LoadingState {
    fn default() -> (r: Self)
        ensures
            r is Idle,
    {
        LoadingState::Idle
    }
}

impl Clone for LoadingState {
    fn clone(&self) -> (r: Self)
        ensures
            r == *self,
    {
        match self {
            LoadingState::Idle => LoadingState::Idle,
            LoadingState::Loading => LoadingState::Loading,
            LoadingState::Loaded => LoadingState::Loaded,
            LoadingState::Error(msg) => LoadingState::Error(msg.clone()),
        }
    }
}

/// Shared state of the issue list: cache, active view, cursor, lifecycle.
pub struct MyIssuesWidgetState {
    pub loading_state: LoadingState,
    pub cursor: Option<usize>,
    pub selected_view_id: String,
    pub issue_map: ViewCache,
}

impl MyIssuesWidgetState {
    /// The active view's cached list, if its first fetch has completed.
    pub open spec fn active_list(&self) -> Option<Seq<IssueFragment>> {
        self.issue_map.spec_get(self.selected_view_id@)
    }

    /// Length of the active view's list; zero while the key is absent.
    pub open spec fn active_len(&self) -> nat {
        match self.active_list() {
            Some(rows) => rows.len(),
            None => 0,
        }
    }

    /// The cursor, if set, always indexes into the active view's list.
    pub open spec fn wf(&self) -> bool {
        &&& self.issue_map.wf()
        &&& (self.cursor matches Some(i) ==> (i as nat) < self.active_len())
    }

    /// The issue the cursor currently selects.
    pub open spec fn selected(&self) -> Option<IssueFragment> {
        match (self.cursor, self.active_list()) {
            (Some(i), Some(rows)) => if (i as int) < rows.len() {
                Some(rows[i as int])
            } else {
                None
            },
            _ => None,
        }
    }
}

/// Cursor after one scroll down: wraps past the last row to the first; an
/// unset cursor selects the first row; an empty list is left untouched.
pub open spec fn down_step(cursor: Option<usize>, len: nat) -> Option<usize> {
    if len == 0 {
        cursor
    } else {
        match cursor {
            Some(i) => if (i as nat) + 1 < len {
                Some((i + 1) as usize)
            } else {
                Some(0usize)
            },
            None => Some(0usize),
        }
    }
}

/// Cursor after one scroll up: wraps before the first row to the last; an
/// unset cursor selects the last row; an empty list is left untouched.
pub open spec fn up_step(cursor: Option<usize>, len: nat) -> Option<usize> {
    if len == 0 {
        cursor
    } else {
        match cursor {
            Some(i) => if i > 0 {
                Some((i - 1) as usize)
            } else {
                Some((len - 1) as usize)
            },
            None => Some((len - 1) as usize),
        }
    }
}

/// The cursor after `n` scroll-down steps over a list of length `len`.
pub open spec fn iter_down(cursor: Option<usize>, len: nat, n: nat) -> Option<usize>
    decreases n,
{
    if n == 0 {
        cursor
    } else {
        down_step(iter_down(cursor, len, (n - 1) as nat), len)
    }
}

proof fn lemma_iter_down_closed_form(i: usize, len: nat, n: nat)
    requires
        (i as nat) < len,
        n <= len,
        len <= usize::MAX,
    ensures
        iter_down(Some(i), len, n) matches Some(c) && (c as int) == (if (i as int) + n < len {
            (i as int) + n
        } else {
            (i as int) + n - len
        }),
    decreases n,
{
    if n > 0 {
        lemma_iter_down_closed_form(i, len, (n - 1) as nat);
    }
}

/// Scrolling down exactly as many times as the active list is long returns
/// the cursor to its starting index: the wraparound cycle closes.
pub proof fn lemma_scroll_down_cycle(i: usize, len: nat)
    requires
        (i as nat) < len,
        len <= usize::MAX,
    ensures
        iter_down(Some(i), len, len) == Some(i),
{
    lemma_iter_down_closed_form(i, len, len);
}

/// Scrolling up from an unset cursor, or from the first row, selects the
/// last row of a non-empty list.
pub proof fn lemma_scroll_up_wraps(cursor: Option<usize>, len: nat)
    requires
        0 < len <= usize::MAX,
        cursor is None || cursor == Some(0usize),
    ensures
        up_step(cursor, len) matches Some(c) && (c as nat) == len - 1,
{
}

/// With an empty active list the cursor stays as it is (unset, for a
/// well-formed state) under any scroll call.
pub proof fn lemma_scroll_empty_noop(cursor: Option<usize>)
    ensures
        down_step(cursor, 0) == cursor,
        up_step(cursor, 0) == cursor,
{
}

/// The issue list widget: shared state plus the search-entry buffer.
pub struct MyIssuesWidget {
    pub state: MyIssuesWidgetState,
    pub input: String,
    pub search_input_value: String,
    pub show_search_input: bool,
    pub input_mode: InputMode,
}

/// The parts of the widget around the shared state (the search-entry
/// fields) are the same in `a` and `b`.
pub open spec fn same_entry_fields(a: MyIssuesWidget, b: MyIssuesWidget) -> bool {
    &&& a.input == b.input
    &&& a.search_input_value == b.search_input_value
    &&& a.show_search_input == b.show_search_input
    &&& a.input_mode == b.input_mode
}

/// How `toggle_search_mode` transforms the widget: leaving text entry
/// keeps the buffer, entering it starts from an empty buffer; the shared
/// state is untouched either way.
pub open spec fn toggle_rel(pre: MyIssuesWidget, post: MyIssuesWidget) -> bool {
    &&& post.state == pre.state
    &&& post.search_input_value == pre.search_input_value
    &&& (pre.show_search_input ==> {
        &&& !post.show_search_input
        &&& post.input_mode is Normal
        &&& post.input == pre.input
    })
    &&& (!pre.show_search_input ==> {
        &&& post.show_search_input
        &&& post.input_mode is Editing
        &&& post.input@ == Seq::<char>::empty()
    })
}

/// The cursor kept by a view switch: unchanged while it still indexes into
/// the newly active list, cleared otherwise.
pub open spec fn clamp_cursor(cursor: Option<usize>, list: Option<Seq<IssueFragment>>) -> Option<
    usize,
> {
    match (cursor, list) {
        (Some(i), Some(rows)) => if (i as int) < rows.len() {
            Some(i)
        } else {
            None
        },
        _ => None,
    }
}

/// How `complete_fetch` records a fetch outcome for the view cached
/// under `id`: success replaces exactly that view's rows and clears the
/// cursor, failure carries the message and touches neither cache nor
/// cursor.
pub open spec fn complete_rel(
    pre: MyIssuesWidget,
    post: MyIssuesWidget,
    id: Seq<char>,
    result: Result<Vec<IssueFragment>, String>,
) -> bool {
    &&& post.state.selected_view_id == pre.state.selected_view_id
    &&& same_entry_fields(pre, post)
    &&& match result {
        Ok(rows) => {
            &&& post.state.loading_state is Loaded
            &&& post.state.cursor is None
            &&& post.state.issue_map.spec_get(id) == Some(rows@)
            &&& forall|k: Seq<char>|
                k != id ==> post.state.issue_map.spec_get(k) == pre.state.issue_map.spec_get(k)
        },
        Err(msg) => {
            &&& post.state.loading_state == LoadingState::Error(msg)
            &&& post.state.issue_map == pre.state.issue_map
            &&& post.state.cursor == pre.state.cursor
        },
    }
}

impl Default for MyIssuesWidget {
    fn default() -> (r: Self)
        ensures
            r.state.wf(),
            r.state.loading_state is Idle,
            r.state.cursor is None,
            r.state.selected_view_id@ == Seq::<char>::empty(),
            forall|id: Seq<char>| r.state.issue_map.spec_get(id) is None,
            r.input@ == Seq::<char>::empty(),
            r.search_input_value@ == Seq::<char>::empty(),
            !r.show_search_input,
            r.input_mode is Normal,
    {
        MyIssuesWidget {
            state: MyIssuesWidgetState {
                loading_state: LoadingState::Idle,
                cursor: None,
                selected_view_id: String::new(),
                issue_map: ViewCache::new(),
            },
            input: String::new(),
            search_input_value: String::new(),
            show_search_input: false,
            input_mode: InputMode::Normal,
        }
    }
}

impl MyIssuesWidget {
    /// Move the cursor one row down, wrapping to the first row; a no-op on
    /// an empty or not-yet-fetched view.
    pub fn scroll_down(&mut self)
        requires
            old(self).state.wf(),
        ensures
            final(self).state.wf(),
            final(self).state.cursor == down_step(
                old(self).state.cursor,
                old(self).state.active_len(),
            ),
            final(self).state.loading_state == old(self).state.loading_state,
            final(self).state.selected_view_id == old(self).state.selected_view_id,
            final(self).state.issue_map == old(self).state.issue_map,
            same_entry_fields(*old(self), *final(self)),
    {
        let len = self.state.issue_map.len_of(&self.state.selected_view_id);
        if len == 0 {
            return ;
        }
        let next: usize = match self.state.cursor {
            Some(i) => if i + 1 < len {
                i + 1
            } else {
                0
            },
            None => 0,
        };
        self.state.cursor = Some(next);
    }

    /// Move the cursor one row up, wrapping to the last row; a no-op on an
    /// empty or not-yet-fetched view.
    pub fn scroll_up(&mut self)
        requires
            old(self).state.wf(),
        ensures
            final(self).state.wf(),
            final(self).state.cursor == up_step(
                old(self).state.cursor,
                old(self).state.active_len(),
            ),
            final(self).state.loading_state == old(self).state.loading_state,
            final(self).state.selected_view_id == old(self).state.selected_view_id,
            final(self).state.issue_map == old(self).state.issue_map,
            same_entry_fields(*old(self), *final(self)),
    {
        let len = self.state.issue_map.len_of(&self.state.selected_view_id);
        if len == 0 {
            return ;
        }
        let prev: usize = match self.state.cursor {
            Some(i) => if i > 0 {
                i - 1
            } else {
                len - 1
            },
            None => len - 1,
        };
        self.state.cursor = Some(prev);
    }

    /// Switch the active view without touching any cached list; the cursor
    /// is kept only while it stays valid against the new view's list.
    pub fn set_selected_view(&mut self, id: String)
        requires
            old(self).state.wf(),
        ensures
            final(self).state.wf(),
            final(self).state.selected_view_id == id,
            final(self).state.cursor == clamp_cursor(
                old(self).state.cursor,
                old(self).state.issue_map.spec_get(id@),
            ),
            final(self).state.loading_state == old(self).state.loading_state,
            final(self).state.issue_map == old(self).state.issue_map,
            same_entry_fields(*old(self), *final(self)),
    {
        let len = self.state.issue_map.len_of(&id);
        let keep = match self.state.cursor {
            Some(i) => i < len,
            None => false,
        };
        if !keep {
            self.state.cursor = None;
        }
        self.state.selected_view_id = id;
    }

    /// Enter `Loading` and optimistically select the view the query is for,
    /// so the switch is visible before the fetch completes.
    pub fn start_query(&mut self, q: &Query)
        requires
            old(self).state.wf(),
        ensures
            final(self).state.wf(),
            final(self).state.loading_state is Loading,
            final(self).state.selected_view_id@ == spec_query_view_id(*q),
            final(self).state.cursor == clamp_cursor(
                old(self).state.cursor,
                old(self).state.issue_map.spec_get(spec_query_view_id(*q)),
            ),
            final(self).state.issue_map == old(self).state.issue_map,
            same_entry_fields(*old(self), *final(self)),
    {
        let id = q.view_id();
        self.set_selected_view(id);
        self.state.loading_state = LoadingState::Loading;
    }

    /// Record a fetch's outcome: on success replace exactly the fetched
    /// view's cached list and clear the cursor; on failure keep every cached
    /// list and the cursor, and carry the error message.
    pub fn complete_fetch(&mut self, view_id: String, result: Result<Vec<IssueFragment>, String>)
        requires
            old(self).state.wf(),
        ensures
            final(self).state.wf(),
            complete_rel(*old(self), *final(self), view_id@, result),
    {
        match result {
            Ok(rows) => {
                self.state.issue_map.put(view_id, rows);
                self.state.cursor = None;
                self.state.loading_state = LoadingState::Loaded;
            },
            Err(msg) => {
                self.state.loading_state = LoadingState::Error(msg);
            },
        }
    }

    /// Flip between normal navigation and search text entry; entering text
    /// entry starts from an empty buffer.
    pub fn toggle_search_mode(&mut self)
        ensures
            toggle_rel(*old(self), *final(self)),
    {
        if self.show_search_input {
            self.show_search_input = false;
            self.input_mode = InputMode::Normal;
        } else {
            self.show_search_input = true;
            self.input = String::new();
            self.input_mode = InputMode::Editing;
        }
    }

    /// The branch slug the clipboard should receive, if a row is selected.
    pub fn copy_branch_name(&self) -> (r: Option<String>)
        requires
            self.state.wf(),
        ensures
            match self.state.selected() {
                Some(iss) => r == Some(iss.branch_name),
                None => r is None,
            },
    {
        match self.state.cursor {
            Some(i) => match self.state.issue_map.get(&self.state.selected_view_id) {
                Some(rows) => Some(rows[i].branch_name.clone()),
                None => None,
            },
            None => None,
        }
    }

    /// A copy of the issue the cursor currently selects, for the detail
    /// component.
    pub fn selected_issue(&self) -> (r: Option<IssueFragment>)
        requires
            self.state.wf(),
        ensures
            match self.state.selected() {
                Some(iss) => r matches Some(s) && crate::issue::issue_matches(iss, s),
                None => r is None,
            },
    {
        match self.state.cursor {
            Some(i) => match self.state.issue_map.get(&self.state.selected_view_id) {
                Some(rows) => Some(rows[i].clone()),
                None => None,
            },
            None => None,
        }
    }

    /// The URL to open externally, if a row is selected.
    pub fn open_url(&self) -> (r: Option<String>)
        requires
            self.state.wf(),
        ensures
            match self.state.selected() {
                Some(iss) => r == Some(iss.url),
                None => r is None,
            },
    {
        match self.state.cursor {
            Some(i) => match self.state.issue_map.get(&self.state.selected_view_id) {
                Some(rows) => Some(rows[i].url.clone()),
                None => None,
            },
            None => None,
        }
    }

    /// React to a tab-change request: begin the matching fetch (handing the
    /// query back for the runtime to perform), or merely re-display the
    /// cached search results.
    pub fn run(&mut self, ev: TabChangeEvent) -> (q: Option<Query>)
        requires
            old(self).state.wf(),
        ensures
            final(self).state.wf(),
            run_rel(*old(self), *final(self), ev, q),
    {
        match ev {
            TabChangeEvent::FetchMyIssues => {
                let q = Query::MyIssues;
                self.start_query(&q);
                Some(q)
            },
            TabChangeEvent::FetchCustomViewIssues(v) => {
                let q = Query::CustomView(v.id);
                self.start_query(&q);
                Some(q)
            },
            TabChangeEvent::SearchIssues => {
                self.set_selected_view("search_results".to_owned());
                None
            },
            TabChangeEvent::Nothing => None,
        }
    }
}

/// Padding between a row's identifier and its right-aligned glyphs: the
/// rendering width minus the identifier's length and eight columns
/// reserved for the glyphs, never negative.
pub open spec fn spec_row_pad(iss: IssueFragment, width: u16) -> nat {
    let idb = iss.identifier@.len();
    if (width as int) > 8 && (width as int) - 8 > idb {
        ((width as int) - 8 - idb) as nat
    } else {
        0
    }
}

/// Second line of a list row: the identifier, padding spaces, the status
/// glyph, two spaces, and the priority glyph.
pub open spec fn spec_row_meta(iss: IssueFragment, width: u16) -> Seq<char> {
    iss.identifier@ + Seq::new(spec_row_pad(iss, width), |i: int| ' ') + crate::iconmap::spec_state_to_nf(
        iss.state.type_@,
    ) + "  "@ + crate::iconmap::spec_p_to_nf(iss.priority)
}

fn row_meta(iss: &IssueFragment, width: u16) -> (r: String)
    ensures
        r@ == spec_row_meta(*iss, width),
{
    let idb = iss.identifier.as_str().unicode_len();
    let w = width as usize;
    let pad: usize = if w > 8 && w - 8 > idb {
        w - 8 - idb
    } else {
        0
    };
    let mut s = iss.identifier.clone();
    s.append(crate::strutil::spaces(pad).as_str());
    s.append(crate::iconmap::state_to_nf(iss.state.type_.as_str()).as_str());
    s.append("  ");
    s.append(crate::iconmap::p_to_nf(iss.priority).as_str());
    proof {
        assert(s@ =~= spec_row_meta(*iss, width));
    }
    s
}

impl MyIssuesWidget {
    /// One (title line, metadata line) pair per issue in the active view's
    /// cached list, computed from the rendering area's width.
    pub fn render_rows(&self, width: u16) -> (r: Vec<(String, String)>)
        ensures
            match self.state.active_list() {
                Some(rows) => {
                    &&& r@.len() == rows.len()
                    &&& forall|i: int|
                        #![trigger r@[i]]
                        0 <= i < rows.len() ==> r@[i].0 == rows[i].title && r@[i].1@
                            == spec_row_meta(rows[i], width)
                },
                None => r@.len() == 0,
            },
    {
        let mut out: Vec<(String, String)> = Vec::new();
        match self.state.issue_map.get(&self.state.selected_view_id) {
            Some(rows) => {
                let mut i: usize = 0;
                while i < rows.len()
                    invariant
                        0 <= i <= rows@.len(),
                        out@.len() == i,
                        forall|j: int|
                            #![trigger out@[j]]
                            0 <= j < i ==> out@[j].0 == rows@[j].title && out@[j].1@
                                == spec_row_meta(rows@[j], width),
                    decreases rows@.len() - i,
                {
                    out.push((rows[i].title.clone(), row_meta(&rows[i], width)));
                    i += 1;
                }
            },
            None => {},
        }
        out
    }

    /// The error message that replaces the list, when the last fetch for
    /// the active view failed.
    pub fn error_text(&self) -> (r: Option<String>)
        ensures
            match self.state.loading_state {
                LoadingState::Error(msg) => r == Some(msg),
                _ => r is None,
            },
    {
        match &self.state.loading_state {
            LoadingState::Error(msg) => Some(msg.clone()),
            _ => None,
        }
    }

    /// Whether a loading indicator is shown alongside the list.
    pub fn is_loading(&self) -> (r: bool)
        ensures
            r == (self.state.loading_state is Loading),
    {
        match self.state.loading_state {
            LoadingState::Loading => true,
            _ => false,
        }
    }
}

/// How `run` transforms the widget for a tab-change request, and which
/// query (if any) it hands back for the runtime to perform.
pub open spec fn run_rel(
    pre: MyIssuesWidget,
    post: MyIssuesWidget,
    ev: TabChangeEvent,
    q: Option<Query>,
) -> bool {
    &&& post.state.issue_map == pre.state.issue_map
    &&& same_entry_fields(pre, post)
    &&& match ev {
        TabChangeEvent::FetchMyIssues => {
            &&& post.state.loading_state is Loading
            &&& post.state.selected_view_id@ == "my_issues"@
            &&& post.state.cursor == clamp_cursor(
                pre.state.cursor,
                pre.state.issue_map.spec_get("my_issues"@),
            )
            &&& q == Some(Query::MyIssues)
        },
        TabChangeEvent::FetchCustomViewIssues(v) => {
            &&& post.state.loading_state is Loading
            &&& post.state.selected_view_id@ == v.id@
            &&& post.state.cursor == clamp_cursor(
                pre.state.cursor,
                pre.state.issue_map.spec_get(v.id@),
            )
            &&& q == Some(Query::CustomView(v.id))
        },
        TabChangeEvent::SearchIssues => {
            &&& post.state.loading_state == pre.state.loading_state
            &&& post.state.selected_view_id@ == "search_results"@
            &&& post.state.cursor == clamp_cursor(
                pre.state.cursor,
                pre.state.issue_map.spec_get("search_results"@),
            )
            &&& q is None
        },
        TabChangeEvent::Nothing => {
            &&& post == pre
            &&& q is None
        },
    }
}

/// The query a tab-change request requires the runtime to perform, if any.
pub open spec fn query_of_event(ev: TabChangeEvent) -> Option<Query> {
    match ev {
        TabChangeEvent::FetchMyIssues => Some(Query::MyIssues),
        TabChangeEvent::FetchCustomViewIssues(v) => Some(Query::CustomView(v.id)),
        TabChangeEvent::SearchIssues => None,
        TabChangeEvent::Nothing => None,
    }
}

/// The cross-widget event `handle_event` reports for a key press.
pub open spec fn handle_ev(w: MyIssuesWidget, key: Key) -> LtEvent {
    if !(w.state.loading_state is Loaded) {
        LtEvent::Nothing
    } else if w.input_mode is Normal {
        match key {
            Key::Char(c) => if c == 'j' || c == 'k' {
                LtEvent::SelectIssue
            } else {
                LtEvent::Nothing
            },
            _ => LtEvent::Nothing,
        }
    } else {
        match key {
            Key::Enter => LtEvent::SearchIssues(w.input),
            _ => LtEvent::Nothing,
        }
    }
}

/// The side-effect request `handle_event` reports for a key press.
pub open spec fn handle_eff(w: MyIssuesWidget, key: Key) -> Effect {
    if !(w.state.loading_state is Loaded) {
        Effect::Nothing
    } else if w.input_mode is Normal {
        match key {
            Key::Char(c) => if c == 'o' {
                match w.state.selected() {
                    Some(iss) => Effect::OpenUrl(iss.url),
                    None => Effect::Nothing,
                }
            } else if c == 'c' || c == 'y' {
                match w.state.selected() {
                    Some(iss) => Effect::CopyText(iss.branch_name),
                    None => Effect::Nothing,
                }
            } else {
                Effect::Nothing
            },
            _ => Effect::Nothing,
        }
    } else {
        match key {
            Key::Enter => Effect::Fetch(Query::Search(w.input)),
            _ => Effect::Nothing,
        }
    }
}

/// How `handle_event` transforms the widget for each key press (the
/// reported event and effect are `handle_ev` and `handle_eff`).
pub open spec fn handle_rel(pre: MyIssuesWidget, post: MyIssuesWidget, key: Key) -> bool {
    &&& post.state.issue_map == pre.state.issue_map
    &&& (!(pre.state.loading_state is Loaded) ==> post == pre)
    &&& ((pre.state.loading_state is Loaded && pre.input_mode is Normal) ==> {
        &&& key == Key::Char('j') ==> {
            &&& post.state.cursor == down_step(
                pre.state.cursor,
                pre.state.active_len(),
            )
            &&& post.state.selected_view_id == pre.state.selected_view_id
            &&& post.state.loading_state == pre.state.loading_state
            &&& same_entry_fields(pre, post)
        }
        &&& key == Key::Char('k') ==> {
            &&& post.state.cursor == up_step(
                pre.state.cursor,
                pre.state.active_len(),
            )
            &&& post.state.selected_view_id == pre.state.selected_view_id
            &&& post.state.loading_state == pre.state.loading_state
            &&& same_entry_fields(pre, post)
        }
        &&& (key != Key::Char('j') && key != Key::Char('k')) ==> post == pre
    })
    &&& ((pre.state.loading_state is Loaded && pre.input_mode is Editing) ==> {
        &&& key == Key::Enter ==> {
            &&& post.input_mode is Normal
            &&& post.show_search_input == pre.show_search_input
            &&& post.input == pre.input
            &&& post.search_input_value == pre.search_input_value
            &&& post.state.loading_state is Loading
            &&& post.state.selected_view_id@ == "search_results"@
            &&& post.state.cursor == clamp_cursor(
                pre.state.cursor,
                pre.state.issue_map.spec_get("search_results"@),
            )
        }
        &&& (key matches Key::Char(c)) ==> {
            &&& post.state == pre.state
            &&& post.input_mode == pre.input_mode
            &&& post.show_search_input == pre.show_search_input
            &&& post.search_input_value == pre.search_input_value
            &&& (pre.show_search_input ==> post.input@ == pre.input@.push(key->Char_0))
            &&& (!pre.show_search_input ==> post.input == pre.input)
        }
        &&& key == Key::Backspace ==> {
            &&& post.state == pre.state
            &&& post.input_mode == pre.input_mode
            &&& post.show_search_input == pre.show_search_input
            &&& post.search_input_value == pre.search_input_value
            &&& (pre.show_search_input ==> post.input@ == (if pre.input@.len() > 0 {
                pre.input@.drop_last()
            } else {
                pre.input@
            }))
            &&& (!pre.show_search_input ==> post.input == pre.input)
        }
        &&& (!(key matches Key::Char(_)) && key != Key::Enter && key != Key::Backspace)
            ==> post == pre
    })
}

impl MyIssuesWidget {
    /// Handle a key press. Navigation and action keys are ignored unless the
    /// lifecycle state is `Loaded`; in text-entry mode printable characters
    /// edit the search buffer and `Enter` submits the search.
    pub fn handle_event(&mut self, key: Key) -> (r: (LtEvent, Effect))
        requires
            old(self).state.wf(),
        ensures
            final(self).state.wf(),
            r.0 == handle_ev(*old(self), key),
            r.1 == handle_eff(*old(self), key),
            handle_rel(*old(self), *final(self), key),
    {
        match self.state.loading_state {
            LoadingState::Loaded => {},
            _ => {
                return (LtEvent::Nothing, Effect::Nothing);
            },
        }
        match self.input_mode {
            InputMode::Normal => {
                match key {
                    Key::Char(c) => {
                        if c == 'j' {
                            self.scroll_down();
                            (LtEvent::SelectIssue, Effect::Nothing)
                        } else if c == 'k' {
                            self.scroll_up();
                            (LtEvent::SelectIssue, Effect::Nothing)
                        } else if c == 'o' {
                            match self.open_url() {
                                Some(url) => (LtEvent::Nothing, Effect::OpenUrl(url)),
                                None => (LtEvent::Nothing, Effect::Nothing),
                            }
                        } else if c == 'c' || c == 'y' {
                            match self.copy_branch_name() {
                                Some(branch) => (LtEvent::Nothing, Effect::CopyText(branch)),
                                None => (LtEvent::Nothing, Effect::Nothing),
                            }
                        } else {
                            (LtEvent::Nothing, Effect::Nothing)
                        }
                    },
                    _ => (LtEvent::Nothing, Effect::Nothing),
                }
            },
            InputMode::Editing => {
                match key {
                    Key::Enter => {
                        self.input_mode = InputMode::Normal;
                        let term = self.input.clone();
                        let q = Query::Search(self.input.clone());
                        self.start_query(&q);
                        (LtEvent::SearchIssues(term), Effect::Fetch(q))
                    },
                    Key::Char(c) => {
                        if self.show_search_input {
                            self.input.push(c);
                        }
                        (LtEvent::Nothing, Effect::Nothing)
                    },
                    Key::Backspace => {
                        if self.show_search_input {
                            let _ = self.input.pop();
                        }
                        (LtEvent::Nothing, Effect::Nothing)
                    },
                    _ => (LtEvent::Nothing, Effect::Nothing),
                }
            },
        }
    }
}

} // verus!
