//! Events and requests that flow between the components and the outside
//! world: decoded key presses in, side-effect requests out.

use vstd::prelude::*;
use crate::views::ViewFragment;

verus! {

/// Whether the issue list is in normal navigation or in search text entry.
#[derive(Clone, Copy, Debug, PartialEq)]
pub enum InputMode {
    Normal,
    Editing,
}

impl Default for InputMode {
    fn default() -> (r: Self)
        ensures
            r is Normal,
    {
        InputMode::Normal
    }
}

/// A decoded key press, the only input the components consume.
#[derive(Clone, Copy, Debug, PartialEq)]
pub enum Key {
    Char(char),
    Enter,
    Esc,
    Tab,
    BackTab,
    Up,
    Down,
    Backspace,
    Other,
}

/// Cross-widget notification raised by the issue list.
#[derive(Debug, PartialEq)]
pub enum LtEvent {
    Nothing,
    SelectIssue,
    SearchIssues(String),
}

/// Request from the tab strip to activate a different view.
#[derive(Debug, PartialEq)]
pub enum TabChangeEvent {
    Nothing,
    FetchCustomViewIssues(ViewFragment),
    SearchIssues,
    FetchMyIssues,
}

/// One query against the remote issue service. The runtime performs it and
/// hands the outcome back through `MyIssuesWidget::complete_fetch`.
#[derive(Debug, PartialEq)]
pub enum Query {
    MyIssues,
    CustomView(String),
    Search(String),
}

/// The request issued at startup: the default view is fetched first.
impl Default for TabChangeEvent {
    fn default() -> (r: Self)
        ensures
            r is FetchMyIssues,
    {
        TabChangeEvent::FetchMyIssues
    }
}

/// The view id under which a query's result is cached: the well-known
/// constants for the default and search views, or the saved view's own id.
pub open spec fn spec_query_view_id(q: Query) -> Seq<char> {
    match q {
        Query::MyIssues => "my_issues"@,
        Query::CustomView(id) => id@,
        Query::Search(_) => "search_results"@,
    }
}

impl Query {
    pub fn view_id(&self) -> (r: String)
        ensures
            r@ == spec_query_view_id(*self),
    {
        match self {
            Query::MyIssues => "my_issues".to_owned(),
            Query::CustomView(id) => id.clone(),
            Query::Search(_) => "search_results".to_owned(),
        }
    }
}

/// A side effect the caller must perform on the library's behalf.
#[derive(Debug, PartialEq)]
pub enum Effect {
    Nothing,
    Fetch(Query),
    OpenUrl(String),
    CopyText(String),
}

} // verus!
