use linear_tui::app::App;
use linear_tui::events::{Effect, Key, Query, TabChangeEvent};
use linear_tui::issue::{IssueFragment, IssueFragmentLabels, IssueFragmentState};
use linear_tui::issue_list::LoadingState;
use linear_tui::views::ViewFragment;

fn make_issue(title: &str, identifier: &str) -> IssueFragment {
    IssueFragment {
        title: String::from(title),
        identifier: String::from(identifier),
        state: IssueFragmentState {
            name: "Backlogged".into(),
            color: "#0FA0FA".into(),
            type_: "backlog".into(),
        },
        url: format!("https://example.test/{}", identifier),
        assignee: None,
        creator: None,
        estimate: None,
        project: None,
        created_at: String::from("2025-05-10T03:09:51.740Z"),
        priority_label: "Urgent".into(),
        priority: 1,
        labels: IssueFragmentLabels { edges: vec![] },
        branch_name: "test-1-branch-name".into(),
        description: None,
    }
}

/// Boot an app the way the runtime does: activate the default view and
/// complete its fetch with the two scenario issues.
fn booted_app() -> App {
    let mut app = App::new();
    let q = app.issue_list_widget.run(TabChangeEvent::default());
    assert_eq!(q, Some(Query::MyIssues));
    assert_eq!(app.issue_list_widget.state.loading_state, LoadingState::Loading);
    app.issue_list_widget.complete_fetch(
        String::from("my_issues"),
        Ok(vec![
            make_issue("Ticket One", "TEST-1"),
            make_issue("Ticket Two", "TEST-2"),
        ]),
    );
    assert_eq!(app.issue_list_widget.state.loading_state, LoadingState::Loaded);
    app
}

#[test]
fn default_view_selection_wraps_with_j() {
    let mut app = booted_app();
    assert_eq!(app.issue_list_widget.state.cursor, None);

    app.handle_event(Key::Char('j'));
    assert_eq!(app.issue_list_widget.state.cursor, Some(0));
    let shown = app.selected_issue_widget.selected_issue.as_ref().unwrap();
    assert_eq!(shown.title, "Ticket One");
    assert_eq!(shown.identifier, "TEST-1");

    app.handle_event(Key::Char('j'));
    assert_eq!(app.issue_list_widget.state.cursor, Some(1));
    let shown = app.selected_issue_widget.selected_issue.as_ref().unwrap();
    assert_eq!(shown.title, "Ticket Two");
    assert_eq!(shown.identifier, "TEST-2");

    app.handle_event(Key::Char('j'));
    assert_eq!(app.issue_list_widget.state.cursor, Some(0));
}

#[test]
fn yank_requests_the_selected_branch_name_on_the_clipboard() {
    let mut app = booted_app();
    app.handle_event(Key::Char('j'));
    assert_eq!(app.issue_list_widget.state.cursor, Some(0));

    let eff = app.handle_event(Key::Char('y'));
    assert_eq!(eff, Effect::CopyText(String::from("test-1-branch-name")));
}

#[test]
fn search_reveals_one_trailing_tab_and_replaces_rows() {
    let mut app = booted_app();

    // issue a search for "bug" while on the default tab
    app.handle_event(Key::Char('/'));
    for c in "bug".chars() {
        app.handle_event(Key::Char(c));
    }
    let eff = app.handle_event(Key::Enter);
    assert_eq!(eff, Effect::Fetch(Query::Search(String::from("bug"))));

    // a new trailing search tab is revealed and selected
    let tabs = &app.tab_widget.tabs;
    assert_eq!(tabs.len(), 2);
    assert_eq!(tabs[1].title, "Search Results");
    assert_eq!(app.tab_widget.selected_index, 1);
    assert_eq!(app.issue_list_widget.state.selected_view_id, "search_results");

    app.issue_list_widget.complete_fetch(
        String::from("search_results"),
        Ok(vec![make_issue("Bug Hit", "B-1")]),
    );

    // a second search creates no second tab, only replaces the rows.
    // the search strip stayed visible after the submit, so the first `/`
    // hides it and the second re-enters text entry with a fresh buffer
    app.handle_event(Key::Char('/'));
    app.handle_event(Key::Char('/'));
    for c in "feature".chars() {
        app.handle_event(Key::Char(c));
    }
    let eff = app.handle_event(Key::Enter);
    assert_eq!(eff, Effect::Fetch(Query::Search(String::from("feature"))));
    assert_eq!(app.tab_widget.tabs.len(), 2);
    assert_eq!(app.tab_widget.selected_index, 1);

    app.issue_list_widget.complete_fetch(
        String::from("search_results"),
        Ok(vec![make_issue("Feature Hit", "F-1")]),
    );
    let rows = app
        .issue_list_widget
        .state
        .issue_map
        .get(&String::from("search_results"))
        .unwrap();
    assert_eq!(rows.len(), 1);
    assert_eq!(rows[0].title, "Feature Hit");
    assert_eq!(app.issue_list_widget.state.cursor, None);
}

#[test]
fn switching_tabs_never_mutates_another_views_rows() {
    let mut app = booted_app();
    app.tab_widget
        .add_custom_views(vec![ViewFragment {
            id: String::from("view-1"),
            name: String::from("Custom A"),
            color: None,
            icon: None,
            slug_id: None,
        }]);
    app.issue_list_widget.complete_fetch(
        String::from("view-1"),
        Ok(vec![make_issue("Custom Row", "C-1")]),
    );

    let eff = app.handle_event(Key::Tab);
    assert_eq!(eff, Effect::Fetch(Query::CustomView(String::from("view-1"))));

    // both cached lists are exactly as they were
    let mine = app
        .issue_list_widget
        .state
        .issue_map
        .get(&String::from("my_issues"))
        .unwrap();
    assert_eq!(mine.len(), 2);
    assert_eq!(mine[0].title, "Ticket One");
    let custom = app
        .issue_list_widget
        .state
        .issue_map
        .get(&String::from("view-1"))
        .unwrap();
    assert_eq!(custom.len(), 1);
    assert_eq!(custom[0].title, "Custom Row");

    app.handle_event(Key::BackTab);
    let mine = app
        .issue_list_widget
        .state
        .issue_map
        .get(&String::from("my_issues"))
        .unwrap();
    assert_eq!(mine[1].title, "Ticket Two");
}

#[test]
fn transport_error_keeps_previously_loaded_rows() {
    let mut app = booted_app();
    app.issue_list_widget.complete_fetch(
        String::from("my_issues"),
        Err(String::from("transport: connection reset")),
    );
    assert_eq!(
        app.issue_list_widget.state.loading_state,
        LoadingState::Error(String::from("transport: connection reset"))
    );
    let rows = app
        .issue_list_widget
        .state
        .issue_map
        .get(&String::from("my_issues"))
        .unwrap();
    assert_eq!(rows.len(), 2);
    assert_eq!(rows[0].title, "Ticket One");
}

#[test]
fn keys_are_ignored_while_a_fetch_is_outstanding() {
    let mut app = App::new();
    let _ = app.issue_list_widget.run(TabChangeEvent::default());
    assert_eq!(app.issue_list_widget.state.loading_state, LoadingState::Loading);
    let eff = app.handle_event(Key::Char('j'));
    assert_eq!(eff, Effect::Nothing);
    assert_eq!(app.issue_list_widget.state.cursor, None);
    assert!(app.selected_issue_widget.selected_issue.is_none());
}

#[test]
fn quit_keys_only_apply_outside_text_entry() {
    let mut app = booted_app();
    app.handle_event(Key::Char('/'));
    app.handle_event(Key::Char('q'));
    assert!(!app.should_quit);
    assert_eq!(app.issue_list_widget.input, "q");
    app.handle_event(Key::Esc);  // cancels text entry
    assert!(!app.should_quit);
    app.handle_event(Key::Char('q'));
    assert!(app.should_quit);
}

#[test]
fn glyph_tables_match_their_fixed_entries() {
    assert_eq!(linear_tui::iconmap::ico_to_nf("Umbrella"), "\u{f0e9}  ");
    assert_eq!(linear_tui::iconmap::ico_to_nf("FaceStarEyes"), "\u{ee50}  ");
    assert_eq!(linear_tui::iconmap::ico_to_nf("Education"), "idk");
    assert_eq!(linear_tui::iconmap::p_to_nf(1), "\u{f071}");
    assert_eq!(linear_tui::iconmap::p_to_nf(2), "\u{f057e}");
    assert_eq!(linear_tui::iconmap::p_to_nf(3), "\u{f0580}");
    assert_eq!(linear_tui::iconmap::p_to_nf(4), "\u{f057f}");
    assert_eq!(linear_tui::iconmap::p_to_nf(0), "\u{f0e08}");
    assert_eq!(linear_tui::iconmap::state_to_nf("backlog"), "\u{25cc}");
    assert_eq!(linear_tui::iconmap::state_to_nf("unknown kind"), "?");
}
