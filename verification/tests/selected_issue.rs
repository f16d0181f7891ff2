use linear_tui::events::{Key, LtEvent};
use linear_tui::issue::{
    IssueFragment, IssueFragmentAssignee, IssueFragmentCreator, IssueFragmentLabels,
    IssueFragmentLabelsEdges, IssueFragmentLabelsEdgesNode, IssueFragmentProject,
    IssueFragmentState,
};
use linear_tui::selected_issue::{
    SelectedIssueWidget, created_date_text, effective_scroll, sidebar_lines,
};

fn make_issue(title: &str, identifier: &str) -> IssueFragment {
    IssueFragment {
        title: String::from(title),
        identifier: String::from(identifier),
        state: IssueFragmentState {
            name: "Backlogged".into(),
            color: "#0FA0FA".into(),
            type_: "backlog".into(),
        },
        url: String::from("https://example.test/issue"),
        assignee: Some(IssueFragmentAssignee {
            is_me: false,
            display_name: "Assignee Display Name".into(),
        }),
        creator: Some(IssueFragmentCreator {
            is_me: true,
            display_name: "Creator Display Name".into(),
        }),
        estimate: None,
        project: Some(IssueFragmentProject {
            name: "Test Project".into(),
            icon: Some("Subgroup".into()),
            color: "#FA0FA0".into(),
        }),
        created_at: String::from("2025-05-10T03:09:51.740Z"),
        priority_label: "Urgent".into(),
        priority: 1,
        labels: IssueFragmentLabels { edges: vec![] },
        branch_name: "test-1-branch-name".into(),
        description: Some(String::from("### Title\n\nMulti\nLine **description**")),
    }
}

#[test]
fn selected_issue_test_empty_state() {
    let mut app = SelectedIssueWidget::default();
    assert!(app.selected_issue.is_none());
    assert_eq!(app.scroll, 0);
    let ev = app.handle_event(Key::Char('x'));
    assert_eq!(ev, LtEvent::Nothing);
}

#[test]
fn test_basic_issue() {
    let mut app = SelectedIssueWidget::default();
    let issue = make_issue("Testing Ticket", "TEST-1");

    app.set_selected_issue(Some(issue));

    let shown = app.selected_issue.as_ref().unwrap();
    assert_eq!(shown.title, "Testing Ticket");
    assert_eq!(shown.identifier, "TEST-1");
    assert_eq!(app.scroll, 0);

    let lines = sidebar_lines(shown);
    assert_eq!(
        lines,
        vec![
            String::from("Priority:"),
            String::from("\u{f071}Urgent"),
            String::from(""),
            String::from("Status:"),
            String::from("\u{25cc} Backlogged"),
            String::from(""),
            String::from("Project:"),
            String::from("idkTest Project"),
            String::from(""),
            String::from("Assignee:"),
            String::from("Assignee Display Name"),
            String::from(""),
            String::from("Creator:"),
            String::from("You"),
            String::from(""),
        ]
    );
}

#[test]
fn created_date_formats_like_the_sidebar_title() {
    assert_eq!(
        created_date_text(&String::from("2025-05-10T03:09:51.740Z")),
        "05/10/2025"
    );
    // text that is not a date is shown as it came
    assert_eq!(
        created_date_text(&String::from("not a date")),
        "not a date"
    );
}

#[test]
fn sidebar_skips_absent_fields_and_lists_tags() {
    let mut issue = make_issue("T", "T-1");
    issue.assignee = None;
    issue.creator = None;
    issue.project = None;
    issue.priority_label = String::new();
    issue.state.name = String::new();
    issue.labels = IssueFragmentLabels {
        edges: vec![
            IssueFragmentLabelsEdges {
                node: IssueFragmentLabelsEdgesNode {
                    color: "#111111".into(),
                    name: "bug".into(),
                },
            },
            IssueFragmentLabelsEdges {
                node: IssueFragmentLabelsEdgesNode {
                    color: "#222222".into(),
                    name: "ui".into(),
                },
            },
        ],
    };
    let lines = sidebar_lines(&issue);
    assert_eq!(
        lines,
        vec![
            String::from("Tags:"),
            String::from("\u{2022} bug \u{2022} ui "),
            String::from(""),
        ]
    );
}

#[test]
fn description_scroll_saturates_and_resets_on_selection_change() {
    let mut app = SelectedIssueWidget::default();
    app.handle_event(Key::Up);
    assert_eq!(app.scroll, 0);
    app.handle_event(Key::Down);
    app.handle_event(Key::Down);
    assert_eq!(app.scroll, 2);
    app.handle_event(Key::Up);
    assert_eq!(app.scroll, 1);

    app.set_selected_issue(Some(make_issue("T", "T-1")));
    assert_eq!(app.scroll, 0);
}

#[test]
fn effective_scroll_is_clamped_and_disabled_for_short_content() {
    // content taller than the viewport scrolls, clamped to half its height
    assert_eq!(effective_scroll(3, 40, 20), (3, true));
    assert_eq!(effective_scroll(25, 40, 20), (20, true));
    // short content does not scroll
    assert_eq!(effective_scroll(5, 10, 20), (0, false));
}
