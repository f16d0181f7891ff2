use linear_tui::events::{Key, TabChangeEvent};
use linear_tui::tab_widget::{Tab, TabType, TabWidget, tab_label};
use linear_tui::views::ViewFragment;

fn view(id: &str, name: &str) -> ViewFragment {
    ViewFragment {
        id: String::from(id),
        name: String::from(name),
        color: Some(String::from("#fa0faf")),
        icon: Some(String::from("Education")),
        slug_id: Some(String::from(id)),
    }
}

fn custom_tab(id: &str, name: &str) -> Tab {
    Tab {
        title: String::from(name),
        tab_type: TabType::CustomView,
        custom_view: Some(view(id, name)),
    }
}

#[test]
fn tab_widget_test_empty_state() {
    let mut app = TabWidget::default();
    assert_eq!(app.tabs.len(), 1);
    let (label, color) = tab_label(&app.tabs[0]);
    assert_eq!(label, "idk My Issues");
    assert_eq!(color, "#FFFFFF");

    let ev = app.handle_event(Key::Tab);
    assert_eq!(ev, TabChangeEvent::FetchMyIssues);

    let ev = app.handle_event(Key::Char('j'));
    assert_eq!(ev, TabChangeEvent::Nothing);
}

#[test]
fn test_multi_tabs() {
    let mut app = TabWidget {
        selected_index: 0,
        tabs: vec![
            Tab {
                title: String::from("My Issues"),
                tab_type: TabType::MyIssues,
                custom_view: None,
            },
            custom_tab("sluga", "Custom A"),
            custom_tab("slugb", "Custom B"),
        ],
    };

    // should go to tab a
    let ev = app.handle_event(Key::Tab);
    assert_eq!(
        ev,
        TabChangeEvent::FetchCustomViewIssues(ViewFragment {
            name: String::from("sluga"),
            slug_id: Some(String::from("sluga")),
            color: Some(String::from("#fa0faf")),
            icon: Some(String::from("Education")),
            id: String::from("sluga"),
        })
    );

    // then to b
    let ev = app.handle_event(Key::Tab);
    assert_eq!(
        ev,
        TabChangeEvent::FetchCustomViewIssues(ViewFragment {
            name: String::from("slugb"),
            slug_id: Some(String::from("slugb")),
            color: Some(String::from("#fa0faf")),
            icon: Some(String::from("Education")),
            id: String::from("slugb"),
        })
    );

    // but not passed b
    let ev = app.handle_event(Key::Tab);
    assert_eq!(
        ev,
        TabChangeEvent::FetchCustomViewIssues(ViewFragment {
            name: String::from("slugb"),
            slug_id: Some(String::from("slugb")),
            color: Some(String::from("#fa0faf")),
            icon: Some(String::from("Education")),
            id: String::from("slugb"),
        })
    );

    // then back to a
    let ev = app.handle_event(Key::BackTab);
    assert_eq!(
        ev,
        TabChangeEvent::FetchCustomViewIssues(ViewFragment {
            name: String::from("sluga"),
            slug_id: Some(String::from("sluga")),
            color: Some(String::from("#fa0faf")),
            icon: Some(String::from("Education")),
            id: String::from("sluga"),
        })
    );

    let ev = app.handle_event(Key::BackTab);
    assert_eq!(ev, TabChangeEvent::FetchMyIssues);
}

#[test]
fn saved_views_populate_tabs_without_wraparound() {
    let mut app = TabWidget::default();
    app.add_custom_views(vec![view("a", "Custom A"), view("b", "Custom B")]);
    assert_eq!(app.tabs.len(), 3);
    assert_eq!(app.tabs[1].title, "Custom A");
    assert_eq!(app.tabs[2].title, "Custom B");

    // Tab twice from the default tab lands on Custom B
    app.handle_event(Key::Tab);
    app.handle_event(Key::Tab);
    assert_eq!(app.selected_index, 2);
    assert_eq!(app.tabs[app.selected_index].title, "Custom B");

    // a third press stays on Custom B: no wraparound
    app.handle_event(Key::Tab);
    assert_eq!(app.selected_index, 2);
    assert_eq!(app.tabs[app.selected_index].title, "Custom B");

    // BackTab twice returns to the default tab
    app.handle_event(Key::BackTab);
    app.handle_event(Key::BackTab);
    assert_eq!(app.selected_index, 0);
    assert_eq!(app.tabs[0].title, "My Issues");
}

#[test]
fn search_tab_is_revealed_once_and_stays_trailing() {
    let mut app = TabWidget::default();
    app.show_and_select_search_tab();
    assert_eq!(app.tabs.len(), 2);
    assert_eq!(app.tabs[1].title, "Search Results");
    assert_eq!(app.tabs[1].tab_type, TabType::SearchResults);
    assert_eq!(app.selected_index, 1);

    // idempotent: a second reveal creates no duplicate
    app.show_and_select_search_tab();
    assert_eq!(app.tabs.len(), 2);
    assert_eq!(app.selected_index, 1);

    // saved views arriving later keep the search tab trailing
    app.add_custom_views(vec![view("a", "Custom A")]);
    assert_eq!(app.tabs.len(), 3);
    assert_eq!(app.tabs[1].title, "Custom A");
    assert_eq!(app.tabs[2].tab_type, TabType::SearchResults);
    assert_eq!(app.selected_index, 2);
}

#[test]
fn tab_labels_carry_view_icon_and_color() {
    let t = custom_tab("sluga", "Custom A");
    let (label, color) = tab_label(&t);
    assert_eq!(label, "idk Custom A");
    assert_eq!(color, "#fa0faf");

    let undecorated = Tab {
        title: String::from("Bare"),
        tab_type: TabType::CustomView,
        custom_view: Some(ViewFragment {
            id: String::from("x"),
            name: String::from("Bare"),
            color: None,
            icon: None,
            slug_id: None,
        }),
    };
    let (label, color) = tab_label(&undecorated);
    assert_eq!(label, " Bare");
    assert_eq!(color, "#ffffff");
}
