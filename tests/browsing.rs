use gitlab_browser::browser::{Action, BrowserState, Key};
use gitlab_browser::json::Json;
use gitlab_browser::project::{parse_projects, Project};

fn project(name: &str) -> Project {
    Project { name: name.to_string(), description: format!("{} text", name), web_url: format!("https://h/{}", name) }
}

fn browser(n: usize) -> BrowserState {
    BrowserState::new((0..n).map(|i| project(&format!("repo{}", i))).collect())
}

#[test]
fn single_project_scenario() {
    let node = Json::Object(vec![
        ("name".to_string(), Json::Str("A".to_string())),
        ("description".to_string(), Json::Str("d".to_string())),
        ("webUrl".to_string(), Json::Str("http://x".to_string())),
    ]);
    let nodes = Json::Object(vec![("nodes".to_string(), Json::Array(vec![node]))]);
    let projects = Json::Object(vec![("projects".to_string(), nodes)]);
    let response = Json::Object(vec![("data".to_string(), projects)]);
    let state = BrowserState::new(parse_projects(&response));
    assert_eq!(state.selection(), Some(0));
    assert_eq!(state.details_text().unwrap(), "Name: A\nDescription: d\nWeb URL: http://x");
    assert_eq!(state.project_names(), vec!["A".to_string()]);
}

#[test]
fn down_and_up_move_selection() {
    let mut state = browser(3);
    assert_eq!(state.handle_key(Key::Down), Action::Continue);
    assert_eq!(state.selection(), Some(1));
    state.handle_key(Key::Down);
    assert_eq!(state.selection(), Some(2));
    assert_eq!(state.details_text().unwrap(), "Name: repo2\nDescription: repo2 text\nWeb URL: https://h/repo2");
    state.handle_key(Key::Up);
    assert_eq!(state.selection(), Some(1));
}

#[test]
fn down_at_last_is_noop() {
    let mut state = browser(3);
    for _ in 0..10 {
        state.handle_key(Key::Down);
    }
    assert_eq!(state.selection(), Some(2));
}

#[test]
fn up_at_first_is_noop() {
    let mut state = browser(3);
    for _ in 0..5 {
        assert_eq!(state.handle_key(Key::Up), Action::Continue);
    }
    assert_eq!(state.selection(), Some(0));
}

#[test]
fn empty_list_has_no_selection_or_details() {
    let mut state = browser(0);
    assert_eq!(state.selection(), None);
    assert!(state.details_text().is_none());
    assert!(state.selected_project().is_none());
    assert_eq!(state.handle_key(Key::Down), Action::Continue);
    assert_eq!(state.handle_key(Key::Up), Action::Continue);
    assert_eq!(state.selection(), None);
    assert!(state.project_names().is_empty());
}

#[test]
fn escape_and_q_quit_in_any_state() {
    for n in 0..4 {
        for moves in 0..4 {
            for key in [Key::Esc, Key::Char('q')] {
                let mut state = browser(n);
                for _ in 0..moves {
                    state.handle_key(Key::Down);
                }
                let before = state.selection();
                assert_eq!(state.handle_key(key), Action::Quit);
                assert_eq!(state.selection(), before);
            }
        }
    }
}

#[test]
fn other_keys_are_ignored() {
    let mut state = browser(2);
    state.handle_key(Key::Down);
    assert_eq!(state.handle_key(Key::Other), Action::Continue);
    assert_eq!(state.handle_key(Key::Char('Q')), Action::Continue);
    assert_eq!(state.handle_key(Key::Char('j')), Action::Continue);
    assert_eq!(state.selection(), Some(1));
}

#[test]
fn names_follow_list_order() {
    let state = browser(3);
    assert_eq!(state.project_names(), vec!["repo0".to_string(), "repo1".to_string(), "repo2".to_string()]);
}
