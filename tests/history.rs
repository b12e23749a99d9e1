use tour_lib::history::History;

const NEW_TAB: &str = "wabi://new-tab-page";

fn one_two_three() -> History {
    let mut history = History::new();
    history.navigate("1");
    history.navigate("2");
    history.navigate("3");
    history
}

fn seeded_one_two_three() -> History {
    let mut history = History::with_start_page(NEW_TAB);
    history.navigate("1");
    history.navigate("2");
    history.navigate("3");
    history
}

#[test]
fn empty_history_has_empty_path() {
    let mut history = History::new();
    assert_eq!(history.current_path(), "");
    assert_eq!(history.length(), 0);
    assert!(!history.can_go_back());
    assert!(!history.can_go_forward());
    history.back();
    history.forward();
    assert_eq!(history.current_path(), "");
    assert_eq!(history.length(), 0);
}

#[test]
fn each_visit_is_shown_and_counted() {
    let mut history = History::new();
    for (i, path) in ["a", "b", "c", "d"].iter().enumerate() {
        history.navigate(path);
        assert_eq!(history.current_path(), *path);
        assert_eq!(history.length(), i + 1);
        assert!(!history.can_go_forward());
    }
}

#[test]
fn each_visit_counts_beside_the_start_page() {
    let mut history = History::with_start_page(NEW_TAB);
    assert_eq!(history.current_path(), NEW_TAB);
    assert_eq!(history.length(), 1);
    history.navigate("x");
    assert_eq!(history.current_path(), "x");
    assert_eq!(history.length(), 2);
    history.navigate("y");
    assert_eq!(history.current_path(), "y");
    assert_eq!(history.length(), 3);
}

#[test]
fn back_past_first_entry_changes_nothing() {
    let mut history = one_two_three();
    history.back();
    history.back();
    assert_eq!(history.current_path(), "1");
    assert!(!history.can_go_back());
    for _ in 0..5 {
        history.back();
        assert_eq!(history.current_path(), "1");
        assert_eq!(history.length(), 3);
    }
}

#[test]
fn forward_past_last_entry_changes_nothing() {
    let mut history = one_two_three();
    assert!(!history.can_go_forward());
    for _ in 0..5 {
        history.forward();
        assert_eq!(history.current_path(), "3");
        assert_eq!(history.length(), 3);
    }
}

#[test]
fn new_visit_after_going_back_truncates() {
    let mut history = History::new();
    history.navigate("A");
    history.navigate("B");
    history.navigate("C");
    history.back();
    history.back();
    history.navigate("D");
    assert_eq!(history.length(), 2);
    assert_eq!(history.current_path(), "D");
    assert!(!history.can_go_forward());
    history.forward();
    assert_eq!(history.current_path(), "D");
    history.back();
    assert_eq!(history.current_path(), "A");
}

#[test]
fn visit_back_forward_returns_to_visit() {
    let mut history = one_two_three();
    history.back();
    history.navigate("x");
    history.back();
    assert_eq!(history.current_path(), "2");
    history.forward();
    assert_eq!(history.current_path(), "x");

    let mut fresh = History::new();
    fresh.navigate("x");
    fresh.back();
    fresh.forward();
    assert_eq!(fresh.current_path(), "x");
}

#[test]
fn seeded_empty_scenario() {
    let mut history = one_two_three();
    assert_eq!(history.current_path(), "3");
    assert_eq!(history.length(), 3);
    history.back();
    assert_eq!(history.current_path(), "2");
    history.back();
    history.back();
    assert_eq!(history.current_path(), "1");
    history.forward();
    history.forward();
    assert_eq!(history.current_path(), "3");
}

#[test]
fn truncate_then_branch_scenario() {
    let mut history = one_two_three();
    history.back();
    history.back();
    assert_eq!(history.current_path(), "1");
    history.navigate("4");
    assert_eq!(history.length(), 2);
    assert_eq!(history.current_path(), "4");
    assert!(!history.can_go_forward());
    history.back();
    assert_eq!(history.current_path(), "1");
}

#[test]
fn equal_paths_are_not_merged() {
    let mut history = History::new();
    history.navigate("same");
    history.navigate("same");
    assert_eq!(history.length(), 2);
    assert!(history.can_go_back());
    history.back();
    assert_eq!(history.current_path(), "same");
    assert!(!history.can_go_back());
}

#[test]
fn can_go_back_and_forward_follow_cursor() {
    let mut history = one_two_three();
    assert!(history.can_go_back());
    assert!(!history.can_go_forward());
    history.back();
    assert!(history.can_go_back());
    assert!(history.can_go_forward());
    history.back();
    assert!(!history.can_go_back());
    assert!(history.can_go_forward());
}

#[test]
fn seeded_walk_through() {
    let mut history = seeded_one_two_three();
    history.back();
    history.back();
    history.back();
    assert_eq!(history.current_path(), NEW_TAB);
    history.forward();
    assert_eq!(history.current_path(), "1");
    history.navigate("4");
    assert_eq!(history.current_path(), "4");
    history.back();
    assert_eq!(history.current_path(), "1");
    history.forward();
    history.forward();
    assert_eq!(history.current_path(), "4");
}

#[test]
fn seeded_start_page_then_visit() {
    let mut history = History::with_start_page(NEW_TAB);
    assert_eq!(history.current_path(), NEW_TAB);
    assert!(!history.can_go_back());
    history.navigate("1");
    assert_eq!(history.current_path(), "1");
}

#[test]
fn seeded_back_and_forward_keep_length() {
    let mut history = seeded_one_two_three();
    assert_eq!(history.current_path(), "3");
    assert_eq!(history.length(), 4);
    history.back();
    assert_eq!(history.current_path(), "2");
    history.back();
    history.back();
    history.back();
    assert_eq!(history.current_path(), NEW_TAB);
    assert_eq!(history.length(), 4);
    history.forward();
    history.forward();
    history.forward();
    history.forward();
    assert_eq!(history.current_path(), "3");
    assert_eq!(history.length(), 4);
}

#[test]
fn seeded_back_once_then_forward_twice() {
    let mut history = seeded_one_two_three();
    history.back();
    history.forward();
    assert_eq!(history.current_path(), "3");
    history.forward();
    assert_eq!(history.current_path(), "3");
    assert_eq!(history.length(), 4);
}

#[test]
fn visits_follow_the_start_entries() {
    let mut history = History::with_start_page(NEW_TAB);
    history.navigate("p1");
    history.navigate("p2");
    history.navigate("p3");
    assert_eq!(history.length(), 4);
    assert_eq!(history.current_path(), "p3");
    history.back();
    assert_eq!(history.current_path(), "p2");
    history.back();
    assert_eq!(history.current_path(), "p1");
    history.back();
    assert_eq!(history.current_path(), NEW_TAB);
}

#[test]
fn cloned_history_is_independent() {
    let mut history = one_two_three();
    let copy = history.clone();
    history.back();
    assert_eq!(history.current_path(), "2");
    assert_eq!(copy.current_path(), "3");
    assert_eq!(copy.length(), 3);
}
