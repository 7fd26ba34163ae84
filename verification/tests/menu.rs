use task_tracker::menu::{select, MenuChoice, Selection};

#[test]
fn select_numbers_the_actions_from_one_to_eight() {
    assert_eq!(select("1"), Selection::Chosen(MenuChoice::Add));
    assert_eq!(select("2"), Selection::Chosen(MenuChoice::Remove));
    assert_eq!(select("3"), Selection::Chosen(MenuChoice::ViewAll));
    assert_eq!(select("4"), Selection::Chosen(MenuChoice::ViewCompleted));
    assert_eq!(select("5"), Selection::Chosen(MenuChoice::ViewPending));
    assert_eq!(select("6"), Selection::Chosen(MenuChoice::MarkComplete));
    assert_eq!(select("7"), Selection::Chosen(MenuChoice::ChangePriority));
    assert_eq!(select("8"), Selection::Chosen(MenuChoice::Exit));
}

#[test]
fn select_ignores_white_space_around_the_number() {
    assert_eq!(select("3\n"), Selection::Chosen(MenuChoice::ViewAll));
    assert_eq!(select("  8\r\n"), Selection::Chosen(MenuChoice::Exit));
    assert_eq!(select("\t+1 "), Selection::Chosen(MenuChoice::Add));
    assert_eq!(select("007\n"), Selection::Chosen(MenuChoice::ChangePriority));
}

#[test]
fn select_tells_numbers_without_an_action() {
    for line in ["0", "9", "10", "-1", "-8", "100\n", "2147483647", "-2147483648", "-0"] {
        assert_eq!(select(line), Selection::OutOfRange, "{:?}", line);
    }
}

#[test]
fn select_tells_what_is_not_a_number() {
    for line in ["", "\n", "   ", "one", "1 2", "1.0", "3x", "x3", "2147483648", "-2147483649", "+", "-"] {
        assert_eq!(select(line), Selection::NotANumber, "{:?}", line);
    }
}
