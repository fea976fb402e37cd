use std::cell::Cell;
use std::rc::Rc;

use menu_rs::KeyEvent;
use menu_rs::Menu;
use menu_rs::MenuOption;
use menu_rs::NavState;

type Action = Box<dyn FnMut()>;

fn counting_option(label: &str, hits: &Rc<Cell<u32>>) -> MenuOption<Action> {
    let hits = hits.clone();
    MenuOption::new(label, Box::new(move || hits.set(hits.get() + 1)) as Action)
}

#[test]
fn option_builder_sets_label_and_no_hint() {
    let o = MenuOption::new("Option example", 0u32);
    assert_eq!(o.label, "Option example");
    assert!(o.hint.is_none());
    assert_eq!(o.action, 0u32);
}

#[test]
fn option_builder_hint_is_chainable() {
    let o = MenuOption::new("Option 1", 7u32).hint("Hint example");
    assert_eq!(o.label, "Option 1");
    assert_eq!(o.hint.as_deref(), Some("Hint example"));
    assert_eq!(o.action, 7u32);
}

#[test]
fn menu_builder_starts_active_at_zero_without_title() {
    let m = Menu::new(vec![MenuOption::new("A", 0u32), MenuOption::new("B", 1u32)]);
    assert_eq!(m.state, NavState::Active(0));
    assert!(m.title.is_none());
    assert_eq!(m.options.len(), 2);
}

#[test]
fn menu_builder_title_is_chainable() {
    let m = Menu::new(vec![MenuOption::new("A", 0u32)]).title("Title example");
    assert_eq!(m.title.as_deref(), Some("Title example"));
    assert_eq!(m.state, NavState::Active(0));
}

#[test]
fn down_moves_and_wraps_at_the_end() {
    let mut m = Menu::new(vec![
        MenuOption::new("A", 0u32),
        MenuOption::new("B", 1u32),
        MenuOption::new("C", 2u32),
    ]);
    m.handle_key(KeyEvent::Down);
    assert_eq!(m.state, NavState::Active(1));
    m.handle_key(KeyEvent::Down);
    assert_eq!(m.state, NavState::Active(2));
    m.handle_key(KeyEvent::Down);
    assert_eq!(m.state, NavState::Active(0));
}

#[test]
fn up_wraps_from_the_first_to_the_last() {
    let mut m = Menu::new(vec![
        MenuOption::new("A", 0u32),
        MenuOption::new("B", 1u32),
        MenuOption::new("C", 2u32),
    ]);
    m.handle_key(KeyEvent::Up);
    assert_eq!(m.state, NavState::Active(2));
    m.handle_key(KeyEvent::Down);
    assert_eq!(m.state, NavState::Active(0));
}

#[test]
fn full_cycle_returns_to_start_both_ways() {
    let mut m = Menu::new(vec![
        MenuOption::new("A", 0u32),
        MenuOption::new("B", 1u32),
        MenuOption::new("C", 2u32),
    ]);
    m.navigate(&vec![KeyEvent::Down; 3]);
    assert_eq!(m.state, NavState::Active(0));
    m.navigate(&vec![KeyEvent::Up; 3]);
    assert_eq!(m.state, NavState::Active(0));
}

#[test]
fn other_keys_are_ignored() {
    let mut m = Menu::new(vec![MenuOption::new("A", 0u32), MenuOption::new("B", 1u32)]);
    m.handle_key(KeyEvent::Other);
    assert_eq!(m.state, NavState::Active(0));
}

#[test]
fn scenario_down_down_enter_confirms_gamma_once() {
    let alpha = Rc::new(Cell::new(0u32));
    let beta = Rc::new(Cell::new(0u32));
    let gamma = Rc::new(Cell::new(0u32));
    let mut m = Menu::new(vec![
        counting_option("Alpha", &alpha),
        counting_option("Beta", &beta),
        counting_option("Gamma", &gamma),
    ]);
    m.navigate(&vec![KeyEvent::Down, KeyEvent::Down, KeyEvent::Enter]);
    assert_eq!(m.state, NavState::Confirmed(2));
    let mut action = m.into_selected_action().expect("a confirmed menu hands out an action");
    action();
    assert_eq!(alpha.get(), 0);
    assert_eq!(beta.get(), 0);
    assert_eq!(gamma.get(), 1);
}

#[test]
fn scenario_up_wraps_then_escape_cancels_without_action() {
    let alpha = Rc::new(Cell::new(0u32));
    let beta = Rc::new(Cell::new(0u32));
    let mut m = Menu::new(vec![counting_option("Alpha", &alpha), counting_option("Beta", &beta)]);
    m.handle_key(KeyEvent::Up);
    assert_eq!(m.state, NavState::Active(1));
    m.handle_key(KeyEvent::Escape);
    assert_eq!(m.state, NavState::Cancelled);
    assert!(m.into_selected_action().is_none());
    assert_eq!(alpha.get(), 0);
    assert_eq!(beta.get(), 0);
}

#[test]
fn scenario_single_option_down_is_a_no_op_and_enter_confirms() {
    let only = Rc::new(Cell::new(0u32));
    let mut m = Menu::new(vec![counting_option("Only", &only)]);
    m.handle_key(KeyEvent::Down);
    assert_eq!(m.state, NavState::Active(0));
    m.handle_key(KeyEvent::Enter);
    assert_eq!(m.state, NavState::Confirmed(0));
    let mut action = m.into_selected_action().expect("a confirmed menu hands out an action");
    action();
    assert_eq!(only.get(), 1);
}

#[test]
fn scenario_read_failure_cancels_without_action() {
    let alpha = Rc::new(Cell::new(0u32));
    let mut m = Menu::new(vec![counting_option("Alpha", &alpha)]);
    m.handle_read_failure();
    assert_eq!(m.state, NavState::Cancelled);
    assert!(m.into_selected_action().is_none());
    assert_eq!(alpha.get(), 0);
}

#[test]
fn escape_cancels_from_any_active_index() {
    for start in 0..3u32 {
        let mut m = Menu::new(vec![
            MenuOption::new("A", 0u32),
            MenuOption::new("B", 1u32),
            MenuOption::new("C", 2u32),
        ]);
        for _ in 0..start {
            m.handle_key(KeyEvent::Down);
        }
        m.handle_key(KeyEvent::Escape);
        assert_eq!(m.state, NavState::Cancelled);
        assert!(m.into_selected_action().is_none());
    }
}

#[test]
fn enter_confirms_the_current_index_and_hands_out_its_action() {
    let mut m = Menu::new(vec![
        MenuOption::new("A", 10u32),
        MenuOption::new("B", 11u32),
        MenuOption::new("C", 12u32),
    ]);
    m.navigate(&vec![KeyEvent::Down, KeyEvent::Enter]);
    assert_eq!(m.state, NavState::Confirmed(1));
    assert_eq!(m.into_selected_action(), Some(11u32));
}

#[test]
fn navigate_stops_at_the_first_terminal_state() {
    let mut m = Menu::new(vec![MenuOption::new("A", 0u32), MenuOption::new("B", 1u32)]);
    m.navigate(&vec![KeyEvent::Enter, KeyEvent::Down, KeyEvent::Escape]);
    assert_eq!(m.state, NavState::Confirmed(0));
}

#[test]
fn empty_menu_only_escape_ends_the_session() {
    let mut m = Menu::new(Vec::<MenuOption<u32>>::new());
    assert_eq!(m.state, NavState::Active(0));
    m.navigate(&vec![KeyEvent::Down, KeyEvent::Up, KeyEvent::Enter]);
    assert_eq!(m.state, NavState::Active(0));
    assert!(m.is_active());
    m.handle_key(KeyEvent::Escape);
    assert_eq!(m.state, NavState::Cancelled);
    assert!(m.into_selected_action().is_none());
}
