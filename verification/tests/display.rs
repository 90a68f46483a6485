use promkit::grapheme::StyledGraphemes;
use promkit::pane::Pane;
use promkit_async::display_coordinator::DisplayCoordinator;
use promkit_async::prompt::{intake, is_quit_key, react, route, Intake, PaneSlots, Reaction, Route};
use promkit_async::event::{
    KeyCode, KeyEvent, KeyEventKind, KeyEventState, KeyModifiers, OtherInput, RawEvent,
};
use promkit_async::{Action, PaneIndex, PANESIZE};

fn press(code: KeyCode, modifiers: KeyModifiers) -> RawEvent {
    RawEvent::Key(KeyEvent {
        code,
        modifiers,
        kind: KeyEventKind::Press,
        state: KeyEventState::none(),
    })
}

fn rows(pane: &Pane) -> Vec<Vec<char>> {
    pane.extract(pane.visible_row_count())
        .iter()
        .map(|row| row.chars())
        .collect()
}

#[test]
fn pane_index_names_four_slots() {
    assert_eq!(PANESIZE, 4);
    assert_eq!(PaneIndex::Editor.index(), 0);
    assert_eq!(PaneIndex::Hint.index(), 1);
    assert_eq!(PaneIndex::Suggst.index(), 2);
    assert_eq!(PaneIndex::Data.index(), 3);
    assert_eq!(PaneIndex::Data.index() + 1, PANESIZE);
}

#[test]
fn coordinator_starts_with_given_panes() {
    let coordinator = DisplayCoordinator::new(vec!["a", "b", "c"]);
    assert_eq!(coordinator.len(), 3);
    assert_eq!(*coordinator.panes(), vec!["a", "b", "c"]);
    assert_eq!(coordinator.active_slots(), Vec::<usize>::new());
}

#[test]
fn coordinator_shows_only_the_newest_version() {
    let mut coordinator = DisplayCoordinator::new(vec!["a", "b"]);
    coordinator.activate(1, 1);
    assert_eq!(coordinator.active_slots(), vec![1]);
    coordinator.activate(2, 0);
    assert_eq!(coordinator.active_slots(), vec![0, 1]);
    assert!(!coordinator.place(1, 1, "stale"));
    assert_eq!(*coordinator.panes(), vec!["a", "b"]);
    assert_eq!(coordinator.active_slots(), vec![0, 1]);
    assert!(coordinator.place(2, 1, "fresh"));
    assert_eq!(*coordinator.panes(), vec!["a", "fresh"]);
    assert_eq!(coordinator.active_slots(), vec![0]);
    assert!(coordinator.place(3, 0, "newer"));
    assert_eq!(*coordinator.panes(), vec!["newer", "fresh"]);
    assert_eq!(coordinator.active_slots(), Vec::<usize>::new());
}

#[test]
fn coordinator_ignores_an_announcement_that_is_not_newer() {
    let mut coordinator = DisplayCoordinator::new(vec![0u8, 0]);
    coordinator.activate(0, 0);
    assert_eq!(coordinator.active_slots(), Vec::<usize>::new());
    coordinator.activate(5, 0);
    coordinator.activate(5, 1);
    coordinator.activate(4, 1);
    assert_eq!(coordinator.active_slots(), vec![0]);
}

#[test]
fn coordinator_spinner_turns_per_slot() {
    let mut coordinator = DisplayCoordinator::new(vec!['-', '-']);
    assert_eq!(coordinator.spin(0), None);
    coordinator.activate(1, 0);
    assert_eq!(coordinator.spin(0), Some('⠋'));
    assert_eq!(coordinator.spin(0), Some('⠙'));
    assert_eq!(coordinator.spin(1), None);
    coordinator.show(0, '⠙');
    assert_eq!(*coordinator.panes(), vec!['⠙', '-']);
    assert_eq!(coordinator.active_slots(), vec![0]);
    assert!(coordinator.place(1, 0, 'x'));
    assert_eq!(coordinator.spin(0), None);
    coordinator.activate(2, 0);
    assert_eq!(coordinator.spin(0), Some('⠹'));
}

#[test]
fn coordinator_spin_pane_lays_out_the_frame() {
    let blank = || Pane::new(vec![], 0);
    let mut coordinator = DisplayCoordinator::new(vec![blank(), blank()]);
    assert!(!coordinator.spin_pane(1, (80, 24)));
    assert!(coordinator.panes()[1].is_empty());
    coordinator.activate(1, 1);
    assert!(coordinator.spin_pane(1, (80, 24)));
    assert_eq!(rows(&coordinator.panes()[1]), vec![vec!['⠋']]);
    assert!(coordinator.panes()[0].is_empty());
    assert!(coordinator.spin_pane(1, (80, 24)));
    assert_eq!(rows(&coordinator.panes()[1]), vec![vec!['⠙']]);
    let expected = StyledGraphemes::from("⠹").matrixify(0, 24, 0).0;
    assert!(coordinator.spin_pane(1, (0, 24)));
    assert_eq!(coordinator.panes()[1].visible_row_count(), expected.len());
}

#[test]
fn esc_alone_is_the_quit_key() {
    assert!(is_quit_key(&press(KeyCode::Esc, KeyModifiers::none())));
    assert!(!is_quit_key(&press(KeyCode::Esc, KeyModifiers::shift())));
    assert!(!is_quit_key(&press(KeyCode::Char('c'), KeyModifiers::control())));
    assert!(!is_quit_key(&press(KeyCode::Enter, KeyModifiers::none())));
    assert!(!is_quit_key(&RawEvent::Resize(1, 1)));
    let released = RawEvent::Key(KeyEvent {
        code: KeyCode::Esc,
        modifiers: KeyModifiers::none(),
        kind: KeyEventKind::Release,
        state: KeyEventState::none(),
    });
    assert!(!is_quit_key(&released));
}

#[test]
fn intake_stops_on_esc_and_on_the_end_of_input() {
    let esc = press(KeyCode::Esc, KeyModifiers::none());
    let enter = press(KeyCode::Enter, KeyModifiers::none());
    assert_eq!(intake(None), Intake::Stop);
    assert_eq!(intake(Some(esc)), Intake::Stop);
    assert_eq!(intake(Some(enter)), Intake::Forward(enter));
    assert_eq!(
        intake(Some(RawEvent::Resize(80, 24))),
        Intake::Forward(RawEvent::Resize(80, 24))
    );
}

#[test]
fn route_sends_resizes_to_the_debouncer() {
    let enter = press(KeyCode::Enter, KeyModifiers::none());
    let focus = RawEvent::Other(OtherInput::FocusLost);
    assert_eq!(route(RawEvent::Resize(80, 24)), Route::Resize(80, 24));
    assert_eq!(route(enter), Route::Editor(enter));
    assert_eq!(route(focus), Route::Editor(focus));
}

#[test]
fn react_follows_the_action() {
    assert_eq!(
        react(Action::Nothing),
        Reaction { quit: false, send_query: false, redraw: false }
    );
    assert_eq!(
        react(Action::Quit),
        Reaction { quit: true, send_query: false, redraw: false }
    );
    assert_eq!(
        react(Action::MoveCursor),
        Reaction { quit: false, send_query: false, redraw: true }
    );
    assert_eq!(
        react(Action::ChangeText),
        Reaction { quit: false, send_query: true, redraw: true }
    );
}

#[test]
fn pane_slots_overwrite_by_index() {
    let mut slots = PaneSlots::new(vec!["editor", "hint", "suggest", "data"]);
    assert_eq!(slots.len(), 4);
    slots.place(PaneIndex::Data.index(), "json");
    assert_eq!(*slots.panes(), vec!["editor", "hint", "suggest", "json"]);
    slots.place(0, "text");
    slots.place(0, "text2");
    assert_eq!(*slots.panes(), vec!["text2", "hint", "suggest", "json"]);
}
