use promkit_async::editor::Command;
use promkit_async::event::{
    Event, KeyCode, KeyEvent, KeyEventKind, KeyEventState, KeyModifiers, RawEvent,
};
use promkit_async::keymap::Edit;
use promkit_async::Action;

fn press(code: KeyCode, modifiers: KeyModifiers) -> RawEvent {
    RawEvent::Key(KeyEvent {
        code,
        modifiers,
        kind: KeyEventKind::Press,
        state: KeyEventState::none(),
    })
}

fn plain(code: KeyCode) -> RawEvent {
    press(code, KeyModifiers::none())
}

fn ctrl(ch: char) -> RawEvent {
    press(KeyCode::Char(ch), KeyModifiers::control())
}

fn alt(ch: char) -> RawEvent {
    press(KeyCode::Char(ch), KeyModifiers::alt())
}

#[test]
fn editor_binding_table() {
    assert_eq!(promkit_async::editor::default(&ctrl('c')), Command::Quit);
    assert_eq!(promkit_async::editor::default(&plain(KeyCode::Left)), Command::Backward);
    assert_eq!(promkit_async::editor::default(&plain(KeyCode::Right)), Command::Forward);
    assert_eq!(promkit_async::editor::default(&ctrl('a')), Command::MoveToHead);
    assert_eq!(promkit_async::editor::default(&ctrl('e')), Command::MoveToTail);
    assert_eq!(promkit_async::editor::default(&alt('b')), Command::MoveToPreviousNearest);
    assert_eq!(promkit_async::editor::default(&alt('f')), Command::MoveToNextNearest);
    assert_eq!(promkit_async::editor::default(&plain(KeyCode::Backspace)), Command::Erase);
    assert_eq!(promkit_async::editor::default(&ctrl('u')), Command::EraseAll);
    assert_eq!(promkit_async::editor::default(&ctrl('w')), Command::EraseToPreviousNearest);
    assert_eq!(promkit_async::editor::default(&alt('d')), Command::EraseToNextNearest);
    assert_eq!(promkit_async::editor::default(&plain(KeyCode::Char('x'))), Command::Type('x'));
    assert_eq!(
        promkit_async::editor::default(&press(KeyCode::Char('X'), KeyModifiers::shift())),
        Command::Type('X')
    );
    assert_eq!(promkit_async::editor::default(&plain(KeyCode::Char('c'))), Command::Type('c'));
}

#[test]
fn editor_binding_ignores_the_rest() {
    assert_eq!(promkit_async::editor::default(&plain(KeyCode::Enter)), Command::Ignore);
    assert_eq!(promkit_async::editor::default(&plain(KeyCode::Up)), Command::Ignore);
    assert_eq!(promkit_async::editor::default(&ctrl('x')), Command::Ignore);
    assert_eq!(promkit_async::editor::default(&alt('x')), Command::Ignore);
    assert_eq!(promkit_async::editor::default(&press(KeyCode::Left, KeyModifiers::shift())), Command::Ignore);
    assert_eq!(promkit_async::editor::default(&press(KeyCode::Backspace, KeyModifiers::control())), Command::Ignore);
    assert_eq!(
        promkit_async::editor::default(&press(KeyCode::Char('c'), KeyModifiers { bits: 3 })),
        Command::Ignore
    );
    assert_eq!(promkit_async::editor::default(&RawEvent::Resize(80, 24)), Command::Ignore);
    let released = RawEvent::Key(KeyEvent {
        code: KeyCode::Char('c'),
        modifiers: KeyModifiers::control(),
        kind: KeyEventKind::Release,
        state: KeyEventState::none(),
    });
    assert_eq!(promkit_async::editor::default(&released), Command::Ignore);
    let with_caps = RawEvent::Key(KeyEvent {
        code: KeyCode::Char('a'),
        modifiers: KeyModifiers::none(),
        kind: KeyEventKind::Press,
        state: KeyEventState { bits: 2 },
    });
    assert_eq!(promkit_async::editor::default(&with_caps), Command::Ignore);
}

#[test]
fn command_actions() {
    assert_eq!(Command::Ignore.action(), Action::Nothing);
    assert_eq!(Command::Quit.action(), Action::Quit);
    for command in [
        Command::Backward,
        Command::Forward,
        Command::MoveToHead,
        Command::MoveToTail,
        Command::MoveToPreviousNearest,
        Command::MoveToNextNearest,
    ] {
        assert_eq!(command.action(), Action::MoveCursor);
    }
    for command in [
        Command::Erase,
        Command::EraseAll,
        Command::EraseToPreviousNearest,
        Command::EraseToNextNearest,
        Command::Type('q'),
    ] {
        assert_eq!(command.action(), Action::ChangeText);
    }
}

#[test]
fn batch_binding_gives_edits_in_order() {
    let batch = vec![
        Event::KeyBuffer(vec!['a', 'b']),
        Event::VerticalCursorBuffer(1, 0),
        Event::HorizontalCursorBuffer(2, 1),
        Event::Others(plain(KeyCode::Backspace), 3),
        Event::Others(ctrl('a'), 2),
        Event::Others(ctrl('e'), 1),
        Event::Others(ctrl('u'), 1),
        Event::Others(plain(KeyCode::Enter), 1),
        Event::LastResize(80, 24),
        Event::KeyBuffer(vec!['c']),
    ];
    assert_eq!(
        promkit_async::keymap::default(&batch),
        vec![
            Edit::Type(vec!['a', 'b']),
            Edit::Shift(2, 1),
            Edit::Erase(3),
            Edit::MoveToHead,
            Edit::MoveToTail,
            Edit::EraseAll,
            Edit::Type(vec!['c']),
        ]
    );
    assert_eq!(promkit_async::keymap::default(&vec![]), Vec::<Edit>::new());
}

#[test]
fn batch_binding_wants_exact_modifiers() {
    let batch = vec![
        Event::Others(press(KeyCode::Backspace, KeyModifiers::control()), 1),
        Event::Others(plain(KeyCode::Char('a')), 1),
        Event::Others(alt('u'), 1),
    ];
    assert_eq!(promkit_async::keymap::default(&batch), Vec::<Edit>::new());
}

#[test]
fn movement_binding_keeps_horizontal_moves_only() {
    let batch = vec![
        Event::KeyBuffer(vec!['a']),
        Event::HorizontalCursorBuffer(0, 4),
        Event::Others(ctrl('a'), 1),
        Event::HorizontalCursorBuffer(3, 0),
    ];
    assert_eq!(
        promkit_async::keymap::movement(&batch),
        vec![Edit::Shift(0, 4), Edit::Shift(3, 0)]
    );
}
