use promkit_async::event::{
    Event, KeyCode, KeyEvent, KeyEventKind, KeyEventState, KeyModifiers, MouseButton, MouseEvent,
    MouseEventKind, OtherInput, RawEvent,
};
use promkit_async::operator::{Step, TimeBasedOperator, Wake};

fn press(code: KeyCode, modifiers: KeyModifiers) -> RawEvent {
    RawEvent::Key(KeyEvent {
        code,
        modifiers,
        kind: KeyEventKind::Press,
        state: KeyEventState::none(),
    })
}

fn plain(code: KeyCode) -> RawEvent {
    press(code, KeyModifiers::none())
}

fn typed(ch: char) -> RawEvent {
    plain(KeyCode::Char(ch))
}

fn ctrl(ch: char) -> RawEvent {
    press(KeyCode::Char(ch), KeyModifiers::control())
}

fn scenario_events() -> Vec<RawEvent> {
    vec![
        typed('a'),
        press(KeyCode::Char('B'), KeyModifiers::shift()),
        typed('c'),
        RawEvent::Resize(128, 128),
        plain(KeyCode::Up),
        plain(KeyCode::Down),
        plain(KeyCode::Up),
        plain(KeyCode::Left),
        plain(KeyCode::Right),
        plain(KeyCode::Left),
        ctrl('f'),
        ctrl('f'),
        ctrl('f'),
        ctrl('d'),
        plain(KeyCode::Up),
        RawEvent::Resize(64, 64),
        typed('d'),
    ]
}

#[test]
fn operator_test() {
    let events = scenario_events();

    // The resize group carries the size of the last resize and stands where
    // the first resize came: behind the one group that was complete then.
    let expected = vec![
        Event::KeyBuffer(vec!['a', 'B', 'c']),
        Event::LastResize(64, 64),
        Event::VerticalCursorBuffer(2, 1),
        Event::HorizontalCursorBuffer(2, 1),
        Event::Others(ctrl('f'), 3),
        Event::Others(ctrl('d'), 1),
        Event::VerticalCursorBuffer(1, 0),
        Event::KeyBuffer(vec!['d']),
    ];

    assert_eq!(TimeBasedOperator::process_events(&events), expected);
}

#[test]
fn operator_test_only_others() {
    let events = vec![plain(KeyCode::Enter)];

    let expected = vec![Event::Others(plain(KeyCode::Enter), 1)];

    assert_eq!(TimeBasedOperator::process_events(&events), expected);
}

#[test]
fn single_resize_stands_where_it_came() {
    let mut events = scenario_events();
    events.remove(3);

    let expected = vec![
        Event::KeyBuffer(vec!['a', 'B', 'c']),
        Event::VerticalCursorBuffer(2, 1),
        Event::HorizontalCursorBuffer(2, 1),
        Event::Others(ctrl('f'), 3),
        Event::Others(ctrl('d'), 1),
        Event::VerticalCursorBuffer(1, 0),
        Event::LastResize(64, 64),
        Event::KeyBuffer(vec!['d']),
    ];

    assert_eq!(TimeBasedOperator::process_events(&events), expected);
}

#[test]
fn empty_window_gives_empty_batch() {
    assert_eq!(TimeBasedOperator::process_events(&vec![]), vec![]);
}

#[test]
fn resize_alone_gives_one_group() {
    let events = vec![RawEvent::Resize(80, 24), RawEvent::Resize(100, 30)];
    assert_eq!(
        TimeBasedOperator::process_events(&events),
        vec![Event::LastResize(100, 30)]
    );
}

#[test]
fn resize_at_the_front_leads_the_batch() {
    let events = vec![RawEvent::Resize(80, 24), typed('x'), RawEvent::Resize(81, 25)];
    assert_eq!(
        TimeBasedOperator::process_events(&events),
        vec![Event::LastResize(81, 25), Event::KeyBuffer(vec!['x'])]
    );
}

#[test]
fn later_resize_cuts_a_run_in_two() {
    let events = vec![
        typed('a'),
        RawEvent::Resize(1, 1),
        typed('b'),
        RawEvent::Resize(2, 2),
        typed('c'),
    ];
    assert_eq!(
        TimeBasedOperator::process_events(&events),
        vec![
            Event::KeyBuffer(vec!['a']),
            Event::LastResize(2, 2),
            Event::KeyBuffer(vec!['b']),
            Event::KeyBuffer(vec!['c']),
        ]
    );
}

#[test]
fn batch_has_no_blank_group_and_neighbours_differ() {
    let events = vec![
        typed('a'),
        typed('b'),
        plain(KeyCode::Up),
        plain(KeyCode::Up),
        plain(KeyCode::Left),
        plain(KeyCode::Enter),
        plain(KeyCode::Enter),
        plain(KeyCode::Tab),
        typed('c'),
    ];
    let batch = TimeBasedOperator::process_events(&events);
    assert_eq!(
        batch,
        vec![
            Event::KeyBuffer(vec!['a', 'b']),
            Event::VerticalCursorBuffer(2, 0),
            Event::HorizontalCursorBuffer(1, 0),
            Event::Others(plain(KeyCode::Enter), 2),
            Event::Others(plain(KeyCode::Tab), 1),
            Event::KeyBuffer(vec!['c']),
        ]
    );
    for group in &batch {
        match group {
            Event::KeyBuffer(chars) => assert!(!chars.is_empty()),
            Event::VerticalCursorBuffer(up, down) => assert!(up + down > 0),
            Event::HorizontalCursorBuffer(left, right) => assert!(left + right > 0),
            Event::Others(_, count) => assert!(*count >= 1),
            Event::LastResize(_, _) => {}
        }
    }
    for pair in batch.windows(2) {
        let same = match (&pair[0], &pair[1]) {
            (Event::KeyBuffer(_), Event::KeyBuffer(_)) => true,
            (Event::VerticalCursorBuffer(_, _), Event::VerticalCursorBuffer(_, _)) => true,
            (Event::HorizontalCursorBuffer(_, _), Event::HorizontalCursorBuffer(_, _)) => true,
            (Event::Others(first, _), Event::Others(second, _)) => first == second,
            _ => false,
        };
        assert!(!same);
    }
}

#[test]
fn grouping_is_repeatable() {
    let events = scenario_events();
    assert_eq!(
        TimeBasedOperator::process_events(&events),
        TimeBasedOperator::process_events(&events)
    );
}

#[test]
fn typed_character_needs_plain_press() {
    let with_alt = press(KeyCode::Char('x'), KeyModifiers::alt());
    let released = RawEvent::Key(KeyEvent {
        code: KeyCode::Char('x'),
        modifiers: KeyModifiers::none(),
        kind: KeyEventKind::Release,
        state: KeyEventState::none(),
    });
    let on_keypad = RawEvent::Key(KeyEvent {
        code: KeyCode::Char('1'),
        modifiers: KeyModifiers::none(),
        kind: KeyEventKind::Press,
        state: KeyEventState { bits: 1 },
    });
    let shift_control = press(KeyCode::Char('x'), KeyModifiers { bits: 3 });
    assert_eq!(TimeBasedOperator::extract_char(&typed('x')), Some('x'));
    assert_eq!(
        TimeBasedOperator::extract_char(&press(KeyCode::Char('X'), KeyModifiers::shift())),
        Some('X')
    );
    assert_eq!(TimeBasedOperator::extract_char(&with_alt), None);
    assert_eq!(TimeBasedOperator::extract_char(&released), None);
    assert_eq!(TimeBasedOperator::extract_char(&on_keypad), None);
    assert_eq!(TimeBasedOperator::extract_char(&shift_control), None);
    assert_eq!(TimeBasedOperator::extract_char(&plain(KeyCode::Enter)), None);
    assert_eq!(TimeBasedOperator::extract_char(&RawEvent::Resize(1, 2)), None);
    assert_eq!(
        TimeBasedOperator::process_events(&vec![with_alt, with_alt, released]),
        vec![Event::Others(with_alt, 2), Event::Others(released, 1)]
    );
}

#[test]
fn arrows_count_whatever_their_modifiers() {
    let up = press(KeyCode::Up, KeyModifiers::control());
    let down = RawEvent::Key(KeyEvent {
        code: KeyCode::Down,
        modifiers: KeyModifiers::shift(),
        kind: KeyEventKind::Repeat,
        state: KeyEventState::none(),
    });
    assert_eq!(TimeBasedOperator::detect_vertical_direction(&up), Some((1, 0)));
    assert_eq!(TimeBasedOperator::detect_vertical_direction(&down), Some((0, 1)));
    assert_eq!(TimeBasedOperator::detect_vertical_direction(&plain(KeyCode::Left)), None);
    assert_eq!(
        TimeBasedOperator::detect_horizontal_direction(&plain(KeyCode::Left)),
        Some((1, 0))
    );
    assert_eq!(
        TimeBasedOperator::detect_horizontal_direction(&plain(KeyCode::Right)),
        Some((0, 1))
    );
    assert_eq!(TimeBasedOperator::detect_horizontal_direction(&up), None);
    assert_eq!(
        TimeBasedOperator::process_events(&vec![up, down, down]),
        vec![Event::VerticalCursorBuffer(1, 2)]
    );
}

#[test]
fn events_differ_by_any_field() {
    let lower = press(KeyCode::Char('a'), KeyModifiers::control());
    let with_shift = press(KeyCode::Char('a'), KeyModifiers { bits: 3 });
    assert_eq!(
        TimeBasedOperator::process_events(&vec![lower, with_shift, lower]),
        vec![
            Event::Others(lower, 1),
            Event::Others(with_shift, 1),
            Event::Others(lower, 1),
        ]
    );
}

#[test]
fn focus_and_mouse_are_other_events() {
    let click = RawEvent::Other(OtherInput::Mouse(MouseEvent {
        kind: MouseEventKind::Down(MouseButton::Left),
        column: 3,
        row: 4,
        modifiers: KeyModifiers::none(),
    }));
    let focus = RawEvent::Other(OtherInput::FocusGained);
    assert_eq!(
        TimeBasedOperator::process_events(&vec![focus, click, click, typed('q')]),
        vec![
            Event::Others(focus, 1),
            Event::Others(click, 2),
            Event::KeyBuffer(vec!['q']),
        ]
    );
}

#[test]
fn two_windows_give_two_batches() {
    let mut operator = TimeBasedOperator::new();
    for ch in ['a', 'b', 'c'] {
        let step = operator.step(Wake::Received(typed(ch)));
        assert_eq!(step, Step { batch: None, stop: false });
    }
    assert_eq!(operator.buffered(), 3);
    let first = operator.step(Wake::Elapsed);
    assert_eq!(
        first,
        Step { batch: Some(vec![Event::KeyBuffer(vec!['a', 'b', 'c'])]), stop: false }
    );
    assert_eq!(operator.buffered(), 0);
    for ch in ['d', 'e', 'f'] {
        operator.receive(typed(ch));
    }
    assert_eq!(operator.flush(), Some(vec![Event::KeyBuffer(vec!['d', 'e', 'f'])]));
    assert_eq!(operator.flush(), None);
}

#[test]
fn quiet_window_sends_nothing() {
    let mut operator = TimeBasedOperator::new();
    assert_eq!(operator.step(Wake::Elapsed), Step { batch: None, stop: false });
    assert_eq!(operator.step(Wake::Elapsed), Step { batch: None, stop: false });
}

#[test]
fn closed_input_flushes_once_and_stops() {
    let mut operator = TimeBasedOperator::new();
    operator.receive(plain(KeyCode::Enter));
    assert_eq!(
        operator.step(Wake::Closed),
        Step { batch: Some(vec![Event::Others(plain(KeyCode::Enter), 1)]), stop: true }
    );
    assert_eq!(operator.step(Wake::Closed), Step { batch: None, stop: true });
}

#[test]
fn batch_amounts_to_its_window() {
    let events = scenario_events();
    let batch = TimeBasedOperator::process_events(&events);
    let mut typed = Vec::new();
    let (mut up, mut down, mut left, mut right, mut other) = (0, 0, 0, 0, 0);
    for group in &batch {
        match group {
            Event::KeyBuffer(chars) => typed.extend(chars.iter().copied()),
            Event::VerticalCursorBuffer(ups, downs) => {
                up += ups;
                down += downs;
            }
            Event::HorizontalCursorBuffer(lefts, rights) => {
                left += lefts;
                right += rights;
            }
            Event::Others(_, count) => other += count,
            Event::LastResize(_, _) => {}
        }
    }
    assert_eq!(typed, vec!['a', 'B', 'c', 'd']);
    assert_eq!((up, down, left, right, other), (3, 1, 2, 1, 4));
    assert_eq!(typed.len() + up + down + left + right + other + 2, events.len());
}
