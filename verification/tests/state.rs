use promkit_async::state::StateHistory;

#[test]
fn new_cell_has_nothing_to_roll_back_to() {
    let mut cell = StateHistory::new(1u32);
    assert_eq!(*cell.current(), 1);
    assert!(!cell.can_rollback());
    assert!(!cell.rollback());
    assert_eq!(*cell.current(), 1);
}

#[test]
fn update_then_rollback_restores_the_value() {
    let mut cell = StateHistory::new(String::from("first"));
    cell.update(String::from("second"));
    assert_eq!(cell.current(), "second");
    assert!(cell.can_rollback());
    assert!(cell.rollback());
    assert_eq!(cell.current(), "first");
    assert!(!cell.rollback());
    assert_eq!(cell.current(), "first");
}

#[test]
fn history_is_one_deep() {
    let mut cell = StateHistory::new(1u32);
    cell.update(2);
    cell.update(3);
    assert!(cell.rollback());
    assert_eq!(*cell.current(), 2);
    assert!(!cell.rollback());
    assert_eq!(*cell.current(), 2);
}

#[test]
fn current_mut_publishes_and_returns() {
    let mut cell = StateHistory::new(10u32);
    let result = cell.current_mut(|seen| (seen + 5, seen * 2));
    assert_eq!(result, 20);
    assert_eq!(*cell.current(), 15);
    assert!(cell.rollback());
    assert_eq!(*cell.current(), 10);
    assert!(!cell.can_rollback());
}

#[test]
fn current_mut_keeps_only_the_value_before() {
    let mut cell = StateHistory::new(vec![1u8]);
    cell.update(vec![1, 2]);
    let length = cell.current_mut(|mut seen| {
        seen.push(3);
        let length = seen.len();
        (seen, length)
    });
    assert_eq!(length, 3);
    assert_eq!(*cell.current(), vec![1, 2, 3]);
    assert!(cell.rollback());
    assert_eq!(*cell.current(), vec![1, 2]);
    assert!(!cell.rollback());
}
