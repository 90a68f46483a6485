use promkit::pane::Pane;
use promkit_async::component::evaluate::{EvaluatorState, QueryStart, State};
use promkit_async::component::loading::{LoadingState, Submission};
use promkit_async::component::spinner::{loading_frame, next_frame_index, FRAME_COUNT};

const FRAMES: [char; 10] = ['⠋', '⠙', '⠹', '⠸', '⠼', '⠴', '⠦', '⠧', '⠇', '⠏'];

fn rows(pane: &Pane) -> Vec<Vec<char>> {
    pane.extract(pane.visible_row_count())
        .iter()
        .map(|row| row.chars())
        .collect()
}

#[test]
fn loading_frames_go_round() {
    assert_eq!(FRAME_COUNT, 10);
    for (index, frame) in FRAMES.iter().enumerate() {
        assert_eq!(loading_frame(index), *frame);
        assert_eq!(loading_frame(index + 10), *frame);
        assert_eq!(next_frame_index(index), (index + 1) % 10);
    }
    assert_eq!(next_frame_index(9), 0);
    assert_eq!(next_frame_index(19), 0);
    assert_eq!(loading_frame(usize::MAX), FRAMES[usize::MAX % 10]);
}

#[test]
fn loading_first_batch_launches_without_abort() {
    let mut state = LoadingState::new();
    assert!(!state.is_loading());
    assert_eq!(state.tick(), None);
    let submission = state.submit();
    assert_eq!(submission, Submission { abort: None, rollback: false, launch: 1 });
    assert!(state.is_loading());
}

#[test]
fn loading_newer_batch_supersedes() {
    let mut state = LoadingState::new();
    let a = state.submit().launch;
    assert_eq!(state.tick(), Some('⠋'));
    let submission = state.submit();
    let b = submission.launch;
    assert_eq!(submission.abort, Some(a));
    assert!(submission.rollback);
    assert_ne!(a, b);
    assert!(state.is_loading());
    assert_eq!(state.tick(), Some('⠙'));
    assert!(!state.finish(a));
    assert!(state.is_loading());
    assert!(state.finish(b));
    assert!(!state.is_loading());
    assert_eq!(state.tick(), None);
    assert!(!state.finish(b));
}

#[test]
fn loading_spinner_cycles_through_ten_frames() {
    let mut state = LoadingState::new();
    state.submit();
    for round in 0..2 {
        for frame in FRAMES {
            assert_eq!(state.tick(), Some(frame), "round {}", round);
        }
    }
}

#[test]
fn loading_spin_publishes_a_pane_of_one_frame() {
    let mut state = LoadingState::new();
    assert!(state.spin().is_none());
    state.submit();
    let first = state.spin().unwrap();
    assert_eq!(rows(&first), vec![vec!['⠋']]);
    let second = state.spin().unwrap();
    assert_eq!(rows(&second), vec![vec!['⠙']]);
    assert_eq!(second.visible_row_count(), 1);
}

#[test]
fn loading_completed_work_needs_no_abort() {
    let mut state = LoadingState::new();
    let a = state.submit().launch;
    assert!(state.finish(a));
    let submission = state.submit();
    assert_eq!(submission.abort, None);
    assert!(!submission.rollback);
    assert_eq!(submission.launch, a + 1);
}

#[test]
fn evaluator_query_then_events_gives_one_pane() {
    let mut state: EvaluatorState<&str> = EvaluatorState::new();
    let mut launched = 0;
    let mut panes = 0;
    let start = state.on_query();
    launched += 1;
    assert_eq!(start, QueryStart { abort: None, launch: 1 });
    assert_eq!(state.state(), State::ProcessQuery);
    assert_eq!(state.on_events("batch"), None);
    assert_eq!(state.drain(), None);
    assert_eq!(state.pending_len(), 1);
    if state.finish(start.launch) {
        panes += 1;
    }
    assert_eq!(state.state(), State::Idle);
    assert_eq!(launched, 1);
    assert_eq!(panes, 1);
}

#[test]
fn evaluator_query_preempts_events() {
    let mut state: EvaluatorState<u8> = EvaluatorState::new();
    let (events_version, batch) = state.on_events(7).unwrap();
    assert_eq!(batch, 7);
    assert_eq!(state.state(), State::ProcessEvents);
    assert_eq!(state.on_events(8), None);
    assert_eq!(state.on_events(9), None);
    assert_eq!(state.pending_len(), 2);
    let start = state.on_query();
    assert_eq!(start.abort, Some(events_version));
    assert_ne!(start.launch, events_version);
    assert_eq!(state.state(), State::ProcessQuery);
    assert_eq!(state.pending_len(), 0);
    assert!(!state.finish(events_version));
    assert_eq!(state.state(), State::ProcessQuery);
    assert!(state.finish(start.launch));
    assert_eq!(state.state(), State::Idle);
    assert_eq!(state.drain(), None);
}

#[test]
fn evaluator_newer_query_supersedes_query() {
    let mut state: EvaluatorState<u8> = EvaluatorState::new();
    let first = state.on_query();
    state.on_events(1);
    let second = state.on_query();
    assert_eq!(second.abort, Some(first.launch));
    assert_eq!(state.pending_len(), 0);
    assert!(!state.finish(first.launch));
    assert!(state.finish(second.launch));
}

#[test]
fn evaluator_waiting_batches_run_oldest_first() {
    let mut state: EvaluatorState<u8> = EvaluatorState::new();
    let (first, _) = state.on_events(1).unwrap();
    assert_eq!(state.on_events(2), None);
    assert_eq!(state.on_events(3), None);
    assert_eq!(state.drain(), None);
    assert!(state.finish(first));
    let (second, batch) = state.drain().unwrap();
    assert_eq!(batch, 2);
    assert_eq!(state.state(), State::ProcessEvents);
    assert_eq!(state.drain(), None);
    assert!(state.finish(second));
    let (third, batch) = state.drain().unwrap();
    assert_eq!(batch, 3);
    assert!(state.finish(third));
    assert_eq!(state.drain(), None);
    assert_eq!(state.state(), State::Idle);
    assert_eq!(state.pending_len(), 0);
}

#[test]
fn evaluator_spinner_turns_while_work_is_in_flight() {
    let mut state: EvaluatorState<u8> = EvaluatorState::new();
    assert_eq!(state.tick(), None);
    assert!(state.spin().is_none());
    let start = state.on_query();
    assert_eq!(state.tick(), Some('⠋'));
    let pane = state.spin().unwrap();
    assert_eq!(rows(&pane), vec![vec!['⠙']]);
    assert_eq!(state.tick(), Some('⠹'));
    assert!(state.finish(start.launch));
    assert_eq!(state.tick(), None);
    state.on_events(4);
    assert_eq!(state.tick(), Some('⠸'));
}
