use promkit_async::wizard::{Context, Relaunch, Spinner, State, Wizard};

#[test]
fn context_starts_at_rest() {
    let context = Context::new((80, 24));
    assert_eq!(context.state(), State::Idle);
    assert_eq!(context.area(), (80, 24));
}

#[test]
fn loading_brackets_the_load() {
    let mut wizard = Wizard::new(Context::new((80, 24)));
    assert_eq!(wizard.loading(), None);
    assert_eq!(wizard.context().state(), State::Loading);
    wizard.loaded();
    assert_eq!(wizard.context().state(), State::Idle);
}

#[test]
fn loading_aborts_the_evaluation_on_record() {
    let mut wizard = Wizard::new(Context::new((80, 24)));
    let first = wizard.evaluate();
    assert_eq!(wizard.loading(), Some(first.launch));
    assert_eq!(wizard.begin_query(first.launch), None);
    assert!(!wizard.end_query(first.launch));
    assert_eq!(wizard.context().state(), State::Loading);
}

#[test]
fn newer_evaluation_supersedes() {
    let mut wizard = Wizard::new(Context::new((80, 24)));
    let first = wizard.evaluate();
    assert_eq!(first, Relaunch { abort: None, launch: 1 });
    assert_eq!(wizard.begin_query(first.launch), Some((80, 24)));
    assert_eq!(wizard.context().state(), State::ProcessQuery);
    let second = wizard.evaluate();
    assert_eq!(second, Relaunch { abort: Some(1), launch: 2 });
    assert!(!wizard.end_query(first.launch));
    assert_eq!(wizard.context().state(), State::ProcessQuery);
    assert_eq!(wizard.begin_query(second.launch), Some((80, 24)));
    assert!(wizard.end_query(second.launch));
    assert_eq!(wizard.context().state(), State::Idle);
}

#[test]
fn resize_evaluates_anew_for_the_new_size() {
    let mut wizard = Wizard::new(Context::new((80, 24)));
    let first = wizard.evaluate();
    let second = wizard.write_on_resize((100, 30));
    assert_eq!(second.abort, Some(first.launch));
    assert_eq!(wizard.context().area(), (100, 30));
    assert_eq!(wizard.begin_query(second.launch), Some((100, 30)));
}

#[test]
fn wizard_spinner_moves_on_before_it_shows() {
    let mut wizard = Wizard::new(Context::new((80, 24)));
    let mut spinner = Spinner::new();
    assert_eq!(spinner.tick(wizard.context()), None);
    wizard.loading();
    assert_eq!(spinner.tick(wizard.context()), Some('⠙'));
    assert_eq!(spinner.tick(wizard.context()), Some('⠹'));
    wizard.loaded();
    assert_eq!(spinner.tick(wizard.context()), None);
    let relaunch = wizard.evaluate();
    assert_eq!(spinner.tick(wizard.context()), None);
    wizard.begin_query(relaunch.launch);
    assert_eq!(spinner.tick(wizard.context()), Some('⠸'));
    let pane = spinner.spin(wizard.context()).unwrap();
    assert_eq!(pane.visible_row_count(), 1);
    assert_eq!(pane.extract(1)[0].chars(), vec!['⠼']);
    for _ in 0..5 {
        spinner.tick(wizard.context());
    }
    assert_eq!(spinner.tick(wizard.context()), Some('⠋'));
}
