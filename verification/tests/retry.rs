// Retry budget semantics: a bounded budget of N absorbs exactly N Retry
// outcomes (one sleep each, at most N + 1 invocations); an unbounded budget
// never runs out.

use filewatch::{
    Action, ErrorKind, Event, FileListBuilder, RetryState, WatchedFile, WatchingFuncResult,
};

type File = WatchedFile<u32, u8>;

fn set_with_budget(budget: u32) -> FileListBuilder<u8, u32, u8> {
    let file: File = WatchedFile::with_modified("f".to_string(), 1, 0u8);
    FileListBuilder::new(0u8)
        .add_file(file)
        .with_max_retries(budget)
}

#[test]
fn budget_of_two_absorbs_two_retries_then_succeeds() {
    let (mut run, _) = set_with_budget(2).start::<i64>();
    assert_eq!(run.step(Event::Slept), Action::CallOpen);
    let mut sleeps = 0;
    let mut invocations = 1;
    for _ in 0..2 {
        let act = run.step(Event::Produced(WatchingFuncResult::Retry(
            "busy".to_string(),
        )));
        assert_eq!(act, Action::Sleep);
        sleeps += 1;
        // the same operation is handed out again after the backoff
        assert_eq!(run.step(Event::Slept), Action::CallOpen);
        invocations += 1;
    }
    let act = run.step(Event::Produced(WatchingFuncResult::Success(5)));
    assert_eq!(act, Action::CallEnd);
    assert_eq!(sleeps, 2);
    assert_eq!(invocations, 3);
}

#[test]
fn budget_of_two_fails_on_the_third_retry_after_two_sleeps() {
    let (mut run, _) = set_with_budget(2).start::<i64>();
    assert_eq!(run.step(Event::Slept), Action::CallOpen);
    let mut sleeps = 0;
    let mut invocations = 1;
    for _ in 0..2 {
        assert_eq!(
            run.step(Event::Produced(WatchingFuncResult::Retry("busy".to_string()))),
            Action::Sleep
        );
        sleeps += 1;
        assert_eq!(run.step(Event::Slept), Action::CallOpen);
        invocations += 1;
    }
    // the third Retry exhausts the budget: fatal, with no further sleep
    let act = run.step(Event::Produced(WatchingFuncResult::Retry(
        "busy".to_string(),
    )));
    assert_eq!(act, Action::Done);
    let (_, res) = run.finish();
    let err = res.unwrap_err();
    assert_eq!(err.kind, ErrorKind::RetriesExhausted);
    assert_eq!(err.detail, "no more retries");
    assert_eq!(sleeps, 2);
    assert_eq!(invocations, 3);
}

#[test]
fn budget_of_zero_fails_on_the_first_retry() {
    let (mut run, _) = set_with_budget(0).start::<i64>();
    assert_eq!(run.step(Event::Slept), Action::CallOpen);
    let act = run.step(Event::Produced(WatchingFuncResult::Retry(
        "busy".to_string(),
    )));
    assert_eq!(act, Action::Done);
    let (_, res) = run.finish();
    assert_eq!(res.unwrap_err().kind, ErrorKind::RetriesExhausted);
}

#[test]
fn unbounded_budget_survives_any_finite_retry_run() {
    let file: File = WatchedFile::with_modified("f".to_string(), 1, 0u8);
    let set = FileListBuilder::new(0u8).add_file(file);
    assert!(set.max_retries.is_none());
    let (mut run, _) = set.start::<i64>();
    assert_eq!(run.step(Event::Slept), Action::CallOpen);
    for _ in 0..50 {
        assert_eq!(
            run.step(Event::Produced(WatchingFuncResult::Retry("busy".to_string()))),
            Action::Sleep
        );
        assert_eq!(run.step(Event::Slept), Action::CallOpen);
    }
    let act = run.step(Event::Produced(WatchingFuncResult::Success(1)));
    assert_eq!(act, Action::CallEnd);
}

#[test]
fn retry_state_counts_down_only_when_bounded() {
    let mut bounded = RetryState::new(Some(2));
    assert!(bounded.note_retry());
    assert!(bounded.note_retry());
    assert!(!bounded.note_retry());
    assert_eq!(bounded.remaining, Some(0));

    let mut unbounded = RetryState::new(None);
    for _ in 0..100 {
        assert!(unbounded.note_retry());
    }
    assert_eq!(unbounded.remaining, None);
}
