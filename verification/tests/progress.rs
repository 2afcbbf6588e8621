use batch_rotate::progress::{status_line, ProgressEvent, ProgressState};

#[test]
fn progress_starts_at_zero() {
    let state = ProgressState::new(3);
    assert_eq!(state.completed(), 0);
    assert_eq!(state.total(), 3);
    assert_eq!(state.current(), "");
    assert!(!state.is_finished());
}

#[test]
fn finished_task_raises_the_count_by_one() {
    let mut state = ProgressState::new(3);
    assert!(state.apply(ProgressEvent::TaskCompleted));
    assert_eq!(state.completed(), 1);
    assert!(state.apply(ProgressEvent::TaskCompleted));
    assert_eq!(state.completed(), 2);
    assert_eq!(state.total(), 3);
    assert!(!state.is_finished());
}

#[test]
fn count_never_exceeds_the_total() {
    let mut state = ProgressState::new(2);
    assert!(state.apply(ProgressEvent::TaskCompleted));
    assert!(state.apply(ProgressEvent::TaskCompleted));
    assert!(state.is_finished());
    assert!(!state.apply(ProgressEvent::TaskCompleted));
    assert_eq!(state.completed(), 2);
    assert_eq!(state.total(), 2);
}

#[test]
fn run_without_tasks_is_finished_at_once() {
    let mut state = ProgressState::new(0);
    assert!(state.is_finished());
    assert!(!state.apply(ProgressEvent::TaskCompleted));
    assert_eq!(state.completed(), 0);
}

#[test]
fn file_taken_up_becomes_the_current_one() {
    let mut state = ProgressState::new(2);
    assert!(state.apply(ProgressEvent::NowProcessing("a.png".to_string())));
    assert_eq!(state.current(), "a.png");
    assert_eq!(state.completed(), 0);
    assert!(state.apply(ProgressEvent::TaskCompleted));
    assert_eq!(state.current(), "a.png");
    assert!(state.apply(ProgressEvent::NowProcessing("b.png".to_string())));
    assert_eq!(state.current(), "b.png");
    assert_eq!(state.completed(), 1);
}

#[test]
fn status_line_names_the_file() {
    assert_eq!(status_line("a.png"), "Processing a.png");
    assert_eq!(status_line(""), "Processing ");
}
