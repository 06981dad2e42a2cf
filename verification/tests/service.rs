use tasktrack::error::Error;
use tasktrack::model::{CreateInput, SearchTaskInput, State, Task, TaskOutput, UpdateTaskInput};
use tasktrack::service::{TaskService, UpdateAction};

fn state(id: &str, name: &str, progress: i32) -> State {
    State { id: id.to_string(), name: name.to_string(), progress }
}

fn sample_task() -> Task {
    Task {
        id: "task-1".to_string(),
        nr: 1,
        title: "A".to_string(),
        description: "B".to_string(),
        state: "s1".to_string(),
        created_by: "creator".to_string(),
        taken_by: None,
        created_at: 1_000,
        updated_at: 1_000,
        taken_at: None,
        completed_at: None,
    }
}

fn empty_search() -> SearchTaskInput {
    SearchTaskInput { progress: None, title: None, description: None, created_by: None, taken_by: None }
}

#[test]
fn update_noop_returns_unchanged() {
    let old = sample_task();
    let input = UpdateTaskInput {
        title: Some("A".to_string()),
        description: Some("B".to_string()),
        progress: Some(1),
    };
    let lookup = Some(Ok(state("s1", "started", 1)));
    let r = TaskService::update(&old, input, lookup, 2_000);
    assert!(matches!(r, Ok(UpdateAction::Unchanged)));
}

#[test]
fn update_changed_title_advances_updated_at() {
    let old = sample_task();
    let input = UpdateTaskInput {
        title: Some("A2".to_string()),
        description: Some("B".to_string()),
        progress: None,
    };
    let r = TaskService::update(&old, input, None, 2_000).unwrap();
    let diff = match r {
        UpdateAction::Write(diff) => diff,
        UpdateAction::Unchanged => panic!("a changed title must produce a write"),
    };
    assert_eq!(diff.title.as_deref(), Some("A2"));
    assert_eq!(diff.description, None);
    assert_eq!(diff.state, None);
    assert_eq!(diff.updated_at, Some(2_000));
    assert_eq!(diff.created_by, None);
    assert_eq!(diff.taken_by, None);
    assert_eq!(diff.created_at, None);
    assert_eq!(diff.taken_at, None);
    assert_eq!(diff.completed_at, None);
    let new = old.apply_update(diff);
    assert_eq!(new.title, "A2");
    assert_eq!(new.description, "B");
    assert_eq!(new.state, "s1");
    assert_eq!(new.created_at, 1_000);
    assert!(new.updated_at > 1_000);
    assert_eq!(new.id, "task-1");
    assert_eq!(new.nr, 1);
}

#[test]
fn update_progress_not_found_fails_and_leaves_task() {
    let old = sample_task();
    let input = UpdateTaskInput {
        title: Some("A2".to_string()),
        description: None,
        progress: Some(9),
    };
    let r = TaskService::update(&old, input, Some(Err(Error::StateNotFound)), 2_000);
    assert_eq!(r.unwrap_err(), Error::ProgressStateNotFound);
    // the current record was never touched
    assert_eq!(old.title, "A");
    assert_eq!(old.updated_at, 1_000);
}

#[test]
fn update_propagates_other_resolver_errors() {
    let old = sample_task();
    let input = UpdateTaskInput { title: None, description: None, progress: Some(2) };
    let r = TaskService::update(&old, input, Some(Err(Error::StorageError)), 2_000);
    assert_eq!(r.unwrap_err(), Error::StorageError);
}

#[test]
fn update_same_progress_is_not_a_diff() {
    let old = sample_task();
    let input = UpdateTaskInput { title: None, description: None, progress: Some(1) };
    let lookup = Some(Ok(state("s1", "started", 1)));
    let r = TaskService::update(&old, input, lookup, 2_000);
    assert!(matches!(r, Ok(UpdateAction::Unchanged)));
}

#[test]
fn create_unknown_state_fails_with_progress_state_not_found() {
    let input = CreateInput {
        title: "A".to_string(),
        description: "B".to_string(),
        state: "missing".to_string(),
    };
    let r = TaskService::create("creator".to_string(), input, Err(Error::StateNotFound), 1_000);
    assert_eq!(r.unwrap_err(), Error::ProgressStateNotFound);
}

#[test]
fn create_propagates_other_resolver_errors() {
    let input = CreateInput {
        title: "A".to_string(),
        description: "B".to_string(),
        state: "s1".to_string(),
    };
    let r = TaskService::create("creator".to_string(), input, Err(Error::StorageError), 1_000);
    assert_eq!(r.unwrap_err(), Error::StorageError);
}

#[test]
fn create_stamps_both_timestamps_to_one_instant() {
    let input = CreateInput {
        title: "A".to_string(),
        description: "B".to_string(),
        state: "s1".to_string(),
    };
    let data = TaskService::create(
        "creator".to_string(),
        input,
        Ok(state("s1", "started", 1)),
        5_000,
    )
    .unwrap();
    assert_eq!(data.created_at, 5_000);
    assert_eq!(data.updated_at, 5_000);
    assert_eq!(data.title, "A");
    assert_eq!(data.description, "B");
    assert_eq!(data.state.id, "s1");
    assert_eq!(data.created_by, "creator");
}

#[test]
fn create_then_update_scenario() {
    let s1 = state("s1", "open", 1);
    let s2 = state("s2", "done", 2);
    let input = CreateInput {
        title: "A".to_string(),
        description: "B".to_string(),
        state: "s1".to_string(),
    };
    let data = TaskService::create("creator".to_string(), input, Ok(s1.clone()), 1_000).unwrap();
    let task = Task::from_create(data, "task-1".to_string(), 1);
    let out = TaskOutput::from_task(task.clone(), &s1);
    assert_eq!(out.state, "s1");
    assert_eq!(out.state_name, "open");
    assert_eq!(out.progress, 1);
    assert_eq!(out.created_at, out.updated_at);

    let upd = UpdateTaskInput { title: None, description: None, progress: Some(2) };
    let action = TaskService::update(&task, upd, Some(Ok(s2.clone())), 2_000).unwrap();
    let diff = match action {
        UpdateAction::Write(diff) => diff,
        UpdateAction::Unchanged => panic!("a state change must produce a write"),
    };
    let updated = task.apply_update(diff);
    let out2 = TaskOutput::from_task(updated, &s2);
    assert_eq!(out2.state, "s2");
    assert_eq!(out2.state_name, "done");
    assert_eq!(out2.progress, 2);
    assert!(out2.updated_at > out2.created_at);
    assert_eq!(out2.title, "A");
    assert_eq!(out2.description, "B");
}

#[test]
fn search_non_numeric_progress_fails_with_invalid_param() {
    let mut input = empty_search();
    input.progress = Some("abc".to_string());
    let r = TaskService::search(input);
    assert_eq!(r.unwrap_err(), Error::InvalidParam);
}

#[test]
fn search_numeric_progress_is_parsed() {
    let mut input = empty_search();
    input.progress = Some("42".to_string());
    let data = TaskService::search(input).unwrap();
    assert_eq!(data.progress, Some(42));
}

#[test]
fn search_progress_is_parsed_without_trimming() {
    let mut input = empty_search();
    input.progress = Some(" 1".to_string());
    let r = TaskService::search(input);
    assert_eq!(r.unwrap_err(), Error::InvalidParam);
}

#[test]
fn search_builds_wildcard_patterns_and_trims_identities() {
    let input = SearchTaskInput {
        progress: None,
        title: Some("  foo bar ".to_string()),
        description: Some("a  b".to_string()),
        created_by: Some(" creator ".to_string()),
        taken_by: Some("worker".to_string()),
    };
    let data = TaskService::search(input).unwrap();
    assert_eq!(data.title.as_deref(), Some("%foo%bar%"));
    assert_eq!(data.description.as_deref(), Some("%a%%b%"));
    assert_eq!(data.created_by.as_deref(), Some("creator"));
    assert_eq!(data.taken_by.as_deref(), Some("worker"));
    assert_eq!(data.progress, None);
}
