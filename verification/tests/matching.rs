use tasktrack::model::{SearchTaskData, SearchTaskInput, TaskOutput};
use tasktrack::pattern::{like_matches, matches_criteria};
use tasktrack::service::TaskService;
use tasktrack::text::trim_str;

fn no_criteria() -> SearchTaskData {
    SearchTaskData { progress: None, created_by: None, taken_by: None, title: None, description: None }
}

fn sample_output() -> TaskOutput {
    TaskOutput {
        id: "task-1".to_string(),
        nr: 1,
        title: "foo XYZ bar".to_string(),
        description: "plain".to_string(),
        state: "s1".to_string(),
        state_name: "open".to_string(),
        progress: 1,
        created_by: "creator".to_string(),
        taken_by: None,
        created_at: 1_000,
        updated_at: 1_000,
        taken_at: None,
        completed_at: None,
    }
}

#[test]
fn no_criteria_matches_every_task() {
    let d = no_criteria();
    assert!(matches_criteria(&d, &sample_output()));
    let mut other = sample_output();
    other.title = String::new();
    other.progress = -3;
    other.taken_by = Some("worker".to_string());
    assert!(matches_criteria(&d, &other));
}

#[test]
fn title_pattern_matches_with_middle_run() {
    let mut input = SearchTaskInput {
        progress: None,
        title: Some("foo bar".to_string()),
        description: None,
        created_by: None,
        taken_by: None,
    };
    let data = TaskService::search(input).unwrap();
    let pattern = data.title.as_deref().unwrap();
    assert_eq!(pattern, "%foo%bar%");
    assert!(like_matches(pattern, "foo XYZ bar"));
    assert!(like_matches(pattern, "foobar"));
    assert!(like_matches(pattern, "xx foo yy bar zz"));
    assert!(!like_matches(pattern, "bar then foo"));
    assert!(!like_matches(pattern, "fooba"));

    input = SearchTaskInput {
        progress: None,
        title: Some("foo bar".to_string()),
        description: None,
        created_by: None,
        taken_by: None,
    };
    let data = TaskService::search(input).unwrap();
    let d = SearchTaskData { title: data.title, ..no_criteria() };
    assert!(matches_criteria(&d, &sample_output()));
    let mut wrong = sample_output();
    wrong.title = "bar then foo".to_string();
    assert!(!matches_criteria(&d, &wrong));
}

#[test]
fn wildcard_edges() {
    assert!(like_matches("%%", ""));
    assert!(like_matches("%%", "anything"));
    assert!(like_matches("%a%", "a"));
    assert!(!like_matches("%a%", ""));
    assert!(!like_matches("", "x"));
    assert!(like_matches("", ""));
    assert!(like_matches("abc", "abc"));
    assert!(!like_matches("abc", "abd"));
}

#[test]
fn progress_and_identity_filters_are_exact() {
    let mut d = no_criteria();
    d.progress = Some(1);
    assert!(matches_criteria(&d, &sample_output()));
    d.progress = Some(2);
    assert!(!matches_criteria(&d, &sample_output()));

    let mut d = no_criteria();
    d.created_by = Some("creator".to_string());
    assert!(matches_criteria(&d, &sample_output()));
    d.created_by = Some("creato".to_string());
    assert!(!matches_criteria(&d, &sample_output()));

    let mut d = no_criteria();
    d.taken_by = Some("worker".to_string());
    assert!(!matches_criteria(&d, &sample_output()));
    let mut taken = sample_output();
    taken.taken_by = Some("worker".to_string());
    assert!(matches_criteria(&d, &taken));
}

#[test]
fn trimming_strips_unicode_whitespace() {
    assert_eq!(trim_str("  a b  "), "a b");
    assert_eq!(trim_str("\t\nx\r "), "x");
    assert_eq!(trim_str("\u{3000}ab\u{00A0}"), "ab");
    assert_eq!(trim_str(""), "");
    assert_eq!(trim_str("   "), "");
    assert_eq!(trim_str("inner  kept"), "inner  kept");
}

#[test]
fn empty_title_criterion_matches_everything() {
    let input = SearchTaskInput {
        progress: None,
        title: Some("   ".to_string()),
        description: None,
        created_by: None,
        taken_by: None,
    };
    let data = TaskService::search(input).unwrap();
    assert_eq!(data.title.as_deref(), Some("%%"));
}

#[test]
fn numeric_bounds_parse_exactly() {
    let parse = |s: &str| {
        let input = SearchTaskInput {
            progress: Some(s.to_string()),
            title: None,
            description: None,
            created_by: None,
            taken_by: None,
        };
        TaskService::search(input).map(|d| d.progress.unwrap())
    };
    assert_eq!(parse("2147483647").unwrap(), 2147483647);
    assert_eq!(parse("-2147483648").unwrap(), -2147483648);
    assert_eq!(parse("+7").unwrap(), 7);
    assert_eq!(parse("-0").unwrap(), 0);
    assert_eq!(parse("007").unwrap(), 7);
    assert!(parse("2147483648").is_err());
    assert!(parse("-2147483649").is_err());
    assert!(parse("").is_err());
    assert!(parse("+").is_err());
    assert!(parse("-").is_err());
    assert!(parse("1.5").is_err());
    assert!(parse("4 ").is_err());
}
