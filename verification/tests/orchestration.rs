use issue_triage::config::{Config, LabelRule, Repository};
use issue_triage::confirm::is_affirmative;
use issue_triage::issue::{filter_issues, Issue};
use issue_triage::triage::{Command, Report, Triage};

fn sample_config() -> Config {
    Config {
        repository: Repository {
            owner: "acme".to_string(),
            name: "widgets".to_string(),
        },
        labels: vec![LabelRule {
            name: "bug".to_string(),
            condition: "reports a crash or incorrect behavior".to_string(),
        }],
    }
}

fn issue(number: u64, title: &str, body: &str) -> Issue {
    Issue {
        number,
        title: title.to_string(),
        body: Some(body.to_string()),
        has_pull_request: false,
    }
}

fn pull_request(number: u64) -> Issue {
    Issue {
        number,
        title: "A change".to_string(),
        body: None,
        has_pull_request: true,
    }
}

fn startup_issue() -> Issue {
    issue(42, "Crashes on startup", "App exits immediately")
}

#[test]
fn filter_drops_pull_requests_keeps_order() {
    let kept = filter_issues(vec![pull_request(1), issue(2, "a", "b"), pull_request(3), issue(4, "c", "d")]);
    let numbers: Vec<u64> = kept.iter().map(|i| i.number).collect();
    assert_eq!(numbers, vec![2, 4]);
}

#[test]
fn orchestrator_never_sees_pull_requests() {
    let t = Triage::new(
        sample_config(),
        vec![pull_request(7), startup_issue(), pull_request(9)],
        true,
    );
    let numbers: Vec<u64> = t.issues.iter().map(|i| i.number).collect();
    assert_eq!(numbers, vec![42]);
    match t.next_command() {
        Command::QueryModel { issue_number, .. } => assert_eq!(issue_number, 42),
        _ => panic!("expected a model query for the one genuine issue"),
    }
}

#[test]
fn confirmed_run_applies_labels_once() {
    let mut t = Triage::new(sample_config(), vec![startup_issue()], true);
    let prompt = match t.next_command() {
        Command::QueryModel { issue_number, prompt } => {
            assert_eq!(issue_number, 42);
            prompt
        }
        _ => panic!("expected a model query first"),
    };
    assert!(prompt.contains("Crashes on startup"));
    assert!(t.on_model_response("bug").is_none());
    match t.next_command() {
        Command::AskOperator { labels } => assert_eq!(labels, vec!["bug".to_string()]),
        _ => panic!("expected the confirmation question"),
    }
    assert!(t.on_confirmation('y').is_none());
    match t.next_command() {
        Command::ApplyLabels { owner, name, issue_number, labels } => {
            assert_eq!(owner, "acme");
            assert_eq!(name, "widgets");
            assert_eq!(issue_number, 42);
            assert_eq!(labels, vec!["bug".to_string()]);
        }
        _ => panic!("expected the labels to be applied"),
    }
    match t.on_apply_result(true) {
        Some(Report::Applied { issue_number, labels }) => {
            assert_eq!(issue_number, 42);
            assert_eq!(labels, vec!["bug".to_string()]);
        }
        _ => panic!("expected the applied report"),
    }
    assert!(matches!(t.next_command(), Command::Finished));
}

#[test]
fn none_response_applies_nothing() {
    let mut t = Triage::new(sample_config(), vec![startup_issue()], true);
    assert!(matches!(t.next_command(), Command::QueryModel { .. }));
    match t.on_model_response("none") {
        Some(Report::NoLabels { issue_number }) => assert_eq!(issue_number, 42),
        _ => panic!("expected the no-labels report"),
    }
    assert!(matches!(t.next_command(), Command::Finished));
}

#[test]
fn operator_decline_skips_issue() {
    let mut t = Triage::new(sample_config(), vec![startup_issue()], true);
    assert!(matches!(t.next_command(), Command::QueryModel { .. }));
    assert!(t.on_model_response("bug").is_none());
    assert!(matches!(t.next_command(), Command::AskOperator { .. }));
    match t.on_confirmation('n') {
        Some(Report::Skipped { issue_number }) => assert_eq!(issue_number, 42),
        _ => panic!("expected the skipped report"),
    }
    assert!(matches!(t.next_command(), Command::Finished));
}

#[test]
fn confirmation_disabled_goes_straight_to_apply() {
    let mut t = Triage::new(sample_config(), vec![startup_issue()], false);
    assert!(matches!(t.next_command(), Command::QueryModel { .. }));
    assert!(t.on_model_response("bug").is_none());
    assert!(matches!(t.next_command(), Command::ApplyLabels { .. }));
}

#[test]
fn failed_application_halts_before_next_issue() {
    let mut t = Triage::new(
        sample_config(),
        vec![startup_issue(), issue(43, "Wrong total", "Sum is off by one")],
        false,
    );
    assert!(matches!(t.next_command(), Command::QueryModel { issue_number: 42, .. }));
    assert!(t.on_model_response("bug").is_none());
    assert!(matches!(t.next_command(), Command::ApplyLabels { .. }));
    assert!(t.on_apply_result(false).is_none());
    // issue 43 is never prompted: the run is over
    assert!(matches!(t.next_command(), Command::Halted));
}

#[test]
fn failed_model_call_halts_run() {
    let mut t = Triage::new(
        sample_config(),
        vec![startup_issue(), issue(43, "Wrong total", "Sum is off by one")],
        true,
    );
    assert!(matches!(t.next_command(), Command::QueryModel { issue_number: 42, .. }));
    t.on_model_failure();
    assert!(matches!(t.next_command(), Command::Halted));
}

#[test]
fn issues_are_processed_in_order() {
    let mut t = Triage::new(
        sample_config(),
        vec![startup_issue(), issue(43, "Wrong total", "Sum is off by one")],
        true,
    );
    assert!(matches!(t.next_command(), Command::QueryModel { issue_number: 42, .. }));
    assert!(t.on_model_response("none").is_some());
    assert!(matches!(t.next_command(), Command::QueryModel { issue_number: 43, .. }));
    assert!(t.on_model_response("none").is_some());
    assert!(matches!(t.next_command(), Command::Finished));
}

#[test]
fn no_issues_finishes_at_once() {
    let t = Triage::new(sample_config(), Vec::new(), true);
    assert!(matches!(t.next_command(), Command::Finished));
}

#[test]
fn only_pull_requests_finishes_at_once() {
    let t = Triage::new(sample_config(), vec![pull_request(1), pull_request(2)], true);
    assert!(t.issues.is_empty());
    assert!(matches!(t.next_command(), Command::Finished));
}

#[test]
fn affirmative_inputs() {
    assert!(is_affirmative('y'));
    assert!(is_affirmative('Y'));
    assert!(!is_affirmative('n'));
    assert!(!is_affirmative('N'));
    assert!(!is_affirmative(' '));
    assert!(!is_affirmative('\n'));
}

#[test]
fn config_validity() {
    assert!(sample_config().is_valid());
    let empty_owner = Config {
        repository: Repository {
            owner: "".to_string(),
            name: "widgets".to_string(),
        },
        labels: Vec::new(),
    };
    assert!(!empty_owner.is_valid());
    let mut duplicated = sample_config();
    duplicated.labels.push(LabelRule {
        name: "bug".to_string(),
        condition: "another wording".to_string(),
    });
    assert!(!duplicated.is_valid());
}
