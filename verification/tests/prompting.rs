use issue_triage::config::{Config, LabelRule, Repository};
use issue_triage::issue::Issue;
use issue_triage::prompt::build_prompt;

fn sample_config() -> Config {
    Config {
        repository: Repository {
            owner: "acme".to_string(),
            name: "widgets".to_string(),
        },
        labels: vec![LabelRule {
            name: "bug".to_string(),
            condition: "reports a crash or incorrect behavior".to_string(),
        }],
    }
}

fn sample_issue() -> Issue {
    Issue {
        number: 42,
        title: "Crashes on startup".to_string(),
        body: Some("App exits immediately".to_string()),
        has_pull_request: false,
    }
}

const INSTRUCTIONS: &str = "Based on the following issue, respond ONLY with a comma-separated list of labels that should be applied.\nIf no labels apply, respond with 'none'.\nIf none of the label rules apply, respond with 'none'.\nDo not suggest labels other than the ones provided below.\n\n\n";

#[test]
fn prompt_renders_exactly() {
    let prompt = build_prompt(&sample_issue(), &sample_config());
    let expected = format!(
        "{}Issue Title: Crashes on startup\nIssue Body: App exits immediately\n\n\
         Labels and their conditions:\n\
         - Apply 'bug' if the issue reports a crash or incorrect behavior\n",
        INSTRUCTIONS
    );
    assert_eq!(prompt, expected);
}

#[test]
fn prompt_is_deterministic() {
    let a = build_prompt(&sample_issue(), &sample_config());
    let b = build_prompt(&sample_issue(), &sample_config());
    assert_eq!(a, b);
}

#[test]
fn absent_body_renders_as_empty() {
    let issue = Issue {
        number: 7,
        title: "Silent".to_string(),
        body: None,
        has_pull_request: false,
    };
    let prompt = build_prompt(&issue, &sample_config());
    assert!(prompt.contains("Issue Body: \n\n"));
}

#[test]
fn empty_rule_set_keeps_instructions_and_issue() {
    let config = Config {
        repository: Repository {
            owner: "acme".to_string(),
            name: "widgets".to_string(),
        },
        labels: Vec::new(),
    };
    let prompt = build_prompt(&sample_issue(), &config);
    let expected = format!(
        "{}Issue Title: Crashes on startup\nIssue Body: App exits immediately\n\n\
         Labels and their conditions:\n",
        INSTRUCTIONS
    );
    assert_eq!(prompt, expected);
    assert!(prompt.starts_with(INSTRUCTIONS));
}

#[test]
fn rules_render_in_configuration_order() {
    let mut config = sample_config();
    config.labels.push(LabelRule {
        name: "enhancement".to_string(),
        condition: "asks for a new feature".to_string(),
    });
    let prompt = build_prompt(&sample_issue(), &config);
    let bug_at = prompt.find("- Apply 'bug'").unwrap();
    let enh_at = prompt.find("- Apply 'enhancement'").unwrap();
    assert!(bug_at < enh_at);
}
