use issue_triage::parser::parse_response;

#[test]
fn sentinel_alone_yields_no_labels() {
    let labels = parse_response("none");
    assert!(labels.is_empty());
}

#[test]
fn sentinel_with_whitespace_yields_no_labels() {
    let labels = parse_response("   none  ");
    assert!(labels.is_empty());
}

#[test]
fn sentinel_among_labels_is_dropped() {
    let labels = parse_response("bug,none,enhancement");
    assert_eq!(labels, vec!["bug".to_string(), "enhancement".to_string()]);
}

#[test]
fn order_kept_empties_and_sentinel_dropped() {
    let labels = parse_response("bug, , enhancement ,none");
    assert_eq!(labels, vec!["bug".to_string(), "enhancement".to_string()]);
}

#[test]
fn duplicates_flow_through() {
    let labels = parse_response("bug,bug");
    assert_eq!(labels, vec!["bug".to_string(), "bug".to_string()]);
}

#[test]
fn empty_response_yields_no_labels() {
    let labels = parse_response("");
    assert!(labels.is_empty());
}

#[test]
fn whitespace_only_response_yields_no_labels() {
    let labels = parse_response(" \t \n ");
    assert!(labels.is_empty());
}

#[test]
fn sentinel_match_is_case_sensitive() {
    let labels = parse_response("None");
    assert_eq!(labels, vec!["None".to_string()]);
}

#[test]
fn repeated_sentinels_yield_no_labels() {
    let labels = parse_response("none,none , none");
    assert!(labels.is_empty());
}

#[test]
fn inner_whitespace_is_kept() {
    let labels = parse_response("good first issue, help wanted");
    assert_eq!(
        labels,
        vec!["good first issue".to_string(), "help wanted".to_string()]
    );
}

#[test]
fn token_containing_none_is_kept() {
    let labels = parse_response("nonessential");
    assert_eq!(labels, vec!["nonessential".to_string()]);
}
