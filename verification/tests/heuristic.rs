use tracey::classification::feature_extractor::extract;
use tracey::classification::heuristic::{apply_heuristics, HeuristicRule};
use tracey::classification::ClassificationSource;

fn rule(app: Option<&str>, title: Option<&str>, project_id: &str) -> HeuristicRule {
    HeuristicRule {
        app_contains: app.map(|s| s.to_string()),
        title_contains: title.map(|s| s.to_string()),
        client_id: None,
        project_id: Some(project_id.to_string()),
        task_id: None,
    }
}

#[test]
fn matches_on_app_and_title() {
    let rules = vec![rule(Some("Code"), Some("tracey"), "proj-tracey")];
    let f = extract("Code", "tracey — Visual Studio Code", None);
    let result = apply_heuristics(&rules, &f).unwrap();
    assert_eq!(result.project_id.as_deref(), Some("proj-tracey"));
    assert_eq!(result.confidence_ppm, 1_000_000);
    assert_eq!(result.source, ClassificationSource::Heuristic);
}

#[test]
fn app_only_rule_matches_any_title() {
    let rules = vec![rule(Some("Slack"), None, "proj-comms")];
    let f = extract("Slack", "general | Slack", None);
    let result = apply_heuristics(&rules, &f).unwrap();
    assert_eq!(result.project_id.as_deref(), Some("proj-comms"));
}

#[test]
fn no_match_returns_none() {
    let rules = vec![rule(Some("Code"), Some("tracey"), "proj-tracey")];
    let f = extract("Slack", "general | Slack", None);
    assert!(apply_heuristics(&rules, &f).is_none());
}

#[test]
fn first_rule_wins() {
    let rules = vec![
        rule(Some("Code"), None, "proj-first"),
        rule(Some("Code"), None, "proj-second"),
    ];
    let f = extract("Code", "anything", None);
    let result = apply_heuristics(&rules, &f).unwrap();
    assert_eq!(result.project_id.as_deref(), Some("proj-first"));
}

#[test]
fn matching_ignores_case() {
    let rules = vec![rule(Some("code"), Some("TRACEY"), "p")];
    let f = extract("CODE.EXE", "Tracey main", None);
    assert!(apply_heuristics(&rules, &f).is_some());
}

#[test]
fn rule_without_patterns_matches_everything() {
    let rules = vec![rule(None, None, "p")];
    let f = extract("", "", None);
    assert_eq!(apply_heuristics(&rules, &f).unwrap().project_id.as_deref(), Some("p"));
}

#[test]
fn empty_rule_list_matches_nothing() {
    let f = extract("Code", "x", None);
    assert!(apply_heuristics(&[], &f).is_none());
}
