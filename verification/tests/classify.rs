use tracey::classification::feature_extractor::extract;
use tracey::classification::heuristic::HeuristicRule;
use tracey::classification::{classify, ClassLabel, ClassificationSource};

fn label(p: &str) -> ClassLabel {
    ClassLabel { client_id: None, project_id: Some(p.to_string()), task_id: None }
}

fn code_rule() -> HeuristicRule {
    HeuristicRule {
        app_contains: Some("code".to_string()),
        title_contains: None,
        client_id: Some("c".to_string()),
        project_id: Some("rule-project".to_string()),
        task_id: None,
    }
}

#[test]
fn confident_ranking_beats_rules() {
    let f = extract("Code", "x", None);
    let ranked = vec![(label("a"), 700_000), (label("b"), 200_000), (label("c"), 100_000)];
    let r = classify(&f, &[code_rule()], Some(ranked));
    assert_eq!(r.top.source, ClassificationSource::TfIdf);
    assert_eq!(r.top.project_id.as_deref(), Some("a"));
    assert_eq!(r.top.confidence_ppm, 700_000);
    assert_eq!(r.suggestions.len(), 2);
    assert_eq!(r.suggestions[0].project_id.as_deref(), Some("b"));
    assert_eq!(r.suggestions[1].confidence_ppm, 100_000);
}

#[test]
fn rule_beats_weak_ranking() {
    let f = extract("Code", "x", None);
    let ranked = vec![(label("a"), 699_999)];
    let r = classify(&f, &[code_rule()], Some(ranked));
    assert_eq!(r.top.source, ClassificationSource::Heuristic);
    assert_eq!(r.top.project_id.as_deref(), Some("rule-project"));
    assert_eq!(r.top.client_id.as_deref(), Some("c"));
    assert!(r.suggestions.is_empty());
}

#[test]
fn weak_ranking_used_without_rule() {
    let f = extract("Slack", "x", None);
    let ranked = vec![(label("a"), 400_000), (label("b"), 300_000)];
    let r = classify(&f, &[code_rule()], Some(ranked));
    assert_eq!(r.top.source, ClassificationSource::TfIdf);
    assert_eq!(r.top.confidence_ppm, 400_000);
    assert_eq!(r.suggestions.len(), 1);
}

#[test]
fn unclassified_without_evidence() {
    let f = extract("Slack", "x", None);
    let r = classify(&f, &[code_rule()], None);
    assert_eq!(r.top.source, ClassificationSource::Unclassified);
    assert_eq!(r.top.confidence_ppm, 0);
    assert!(r.top.project_id.is_none());
    assert!(r.suggestions.is_empty());
    let r2 = classify(&f, &[], Some(vec![]));
    assert_eq!(r2.top.source, ClassificationSource::Unclassified);
}
