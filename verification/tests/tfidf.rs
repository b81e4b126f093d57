use tracey::classification::tfidf::{
    build_vocabulary, class_key, document_frequencies, group_classes, prepare_training, query_counts,
    term_counts, tokenize, TrainingSample,
};

fn sample(text: &str, project: &str) -> TrainingSample {
    TrainingSample {
        text: text.to_string(),
        client_id: None,
        project_id: Some(project.to_string()),
        task_id: None,
    }
}

#[test]
fn train_returns_none_on_empty_samples() {
    assert!(prepare_training(&[]).is_none());
}

#[test]
fn tokenize_drops_short_words_and_stopwords() {
    assert_eq!(tokenize("The Code of a Tracey-app, x é"), vec!["code", "tracey", "app", "é"]);
    assert!(tokenize("a an the").is_empty());
}

#[test]
fn vocabulary_in_first_appearance_order() {
    let docs = vec![tokenize("code tracey code"), tokenize("slack tracey")];
    let v = build_vocabulary(&docs);
    assert_eq!(v, vec!["code", "tracey", "slack"]);
    assert_eq!(document_frequencies(&v, &docs), vec![1, 2, 1]);
    assert_eq!(term_counts(&v, &docs[0]), vec![2, 1, 0]);
}

#[test]
fn class_keys_join_ids() {
    assert_eq!(class_key(&Some("c".to_string()), &None, &Some("t".to_string())), "c||t");
    assert_eq!(class_key(&None, &None, &None), "||");
}

#[test]
fn classes_grouped_by_first_appearance() {
    let samples = vec![sample("a1", "p1"), sample("b1", "p2"), sample("a2", "p1")];
    let (keys, labels, classes) = group_classes(&samples);
    assert_eq!(keys, vec!["|p1|", "|p2|"]);
    assert_eq!(labels[1].project_id.as_deref(), Some("p2"));
    assert_eq!(classes, vec![0, 1, 0]);
}

#[test]
fn training_set_describes_samples() {
    let samples = vec![sample("code tracey rust", "proj-a"), sample("slack general", "proj-b")];
    let t = prepare_training(&samples).unwrap();
    assert_eq!(t.vocabulary.len(), 5);
    assert_eq!(t.token_totals, vec![3, 2]);
    assert_eq!(t.term_counts[1], vec![0, 0, 0, 1, 1]);
    assert_eq!(t.sample_classes, vec![0, 1]);
    assert!(prepare_training(&[sample("a of", "p")]).is_none());
}

#[test]
fn query_counts_over_vocabulary() {
    let v = vec!["code".to_string(), "rust".to_string()];
    assert_eq!(query_counts(&v, "rust code rust zz"), Some((vec![1, 2], 4)));
    assert_eq!(query_counts(&v, "a !"), None);
}
