//! Auto-classification engine: heuristic rules, then the TF-IDF ranking.

pub mod feature_extractor;
pub mod heuristic;
pub mod tfidf;

use heuristic::{apply_heuristics, heuristic_outcome, HeuristicRule};

use vstd::prelude::*;

verus! {

/// Confidence of a certain prediction, in parts per million.
pub const FULL_CONFIDENCE_PPM: u32 = 1_000_000;

/// Confidence at or above which a TF-IDF prediction is accepted outright,
/// in parts per million (70%).
pub const TFIDF_ACCEPT_PPM: u32 = 700_000;

/// Normalized features extracted from a window activity record and its
/// screenshot text.
pub struct Features {
    pub process_name: String,
    pub window_title: String,
    pub ocr_text: Option<String>,
    /// Concatenated, normalized feature text for the TF-IDF model.
    pub combined_text: String,
}

/// Where a prediction came from.
#[derive(Clone, Copy, Debug, PartialEq, Eq, Structural)]
pub enum ClassificationSource {
    Heuristic,
    TfIdf,
    Unclassified,
}

/// A single candidate classification.
pub struct ClassificationPrediction {
    pub client_id: Option<String>,
    pub project_id: Option<String>,
    pub task_id: Option<String>,
    /// Confidence in parts per million (0 to 1,000,000).
    pub confidence_ppm: u32,
    pub source: ClassificationSource,
}

/// A request to classify an activity on the spot.
pub struct ClassifyTestRequest {
    pub process_name: String,
    pub window_title: String,
    pub ocr_text: Option<String>,
}

/// A labeled sample submitted by the user; `source` is `user_confirmed` or
/// `user_corrected`.
pub struct LabeledSampleSubmitRequest {
    pub process_name: String,
    pub window_title: String,
    pub ocr_text: Option<String>,
    pub client_id: Option<String>,
    pub project_id: Option<String>,
    pub task_id: Option<String>,
    pub source: String,
}

/// The user's answer to a classification prompt.
pub struct ClassificationSubmitLabelRequest {
    pub war_id: String,
    pub event_id: String,
    pub process_name: String,
    pub window_title: String,
    pub ocr_text: Option<String>,
    pub client_id: Option<String>,
    pub project_id: Option<String>,
    pub task_id: Option<String>,
    pub recorded_at: String,
    pub source: String,
}

/// The user closed a classification prompt without answering.
pub struct ClassificationDismissRequest {
    pub war_id: String,
    pub pattern_key: String,
}

/// A page of classification events (pages count from 0).
pub struct ClassificationEventListRequest {
    pub page: i64,
    pub page_size: i64,
}

/// A copy of an optional text.
pub fn clone_opt_text(o: &Option<String>) -> (r: Option<String>)
    ensures
        r == *o,
{
    match o {
        Some(s) => Some(s.clone()),
        None => None,
    }
}

/// The client/project/task a TF-IDF class stands for.
pub struct ClassLabel {
    pub client_id: Option<String>,
    pub project_id: Option<String>,
    pub task_id: Option<String>,
}

/// A copy of a class label.
pub fn clone_label(l: &ClassLabel) -> (r: ClassLabel)
    ensures
        r == *l,
{
    ClassLabel {
        client_id: clone_opt_text(&l.client_id),
        project_id: clone_opt_text(&l.project_id),
        task_id: clone_opt_text(&l.task_id),
    }
}

/// The top prediction and up to two further ranked suggestions.
pub struct ClassificationResult {
    pub top: ClassificationPrediction,
    pub suggestions: Vec<ClassificationPrediction>,
}

/// The TF-IDF prediction for a ranked class.
pub open spec fn tfidf_prediction(candidate: (ClassLabel, u32)) -> ClassificationPrediction {
    ClassificationPrediction {
        client_id: candidate.0.client_id,
        project_id: candidate.0.project_id,
        task_id: candidate.0.task_id,
        confidence_ppm: candidate.1,
        source: ClassificationSource::TfIdf,
    }
}

/// The prediction made when nothing classifies the activity.
pub open spec fn unclassified_prediction() -> ClassificationPrediction {
    ClassificationPrediction {
        client_id: None,
        project_id: None,
        task_id: None,
        confidence_ppm: 0,
        source: ClassificationSource::Unclassified,
    }
}

/// The ranked candidates as a result: the best one on top, the others as
/// suggestions in rank order.
pub open spec fn ranked_outcome(ranked: Seq<(ClassLabel, u32)>) -> (ClassificationPrediction, Seq<ClassificationPrediction>) {
    (tfidf_prediction(ranked[0]), ranked.drop_first().map_values(|c: (ClassLabel, u32)| tfidf_prediction(c)))
}

/// The ranking holds a best candidate at or above the acceptance threshold.
pub open spec fn confident_ranking(ranked: Option<Seq<(ClassLabel, u32)>>) -> bool {
    ranked is Some && ranked->0.len() > 0 && ranked->0[0].1 >= TFIDF_ACCEPT_PPM
}

/// The classification of an activity: a confident TF-IDF ranking first; else
/// the first matching rule; else a low-confidence ranking (for the prompt);
/// else unclassified.
pub open spec fn classification_outcome(
    features: Features,
    rules: Seq<HeuristicRule>,
    ranked: Option<Seq<(ClassLabel, u32)>>,
) -> (ClassificationPrediction, Seq<ClassificationPrediction>) {
    if confident_ranking(ranked) {
        ranked_outcome(ranked->0)
    } else if heuristic_outcome(rules, features) is Some {
        (heuristic_outcome(rules, features)->0, seq![])
    } else if ranked is Some && ranked->0.len() > 0 {
        ranked_outcome(ranked->0)
    } else {
        (unclassified_prediction(), seq![])
    }
}

/// The view of an optional ranking.
pub open spec fn ranking_view(ranked: Option<Vec<(ClassLabel, u32)>>) -> Option<Seq<(ClassLabel, u32)>> {
    match ranked {
        Some(v) => Some(v@),
        None => None,
    }
}

fn ranked_result(ranked: &Vec<(ClassLabel, u32)>) -> (r: ClassificationResult)
    requires
        ranked.len() > 0,
    ensures
        (r.top, r.suggestions@) == ranked_outcome(ranked@),
{
    let best = &ranked[0];
    let top = ClassificationPrediction {
        client_id: clone_opt_text(&best.0.client_id),
        project_id: clone_opt_text(&best.0.project_id),
        task_id: clone_opt_text(&best.0.task_id),
        confidence_ppm: best.1,
        source: ClassificationSource::TfIdf,
    };
    let mut suggestions: Vec<ClassificationPrediction> = Vec::new();
    let mut i: usize = 1;
    while i < ranked.len()
        invariant
            1 <= i <= ranked.len(),
            suggestions@ == ranked@.subrange(1, i as int).map_values(|c: (ClassLabel, u32)| tfidf_prediction(c)),
        decreases ranked.len() - i,
    {
        let c = &ranked[i];
        let p = ClassificationPrediction {
            client_id: clone_opt_text(&c.0.client_id),
            project_id: clone_opt_text(&c.0.project_id),
            task_id: clone_opt_text(&c.0.task_id),
            confidence_ppm: c.1,
            source: ClassificationSource::TfIdf,
        };
        suggestions.push(p);
        i += 1;
        assert(suggestions@ =~= ranked@.subrange(1, i as int).map_values(|c: (ClassLabel, u32)| tfidf_prediction(c)));
    }
    assert(ranked@.subrange(1, ranked@.len() as int) =~= ranked@.drop_first());
    ClassificationResult { top, suggestions }
}

/// Run the full classification: a confident TF-IDF ranking, else the
/// heuristic rules, else the low-confidence ranking, else unclassified.
/// `ranked` is the model's top-three ranking of the features' combined text
/// (best first, confidences in parts per million), or `None` when no model
/// is loaded or the model ranks nothing; at most two suggestions follow the
/// top result.
pub fn classify(
    features: &Features,
    rules: &[HeuristicRule],
    ranked: Option<Vec<(ClassLabel, u32)>>,
) -> (r: ClassificationResult)
    requires
        ranked matches Some(v) ==> v.len() <= 3,
    ensures
        (r.top, r.suggestions@) == classification_outcome(*features, rules@, ranking_view(ranked)),
        r.suggestions@.len() <= 2,
{
    proof {
        law_at_most_two_suggestions(*features, rules@, ranking_view(ranked));
    }
    match &ranked {
        Some(c) => {
            if c.len() > 0 && c[0].1 >= TFIDF_ACCEPT_PPM {
                return ranked_result(c);
            }
        },
        None => {},
    }
    match apply_heuristics(rules, features) {
        Some(hit) => {
            return ClassificationResult { top: hit, suggestions: Vec::new() };
        },
        None => {},
    }
    match &ranked {
        Some(c) => {
            if c.len() > 0 {
                return ranked_result(c);
            }
        },
        None => {},
    }
    ClassificationResult {
        top: ClassificationPrediction {
            client_id: None,
            project_id: None,
            task_id: None,
            confidence_ppm: 0,
            source: ClassificationSource::Unclassified,
        },
        suggestions: Vec::new(),
    }
}

} // verus!

verus! {

/// A rule match is a certain, heuristic prediction.
pub proof fn law_rule_match_is_certain(rules: Seq<HeuristicRule>, features: Features)
    requires
        heuristic_outcome(rules, features) is Some,
    ensures
        heuristic_outcome(rules, features)->0.confidence_ppm == FULL_CONFIDENCE_PPM,
        heuristic_outcome(rules, features)->0.source == ClassificationSource::Heuristic,
{
    let i = choose|i: int| 0 <= i < rules.len() && heuristic::rule_matches(rules[i], features)
        && forall|j: int| 0 <= j < i ==> !heuristic::rule_matches(#[trigger] rules[j], features);
}

/// The first matching rule decides, whatever the later rules say.
pub proof fn law_first_rule_wins(rules: Seq<HeuristicRule>, features: Features, i: int)
    requires
        0 <= i < rules.len(),
        heuristic::rule_matches(rules[i], features),
        forall|j: int| 0 <= j < i ==> !heuristic::rule_matches(#[trigger] rules[j], features),
    ensures
        heuristic_outcome(rules, features) == Some(heuristic::rule_prediction(rules[i])),
{
    assert(heuristic::some_rule_matches(rules, features, rules.len() as int));
    let k = choose|k: int| 0 <= k < rules.len() && heuristic::rule_matches(rules[k], features)
        && forall|j: int| 0 <= j < k ==> !heuristic::rule_matches(#[trigger] rules[j], features);
    if k < i {
    } else if k > i {
        assert(!heuristic::rule_matches(rules[i], features));
    }
}

/// With no rule matching, the outcome is `None` (the activity goes to the
/// prompt or stays unclassified).
pub proof fn law_no_rule_no_heuristic(rules: Seq<HeuristicRule>, features: Features)
    requires
        forall|j: int| 0 <= j < rules.len() ==> !heuristic::rule_matches(#[trigger] rules[j], features),
    ensures
        heuristic_outcome(rules, features) is None,
{
}

/// A confident TF-IDF ranking decides before any rule.
pub proof fn law_confident_ranking_first(
    features: Features,
    rules: Seq<HeuristicRule>,
    ranked: Seq<(ClassLabel, u32)>,
)
    requires
        ranked.len() > 0,
        ranked[0].1 >= TFIDF_ACCEPT_PPM,
    ensures
        classification_outcome(features, rules, Some(ranked)).0 == tfidf_prediction(ranked[0]),
        classification_outcome(features, rules, Some(ranked)).0.source == ClassificationSource::TfIdf,
{
}

/// A matching rule beats a ranking below the acceptance threshold, and then
/// nothing is suggested.
pub proof fn law_rule_beats_weak_ranking(
    features: Features,
    rules: Seq<HeuristicRule>,
    ranked: Option<Seq<(ClassLabel, u32)>>,
)
    requires
        !confident_ranking(ranked),
        heuristic_outcome(rules, features) is Some,
    ensures
        classification_outcome(features, rules, ranked) == (heuristic_outcome(rules, features)->0, Seq::<ClassificationPrediction>::empty()),
{
    assert(seq![] =~= Seq::<ClassificationPrediction>::empty());
}

/// From a top-three ranking, at most two suggestions follow the top result.
pub proof fn law_at_most_two_suggestions(
    features: Features,
    rules: Seq<HeuristicRule>,
    ranked: Option<Seq<(ClassLabel, u32)>>,
)
    requires
        ranked matches Some(r) ==> r.len() <= 3,
    ensures
        classification_outcome(features, rules, ranked).1.len() <= 2,
{
}

/// Without a ranking and without a matching rule the activity is
/// unclassified with zero confidence.
pub proof fn law_unclassified_without_evidence(features: Features, rules: Seq<HeuristicRule>)
    requires
        heuristic_outcome(rules, features) is None,
    ensures
        classification_outcome(features, rules, None) == (unclassified_prediction(), Seq::<ClassificationPrediction>::empty()),
{
    assert(seq![] =~= Seq::<ClassificationPrediction>::empty());
}

} // verus!
