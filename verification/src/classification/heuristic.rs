//! Rule-based classification: the first rule whose patterns match wins.

use vstd::prelude::*;
use crate::text::{chars_of, contains_chars, contains_text, lowercase, to_lowercase};
use super::{ClassificationPrediction, ClassificationSource, Features, clone_opt_text, FULL_CONFIDENCE_PPM};

verus! {

/// A user rule: optional case-insensitive substrings of the process name and
/// of the window title, and the client/project/task it assigns.
pub struct HeuristicRule {
    /// Case-insensitive substring matched against the process name.
    pub app_contains: Option<String>,
    /// Case-insensitive substring matched against the window title.
    pub title_contains: Option<String>,
    pub client_id: Option<String>,
    pub project_id: Option<String>,
    pub task_id: Option<String>,
}

/// An optional pattern matches a text when it is absent, or when its
/// lowercase form occurs in the lowercase text.
pub open spec fn pattern_matches(pattern: Option<String>, text: Seq<char>) -> bool {
    match pattern {
        Some(p) => contains_text(lowercase(text), lowercase(p@)),
        None => true,
    }
}

/// Both patterns of the rule match the features.
pub open spec fn rule_matches(rule: HeuristicRule, features: Features) -> bool {
    pattern_matches(rule.app_contains, features.process_name@)
        && pattern_matches(rule.title_contains, features.window_title@)
}

/// The full-confidence heuristic prediction a rule makes.
pub open spec fn rule_prediction(rule: HeuristicRule) -> ClassificationPrediction {
    ClassificationPrediction {
        client_id: rule.client_id,
        project_id: rule.project_id,
        task_id: rule.task_id,
        confidence_ppm: FULL_CONFIDENCE_PPM,
        source: ClassificationSource::Heuristic,
    }
}

/// Whether some rule among the first `n` matches.
pub open spec fn some_rule_matches(rules: Seq<HeuristicRule>, features: Features, n: int) -> bool {
    exists|i: int| 0 <= i < n && rule_matches(#[trigger] rules[i], features)
}

/// What the rule list gives for the features: the prediction of the first
/// matching rule, or `None` when no rule matches.
pub open spec fn heuristic_outcome(rules: Seq<HeuristicRule>, features: Features) -> Option<ClassificationPrediction> {
    if some_rule_matches(rules, features, rules.len() as int) {
        let i = choose|i: int| 0 <= i < rules.len() && rule_matches(rules[i], features)
            && forall|j: int| 0 <= j < i ==> !rule_matches(#[trigger] rules[j], features);
        Some(rule_prediction(rules[i]))
    } else {
        None
    }
}

fn pattern_check(pattern: &Option<String>, lower_text: &Vec<char>, Ghost(text): Ghost<Seq<char>>) -> (r: bool)
    requires
        lower_text@ == lowercase(text),
    ensures
        r == pattern_matches(*pattern, text),
{
    match pattern {
        Some(p) => {
            let lp = to_lowercase(p.as_str());
            let lpc = chars_of(lp.as_str());
            contains_chars(lower_text, &lpc)
        },
        None => true,
    }
}

/// Evaluate the rules in order and return the first match as a
/// full-confidence heuristic prediction.
pub fn apply_heuristics(rules: &[HeuristicRule], features: &Features) -> (r: Option<ClassificationPrediction>)
    ensures
        r == heuristic_outcome(rules@, *features),
{
    let lp = to_lowercase(features.process_name.as_str());
    let lower_process = chars_of(lp.as_str());
    let lt = to_lowercase(features.window_title.as_str());
    let lower_title = chars_of(lt.as_str());
    let mut i: usize = 0;
    while i < rules.len()
        invariant
            i <= rules.len(),
            lower_process@ == lowercase(features.process_name@),
            lower_title@ == lowercase(features.window_title@),
            forall|j: int| 0 <= j < i ==> !rule_matches(#[trigger] rules@[j], *features),
        decreases rules.len() - i,
    {
        let rule = &rules[i];
        let app_ok = pattern_check(&rule.app_contains, &lower_process, Ghost(features.process_name@));
        let title_ok = pattern_check(&rule.title_contains, &lower_title, Ghost(features.window_title@));
        if app_ok && title_ok {
            let pred = ClassificationPrediction {
                client_id: clone_opt_text(&rule.client_id),
                project_id: clone_opt_text(&rule.project_id),
                task_id: clone_opt_text(&rule.task_id),
                confidence_ppm: FULL_CONFIDENCE_PPM,
                source: ClassificationSource::Heuristic,
            };
            proof {
                assert(rule_matches(rules@[i as int], *features));
                assert(some_rule_matches(rules@, *features, rules@.len() as int));
                let k = choose|k: int| 0 <= k < rules@.len() && rule_matches(rules@[k], *features)
                    && forall|j: int| 0 <= j < k ==> !rule_matches(#[trigger] rules@[j], *features);
                if k < i {
                } else if k > i {
                    assert(!rule_matches(rules@[i as int], *features));
                }
                assert(k == i);
            }
            return Some(pred);
        }
        i += 1;
    }
    None
}

proof fn lemma_first_match_exists(rules: Seq<HeuristicRule>, features: Features, n: int)
    requires
        0 <= n <= rules.len(),
        some_rule_matches(rules, features, n),
    ensures
        exists|k: int| 0 <= k < rules.len() && rule_matches(rules[k], features)
            && forall|j: int| 0 <= j < k ==> !rule_matches(#[trigger] rules[j], features),
    decreases n,
{
    if some_rule_matches(rules, features, n - 1) {
        lemma_first_match_exists(rules, features, n - 1);
    } else {
        let w = choose|i: int| 0 <= i < n && rule_matches(#[trigger] rules[i], features);
        assert(w == n - 1);
        assert(forall|j: int| 0 <= j < n - 1 ==> !rule_matches(#[trigger] rules[j], features));
    }
}

/// A rule decides only when every pattern it has occurs, case-insensitively,
/// in its text: the application pattern in the process name and the title
/// pattern in the window title. The prediction is that rule's assignment at
/// full confidence.
pub proof fn law_match_needs_every_pattern(rules: Seq<HeuristicRule>, features: Features)
    requires
        heuristic_outcome(rules, features) is Some,
    ensures
        exists|i: int| 0 <= i < rules.len() && {
            let r = #[trigger] rules[i];
            let p = heuristic_outcome(rules, features)->0;
            &&& (r.app_contains matches Some(a) ==> contains_text(lowercase(features.process_name@), lowercase(a@)))
            &&& (r.title_contains matches Some(t) ==> contains_text(lowercase(features.window_title@), lowercase(t@)))
            &&& p.client_id == r.client_id
            &&& p.project_id == r.project_id
            &&& p.task_id == r.task_id
            &&& p.confidence_ppm == FULL_CONFIDENCE_PPM
            &&& p.source == ClassificationSource::Heuristic
        },
{
    lemma_first_match_exists(rules, features, rules.len() as int);
    let i = choose|i: int| 0 <= i < rules.len() && rule_matches(rules[i], features)
        && forall|j: int| 0 <= j < i ==> !rule_matches(#[trigger] rules[j], features);
    assert(rule_matches(rules[i], features));
    let r = rules[i];
    assert(r.app_contains matches Some(a) ==> contains_text(lowercase(features.process_name@), lowercase(a@)));
}

/// A rule whose every pattern occurs, case-insensitively, in its text
/// always yields a heuristic prediction.
pub proof fn law_matching_rule_classifies(rules: Seq<HeuristicRule>, features: Features, i: int)
    requires
        0 <= i < rules.len(),
        rules[i].app_contains matches Some(a) ==> contains_text(lowercase(features.process_name@), lowercase(a@)),
        rules[i].title_contains matches Some(t) ==> contains_text(lowercase(features.window_title@), lowercase(t@)),
    ensures
        heuristic_outcome(rules, features) is Some,
{
    assert(rule_matches(rules[i], features));
    assert(some_rule_matches(rules, features, rules.len() as int));
}

} // verus!
