//! Extracts and normalizes text features from window activity data.

use vstd::prelude::*;
use crate::text::{
    char_alphanumeric, char_whitespace, chars_of, concat3, copy_text, is_alphanumeric,
    is_whitespace, join_chars, joined, lowercase, runs, runs_upto, split_runs, string_from_chars,
    to_lowercase,
};
use super::Features;

verus! {

/// Each character kept when alphanumeric, otherwise replaced by a space.
pub open spec fn alnum_or_space(s: Seq<char>) -> Seq<char> {
    Seq::new(s.len(), |i: int| if char_alphanumeric(s[i]) { s[i] } else { ' ' })
}

/// Marks the whitespace positions of a text.
pub open spec fn whitespace_marks(s: Seq<char>) -> Seq<bool> {
    Seq::new(s.len(), |i: int| char_whitespace(s[i]))
}

/// The normalized form of a text: lowercased, every non-alphanumeric
/// character turned into a space, then the whitespace-separated words joined
/// by single spaces.
pub open spec fn normalized(text: Seq<char>) -> Seq<char> {
    let m = alnum_or_space(lowercase(text));
    joined(runs(m, whitespace_marks(m)), seq![' '])
}

/// The text that feeds the classifier: process name, window title and OCR
/// text (empty when absent), separated by spaces.
pub open spec fn feature_source(process_name: Seq<char>, window_title: Seq<char>, ocr: Option<Seq<char>>) -> Seq<char> {
    process_name + seq![' '] + window_title + seq![' '] + match ocr {
        Some(t) => t,
        None => Seq::<char>::empty(),
    }
}

/// The view of an optional borrowed text.
pub open spec fn opt_str_view(o: Option<&str>) -> Option<Seq<char>> {
    match o {
        Some(s) => Some(s@),
        None => None,
    }
}

/// The view of an optional owned text.
pub open spec fn opt_string_view(o: Option<String>) -> Option<Seq<char>> {
    match o {
        Some(s) => Some(s@),
        None => None,
    }
}

/// Lowercase, strip every non-alphanumeric character to a space, and collapse
/// whitespace to single spaces with none at either end.
pub fn normalize(text: &str) -> (r: String)
    ensures
        r@ == normalized(text@),
{
    let lower = to_lowercase(text);
    let cs = chars_of(lower.as_str());
    let mut mapped: Vec<char> = Vec::new();
    let mut cut: Vec<bool> = Vec::new();
    let mut i: usize = 0;
    while i < cs.len()
        invariant
            i <= cs.len(),
            cs@ == lowercase(text@),
            mapped@ == alnum_or_space(cs@).take(i as int),
            cut@ == whitespace_marks(alnum_or_space(cs@)).take(i as int),
        decreases cs.len() - i,
    {
        let c = cs[i];
        let m = if is_alphanumeric(c) { c } else { ' ' };
        mapped.push(m);
        let w = is_whitespace(m);
        cut.push(w);
        i += 1;
        assert(mapped@ =~= alnum_or_space(cs@).take(i as int));
        assert(cut@ =~= whitespace_marks(alnum_or_space(cs@)).take(i as int));
    }
    assert(mapped@ =~= alnum_or_space(cs@));
    assert(cut@ =~= whitespace_marks(alnum_or_space(cs@)));
    let words = split_runs(&mapped, &cut);
    let joined_chars = join_chars(&words, ' ');
    string_from_chars(&joined_chars)
}

/// Build the features of an activity record; `ocr_text` is `None` when OCR has
/// not run or produced nothing.
pub fn extract(process_name: &str, window_title: &str, ocr_text: Option<&str>) -> (f: Features)
    ensures
        f.process_name@ == process_name@,
        f.window_title@ == window_title@,
        opt_string_view(f.ocr_text) == opt_str_view(ocr_text),
        f.combined_text@ == normalized(feature_source(process_name@, window_title@, opt_str_view(ocr_text))),
{
    let ocr_part: &str = match ocr_text {
        Some(t) => t,
        None => "",
    };
    let first = concat3(process_name, " ", window_title);
    let source = concat3(first.as_str(), " ", ocr_part);
    proof {
        reveal_strlit(" ");
        reveal_strlit("");
        assert(source@ =~= feature_source(process_name@, window_title@, opt_str_view(ocr_text)));
    }
    let combined_text = normalize(source.as_str());
    let ocr_owned: Option<String> = match ocr_text {
        Some(t) => Some(copy_text(t)),
        None => None,
    };
    Features {
        process_name: copy_text(process_name),
        window_title: copy_text(window_title),
        ocr_text: ocr_owned,
        combined_text,
    }
}

// ── What normalization guarantees ──────────────────────────────────────────

/// A character that may stand inside a normalized word.
pub open spec fn word_char(c: char) -> bool {
    c != ' ' && char_alphanumeric(c)
}

/// A normalized text: alphanumeric characters and single spaces, with no
/// space at either end and never two in a row.
pub open spec fn single_spaced(t: Seq<char>) -> bool {
    &&& forall|i: int| 0 <= i < t.len() ==> (#[trigger] t[i] == ' ' || word_char(t[i]))
    &&& t.len() > 0 ==> t[0] != ' ' && t[t.len() - 1] != ' '
    &&& forall|i: int| 0 <= i < t.len() - 1 ==> !(#[trigger] t[i] == ' ' && t[i + 1] == ' ')
}

/// A non-empty word of word characters.
pub open spec fn word_ok(w: Seq<char>) -> bool {
    w.len() > 0 && forall|i: int| 0 <= i < w.len() ==> word_char(#[trigger] w[i])
}

proof fn lemma_runs_upto_words(s: Seq<char>, cut: Seq<bool>, n: nat)
    requires
        n <= s.len(),
        cut.len() == s.len(),
        forall|p: int| 0 <= p < s.len() && !cut[p] ==> word_char(#[trigger] s[p]),
    ensures
        forall|k: int| 0 <= k < runs_upto(s, cut, n).0.len() ==> word_ok(#[trigger] runs_upto(s, cut, n).0[k]),
        forall|i: int| 0 <= i < runs_upto(s, cut, n).1.len() ==> word_char(#[trigger] runs_upto(s, cut, n).1[i]),
    decreases n,
{
    if n > 0 {
        lemma_runs_upto_words(s, cut, (n - 1) as nat);
        let p = runs_upto(s, cut, (n - 1) as nat);
        if cut[n - 1] {
            if p.1.len() > 0 {
                assert forall|k: int| 0 <= k < p.0.push(p.1).len() implies word_ok(#[trigger] p.0.push(p.1)[k]) by {
                    if k < p.0.len() {
                        assert(p.0.push(p.1)[k] == p.0[k]);
                    } else {
                        assert(p.0.push(p.1)[k] == p.1);
                    }
                }
            }
        } else {
            assert(word_char(s[n - 1]));
            assert forall|i: int| 0 <= i < p.1.push(s[n - 1]).len() implies word_char(#[trigger] p.1.push(s[n - 1])[i]) by {
                if i < p.1.len() {
                    assert(p.1.push(s[n - 1])[i] == p.1[i]);
                }
            }
        }
    }
}

proof fn lemma_joined_single_spaced(words: Seq<Seq<char>>)
    requires
        forall|k: int| 0 <= k < words.len() ==> word_ok(#[trigger] words[k]),
    ensures
        single_spaced(joined(words, seq![' '])),
        words.len() > 0 ==> joined(words, seq![' ']).len() > 0,
    decreases words.len(),
{
    if words.len() == 1 {
        assert(joined(words, seq![' ']) == words[0]);
        assert(word_ok(words[0]));
    } else if words.len() > 1 {
        let front = words.drop_last();
        assert forall|k: int| 0 <= k < front.len() implies word_ok(#[trigger] front[k]) by {
            assert(front[k] == words[k]);
        }
        lemma_joined_single_spaced(front);
        let a = joined(front, seq![' ']);
        let w = words.last();
        assert(word_ok(words[words.len() - 1]));
        let j = a + seq![' '] + w;
        assert(joined(words, seq![' ']) == j);
        assert(a.len() > 0);
        assert forall|i: int| 0 <= i < j.len() implies (#[trigger] j[i] == ' ' || word_char(j[i])) by {
            if i < a.len() {
                assert(j[i] == a[i]);
            } else if i > a.len() {
                assert(j[i] == w[i - a.len() - 1]);
            }
        }
        assert(j[0] == a[0]);
        assert(j[j.len() - 1] == w[w.len() - 1]);
        assert forall|i: int| 0 <= i < j.len() - 1 implies !(#[trigger] j[i] == ' ' && j[i + 1] == ' ') by {
            if i < a.len() - 1 {
                assert(j[i] == a[i] && j[i + 1] == a[i + 1]);
            } else if i == a.len() - 1 {
                assert(j[i] == a[a.len() - 1]);
            } else if i == a.len() {
                assert(j[i + 1] == w[0]);
            } else {
                assert(j[i] == w[i - a.len() - 1]);
            }
        }
    }
}

/// Normalization leaves only alphanumeric characters separated by single
/// spaces: no space at either end and never two in a row.
pub proof fn law_normalized_is_single_spaced(text: Seq<char>)
    ensures
        single_spaced(normalized(text)),
{
    let m = alnum_or_space(lowercase(text));
    let cut = whitespace_marks(m);
    assert forall|p: int| 0 <= p < m.len() && !cut[p] implies word_char(#[trigger] m[p]) by {
        assert(!char_whitespace(m[p]));
        assert(char_whitespace(' '));
    }
    lemma_runs_upto_words(m, cut, m.len());
    let pr = runs_upto(m, cut, m.len());
    let ws = runs(m, cut);
    assert forall|k: int| 0 <= k < ws.len() implies word_ok(#[trigger] ws[k]) by {
        if pr.1.len() > 0 && k == pr.0.len() {
            assert(ws[k] == pr.1);
        } else {
            assert(ws[k] == pr.0[k]);
        }
    }
    lemma_joined_single_spaced(ws);
}

} // verus!
