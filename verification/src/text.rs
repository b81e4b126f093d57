//! Character-level text helpers shared by the feature extractor, the
//! heuristic matcher, the tokenizer and the request validators.

use vstd::prelude::*;
use vstd::string::StringExecFns;

verus! {

/// An ASCII character.
pub open spec fn is_ascii_char(c: char) -> bool {
    (c as u32) < 128
}

/// A text of ASCII characters only.
pub open spec fn ascii_only(s: Seq<char>) -> bool {
    forall|i: int| 0 <= i < s.len() ==> is_ascii_char(#[trigger] s[i])
}

/// An ASCII letter A–Z made lowercase; any other character unchanged.
pub open spec fn ascii_lower(c: char) -> char {
    if 'A' <= c && c <= 'Z' {
        ((c as u32) + 32) as char
    } else {
        c
    }
}

/// A text with each ASCII capital made lowercase.
pub open spec fn ascii_lowered(s: Seq<char>) -> Seq<char> {
    Seq::new(s.len(), |i: int| ascii_lower(s[i]))
}

/// What `str::to_lowercase` gives for a text (Unicode lowercase mapping).
pub uninterp spec fn unicode_lowercase(s: Seq<char>) -> Seq<char>;

/// The lowercase form of a text as `str::to_lowercase` gives it: for an
/// ASCII text, A–Z become a–z and every other character stays (std's
/// documented ASCII behaviour); beyond ASCII, Unicode's mapping.
pub open spec fn lowercase(s: Seq<char>) -> Seq<char> {
    if ascii_only(s) {
        ascii_lowered(s)
    } else {
        unicode_lowercase(s)
    }
}

/// What `char::is_alphanumeric` gives for a character (alphabetic or numeric).
pub uninterp spec fn unicode_alphanumeric(c: char) -> bool;

/// Whether a character is alphanumeric as `char::is_alphanumeric` says: an
/// ASCII character is when it is a digit or a letter; beyond ASCII,
/// Unicode's Alphabetic and Numeric properties decide.
pub open spec fn char_alphanumeric(c: char) -> bool {
    if is_ascii_char(c) {
        ('0' <= c && c <= '9') || ('a' <= c && c <= 'z') || ('A' <= c && c <= 'Z')
    } else {
        unicode_alphanumeric(c)
    }
}

/// The Unicode `White_Space` characters, which `char::is_whitespace`
/// accepts: U+0009 to U+000D, space, U+0085, U+00A0, U+1680, U+2000 to
/// U+200A, U+2028, U+2029, U+202F, U+205F and U+3000.
pub open spec fn char_whitespace(c: char) -> bool {
    let v = c as u32;
    (0x9 <= v && v <= 0xD) || v == 0x20 || v == 0x85 || v == 0xA0 || v == 0x1680
        || (0x2000 <= v && v <= 0x200A) || v == 0x2028 || v == 0x2029 || v == 0x202F
        || v == 0x205F || v == 0x3000
}

/// Calls std's `str::to_lowercase`: an ASCII text has its capitals A–Z
/// made lowercase and nothing else changed; any other text gives the result
/// named `unicode_lowercase`.
#[verifier::external_body]
pub(crate) fn to_lowercase(s: &str) -> (r: String)
    ensures
        ascii_only(s@) ==> r@ == ascii_lowered(s@),
        !ascii_only(s@) ==> r@ == unicode_lowercase(s@),
{
    s.to_lowercase()
}

/// Calls std's `char::is_alphanumeric`: an ASCII character is alphanumeric
/// exactly when it is a digit or a letter; any other character gives the
/// result named `unicode_alphanumeric`.
#[verifier::external_body]
pub(crate) fn is_alphanumeric(c: char) -> (r: bool)
    ensures
        is_ascii_char(c) ==> r == (('0' <= c && c <= '9') || ('a' <= c && c <= 'z') || ('A' <= c && c <= 'Z')),
        !is_ascii_char(c) ==> r == unicode_alphanumeric(c),
{
    c.is_alphanumeric()
}

/// Whether a character is Unicode white space (as `char::is_whitespace`).
pub fn is_whitespace(c: char) -> (r: bool)
    ensures
        r == char_whitespace(c),
{
    let v = c as u32;
    (0x9 <= v && v <= 0xD) || v == 0x20 || v == 0x85 || v == 0xA0 || v == 0x1680
        || (0x2000 <= v && v <= 0x200A) || v == 0x2028 || v == 0x2029 || v == 0x202F
        || v == 0x205F || v == 0x3000
}

/// Calls std's `String::push`, which appends one character.
#[verifier::external_body]
pub(crate) fn push_char(s: &mut String, c: char)
    ensures
        final(s)@ == old(s)@.push(c),
{
    s.push(c)
}

/// The characters of a text, in order.
pub fn chars_of(s: &str) -> (r: Vec<char>)
    ensures
        r@ == s@,
{
    let mut v: Vec<char> = Vec::new();
    for c in it: s.chars()
        invariant
            v@ == it.seq().take(it.index() as int),
            it.seq() == s@,
    {
        v.push(c);
    }
    v
}

/// A `String` holding exactly the given characters.
pub fn string_from_chars(v: &Vec<char>) -> (r: String)
    ensures
        r@ == v@,
{
    let mut s = String::new();
    let mut i: usize = 0;
    while i < v.len()
        invariant
            i <= v.len(),
            s@ == v@.take(i as int),
        decreases v.len() - i,
    {
        push_char(&mut s, v[i]);
        i += 1;
        assert(s@ == v@.take(i as int));
    }
    assert(v@.take(v.len() as int) == v@);
    s
}

/// A copy of a text.
pub fn copy_text(s: &str) -> (r: String)
    ensures
        r@ == s@,
{
    s.to_owned()
}

/// Whether two character sequences are equal.
pub fn same_chars(a: &Vec<char>, b: &Vec<char>) -> (r: bool)
    ensures
        r == (a@ == b@),
{
    if a.len() != b.len() {
        return false;
    }
    let mut i: usize = 0;
    while i < a.len()
        invariant
            a.len() == b.len(),
            i <= a.len(),
            forall|j: int| 0 <= j < i ==> a@[j] == b@[j],
        decreases a.len() - i,
    {
        if a[i] != b[i] {
            return false;
        }
        i += 1;
    }
    assert(a@ =~= b@);
    true
}

/// Whether two texts are equal.
pub fn same_text(a: &str, b: &str) -> (r: bool)
    ensures
        r == (a@ == b@),
{
    let ca = chars_of(a);
    let cb = chars_of(b);
    same_chars(&ca, &cb)
}

// ── Substrings ──────────────────────────────────────────────────────────────

/// `needle` occurs in `hay` starting at position `i`.
pub open spec fn occurs_at(hay: Seq<char>, needle: Seq<char>, i: int) -> bool {
    0 <= i && i + needle.len() <= hay.len() && hay.subrange(i, i + needle.len()) == needle
}

/// `needle` occurs somewhere in `hay` (the empty text occurs in every text).
pub open spec fn contains_text(hay: Seq<char>, needle: Seq<char>) -> bool {
    exists|i: int| occurs_at(hay, needle, i)
}

/// `prefix` is a prefix of `s`.
pub open spec fn has_prefix(s: Seq<char>, prefix: Seq<char>) -> bool {
    occurs_at(s, prefix, 0)
}

fn matches_at(hay: &Vec<char>, needle: &Vec<char>, i: usize) -> (r: bool)
    requires
        i + needle.len() <= hay.len(),
    ensures
        r == occurs_at(hay@, needle@, i as int),
{
    let mut j: usize = 0;
    while j < needle.len()
        invariant
            i + needle.len() <= hay.len(),
            j <= needle.len(),
            forall|k: int| 0 <= k < j ==> hay@[i + k] == needle@[k],
        decreases needle.len() - j,
    {
        if hay[i + j] != needle[j] {
            assert(hay@.subrange(i as int, i + needle.len())[j as int] != needle@[j as int]);
            return false;
        }
        j += 1;
    }
    assert(hay@.subrange(i as int, i + needle.len()) =~= needle@);
    true
}

/// Whether `needle` occurs in `hay`.
pub fn contains_chars(hay: &Vec<char>, needle: &Vec<char>) -> (r: bool)
    ensures
        r == contains_text(hay@, needle@),
{
    if needle.len() > hay.len() {
        assert forall|i: int| !occurs_at(hay@, needle@, i) by {}
        return false;
    }
    if needle.len() == 0 {
        assert(hay@.subrange(0, 0) =~= needle@);
        assert(occurs_at(hay@, needle@, 0));
        return true;
    }
    let last = hay.len() - needle.len();
    let mut i: usize = 0;
    while i <= last
        invariant
            last == hay.len() - needle.len(),
            needle.len() >= 1,
            needle.len() <= hay.len(),
            i <= last + 1,
            forall|k: int| 0 <= k < i ==> !occurs_at(hay@, needle@, k),
        decreases last + 1 - i,
    {
        if matches_at(hay, needle, i) {
            return true;
        }
        i += 1;
    }
    assert forall|k: int| !occurs_at(hay@, needle@, k) by {
        if 0 <= k && k + needle@.len() <= hay@.len() {
            assert(k <= last);
        }
    }
    false
}

/// Whether `s` begins with `prefix`.
pub fn starts_with_chars(s: &Vec<char>, prefix: &Vec<char>) -> (r: bool)
    ensures
        r == has_prefix(s@, prefix@),
{
    if prefix.len() > s.len() {
        return false;
    }
    matches_at(s, prefix, 0)
}

// ── Trimming ────────────────────────────────────────────────────────────────

/// `s` without its leading whitespace.
pub open spec fn trim_start(s: Seq<char>) -> Seq<char>
    decreases s.len(),
{
    if s.len() > 0 && char_whitespace(s[0]) {
        trim_start(s.drop_first())
    } else {
        s
    }
}

/// `s` without its trailing whitespace.
pub open spec fn trim_end(s: Seq<char>) -> Seq<char>
    decreases s.len(),
{
    if s.len() > 0 && char_whitespace(s.last()) {
        trim_end(s.drop_last())
    } else {
        s
    }
}

/// `s` without leading and trailing whitespace, as `str::trim` gives it.
pub open spec fn trimmed(s: Seq<char>) -> Seq<char> {
    trim_end(trim_start(s))
}

proof fn lemma_trim_start_skip(s: Seq<char>, i: int)
    requires
        0 <= i <= s.len(),
        forall|k: int| 0 <= k < i ==> char_whitespace(s[k]),
    ensures
        trim_start(s) == trim_start(s.subrange(i, s.len() as int)),
    decreases i,
{
    if i > 0 {
        assert(char_whitespace(s[0]));
        let t = s.drop_first();
        assert forall|k: int| 0 <= k < i - 1 implies char_whitespace(t[k]) by {
            assert(t[k] == s[k + 1]);
        }
        lemma_trim_start_skip(t, i - 1);
        assert(t.subrange(i - 1, t.len() as int) =~= s.subrange(i, s.len() as int));
    } else {
        assert(s.subrange(0, s.len() as int) =~= s);
    }
}

proof fn lemma_trim_end_skip(s: Seq<char>, j: int)
    requires
        0 <= j <= s.len(),
        forall|k: int| j <= k < s.len() ==> char_whitespace(s[k]),
    ensures
        trim_end(s) == trim_end(s.subrange(0, j)),
    decreases s.len() - j,
{
    if j < s.len() {
        assert(char_whitespace(s.last()));
        let t = s.drop_last();
        lemma_trim_end_skip(t, j);
        assert(t.subrange(0, j) =~= s.subrange(0, j));
    } else {
        assert(s.subrange(0, j) =~= s);
    }
}

/// The characters of `s` with leading and trailing whitespace removed.
pub fn trim_chars(s: &Vec<char>) -> (r: Vec<char>)
    ensures
        r@ == trimmed(s@),
{
    let mut a: usize = 0;
    while a < s.len() && is_whitespace(s[a])
        invariant
            a <= s.len(),
            forall|k: int| 0 <= k < a ==> char_whitespace(s@[k]),
        decreases s.len() - a,
    {
        a += 1;
    }
    proof {
        lemma_trim_start_skip(s@, a as int);
    }
    let ghost rest = s@.subrange(a as int, s@.len() as int);
    if a == s.len() {
        assert(rest.len() == 0);
        assert(trim_end(rest) == rest);
        return Vec::new();
    }
    assert(!char_whitespace(rest[0]));
    assert(trim_start(rest) == rest);
    let mut b: usize = s.len();
    while b > a && is_whitespace(s[b - 1])
        invariant
            a < s.len(),
            a <= b <= s.len(),
            forall|k: int| b <= k < s.len() ==> char_whitespace(s@[k]),
        decreases b,
    {
        b -= 1;
    }
    proof {
        lemma_trim_end_skip(rest, b - a);
        assert(rest.subrange(0, b - a) =~= s@.subrange(a as int, b as int));
        assert(b > a);
        assert(!char_whitespace(s@.subrange(a as int, b as int).last()));
    }
    let mut r: Vec<char> = Vec::new();
    let mut i: usize = a;
    while i < b
        invariant
            a <= i <= b <= s.len(),
            r@ == s@.subrange(a as int, i as int),
        decreases b - i,
    {
        r.push(s[i]);
        i += 1;
        assert(r@ =~= s@.subrange(a as int, i as int));
    }
    r
}

// ── Splitting into runs ─────────────────────────────────────────────────────

/// The character sequences held by a list of character vectors.
pub open spec fn char_views(v: Seq<Vec<char>>) -> Seq<Seq<char>> {
    v.map_values(|x: Vec<char>| x@)
}

/// The character sequences held by a list of strings.
pub open spec fn string_views(v: Seq<String>) -> Seq<Seq<char>> {
    v.map_values(|x: String| x@)
}

/// Scans the first `n` characters of `s`, cutting wherever `cut[i]` holds:
/// the finished non-empty runs, and the run still being read.
pub open spec fn runs_upto(s: Seq<char>, cut: Seq<bool>, n: nat) -> (Seq<Seq<char>>, Seq<char>)
    decreases n,
{
    if n == 0 {
        (seq![], seq![])
    } else {
        let p = runs_upto(s, cut, (n - 1) as nat);
        if cut[n - 1] {
            if p.1.len() > 0 {
                (p.0.push(p.1), seq![])
            } else {
                (p.0, seq![])
            }
        } else {
            (p.0, p.1.push(s[n - 1]))
        }
    }
}

/// The maximal non-empty runs of characters of `s` at positions where `cut` is false.
pub open spec fn runs(s: Seq<char>, cut: Seq<bool>) -> Seq<Seq<char>> {
    let p = runs_upto(s, cut, s.len());
    if p.1.len() > 0 {
        p.0.push(p.1)
    } else {
        p.0
    }
}

/// Splits `s` into the maximal non-empty runs of characters not marked in `cut`.
pub fn split_runs(s: &Vec<char>, cut: &Vec<bool>) -> (r: Vec<Vec<char>>)
    requires
        s.len() == cut.len(),
    ensures
        char_views(r@) == runs(s@, cut@),
{
    let mut done: Vec<Vec<char>> = Vec::new();
    let mut cur: Vec<char> = Vec::new();
    let mut i: usize = 0;
    while i < s.len()
        invariant
            s.len() == cut.len(),
            i <= s.len(),
            (char_views(done@), cur@) == runs_upto(s@, cut@, i as nat),
        decreases s.len() - i,
    {
        if cut[i] {
            if cur.len() > 0 {
                let ghost d = done@;
                let finished = cur;
                done.push(finished);
                assert(char_views(done@) =~= char_views(d).push(finished@));
                cur = Vec::new();
            }
        } else {
            cur.push(s[i]);
        }
        i += 1;
    }
    if cur.len() > 0 {
        let ghost d = done@;
        let last = cur;
        done.push(last);
        assert(char_views(done@) =~= char_views(d).push(last@));
    }
    done
}

// ── Joining ─────────────────────────────────────────────────────────────────

/// The words joined with `sep` between consecutive words.
pub open spec fn joined(words: Seq<Seq<char>>, sep: Seq<char>) -> Seq<char>
    decreases words.len(),
{
    if words.len() == 0 {
        seq![]
    } else if words.len() == 1 {
        words[0]
    } else {
        joined(words.drop_last(), sep) + sep + words.last()
    }
}

/// Joins the words with a single separator character between them.
pub fn join_chars(words: &Vec<Vec<char>>, sep: char) -> (r: Vec<char>)
    ensures
        r@ == joined(char_views(words@), seq![sep]),
{
    let mut out: Vec<char> = Vec::new();
    let mut i: usize = 0;
    while i < words.len()
        invariant
            i <= words.len(),
            out@ == joined(char_views(words@).take(i as int), seq![sep]),
        decreases words.len() - i,
    {
        let ghost before = out@;
        if i > 0 {
            out.push(sep);
        }
        let w = &words[i];
        let mut j: usize = 0;
        while j < w.len()
            invariant
                j <= w.len(),
                out@ == (if i > 0 { before + seq![sep] } else { before }) + w@.take(j as int),
            decreases w.len() - j,
        {
            out.push(w[j]);
            j += 1;
            assert(out@ =~= (if i > 0 { before + seq![sep] } else { before }) + w@.take(j as int));
        }
        assert(w@.take(w.len() as int) =~= w@);
        let ghost ws = char_views(words@);
        assert(ws.take(i + 1).drop_last() =~= ws.take(i as int));
        assert(ws.take(i + 1).last() == w@);
        if i == 0 {
            assert(before =~= seq![]);
            assert(out@ =~= w@);
        }
        i += 1;
    }
    assert(char_views(words@).take(words.len() as int) =~= char_views(words@));
    out
}

// ── Ordering ────────────────────────────────────────────────────────────────

/// `a` sorts before `b`: lexicographic order by code point, which is the
/// order of `String`'s comparison (byte-wise over UTF-8).
pub open spec fn text_less(a: Seq<char>, b: Seq<char>) -> bool
    decreases a.len(),
{
    if a.len() == 0 {
        b.len() > 0
    } else if b.len() == 0 {
        false
    } else if a[0] != b[0] {
        a[0] < b[0]
    } else {
        text_less(a.drop_first(), b.drop_first())
    }
}

/// No text sorts before itself.
pub proof fn lemma_text_less_irreflexive(a: Seq<char>)
    ensures
        !text_less(a, a),
    decreases a.len(),
{
    if a.len() > 0 {
        lemma_text_less_irreflexive(a.drop_first());
    }
}

/// Sorting before is transitive.
pub proof fn lemma_text_less_transitive(a: Seq<char>, b: Seq<char>, c: Seq<char>)
    requires
        text_less(a, b),
        text_less(b, c),
    ensures
        text_less(a, c),
    decreases a.len(),
{
    if a.len() > 0 && b.len() > 0 && c.len() > 0 && a[0] == b[0] && b[0] == c[0] {
        lemma_text_less_transitive(a.drop_first(), b.drop_first(), c.drop_first());
    }
}

proof fn lemma_text_less_skip(a: Seq<char>, b: Seq<char>, i: int)
    requires
        0 <= i <= a.len(),
        i <= b.len(),
        forall|k: int| 0 <= k < i ==> a[k] == b[k],
    ensures
        text_less(a, b) == text_less(a.subrange(i, a.len() as int), b.subrange(i, b.len() as int)),
    decreases i,
{
    if i > 0 {
        let a1 = a.drop_first();
        let b1 = b.drop_first();
        assert(a[0] == b[0]);
        assert forall|k: int| 0 <= k < i - 1 implies a1[k] == b1[k] by {
            assert(a1[k] == a[k + 1]);
            assert(b1[k] == b[k + 1]);
        }
        lemma_text_less_skip(a1, b1, i - 1);
        assert(a1.subrange(i - 1, a1.len() as int) =~= a.subrange(i, a.len() as int));
        assert(b1.subrange(i - 1, b1.len() as int) =~= b.subrange(i, b.len() as int));
    } else {
        assert(a.subrange(0, a.len() as int) =~= a);
        assert(b.subrange(0, b.len() as int) =~= b);
    }
}

/// Whether `a` sorts before `b`.
pub fn less_text(a: &str, b: &str) -> (r: bool)
    ensures
        r == text_less(a@, b@),
{
    let ca = chars_of(a);
    let cb = chars_of(b);
    let mut i: usize = 0;
    while i < ca.len() && i < cb.len() && ca[i] == cb[i]
        invariant
            ca@ == a@,
            cb@ == b@,
            i <= ca.len(),
            i <= cb.len(),
            forall|k: int| 0 <= k < i ==> ca@[k] == cb@[k],
        decreases ca.len() - i,
    {
        i += 1;
    }
    proof {
        lemma_text_less_skip(a@, b@, i as int);
    }
    let ghost ra = a@.subrange(i as int, a@.len() as int);
    let ghost rb = b@.subrange(i as int, b@.len() as int);
    if i == ca.len() {
        assert(ra.len() == 0);
        i < cb.len()
    } else if i == cb.len() {
        assert(rb.len() == 0);
        false
    } else {
        assert(ra[0] == ca@[i as int]);
        assert(rb[0] == cb@[i as int]);
        assert(ca@[i as int] != cb@[i as int]);
        ca[i] < cb[i]
    }
}

// ── UTF-8 width ─────────────────────────────────────────────────────────────

/// Bytes taken by a character in UTF-8 (what `char::len_utf8` gives).
pub open spec fn utf8_width(c: char) -> nat {
    if (c as u32) < 0x80 {
        1
    } else if (c as u32) < 0x800 {
        2
    } else if (c as u32) < 0x10000 {
        3
    } else {
        4
    }
}

/// Bytes taken by a text in UTF-8 (what `str::len` gives).
pub open spec fn utf8_len(s: Seq<char>) -> nat
    decreases s.len(),
{
    if s.len() == 0 {
        0
    } else {
        utf8_len(s.drop_last()) + utf8_width(s.last())
    }
}

proof fn lemma_utf8_len_at_least(s: Seq<char>)
    ensures
        utf8_len(s) >= s.len(),
    decreases s.len(),
{
    if s.len() > 0 {
        lemma_utf8_len_at_least(s.drop_last());
    }
}

/// Whether a text takes more than one byte in UTF-8.
pub fn longer_than_one_byte(s: &Vec<char>) -> (r: bool)
    ensures
        r == (utf8_len(s@) > 1),
{
    proof {
        lemma_utf8_len_at_least(s@);
    }
    if s.len() >= 2 {
        true
    } else if s.len() == 1 {
        assert(s@.drop_last() =~= Seq::<char>::empty());
        assert(utf8_len(s@.drop_last()) == 0);
        assert(utf8_len(s@) == utf8_width(s@[0]));
        (s[0] as u32) >= 0x80
    } else {
        false
    }
}

/// Owned strings for a list of character runs.
pub fn strings_from_runs(runs: &Vec<Vec<char>>) -> (r: Vec<String>)
    ensures
        string_views(r@) == char_views(runs@),
{
    let mut out: Vec<String> = Vec::new();
    let mut i: usize = 0;
    while i < runs.len()
        invariant
            i <= runs.len(),
            string_views(out@) == char_views(runs@).take(i as int),
        decreases runs.len() - i,
    {
        let s = string_from_chars(&runs[i]);
        let ghost d = out@;
        out.push(s);
        assert(string_views(out@) =~= string_views(d).push(s@));
        assert(string_views(out@) =~= char_views(runs@).take(i + 1));
        i += 1;
    }
    assert(char_views(runs@).take(runs.len() as int) =~= char_views(runs@));
    out
}

/// A text made of `a`, then `sep`, then `b`.
pub fn concat3(a: &str, sep: &str, b: &str) -> (r: String)
    ensures
        r@ == a@ + sep@ + b@,
{
    let mut s = a.to_owned();
    s.append(sep);
    s.append(b);
    s
}

} // verus!
