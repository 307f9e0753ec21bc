//! Cleaning of recognized speech segments: empty segments, repeats and typical
//! recognizer hallucinations are dropped.
use vstd::prelude::*;

verus! {

/// Whether `pattern` occurs in `text` as a contiguous run of characters.
pub open spec fn contains_seq(text: Seq<char>, pattern: Seq<char>) -> bool {
    exists|i: int|
        0 <= i && i + pattern.len() <= text.len() && #[trigger] text.subrange(i, i + pattern.len())
            == pattern
}

/// Relies on `str::contains` with a `&str` pattern: true exactly when the pattern occurs in
/// the text (a match on UTF-8 bytes is a match on characters).
#[verifier::external_body]
fn str_contains(text: &str, pattern: &str) -> (r: bool)
    ensures
        r == contains_seq(text@, pattern@),
{
    text.contains(pattern)
}

/// The text with leading and trailing whitespace removed, as `str::trim` gives it.
pub uninterp spec fn trimmed(s: Seq<char>) -> Seq<char>;

/// Relies on `str::trim`: the result depends on the characters alone.
#[verifier::external_body]
pub(crate) fn trim_owned(s: &str) -> (r: String)
    ensures
        r@ == trimmed(s@),
{
    s.trim().to_string()
}

/// Markers of text that the recognizer produces on silence or noise rather than speech.
pub open spec fn hallucination_markers() -> Seq<Seq<char>> {
    seq![
        "Субтитры"@,
        "субтитры"@,
        "Подписывайтесь"@,
        "подписывайтесь"@,
        "Спасибо за просмотр"@,
        "www."@,
        "http"@,
        "..."@,
        "♪"@,
        "Продолжение следует"@,
    ]
}

pub open spec fn is_hallucination_text(t: Seq<char>) -> bool {
    exists|i: int| 0 <= i < hallucination_markers().len() && contains_seq(t, #[trigger] hallucination_markers()[i])
}

/// Whether the text contains one of the hallucination markers.
pub fn is_hallucination(text: &str) -> (r: bool)
    ensures
        r == is_hallucination_text(text@),
{
    let r = str_contains(text, "Субтитры") || str_contains(text, "субтитры") || str_contains(
        text,
        "Подписывайтесь",
    ) || str_contains(text, "подписывайтесь") || str_contains(text, "Спасибо за просмотр")
        || str_contains(text, "www.") || str_contains(text, "http") || str_contains(text, "...")
        || str_contains(text, "♪") || str_contains(text, "Продолжение следует");
    proof {
        let m = hallucination_markers();
        if r {
            if contains_seq(text@, "Субтитры"@) {
                assert(m[0] == "Субтитры"@);
            } else if contains_seq(text@, "субтитры"@) {
                assert(m[1] == "субтитры"@);
            } else if contains_seq(text@, "Подписывайтесь"@) {
                assert(m[2] == "Подписывайтесь"@);
            } else if contains_seq(text@, "подписывайтесь"@) {
                assert(m[3] == "подписывайтесь"@);
            } else if contains_seq(text@, "Спасибо за просмотр"@) {
                assert(m[4] == "Спасибо за просмотр"@);
            } else if contains_seq(text@, "www."@) {
                assert(m[5] == "www."@);
            } else if contains_seq(text@, "http"@) {
                assert(m[6] == "http"@);
            } else if contains_seq(text@, "..."@) {
                assert(m[7] == "..."@);
            } else if contains_seq(text@, "♪"@) {
                assert(m[8] == "♪"@);
            } else {
                assert(m[9] == "Продолжение следует"@);
            }
        } else {
            assert forall|i: int| 0 <= i < m.len() implies !contains_seq(text@, #[trigger] m[i]) by {
                if i == 0 {} else if i == 1 {} else if i == 2 {} else if i == 3 {} else if i == 4 {} else if i == 5 {} else if i == 6 {} else if i == 7 {} else if i == 8 {} else {}
            }
        }
    }
    r
}

/// Which segments survive the filter, in order: a segment is dropped when it is empty, equal
/// to the last kept segment (`prev`), or a hallucination.
pub open spec fn kept_segments(segs: Seq<Seq<char>>, prev: Seq<char>) -> Seq<Seq<char>>
    decreases segs.len(),
{
    if segs.len() == 0 {
        Seq::empty()
    } else {
        let t = segs[0];
        if t.len() == 0 || t == prev || is_hallucination_text(t) {
            kept_segments(segs.drop_first(), prev)
        } else {
            seq![t] + kept_segments(segs.drop_first(), t)
        }
    }
}

pub open spec fn texts(v: Seq<String>) -> Seq<Seq<char>> {
    v.map_values(|s: String| s@)
}

/// Filters segments that are already trimmed.
pub fn filter_trimmed(segments: &Vec<String>) -> (r: Vec<String>)
    ensures
        texts(r@) == kept_segments(texts(segments@), Seq::empty()),
{
    let mut out: Vec<String> = Vec::new();
    let mut prev: String = String::new();
    let mut i: usize = 0;
    let ghost all = texts(segments@);
    assert(all.skip(0) =~= all);
    assert(texts(out@) + all =~= all);
    while i < segments.len()
        invariant
            i <= segments@.len(),
            all == texts(segments@),
            texts(out@) + kept_segments(all.skip(i as int), prev@) == kept_segments(all, Seq::empty()),
        decreases segments@.len() - i,
    {
        let t: &String = &segments[i];
        let ghost rest = all.skip(i as int);
        assert(rest[0] == t@);
        assert(rest.drop_first() =~= all.skip(i + 1));
        if t.as_str().is_empty() || *t == prev || is_hallucination(t.as_str()) {
        } else {
            let kept: String = t.clone();
            proof {
                assert(texts(out@.push(kept)) =~= texts(out@) + seq![t@]);
            }
            out.push(kept);
            prev = t.clone();
        }
        i = i + 1;
    }
    assert(all.skip(i as int) =~= Seq::<Seq<char>>::empty());
    assert(texts(out@) + Seq::<Seq<char>>::empty() =~= texts(out@));
    out
}

pub open spec fn trimmed_texts(v: Seq<String>) -> Seq<Seq<char>> {
    v.map_values(|s: String| trimmed(s@))
}

/// Trims every segment, then drops empty ones, repeats of the last kept segment and
/// hallucinations.
pub fn filter_segments(segments: &Vec<String>) -> (r: Vec<String>)
    ensures
        texts(r@) == kept_segments(trimmed_texts(segments@), Seq::empty()),
{
    let mut trimmed_all: Vec<String> = Vec::new();
    let mut i: usize = 0;
    while i < segments.len()
        invariant
            i <= segments@.len(),
            texts(trimmed_all@) == trimmed_texts(segments@.take(i as int)),
        decreases segments@.len() - i,
    {
        let t = trim_owned(segments[i].as_str());
        proof {
            assert(trimmed_texts(segments@.take(i + 1)) =~= trimmed_texts(segments@.take(i as int))
                + seq![trimmed(segments@[i as int]@)]);
            assert(texts(trimmed_all@.push(t)) =~= texts(trimmed_all@) + seq![t@]);
        }
        trimmed_all.push(t);
        i = i + 1;
    }
    assert(segments@.take(i as int) =~= segments@);
    filter_trimmed(&trimmed_all)
}

} // verus!
