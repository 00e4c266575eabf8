//! The `TopicHandler` trait and glob-style topic pattern matching.
//!
//! Topics and patterns use `::` as a segment separator, e.g.
//! `"registry::service::registered"`, `"registry::service::*"`, `"registry::#"`.
//!
//! - `#` as the last pattern segment matches any number of remaining
//!   `::`-separated segments, none included (greedy namespace wildcard).
//! - `*` matches exactly **one** segment.
//! - Anything else, a `#` that is not the last segment included, must equal
//!   the corresponding topic segment literally.
//!
//! A pattern that is exactly `"#"` matches every topic.

use vstd::prelude::*;
use crate::segments::{
    segments, chars_of, split_segments, same_chars, views, has_separator, lemma_single_segment,
    lemma_segments_injective,
};

verus! {

/// A subscriber that handles events matching a topic pattern.
///
/// Implement this trait on any type that wants to receive bus events; a
/// router hands such a subscriber every event whose topic satisfies
/// `topic_matches(handler.topic_pattern(), topic)`.
///
/// # Pattern syntax
///
/// - `"registry::service::registered"`: exact match
/// - `"registry::*"`: one segment below `registry`
/// - `"registry::#"`: every topic under `registry`, at any depth
/// - `"#"`: any topic
pub trait TopicHandler: Send + Sync {
    /// Glob-style pattern this handler subscribes to.
    fn topic_pattern(&self) -> &str;
}

/// The single-segment pattern `#`.
pub open spec fn hash_segment() -> Seq<char> {
    seq!['#']
}

/// The single-segment pattern `*`.
pub open spec fn star_segment() -> Seq<char> {
    seq!['*']
}

/// Whether the pattern segments `p` match the topic segments `t`, pairing
/// them off from the left: a `#` that is the last pattern segment accepts
/// whatever is left, `*` accepts any one segment, any other segment accepts
/// only itself, and both must run out together.
pub open spec fn segments_match(p: Seq<Seq<char>>, t: Seq<Seq<char>>) -> bool
    decreases p.len(),
{
    if p.len() == 0 {
        t.len() == 0
    } else if p.len() == 1 && p[0] == hash_segment() {
        true
    } else if t.len() == 0 {
        false
    } else if p[0] == star_segment() || p[0] == t[0] {
        segments_match(p.drop_first(), t.drop_first())
    } else {
        false
    }
}

/// Whether `pattern` matches `topic`.
pub open spec fn spec_topic_matches(pattern: Seq<char>, topic: Seq<char>) -> bool {
    pattern == hash_segment() || segments_match(segments(pattern), segments(topic))
}

/// Whether a segment is the one-character segment `c`.
fn is_single(seg: &Vec<char>, c: char) -> (r: bool)
    ensures
        r == (seg@ == seq![c]),
{
    let r = seg.len() == 1 && seg[0] == c;
    if seg.len() == 1 {
        assert(r == (seg@ =~= seq![c]));
    }
    r
}

/// Check whether `pattern` matches `topic`.
///
/// Examples:
/// - `"registry::#"` matches all registry topics of any depth (greedy)
/// - `"registry::service::*"` matches `"registry::service::registered"` etc.
/// - `"registry::service::registered"` matches only itself
/// - `"*"` matches any single-segment topic
pub fn topic_matches(pattern: &str, topic: &str) -> (r: bool)
    ensures
        r == spec_topic_matches(pattern@, topic@),
{
    let pat_chars = chars_of(pattern);
    if is_single(&pat_chars, '#') {
        return true;
    }
    let pat = split_segments(&pat_chars);
    let top = split_segments(&chars_of(topic));
    let ghost ps = views(pat@);
    let ghost ts = views(top@);
    assert(ps.skip(0) =~= ps);
    assert(ts.skip(0) =~= ts);
    let mut k: usize = 0;
    loop
        invariant
            ps == views(pat@),
            ts == views(top@),
            ps == segments(pattern@),
            ts == segments(topic@),
            pattern@ != hash_segment(),
            k <= pat.len(),
            k <= top.len(),
            segments_match(ps, ts) == segments_match(ps.skip(k as int), ts.skip(k as int)),
        decreases pat.len() - k,
    {
        if k == pat.len() {
            return k == top.len();
        }
        assert(ps.skip(k as int)[0] == pat@[k as int]@);
        if k + 1 == pat.len() && is_single(&pat[k], '#') {
            return true;
        }
        if k == top.len() {
            return false;
        }
        assert(ts.skip(k as int)[0] == top@[k as int]@);
        assert(ps.skip(k as int).drop_first() =~= ps.skip(k + 1));
        assert(ts.skip(k as int).drop_first() =~= ts.skip(k + 1));
        if is_single(&pat[k], '*') || same_chars(&pat[k], &top[k]) {
            k = k + 1;
        } else {
            return false;
        }
    }
}

/// The last of the segments `p` is `#`.
pub open spec fn ends_with_hash(p: Seq<Seq<char>>) -> bool {
    p.len() > 0 && p.last() == hash_segment()
}

proof fn lemma_segments_match_refl(p: Seq<Seq<char>>)
    ensures
        segments_match(p, p),
    decreases p.len(),
{
    if p.len() > 0 {
        lemma_segments_match_refl(p.drop_first());
    }
}

proof fn lemma_not_ends_with_hash_tail(p: Seq<Seq<char>>)
    requires
        p.len() > 0,
        !ends_with_hash(p),
    ensures
        !ends_with_hash(p.drop_first()),
        !(p.len() == 1 && p[0] == hash_segment()),
{
    if p.len() > 1 {
        assert(p.drop_first().last() == p.last());
    }
}

proof fn lemma_literal_segments_match(p: Seq<Seq<char>>, t: Seq<Seq<char>>)
    requires
        forall|k: int| 0 <= k < p.len() ==> #[trigger] p[k] != star_segment(),
        !ends_with_hash(p),
    ensures
        segments_match(p, t) <==> p == t,
    decreases p.len(),
{
    if p.len() == 0 {
        if t.len() == 0 {
            assert(p =~= t);
        }
    } else if t.len() == 0 {
        lemma_not_ends_with_hash_tail(p);
    } else {
        lemma_not_ends_with_hash_tail(p);
        assert(p[0] != star_segment());
        assert forall|k: int| 0 <= k < p.drop_first().len() implies #[trigger] p.drop_first()[k]
            != star_segment() by {
            assert(p.drop_first()[k] == p[k + 1]);
        }
        lemma_literal_segments_match(p.drop_first(), t.drop_first());
        if p[0] == t[0] && p.drop_first() == t.drop_first() {
            assert(p =~= seq![p[0]] + p.drop_first());
            assert(t =~= seq![t[0]] + t.drop_first());
        }
        if p == t {
            assert(p.drop_first() =~= t.drop_first());
        }
    }
}

proof fn lemma_no_final_hash_same_length(p: Seq<Seq<char>>, t: Seq<Seq<char>>)
    requires
        !ends_with_hash(p),
        segments_match(p, t),
    ensures
        p.len() == t.len(),
    decreases p.len(),
{
    if p.len() > 0 {
        lemma_not_ends_with_hash_tail(p);
        lemma_no_final_hash_same_length(p.drop_first(), t.drop_first());
    }
}

proof fn lemma_segments_of_single_char(c: char)
    requires
        c != ':',
    ensures
        segments(seq![c]) == seq![seq![c]],
{
    assert(seq![c].subrange(0, 1) =~= seq![c]);
}

/// A pattern that is `#` alone matches every topic.
pub proof fn law_hash_matches_every_topic(topic: Seq<char>)
    ensures
        spec_topic_matches(hash_segment(), topic),
{
}

/// Every topic matches itself when used as a pattern.
pub proof fn law_pattern_matches_itself(s: Seq<char>)
    ensures
        spec_topic_matches(s, s),
{
    lemma_segments_match_refl(segments(s));
}

/// A pattern with no `*` segment and no `#` as its last segment matches
/// exactly the topic that is the same string, and no other: a `#` anywhere
/// but at the end stands for itself.
pub proof fn law_literal_pattern_matches_only_itself(pattern: Seq<char>, topic: Seq<char>)
    requires
        forall|k: int|
            0 <= k < segments(pattern).len() ==> #[trigger] segments(pattern)[k] != star_segment(),
        !ends_with_hash(segments(pattern)),
    ensures
        spec_topic_matches(pattern, topic) <==> pattern == topic,
{
    lemma_segments_of_single_char('#');
    if pattern == hash_segment() {
        assert(segments(pattern).last() == hash_segment());
    }
    lemma_literal_segments_match(segments(pattern), segments(topic));
    if segments(pattern) == segments(topic) {
        lemma_segments_injective(pattern, topic);
    }
}

/// The pattern `*` matches exactly the topics made of one segment, those
/// that hold no `::`.
pub proof fn law_star_matches_single_segment(topic: Seq<char>)
    ensures
        spec_topic_matches(star_segment(), topic) <==> !has_separator(topic),
{
    lemma_segments_of_single_char('*');
    lemma_single_segment(topic);
    let t = segments(topic);
    let p = segments(star_segment());
    assert(star_segment()[0] != hash_segment()[0]);
    assert(p[0] == star_segment());
    assert(p[0] != hash_segment());
    if t.len() >= 1 {
        assert(p.drop_first().len() == 0);
        assert(segments_match(p.drop_first(), t.drop_first()) == (t.drop_first().len() == 0));
        assert(segments_match(p, t) == (t.drop_first().len() == 0));
    }
}

/// Unless the pattern ends in `#`, each pattern segment stands for exactly
/// one topic segment: a pattern and a topic that it matches have as many
/// segments.
pub proof fn law_match_without_final_hash_keeps_depth(pattern: Seq<char>, topic: Seq<char>)
    requires
        !ends_with_hash(segments(pattern)),
        spec_topic_matches(pattern, topic),
    ensures
        segments(pattern).len() == segments(topic).len(),
{
    lemma_segments_of_single_char('#');
    if pattern == hash_segment() {
        assert(segments(pattern).last() == hash_segment());
    }
    lemma_no_final_hash_same_length(segments(pattern), segments(topic));
}

/// A trailing `#` is greedy: the pattern segments `prefix` followed by `#`
/// match a topic exactly when the topic has at least as many segments as
/// `prefix` and its first ones are matched by `prefix`, whatever follows.
pub proof fn law_trailing_hash_is_greedy(prefix: Seq<Seq<char>>, topic: Seq<Seq<char>>)
    requires
        !ends_with_hash(prefix),
    ensures
        segments_match(prefix.push(hash_segment()), topic) <==> (prefix.len() <= topic.len()
            && segments_match(prefix, topic.take(prefix.len() as int))),
    decreases prefix.len(),
{
    let p = prefix.push(hash_segment());
    if prefix.len() == 0 {
        assert(topic.take(0).len() == 0);
    } else {
        lemma_not_ends_with_hash_tail(prefix);
        assert(p[0] == prefix[0]);
        assert(p.drop_first() =~= prefix.drop_first().push(hash_segment()));
        if topic.len() > 0 {
            law_trailing_hash_is_greedy(prefix.drop_first(), topic.drop_first());
            let n = prefix.len() as int;
            if n <= topic.len() {
                assert(topic.take(n)[0] == topic[0]);
                assert(topic.take(n).drop_first() =~= topic.drop_first().take(n - 1));
            }
        }
    }
}


/// Widening a pattern segment to `*` never loses a match, unless that
/// segment is the trailing `#`, which accepts more than one segment.
pub proof fn law_star_generalizes_segment(p: Seq<Seq<char>>, t: Seq<Seq<char>>, k: int)
    requires
        0 <= k < p.len(),
        !(k == p.len() - 1 && p[k] == hash_segment()),
        segments_match(p, t),
    ensures
        segments_match(p.update(k, star_segment()), t),
    decreases p.len(),
{
    let q = p.update(k, star_segment());
    assert(star_segment()[0] != hash_segment()[0]);
    assert(star_segment() != hash_segment());
    if k == 0 {
        assert(q.drop_first() =~= p.drop_first());
    } else {
        assert(q[0] == p[0]);
        assert(q.drop_first() =~= p.drop_first().update(k - 1, star_segment()));
        law_star_generalizes_segment(p.drop_first(), t.drop_first(), k - 1);
    }
}


/// The segments `p` match `t` position by position: every pattern segment
/// is `*` or equal to the topic segment at its index, where a final `#`
/// stands for all topic segments from its index on.
spec fn fits(p: Seq<Seq<char>>, t: Seq<Seq<char>>) -> bool {
    if p.len() > 0 && p.last() == seq!['#'] {
        p.len() - 1 <= t.len() && forall|i: int|
            0 <= i < p.len() - 1 ==> #[trigger] p[i] == seq!['*'] || p[i] == t[i]
    } else {
        p.len() == t.len() && forall|i: int|
            0 <= i < p.len() ==> #[trigger] p[i] == seq!['*'] || p[i] == t[i]
    }
}

proof fn lemma_segments_match_fits(p: Seq<Seq<char>>, t: Seq<Seq<char>>)
    ensures
        segments_match(p, t) <==> fits(p, t),
    decreases p.len(),
{
    if p.len() == 0 {
    } else if p.len() == 1 && p[0] == hash_segment() {
        assert(p.last() == p[0]);
    } else if t.len() == 0 {
        if p.len() > 0 && p.last() == seq!['#'] {
            assert(p.len() >= 2);
        }
    } else {
        let p1 = p.drop_first();
        let t1 = t.drop_first();
        lemma_segments_match_fits(p1, t1);
        let ends = p.len() > 0 && p.last() == seq!['#'];
        if p.len() >= 2 {
            assert(p1.last() == p.last());
        } else {
            assert(!ends);
        }
        let n = if ends { p.len() - 1 } else { p.len() as int };
        if fits(p, t) {
            assert(p[0] == star_segment() || p[0] == t[0]) by {
                if ends {
                    assert(0 < n);
                }
            }
            assert forall|i: int| 0 <= i < n - 1 implies #[trigger] p1[i] == seq!['*'] || p1[i]
                == t1[i] by {
                assert(p1[i] == p[i + 1]);
                assert(t1[i] == t[i + 1]);
            }
            assert(fits(p1, t1));
        }
        if segments_match(p, t) {
            assert forall|i: int| 0 <= i < n implies #[trigger] p[i] == seq!['*'] || p[i] == t[i] by {
                if i > 0 {
                    assert(p1[i - 1] == p[i]);
                    assert(t1[i - 1] == t[i]);
                }
            }
        }
    }
}

/// What a match is, position by position: with `p` the segments of the
/// pattern and `t` those of the topic, every pattern segment is `*` or
/// equals the topic segment at the same index; a final `#` covers the topic
/// segments from its index on, none or many, and otherwise both have as
/// many segments.
pub proof fn law_match_position_by_position(pattern: Seq<char>, topic: Seq<char>)
    ensures
        spec_topic_matches(pattern, topic) <==> ({
            let p = segments(pattern);
            let t = segments(topic);
            if p.len() > 0 && p.last() == seq!['#'] {
                p.len() - 1 <= t.len() && forall|i: int|
                    0 <= i < p.len() - 1 ==> #[trigger] p[i] == seq!['*'] || p[i] == t[i]
            } else {
                p.len() == t.len() && forall|i: int|
                    0 <= i < p.len() ==> #[trigger] p[i] == seq!['*'] || p[i] == t[i]
            }
        }),
{
    lemma_segments_of_single_char('#');
    if pattern == hash_segment() {
        assert(segments(pattern).last() == seq!['#']);
    }
    lemma_segments_match_fits(segments(pattern), segments(topic));
}

/// In a match, every pattern segment other than `*` and a final `#` equals
/// the topic segment at the same index.
pub proof fn law_literal_segment_equals_topic_segment(pattern: Seq<char>, topic: Seq<char>, i: int)
    requires
        spec_topic_matches(pattern, topic),
        0 <= i < segments(pattern).len(),
        segments(pattern)[i] != seq!['*'],
        !(i == segments(pattern).len() - 1 && segments(pattern)[i] == seq!['#']),
    ensures
        i < segments(topic).len(),
        segments(topic)[i] == segments(pattern)[i],
{
    law_match_position_by_position(pattern, topic);
}

/// A `*` accepts any one segment: changing the topic segment under a `*`
/// into any other segment keeps the match.
pub proof fn law_star_accepts_any_segment(
    pattern: Seq<char>,
    topic: Seq<char>,
    other: Seq<char>,
    i: int,
)
    requires
        spec_topic_matches(pattern, topic),
        0 <= i < segments(pattern).len(),
        segments(pattern)[i] == seq!['*'],
        segments(other).len() == segments(topic).len(),
        forall|j: int| 0 <= j < segments(topic).len() && j != i ==> #[trigger] segments(other)[j] == segments(topic)[j],
    ensures
        spec_topic_matches(pattern, other),
{
    law_match_position_by_position(pattern, topic);
    law_match_position_by_position(pattern, other);
    let p = segments(pattern);
    assert(seq!['*'][0] != seq!['#'][0]);
    let ends = p.len() > 0 && p.last() == seq!['#'];
    let n = if ends { p.len() - 1 } else { p.len() as int };
    assert forall|j: int| 0 <= j < n implies #[trigger] p[j] == seq!['*'] || p[j] == segments(other)[j] by {
        if j != i {
            assert(p[j] == seq!['*'] || p[j] == segments(topic)[j]);
        }
    }
}

/// A final `#` is greedy at the level of whole topics: when the other pattern
/// segments fit the first topic segments, the pattern matches, whatever and
/// however many segments follow.
pub proof fn law_trailing_hash_accepts_any_rest(pattern: Seq<char>, topic: Seq<char>)
    requires
        segments(pattern).len() > 0,
        segments(pattern).last() == seq!['#'],
        segments(pattern).len() - 1 <= segments(topic).len(),
        forall|i: int|
            0 <= i < segments(pattern).len() - 1 ==> #[trigger] segments(pattern)[i] == seq!['*']
                || segments(pattern)[i] == segments(topic)[i],
    ensures
        spec_topic_matches(pattern, topic),
{
    law_match_position_by_position(pattern, topic);
}

} // verus!
