//! Ranking of the species name search.
//!
//! A species scores full marks when its name or display name equals the
//! query, slightly less when one starts with it, less again when one
//! contains it, and otherwise its fuzzy similarity to the query. Scores are
//! counted in millionths. Species scoring more than six tenths are kept,
//! best first (ties in database order), up to the requested number.
use vstd::prelude::*;
use crate::text::{contains, has_infix, has_prefix, lowercase, starts_with, str_eq, to_lowercase, trim, trim_spec};

verus! {

/// Full marks.
pub const EXACT_SCORE: u64 = 1_000_000;

/// The score of a species whose name starts with the query.
pub const PREFIX_SCORE: u64 = 950_000;

/// The score of a species whose name contains the query.
pub const INFIX_SCORE: u64 = 900_000;

/// Scores at or below this are dropped.
pub const SCORE_THRESHOLD: u64 = 600_000;

/// A species offered to the search: its id, name and display name, and the
/// better of the fuzzy similarities of the query to the lower-cased name and
/// to the lower-cased display name, in millionths.
#[derive(Debug, Clone)]
pub struct SearchCandidate {
    pub id: i64,
    pub name: String,
    pub display_name: String,
    pub fuzzy: u64,
}

/// A species kept by the search, with its score in millionths.
#[derive(Debug, Clone)]
pub struct ScoredSpecies {
    pub score: u64,
    pub id: i64,
    pub name: String,
    pub display_name: String,
}

/// What a scored species holds.
pub type ScoredView = (u64, i64, Seq<char>, Seq<char>);

impl View for ScoredSpecies {
    type V = ScoredView;

    open spec fn view(&self) -> ScoredView {
        (self.score, self.id, self.name@, self.display_name@)
    }
}

/// Whether a query is blank once lower-cased and trimmed: blank queries
/// find nothing.
pub open spec fn blank_query(query: Seq<char>) -> bool {
    trim_spec(lowercase(query)).len() == 0
}

/// The score of a candidate for a lower-cased query.
pub open spec fn score_of(q: Seq<char>, name: Seq<char>, display: Seq<char>, fuzzy: u64) -> u64 {
    let n = lowercase(name);
    let d = lowercase(display);
    if n == q || d == q {
        EXACT_SCORE
    } else if has_prefix(n, q) || has_prefix(d, q) {
        PREFIX_SCORE
    } else if has_infix(n, q) || has_infix(d, q) {
        INFIX_SCORE
    } else {
        fuzzy
    }
}

/// The candidates that score above the threshold, scored, in order.
pub open spec fn passing(q: Seq<char>, cs: Seq<SearchCandidate>) -> Seq<ScoredView>
    decreases cs.len(),
{
    if cs.len() == 0 {
        seq![]
    } else {
        let c = cs.last();
        let sc = score_of(q, c.name@, c.display_name@, c.fuzzy);
        passing(q, cs.drop_last()) + if sc > SCORE_THRESHOLD {
            seq![(sc, c.id, c.name@, c.display_name@)]
        } else {
            seq![]
        }
    }
}

/// How many leading items score at least `v`.
pub open spec fn count_at_least(s: Seq<ScoredView>, v: u64) -> nat
    decreases s.len(),
{
    if s.len() == 0 {
        0
    } else if s[0].0 >= v {
        1 + count_at_least(s.drop_first(), v)
    } else {
        0
    }
}

/// `x` inserted after the leading items that score at least as much.
pub open spec fn insert_desc(s: Seq<ScoredView>, x: ScoredView) -> Seq<ScoredView> {
    s.insert(count_at_least(s, x.0) as int, x)
}

/// The items sorted by score, highest first, items of equal score in their
/// original order.
pub open spec fn sort_desc(s: Seq<ScoredView>) -> Seq<ScoredView>
    decreases s.len(),
{
    if s.len() == 0 {
        seq![]
    } else {
        insert_desc(sort_desc(s.drop_last()), s.last())
    }
}

/// Items in order of non-increasing score.
pub open spec fn sorted_desc(s: Seq<ScoredView>) -> bool {
    forall|i: int, j: int| 0 <= i <= j < s.len() ==> s[i].0 >= s[j].0
}

/// What the search returns: the passing candidates, best first, at most
/// `limit` of them; nothing for a blank query.
pub open spec fn search_ranking(query: Seq<char>, cs: Seq<SearchCandidate>, limit: nat) -> Seq<ScoredView> {
    if blank_query(query) {
        seq![]
    } else {
        let s = sort_desc(passing(lowercase(query), cs));
        if s.len() <= limit { s } else { s.take(limit as int) }
    }
}

/// A score in millionths rounded to hundredths.
pub open spec fn score_hundredths_spec(score: u64) -> int {
    (score + 5000) / 10000
}

/// Rounds a score in millionths to hundredths.
pub fn score_hundredths(score: u64) -> (r: i64)
    requires
        score <= EXACT_SCORE,
    ensures
        r == score_hundredths_spec(score),
{
    ((score + 5000) / 10000) as i64
}

/// Whether a query finds nothing because it is blank.
pub fn is_blank_query(query: &str) -> (b: bool)
    ensures
        b == blank_query(query@),
{
    let l = to_lowercase(query);
    let t = trim(l.as_str());
    t.as_str().unicode_len() == 0
}

/// Scores one candidate for a lower-cased query.
pub fn score_candidate(q: &str, c: &SearchCandidate) -> (r: u64)
    ensures
        r == score_of(q@, c.name@, c.display_name@, c.fuzzy),
{
    let n = to_lowercase(c.name.as_str());
    let d = to_lowercase(c.display_name.as_str());
    if str_eq(n.as_str(), q) || str_eq(d.as_str(), q) {
        EXACT_SCORE
    } else if starts_with(n.as_str(), q) || starts_with(d.as_str(), q) {
        PREFIX_SCORE
    } else if contains(n.as_str(), q) || contains(d.as_str(), q) {
        INFIX_SCORE
    } else {
        c.fuzzy
    }
}

proof fn lemma_count_at_least(s: Seq<ScoredView>, v: u64, k: int)
    requires
        0 <= k <= s.len(),
        forall|j: int| 0 <= j < k ==> s[j].0 >= v,
        k == s.len() || s[k].0 < v,
    ensures
        count_at_least(s, v) == k,
    decreases k,
{
    if k > 0 {
        lemma_count_at_least(s.drop_first(), v, k - 1);
    }
}

proof fn lemma_count_at_least_bounds(s: Seq<ScoredView>, v: u64)
    ensures
        count_at_least(s, v) <= s.len(),
        forall|j: int| 0 <= j < count_at_least(s, v) ==> s[j].0 >= v,
        count_at_least(s, v) < s.len() ==> s[count_at_least(s, v) as int].0 < v,
    decreases s.len(),
{
    if s.len() > 0 && s[0].0 >= v {
        lemma_count_at_least_bounds(s.drop_first(), v);
        assert forall|j: int| 0 <= j < count_at_least(s, v) implies s[j].0 >= v by {
            if j > 0 {
                assert(s[j] == s.drop_first()[j - 1]);
            }
        }
    }
}

/// Inserting after the items that score at least as much keeps items in
/// order of score.
pub proof fn lemma_insert_desc_sorted(s: Seq<ScoredView>, x: ScoredView)
    requires
        sorted_desc(s),
    ensures
        sorted_desc(insert_desc(s, x)),
        insert_desc(s, x).len() == s.len() + 1,
{
    lemma_count_at_least_bounds(s, x.0);
    let k = count_at_least(s, x.0) as int;
    let t = insert_desc(s, x);
    assert forall|i: int, j: int| 0 <= i <= j < t.len() implies t[i].0 >= t[j].0 by {
        if j < k {
        } else if j == k {
            if i < k {
            }
        } else if i < k {
        } else if i == k {
            assert(t[j] == s[j - 1]);
            assert(s[k].0 < x.0);
            assert(s[k].0 >= s[j - 1].0);
        } else {
        }
    }
}

/// Sorting puts every item in order of score and keeps the count.
pub proof fn lemma_sort_desc_sorted(s: Seq<ScoredView>)
    ensures
        sorted_desc(sort_desc(s)),
        sort_desc(s).len() == s.len(),
    decreases s.len(),
{
    if s.len() > 0 {
        lemma_sort_desc_sorted(s.drop_last());
        lemma_insert_desc_sorted(sort_desc(s.drop_last()), s.last());
    }
}

/// Every passing candidate scores above the threshold.
pub proof fn lemma_passing_above_threshold(q: Seq<char>, cs: Seq<SearchCandidate>)
    ensures
        forall|i: int| 0 <= i < passing(q, cs).len() ==> passing(q, cs)[i].0 > SCORE_THRESHOLD,
    decreases cs.len(),
{
    if cs.len() > 0 {
        lemma_passing_above_threshold(q, cs.drop_last());
        let p0 = passing(q, cs.drop_last());
        assert forall|i: int| 0 <= i < passing(q, cs).len() implies passing(q, cs)[i].0 > SCORE_THRESHOLD by {
            if i < p0.len() {
                assert(passing(q, cs)[i] == p0[i]);
            }
        }
    }
}

proof fn lemma_insert_keeps_items(s: Seq<ScoredView>, x: ScoredView)
    ensures
        forall|i: int| 0 <= i < insert_desc(s, x).len() ==> (insert_desc(s, x)[i] == x || s.contains(insert_desc(s, x)[i])),
{
    lemma_count_at_least_bounds(s, x.0);
    let k = count_at_least(s, x.0) as int;
    assert forall|i: int| 0 <= i < insert_desc(s, x).len() implies (insert_desc(s, x)[i] == x || s.contains(
        insert_desc(s, x)[i],
    )) by {
        if i < k {
            assert(insert_desc(s, x)[i] == s[i]);
        } else if i > k {
            assert(insert_desc(s, x)[i] == s[i - 1]);
        }
    }
}

/// Sorting only rearranges: every item of the result is an item of the input.
pub proof fn lemma_sort_desc_items(s: Seq<ScoredView>)
    ensures
        forall|i: int| 0 <= i < sort_desc(s).len() ==> s.contains(#[trigger] sort_desc(s)[i]),
    decreases s.len(),
{
    if s.len() > 0 {
        lemma_sort_desc_items(s.drop_last());
        lemma_insert_keeps_items(sort_desc(s.drop_last()), s.last());
        assert forall|i: int| 0 <= i < sort_desc(s).len() implies s.contains(#[trigger] sort_desc(s)[i]) by {
            let y = sort_desc(s)[i];
            if y == s.last() {
                assert(s[s.len() - 1] == y);
            } else {
                let t = sort_desc(s.drop_last());
                assert(t.contains(y));
                let j = choose|j: int| 0 <= j < t.len() && t[j] == y;
                assert(s.drop_last().contains(y));
                let m = choose|m: int| 0 <= m < s.drop_last().len() && s.drop_last()[m] == y;
                assert(s[m] == y);
            }
        }
    }
}

/// Ranks the candidates for a query.
pub fn rank_search(query: &str, cands: &Vec<SearchCandidate>, limit: u64) -> (r: Vec<ScoredSpecies>)
    ensures
        r@.map_values(|x: ScoredSpecies| x@) == search_ranking(query@, cands@, limit as nat),
{
    if is_blank_query(query) {
        let r: Vec<ScoredSpecies> = Vec::new();
        assert(r@.map_values(|x: ScoredSpecies| x@) =~= Seq::<ScoredView>::empty());
        return r;
    }
    let q = to_lowercase(query);
    let ghost qv = lowercase(query@);
    let mut r: Vec<ScoredSpecies> = Vec::new();
    let mut i: usize = 0;
    while i < cands.len()
        invariant
            i <= cands@.len(),
            q@ == qv,
            r@.map_values(|x: ScoredSpecies| x@) == sort_desc(passing(qv, cands@.subrange(0, i as int))),
        decreases cands.len() - i,
    {
        let ghost pre = cands@.subrange(0, i + 1);
        assert(pre.drop_last() =~= cands@.subrange(0, i as int));
        let c = &cands[i];
        let sc = score_candidate(q.as_str(), c);
        if sc > SCORE_THRESHOLD {
            let ghost rv = r@.map_values(|x: ScoredSpecies| x@);
            let mut k: usize = 0;
            while k < r.len() && r[k].score >= sc
                invariant
                    k <= r@.len(),
                    rv == r@.map_values(|x: ScoredSpecies| x@),
                    forall|j: int| 0 <= j < k ==> rv[j].0 >= sc,
                decreases r.len() - k,
            {
                k = k + 1;
            }
            proof {
                lemma_count_at_least(rv, sc, k as int);
            }
            let item = ScoredSpecies { score: sc, id: c.id, name: c.name.clone(), display_name: c.display_name.clone() };
            r.insert(k, item);
            assert(passing(qv, pre) =~= passing(qv, cands@.subrange(0, i as int)).push(
                (sc, c.id, c.name@, c.display_name@),
            ));
            assert(r@.map_values(|x: ScoredSpecies| x@) =~= rv.insert(k as int, (sc, c.id, c.name@, c.display_name@)));
        } else {
            assert(passing(qv, pre) =~= passing(qv, cands@.subrange(0, i as int)));
        }
        proof {
            let p = passing(qv, pre);
            if p.len() > 0 && p != passing(qv, cands@.subrange(0, i as int)) {
                assert(p.drop_last() =~= passing(qv, cands@.subrange(0, i as int)));
            }
        }
        i = i + 1;
    }
    assert(cands@.subrange(0, cands@.len() as int) =~= cands@);
    if (r.len() as u64) > limit {
        r.truncate(limit as usize);
    }
    let ghost full = sort_desc(passing(qv, cands@));
    assert(r@.map_values(|x: ScoredSpecies| x@) =~= (if full.len() <= limit as nat { full } else { full.take(limit as int) }));
    r
}

/// Search results come best first, each scores above the threshold, and
/// there are at most `limit` of them.
pub proof fn law_search_ranking(query: Seq<char>, cs: Seq<SearchCandidate>, limit: nat)
    ensures
        sorted_desc(search_ranking(query, cs, limit)),
        forall|i: int| 0 <= i < search_ranking(query, cs, limit).len() ==> #[trigger] search_ranking(query, cs, limit)[i].0
            > SCORE_THRESHOLD,
        search_ranking(query, cs, limit).len() <= limit,
{
    if !blank_query(query) {
        let p = passing(lowercase(query), cs);
        let s = sort_desc(p);
        lemma_sort_desc_sorted(p);
        lemma_sort_desc_items(p);
        lemma_passing_above_threshold(lowercase(query), cs);
        assert forall|i: int| 0 <= i < s.len() implies s[i].0 > SCORE_THRESHOLD by {
            assert(p.contains(s[i]));
        }
        let r = search_ranking(query, cs, limit);
        assert forall|i: int| 0 <= i < r.len() implies #[trigger] r[i].0 > SCORE_THRESHOLD by {
            assert(r[i] == s[i]);
        }
        assert forall|i: int, j: int| 0 <= i <= j < r.len() implies r[i].0 >= r[j].0 by {
            assert(r[i] == s[i] && r[j] == s[j]);
        }
    }
}

// ---------------------------------------------------------------------
// Close names
// ---------------------------------------------------------------------

/// The names that score above `threshold`, in order.
pub open spec fn names_above_spec(s: Seq<(u64, Seq<char>)>, threshold: u64) -> Seq<Seq<char>>
    decreases s.len(),
{
    if s.len() == 0 {
        seq![]
    } else {
        names_above_spec(s.drop_last(), threshold) + if s.last().0 > threshold {
            seq![s.last().1]
        } else {
            seq![]
        }
    }
}

/// The scored names, by their views.
pub open spec fn scored_names_view(s: Seq<(u64, String)>) -> Seq<(u64, Seq<char>)> {
    s.map_values(|x: (u64, String)| (x.0, x.1@))
}

/// The names that score above `threshold`, in their order.
pub fn names_above(scored: &Vec<(u64, String)>, threshold: u64) -> (r: Vec<String>)
    ensures
        r@.map_values(|n: String| n@) == names_above_spec(scored_names_view(scored@), threshold),
{
    let ghost sv = scored_names_view(scored@);
    let mut r: Vec<String> = Vec::new();
    let mut i: usize = 0;
    while i < scored.len()
        invariant
            i <= scored@.len(),
            sv == scored_names_view(scored@),
            r@.map_values(|n: String| n@) == names_above_spec(sv.take(i as int), threshold),
        decreases scored.len() - i,
    {
        assert(sv.take(i as int + 1).drop_last() =~= sv.take(i as int));
        let ghost before = r@.map_values(|n: String| n@);
        if scored[i].0 > threshold {
            r.push(scored[i].1.clone());
            assert(r@.map_values(|n: String| n@) =~= before.push(scored@[i as int].1@));
        }
        assert(r@.map_values(|n: String| n@) =~= names_above_spec(sv.take(i as int + 1), threshold));
        i = i + 1;
    }
    assert(sv.take(scored@.len() as int) =~= sv);
    r
}

/// The names that score above `threshold` as scored items, in order.
pub open spec fn close_passing(s: Seq<(u64, Seq<char>)>, threshold: u64) -> Seq<ScoredView>
    decreases s.len(),
{
    if s.len() == 0 {
        seq![]
    } else {
        close_passing(s.drop_last(), threshold) + if s.last().0 > threshold {
            seq![(s.last().0, 0i64, s.last().1, s.last().1)]
        } else {
            seq![]
        }
    }
}

/// The names that score above `threshold`, best first (ties in their
/// order), at most `limit` of them.
pub open spec fn closest_spec(s: Seq<(u64, Seq<char>)>, threshold: u64, limit: nat) -> Seq<Seq<char>> {
    let sorted = sort_desc(close_passing(s, threshold));
    let kept = if sorted.len() <= limit { sorted } else { sorted.take(limit as int) };
    kept.map_values(|x: ScoredView| x.2)
}

/// The names that score above `threshold`, best first, at most `limit`.
pub fn closest_names(scored: &Vec<(u64, String)>, threshold: u64, limit: u64) -> (r: Vec<String>)
    ensures
        r@.map_values(|n: String| n@) == closest_spec(scored_names_view(scored@), threshold, limit as nat),
{
    let ghost sv = scored_names_view(scored@);
    let mut r: Vec<ScoredSpecies> = Vec::new();
    let mut i: usize = 0;
    while i < scored.len()
        invariant
            i <= scored@.len(),
            sv == scored_names_view(scored@),
            r@.map_values(|x: ScoredSpecies| x@) == sort_desc(close_passing(sv.take(i as int), threshold)),
        decreases scored.len() - i,
    {
        let ghost pre = sv.take(i as int + 1);
        assert(pre.drop_last() =~= sv.take(i as int));
        let sc = scored[i].0;
        if sc > threshold {
            let ghost rv = r@.map_values(|x: ScoredSpecies| x@);
            let mut k: usize = 0;
            while k < r.len() && r[k].score >= sc
                invariant
                    k <= r@.len(),
                    rv == r@.map_values(|x: ScoredSpecies| x@),
                    forall|j: int| 0 <= j < k ==> rv[j].0 >= sc,
                decreases r.len() - k,
            {
                k = k + 1;
            }
            proof {
                lemma_count_at_least(rv, sc, k as int);
            }
            let item = ScoredSpecies { score: sc, id: 0, name: scored[i].1.clone(), display_name: scored[i].1.clone() };
            r.insert(k, item);
            assert(close_passing(pre, threshold) =~= close_passing(sv.take(i as int), threshold).push(
                (sc, 0i64, scored@[i as int].1@, scored@[i as int].1@),
            ));
            assert(r@.map_values(|x: ScoredSpecies| x@) =~= rv.insert(
                k as int,
                (sc, 0i64, scored@[i as int].1@, scored@[i as int].1@),
            ));
            proof {
                let p = close_passing(pre, threshold);
                assert(p.drop_last() =~= close_passing(sv.take(i as int), threshold));
                assert(p.last() == (sc, 0i64, scored@[i as int].1@, scored@[i as int].1@));
            }
        } else {
            assert(close_passing(pre, threshold) =~= close_passing(sv.take(i as int), threshold));
        }
        i = i + 1;
    }
    assert(sv.take(scored@.len() as int) =~= sv);
    if (r.len() as u64) > limit {
        r.truncate(limit as usize);
    }
    let ghost full = sort_desc(close_passing(sv, threshold));
    let ghost kept = if full.len() <= limit as nat { full } else { full.take(limit as int) };
    assert(r@.map_values(|x: ScoredSpecies| x@) =~= kept);
    let mut names: Vec<String> = Vec::new();
    let mut j: usize = 0;
    while j < r.len()
        invariant
            j <= r@.len(),
            r@.map_values(|x: ScoredSpecies| x@) == kept,
            names@.map_values(|n: String| n@) == kept.take(j as int).map_values(|x: ScoredView| x.2),
        decreases r.len() - j,
    {
        let ghost before = names@.map_values(|n: String| n@);
        names.push(r[j].name.clone());
        assert(kept.take(j as int + 1) =~= kept.take(j as int).push(kept[j as int]));
        assert(names@.map_values(|n: String| n@) =~= before.push(r@[j as int].name@));
        assert(names@.map_values(|n: String| n@) =~= kept.take(j as int + 1).map_values(|x: ScoredView| x.2));
        j = j + 1;
    }
    assert(kept.take(r@.len() as int) =~= kept);
    names
}

} // verus!
