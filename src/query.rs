use vstd::prelude::*;

use crate::model::param_observed;

verus! {

/// The pairs of a query string, as texts.
pub open spec fn pair_views(pairs: Seq<(String, String)>) -> Seq<(Seq<char>, Seq<char>)> {
    pairs.map_values(|p: (String, String)| (p.0@, p.1@))
}

/// The decoded `key=value` pairs of an `application/x-www-form-urlencoded`
/// text, in order.
pub uninterp spec fn form_pairs_of(query: Seq<char>) -> Seq<(Seq<char>, Seq<char>)>;

/// Relies on `url::form_urlencoded::parse(..).into_owned()`: the decoded
/// pairs depend on the text alone, and an empty text has none.
#[verifier::external_body]
fn form_pairs(query: &str) -> (r: Vec<(String, String)>)
    ensures
        pair_views(r@) == form_pairs_of(query@),
        query@.len() == 0 ==> r@.len() == 0,
{
    url::form_urlencoded::parse(query.as_bytes()).into_owned().collect()
}

/// Whether the pair `(k, v)` occurs in `pairs`.
pub open spec fn pair_seen(pairs: Seq<(String, String)>, k: Seq<char>, v: Seq<char>) -> bool {
    exists|i: int| 0 <= i < pairs.len() && #[trigger] pairs[i].0@ == k && pairs[i].1@ == v
}

pub open spec fn has_value(values: Seq<String>, v: Seq<char>) -> bool {
    exists|b: int| 0 <= b < values.len() && #[trigger] values[b]@ == v
}

pub open spec fn has_key(params: Seq<(String, Vec<String>)>, k: Seq<char>) -> bool {
    exists|a: int| 0 <= a < params.len() && #[trigger] params[a].0@ == k
}

pub open spec fn keys_distinct(params: Seq<(String, Vec<String>)>) -> bool {
    forall|a: int, b: int| 0 <= a < b < params.len() ==> #[trigger] params[a].0@ != #[trigger] params[b].0@
}

fn contains_text(values: &Vec<String>, v: &String) -> (r: bool)
    ensures
        r == has_value(values@, v@),
{
    let mut i: usize = 0;
    while i < values.len()
        invariant
            i <= values.len(),
            forall|b: int| 0 <= b < i ==> #[trigger] values@[b]@ != v@,
        decreases values.len() - i,
    {
        if values[i] == *v {
            return true;
        }
        i += 1;
    }
    false
}

fn contains_key(params: &Vec<(String, Vec<String>)>, k: &String) -> (r: bool)
    ensures
        r == has_key(params@, k@),
{
    let mut i: usize = 0;
    while i < params.len()
        invariant
            i <= params.len(),
            forall|a: int| 0 <= a < i ==> #[trigger] params@[a].0@ != k@,
        decreases params.len() - i,
    {
        if params[i].0 == *k {
            return true;
        }
        i += 1;
    }
    false
}

/// Whether `(k, v)` occurs among the first `n` pairs.
pub open spec fn seen_before(pairs: Seq<(String, String)>, k: Seq<char>, v: Seq<char>, n: int) -> bool {
    exists|i: int| 0 <= i < n && #[trigger] pairs[i].0@ == k && pairs[i].1@ == v
}

proof fn lemma_seen_step(pairs: Seq<(String, String)>, k: Seq<char>, v: Seq<char>, n: int)
    requires
        0 <= n < pairs.len(),
    ensures
        seen_before(pairs, k, v, n + 1) == (seen_before(pairs, k, v, n) || (pairs[n].0@ == k
            && pairs[n].1@ == v)),
{
    if seen_before(pairs, k, v, n + 1) && !(pairs[n].0@ == k && pairs[n].1@ == v) {
        let i = choose|i: int| 0 <= i < n + 1 && #[trigger] pairs[i].0@ == k && pairs[i].1@ == v;
        assert(i < n);
    }
    if pairs[n].0@ == k && pairs[n].1@ == v {
        assert(pairs[n].0@ == k);
    }
}

proof fn lemma_has_value_push(old_values: Seq<String>, x: String, v: Seq<char>)
    ensures
        has_value(old_values.push(x), v) == (has_value(old_values, v) || x@ == v),
{
    let values = old_values.push(x);
    if has_value(values, v) && x@ != v {
        let b = choose|b: int| 0 <= b < values.len() && #[trigger] values[b]@ == v;
        assert(old_values[b] == values[b]);
    }
    if has_value(old_values, v) {
        let b = choose|b: int| 0 <= b < old_values.len() && #[trigger] old_values[b]@ == v;
        assert(values[b] == old_values[b]);
    }
    if x@ == v {
        assert(values[old_values.len() as int]@ == v);
    }
}

/// The distinct values that key `k` has in `pairs`.
fn values_of(pairs: &Vec<(String, String)>, k: &String) -> (r: Vec<String>)
    ensures
        forall|v: Seq<char>| has_value(r@, v) <==> pair_seen(pairs@, k@, v),
{
    let mut r: Vec<String> = Vec::new();
    let mut j: usize = 0;
    while j < pairs.len()
        invariant
            j <= pairs.len(),
            forall|v: Seq<char>| has_value(r@, v) <==> seen_before(pairs@, k@, v, j as int),
        decreases pairs.len() - j,
    {
        let ghost old_r = r@;
        let same_key = pairs[j].0 == *k;
        if same_key && !contains_text(&r, &pairs[j].1) {
            r.push(pairs[j].1.clone());
        }
        assert forall|v: Seq<char>| has_value(r@, v) <==> seen_before(pairs@, k@, v, j + 1) by {
            lemma_seen_step(pairs@, k@, v, j as int);
            lemma_has_value_push(old_r, pairs@[j as int].1, v);
        }
        j += 1;
    }
    assert forall|v: Seq<char>| seen_before(pairs@, k@, v, pairs@.len() as int) == pair_seen(pairs@, k@, v) by {}
    r
}

/// Groups query pairs by key: each key once, with every value seen for it.
pub fn group_params(pairs: &Vec<(String, String)>) -> (r: Vec<(String, Vec<String>)>)
    ensures
        keys_distinct(r@),
        forall|k: Seq<char>, v: Seq<char>| param_observed(r@, k, v) <==> pair_seen(pairs@, k, v),
        r@.len() <= pairs@.len(),
{
    let mut r: Vec<(String, Vec<String>)> = Vec::new();
    let mut i: usize = 0;
    while i < pairs.len()
        invariant
            i <= pairs.len(),
            r@.len() <= i,
            keys_distinct(r@),
            forall|i2: int| 0 <= i2 < i ==> #[trigger] has_key(r@, pairs@[i2].0@),
            forall|a: int, v: Seq<char>|
                0 <= a < r@.len() ==> (#[trigger] has_value(r@[a].1@, v) <==> pair_seen(pairs@, r@[a].0@, v)),
        decreases pairs.len() - i,
    {
        let ghost old_r = r@;
        let k = &pairs[i].0;
        if !contains_key(&r, k) {
            let values = values_of(pairs, k);
            r.push((k.clone(), values));
            assert forall|a: int| 0 <= a < old_r.len() implies r@[a] == old_r[a] by {}
            assert forall|i2: int| 0 <= i2 < i + 1 implies #[trigger] has_key(r@, pairs@[i2].0@) by {
                if i2 < i {
                    assert(has_key(old_r, pairs@[i2].0@));
                    let a = choose|a: int| 0 <= a < old_r.len() && #[trigger] old_r[a].0@ == pairs@[i2].0@;
                    assert(r@[a].0@ == pairs@[i2].0@);
                } else {
                    assert(r@[old_r.len() as int].0@ == pairs@[i2].0@);
                }
            }
            assert forall|a: int, b: int| 0 <= a < b < r@.len() implies #[trigger] r@[a].0@ != #[trigger] r@[b].0@ by {
                if b == old_r.len() {
                    assert(old_r[a].0@ != k@);
                }
            }
        }
        i += 1;
    }
    assert forall|k: Seq<char>, v: Seq<char>| pair_seen(pairs@, k, v) implies param_observed(r@, k, v) by {
        let i2 = choose|i2: int| 0 <= i2 < pairs@.len() && #[trigger] pairs@[i2].0@ == k && pairs@[i2].1@ == v;
        assert(has_key(r@, pairs@[i2].0@));
        let a = choose|a: int| 0 <= a < r@.len() && #[trigger] r@[a].0@ == pairs@[i2].0@;
        assert(has_value(r@[a].1@, v));
        let b = choose|b: int| 0 <= b < r@[a].1@.len() && #[trigger] r@[a].1@[b]@ == v;
        assert(r@[a].1@[b]@ == v);
    }
    assert forall|k: Seq<char>, v: Seq<char>| param_observed(r@, k, v) implies pair_seen(pairs@, k, v) by {
        let (a, b) = choose|a: int, b: int|
            0 <= a < r@.len() && r@[a].0@ == k && 0 <= b < r@[a].1@.len() && #[trigger] r@[a].1@[b]@ == v;
        assert(has_value(r@[a].1@, v));
    }
    r
}

/// Whether the decoded query text `query` holds the pair `(k, v)`.
pub open spec fn query_has_pair(query: Seq<char>, k: Seq<char>, v: Seq<char>) -> bool {
    exists|i: int| 0 <= i < form_pairs_of(query).len() && #[trigger] form_pairs_of(query)[i] == (k, v)
}

/// The query parameters of a request, from the query part of its target
/// (the text after `?`, without it): each key once, with the set of values
/// given for it.
pub fn parse_query_params(query: &str) -> (r: Vec<(String, Vec<String>)>)
    ensures
        keys_distinct(r@),
        forall|k: Seq<char>, v: Seq<char>| param_observed(r@, k, v) <==> query_has_pair(query@, k, v),
        query@.len() == 0 ==> r@.len() == 0,
{
    let pairs = form_pairs(query);
    let r = group_params(&pairs);
    assert forall|k: Seq<char>, v: Seq<char>| pair_seen(pairs@, k, v) == query_has_pair(query@, k, v) by {
        if pair_seen(pairs@, k, v) {
            let i = choose|i: int| 0 <= i < pairs@.len() && #[trigger] pairs@[i].0@ == k && pairs@[i].1@ == v;
            assert(pair_views(pairs@)[i] == (k, v));
        }
        if query_has_pair(query@, k, v) {
            let i = choose|i: int| 0 <= i < form_pairs_of(query@).len() && #[trigger] form_pairs_of(query@)[i] == (k, v);
            assert(pair_views(pairs@)[i] == (pairs@[i].0@, pairs@[i].1@));
        }
    }
    r
}

} // verus!
