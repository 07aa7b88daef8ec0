//! The query matcher: an item matches when the query's characters occur in
//! it in order, ASCII letters compared without regard to case. The filtered
//! view keeps the matching items in their original order.

use vstd::prelude::*;

verus! {

/// A character with ASCII upper-case letters folded to lower case.
pub open spec fn fold(c: char) -> u32 {
    if 'A' <= c && c <= 'Z' {
        (c as u32 + 32) as u32
    } else {
        c as u32
    }
}

/// Whether `q` occurs in `t` as a subsequence, up to case folding.
pub open spec fn fuzzy_match(q: Seq<char>, t: Seq<char>) -> bool
    decreases t.len(),
{
    if q.len() == 0 {
        true
    } else if t.len() == 0 {
        false
    } else if fold(q[0]) == fold(t[0]) {
        fuzzy_match(q.drop_first(), t.drop_first())
    } else {
        fuzzy_match(q, t.drop_first())
    }
}

/// The texts of a sequence of strings.
pub open spec fn texts(v: Seq<String>) -> Seq<Seq<char>> {
    v.map_values(|s: String| s@)
}

/// The items that match the query, in their original order.
pub open spec fn filter_view(items: Seq<Seq<char>>, q: Seq<char>) -> Seq<Seq<char>>
    decreases items.len(),
{
    if items.len() == 0 {
        Seq::empty()
    } else {
        let rest = filter_view(items.drop_last(), q);
        if fuzzy_match(q, items.last()) {
            rest.push(items.last())
        } else {
            rest
        }
    }
}

/// The characters of a text, in order.
fn chars_of(s: &str) -> (r: Vec<char>)
    ensures
        r@ == s@,
{
    let n = s.unicode_len();
    let mut r: Vec<char> = Vec::new();
    let mut k: usize = 0;
    while k < n
        invariant
            n == s@.len(),
            k <= n,
            r@ == s@.take(k as int),
        decreases n - k,
    {
        r.push(s.get_char(k));
        assert(s@.take(k + 1) =~= s@.take(k as int).push(s@[k as int]));
        k = k + 1;
    }
    assert(s@.take(n as int) =~= s@);
    r
}

fn fold_char(c: char) -> (r: u32)
    ensures
        r == fold(c),
{
    if 'A' <= c && c <= 'Z' {
        c as u32 + 32
    } else {
        c as u32
    }
}

/// Whether the query occurs in the text as a subsequence, up to case folding.
pub fn is_match(query: &Vec<char>, text: &str) -> (r: bool)
    ensures
        r == fuzzy_match(query@, text@),
{
    let t = chars_of(text);
    let mut i: usize = 0;
    let mut j: usize = 0;
    assert(query@.subrange(0, query@.len() as int) =~= query@);
    assert(t@.subrange(0, t@.len() as int) =~= t@);
    while j < t.len() && i < query.len()
        invariant
            t@ == text@,
            i <= query@.len(),
            j <= t@.len(),
            fuzzy_match(query@, t@) == fuzzy_match(query@.subrange(i as int, query@.len() as int), t@.subrange(j as int, t@.len() as int)),
        decreases t.len() - j,
    {
        let ghost qs = query@.subrange(i as int, query@.len() as int);
        let ghost ts = t@.subrange(j as int, t@.len() as int);
        assert(ts.drop_first() =~= t@.subrange(j + 1, t@.len() as int));
        assert(qs.drop_first() =~= query@.subrange(i + 1, query@.len() as int));
        if fold_char(query[i]) == fold_char(t[j]) {
            i = i + 1;
        }
        j = j + 1;
    }
    assert(query@.subrange(query@.len() as int, query@.len() as int).len() == 0);
    assert(t@.subrange(t@.len() as int, t@.len() as int).len() == 0);
    i == query.len()
}

/// The items that match the query, in their original order.
pub fn filter_items(items: &Vec<String>, query: &Vec<char>) -> (r: Vec<String>)
    ensures
        texts(r@) == filter_view(texts(items@), query@),
{
    let mut r: Vec<String> = Vec::new();
    let mut k: usize = 0;
    while k < items.len()
        invariant
            k <= items@.len(),
            texts(r@) == filter_view(texts(items@).subrange(0, k as int), query@),
        decreases items.len() - k,
    {
        let ghost before = texts(items@).subrange(0, k as int);
        let ghost after = texts(items@).subrange(0, k + 1);
        assert(after.drop_last() =~= before);
        assert(after.last() == items@[k as int]@);
        if is_match(query, items[k].as_str()) {
            r.push(items[k].clone());
            assert(texts(r@) =~= texts(r@).drop_last().push(items@[k as int]@));
            assert(texts(r@).drop_last() =~= filter_view(before, query@));
        }
        k = k + 1;
    }
    assert(texts(items@).subrange(0, items@.len() as int) =~= texts(items@));
    r
}

} // verus!
