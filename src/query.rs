//! Query-string parameters, as the pairs that a request carried.

use vstd::prelude::*;

verus! {

/// The value of the last pair named `key`: where a name repeats, the later
/// pair wins, as when the pairs are collected into a map.
pub open spec fn last_value(pairs: Seq<(Seq<char>, Seq<char>)>, key: Seq<char>) -> Option<Seq<char>>
    decreases pairs.len(),
{
    if pairs.len() == 0 {
        None
    } else if pairs.last().0 == key {
        Some(pairs.last().1)
    } else {
        last_value(pairs.drop_last(), key)
    }
}

/// The value of the parameter `key`, if the query has it.
pub fn query_value(pairs: &Vec<(String, String)>, key: &str) -> (r: Option<String>)
    ensures
        r.deep_view() == last_value(pairs.deep_view(), key@),
{
    let ghost ps = pairs.deep_view();
    let k = key.to_string();
    let mut i: usize = pairs.len();
    assert(ps.subrange(0, i as int) =~= ps);
    while i > 0
        invariant
            i <= pairs.len(),
            ps == pairs.deep_view(),
            k@ == key@,
            last_value(ps, key@) == last_value(ps.subrange(0, i as int), key@),
        decreases i,
    {
        let ghost prefix = ps.subrange(0, i as int);
        i = i - 1;
        assert(prefix.drop_last() =~= ps.subrange(0, i as int));
        assert(prefix.last() == ps[i as int]);
        if pairs[i].0 == k {
            return Some(pairs[i].1.clone());
        }
    }
    None
}

} // verus!
