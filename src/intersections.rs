use std::collections::HashMap;
use vstd::prelude::*;
use vstd::std_specs::hash::group_hash_axioms;

verus! {

broadcast use group_hash_axioms;

/// The map that results from inserting the entries of `s` in order: for
/// each key, the value of the last entry that carries it.
pub open spec fn keyed<T>(s: Seq<(i64, T)>) -> Map<i64, T>
    decreases s.len(),
{
    if s.len() == 0 {
        Map::empty()
    } else {
        keyed(s.drop_last()).insert(s.last().0, s.last().1)
    }
}

/// Groups the roots found from several starting points by their rounded key,
/// so that one root reached from two starts counts once; of each group the
/// root found last is kept.
pub fn distinct_roots<T: Copy>(entries: &Vec<(i64, T)>) -> (r: HashMap<i64, T>)
    ensures
        r@ == keyed(entries@),
{
    let mut r: HashMap<i64, T> = HashMap::new();
    let mut i: usize = 0;
    while i < entries.len()
        invariant
            i <= entries@.len(),
            r@ == keyed(entries@.subrange(0, i as int)),
        decreases entries.len() - i,
    {
        let (k, v) = entries[i];
        r.insert(k, v);
        assert(entries@.subrange(0, i + 1).drop_last() =~= entries@.subrange(0, i as int));
        i = i + 1;
    }
    assert(entries@.subrange(0, i as int) =~= entries@);
    r
}

} // verus!
