use vstd::prelude::*;
use crate::text::same_text;

verus! {

/// A list of string pairs, as character sequences.
pub open spec fn pairs_view(v: Vec<(String, String)>) -> Seq<(Seq<char>, Seq<char>)> {
    v@.map_values(|p: (String, String)| (p.0@, p.1@))
}

/// The value paired with `key`: where several pairs have that key, the last wins.
pub open spec fn lookup_last(entries: Seq<(Seq<char>, Seq<char>)>, key: Seq<char>) -> Option<Seq<char>>
    decreases entries.len(),
{
    if entries.len() == 0 {
        None
    } else if entries.last().0 == key {
        Some(entries.last().1)
    } else {
        lookup_last(entries.drop_last(), key)
    }
}

/// The value paired with `key`, the last pair winning.
pub fn lookup_pair(keys: &Vec<(String, String)>, key: &str) -> (r: Option<String>)
    ensures
        r matches Some(s) ==> lookup_last(pairs_view(*keys), key@) == Some(s@),
        r is None ==> lookup_last(pairs_view(*keys), key@) is None,
{
    let ghost es = pairs_view(*keys);
    let mut found: Option<String> = None;
    let mut i: usize = 0;
    while i < keys.len()
        invariant
            es == pairs_view(*keys),
            i <= keys@.len(),
            found matches Some(s) ==> lookup_last(es.take(i as int), key@) == Some(s@),
            found is None ==> lookup_last(es.take(i as int), key@) is None,
        decreases keys@.len() - i,
    {
        proof {
            assert(es.take(i + 1).drop_last() =~= es.take(i as int));
            assert(es.take(i + 1).last() == es[i as int]);
        }
        if same_text(keys[i].0.as_str(), key) {
            found = Some(keys[i].1.clone());
        }
        i = i + 1;
    }
    assert(es.take(keys@.len() as int) =~= es);
    found
}

} // verus!
