//! Kubernetes labels, as the pairs of a map in key order, and lookup in them.

use vstd::prelude::*;

use crate::strings::str_eq;

verus! {

/// The value of the first label whose key is `key`, if there is one.
pub open spec fn label_lookup(labels: Seq<(String, String)>, key: Seq<char>) -> Option<Seq<char>>
    decreases labels.len(),
{
    if labels.len() == 0 {
        None
    } else if labels[0].0@ == key {
        Some(labels[0].1@)
    } else {
        label_lookup(labels.drop_first(), key)
    }
}

/// The value of the label `key`, if it is set.
pub fn label_value(labels: &Vec<(String, String)>, key: &str) -> (r: Option<String>)
    ensures
        match r {
            Some(v) => label_lookup(labels@, key@) == Some(v@),
            None => label_lookup(labels@, key@) is None,
        },
{
    let mut i: usize = 0;
    assert(labels@.skip(0) =~= labels@);
    while i < labels.len()
        invariant
            i <= labels@.len(),
            label_lookup(labels@, key@) == label_lookup(labels@.skip(i as int), key@),
        decreases labels.len() - i,
    {
        assert(labels@.skip(i as int)[0] == labels@[i as int]);
        assert(labels@.skip(i as int).drop_first() =~= labels@.skip(i + 1));
        if str_eq(labels[i].0.as_str(), key) {
            return Some(labels[i].1.clone());
        }
        i = i + 1;
    }
    None
}

} // verus!
