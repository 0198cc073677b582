use vstd::prelude::*;
use crate::json::{pairs_view, str_eq, JsonV, JsonValue};

verus! {

/// Membership of a key in a list of keys.
pub open spec fn key_in(keys: Seq<Seq<char>>, k: Seq<char>) -> bool {
    exists|i: int| 0 <= i < keys.len() && keys[i] == k
}

/// The views of a list of key strings.
pub open spec fn strings_view(keys: Seq<String>) -> Seq<Seq<char>> {
    Seq::new(keys.len(), |i: int| keys[i]@)
}

/// The members whose keys are not in `keys`, in order.
pub open spec fn keep_unknown(s: Seq<(Seq<char>, JsonV)>, keys: Seq<Seq<char>>) -> Seq<
    (Seq<char>, JsonV),
>
    decreases s.len(),
{
    if s.len() == 0 {
        Seq::empty()
    } else {
        let rest = keep_unknown(s.drop_last(), keys);
        if key_in(keys, s.last().0) {
            rest
        } else {
            rest.push(s.last())
        }
    }
}

/// Is the view of `key` one of the views of `keys`?
pub fn contains_key(keys: &Vec<String>, key: &str) -> (r: bool)
    ensures
        r == key_in(strings_view(keys@), key@),
{
    let n = keys.len();
    for j in 0..n
        invariant
            n == keys@.len(),
            forall|t: int| 0 <= t < j ==> keys@[t]@ != key@,
        decreases n - j,
    {
        if str_eq(keys[j].as_str(), key) {
            proof {
                assert(strings_view(keys@)[j as int] == key@);
            }
            return true;
        }
    }
    return false;
}

/// The members of `pairs` whose keys are not in `known`, copied in order.
pub fn extra_fields(pairs: &Vec<(String, JsonValue)>, known: &Vec<String>) -> (r: Vec<
    (String, JsonValue),
>)
    ensures
        pairs_view(r@) == keep_unknown(pairs_view(pairs@), strings_view(known@)),
{
    proof {
        crate::json::lemma_pairs_view(pairs@);
    }
    let ghost members = pairs_view(pairs@);
    let ghost keys = strings_view(known@);
    let mut out: Vec<(String, JsonValue)> = Vec::new();
    let n = pairs.len();
    proof {
        assert(members.take(0) =~= Seq::<(Seq<char>, JsonV)>::empty());
        assert(pairs_view(out@) =~= keep_unknown(members.take(0), keys));
    }
    for i in 0..n
        invariant
            n == pairs@.len(),
            members == pairs_view(pairs@),
            members.len() == n,
            forall|j: int| 0 <= j < n ==> members[j] == (
                pairs@[j].0@,
                crate::json::jv_view(pairs@[j].1),
            ),
            keys == strings_view(known@),
            pairs_view(out@) == keep_unknown(members.take(i as int), keys),
        decreases n - i,
    {
        let ghost prev = out@;
        proof {
            assert(members.take(i + 1).drop_last() =~= members.take(i as int));
            assert(members.take(i + 1).last() == members[i as int]);
        }
        if !contains_key(known, pairs[i].0.as_str()) {
            let key = pairs[i].0.clone();
            let value = pairs[i].1.deep_copy();
            out.push((key, value));
            proof {
                crate::json::lemma_pairs_view(prev);
                crate::json::lemma_pairs_view(out@);
                assert(pairs_view(out@) =~= pairs_view(prev).push(members[i as int]));
            }
        }
    }
    proof {
        assert(members.take(n as int) =~= members);
    }
    out
}

} // verus!
