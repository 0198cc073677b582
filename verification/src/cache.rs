use vstd::prelude::*;
use vstd::string::*;
use crate::error::{ErrV, OpenApiError};
use crate::json::{obj_get, pairs_view, JsonV, JsonValue};
use crate::pointer::{is_local_ref, ref_segments, ref_segs, seg_views};

verus! {

/// Follows a path of member names down an untyped tree, first match
/// per step; `None` when a step is missing or the node is no object.
pub open spec fn lookup_path(v: JsonV, segs: Seq<Seq<char>>) -> Option<JsonV>
    decreases segs.len(),
{
    if segs.len() == 0 {
        Some(v)
    } else {
        match v {
            JsonV::Object(members) => match obj_get(members, segs[0]) {
                Some(child) => lookup_path(child, segs.drop_first()),
                None => None,
            },
            _ => None,
        }
    }
}

/// What resolving a reference string against the raw document yields:
/// the first matching subtree, or `None` for a missing path.
pub open spec fn spec_locate(raw: JsonV, reference: Seq<char>) -> Option<JsonV> {
    if is_local_ref(reference) {
        lookup_path(raw, ref_segs(reference))
    } else {
        None
    }
}

/// The message of the error reported when a syntactically valid local
/// reference has no value in the document.
pub open spec fn no_match_msg(reference: Seq<char>) -> Seq<char> {
    "no value found at reference "@ + reference
}

/// The outcome of one raw pointer resolution, cache aside.
pub open spec fn spec_resolve(raw: JsonV, reference: Seq<char>) -> Result<JsonV, ErrV> {
    if !is_local_ref(reference) {
        Err(ErrV::UnsupportedRefFormat { reference })
    } else {
        match lookup_path(raw, ref_segs(reference)) {
            Some(v) => Ok(v),
            None => Err(ErrV::ParsingError { msg: no_match_msg(reference) }),
        }
    }
}

/// Memo of raw subtrees already extracted, keyed by the reference
/// string; write-once per key, for the lifetime of one pass.
pub struct ResolutionCache {
    entries: Vec<(String, JsonValue)>,
}

impl View for ResolutionCache {
    type V = Seq<(Seq<char>, JsonV)>;

    closed spec fn view(&self) -> Seq<(Seq<char>, JsonV)> {
        pairs_view(self.entries@)
    }
}

/// Every cached value is exactly what resolving its key against the
/// raw document yields.
pub open spec fn cache_wf(cv: Seq<(Seq<char>, JsonV)>, raw: JsonV) -> bool {
    forall|i: int| 0 <= i < cv.len() ==> spec_locate(raw, cv[i].0) == Some(cv[i].1)
}

/// A value found in a well-formed cache equals what a fresh resolution
/// of the same reference returns: resolving a pointer a second time
/// yields the value of the first resolution.
pub proof fn lemma_cached_value_is_resolution(
    cv: Seq<(Seq<char>, JsonV)>,
    raw: JsonV,
    reference: Seq<char>,
    v: JsonV,
)
    requires
        cache_wf(cv, raw),
        obj_get(cv, reference) == Some(v),
    ensures
        spec_resolve(raw, reference) == Ok::<JsonV, ErrV>(v),
    decreases cv.len(),
{
    if cv.len() > 0 {
        if cv[0].0 == reference {
        } else {
            assert(forall|i: int| 0 <= i < cv.drop_first().len()
                ==> cv.drop_first()[i] == cv[i + 1]);
            lemma_cached_value_is_resolution(cv.drop_first(), raw, reference, v);
        }
    }
}

proof fn lemma_obj_get_push(
    s: Seq<(Seq<char>, JsonV)>,
    key: Seq<char>,
    v: JsonV,
)
    requires
        obj_get(s, key) is None,
    ensures
        obj_get(s.push((key, v)), key) == Some(v),
    decreases s.len(),
{
    if s.len() == 0 {
        assert(s.push((key, v))[0] == (key, v));
    } else {
        assert(s.push((key, v)).drop_first() =~= s.drop_first().push((key, v)));
        lemma_obj_get_push(s.drop_first(), key, v);
    }
}

impl ResolutionCache {
    /// An empty memo.
    pub fn new() -> (r: ResolutionCache)
        ensures
            r@ == Seq::<(Seq<char>, JsonV)>::empty(),
    {
        let r = ResolutionCache { entries: Vec::new() };
        proof {
            assert(r@ =~= Seq::<(Seq<char>, JsonV)>::empty());
        }
        r
    }
}

impl JsonValue {
    /// Walks `segs` down from `self`, one member lookup per segment.
    fn walk_path<'a>(&'a self, segs: &Vec<String>) -> (r: Option<&'a JsonValue>)
        ensures
            match r {
                Some(v) => lookup_path(self@, seg_views(segs@)) == Some(v@),
                None => lookup_path(self@, seg_views(segs@)) is None,
            },
    {
        let ghost views: Seq<Seq<char>> = seg_views(segs@);
        let mut cur: &JsonValue = self;
        let n = segs.len();
        proof {
            assert(views.skip(0) =~= views);
        }
        for k in 0..n
            invariant
                n == segs@.len(),
                views == seg_views(segs@),
                lookup_path(self@, views) == lookup_path(cur@, views.skip(k as int)),
            decreases n - k,
        {
            proof {
                assert(views.skip(k as int).len() > 0);
                assert(views.skip(k as int)[0] == segs@[k as int]@);
                assert(views.skip(k as int).drop_first() =~= views.skip(k + 1));
            }
            match cur {
                JsonValue::Object(pairs) => {
                    match crate::json::lookup_key(pairs, segs[k].as_str()) {
                        Some(child) => {
                            cur = child;
                        }
                        None => {
                            return None;
                        }
                    }
                }
                _ => {
                    return None;
                }
            }
        }
        proof {
            assert(views.skip(n as int) =~= Seq::<Seq<char>>::empty());
        }
        Some(cur)
    }
}

/// Resolves one reference string against the raw document, through the
/// memo: a hit leaves the memo untouched; a miss performs the lookup
/// and records the extracted subtree under the reference string.
pub fn resolve_raw(raw: &JsonValue, cache: &mut ResolutionCache, reference: &str) -> (r:
    Result<JsonValue, OpenApiError>)
    requires
        cache_wf(old(cache)@, raw@),
    ensures
        cache_wf(final(cache)@, raw@),
        match r {
            Ok(v) => {
                &&& spec_resolve(raw@, reference@) == Ok::<JsonV, ErrV>(v@)
                &&& obj_get(final(cache)@, reference@) == Some(v@)
                &&& obj_get(old(cache)@, reference@) is Some ==> final(cache)@ == old(cache)@
                &&& obj_get(old(cache)@, reference@) is None ==> final(cache)@ == old(
                    cache,
                )@.push((reference@, v@))
            },
            Err(e) => {
                &&& spec_resolve(raw@, reference@) == Err::<JsonV, ErrV>(e@)
                &&& final(cache)@ == old(cache)@
            },
        },
{
    proof {
        crate::json::lemma_pairs_view(cache.entries@);
    }
    let hit = crate::json::lookup_key(&cache.entries, reference);
    match hit {
        Some(v) => {
            proof {
                lemma_cached_value_is_resolution(cache@, raw@, reference@, v@);
            }
            let copy = v.deep_copy();
            Ok(copy)
        }
        None => {
            let segs = match ref_segments(reference) {
                Ok(segs) => segs,
                Err(e) => {
                    return Err(e);
                }
            };
            match raw.walk_path(&segs) {
                Some(v) => {
                    let copy = v.deep_copy();
                    let stored = v.deep_copy();
                    let key = reference.to_owned();
                    cache.entries.push((key, stored));
                    proof {
                        crate::json::lemma_pairs_view(cache.entries@);
                        assert(cache@ =~= old(cache)@.push((reference@, copy@)));
                        lemma_obj_get_push(old(cache)@, reference@, copy@);
                    }
                    Ok(copy)
                }
                None => {
                    let mut msg = String::from_str("no value found at reference ");
                    msg.append(reference);
                    Err(OpenApiError::ParsingError { msg })
                }
            }
        }
    }
}

} // verus!
