use vstd::prelude::*;
use crate::cache::{cache_wf, resolve_raw, spec_resolve, ResolutionCache};
use crate::decode::Decode;
use crate::error::{located, ErrV, OpenApiError};
use crate::json::{JsonV, JsonValue};
use crate::model::{
    named_view, Components, ComponentsV, Document, DocumentV, Example, Header, HeaderV, Link,
    Operation, OperationV, Parameter, ParameterData, ParameterV, PathItem, PathItemV, Paths,
    PathsV, RefOr, RefOrV, RequestBody, Response, ResponseV, Responses, ResponsesV,
    SecurityScheme, Callback,
};
use crate::schema::{
    compose_schema, spec_compose_schema, Schema, SchemaV, SCHEMA_DEPTH_LIMIT,
};

verus! {

/// Normalizing one slot: inline items and already-resolved references
/// pass through unchanged (so a second application is a no-op); a bare
/// reference is resolved against the raw document, its target decoded,
/// and the slot tagged as resolved, keeping pointer, summary and
/// description as provenance.
pub open spec fn spec_deref_slot<T: Decode>(raw: JsonV, slot: RefOrV<T::V>) -> Result<
    RefOrV<T::V>,
    ErrV,
> {
    match slot {
        RefOrV::Reference { reference, summary, description } => match spec_resolve(
            raw,
            reference,
        ) {
            Err(e) => Err(e),
            Ok(v) => match T::spec_decode(v) {
                Ok(item) => Ok(
                    RefOrV::DereferencedReference { reference, summary, description, item },
                ),
                Err(e) => Err(located(e, reference)),
            },
        },
        _ => Ok(slot),
    }
}

/// Normalizes one slot; exactly `spec_deref_slot` of its view.
pub fn deref_slot<T: Decode>(raw: &JsonValue, cache: &mut ResolutionCache, slot: RefOr<T>) -> (r:
    Result<RefOr<T>, OpenApiError>)
    requires
        cache_wf(old(cache)@, raw@),
    ensures
        cache_wf(final(cache)@, raw@),
        match r {
            Ok(s) => spec_deref_slot::<T>(raw@, slot@) == Ok::<RefOrV<T::V>, ErrV>(s@),
            Err(e) => spec_deref_slot::<T>(raw@, slot@) == Err::<RefOrV<T::V>, ErrV>(e@),
        },
{
    match slot {
        RefOr::Reference { reference, summary, description } => {
            match resolve_raw(raw, cache, reference.as_str()) {
                Err(e) => Err(e),
                Ok(v) => match T::decode(&v) {
                    Ok(item) => Ok(
                        RefOr::DereferencedReference { reference, summary, description, item },
                    ),
                    Err(e) => Err(e.locate(reference.as_str())),
                },
            }
        },
        RefOr::Item(item) => Ok(RefOr::Item(item)),
        RefOr::DereferencedReference { reference, summary, description, item } => Ok(
            RefOr::DereferencedReference { reference, summary, description, item },
        ),
    }
}

/// A document kind whose inside is itself walked after its slot has
/// been normalized.
pub trait Walk: Decode {
    /// What walking a value of this kind yields.
    spec fn spec_walk(raw: JsonV, v: Self::V) -> Result<Self::V, ErrV>;

    /// Walks one value; exactly `spec_walk` of its view.
    fn walk(raw: &JsonValue, cache: &mut ResolutionCache, v: Self) -> (r: Result<
        Self,
        OpenApiError,
    >)
        requires
            cache_wf(old(cache)@, raw@),
        ensures
            cache_wf(final(cache)@, raw@),
            match r {
                Ok(x) => Self::spec_walk(raw@, v@) == Ok::<Self::V, ErrV>(x@),
                Err(e) => Self::spec_walk(raw@, v@) == Err::<Self::V, ErrV>(e@),
            },
    ;
}

/// Normalizing a slot and then walking whatever item it carries, be it
/// inline or freshly resolved.
pub open spec fn spec_deref_walk_slot<T: Walk>(raw: JsonV, slot: RefOrV<T::V>) -> Result<
    RefOrV<T::V>,
    ErrV,
> {
    match spec_deref_slot::<T>(raw, slot) {
        Err(e) => Err(e),
        Ok(slot2) => match slot2 {
            RefOrV::Item(x) => match T::spec_walk(raw, x) {
                Ok(y) => Ok(RefOrV::Item(y)),
                Err(e) => Err(e),
            },
            RefOrV::DereferencedReference { reference, summary, description, item } => {
                match T::spec_walk(raw, item) {
                    Ok(y) => Ok(
                        RefOrV::DereferencedReference {
                            reference,
                            summary,
                            description,
                            item: y,
                        },
                    ),
                    Err(e) => Err(e),
                }
            },
            _ => Ok(slot2),
        },
    }
}

/// Normalizes one slot and walks its item.
pub fn deref_walk_slot<T: Walk>(
    raw: &JsonValue,
    cache: &mut ResolutionCache,
    slot: RefOr<T>,
) -> (r: Result<RefOr<T>, OpenApiError>)
    requires
        cache_wf(old(cache)@, raw@),
    ensures
        cache_wf(final(cache)@, raw@),
        match r {
            Ok(s) => spec_deref_walk_slot::<T>(raw@, slot@) == Ok::<RefOrV<T::V>, ErrV>(s@),
            Err(e) => spec_deref_walk_slot::<T>(raw@, slot@) == Err::<RefOrV<T::V>, ErrV>(e@),
        },
{
    let slot2 = match deref_slot::<T>(raw, cache, slot) {
        Ok(s) => s,
        Err(e) => {
            return Err(e);
        },
    };
    match slot2 {
        RefOr::Item(x) => match T::walk(raw, cache, x) {
            Ok(y) => Ok(RefOr::Item(y)),
            Err(e) => Err(e),
        },
        RefOr::DereferencedReference { reference, summary, description, item } => {
            match T::walk(raw, cache, item) {
                Ok(y) => Ok(
                    RefOr::DereferencedReference { reference, summary, description, item: y },
                ),
                Err(e) => Err(e),
            }
        },
        RefOr::Reference { reference, summary, description } => Ok(
            RefOr::Reference { reference, summary, description },
        ),
    }
}

/// Normalizing every slot of a named collection, keys and order kept,
/// first failure wins; the items inside are not walked.
pub open spec fn spec_deref_named<T: Decode>(
    raw: JsonV,
    items: Seq<(Seq<char>, RefOrV<T::V>)>,
) -> Result<Seq<(Seq<char>, RefOrV<T::V>)>, ErrV>
    decreases items.len(),
{
    if items.len() == 0 {
        Ok(Seq::empty())
    } else {
        match spec_deref_named::<T>(raw, items.drop_last()) {
            Err(e) => Err(e),
            Ok(rest) => match spec_deref_slot::<T>(raw, items.last().1) {
                Ok(s) => Ok(rest.push((items.last().0, s))),
                Err(e) => Err(e),
            },
        }
    }
}

proof fn lemma_deref_named_err<T: Decode>(
    raw: JsonV,
    items: Seq<(Seq<char>, RefOrV<T::V>)>,
    k: int,
    e: ErrV,
)
    requires
        0 <= k < items.len(),
        spec_deref_named::<T>(raw, items.take(k)) is Ok,
        spec_deref_slot::<T>(raw, items[k].1) == Err::<RefOrV<T::V>, ErrV>(e),
    ensures
        spec_deref_named::<T>(raw, items) == Err::<Seq<(Seq<char>, RefOrV<T::V>)>, ErrV>(e),
    decreases items.len(),
{
    if k == items.len() - 1 {
        assert(items.drop_last() =~= items.take(k));
    } else {
        assert(items.drop_last().take(k) =~= items.take(k));
        lemma_deref_named_err::<T>(raw, items.drop_last(), k, e);
    }
}

/// Normalizes every slot of a named collection.
pub fn deref_named<T: Decode>(
    raw: &JsonValue,
    cache: &mut ResolutionCache,
    items: Vec<(String, RefOr<T>)>,
) -> (r: Result<Vec<(String, RefOr<T>)>, OpenApiError>)
    requires
        cache_wf(old(cache)@, raw@),
    ensures
        cache_wf(final(cache)@, raw@),
        match r {
            Ok(xs) => spec_deref_named::<T>(raw@, named_view(items@)) == Ok::<
                Seq<(Seq<char>, RefOrV<T::V>)>,
                ErrV,
            >(named_view(xs@)),
            Err(e) => spec_deref_named::<T>(raw@, named_view(items@)) == Err::<
                Seq<(Seq<char>, RefOrV<T::V>)>,
                ErrV,
            >(e@),
        },
{
    let ghost orig = items@;
    let ghost views = named_view(items@);
    let n = items.len();
    let mut rest = items;
    let mut out: Vec<(String, RefOr<T>)> = Vec::new();
    let mut k: usize = 0;
    proof {
        assert(views.take(0) =~= Seq::<(Seq<char>, RefOrV<T::V>)>::empty());
        assert(named_view(out@) =~= Seq::<(Seq<char>, RefOrV<T::V>)>::empty());
        assert(rest@ =~= orig.skip(0));
    }
    while k < n
        invariant
            cache_wf(cache@, raw@),
            items@ == orig,
            n == orig.len(),
            k <= n,
            rest@ == orig.skip(k as int),
            views == named_view(orig),
            spec_deref_named::<T>(raw@, views.take(k as int)) == Ok::<
                Seq<(Seq<char>, RefOrV<T::V>)>,
                ErrV,
            >(named_view(out@)),
        decreases n - k,
    {
        let ghost prev = out@;
        proof {
            assert(views.take(k + 1).drop_last() =~= views.take(k as int));
            assert(views.take(k + 1).last() == views[k as int]);
            assert(rest@[0] == orig[k as int]);
        }
        let (key, slot) = rest.remove(0);
        proof {
            assert(rest@ =~= orig.skip(k + 1));
            assert((key@, slot@) == views[k as int]);
        }
        match deref_slot::<T>(raw, cache, slot) {
            Ok(s) => {
                out.push((key, s));
                proof {
                    assert(named_view(out@) =~= named_view(prev).push((views[k as int].0, s@)));
                }
            },
            Err(e) => {
                proof {
                    lemma_deref_named_err::<T>(raw@, views, k as int, e@);
                }
                return Err(e);
            },
        }
        k = k + 1;
    }
    proof {
        assert(views.take(n as int) =~= views);
    }
    Ok(out)
}

/// Normalizing and walking every slot of a named collection.
pub open spec fn spec_deref_walk_named<T: Walk>(
    raw: JsonV,
    items: Seq<(Seq<char>, RefOrV<T::V>)>,
) -> Result<Seq<(Seq<char>, RefOrV<T::V>)>, ErrV>
    decreases items.len(),
{
    if items.len() == 0 {
        Ok(Seq::empty())
    } else {
        match spec_deref_walk_named::<T>(raw, items.drop_last()) {
            Err(e) => Err(e),
            Ok(rest) => match spec_deref_walk_slot::<T>(raw, items.last().1) {
                Ok(s) => Ok(rest.push((items.last().0, s))),
                Err(e) => Err(e),
            },
        }
    }
}

proof fn lemma_deref_walk_named_err<T: Walk>(
    raw: JsonV,
    items: Seq<(Seq<char>, RefOrV<T::V>)>,
    k: int,
    e: ErrV,
)
    requires
        0 <= k < items.len(),
        spec_deref_walk_named::<T>(raw, items.take(k)) is Ok,
        spec_deref_walk_slot::<T>(raw, items[k].1) == Err::<RefOrV<T::V>, ErrV>(e),
    ensures
        spec_deref_walk_named::<T>(raw, items) == Err::<Seq<(Seq<char>, RefOrV<T::V>)>, ErrV>(
            e,
        ),
    decreases items.len(),
{
    if k == items.len() - 1 {
        assert(items.drop_last() =~= items.take(k));
    } else {
        assert(items.drop_last().take(k) =~= items.take(k));
        lemma_deref_walk_named_err::<T>(raw, items.drop_last(), k, e);
    }
}

/// Normalizes and walks every slot of a named collection.
pub fn deref_walk_named<T: Walk>(
    raw: &JsonValue,
    cache: &mut ResolutionCache,
    items: Vec<(String, RefOr<T>)>,
) -> (r: Result<Vec<(String, RefOr<T>)>, OpenApiError>)
    requires
        cache_wf(old(cache)@, raw@),
    ensures
        cache_wf(final(cache)@, raw@),
        match r {
            Ok(xs) => spec_deref_walk_named::<T>(raw@, named_view(items@)) == Ok::<
                Seq<(Seq<char>, RefOrV<T::V>)>,
                ErrV,
            >(named_view(xs@)),
            Err(e) => spec_deref_walk_named::<T>(raw@, named_view(items@)) == Err::<
                Seq<(Seq<char>, RefOrV<T::V>)>,
                ErrV,
            >(e@),
        },
{
    let ghost orig = items@;
    let ghost views = named_view(items@);
    let n = items.len();
    let mut rest = items;
    let mut out: Vec<(String, RefOr<T>)> = Vec::new();
    let mut k: usize = 0;
    proof {
        assert(views.take(0) =~= Seq::<(Seq<char>, RefOrV<T::V>)>::empty());
        assert(named_view(out@) =~= Seq::<(Seq<char>, RefOrV<T::V>)>::empty());
        assert(rest@ =~= orig.skip(0));
    }
    while k < n
        invariant
            cache_wf(cache@, raw@),
            items@ == orig,
            n == orig.len(),
            k <= n,
            rest@ == orig.skip(k as int),
            views == named_view(orig),
            spec_deref_walk_named::<T>(raw@, views.take(k as int)) == Ok::<
                Seq<(Seq<char>, RefOrV<T::V>)>,
                ErrV,
            >(named_view(out@)),
        decreases n - k,
    {
        let ghost prev = out@;
        proof {
            assert(views.take(k + 1).drop_last() =~= views.take(k as int));
            assert(views.take(k + 1).last() == views[k as int]);
            assert(rest@[0] == orig[k as int]);
        }
        let (key, slot) = rest.remove(0);
        proof {
            assert(rest@ =~= orig.skip(k + 1));
            assert((key@, slot@) == views[k as int]);
        }
        match deref_walk_slot::<T>(raw, cache, slot) {
            Ok(s) => {
                out.push((key, s));
                proof {
                    assert(named_view(out@) =~= named_view(prev).push((views[k as int].0, s@)));
                }
            },
            Err(e) => {
                proof {
                    lemma_deref_walk_named_err::<T>(raw@, views, k as int, e@);
                }
                return Err(e);
            },
        }
        k = k + 1;
    }
    proof {
        assert(views.take(n as int) =~= views);
    }
    Ok(out)
}

/// Normalizing and walking every slot of a plain list.
pub open spec fn spec_deref_walk_list<T: Walk>(raw: JsonV, items: Seq<RefOrV<T::V>>) -> Result<
    Seq<RefOrV<T::V>>,
    ErrV,
>
    decreases items.len(),
{
    if items.len() == 0 {
        Ok(Seq::empty())
    } else {
        match spec_deref_walk_list::<T>(raw, items.drop_last()) {
            Err(e) => Err(e),
            Ok(rest) => match spec_deref_walk_slot::<T>(raw, items.last()) {
                Ok(s) => Ok(rest.push(s)),
                Err(e) => Err(e),
            },
        }
    }
}

proof fn lemma_deref_walk_list_err<T: Walk>(
    raw: JsonV,
    items: Seq<RefOrV<T::V>>,
    k: int,
    e: ErrV,
)
    requires
        0 <= k < items.len(),
        spec_deref_walk_list::<T>(raw, items.take(k)) is Ok,
        spec_deref_walk_slot::<T>(raw, items[k]) == Err::<RefOrV<T::V>, ErrV>(e),
    ensures
        spec_deref_walk_list::<T>(raw, items) == Err::<Seq<RefOrV<T::V>>, ErrV>(e),
    decreases items.len(),
{
    if k == items.len() - 1 {
        assert(items.drop_last() =~= items.take(k));
    } else {
        assert(items.drop_last().take(k) =~= items.take(k));
        lemma_deref_walk_list_err::<T>(raw, items.drop_last(), k, e);
    }
}

/// Normalizes and walks every slot of a plain list.
pub fn deref_walk_list<T: Walk>(
    raw: &JsonValue,
    cache: &mut ResolutionCache,
    items: Vec<RefOr<T>>,
) -> (r: Result<Vec<RefOr<T>>, OpenApiError>)
    requires
        cache_wf(old(cache)@, raw@),
    ensures
        cache_wf(final(cache)@, raw@),
        match r {
            Ok(xs) => spec_deref_walk_list::<T>(raw@, crate::model::list_view(items@)) == Ok::<
                Seq<RefOrV<T::V>>,
                ErrV,
            >(crate::model::list_view(xs@)),
            Err(e) => spec_deref_walk_list::<T>(raw@, crate::model::list_view(items@)) == Err::<
                Seq<RefOrV<T::V>>,
                ErrV,
            >(e@),
        },
{
    let ghost orig = items@;
    let ghost views = crate::model::list_view(items@);
    let n = items.len();
    let mut rest = items;
    let mut out: Vec<RefOr<T>> = Vec::new();
    let mut k: usize = 0;
    proof {
        assert(views.take(0) =~= Seq::<RefOrV<T::V>>::empty());
        assert(crate::model::list_view(out@) =~= Seq::<RefOrV<T::V>>::empty());
        assert(rest@ =~= orig.skip(0));
    }
    while k < n
        invariant
            cache_wf(cache@, raw@),
            items@ == orig,
            n == orig.len(),
            k <= n,
            rest@ == orig.skip(k as int),
            views == crate::model::list_view(orig),
            spec_deref_walk_list::<T>(raw@, views.take(k as int)) == Ok::<
                Seq<RefOrV<T::V>>,
                ErrV,
            >(crate::model::list_view(out@)),
        decreases n - k,
    {
        let ghost prev = out@;
        proof {
            assert(views.take(k + 1).drop_last() =~= views.take(k as int));
            assert(views.take(k + 1).last() == views[k as int]);
            assert(rest@[0] == orig[k as int]);
        }
        let slot = rest.remove(0);
        proof {
            assert(rest@ =~= orig.skip(k + 1));
            assert(slot@ == views[k as int]);
        }
        match deref_walk_slot::<T>(raw, cache, slot) {
            Ok(s) => {
                out.push(s);
                proof {
                    assert(crate::model::list_view(out@) =~= crate::model::list_view(
                        prev,
                    ).push(s@));
                }
            },
            Err(e) => {
                proof {
                    lemma_deref_walk_list_err::<T>(raw@, views, k as int, e@);
                }
                return Err(e);
            },
        }
        k = k + 1;
    }
    proof {
        assert(views.take(n as int) =~= views);
    }
    Ok(out)
}

/// Normalizing an optional slot, without walking its item.
pub open spec fn spec_deref_opt_slot<T: Decode>(raw: JsonV, os: Option<RefOrV<T::V>>) -> Result<
    Option<RefOrV<T::V>>,
    ErrV,
> {
    match os {
        None => Ok(None),
        Some(slot) => match spec_deref_slot::<T>(raw, slot) {
            Ok(s) => Ok(Some(s)),
            Err(e) => Err(e),
        },
    }
}

/// Normalizes an optional slot.
pub fn deref_opt_slot<T: Decode>(
    raw: &JsonValue,
    cache: &mut ResolutionCache,
    os: Option<RefOr<T>>,
) -> (r: Result<Option<RefOr<T>>, OpenApiError>)
    requires
        cache_wf(old(cache)@, raw@),
    ensures
        cache_wf(final(cache)@, raw@),
        match r {
            Ok(x) => spec_deref_opt_slot::<T>(raw@, crate::model::opt_elem_view(os)) == Ok::<
                Option<RefOrV<T::V>>,
                ErrV,
            >(crate::model::opt_elem_view(x)),
            Err(e) => spec_deref_opt_slot::<T>(raw@, crate::model::opt_elem_view(os)) == Err::<
                Option<RefOrV<T::V>>,
                ErrV,
            >(e@),
        },
{
    match os {
        None => Ok(None),
        Some(slot) => match deref_slot::<T>(raw, cache, slot) {
            Ok(s) => Ok(Some(s)),
            Err(e) => Err(e),
        },
    }
}

impl Walk for Parameter {
    /// Walking a parameter normalizes each of its named examples; no
    /// other part changes.
    open spec fn spec_walk(raw: JsonV, p: ParameterV) -> Result<ParameterV, ErrV> {
        match spec_deref_named::<Example>(raw, p.data.examples) {
            Err(e) => Err(e),
            Ok(examples) => Ok(
                ParameterV {
                    location: p.location,
                    data: crate::model::ParameterDataV {
                        name: p.data.name,
                        examples,
                        extra: p.data.extra,
                    },
                },
            ),
        }
    }

    fn walk(raw: &JsonValue, cache: &mut ResolutionCache, v: Self) -> (r: Result<
        Self,
        OpenApiError,
    >) {
        let Parameter { location, data } = v;
        let ParameterData { name, examples, extra } = data;
        match deref_named::<Example>(raw, cache, examples) {
            Ok(examples) => Ok(
                Parameter { location, data: ParameterData { name, examples, extra } },
            ),
            Err(e) => Err(e),
        }
    }
}

impl Walk for Header {
    /// Walking a header normalizes each of its named examples; no
    /// other part changes.
    open spec fn spec_walk(raw: JsonV, h: HeaderV) -> Result<HeaderV, ErrV> {
        match spec_deref_named::<Example>(raw, h.examples) {
            Err(e) => Err(e),
            Ok(examples) => Ok(HeaderV { examples, extra: h.extra }),
        }
    }

    fn walk(raw: &JsonValue, cache: &mut ResolutionCache, v: Self) -> (r: Result<
        Self,
        OpenApiError,
    >) {
        let Header { examples, extra } = v;
        match deref_named::<Example>(raw, cache, examples) {
            Ok(examples) => Ok(Header { examples, extra }),
            Err(e) => Err(e),
        }
    }
}

impl Walk for Response {
    /// Walking a response normalizes each of its named headers and
    /// links; no other part changes, and the items inside those slots
    /// are not entered.
    open spec fn spec_walk(raw: JsonV, v: ResponseV) -> Result<ResponseV, ErrV> {
        match spec_deref_named::<Header>(raw, v.headers) {
            Err(e) => Err(e),
            Ok(headers) => match spec_deref_named::<Link>(raw, v.links) {
                Err(e) => Err(e),
                Ok(links) => Ok(ResponseV { headers, links, extra: v.extra }),
            },
        }
    }

    fn walk(raw: &JsonValue, cache: &mut ResolutionCache, v: Self) -> (r: Result<
        Self,
        OpenApiError,
    >) {
        let Response { headers, links, extra } = v;
        let headers = match deref_named::<Header>(raw, cache, headers) {
            Ok(xs) => xs,
            Err(e) => {
                return Err(e);
            },
        };
        let links = match deref_named::<Link>(raw, cache, links) {
            Ok(xs) => xs,
            Err(e) => {
                return Err(e);
            },
        };
        Ok(Response { headers, links, extra })
    }
}

impl Walk for Responses {
    /// Walking a responses object normalizes and walks each
    /// per-status-code response slot; the default response and the
    /// extension members are left as they are.
    open spec fn spec_walk(raw: JsonV, v: ResponsesV) -> Result<ResponsesV, ErrV> {
        match spec_deref_walk_named::<Response>(raw, v.responses) {
            Err(e) => Err(e),
            Ok(responses) => Ok(
                ResponsesV {
                    default_response: v.default_response,
                    responses,
                    extra: v.extra,
                },
            ),
        }
    }

    fn walk(raw: &JsonValue, cache: &mut ResolutionCache, v: Self) -> (r: Result<
        Self,
        OpenApiError,
    >) {
        let Responses { default_response, responses, extra } = v;
        match deref_walk_named::<Response>(raw, cache, responses) {
            Ok(responses) => Ok(Responses { default_response, responses, extra }),
            Err(e) => Err(e),
        }
    }
}

/// Walking an optional responses object.
pub open spec fn spec_walk_opt_responses(raw: JsonV, o: Option<ResponsesV>) -> Result<
    Option<ResponsesV>,
    ErrV,
> {
    match o {
        None => Ok(None),
        Some(v) => match <Responses as Walk>::spec_walk(raw, v) {
            Ok(x) => Ok(Some(x)),
            Err(e) => Err(e),
        },
    }
}

impl Walk for Operation {
    /// Walking an operation normalizes and walks its parameter slots,
    /// normalizes its request body slot (without entering it), and
    /// walks its per-status-code responses; servers and every other
    /// member stay as they are.
    open spec fn spec_walk(raw: JsonV, v: OperationV) -> Result<OperationV, ErrV> {
        match spec_deref_walk_list::<Parameter>(raw, v.parameters) {
            Err(e) => Err(e),
            Ok(parameters) => match spec_deref_opt_slot::<RequestBody>(raw, v.request_body) {
                Err(e) => Err(e),
                Ok(request_body) => match spec_walk_opt_responses(raw, v.responses) {
                    Err(e) => Err(e),
                    Ok(responses) => Ok(
                        OperationV {
                            parameters,
                            request_body,
                            responses,
                            servers: v.servers,
                            extra: v.extra,
                        },
                    ),
                },
            },
        }
    }

    fn walk(raw: &JsonValue, cache: &mut ResolutionCache, v: Self) -> (r: Result<
        Self,
        OpenApiError,
    >) {
        let Operation { parameters, request_body, responses, servers, extra } = v;
        let parameters = match deref_walk_list::<Parameter>(raw, cache, parameters) {
            Ok(xs) => xs,
            Err(e) => {
                return Err(e);
            },
        };
        let request_body = match deref_opt_slot::<RequestBody>(raw, cache, request_body) {
            Ok(x) => x,
            Err(e) => {
                return Err(e);
            },
        };
        let responses = match responses {
            None => None,
            Some(rs) => match Responses::walk(raw, cache, rs) {
                Ok(x) => Some(x),
                Err(e) => {
                    return Err(e);
                },
            },
        };
        Ok(Operation { parameters, request_body, responses, servers, extra })
    }
}

/// Walking an optional operation.
pub open spec fn spec_walk_opt_operation(raw: JsonV, o: Option<OperationV>) -> Result<
    Option<OperationV>,
    ErrV,
> {
    match o {
        None => Ok(None),
        Some(v) => match <Operation as Walk>::spec_walk(raw, v) {
            Ok(x) => Ok(Some(x)),
            Err(e) => Err(e),
        },
    }
}

fn walk_opt_operation(raw: &JsonValue, cache: &mut ResolutionCache, o: Option<Operation>) -> (r:
    Result<Option<Operation>, OpenApiError>)
    requires
        cache_wf(old(cache)@, raw@),
    ensures
        cache_wf(final(cache)@, raw@),
        match r {
            Ok(x) => spec_walk_opt_operation(raw@, crate::model::opt_elem_view(o)) == Ok::<
                Option<OperationV>,
                ErrV,
            >(crate::model::opt_elem_view(x)),
            Err(e) => spec_walk_opt_operation(raw@, crate::model::opt_elem_view(o)) == Err::<
                Option<OperationV>,
                ErrV,
            >(e@),
        },
{
    match o {
        None => Ok(None),
        Some(op) => match Operation::walk(raw, cache, op) {
            Ok(x) => Ok(Some(x)),
            Err(e) => Err(e),
        },
    }
}

impl Walk for PathItem {
    /// Walking a path item walks each of its per-method operations and
    /// normalizes and walks its shared parameter slots; servers and
    /// every other member stay as they are.
    open spec fn spec_walk(raw: JsonV, v: PathItemV) -> Result<PathItemV, ErrV> {
        match spec_walk_opt_operation(raw, v.get) {
            Err(e) => Err(e),
            Ok(get) => match spec_walk_opt_operation(raw, v.put) {
                Err(e) => Err(e),
                Ok(put) => match spec_walk_opt_operation(raw, v.post) {
                    Err(e) => Err(e),
                    Ok(post) => match spec_walk_opt_operation(raw, v.delete) {
                        Err(e) => Err(e),
                        Ok(delete) => match spec_walk_opt_operation(raw, v.options) {
                            Err(e) => Err(e),
                            Ok(options) => match spec_walk_opt_operation(raw, v.head) {
                                Err(e) => Err(e),
                                Ok(head) => match spec_walk_opt_operation(raw, v.patch) {
                                    Err(e) => Err(e),
                                    Ok(patch) => match spec_walk_opt_operation(raw, v.trace) {
                                        Err(e) => Err(e),
                                        Ok(trace) => match spec_deref_walk_list::<Parameter>(
                                            raw,
                                            v.parameters,
                                        ) {
                                            Err(e) => Err(e),
                                            Ok(parameters) => Ok(
                                                PathItemV {
                                                    get,
                                                    put,
                                                    post,
                                                    delete,
                                                    options,
                                                    head,
                                                    patch,
                                                    trace,
                                                    parameters,
                                                    servers: v.servers,
                                                    extra: v.extra,
                                                },
                                            ),
                                        },
                                    },
                                },
                            },
                        },
                    },
                },
            },
        }
    }

    fn walk(raw: &JsonValue, cache: &mut ResolutionCache, v: Self) -> (r: Result<
        Self,
        OpenApiError,
    >) {
        let PathItem {
            get,
            put,
            post,
            delete,
            options,
            head,
            patch,
            trace,
            parameters,
            servers,
            extra,
        } = v;
        let get = match walk_opt_operation(raw, cache, get) {
            Ok(x) => x,
            Err(e) => {
                return Err(e);
            },
        };
        let put = match walk_opt_operation(raw, cache, put) {
            Ok(x) => x,
            Err(e) => {
                return Err(e);
            },
        };
        let post = match walk_opt_operation(raw, cache, post) {
            Ok(x) => x,
            Err(e) => {
                return Err(e);
            },
        };
        let delete = match walk_opt_operation(raw, cache, delete) {
            Ok(x) => x,
            Err(e) => {
                return Err(e);
            },
        };
        let options = match walk_opt_operation(raw, cache, options) {
            Ok(x) => x,
            Err(e) => {
                return Err(e);
            },
        };
        let head = match walk_opt_operation(raw, cache, head) {
            Ok(x) => x,
            Err(e) => {
                return Err(e);
            },
        };
        let patch = match walk_opt_operation(raw, cache, patch) {
            Ok(x) => x,
            Err(e) => {
                return Err(e);
            },
        };
        let trace = match walk_opt_operation(raw, cache, trace) {
            Ok(x) => x,
            Err(e) => {
                return Err(e);
            },
        };
        let parameters = match deref_walk_list::<Parameter>(raw, cache, parameters) {
            Ok(xs) => xs,
            Err(e) => {
                return Err(e);
            },
        };
        Ok(
            PathItem {
                get,
                put,
                post,
                delete,
                options,
                head,
                patch,
                trace,
                parameters,
                servers,
                extra,
            },
        )
    }
}

/// Composing every schema of the registry's named schema collection,
/// keys and order kept, first failure wins, each at the full depth
/// bound.
pub open spec fn spec_compose_named_schemas(
    raw: JsonV,
    items: Seq<(Seq<char>, SchemaV)>,
) -> Result<Seq<(Seq<char>, SchemaV)>, ErrV>
    decreases items.len(),
{
    if items.len() == 0 {
        Ok(Seq::empty())
    } else {
        match spec_compose_named_schemas(raw, items.drop_last()) {
            Err(e) => Err(e),
            Ok(rest) => match spec_compose_schema(
                raw,
                items.last().1,
                SCHEMA_DEPTH_LIMIT as nat,
            ) {
                Ok(s) => Ok(rest.push((items.last().0, s))),
                Err(e) => Err(e),
            },
        }
    }
}

proof fn lemma_compose_named_schemas_err(
    raw: JsonV,
    items: Seq<(Seq<char>, SchemaV)>,
    k: int,
    e: ErrV,
)
    requires
        0 <= k < items.len(),
        spec_compose_named_schemas(raw, items.take(k)) is Ok,
        spec_compose_schema(raw, items[k].1, SCHEMA_DEPTH_LIMIT as nat) == Err::<
            SchemaV,
            ErrV,
        >(e),
    ensures
        spec_compose_named_schemas(raw, items) == Err::<Seq<(Seq<char>, SchemaV)>, ErrV>(e),
    decreases items.len(),
{
    if k == items.len() - 1 {
        assert(items.drop_last() =~= items.take(k));
    } else {
        assert(items.drop_last().take(k) =~= items.take(k));
        lemma_compose_named_schemas_err(raw, items.drop_last(), k, e);
    }
}

/// Composes every schema of the registry's named schema collection.
fn compose_named_schemas(
    raw: &JsonValue,
    cache: &mut ResolutionCache,
    items: Vec<(String, Schema)>,
) -> (r: Result<Vec<(String, Schema)>, OpenApiError>)
    requires
        cache_wf(old(cache)@, raw@),
    ensures
        cache_wf(final(cache)@, raw@),
        match r {
            Ok(xs) => spec_compose_named_schemas(raw@, named_view(items@)) == Ok::<
                Seq<(Seq<char>, SchemaV)>,
                ErrV,
            >(named_view(xs@)),
            Err(e) => spec_compose_named_schemas(raw@, named_view(items@)) == Err::<
                Seq<(Seq<char>, SchemaV)>,
                ErrV,
            >(e@),
        },
{
    let ghost orig = items@;
    let ghost views = named_view(items@);
    let n = items.len();
    let mut rest = items;
    let mut out: Vec<(String, Schema)> = Vec::new();
    let mut k: usize = 0;
    proof {
        assert(views.take(0) =~= Seq::<(Seq<char>, SchemaV)>::empty());
        assert(named_view(out@) =~= Seq::<(Seq<char>, SchemaV)>::empty());
        assert(rest@ =~= orig.skip(0));
    }
    while k < n
        invariant
            cache_wf(cache@, raw@),
            items@ == orig,
            n == orig.len(),
            k <= n,
            rest@ == orig.skip(k as int),
            views == named_view(orig),
            spec_compose_named_schemas(raw@, views.take(k as int)) == Ok::<
                Seq<(Seq<char>, SchemaV)>,
                ErrV,
            >(named_view(out@)),
        decreases n - k,
    {
        let ghost prev = out@;
        proof {
            assert(views.take(k + 1).drop_last() =~= views.take(k as int));
            assert(views.take(k + 1).last() == views[k as int]);
            assert(rest@[0] == orig[k as int]);
        }
        let (key, schema) = rest.remove(0);
        proof {
            assert(rest@ =~= orig.skip(k + 1));
            assert((key@, schema@) == views[k as int]);
        }
        match compose_schema(raw, cache, schema, SCHEMA_DEPTH_LIMIT) {
            Ok(s) => {
                out.push((key, s));
                proof {
                    assert(named_view(out@) =~= named_view(prev).push((views[k as int].0, s@)));
                }
            },
            Err(e) => {
                proof {
                    lemma_compose_named_schemas_err(raw@, views, k as int, e@);
                }
                return Err(e);
            },
        }
        k = k + 1;
    }
    proof {
        assert(views.take(n as int) =~= views);
    }
    Ok(out)
}

/// Walking the registry: each collection is processed in turn —
/// security schemes, responses, schemas, parameters, examples, request
/// bodies, headers, links, callbacks, path items. Responses, parameters
/// and headers are walked inside; schemas are composed; the remaining
/// collections are normalized slot by slot only.
pub open spec fn spec_walk_components(raw: JsonV, c: ComponentsV) -> Result<ComponentsV, ErrV> {
    match spec_deref_named::<SecurityScheme>(raw, c.security_schemes) {
        Err(e) => Err(e),
        Ok(security_schemes) => match spec_deref_walk_named::<Response>(raw, c.responses) {
            Err(e) => Err(e),
            Ok(responses) => match spec_compose_named_schemas(raw, c.schemas) {
                Err(e) => Err(e),
                Ok(schemas) => match spec_deref_walk_named::<Parameter>(raw, c.parameters) {
                    Err(e) => Err(e),
                    Ok(parameters) => match spec_deref_named::<Example>(raw, c.examples) {
                        Err(e) => Err(e),
                        Ok(examples) => match spec_deref_named::<RequestBody>(
                            raw,
                            c.request_bodies,
                        ) {
                            Err(e) => Err(e),
                            Ok(request_bodies) => match spec_deref_walk_named::<Header>(
                                raw,
                                c.headers,
                            ) {
                                Err(e) => Err(e),
                                Ok(headers) => match spec_deref_named::<Link>(raw, c.links) {
                                    Err(e) => Err(e),
                                    Ok(links) => match spec_deref_named::<Callback>(
                                        raw,
                                        c.callbacks,
                                    ) {
                                        Err(e) => Err(e),
                                        Ok(callbacks) => match spec_deref_named::<PathItem>(
                                            raw,
                                            c.path_items,
                                        ) {
                                            Err(e) => Err(e),
                                            Ok(path_items) => Ok(
                                                ComponentsV {
                                                    security_schemes,
                                                    responses,
                                                    schemas,
                                                    parameters,
                                                    examples,
                                                    request_bodies,
                                                    headers,
                                                    links,
                                                    callbacks,
                                                    path_items,
                                                    extra: c.extra,
                                                },
                                            ),
                                        },
                                    },
                                },
                            },
                        },
                    },
                },
            },
        },
    }
}

/// Walks the registry.
pub fn walk_components(raw: &JsonValue, cache: &mut ResolutionCache, c: Components) -> (r:
    Result<Components, OpenApiError>)
    requires
        cache_wf(old(cache)@, raw@),
    ensures
        cache_wf(final(cache)@, raw@),
        match r {
            Ok(x) => spec_walk_components(raw@, c@) == Ok::<ComponentsV, ErrV>(x@),
            Err(e) => spec_walk_components(raw@, c@) == Err::<ComponentsV, ErrV>(e@),
        },
{
    let Components {
        security_schemes,
        responses,
        schemas,
        parameters,
        examples,
        request_bodies,
        headers,
        links,
        callbacks,
        path_items,
        extra,
    } = c;
    let security_schemes = match deref_named::<SecurityScheme>(raw, cache, security_schemes) {
        Ok(xs) => xs,
        Err(e) => {
            return Err(e);
        },
    };
    let responses = match deref_walk_named::<Response>(raw, cache, responses) {
        Ok(xs) => xs,
        Err(e) => {
            return Err(e);
        },
    };
    let schemas = match compose_named_schemas(raw, cache, schemas) {
        Ok(xs) => xs,
        Err(e) => {
            return Err(e);
        },
    };
    let parameters = match deref_walk_named::<Parameter>(raw, cache, parameters) {
        Ok(xs) => xs,
        Err(e) => {
            return Err(e);
        },
    };
    let examples = match deref_named::<Example>(raw, cache, examples) {
        Ok(xs) => xs,
        Err(e) => {
            return Err(e);
        },
    };
    let request_bodies = match deref_named::<RequestBody>(raw, cache, request_bodies) {
        Ok(xs) => xs,
        Err(e) => {
            return Err(e);
        },
    };
    let headers = match deref_walk_named::<Header>(raw, cache, headers) {
        Ok(xs) => xs,
        Err(e) => {
            return Err(e);
        },
    };
    let links = match deref_named::<Link>(raw, cache, links) {
        Ok(xs) => xs,
        Err(e) => {
            return Err(e);
        },
    };
    let callbacks = match deref_named::<Callback>(raw, cache, callbacks) {
        Ok(xs) => xs,
        Err(e) => {
            return Err(e);
        },
    };
    let path_items = match deref_named::<PathItem>(raw, cache, path_items) {
        Ok(xs) => xs,
        Err(e) => {
            return Err(e);
        },
    };
    Ok(
        Components {
            security_schemes,
            responses,
            schemas,
            parameters,
            examples,
            request_bodies,
            headers,
            links,
            callbacks,
            path_items,
            extra,
        },
    )
}

/// Walking the path map: each path item slot is normalized and its
/// item walked; extension members stay as they are.
pub open spec fn spec_walk_paths(raw: JsonV, p: PathsV) -> Result<PathsV, ErrV> {
    match spec_deref_walk_named::<PathItem>(raw, p.paths) {
        Err(e) => Err(e),
        Ok(paths) => Ok(PathsV { paths, extra: p.extra }),
    }
}

/// Walks the path map.
pub fn walk_paths(raw: &JsonValue, cache: &mut ResolutionCache, p: Paths) -> (r: Result<
    Paths,
    OpenApiError,
>)
    requires
        cache_wf(old(cache)@, raw@),
    ensures
        cache_wf(final(cache)@, raw@),
        match r {
            Ok(x) => spec_walk_paths(raw@, p@) == Ok::<PathsV, ErrV>(x@),
            Err(e) => spec_walk_paths(raw@, p@) == Err::<PathsV, ErrV>(e@),
        },
{
    let Paths { paths, extra } = p;
    match deref_walk_named::<PathItem>(raw, cache, paths) {
        Ok(paths) => Ok(Paths { paths, extra }),
        Err(e) => Err(e),
    }
}

/// One full dereference pass over the typed document: the registry is
/// walked first, then the paths; the first failure anywhere aborts the
/// pass. Everything else in the document stays as it is.
pub open spec fn spec_walk_document(raw: JsonV, d: DocumentV) -> Result<DocumentV, ErrV> {
    match (match d.components {
        None => Ok(None),
        Some(c) => match spec_walk_components(raw, c) {
            Ok(x) => Ok(Some(x)),
            Err(e) => Err(e),
        },
    }) {
        Err(e) => Err(e),
        Ok(components) => match (match d.paths {
            None => Ok(None),
            Some(p) => match spec_walk_paths(raw, p) {
                Ok(x) => Ok(Some(x)),
                Err(e) => Err(e),
            },
        }) {
            Err(e) => Err(e),
            Ok(paths) => Ok(
                DocumentV {
                    openapi: d.openapi,
                    servers: d.servers,
                    components,
                    paths,
                    extra: d.extra,
                },
            ),
        },
    }
}

/// Walks the whole typed document.
pub fn walk_document(raw: &JsonValue, cache: &mut ResolutionCache, d: Document) -> (r: Result<
    Document,
    OpenApiError,
>)
    requires
        cache_wf(old(cache)@, raw@),
    ensures
        cache_wf(final(cache)@, raw@),
        match r {
            Ok(x) => spec_walk_document(raw@, d@) == Ok::<DocumentV, ErrV>(x@),
            Err(e) => spec_walk_document(raw@, d@) == Err::<DocumentV, ErrV>(e@),
        },
{
    let Document { openapi, servers, components, paths, extra } = d;
    let components = match components {
        None => None,
        Some(c) => match walk_components(raw, cache, c) {
            Ok(x) => Some(x),
            Err(e) => {
                return Err(e);
            },
        },
    };
    let paths = match paths {
        None => None,
        Some(p) => match walk_paths(raw, cache, p) {
            Ok(x) => Some(x),
            Err(e) => {
                return Err(e);
            },
        },
    };
    Ok(Document { openapi, servers, components, paths, extra })
}

} // verus!
