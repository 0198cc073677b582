use vstd::prelude::*;
use crate::cache::{cache_wf, lemma_cached_value_is_resolution, spec_resolve};
use crate::decode::Decode;
use crate::error::ErrV;
use crate::facade::{collect_path_servers, slot_servers, spec_get_servers};
use crate::json::{obj_get, JsonV};
use crate::model::{
    ComponentsV, DocumentV, Header, HeaderV, OperationV, Parameter, ParameterV, PathItem,
    PathItemV, PathsV, RefOrV, Response, ResponseV,
};
use crate::schema::{spec_compose_list, spec_compose_schema, SchemaObjectV, SchemaV};
use crate::walk::{
    spec_deref_named, spec_deref_slot, spec_deref_walk_list, spec_deref_walk_named,
    spec_deref_walk_slot, spec_walk_components, spec_walk_document, spec_walk_opt_operation,
    spec_walk_paths, Walk,
};

verus! {

/// Resolving the same pointer a second time returns the value of the
/// first resolution: a well-formed memo answers every pointer it holds
/// with exactly what a fresh lookup against the raw document would
/// yield, so the raw lookup is performed at most once per pointer
/// (`resolve_raw` leaves a memo that already holds the pointer
/// untouched).
pub proof fn lemma_second_resolution_is_first(
    cv: Seq<(Seq<char>, JsonV)>,
    raw: JsonV,
    pointer: Seq<char>,
    first: JsonV,
)
    requires
        cache_wf(cv, raw),
        obj_get(cv, pointer) == Some(first),
    ensures
        spec_resolve(raw, pointer) == Ok::<JsonV, ErrV>(first),
{
    lemma_cached_value_is_resolution(cv, raw, pointer, first);
}

proof fn lemma_compose_list_ok(raw: JsonV, items: Seq<SchemaV>, fuel: nat)
    requires
        spec_compose_list(raw, items, fuel) is Ok,
    ensures
        spec_compose_list(raw, items, fuel)->Ok_0.len() == items.len(),
        forall|i: int| 0 <= i < items.len() ==> spec_compose_schema(raw, items[i], fuel)
            == Ok::<SchemaV, ErrV>(spec_compose_list(raw, items, fuel)->Ok_0[i]),
    decreases items.len(),
{
    if items.len() > 0 {
        lemma_compose_list_ok(raw, items.drop_last(), fuel);
        let rest = spec_compose_list(raw, items.drop_last(), fuel)->Ok_0;
        let whole = spec_compose_list(raw, items, fuel)->Ok_0;
        assert forall|i: int| 0 <= i < items.len() implies spec_compose_schema(
            raw,
            items[i],
            fuel,
        ) == Ok::<SchemaV, ErrV>(whole[i]) by {
            if i < items.len() - 1 {
                assert(items.drop_last()[i] == items[i]);
                assert(whole[i] == rest[i]);
            } else {
                assert(items.last() == items[i]);
            }
        }
    }
}

/// Normalizing a slot is idempotent: whatever one application
/// yields — an inline item kept, or a reference resolved and tagged —
/// a second application passes through unchanged.
pub proof fn lemma_normalization_idempotent<T: Decode>(
    raw: JsonV,
    slot: RefOrV<T::V>,
    once: RefOrV<T::V>,
)
    requires
        spec_deref_slot::<T>(raw, slot) == Ok::<RefOrV<T::V>, ErrV>(once),
    ensures
        spec_deref_slot::<T>(raw, once) == Ok::<RefOrV<T::V>, ErrV>(once),
{
}

/// A slot that is not a bare reference, whose item (inline or
/// resolved) satisfies the given condition.
pub open spec fn resolved_slot_with<TV>(s: RefOrV<TV>, pred: spec_fn(TV) -> bool) -> bool {
    match s {
        RefOrV::Reference { .. } => false,
        RefOrV::Item(x) => pred(x),
        RefOrV::DereferencedReference { item, .. } => pred(item),
    }
}

/// No unresolved example slot remains in the parameter.
pub open spec fn resolved_parameter(p: ParameterV) -> bool {
    forall|i: int| 0 <= i < p.data.examples.len() ==> !((#[trigger] p.data.examples[i]).1
        is Reference)
}

/// No unresolved example slot remains in the header.
pub open spec fn resolved_header(h: HeaderV) -> bool {
    forall|i: int| 0 <= i < h.examples.len() ==> !((#[trigger] h.examples[i]).1 is Reference)
}

/// No unresolved header or link slot remains in the response.
pub open spec fn resolved_response(r: ResponseV) -> bool {
    &&& forall|i: int| 0 <= i < r.headers.len() ==> !((#[trigger] r.headers[i]).1
        is Reference)
    &&& forall|i: int| 0 <= i < r.links.len() ==> !((#[trigger] r.links[i]).1 is Reference)
}

/// No unresolved slot remains in the operation: parameter slots are
/// resolved and their parameters walked, the request body slot is
/// resolved, and every per-status-code response slot is resolved with
/// its response walked.
pub open spec fn resolved_operation(o: OperationV) -> bool {
    &&& forall|i: int| 0 <= i < o.parameters.len() ==> resolved_slot_with(
        #[trigger] o.parameters[i],
        |p: ParameterV| resolved_parameter(p),
    )
    &&& match o.request_body {
        Some(s) => !(s is Reference),
        None => true,
    }
    &&& match o.responses {
        Some(rs) => forall|i: int| 0 <= i < rs.responses.len() ==> resolved_slot_with(
            (#[trigger] rs.responses[i]).1,
            |r: ResponseV| resolved_response(r),
        ),
        None => true,
    }
}

/// No unresolved slot remains in the path item: every present
/// operation is resolved inside, and the shared parameter slots are
/// resolved with their parameters walked.
pub open spec fn resolved_path_item(pi: PathItemV) -> bool {
    &&& match pi.get {
        Some(op) => resolved_operation(op),
        None => true,
    }
    &&& match pi.put {
        Some(op) => resolved_operation(op),
        None => true,
    }
    &&& match pi.post {
        Some(op) => resolved_operation(op),
        None => true,
    }
    &&& match pi.delete {
        Some(op) => resolved_operation(op),
        None => true,
    }
    &&& match pi.options {
        Some(op) => resolved_operation(op),
        None => true,
    }
    &&& match pi.head {
        Some(op) => resolved_operation(op),
        None => true,
    }
    &&& match pi.patch {
        Some(op) => resolved_operation(op),
        None => true,
    }
    &&& match pi.trace {
        Some(op) => resolved_operation(op),
        None => true,
    }
    &&& forall|i: int| 0 <= i < pi.parameters.len() ==> resolved_slot_with(
        #[trigger] pi.parameters[i],
        |p: ParameterV| resolved_parameter(p),
    )
}

/// No unresolved slot remains anywhere in the registry.
pub open spec fn resolved_components(c: ComponentsV) -> bool {
    &&& forall|i: int| 0 <= i < c.security_schemes.len() ==> !((
    #[trigger] c.security_schemes[i]).1 is Reference)
    &&& forall|i: int| 0 <= i < c.responses.len() ==> resolved_slot_with(
        (#[trigger] c.responses[i]).1,
        |r: ResponseV| resolved_response(r),
    )
    &&& forall|i: int| 0 <= i < c.parameters.len() ==> resolved_slot_with(
        (#[trigger] c.parameters[i]).1,
        |p: ParameterV| resolved_parameter(p),
    )
    &&& forall|i: int| 0 <= i < c.examples.len() ==> !((#[trigger] c.examples[i]).1
        is Reference)
    &&& forall|i: int| 0 <= i < c.request_bodies.len() ==> !((#[trigger] c.request_bodies[i]).1
        is Reference)
    &&& forall|i: int| 0 <= i < c.headers.len() ==> resolved_slot_with(
        (#[trigger] c.headers[i]).1,
        |h: HeaderV| resolved_header(h),
    )
    &&& forall|i: int| 0 <= i < c.links.len() ==> !((#[trigger] c.links[i]).1 is Reference)
    &&& forall|i: int| 0 <= i < c.callbacks.len() ==> !((#[trigger] c.callbacks[i]).1
        is Reference)
    &&& forall|i: int| 0 <= i < c.path_items.len() ==> !((#[trigger] c.path_items[i]).1
        is Reference)
}

/// No unresolved slot remains in the path map, and every path item is
/// resolved inside.
pub open spec fn resolved_paths(p: PathsV) -> bool {
    forall|i: int| 0 <= i < p.paths.len() ==> resolved_slot_with(
        (#[trigger] p.paths[i]).1,
        |pi: PathItemV| resolved_path_item(pi),
    )
}

/// No unresolved slot remains reachable from the document root.
pub open spec fn resolved_document(d: DocumentV) -> bool {
    &&& match d.components {
        Some(c) => resolved_components(c),
        None => true,
    }
    &&& match d.paths {
        Some(p) => resolved_paths(p),
        None => true,
    }
}

proof fn lemma_deref_named_not_ref<T: Decode>(raw: JsonV, items: Seq<(Seq<char>, RefOrV<T::V>)>)
    requires
        spec_deref_named::<T>(raw, items) is Ok,
    ensures
        forall|i: int| 0 <= i < spec_deref_named::<T>(raw, items)->Ok_0.len() ==> !((
        #[trigger] spec_deref_named::<T>(raw, items)->Ok_0[i]).1 is Reference),
    decreases items.len(),
{
    if items.len() > 0 {
        lemma_deref_named_not_ref::<T>(raw, items.drop_last());
    }
}

proof fn lemma_deref_walk_slot_pred<T: Walk>(
    raw: JsonV,
    slot: RefOrV<T::V>,
    pred: spec_fn(T::V) -> bool,
)
    requires
        spec_deref_walk_slot::<T>(raw, slot) is Ok,
        forall|v: T::V| (#[trigger] T::spec_walk(raw, v)) is Ok ==> pred(
            T::spec_walk(raw, v)->Ok_0,
        ),
    ensures
        resolved_slot_with(spec_deref_walk_slot::<T>(raw, slot)->Ok_0, pred),
{
}

proof fn lemma_deref_walk_named_pred<T: Walk>(
    raw: JsonV,
    items: Seq<(Seq<char>, RefOrV<T::V>)>,
    pred: spec_fn(T::V) -> bool,
)
    requires
        spec_deref_walk_named::<T>(raw, items) is Ok,
        forall|v: T::V| (#[trigger] T::spec_walk(raw, v)) is Ok ==> pred(
            T::spec_walk(raw, v)->Ok_0,
        ),
    ensures
        forall|i: int| 0 <= i < spec_deref_walk_named::<T>(raw, items)->Ok_0.len()
            ==> resolved_slot_with(
            (#[trigger] spec_deref_walk_named::<T>(raw, items)->Ok_0[i]).1,
            pred,
        ),
    decreases items.len(),
{
    if items.len() > 0 {
        lemma_deref_walk_named_pred::<T>(raw, items.drop_last(), pred);
        lemma_deref_walk_slot_pred::<T>(raw, items.last().1, pred);
    }
}

proof fn lemma_deref_walk_list_pred<T: Walk>(
    raw: JsonV,
    items: Seq<RefOrV<T::V>>,
    pred: spec_fn(T::V) -> bool,
)
    requires
        spec_deref_walk_list::<T>(raw, items) is Ok,
        forall|v: T::V| (#[trigger] T::spec_walk(raw, v)) is Ok ==> pred(
            T::spec_walk(raw, v)->Ok_0,
        ),
    ensures
        forall|i: int| 0 <= i < spec_deref_walk_list::<T>(raw, items)->Ok_0.len()
            ==> resolved_slot_with(
            #[trigger] spec_deref_walk_list::<T>(raw, items)->Ok_0[i],
            pred,
        ),
    decreases items.len(),
{
    if items.len() > 0 {
        lemma_deref_walk_list_pred::<T>(raw, items.drop_last(), pred);
        lemma_deref_walk_slot_pred::<T>(raw, items.last(), pred);
    }
}

proof fn lemma_walk_parameter_resolved(raw: JsonV, p: ParameterV)
    requires
        <Parameter as Walk>::spec_walk(raw, p) is Ok,
    ensures
        resolved_parameter(<Parameter as Walk>::spec_walk(raw, p)->Ok_0),
{
    lemma_deref_named_not_ref::<crate::model::Example>(raw, p.data.examples);
}

proof fn lemma_walk_header_resolved(raw: JsonV, h: HeaderV)
    requires
        <Header as Walk>::spec_walk(raw, h) is Ok,
    ensures
        resolved_header(<Header as Walk>::spec_walk(raw, h)->Ok_0),
{
    lemma_deref_named_not_ref::<crate::model::Example>(raw, h.examples);
}

proof fn lemma_walk_response_resolved(raw: JsonV, r: ResponseV)
    requires
        <Response as Walk>::spec_walk(raw, r) is Ok,
    ensures
        resolved_response(<Response as Walk>::spec_walk(raw, r)->Ok_0),
{
    lemma_deref_named_not_ref::<Header>(raw, r.headers);
    match spec_deref_named::<Header>(raw, r.headers) {
        Ok(_) => {
            lemma_deref_named_not_ref::<crate::model::Link>(raw, r.links);
        },
        Err(_) => {},
    }
}

proof fn lemma_walk_parameter_pred(raw: JsonV)
    ensures
        forall|v: ParameterV| (#[trigger] <Parameter as Walk>::spec_walk(raw, v)) is Ok
            ==> resolved_parameter(<Parameter as Walk>::spec_walk(raw, v)->Ok_0),
{
    assert forall|v: ParameterV| (#[trigger] <Parameter as Walk>::spec_walk(raw, v))
        is Ok implies resolved_parameter(<Parameter as Walk>::spec_walk(raw, v)->Ok_0) by {
        lemma_walk_parameter_resolved(raw, v);
    }
}

proof fn lemma_walk_response_pred(raw: JsonV)
    ensures
        forall|v: ResponseV| (#[trigger] <Response as Walk>::spec_walk(raw, v)) is Ok
            ==> resolved_response(<Response as Walk>::spec_walk(raw, v)->Ok_0),
{
    assert forall|v: ResponseV| (#[trigger] <Response as Walk>::spec_walk(raw, v))
        is Ok implies resolved_response(<Response as Walk>::spec_walk(raw, v)->Ok_0) by {
        lemma_walk_response_resolved(raw, v);
    }
}

proof fn lemma_walk_header_pred(raw: JsonV)
    ensures
        forall|v: HeaderV| (#[trigger] <Header as Walk>::spec_walk(raw, v)) is Ok
            ==> resolved_header(<Header as Walk>::spec_walk(raw, v)->Ok_0),
{
    assert forall|v: HeaderV| (#[trigger] <Header as Walk>::spec_walk(raw, v))
        is Ok implies resolved_header(<Header as Walk>::spec_walk(raw, v)->Ok_0) by {
        lemma_walk_header_resolved(raw, v);
    }
}

proof fn lemma_walk_operation_resolved(raw: JsonV, o: OperationV)
    requires
        <crate::model::Operation as Walk>::spec_walk(raw, o) is Ok,
    ensures
        resolved_operation(<crate::model::Operation as Walk>::spec_walk(raw, o)->Ok_0),
{
    lemma_walk_parameter_pred(raw);
    lemma_deref_walk_list_pred::<Parameter>(
        raw,
        o.parameters,
        |p: ParameterV| resolved_parameter(p),
    );
    match o.responses {
        Some(rs) => {
            if spec_deref_walk_named::<Response>(raw, rs.responses) is Ok {
                lemma_walk_response_pred(raw);
                lemma_deref_walk_named_pred::<Response>(
                    raw,
                    rs.responses,
                    |r: ResponseV| resolved_response(r),
                );
            }
        },
        None => {},
    }
}

proof fn lemma_walk_operation_pred(raw: JsonV)
    ensures
        forall|v: OperationV| (#[trigger] <crate::model::Operation as Walk>::spec_walk(raw, v))
            is Ok ==> resolved_operation(
            <crate::model::Operation as Walk>::spec_walk(raw, v)->Ok_0,
        ),
{
    assert forall|v: OperationV| (#[trigger] <crate::model::Operation as Walk>::spec_walk(
        raw,
        v,
    )) is Ok implies resolved_operation(
        <crate::model::Operation as Walk>::spec_walk(raw, v)->Ok_0,
    ) by {
        lemma_walk_operation_resolved(raw, v);
    }
}

proof fn lemma_walk_opt_operation_resolved(raw: JsonV, o: Option<OperationV>)
    requires
        spec_walk_opt_operation(raw, o) is Ok,
    ensures
        match spec_walk_opt_operation(raw, o)->Ok_0 {
            Some(op) => resolved_operation(op),
            None => true,
        },
{
    match o {
        Some(op) => {
            lemma_walk_operation_resolved(raw, op);
        },
        None => {},
    }
}

proof fn lemma_walk_path_item_resolved(raw: JsonV, pi: PathItemV)
    requires
        <PathItem as Walk>::spec_walk(raw, pi) is Ok,
    ensures
        resolved_path_item(<PathItem as Walk>::spec_walk(raw, pi)->Ok_0),
{
    if spec_walk_opt_operation(raw, pi.get) is Ok {
        lemma_walk_opt_operation_resolved(raw, pi.get);
        if spec_walk_opt_operation(raw, pi.put) is Ok {
            lemma_walk_opt_operation_resolved(raw, pi.put);
            if spec_walk_opt_operation(raw, pi.post) is Ok {
                lemma_walk_opt_operation_resolved(raw, pi.post);
                if spec_walk_opt_operation(raw, pi.delete) is Ok {
                    lemma_walk_opt_operation_resolved(raw, pi.delete);
                    if spec_walk_opt_operation(raw, pi.options) is Ok {
                        lemma_walk_opt_operation_resolved(raw, pi.options);
                        if spec_walk_opt_operation(raw, pi.head) is Ok {
                            lemma_walk_opt_operation_resolved(raw, pi.head);
                            if spec_walk_opt_operation(raw, pi.patch) is Ok {
                                lemma_walk_opt_operation_resolved(raw, pi.patch);
                                if spec_walk_opt_operation(raw, pi.trace) is Ok {
                                    lemma_walk_opt_operation_resolved(raw, pi.trace);
                                    lemma_walk_parameter_pred(raw);
                                    lemma_deref_walk_list_pred::<Parameter>(
                                        raw,
                                        pi.parameters,
                                        |p: ParameterV| resolved_parameter(p),
                                    );
                                }
                            }
                        }
                    }
                }
            }
        }
    }
}

proof fn lemma_walk_path_item_pred(raw: JsonV)
    ensures
        forall|v: PathItemV| (#[trigger] <PathItem as Walk>::spec_walk(raw, v)) is Ok
            ==> resolved_path_item(<PathItem as Walk>::spec_walk(raw, v)->Ok_0),
{
    assert forall|v: PathItemV| (#[trigger] <PathItem as Walk>::spec_walk(raw, v))
        is Ok implies resolved_path_item(<PathItem as Walk>::spec_walk(raw, v)->Ok_0) by {
        lemma_walk_path_item_resolved(raw, v);
    }
}

proof fn lemma_walk_components_resolved(raw: JsonV, c: ComponentsV)
    requires
        spec_walk_components(raw, c) is Ok,
    ensures
        resolved_components(spec_walk_components(raw, c)->Ok_0),
{
    lemma_deref_named_not_ref::<crate::model::SecurityScheme>(raw, c.security_schemes);
    if spec_deref_named::<crate::model::SecurityScheme>(raw, c.security_schemes) is Ok {
        lemma_walk_response_pred(raw);
        if spec_deref_walk_named::<Response>(raw, c.responses) is Ok {
            lemma_deref_walk_named_pred::<Response>(
                raw,
                c.responses,
                |r: ResponseV| resolved_response(r),
            );
            if crate::walk::spec_compose_named_schemas(raw, c.schemas) is Ok {
                lemma_walk_parameter_pred(raw);
                if spec_deref_walk_named::<Parameter>(raw, c.parameters) is Ok {
                    lemma_deref_walk_named_pred::<Parameter>(
                        raw,
                        c.parameters,
                        |p: ParameterV| resolved_parameter(p),
                    );
                    lemma_deref_named_not_ref::<crate::model::Example>(raw, c.examples);
                    lemma_deref_named_not_ref::<crate::model::RequestBody>(
                        raw,
                        c.request_bodies,
                    );
                    if spec_deref_named::<crate::model::Example>(raw, c.examples) is Ok
                        && spec_deref_named::<crate::model::RequestBody>(
                        raw,
                        c.request_bodies,
                    ) is Ok {
                        lemma_walk_header_pred(raw);
                        if spec_deref_walk_named::<Header>(raw, c.headers) is Ok {
                            lemma_deref_walk_named_pred::<Header>(
                                raw,
                                c.headers,
                                |h: HeaderV| resolved_header(h),
                            );
                            lemma_deref_named_not_ref::<crate::model::Link>(raw, c.links);
                            lemma_deref_named_not_ref::<crate::model::Callback>(
                                raw,
                                c.callbacks,
                            );
                            lemma_deref_named_not_ref::<PathItem>(raw, c.path_items);
                        }
                    }
                }
            }
        }
    }
}

proof fn lemma_walk_paths_resolved(raw: JsonV, p: PathsV)
    requires
        spec_walk_paths(raw, p) is Ok,
    ensures
        resolved_paths(spec_walk_paths(raw, p)->Ok_0),
{
    lemma_walk_path_item_pred(raw);
    lemma_deref_walk_named_pred::<PathItem>(
        raw,
        p.paths,
        |pi: PathItemV| resolved_path_item(pi),
    );
}

/// After a successful dereference pass, no unresolved reference slot
/// remains reachable from the document root: every slot of every
/// collection, path item, operation, response, header and parameter is
/// an inline item or a resolved reference.
pub proof fn lemma_dereference_resolves_all(raw: JsonV, d: DocumentV, d2: DocumentV)
    requires
        spec_walk_document(raw, d) == Ok::<DocumentV, ErrV>(d2),
    ensures
        resolved_document(d2),
{
    match d.components {
        Some(c) => {
            lemma_walk_components_resolved(raw, c);
        },
        None => {},
    }
    match d.paths {
        Some(p) => {
            if spec_walk_paths(raw, p) is Ok {
                lemma_walk_paths_resolved(raw, p);
            }
        },
        None => {},
    }
}

/// A slot holding an inline item that satisfies the given condition:
/// the form every slot of a document without references takes.
pub open spec fn inline_slot_with<TV>(s: RefOrV<TV>, pred: spec_fn(TV) -> bool) -> bool {
    match s {
        RefOrV::Item(x) => pred(x),
        _ => false,
    }
}

/// Always-true condition on an item, for slots whose inside the walk
/// never enters.
pub open spec fn any_item<TV>(x: TV) -> bool {
    true
}

/// A schema without references whose nesting stays within the given
/// depth bound.
pub open spec fn pristine_schema(s: SchemaV, fuel: nat) -> bool
    decreases fuel, 0int, 0int,
{
    match s {
        SchemaV::Bool(_) => true,
        SchemaV::Object(o) => fuel > 0 && o.reference is None && pristine_opt_list(
            o.all_of,
            (fuel - 1) as nat,
        ) && pristine_opt_list(o.any_of, (fuel - 1) as nat) && pristine_opt_list(
            o.one_of,
            (fuel - 1) as nat,
        ) && pristine_opt_child(o.if_schema, (fuel - 1) as nat) && pristine_opt_child(
            o.then_schema,
            (fuel - 1) as nat,
        ) && pristine_opt_child(o.else_schema, (fuel - 1) as nat),
    }
}

pub open spec fn pristine_opt_list(ol: Option<Seq<SchemaV>>, fuel: nat) -> bool
    decreases fuel, 2int, 0int,
{
    match ol {
        None => true,
        Some(items) => pristine_list(items, fuel),
    }
}

pub open spec fn pristine_list(items: Seq<SchemaV>, fuel: nat) -> bool
    decreases fuel, 1int, items.len(),
{
    if items.len() == 0 {
        true
    } else {
        pristine_list(items.drop_last(), fuel) && pristine_schema(items.last(), fuel)
    }
}

pub open spec fn pristine_opt_child(oc: Option<Box<SchemaV>>, fuel: nat) -> bool
    decreases fuel, 1int, 0int,
{
    match oc {
        None => true,
        Some(b) => pristine_schema(*b, fuel),
    }
}

/// A parameter whose example slots are all inline.
pub open spec fn pristine_parameter(p: ParameterV) -> bool {
    forall|i: int| 0 <= i < p.data.examples.len() ==> (#[trigger] p.data.examples[i]).1
        is Item
}

/// A header whose example slots are all inline.
pub open spec fn pristine_header(h: HeaderV) -> bool {
    forall|i: int| 0 <= i < h.examples.len() ==> (#[trigger] h.examples[i]).1 is Item
}

/// A response whose header and link slots are all inline.
pub open spec fn pristine_response(r: ResponseV) -> bool {
    &&& forall|i: int| 0 <= i < r.headers.len() ==> (#[trigger] r.headers[i]).1 is Item
    &&& forall|i: int| 0 <= i < r.links.len() ==> (#[trigger] r.links[i]).1 is Item
}

/// An operation all of whose slots are inline, down to its responses.
pub open spec fn pristine_operation(o: OperationV) -> bool {
    &&& forall|i: int| 0 <= i < o.parameters.len() ==> inline_slot_with(
        #[trigger] o.parameters[i],
        |p: ParameterV| pristine_parameter(p),
    )
    &&& match o.request_body {
        Some(s) => s is Item,
        None => true,
    }
    &&& match o.responses {
        Some(rs) => forall|i: int| 0 <= i < rs.responses.len() ==> inline_slot_with(
            (#[trigger] rs.responses[i]).1,
            |r: ResponseV| pristine_response(r),
        ),
        None => true,
    }
}

/// A path item all of whose slots are inline, down to its operations.
pub open spec fn pristine_path_item(pi: PathItemV) -> bool {
    &&& match pi.get {
        Some(op) => pristine_operation(op),
        None => true,
    }
    &&& match pi.put {
        Some(op) => pristine_operation(op),
        None => true,
    }
    &&& match pi.post {
        Some(op) => pristine_operation(op),
        None => true,
    }
    &&& match pi.delete {
        Some(op) => pristine_operation(op),
        None => true,
    }
    &&& match pi.options {
        Some(op) => pristine_operation(op),
        None => true,
    }
    &&& match pi.head {
        Some(op) => pristine_operation(op),
        None => true,
    }
    &&& match pi.patch {
        Some(op) => pristine_operation(op),
        None => true,
    }
    &&& match pi.trace {
        Some(op) => pristine_operation(op),
        None => true,
    }
    &&& forall|i: int| 0 <= i < pi.parameters.len() ==> inline_slot_with(
        #[trigger] pi.parameters[i],
        |p: ParameterV| pristine_parameter(p),
    )
}

/// A registry all of whose slots are inline and whose schemas carry no
/// reference anywhere, within the depth bound.
pub open spec fn pristine_components(c: ComponentsV) -> bool {
    &&& forall|i: int| 0 <= i < c.security_schemes.len() ==> (
    #[trigger] c.security_schemes[i]).1 is Item
    &&& forall|i: int| 0 <= i < c.responses.len() ==> inline_slot_with(
        (#[trigger] c.responses[i]).1,
        |r: ResponseV| pristine_response(r),
    )
    &&& forall|i: int| 0 <= i < c.schemas.len() ==> pristine_schema(
        (#[trigger] c.schemas[i]).1,
        crate::schema::SCHEMA_DEPTH_LIMIT as nat,
    )
    &&& forall|i: int| 0 <= i < c.parameters.len() ==> inline_slot_with(
        (#[trigger] c.parameters[i]).1,
        |p: ParameterV| pristine_parameter(p),
    )
    &&& forall|i: int| 0 <= i < c.examples.len() ==> (#[trigger] c.examples[i]).1 is Item
    &&& forall|i: int| 0 <= i < c.request_bodies.len() ==> (#[trigger] c.request_bodies[i]).1
        is Item
    &&& forall|i: int| 0 <= i < c.headers.len() ==> inline_slot_with(
        (#[trigger] c.headers[i]).1,
        |h: HeaderV| pristine_header(h),
    )
    &&& forall|i: int| 0 <= i < c.links.len() ==> (#[trigger] c.links[i]).1 is Item
    &&& forall|i: int| 0 <= i < c.callbacks.len() ==> (#[trigger] c.callbacks[i]).1 is Item
    &&& forall|i: int| 0 <= i < c.path_items.len() ==> (#[trigger] c.path_items[i]).1 is Item
}

/// A path map all of whose slots are inline, down to its operations.
pub open spec fn pristine_paths(p: PathsV) -> bool {
    forall|i: int| 0 <= i < p.paths.len() ==> inline_slot_with(
        (#[trigger] p.paths[i]).1,
        |pi: PathItemV| pristine_path_item(pi),
    )
}

/// A document without a single reference anywhere a reference is
/// syntactically possible, its schemas within the depth bound.
pub open spec fn pristine_document(d: DocumentV) -> bool {
    &&& match d.components {
        Some(c) => pristine_components(c),
        None => true,
    }
    &&& match d.paths {
        Some(p) => pristine_paths(p),
        None => true,
    }
}

proof fn lemma_compose_pristine(raw: JsonV, s: SchemaV, fuel: nat)
    requires
        pristine_schema(s, fuel),
    ensures
        spec_compose_schema(raw, s, fuel) == Ok::<SchemaV, ErrV>(s),
    decreases fuel, 0int, 0int,
{
    match s {
        SchemaV::Bool(_) => {},
        SchemaV::Object(o) => {
            lemma_compose_opt_list_pristine(raw, o.all_of, (fuel - 1) as nat);
            lemma_compose_opt_list_pristine(raw, o.any_of, (fuel - 1) as nat);
            lemma_compose_opt_list_pristine(raw, o.one_of, (fuel - 1) as nat);
            lemma_compose_opt_child_pristine(raw, o.if_schema, (fuel - 1) as nat);
            lemma_compose_opt_child_pristine(raw, o.then_schema, (fuel - 1) as nat);
            lemma_compose_opt_child_pristine(raw, o.else_schema, (fuel - 1) as nat);
        },
    }
}

proof fn lemma_compose_opt_list_pristine(raw: JsonV, ol: Option<Seq<SchemaV>>, fuel: nat)
    requires
        pristine_opt_list(ol, fuel),
    ensures
        crate::schema::spec_compose_opt_list(raw, ol, fuel) == Ok::<
            Option<Seq<SchemaV>>,
            ErrV,
        >(ol),
    decreases fuel, 2int, 0int,
{
    match ol {
        None => {},
        Some(items) => {
            lemma_compose_list_pristine(raw, items, fuel);
        },
    }
}

proof fn lemma_compose_list_pristine(raw: JsonV, items: Seq<SchemaV>, fuel: nat)
    requires
        pristine_list(items, fuel),
    ensures
        spec_compose_list(raw, items, fuel) == Ok::<Seq<SchemaV>, ErrV>(items),
    decreases fuel, 1int, items.len(),
{
    if items.len() > 0 {
        lemma_compose_list_pristine(raw, items.drop_last(), fuel);
        lemma_compose_pristine(raw, items.last(), fuel);
        assert(items.drop_last().push(items.last()) =~= items);
    } else {
        assert(items =~= Seq::<SchemaV>::empty());
    }
}

proof fn lemma_compose_opt_child_pristine(raw: JsonV, oc: Option<Box<SchemaV>>, fuel: nat)
    requires
        pristine_opt_child(oc, fuel),
    ensures
        crate::schema::spec_compose_opt_child(raw, oc, fuel) == Ok::<
            Option<Box<SchemaV>>,
            ErrV,
        >(oc),
    decreases fuel, 1int, 0int,
{
    match oc {
        None => {},
        Some(b) => {
            lemma_compose_pristine(raw, *b, fuel);
        },
    }
}

proof fn lemma_compose_named_schemas_pristine(raw: JsonV, items: Seq<(Seq<char>, SchemaV)>)
    requires
        forall|i: int| 0 <= i < items.len() ==> pristine_schema(
            (#[trigger] items[i]).1,
            crate::schema::SCHEMA_DEPTH_LIMIT as nat,
        ),
    ensures
        crate::walk::spec_compose_named_schemas(raw, items) == Ok::<
            Seq<(Seq<char>, SchemaV)>,
            ErrV,
        >(items),
    decreases items.len(),
{
    if items.len() > 0 {
        assert forall|i: int| 0 <= i < items.drop_last().len() implies pristine_schema(
            (#[trigger] items.drop_last()[i]).1,
            crate::schema::SCHEMA_DEPTH_LIMIT as nat,
        ) by {
            assert(items.drop_last()[i] == items[i]);
        }
        lemma_compose_named_schemas_pristine(raw, items.drop_last());
        assert(items.last() == items[items.len() - 1]);
        lemma_compose_pristine(raw, items.last().1, crate::schema::SCHEMA_DEPTH_LIMIT as nat);
        assert(items.drop_last().push(items.last()) =~= items);
    } else {
        assert(items =~= Seq::<(Seq<char>, SchemaV)>::empty());
    }
}

proof fn lemma_deref_named_inline<T: Decode>(raw: JsonV, items: Seq<(Seq<char>, RefOrV<T::V>)>)
    requires
        forall|i: int| 0 <= i < items.len() ==> (#[trigger] items[i]).1 is Item,
    ensures
        spec_deref_named::<T>(raw, items) == Ok::<Seq<(Seq<char>, RefOrV<T::V>)>, ErrV>(
            items,
        ),
    decreases items.len(),
{
    if items.len() > 0 {
        assert forall|i: int| 0 <= i < items.drop_last().len() implies (
        #[trigger] items.drop_last()[i]).1 is Item by {
            assert(items.drop_last()[i] == items[i]);
        }
        lemma_deref_named_inline::<T>(raw, items.drop_last());
        assert(items.last() == items[items.len() - 1]);
        assert(items.drop_last().push(items.last()) =~= items);
    } else {
        assert(items =~= Seq::<(Seq<char>, RefOrV<T::V>)>::empty());
    }
}

proof fn lemma_deref_walk_slot_inline<T: Walk>(
    raw: JsonV,
    slot: RefOrV<T::V>,
    pred: spec_fn(T::V) -> bool,
)
    requires
        inline_slot_with(slot, pred),
        forall|v: T::V| #[trigger] pred(v) ==> T::spec_walk(raw, v) == Ok::<T::V, ErrV>(v),
    ensures
        spec_deref_walk_slot::<T>(raw, slot) == Ok::<RefOrV<T::V>, ErrV>(slot),
{
}

proof fn lemma_deref_walk_named_inline<T: Walk>(
    raw: JsonV,
    items: Seq<(Seq<char>, RefOrV<T::V>)>,
    pred: spec_fn(T::V) -> bool,
)
    requires
        forall|i: int| 0 <= i < items.len() ==> inline_slot_with(
            (#[trigger] items[i]).1,
            pred,
        ),
        forall|v: T::V| #[trigger] pred(v) ==> T::spec_walk(raw, v) == Ok::<T::V, ErrV>(v),
    ensures
        spec_deref_walk_named::<T>(raw, items) == Ok::<Seq<(Seq<char>, RefOrV<T::V>)>, ErrV>(
            items,
        ),
    decreases items.len(),
{
    if items.len() > 0 {
        assert forall|i: int| 0 <= i < items.drop_last().len() implies inline_slot_with(
            (#[trigger] items.drop_last()[i]).1,
            pred,
        ) by {
            assert(items.drop_last()[i] == items[i]);
        }
        lemma_deref_walk_named_inline::<T>(raw, items.drop_last(), pred);
        assert(items.last() == items[items.len() - 1]);
        lemma_deref_walk_slot_inline::<T>(raw, items.last().1, pred);
        assert(items.drop_last().push(items.last()) =~= items);
    } else {
        assert(items =~= Seq::<(Seq<char>, RefOrV<T::V>)>::empty());
    }
}

proof fn lemma_deref_walk_list_inline<T: Walk>(
    raw: JsonV,
    items: Seq<RefOrV<T::V>>,
    pred: spec_fn(T::V) -> bool,
)
    requires
        forall|i: int| 0 <= i < items.len() ==> inline_slot_with(#[trigger] items[i], pred),
        forall|v: T::V| #[trigger] pred(v) ==> T::spec_walk(raw, v) == Ok::<T::V, ErrV>(v),
    ensures
        spec_deref_walk_list::<T>(raw, items) == Ok::<Seq<RefOrV<T::V>>, ErrV>(items),
    decreases items.len(),
{
    if items.len() > 0 {
        assert forall|i: int| 0 <= i < items.drop_last().len() implies inline_slot_with(
            #[trigger] items.drop_last()[i],
            pred,
        ) by {
            assert(items.drop_last()[i] == items[i]);
        }
        lemma_deref_walk_list_inline::<T>(raw, items.drop_last(), pred);
        assert(items.last() == items[items.len() - 1]);
        lemma_deref_walk_slot_inline::<T>(raw, items.last(), pred);
        assert(items.drop_last().push(items.last()) =~= items);
    } else {
        assert(items =~= Seq::<RefOrV<T::V>>::empty());
    }
}

proof fn lemma_walk_parameter_pristine(raw: JsonV)
    ensures
        forall|v: ParameterV| #[trigger] pristine_parameter(v)
            ==> <Parameter as Walk>::spec_walk(raw, v) == Ok::<ParameterV, ErrV>(v),
{
    assert forall|v: ParameterV| #[trigger] pristine_parameter(v) implies <Parameter as Walk>::spec_walk(
        raw,
        v,
    ) == Ok::<ParameterV, ErrV>(v) by {
        assert forall|i: int| 0 <= i < v.data.examples.len() implies (
        #[trigger] v.data.examples[i]).1 is Item by {}
        lemma_deref_named_inline::<crate::model::Example>(raw, v.data.examples);
    }
}

proof fn lemma_walk_header_pristine(raw: JsonV)
    ensures
        forall|v: HeaderV| #[trigger] pristine_header(v) ==> <Header as Walk>::spec_walk(
            raw,
            v,
        ) == Ok::<HeaderV, ErrV>(v),
{
    assert forall|v: HeaderV| #[trigger] pristine_header(v) implies <Header as Walk>::spec_walk(
        raw,
        v,
    ) == Ok::<HeaderV, ErrV>(v) by {
        lemma_deref_named_inline::<crate::model::Example>(raw, v.examples);
    }
}

proof fn lemma_walk_response_pristine(raw: JsonV)
    ensures
        forall|v: ResponseV| #[trigger] pristine_response(v)
            ==> <Response as Walk>::spec_walk(raw, v) == Ok::<ResponseV, ErrV>(v),
{
    assert forall|v: ResponseV| #[trigger] pristine_response(v) implies <Response as Walk>::spec_walk(
        raw,
        v,
    ) == Ok::<ResponseV, ErrV>(v) by {
        lemma_deref_named_inline::<Header>(raw, v.headers);
        lemma_deref_named_inline::<crate::model::Link>(raw, v.links);
    }
}

proof fn lemma_walk_operation_pristine(raw: JsonV)
    ensures
        forall|v: OperationV| #[trigger] pristine_operation(v)
            ==> <crate::model::Operation as Walk>::spec_walk(raw, v) == Ok::<
            OperationV,
            ErrV,
        >(v),
{
    assert forall|v: OperationV| #[trigger] pristine_operation(v) implies <crate::model::Operation as Walk>::spec_walk(
        raw,
        v,
    ) == Ok::<OperationV, ErrV>(v) by {
        lemma_walk_parameter_pristine(raw);
        lemma_deref_walk_list_inline::<Parameter>(
            raw,
            v.parameters,
            |p: ParameterV| pristine_parameter(p),
        );
        match v.responses {
            Some(rs) => {
                lemma_walk_response_pristine(raw);
                lemma_deref_walk_named_inline::<Response>(
                    raw,
                    rs.responses,
                    |r: ResponseV| pristine_response(r),
                );
            },
            None => {},
        }
    }
}

proof fn lemma_walk_path_item_pristine(raw: JsonV)
    ensures
        forall|v: PathItemV| #[trigger] pristine_path_item(v)
            ==> <PathItem as Walk>::spec_walk(raw, v) == Ok::<PathItemV, ErrV>(v),
{
    assert forall|v: PathItemV| #[trigger] pristine_path_item(v) implies <PathItem as Walk>::spec_walk(
        raw,
        v,
    ) == Ok::<PathItemV, ErrV>(v) by {
        lemma_walk_operation_pristine(raw);
        lemma_walk_parameter_pristine(raw);
        lemma_deref_walk_list_inline::<Parameter>(
            raw,
            v.parameters,
            |p: ParameterV| pristine_parameter(p),
        );
    }
}

proof fn lemma_collect_path_servers_ok(paths: Seq<(Seq<char>, RefOrV<PathItemV>)>)
    requires
        forall|i: int| 0 <= i < paths.len() ==> !((#[trigger] paths[i]).1 is Reference),
    ensures
        collect_path_servers(paths) is Ok,
    decreases paths.len(),
{
    if paths.len() > 0 {
        assert forall|i: int| 0 <= i < paths.drop_last().len() implies !((
        #[trigger] paths.drop_last()[i]).1 is Reference) by {
            assert(paths.drop_last()[i] == paths[i]);
        }
        lemma_collect_path_servers_ok(paths.drop_last());
        assert(paths.last() == paths[paths.len() - 1]);
        assert(slot_servers(paths.last().1) is Ok);
    }
}

/// Once the pass has completed, server aggregation is owed to succeed:
/// a document in which no unresolved slot remains never leaves a path
/// slot for `get_servers` to stumble over.
pub proof fn lemma_get_servers_succeeds_after_pass(d: DocumentV)
    requires
        resolved_document(d),
    ensures
        spec_get_servers(d, true) is Ok,
{
    match d.paths {
        Some(p) => {
            assert forall|i: int| 0 <= i < p.paths.len() implies !((#[trigger] p.paths[i]).1
                is Reference) by {
                assert(resolved_slot_with(
                    p.paths[i].1,
                    |pi: PathItemV| resolved_path_item(pi),
                ));
            }
            lemma_collect_path_servers_ok(p.paths);
        },
        None => {},
    }
}

/// Dereferencing a document without references is a structural no-op:
/// every slot is already an inline item, so the pass returns the
/// document exactly as it was given (the depth bound must cover the
/// nesting of its schemas).
pub proof fn lemma_dereference_no_refs_is_identity(raw: JsonV, d: DocumentV)
    requires
        pristine_document(d),
    ensures
        spec_walk_document(raw, d) == Ok::<DocumentV, ErrV>(d),
{
    match d.components {
        Some(c) => {
            lemma_deref_named_inline::<crate::model::SecurityScheme>(
                raw,
                c.security_schemes,
            );
            lemma_walk_response_pristine(raw);
            lemma_deref_walk_named_inline::<Response>(
                raw,
                c.responses,
                |r: ResponseV| pristine_response(r),
            );
            lemma_compose_named_schemas_pristine(raw, c.schemas);
            lemma_walk_parameter_pristine(raw);
            lemma_deref_walk_named_inline::<Parameter>(
                raw,
                c.parameters,
                |p: ParameterV| pristine_parameter(p),
            );
            lemma_deref_named_inline::<crate::model::Example>(raw, c.examples);
            lemma_deref_named_inline::<crate::model::RequestBody>(raw, c.request_bodies);
            lemma_walk_header_pristine(raw);
            lemma_deref_walk_named_inline::<Header>(
                raw,
                c.headers,
                |h: HeaderV| pristine_header(h),
            );
            lemma_deref_named_inline::<crate::model::Link>(raw, c.links);
            lemma_deref_named_inline::<crate::model::Callback>(raw, c.callbacks);
            lemma_deref_named_inline::<PathItem>(raw, c.path_items);
        },
        None => {},
    }
    match d.paths {
        Some(p) => {
            lemma_walk_path_item_pristine(raw);
            lemma_deref_walk_named_inline::<PathItem>(
                raw,
                p.paths,
                |pi: PathItemV| pristine_path_item(pi),
            );
        },
        None => {},
    }
}

/// Composing a schema object that has `allOf` members and no reference
/// of its own keeps exactly those members: the result exposes the same
/// number of `allOf` children, and each child is the independent
/// composition of the corresponding member — sibling constraints are
/// resolved one by one, never merged.
pub proof fn lemma_allof_members_kept(
    raw: JsonV,
    o: SchemaObjectV,
    members: Seq<SchemaV>,
    fuel: nat,
    r: SchemaV,
)
    requires
        o.reference is None,
        o.all_of == Some(members),
        fuel > 0,
        spec_compose_schema(raw, SchemaV::Object(o), fuel) == Ok::<SchemaV, ErrV>(r),
    ensures
        r matches SchemaV::Object(o2) && o2.all_of matches Some(out) && out.len()
            == members.len() && (forall|i: int| 0 <= i < members.len()
            ==> spec_compose_schema(raw, members[i], (fuel - 1) as nat) == Ok::<
            SchemaV,
            ErrV,
        >(out[i])),
{
    lemma_compose_list_ok(raw, members, (fuel - 1) as nat);
}

} // verus!
