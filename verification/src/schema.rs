use vstd::prelude::*;
use vstd::string::*;
use crate::cache::{cache_wf, resolve_raw, spec_resolve, ResolutionCache};
use crate::error::{located, ErrV, OpenApiError};
use crate::json::{lookup_key, obj_get, pairs_view, JsonV, JsonValue};
use crate::seqs::{extra_fields, keep_unknown, strings_view};

verus! {

/// A schema: either a boolean schema or an object schema.
pub enum Schema {
    Bool(bool),
    Object(SchemaObject),
}

/// An object schema: its own reference, its composition children
/// (`allOf`/`anyOf`/`oneOf` lists, `if`/`then`/`else` single children),
/// and every other member verbatim.
pub struct SchemaObject {
    pub reference: Option<String>,
    pub all_of: Option<Vec<Schema>>,
    pub any_of: Option<Vec<Schema>>,
    pub one_of: Option<Vec<Schema>>,
    pub if_schema: Option<Box<Schema>>,
    pub then_schema: Option<Box<Schema>>,
    pub else_schema: Option<Box<Schema>>,
    pub extra: Vec<(String, JsonValue)>,
}

/// Mirror of `Schema`.
pub ghost enum SchemaV {
    Bool(bool),
    Object(SchemaObjectV),
}

/// Mirror of `SchemaObject`.
pub ghost struct SchemaObjectV {
    pub reference: Option<Seq<char>>,
    pub all_of: Option<Seq<SchemaV>>,
    pub any_of: Option<Seq<SchemaV>>,
    pub one_of: Option<Seq<SchemaV>>,
    pub if_schema: Option<Box<SchemaV>>,
    pub then_schema: Option<Box<SchemaV>>,
    pub else_schema: Option<Box<SchemaV>>,
    pub extra: Seq<(Seq<char>, JsonV)>,
}

pub open spec fn schema_view(s: Schema) -> SchemaV
    decreases s, 2int,
{
    match s {
        Schema::Bool(b) => SchemaV::Bool(b),
        Schema::Object(o) => SchemaV::Object(schema_obj_view(o)),
    }
}

pub open spec fn schema_opt_view(o: Option<Box<Schema>>) -> Option<Box<SchemaV>>
    decreases o, 1int,
{
    match o {
        Some(b) => Some(Box::new(schema_view(*b))),
        None => None,
    }
}

pub open spec fn schema_obj_view(o: SchemaObject) -> SchemaObjectV
    decreases o, 3int,
{
    SchemaObjectV {
        reference: crate::model::opt_view(o.reference),
        all_of: match o.all_of {
            Some(v) => Some(schema_list_view(v@)),
            None => None,
        },
        any_of: match o.any_of {
            Some(v) => Some(schema_list_view(v@)),
            None => None,
        },
        one_of: match o.one_of {
            Some(v) => Some(schema_list_view(v@)),
            None => None,
        },
        if_schema: schema_opt_view(o.if_schema),
        then_schema: schema_opt_view(o.then_schema),
        else_schema: schema_opt_view(o.else_schema),
        extra: pairs_view(o.extra@),
    }
}

pub open spec fn schema_list_view(items: Seq<Schema>) -> Seq<SchemaV>
    decreases items, 0int,
{
    if items.len() == 0 {
        Seq::empty()
    } else {
        seq![schema_view(items[0])] + schema_list_view(items.drop_first())
    }
}

impl View for Schema {
    type V = SchemaV;

    open spec fn view(&self) -> SchemaV {
        schema_view(*self)
    }
}

/// `schema_list_view` maps the sequence pointwise.
pub proof fn lemma_schema_list_view(items: Seq<Schema>)
    ensures
        schema_list_view(items).len() == items.len(),
        forall|i: int| 0 <= i < items.len() ==> schema_list_view(items)[i] == schema_view(
            items[i],
        ),
    decreases items.len(),
{
    if items.len() > 0 {
        lemma_schema_list_view(items.drop_first());
    }
}

/// A member found by `obj_get` sits inside the member list.
pub proof fn lemma_obj_get_smaller(members: Seq<(Seq<char>, JsonV)>, key: Seq<char>)
    ensures
        match obj_get(members, key) {
            Some(x) => decreases_to!(members => x),
            None => true,
        },
    decreases members.len(),
{
    if members.len() > 0 {
        if members[0].0 == key {
            assert(decreases_to!(members => members[0].1));
        } else {
            lemma_obj_get_smaller(members.drop_first(), key);
            if obj_get(members, key) is Some {
                let x = obj_get(members.drop_first(), key)->Some_0;
                assert(decreases_to!(members => members.drop_first()));
                assert(decreases_to!(members => x));
            }
        }
    }
}

/// The member names that the schema decoder reads itself.
pub open spec fn schema_known_keys() -> Seq<Seq<char>> {
    seq!["$ref"@, "allOf"@, "anyOf"@, "oneOf"@, "if"@, "then"@, "else"@]
}

/// What decoding an untyped subtree into a schema yields.
pub open spec fn spec_decode_schema(v: JsonV) -> Result<SchemaV, ErrV>
    decreases v, 4int,
{
    match v {
        JsonV::Bool(b) => Ok(SchemaV::Bool(b)),
        JsonV::Object(members) => match spec_decode_schema_obj(members) {
            Ok(o) => Ok(SchemaV::Object(o)),
            Err(e) => Err(e),
        },
        _ => Err(ErrV::ParsingError { msg: "schema is neither a boolean nor an object"@ }),
    }
}

pub open spec fn spec_decode_schema_obj(members: Seq<(Seq<char>, JsonV)>) -> Result<
    SchemaObjectV,
    ErrV,
>
    decreases members, 3int,
{
    match spec_schema_ref_field(members) {
        Err(e) => Err(e),
        Ok(reference) => match spec_schema_list_field(members, "allOf"@) {
            Err(e) => Err(e),
            Ok(all_of) => match spec_schema_list_field(members, "anyOf"@) {
                Err(e) => Err(e),
                Ok(any_of) => match spec_schema_list_field(members, "oneOf"@) {
                    Err(e) => Err(e),
                    Ok(one_of) => match spec_schema_child_field(members, "if"@) {
                        Err(e) => Err(e),
                        Ok(if_schema) => match spec_schema_child_field(members, "then"@) {
                            Err(e) => Err(e),
                            Ok(then_schema) => match spec_schema_child_field(
                                members,
                                "else"@,
                            ) {
                                Err(e) => Err(e),
                                Ok(else_schema) => Ok(
                                    SchemaObjectV {
                                        reference,
                                        all_of,
                                        any_of,
                                        one_of,
                                        if_schema,
                                        then_schema,
                                        else_schema,
                                        extra: keep_unknown(members, schema_known_keys()),
                                    },
                                ),
                            },
                        },
                    },
                },
            },
        },
    }
}

/// The schema's own `$ref` member, which must be a string if present.
pub open spec fn spec_schema_ref_field(members: Seq<(Seq<char>, JsonV)>) -> Result<
    Option<Seq<char>>,
    ErrV,
> {
    match obj_get(members, "$ref"@) {
        None => Ok(None),
        Some(JsonV::Text(r)) => Ok(Some(r)),
        Some(_) => Err(ErrV::ParsingError { msg: "schema $ref is not a string"@ }),
    }
}

/// A composition list member (`allOf`, `anyOf`, `oneOf`), which must be
/// an array of schemas if present.
pub open spec fn spec_schema_list_field(
    members: Seq<(Seq<char>, JsonV)>,
    key: Seq<char>,
) -> Result<Option<Seq<SchemaV>>, ErrV>
    decreases members, 2int,
    via spec_schema_list_field_decreases
{
    match obj_get(members, key) {
        None => Ok(None),
        Some(JsonV::Array(items)) => match spec_decode_schema_list(items) {
            Ok(list) => Ok(Some(list)),
            Err(e) => Err(e),
        },
        Some(_) => Err(ErrV::ParsingError { msg: "schema composition member is not an array"@ }),
    }
}

#[via_fn]
proof fn spec_schema_list_field_decreases(members: Seq<(Seq<char>, JsonV)>, key: Seq<char>) {
    lemma_obj_get_smaller(members, key);
    match obj_get(members, key) {
        Some(x) => {
            if let JsonV::Array(items) = x {
                assert(decreases_to!(x => items));
                assert(decreases_to!(members => items));
            }
        },
        None => {},
    }
}

/// A single composition child (`if`, `then`, `else`).
pub open spec fn spec_schema_child_field(
    members: Seq<(Seq<char>, JsonV)>,
    key: Seq<char>,
) -> Result<Option<Box<SchemaV>>, ErrV>
    decreases members, 1int,
    via spec_schema_child_field_decreases
{
    match obj_get(members, key) {
        None => Ok(None),
        Some(x) => match spec_decode_schema(x) {
            Ok(s) => Ok(Some(Box::new(s))),
            Err(e) => Err(e),
        },
    }
}

#[via_fn]
proof fn spec_schema_child_field_decreases(members: Seq<(Seq<char>, JsonV)>, key: Seq<char>) {
    lemma_obj_get_smaller(members, key);
}

pub open spec fn spec_decode_schema_list(items: Seq<JsonV>) -> Result<Seq<SchemaV>, ErrV>
    decreases items, 0int,
{
    if items.len() == 0 {
        Ok(Seq::empty())
    } else {
        match spec_decode_schema_list(items.drop_last()) {
            Err(e) => Err(e),
            Ok(rest) => match spec_decode_schema(items.last()) {
                Ok(s) => Ok(rest.push(s)),
                Err(e) => Err(e),
            },
        }
    }
}

proof fn lemma_decode_schema_list_err(items: Seq<JsonV>, k: int, e: ErrV)
    requires
        0 <= k < items.len(),
        spec_decode_schema_list(items.take(k)) is Ok,
        spec_decode_schema(items[k]) == Err::<SchemaV, ErrV>(e),
    ensures
        spec_decode_schema_list(items) == Err::<Seq<SchemaV>, ErrV>(e),
    decreases items.len(),
{
    if k == items.len() - 1 {
        assert(items.drop_last() =~= items.take(k));
    } else {
        assert(items.drop_last().take(k) =~= items.take(k));
        lemma_decode_schema_list_err(items.drop_last(), k, e);
    }
}

/// The schema decoder's own member names, as key strings.
fn schema_known_vec() -> (r: Vec<String>)
    ensures
        strings_view(r@) == schema_known_keys(),
{
    let mut v: Vec<String> = Vec::new();
    v.push(String::from_str("$ref"));
    v.push(String::from_str("allOf"));
    v.push(String::from_str("anyOf"));
    v.push(String::from_str("oneOf"));
    v.push(String::from_str("if"));
    v.push(String::from_str("then"));
    v.push(String::from_str("else"));
    proof {
        assert(strings_view(v@) =~= schema_known_keys());
    }
    v
}

/// Decodes an untyped subtree into a schema; exactly
/// `spec_decode_schema` of its view.
pub fn decode_schema(v: &JsonValue) -> (r: Result<Schema, OpenApiError>)
    ensures
        match r {
            Ok(s) => spec_decode_schema(v@) == Ok::<SchemaV, ErrV>(s@),
            Err(e) => spec_decode_schema(v@) == Err::<SchemaV, ErrV>(e@),
        },
    decreases *v, 4int,
{
    match v {
        JsonValue::Bool(b) => Ok(Schema::Bool(*b)),
        JsonValue::Object(pairs) => match decode_schema_obj(pairs) {
            Ok(o) => Ok(Schema::Object(o)),
            Err(e) => Err(e),
        },
        _ => Err(
            OpenApiError::ParsingError {
                msg: String::from_str("schema is neither a boolean nor an object"),
            },
        ),
    }
}

fn decode_schema_obj(pairs: &Vec<(String, JsonValue)>) -> (r: Result<
    SchemaObject,
    OpenApiError,
>)
    ensures
        match r {
            Ok(o) => spec_decode_schema_obj(pairs_view(pairs@)) == Ok::<SchemaObjectV, ErrV>(
                schema_obj_view(o),
            ),
            Err(e) => spec_decode_schema_obj(pairs_view(pairs@)) == Err::<SchemaObjectV, ErrV>(
                e@,
            ),
        },
    decreases pairs@, 3int,
{
    let ghost members = pairs_view(pairs@);
    let reference: Option<String> = match lookup_key(pairs, "$ref") {
        None => None,
        Some(c) => match c {
            JsonValue::Text(s) => Some(s.clone()),
            _ => {
                return Err(
                    OpenApiError::ParsingError {
                        msg: String::from_str("schema $ref is not a string"),
                    },
                );
            },
        },
    };
    let all_of: Option<Vec<Schema>> = match decode_schema_list_field(pairs, "allOf") {
        Ok(l) => l,
        Err(e) => {
            return Err(e);
        },
    };
    let any_of: Option<Vec<Schema>> = match decode_schema_list_field(pairs, "anyOf") {
        Ok(l) => l,
        Err(e) => {
            return Err(e);
        },
    };
    let one_of: Option<Vec<Schema>> = match decode_schema_list_field(pairs, "oneOf") {
        Ok(l) => l,
        Err(e) => {
            return Err(e);
        },
    };
    let if_schema: Option<Box<Schema>> = match decode_schema_child_field(pairs, "if") {
        Ok(c) => c,
        Err(e) => {
            return Err(e);
        },
    };
    let then_schema: Option<Box<Schema>> = match decode_schema_child_field(pairs, "then") {
        Ok(c) => c,
        Err(e) => {
            return Err(e);
        },
    };
    let else_schema: Option<Box<Schema>> = match decode_schema_child_field(pairs, "else") {
        Ok(c) => c,
        Err(e) => {
            return Err(e);
        },
    };
    let known = schema_known_vec();
    let extra = extra_fields(pairs, &known);
    let o = SchemaObject {
        reference,
        all_of,
        any_of,
        one_of,
        if_schema,
        then_schema,
        else_schema,
        extra,
    };
    proof {
        assert(spec_decode_schema_obj(members) == Ok::<SchemaObjectV, ErrV>(
            schema_obj_view(o),
        ));
    }
    Ok(o)
}

fn decode_schema_list_field(pairs: &Vec<(String, JsonValue)>, key: &str) -> (r: Result<
    Option<Vec<Schema>>,
    OpenApiError,
>)
    ensures
        match r {
            Ok(l) => spec_schema_list_field(pairs_view(pairs@), key@) == Ok::<
                Option<Seq<SchemaV>>,
                ErrV,
            >(
                match l {
                    Some(v) => Some(schema_list_view(v@)),
                    None => None,
                },
            ),
            Err(e) => spec_schema_list_field(pairs_view(pairs@), key@) == Err::<
                Option<Seq<SchemaV>>,
                ErrV,
            >(e@),
        },
    decreases pairs@, 2int,
{
    match lookup_key(pairs, key) {
        None => Ok(None),
        Some(c) => match c {
            JsonValue::Array(items) => {
                proof {
                    let i = choose|i: int| 0 <= i < pairs@.len() && *c == pairs@[i].1;
                    assert(decreases_to!(pairs@ => pairs@[i].1));
                    assert(decreases_to!(*c => items@));
                    assert(decreases_to!(pairs@ => items@));
                }
                match decode_schema_list(items) {
                    Ok(l) => Ok(Some(l)),
                    Err(e) => Err(e),
                }
            },
            _ => Err(
                OpenApiError::ParsingError {
                    msg: String::from_str("schema composition member is not an array"),
                },
            ),
        },
    }
}

fn decode_schema_child_field(pairs: &Vec<(String, JsonValue)>, key: &str) -> (r: Result<
    Option<Box<Schema>>,
    OpenApiError,
>)
    ensures
        match r {
            Ok(c) => spec_schema_child_field(pairs_view(pairs@), key@) == Ok::<
                Option<Box<SchemaV>>,
                ErrV,
            >(schema_opt_view(c)),
            Err(e) => spec_schema_child_field(pairs_view(pairs@), key@) == Err::<
                Option<Box<SchemaV>>,
                ErrV,
            >(e@),
        },
    decreases pairs@, 1int,
{
    match lookup_key(pairs, key) {
        None => Ok(None),
        Some(c) => {
            proof {
                let i = choose|i: int| 0 <= i < pairs@.len() && *c == pairs@[i].1;
                assert(decreases_to!(pairs@ => pairs@[i].1));
            }
            match decode_schema(c) {
                Ok(s) => Ok(Some(Box::new(s))),
                Err(e) => Err(e),
            }
        },
    }
}

fn decode_schema_list(items: &Vec<JsonValue>) -> (r: Result<Vec<Schema>, OpenApiError>)
    ensures
        match r {
            Ok(l) => spec_decode_schema_list(crate::json::arr_view(items@)) == Ok::<
                Seq<SchemaV>,
                ErrV,
            >(schema_list_view(l@)),
            Err(e) => spec_decode_schema_list(crate::json::arr_view(items@)) == Err::<
                Seq<SchemaV>,
                ErrV,
            >(e@),
        },
    decreases items@, 0int,
{
    proof {
        crate::json::lemma_arr_view(items@);
    }
    let ghost views = crate::json::arr_view(items@);
    let mut out: Vec<Schema> = Vec::new();
    let n = items.len();
    proof {
        assert(views.take(0) =~= Seq::<JsonV>::empty());
        assert(schema_list_view(out@) =~= Seq::<SchemaV>::empty());
    }
    for k in 0..n
        invariant
            n == items@.len(),
            views == crate::json::arr_view(items@),
            views.len() == n,
            forall|j: int| 0 <= j < n ==> views[j] == crate::json::jv_view(items@[j]),
            spec_decode_schema_list(views.take(k as int)) == Ok::<Seq<SchemaV>, ErrV>(
                schema_list_view(out@),
            ),
        decreases n - k,
    {
        let ghost prev = out@;
        proof {
            assert(views.take(k + 1).drop_last() =~= views.take(k as int));
            assert(views.take(k + 1).last() == views[k as int]);
        }
        match decode_schema(&items[k]) {
            Ok(s) => {
                out.push(s);
                proof {
                    lemma_schema_list_view(prev);
                    lemma_schema_list_view(out@);
                    assert(schema_list_view(out@) =~= schema_list_view(prev).push(s@));
                }
            },
            Err(e) => {
                proof {
                    lemma_decode_schema_list_err(views, k as int, e@);
                }
                return Err(e);
            },
        }
    }
    proof {
        assert(views.take(n as int) =~= views);
    }
    Ok(out)
}

/// How many levels of schema nesting one pass will enter before it
/// fails with `RecursionLimitExceeded`: reference chains are followed
/// without cycle detection, so the depth of the pass is bounded.
pub const SCHEMA_DEPTH_LIMIT: u32 = 64;

/// The resolve step of the composer: a schema object carrying its own
/// `$ref` is replaced, once, by the object schema the reference points
/// to; the pointer string is not retained. A schema object without a
/// reference stays as it is.
pub open spec fn spec_resolve_schema_obj(raw: JsonV, o: SchemaObjectV) -> Result<
    SchemaObjectV,
    ErrV,
> {
    match o.reference {
        None => Ok(o),
        Some(r) => match spec_resolve(raw, r) {
            Err(e) => Err(e),
            Ok(v) => match v {
                JsonV::Object(members) => match spec_decode_schema_obj(members) {
                    Ok(o2) => Ok(o2),
                    Err(e) => Err(located(e, r)),
                },
                _ => Err(
                    located(
                        ErrV::ParsingError { msg: "resolved schema is not an object"@ },
                        r,
                    ),
                ),
            },
        },
    }
}

/// What composing (recursively dereferencing) a schema yields: the
/// node's own reference is resolved first, then every composition
/// child is composed independently and in order, `allOf` before
/// `anyOf` before `oneOf`, then `if`, `then`, `else`. Sibling
/// constraints are never merged. Boolean schemas are left unchanged.
pub open spec fn spec_compose_schema(raw: JsonV, s: SchemaV, fuel: nat) -> Result<
    SchemaV,
    ErrV,
>
    decreases fuel, 0int, 0int,
{
    match s {
        SchemaV::Bool(b) => Ok(SchemaV::Bool(b)),
        SchemaV::Object(o) => {
            if fuel == 0 {
                Err(ErrV::RecursionLimitExceeded)
            } else {
                match spec_resolve_schema_obj(raw, o) {
                    Err(e) => Err(e),
                    Ok(o2) => match spec_compose_children(raw, o2, (fuel - 1) as nat) {
                        Err(e) => Err(e),
                        Ok(o3) => Ok(SchemaV::Object(o3)),
                    },
                }
            }
        },
    }
}

pub open spec fn spec_compose_children(raw: JsonV, o: SchemaObjectV, fuel: nat) -> Result<
    SchemaObjectV,
    ErrV,
>
    decreases fuel, 3int, 0int,
{
    match spec_compose_opt_list(raw, o.all_of, fuel) {
        Err(e) => Err(e),
        Ok(all_of) => match spec_compose_opt_list(raw, o.any_of, fuel) {
            Err(e) => Err(e),
            Ok(any_of) => match spec_compose_opt_list(raw, o.one_of, fuel) {
                Err(e) => Err(e),
                Ok(one_of) => match spec_compose_opt_child(raw, o.if_schema, fuel) {
                    Err(e) => Err(e),
                    Ok(if_schema) => match spec_compose_opt_child(raw, o.then_schema, fuel) {
                        Err(e) => Err(e),
                        Ok(then_schema) => match spec_compose_opt_child(
                            raw,
                            o.else_schema,
                            fuel,
                        ) {
                            Err(e) => Err(e),
                            Ok(else_schema) => Ok(
                                SchemaObjectV {
                                    reference: o.reference,
                                    all_of,
                                    any_of,
                                    one_of,
                                    if_schema,
                                    then_schema,
                                    else_schema,
                                    extra: o.extra,
                                },
                            ),
                        },
                    },
                },
            },
        },
    }
}

pub open spec fn spec_compose_opt_list(
    raw: JsonV,
    ol: Option<Seq<SchemaV>>,
    fuel: nat,
) -> Result<Option<Seq<SchemaV>>, ErrV>
    decreases fuel, 2int, 0int,
{
    match ol {
        None => Ok(None),
        Some(items) => match spec_compose_list(raw, items, fuel) {
            Ok(list) => Ok(Some(list)),
            Err(e) => Err(e),
        },
    }
}

pub open spec fn spec_compose_list(raw: JsonV, items: Seq<SchemaV>, fuel: nat) -> Result<
    Seq<SchemaV>,
    ErrV,
>
    decreases fuel, 1int, items.len(),
{
    if items.len() == 0 {
        Ok(Seq::empty())
    } else {
        match spec_compose_list(raw, items.drop_last(), fuel) {
            Err(e) => Err(e),
            Ok(rest) => match spec_compose_schema(raw, items.last(), fuel) {
                Ok(s) => Ok(rest.push(s)),
                Err(e) => Err(e),
            },
        }
    }
}

pub open spec fn spec_compose_opt_child(
    raw: JsonV,
    oc: Option<Box<SchemaV>>,
    fuel: nat,
) -> Result<Option<Box<SchemaV>>, ErrV>
    decreases fuel, 1int, 0int,
{
    match oc {
        None => Ok(None),
        Some(b) => match spec_compose_schema(raw, *b, fuel) {
            Ok(s) => Ok(Some(Box::new(s))),
            Err(e) => Err(e),
        },
    }
}

proof fn lemma_compose_list_err(raw: JsonV, items: Seq<SchemaV>, fuel: nat, k: int, e: ErrV)
    requires
        0 <= k < items.len(),
        spec_compose_list(raw, items.take(k), fuel) is Ok,
        spec_compose_schema(raw, items[k], fuel) == Err::<SchemaV, ErrV>(e),
    ensures
        spec_compose_list(raw, items, fuel) == Err::<Seq<SchemaV>, ErrV>(e),
    decreases items.len(),
{
    if k == items.len() - 1 {
        assert(items.drop_last() =~= items.take(k));
    } else {
        assert(items.drop_last().take(k) =~= items.take(k));
        lemma_compose_list_err(raw, items.drop_last(), fuel, k, e);
    }
}

/// Composes (recursively dereferences) one schema: exactly
/// `spec_compose_schema` of its view, at the given depth bound.
pub fn compose_schema(
    raw: &JsonValue,
    cache: &mut ResolutionCache,
    s: Schema,
    fuel: u32,
) -> (r: Result<Schema, OpenApiError>)
    requires
        cache_wf(old(cache)@, raw@),
    ensures
        cache_wf(final(cache)@, raw@),
        match r {
            Ok(s2) => spec_compose_schema(raw@, s@, fuel as nat) == Ok::<SchemaV, ErrV>(s2@),
            Err(e) => spec_compose_schema(raw@, s@, fuel as nat) == Err::<SchemaV, ErrV>(e@),
        },
    decreases fuel, 0int, 0int,
{
    match s {
        Schema::Bool(b) => Ok(Schema::Bool(b)),
        Schema::Object(o) => {
            if fuel == 0 {
                return Err(OpenApiError::RecursionLimitExceeded);
            }
            let o2 = match resolve_schema_obj(raw, cache, o) {
                Ok(o2) => o2,
                Err(e) => {
                    return Err(e);
                },
            };
            match compose_children(raw, cache, o2, fuel - 1) {
                Ok(o3) => Ok(Schema::Object(o3)),
                Err(e) => Err(e),
            }
        },
    }
}

fn resolve_schema_obj(raw: &JsonValue, cache: &mut ResolutionCache, o: SchemaObject) -> (r:
    Result<SchemaObject, OpenApiError>)
    requires
        cache_wf(old(cache)@, raw@),
    ensures
        cache_wf(final(cache)@, raw@),
        match r {
            Ok(o2) => spec_resolve_schema_obj(raw@, schema_obj_view(o)) == Ok::<
                SchemaObjectV,
                ErrV,
            >(schema_obj_view(o2)),
            Err(e) => spec_resolve_schema_obj(raw@, schema_obj_view(o)) == Err::<
                SchemaObjectV,
                ErrV,
            >(e@),
        },
{
    let ghost ov = schema_obj_view(o);
    let SchemaObject {
        reference,
        all_of,
        any_of,
        one_of,
        if_schema,
        then_schema,
        else_schema,
        extra,
    } = o;
    let reference = match reference {
        None => {
            let back = SchemaObject {
                reference: None,
                all_of,
                any_of,
                one_of,
                if_schema,
                then_schema,
                else_schema,
                extra,
            };
            proof {
                assert(schema_obj_view(back) == ov);
            }
            return Ok(back);
        },
        Some(r) => r,
    };
    match resolve_raw(raw, cache, reference.as_str()) {
        Err(e) => Err(e),
        Ok(v) => match v {
            JsonValue::Object(pairs) => match decode_schema_obj(&pairs) {
                Ok(o2) => Ok(o2),
                Err(e) => Err(e.locate(reference.as_str())),
            },
            _ => Err(
                OpenApiError::ParsingError {
                    msg: String::from_str("resolved schema is not an object"),
                }.locate(reference.as_str()),
            ),
        },
    }
}

fn compose_children(
    raw: &JsonValue,
    cache: &mut ResolutionCache,
    o: SchemaObject,
    fuel: u32,
) -> (r: Result<SchemaObject, OpenApiError>)
    requires
        cache_wf(old(cache)@, raw@),
    ensures
        cache_wf(final(cache)@, raw@),
        match r {
            Ok(o2) => spec_compose_children(raw@, schema_obj_view(o), fuel as nat) == Ok::<
                SchemaObjectV,
                ErrV,
            >(schema_obj_view(o2)),
            Err(e) => spec_compose_children(raw@, schema_obj_view(o), fuel as nat) == Err::<
                SchemaObjectV,
                ErrV,
            >(e@),
        },
    decreases fuel, 3int, 0int,
{
    let SchemaObject {
        reference,
        all_of,
        any_of,
        one_of,
        if_schema,
        then_schema,
        else_schema,
        extra,
    } = o;
    let all_of = match compose_opt_list(raw, cache, all_of, fuel) {
        Ok(l) => l,
        Err(e) => {
            return Err(e);
        },
    };
    let any_of = match compose_opt_list(raw, cache, any_of, fuel) {
        Ok(l) => l,
        Err(e) => {
            return Err(e);
        },
    };
    let one_of = match compose_opt_list(raw, cache, one_of, fuel) {
        Ok(l) => l,
        Err(e) => {
            return Err(e);
        },
    };
    let if_schema = match compose_opt_child(raw, cache, if_schema, fuel) {
        Ok(c) => c,
        Err(e) => {
            return Err(e);
        },
    };
    let then_schema = match compose_opt_child(raw, cache, then_schema, fuel) {
        Ok(c) => c,
        Err(e) => {
            return Err(e);
        },
    };
    let else_schema = match compose_opt_child(raw, cache, else_schema, fuel) {
        Ok(c) => c,
        Err(e) => {
            return Err(e);
        },
    };
    Ok(
        SchemaObject {
            reference,
            all_of,
            any_of,
            one_of,
            if_schema,
            then_schema,
            else_schema,
            extra,
        },
    )
}

fn compose_opt_list(
    raw: &JsonValue,
    cache: &mut ResolutionCache,
    ol: Option<Vec<Schema>>,
    fuel: u32,
) -> (r: Result<Option<Vec<Schema>>, OpenApiError>)
    requires
        cache_wf(old(cache)@, raw@),
    ensures
        cache_wf(final(cache)@, raw@),
        match r {
            Ok(l) => spec_compose_opt_list(
                raw@,
                match ol {
                    Some(v) => Some(schema_list_view(v@)),
                    None => None,
                },
                fuel as nat,
            ) == Ok::<Option<Seq<SchemaV>>, ErrV>(
                match l {
                    Some(v) => Some(schema_list_view(v@)),
                    None => None,
                },
            ),
            Err(e) => spec_compose_opt_list(
                raw@,
                match ol {
                    Some(v) => Some(schema_list_view(v@)),
                    None => None,
                },
                fuel as nat,
            ) == Err::<Option<Seq<SchemaV>>, ErrV>(e@),
        },
    decreases fuel, 2int, 0int,
{
    match ol {
        None => Ok(None),
        Some(items) => match compose_list(raw, cache, items, fuel) {
            Ok(l) => Ok(Some(l)),
            Err(e) => Err(e),
        },
    }
}

fn compose_list(
    raw: &JsonValue,
    cache: &mut ResolutionCache,
    items: Vec<Schema>,
    fuel: u32,
) -> (r: Result<Vec<Schema>, OpenApiError>)
    requires
        cache_wf(old(cache)@, raw@),
    ensures
        cache_wf(final(cache)@, raw@),
        match r {
            Ok(l) => spec_compose_list(raw@, schema_list_view(items@), fuel as nat) == Ok::<
                Seq<SchemaV>,
                ErrV,
            >(schema_list_view(l@)),
            Err(e) => spec_compose_list(raw@, schema_list_view(items@), fuel as nat) == Err::<
                Seq<SchemaV>,
                ErrV,
            >(e@),
        },
    decreases fuel, 1int, items@.len(),
{
    proof {
        lemma_schema_list_view(items@);
    }
    let ghost views = schema_list_view(items@);
    let ghost orig = items@;
    let n = items.len();
    let mut rest = items;
    let mut out: Vec<Schema> = Vec::new();
    let mut k: usize = 0;
    proof {
        assert(views.take(0) =~= Seq::<SchemaV>::empty());
        assert(schema_list_view(out@) =~= Seq::<SchemaV>::empty());
        assert(rest@ =~= orig.skip(0));
    }
    while k < n
        invariant
            cache_wf(cache@, raw@),
            items@ == orig,
            n == orig.len(),
            k <= n,
            rest@ == orig.skip(k as int),
            views == schema_list_view(orig),
            views.len() == n,
            forall|j: int| 0 <= j < n ==> views[j] == schema_view(orig[j]),
            spec_compose_list(raw@, views.take(k as int), fuel as nat) == Ok::<
                Seq<SchemaV>,
                ErrV,
            >(schema_list_view(out@)),
        decreases n - k,
    {
        let ghost prev = out@;
        proof {
            assert(views.take(k + 1).drop_last() =~= views.take(k as int));
            assert(views.take(k + 1).last() == views[k as int]);
            assert(rest@[0] == orig[k as int]);
        }
        let item = rest.remove(0);
        proof {
            assert(rest@ =~= orig.skip(k + 1));
            assert(item == orig[k as int]);
            assert(item@ == views[k as int]);
        }
        match compose_schema(raw, cache, item, fuel) {
            Ok(s) => {
                out.push(s);
                proof {
                    lemma_schema_list_view(prev);
                    lemma_schema_list_view(out@);
                    assert(schema_list_view(out@) =~= schema_list_view(prev).push(s@));
                }
            },
            Err(e) => {
                proof {
                    assert(spec_compose_schema(raw@, views[k as int], fuel as nat) == Err::<
                        SchemaV,
                        ErrV,
                    >(e@));
                    lemma_compose_list_err(raw@, views, fuel as nat, k as int, e@);
                    assert(spec_compose_list(raw@, views, fuel as nat) == Err::<
                        Seq<SchemaV>,
                        ErrV,
                    >(e@));
                    assert(items@ == orig);
                    assert(spec_compose_list(raw@, schema_list_view(items@), fuel as nat)
                        == Err::<Seq<SchemaV>, ErrV>(e@));
                }
                return Err(e);
            },
        }
        k = k + 1;
    }
    proof {
        assert(views.take(n as int) =~= views);
    }
    Ok(out)
}

fn compose_opt_child(
    raw: &JsonValue,
    cache: &mut ResolutionCache,
    oc: Option<Box<Schema>>,
    fuel: u32,
) -> (r: Result<Option<Box<Schema>>, OpenApiError>)
    requires
        cache_wf(old(cache)@, raw@),
    ensures
        cache_wf(final(cache)@, raw@),
        match r {
            Ok(c) => spec_compose_opt_child(raw@, schema_opt_view(oc), fuel as nat) == Ok::<
                Option<Box<SchemaV>>,
                ErrV,
            >(schema_opt_view(c)),
            Err(e) => spec_compose_opt_child(raw@, schema_opt_view(oc), fuel as nat) == Err::<
                Option<Box<SchemaV>>,
                ErrV,
            >(e@),
        },
    decreases fuel, 1int, 0int,
{
    match oc {
        None => Ok(None),
        Some(b) => match compose_schema(raw, cache, *b, fuel) {
            Ok(s) => Ok(Some(Box::new(s))),
            Err(e) => Err(e),
        },
    }
}

} // verus!
