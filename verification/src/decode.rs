use vstd::prelude::*;
use vstd::string::*;
use crate::error::{ErrV, OpenApiError};
use crate::json::{lookup_key, obj_get, pairs_view, JsonV, JsonValue};
use crate::model::{
    list_view, named_view, opt_elem_view, opt_view, Callback, Components, ComponentsV, Document,
    DocumentV, Example, Header, HeaderV, Link, Operation, OperationV, ParamLocation, Parameter,
    ParameterDataV, ParameterV, PathItem, PathItemV, Paths, PathsV, RefOr, RefOrV, RequestBody,
    Response, ResponseV, Responses, ResponsesV, SecurityScheme, Server, ServerV,
};
use crate::schema::{spec_decode_schema, Schema, SchemaV};
use crate::seqs::{extra_fields, keep_unknown, strings_view};

verus! {

/// A document kind that can be decoded from an untyped subtree.
///
/// `spec_decode` is the whole statement: `decode` returns exactly its
/// outcome, value and error alike.
pub trait Decode: View + Sized {
    /// What decoding an untyped subtree into this kind yields.
    spec fn spec_decode(v: JsonV) -> Result<Self::V, ErrV>;

    /// Decodes an untyped subtree; exactly `spec_decode` of its view.
    fn decode(v: &JsonValue) -> (r: Result<Self, OpenApiError>)
        ensures
            match r {
                Ok(x) => Self::spec_decode(v@) == Ok::<Self::V, ErrV>(x@),
                Err(e) => Self::spec_decode(v@) == Err::<Self::V, ErrV>(e@),
            },
    ;
}

/// Decoding every member value of an object, keys kept, order kept,
/// first failure wins.
pub open spec fn spec_decode_named<T: Decode>(members: Seq<(Seq<char>, JsonV)>) -> Result<
    Seq<(Seq<char>, T::V)>,
    ErrV,
>
    decreases members.len(),
{
    if members.len() == 0 {
        Ok(Seq::empty())
    } else {
        match spec_decode_named::<T>(members.drop_last()) {
            Err(e) => Err(e),
            Ok(rest) => match T::spec_decode(members.last().1) {
                Ok(x) => Ok(rest.push((members.last().0, x))),
                Err(e) => Err(e),
            },
        }
    }
}

proof fn lemma_decode_named_err<T: Decode>(members: Seq<(Seq<char>, JsonV)>, k: int, e: ErrV)
    requires
        0 <= k < members.len(),
        spec_decode_named::<T>(members.take(k)) is Ok,
        T::spec_decode(members[k].1) == Err::<T::V, ErrV>(e),
    ensures
        spec_decode_named::<T>(members) == Err::<Seq<(Seq<char>, T::V)>, ErrV>(e),
    decreases members.len(),
{
    if k == members.len() - 1 {
        assert(members.drop_last() =~= members.take(k));
    } else {
        assert(members.drop_last().take(k) =~= members.take(k));
        lemma_decode_named_err::<T>(members.drop_last(), k, e);
    }
}

/// Decoding every element of an array, order kept, first failure wins.
pub open spec fn spec_decode_list<T: Decode>(items: Seq<JsonV>) -> Result<Seq<T::V>, ErrV>
    decreases items.len(),
{
    if items.len() == 0 {
        Ok(Seq::empty())
    } else {
        match spec_decode_list::<T>(items.drop_last()) {
            Err(e) => Err(e),
            Ok(rest) => match T::spec_decode(items.last()) {
                Ok(x) => Ok(rest.push(x)),
                Err(e) => Err(e),
            },
        }
    }
}

proof fn lemma_decode_list_err<T: Decode>(items: Seq<JsonV>, k: int, e: ErrV)
    requires
        0 <= k < items.len(),
        spec_decode_list::<T>(items.take(k)) is Ok,
        T::spec_decode(items[k]) == Err::<T::V, ErrV>(e),
    ensures
        spec_decode_list::<T>(items) == Err::<Seq<T::V>, ErrV>(e),
    decreases items.len(),
{
    if k == items.len() - 1 {
        assert(items.drop_last() =~= items.take(k));
    } else {
        assert(items.drop_last().take(k) =~= items.take(k));
        lemma_decode_list_err::<T>(items.drop_last(), k, e);
    }
}

/// Decodes every member value of an object into `T`, keeping the keys.
pub fn decode_named<T: Decode>(pairs: &Vec<(String, JsonValue)>) -> (r: Result<
    Vec<(String, T)>,
    OpenApiError,
>)
    ensures
        match r {
            Ok(xs) => spec_decode_named::<T>(pairs_view(pairs@)) == Ok::<
                Seq<(Seq<char>, T::V)>,
                ErrV,
            >(named_view(xs@)),
            Err(e) => spec_decode_named::<T>(pairs_view(pairs@)) == Err::<
                Seq<(Seq<char>, T::V)>,
                ErrV,
            >(e@),
        },
{
    proof {
        crate::json::lemma_pairs_view(pairs@);
    }
    let ghost members = pairs_view(pairs@);
    let mut out: Vec<(String, T)> = Vec::new();
    let n = pairs.len();
    proof {
        assert(members.take(0) =~= Seq::<(Seq<char>, JsonV)>::empty());
        assert(named_view(out@) =~= Seq::<(Seq<char>, T::V)>::empty());
    }
    for k in 0..n
        invariant
            n == pairs@.len(),
            members == pairs_view(pairs@),
            members.len() == n,
            forall|j: int| 0 <= j < n ==> members[j] == (
                pairs@[j].0@,
                crate::json::jv_view(pairs@[j].1),
            ),
            spec_decode_named::<T>(members.take(k as int)) == Ok::<
                Seq<(Seq<char>, T::V)>,
                ErrV,
            >(named_view(out@)),
        decreases n - k,
    {
        let ghost prev = out@;
        proof {
            assert(members.take(k + 1).drop_last() =~= members.take(k as int));
            assert(members.take(k + 1).last() == members[k as int]);
        }
        match T::decode(&pairs[k].1) {
            Ok(x) => {
                let key = pairs[k].0.clone();
                out.push((key, x));
                proof {
                    assert(named_view(out@) =~= named_view(prev).push(
                        (pairs@[k as int].0@, x@),
                    ));
                }
            },
            Err(e) => {
                proof {
                    lemma_decode_named_err::<T>(members, k as int, e@);
                }
                return Err(e);
            },
        }
    }
    proof {
        assert(members.take(n as int) =~= members);
    }
    Ok(out)
}

/// Decodes every element of an array into `T`.
pub fn decode_list<T: Decode>(items: &Vec<JsonValue>) -> (r: Result<Vec<T>, OpenApiError>)
    ensures
        match r {
            Ok(xs) => spec_decode_list::<T>(crate::json::arr_view(items@)) == Ok::<
                Seq<T::V>,
                ErrV,
            >(crate::model::list_view(xs@)),
            Err(e) => spec_decode_list::<T>(crate::json::arr_view(items@)) == Err::<
                Seq<T::V>,
                ErrV,
            >(e@),
        },
{
    proof {
        crate::json::lemma_arr_view(items@);
    }
    let ghost views = crate::json::arr_view(items@);
    let mut out: Vec<T> = Vec::new();
    let n = items.len();
    proof {
        assert(views.take(0) =~= Seq::<JsonV>::empty());
        assert(crate::model::list_view(out@) =~= Seq::<T::V>::empty());
    }
    for k in 0..n
        invariant
            n == items@.len(),
            views == crate::json::arr_view(items@),
            views.len() == n,
            forall|j: int| 0 <= j < n ==> views[j] == crate::json::jv_view(items@[j]),
            spec_decode_list::<T>(views.take(k as int)) == Ok::<Seq<T::V>, ErrV>(
                crate::model::list_view(out@),
            ),
        decreases n - k,
    {
        let ghost prev = out@;
        proof {
            assert(views.take(k + 1).drop_last() =~= views.take(k as int));
            assert(views.take(k + 1).last() == views[k as int]);
        }
        match T::decode(&items[k]) {
            Ok(x) => {
                out.push(x);
                proof {
                    assert(crate::model::list_view(out@) =~= crate::model::list_view(
                        prev,
                    ).push(x@));
                }
            },
            Err(e) => {
                proof {
                    lemma_decode_list_err::<T>(views, k as int, e@);
                }
                return Err(e);
            },
        }
    }
    proof {
        assert(views.take(n as int) =~= views);
    }
    Ok(out)
}

/// The message of the error reported for a member of the wrong shape.
pub open spec fn not_object_msg(key: Seq<char>) -> Seq<char> {
    "member is not an object: "@ + key
}

/// The message of the error reported for a member that must be an array.
pub open spec fn not_array_msg(key: Seq<char>) -> Seq<char> {
    "member is not an array: "@ + key
}

fn not_object_err(key: &str) -> (r: OpenApiError)
    ensures
        r@ == (ErrV::ParsingError { msg: not_object_msg(key@) }),
{
    let mut msg = String::from_str("member is not an object: ");
    msg.append(key);
    OpenApiError::ParsingError { msg }
}

fn not_array_err(key: &str) -> (r: OpenApiError)
    ensures
        r@ == (ErrV::ParsingError { msg: not_array_msg(key@) }),
{
    let mut msg = String::from_str("member is not an array: ");
    msg.append(key);
    OpenApiError::ParsingError { msg }
}

/// A named collection member: absent means empty; present, it must be
/// an object, each of whose member values decodes into `T`.
pub open spec fn spec_named_map_field<T: Decode>(
    members: Seq<(Seq<char>, JsonV)>,
    key: Seq<char>,
) -> Result<Seq<(Seq<char>, T::V)>, ErrV> {
    match obj_get(members, key) {
        None => Ok(Seq::empty()),
        Some(JsonV::Object(m)) => spec_decode_named::<T>(m),
        Some(_) => Err(ErrV::ParsingError { msg: not_object_msg(key) }),
    }
}

/// Decodes a named collection member into a keyed list of `T`.
pub fn named_map_field<T: Decode>(pairs: &Vec<(String, JsonValue)>, key: &str) -> (r: Result<
    Vec<(String, T)>,
    OpenApiError,
>)
    ensures
        match r {
            Ok(xs) => spec_named_map_field::<T>(pairs_view(pairs@), key@) == Ok::<
                Seq<(Seq<char>, T::V)>,
                ErrV,
            >(named_view(xs@)),
            Err(e) => spec_named_map_field::<T>(pairs_view(pairs@), key@) == Err::<
                Seq<(Seq<char>, T::V)>,
                ErrV,
            >(e@),
        },
{
    match lookup_key(pairs, key) {
        None => {
            let out: Vec<(String, T)> = Vec::new();
            proof {
                assert(named_view(out@) =~= Seq::<(Seq<char>, T::V)>::empty());
            }
            Ok(out)
        },
        Some(c) => match c {
            JsonValue::Object(m) => decode_named::<T>(m),
            _ => Err(not_object_err(key)),
        },
    }
}

/// A list member: absent means empty; present, it must be an array,
/// each of whose elements decodes into `T`.
pub open spec fn spec_list_field<T: Decode>(
    members: Seq<(Seq<char>, JsonV)>,
    key: Seq<char>,
) -> Result<Seq<T::V>, ErrV> {
    match obj_get(members, key) {
        None => Ok(Seq::empty()),
        Some(JsonV::Array(items)) => spec_decode_list::<T>(items),
        Some(_) => Err(ErrV::ParsingError { msg: not_array_msg(key) }),
    }
}

/// Decodes a list member into a list of `T`.
pub fn list_field<T: Decode>(pairs: &Vec<(String, JsonValue)>, key: &str) -> (r: Result<
    Vec<T>,
    OpenApiError,
>)
    ensures
        match r {
            Ok(xs) => spec_list_field::<T>(pairs_view(pairs@), key@) == Ok::<
                Seq<T::V>,
                ErrV,
            >(crate::model::list_view(xs@)),
            Err(e) => spec_list_field::<T>(pairs_view(pairs@), key@) == Err::<
                Seq<T::V>,
                ErrV,
            >(e@),
        },
{
    match lookup_key(pairs, key) {
        None => {
            let out: Vec<T> = Vec::new();
            proof {
                assert(crate::model::list_view(out@) =~= Seq::<T::V>::empty());
            }
            Ok(out)
        },
        Some(c) => match c {
            JsonValue::Array(items) => decode_list::<T>(items),
            _ => Err(not_array_err(key)),
        },
    }
}

/// The value of a member that holds a string, if any.
pub open spec fn text_member(members: Seq<(Seq<char>, JsonV)>, key: Seq<char>) -> Option<
    Seq<char>,
> {
    match obj_get(members, key) {
        Some(JsonV::Text(s)) => Some(s),
        _ => None,
    }
}

fn get_text(pairs: &Vec<(String, JsonValue)>, key: &str) -> (r: Option<String>)
    ensures
        opt_view(r) == text_member(pairs_view(pairs@), key@),
{
    match lookup_key(pairs, key) {
        Some(c) => match c {
            JsonValue::Text(s) => Some(s.clone()),
            _ => None,
        },
        None => None,
    }
}

impl Decode for SecurityScheme {
    open spec fn spec_decode(v: JsonV) -> Result<JsonV, ErrV> {
        Ok(v)
    }

    fn decode(v: &JsonValue) -> (r: Result<Self, OpenApiError>) {
        Ok(SecurityScheme { raw: v.deep_copy() })
    }
}

impl Decode for Example {
    open spec fn spec_decode(v: JsonV) -> Result<JsonV, ErrV> {
        Ok(v)
    }

    fn decode(v: &JsonValue) -> (r: Result<Self, OpenApiError>) {
        Ok(Example { raw: v.deep_copy() })
    }
}

impl Decode for Link {
    open spec fn spec_decode(v: JsonV) -> Result<JsonV, ErrV> {
        Ok(v)
    }

    fn decode(v: &JsonValue) -> (r: Result<Self, OpenApiError>) {
        Ok(Link { raw: v.deep_copy() })
    }
}

impl Decode for Callback {
    open spec fn spec_decode(v: JsonV) -> Result<JsonV, ErrV> {
        Ok(v)
    }

    fn decode(v: &JsonValue) -> (r: Result<Self, OpenApiError>) {
        Ok(Callback { raw: v.deep_copy() })
    }
}

impl Decode for RequestBody {
    open spec fn spec_decode(v: JsonV) -> Result<JsonV, ErrV> {
        Ok(v)
    }

    fn decode(v: &JsonValue) -> (r: Result<Self, OpenApiError>) {
        Ok(RequestBody { raw: v.deep_copy() })
    }
}

impl<T: Decode> Decode for RefOr<T> {
    /// A subtree whose object form carries a string `$ref` member is a
    /// bare reference, with its optional `summary` and `description`;
    /// anything else decodes as an inline item.
    open spec fn spec_decode(v: JsonV) -> Result<RefOrV<T::V>, ErrV> {
        match v {
            JsonV::Object(members) => match obj_get(members, "$ref"@) {
                Some(JsonV::Text(r)) => Ok(
                    RefOrV::Reference {
                        reference: r,
                        summary: text_member(members, "summary"@),
                        description: text_member(members, "description"@),
                    },
                ),
                Some(_) => Err(ErrV::ParsingError { msg: "$ref is not a string"@ }),
                None => match T::spec_decode(v) {
                    Ok(x) => Ok(RefOrV::Item(x)),
                    Err(e) => Err(e),
                },
            },
            _ => match T::spec_decode(v) {
                Ok(x) => Ok(RefOrV::Item(x)),
                Err(e) => Err(e),
            },
        }
    }

    fn decode(v: &JsonValue) -> (r: Result<Self, OpenApiError>) {
        if let JsonValue::Object(pairs) = v {
            match lookup_key(pairs, "$ref") {
                Some(c) => {
                    return match c {
                        JsonValue::Text(reference) => Ok(
                            RefOr::Reference {
                                reference: reference.clone(),
                                summary: get_text(pairs, "summary"),
                                description: get_text(pairs, "description"),
                            },
                        ),
                        _ => Err(
                            OpenApiError::ParsingError {
                                msg: String::from_str("$ref is not a string"),
                            },
                        ),
                    };
                },
                None => {},
            }
        }
        match T::decode(v) {
            Ok(x) => Ok(RefOr::Item(x)),
            Err(e) => Err(e),
        }
    }
}

/// An optional member: absent means `None`; present, its value must
/// decode into `T`.
pub open spec fn spec_opt_member_field<T: Decode>(
    members: Seq<(Seq<char>, JsonV)>,
    key: Seq<char>,
) -> Result<Option<T::V>, ErrV> {
    match obj_get(members, key) {
        None => Ok(None),
        Some(v) => match T::spec_decode(v) {
            Ok(x) => Ok(Some(x)),
            Err(e) => Err(e),
        },
    }
}

/// Decodes an optional member into `T`.
pub fn opt_member_field<T: Decode>(pairs: &Vec<(String, JsonValue)>, key: &str) -> (r: Result<
    Option<T>,
    OpenApiError,
>)
    ensures
        match r {
            Ok(x) => spec_opt_member_field::<T>(pairs_view(pairs@), key@) == Ok::<
                Option<T::V>,
                ErrV,
            >(opt_elem_view(x)),
            Err(e) => spec_opt_member_field::<T>(pairs_view(pairs@), key@) == Err::<
                Option<T::V>,
                ErrV,
            >(e@),
        },
{
    match lookup_key(pairs, key) {
        None => Ok(None),
        Some(c) => match T::decode(c) {
            Ok(x) => Ok(Some(x)),
            Err(e) => Err(e),
        },
    }
}

impl Decode for Schema {
    open spec fn spec_decode(v: JsonV) -> Result<SchemaV, ErrV> {
        spec_decode_schema(v)
    }

    fn decode(v: &JsonValue) -> (r: Result<Self, OpenApiError>) {
        crate::schema::decode_schema(v)
    }
}

impl Decode for Server {
    /// A server must be an object with a string `url`; everything else
    /// is carried through verbatim.
    open spec fn spec_decode(v: JsonV) -> Result<ServerV, ErrV> {
        match v {
            JsonV::Object(members) => match obj_get(members, "url"@) {
                Some(JsonV::Text(url)) => Ok(
                    ServerV { url, extra: keep_unknown(members, seq!["url"@]) },
                ),
                _ => Err(ErrV::ParsingError { msg: "server has no url string"@ }),
            },
            _ => Err(ErrV::ParsingError { msg: "server is not an object"@ }),
        }
    }

    fn decode(v: &JsonValue) -> (r: Result<Self, OpenApiError>) {
        match v {
            JsonValue::Object(pairs) => match lookup_key(pairs, "url") {
                Some(c) => match c {
                    JsonValue::Text(url) => {
                        let mut known: Vec<String> = Vec::new();
                        known.push(String::from_str("url"));
                        proof {
                            assert(strings_view(known@) =~= seq!["url"@]);
                        }
                        let extra = extra_fields(pairs, &known);
                        Ok(Server { url: url.clone(), extra })
                    },
                    _ => Err(
                        OpenApiError::ParsingError {
                            msg: String::from_str("server has no url string"),
                        },
                    ),
                },
                None => Err(
                    OpenApiError::ParsingError {
                        msg: String::from_str("server has no url string"),
                    },
                ),
            },
            _ => Err(
                OpenApiError::ParsingError {
                    msg: String::from_str("server is not an object"),
                },
            ),
        }
    }
}

/// The parameter location named by an `in` member, if it is one of the
/// four the document model knows.
pub open spec fn param_location_of(l: Seq<char>) -> Option<ParamLocation> {
    if l == "query"@ {
        Some(ParamLocation::Query)
    } else if l == "header"@ {
        Some(ParamLocation::Header)
    } else if l == "path"@ {
        Some(ParamLocation::Path)
    } else if l == "cookie"@ {
        Some(ParamLocation::Cookie)
    } else {
        None
    }
}

impl Decode for Parameter {
    /// A parameter must be an object with a string `name` and one of
    /// the four locations under `in`; its `examples` decode as slots,
    /// everything else is carried through verbatim.
    open spec fn spec_decode(v: JsonV) -> Result<ParameterV, ErrV> {
        match v {
            JsonV::Object(members) => match obj_get(members, "name"@) {
                Some(JsonV::Text(name)) => match obj_get(members, "in"@) {
                    Some(JsonV::Text(l)) => match param_location_of(l) {
                        Some(location) => match spec_named_map_field::<RefOr<Example>>(
                            members,
                            "examples"@,
                        ) {
                            Ok(examples) => Ok(
                                ParameterV {
                                    location,
                                    data: ParameterDataV {
                                        name,
                                        examples,
                                        extra: keep_unknown(
                                            members,
                                            seq!["name"@, "in"@, "examples"@],
                                        ),
                                    },
                                },
                            ),
                            Err(e) => Err(e),
                        },
                        None => Err(
                            ErrV::ParsingError { msg: "parameter has an unknown location"@ },
                        ),
                    },
                    _ => Err(ErrV::ParsingError { msg: "parameter has no in string"@ }),
                },
                _ => Err(ErrV::ParsingError { msg: "parameter has no name string"@ }),
            },
            _ => Err(ErrV::ParsingError { msg: "parameter is not an object"@ }),
        }
    }

    fn decode(v: &JsonValue) -> (r: Result<Self, OpenApiError>) {
        let pairs = match v {
            JsonValue::Object(pairs) => pairs,
            _ => {
                return Err(
                    OpenApiError::ParsingError {
                        msg: String::from_str("parameter is not an object"),
                    },
                );
            },
        };
        let name = match lookup_key(pairs, "name") {
            Some(JsonValue::Text(name)) => name.clone(),
            _ => {
                return Err(
                    OpenApiError::ParsingError {
                        msg: String::from_str("parameter has no name string"),
                    },
                );
            },
        };
        let l = match lookup_key(pairs, "in") {
            Some(JsonValue::Text(l)) => l,
            _ => {
                return Err(
                    OpenApiError::ParsingError {
                        msg: String::from_str("parameter has no in string"),
                    },
                );
            },
        };
        let location = if crate::json::str_eq(l.as_str(), "query") {
            ParamLocation::Query
        } else if crate::json::str_eq(l.as_str(), "header") {
            ParamLocation::Header
        } else if crate::json::str_eq(l.as_str(), "path") {
            ParamLocation::Path
        } else if crate::json::str_eq(l.as_str(), "cookie") {
            ParamLocation::Cookie
        } else {
            return Err(
                OpenApiError::ParsingError {
                    msg: String::from_str("parameter has an unknown location"),
                },
            );
        };
        let examples = match named_map_field::<RefOr<Example>>(pairs, "examples") {
            Ok(xs) => xs,
            Err(e) => {
                return Err(e);
            },
        };
        let mut known: Vec<String> = Vec::new();
        known.push(String::from_str("name"));
        known.push(String::from_str("in"));
        known.push(String::from_str("examples"));
        proof {
            assert(strings_view(known@) =~= seq!["name"@, "in"@, "examples"@]);
        }
        let extra = extra_fields(pairs, &known);
        Ok(
            Parameter {
                location,
                data: crate::model::ParameterData { name, examples, extra },
            },
        )
    }
}

impl Decode for Header {
    /// A header must be an object; its `examples` decode as slots,
    /// everything else is carried through verbatim.
    open spec fn spec_decode(v: JsonV) -> Result<HeaderV, ErrV> {
        match v {
            JsonV::Object(members) => match spec_named_map_field::<RefOr<Example>>(
                members,
                "examples"@,
            ) {
                Ok(examples) => Ok(
                    HeaderV { examples, extra: keep_unknown(members, seq!["examples"@]) },
                ),
                Err(e) => Err(e),
            },
            _ => Err(ErrV::ParsingError { msg: "header is not an object"@ }),
        }
    }

    fn decode(v: &JsonValue) -> (r: Result<Self, OpenApiError>) {
        let pairs = match v {
            JsonValue::Object(pairs) => pairs,
            _ => {
                return Err(
                    OpenApiError::ParsingError {
                        msg: String::from_str("header is not an object"),
                    },
                );
            },
        };
        let examples = match named_map_field::<RefOr<Example>>(pairs, "examples") {
            Ok(xs) => xs,
            Err(e) => {
                return Err(e);
            },
        };
        let mut known: Vec<String> = Vec::new();
        known.push(String::from_str("examples"));
        proof {
            assert(strings_view(known@) =~= seq!["examples"@]);
        }
        let extra = extra_fields(pairs, &known);
        Ok(Header { examples, extra })
    }
}

impl Decode for Response {
    /// A response must be an object; its named `headers` and `links`
    /// decode as slots, everything else is carried through verbatim.
    open spec fn spec_decode(v: JsonV) -> Result<ResponseV, ErrV> {
        match v {
            JsonV::Object(members) => match spec_named_map_field::<RefOr<Header>>(
                members,
                "headers"@,
            ) {
                Err(e) => Err(e),
                Ok(headers) => match spec_named_map_field::<RefOr<Link>>(members, "links"@) {
                    Err(e) => Err(e),
                    Ok(links) => Ok(
                        ResponseV {
                            headers,
                            links,
                            extra: keep_unknown(members, seq!["headers"@, "links"@]),
                        },
                    ),
                },
            },
            _ => Err(ErrV::ParsingError { msg: "response is not an object"@ }),
        }
    }

    fn decode(v: &JsonValue) -> (r: Result<Self, OpenApiError>) {
        let pairs = match v {
            JsonValue::Object(pairs) => pairs,
            _ => {
                return Err(
                    OpenApiError::ParsingError {
                        msg: String::from_str("response is not an object"),
                    },
                );
            },
        };
        let headers = match named_map_field::<RefOr<Header>>(pairs, "headers") {
            Ok(xs) => xs,
            Err(e) => {
                return Err(e);
            },
        };
        let links = match named_map_field::<RefOr<Link>>(pairs, "links") {
            Ok(xs) => xs,
            Err(e) => {
                return Err(e);
            },
        };
        let mut known: Vec<String> = Vec::new();
        known.push(String::from_str("headers"));
        known.push(String::from_str("links"));
        proof {
            assert(strings_view(known@) =~= seq!["headers"@, "links"@]);
        }
        let extra = extra_fields(pairs, &known);
        Ok(Response { headers, links, extra })
    }
}

/// Is this member name an extension (`x-` prefixed) name?
pub open spec fn is_extension_key(k: Seq<char>) -> bool {
    k.len() >= 2 && k[0] == 'x' && k[1] == '-'
}

fn is_extension_key_exec(k: &str) -> (r: bool)
    ensures
        r == is_extension_key(k@),
{
    let n = k.unicode_len();
    n >= 2 && k.get_char(0) == 'x' && k.get_char(1) == '-'
}

/// Partition of a responses object: the per-status-code members, in
/// order, decoded as response slots; the `default` member and the
/// extension members are left to their own fields.
pub open spec fn spec_decode_responses_map(members: Seq<(Seq<char>, JsonV)>) -> Result<
    (Seq<(Seq<char>, RefOrV<ResponseV>)>, Seq<(Seq<char>, JsonV)>),
    ErrV,
>
    decreases members.len(),
{
    if members.len() == 0 {
        Ok((Seq::empty(), Seq::empty()))
    } else {
        match spec_decode_responses_map(members.drop_last()) {
            Err(e) => Err(e),
            Ok(pair) => {
                if members.last().0 == "default"@ {
                    Ok(pair)
                } else if is_extension_key(members.last().0) {
                    Ok((pair.0, pair.1.push(members.last())))
                } else {
                    match <RefOr<Response> as Decode>::spec_decode(members.last().1) {
                        Ok(x) => Ok((pair.0.push((members.last().0, x)), pair.1)),
                        Err(e) => Err(e),
                    }
                }
            },
        }
    }
}

proof fn lemma_decode_responses_map_err(members: Seq<(Seq<char>, JsonV)>, k: int, e: ErrV)
    requires
        0 <= k < members.len(),
        spec_decode_responses_map(members.take(k)) is Ok,
        members[k].0 != "default"@,
        !is_extension_key(members[k].0),
        <RefOr<Response> as Decode>::spec_decode(members[k].1) == Err::<
            RefOrV<ResponseV>,
            ErrV,
        >(e),
    ensures
        spec_decode_responses_map(members) == Err::<
            (Seq<(Seq<char>, RefOrV<ResponseV>)>, Seq<(Seq<char>, JsonV)>),
            ErrV,
        >(e),
    decreases members.len(),
{
    if k == members.len() - 1 {
        assert(members.drop_last() =~= members.take(k));
    } else {
        assert(members.drop_last().take(k) =~= members.take(k));
        lemma_decode_responses_map_err(members.drop_last(), k, e);
    }
}

impl Decode for Responses {
    /// A responses object: its optional `default` member, its
    /// per-status-code members decoded as response slots in order, and
    /// its extension members verbatim.
    open spec fn spec_decode(v: JsonV) -> Result<ResponsesV, ErrV> {
        match v {
            JsonV::Object(members) => match spec_opt_member_field::<RefOr<Response>>(
                members,
                "default"@,
            ) {
                Err(e) => Err(e),
                Ok(default_response) => match spec_decode_responses_map(members) {
                    Err(e) => Err(e),
                    Ok(pair) => Ok(
                        ResponsesV { default_response, responses: pair.0, extra: pair.1 },
                    ),
                },
            },
            _ => Err(ErrV::ParsingError { msg: "responses is not an object"@ }),
        }
    }

    fn decode(v: &JsonValue) -> (r: Result<Self, OpenApiError>) {
        let pairs = match v {
            JsonValue::Object(pairs) => pairs,
            _ => {
                return Err(
                    OpenApiError::ParsingError {
                        msg: String::from_str("responses is not an object"),
                    },
                );
            },
        };
        let ghost members = pairs_view(pairs@);
        let default_response = match opt_member_field::<RefOr<Response>>(pairs, "default") {
            Ok(x) => x,
            Err(e) => {
                return Err(e);
            },
        };
        proof {
            crate::json::lemma_pairs_view(pairs@);
        }
        let mut responses: Vec<(String, RefOr<Response>)> = Vec::new();
        let mut extra: Vec<(String, JsonValue)> = Vec::new();
        let n = pairs.len();
        proof {
            assert(members.take(0) =~= Seq::<(Seq<char>, JsonV)>::empty());
            assert(named_view(responses@) =~= Seq::<(Seq<char>, RefOrV<ResponseV>)>::empty());
            assert(pairs_view(extra@) =~= Seq::<(Seq<char>, JsonV)>::empty());
        }
        for k in 0..n
            invariant
                n == pairs@.len(),
                members == pairs_view(pairs@),
                members.len() == n,
                v@ == JsonV::Object(members),
                spec_opt_member_field::<RefOr<Response>>(members, "default"@) == Ok::<
                    Option<RefOrV<ResponseV>>,
                    ErrV,
                >(opt_elem_view(default_response)),
                forall|j: int| 0 <= j < n ==> members[j] == (
                    pairs@[j].0@,
                    crate::json::jv_view(pairs@[j].1),
                ),
                spec_decode_responses_map(members.take(k as int)) == Ok::<
                    (Seq<(Seq<char>, RefOrV<ResponseV>)>, Seq<(Seq<char>, JsonV)>),
                    ErrV,
                >((named_view(responses@), pairs_view(extra@))),
            decreases n - k,
        {
            let ghost prev_r = responses@;
            let ghost prev_e = extra@;
            proof {
                assert(members.take(k + 1).drop_last() =~= members.take(k as int));
                assert(members.take(k + 1).last() == members[k as int]);
            }
            if crate::json::str_eq(pairs[k].0.as_str(), "default") {
            } else if is_extension_key_exec(pairs[k].0.as_str()) {
                let key = pairs[k].0.clone();
                let value = pairs[k].1.deep_copy();
                extra.push((key, value));
                proof {
                    crate::json::lemma_pairs_view(prev_e);
                    crate::json::lemma_pairs_view(extra@);
                    assert(pairs_view(extra@) =~= pairs_view(prev_e).push(members[k as int]));
                }
            } else {
                match <RefOr<Response> as Decode>::decode(&pairs[k].1) {
                    Ok(x) => {
                        let key = pairs[k].0.clone();
                        responses.push((key, x));
                        proof {
                            assert(named_view(responses@) =~= named_view(prev_r).push(
                                (pairs@[k as int].0@, x@),
                            ));
                        }
                    },
                    Err(e) => {
                        proof {
                            lemma_decode_responses_map_err(members, k as int, e@);
                        }
                        return Err(e);
                    },
                }
            }
        }
        proof {
            assert(members.take(n as int) =~= members);
        }
        Ok(Responses { default_response, responses, extra })
    }
}

/// Partition of the paths object: the path members, in order, decoded
/// as path item slots; the extension members verbatim.
pub open spec fn spec_decode_paths_map(members: Seq<(Seq<char>, JsonV)>) -> Result<
    (Seq<(Seq<char>, RefOrV<PathItemV>)>, Seq<(Seq<char>, JsonV)>),
    ErrV,
>
    decreases members.len(),
{
    if members.len() == 0 {
        Ok((Seq::empty(), Seq::empty()))
    } else {
        match spec_decode_paths_map(members.drop_last()) {
            Err(e) => Err(e),
            Ok(pair) => {
                if is_extension_key(members.last().0) {
                    Ok((pair.0, pair.1.push(members.last())))
                } else {
                    match <RefOr<PathItem> as Decode>::spec_decode(members.last().1) {
                        Ok(x) => Ok((pair.0.push((members.last().0, x)), pair.1)),
                        Err(e) => Err(e),
                    }
                }
            },
        }
    }
}

proof fn lemma_decode_paths_map_err(members: Seq<(Seq<char>, JsonV)>, k: int, e: ErrV)
    requires
        0 <= k < members.len(),
        spec_decode_paths_map(members.take(k)) is Ok,
        !is_extension_key(members[k].0),
        <RefOr<PathItem> as Decode>::spec_decode(members[k].1) == Err::<
            RefOrV<PathItemV>,
            ErrV,
        >(e),
    ensures
        spec_decode_paths_map(members) == Err::<
            (Seq<(Seq<char>, RefOrV<PathItemV>)>, Seq<(Seq<char>, JsonV)>),
            ErrV,
        >(e),
    decreases members.len(),
{
    if k == members.len() - 1 {
        assert(members.drop_last() =~= members.take(k));
    } else {
        assert(members.drop_last().take(k) =~= members.take(k));
        lemma_decode_paths_map_err(members.drop_last(), k, e);
    }
}

impl Decode for Paths {
    /// The paths object: each non-extension member decodes as a path
    /// item slot, in order; extension members are carried verbatim.
    open spec fn spec_decode(v: JsonV) -> Result<PathsV, ErrV> {
        match v {
            JsonV::Object(members) => match spec_decode_paths_map(members) {
                Err(e) => Err(e),
                Ok(pair) => Ok(PathsV { paths: pair.0, extra: pair.1 }),
            },
            _ => Err(ErrV::ParsingError { msg: "paths is not an object"@ }),
        }
    }

    fn decode(v: &JsonValue) -> (r: Result<Self, OpenApiError>) {
        let pairs = match v {
            JsonValue::Object(pairs) => pairs,
            _ => {
                return Err(
                    OpenApiError::ParsingError {
                        msg: String::from_str("paths is not an object"),
                    },
                );
            },
        };
        let ghost members = pairs_view(pairs@);
        proof {
            crate::json::lemma_pairs_view(pairs@);
        }
        let mut paths: Vec<(String, RefOr<PathItem>)> = Vec::new();
        let mut extra: Vec<(String, JsonValue)> = Vec::new();
        let n = pairs.len();
        proof {
            assert(members.take(0) =~= Seq::<(Seq<char>, JsonV)>::empty());
            assert(named_view(paths@) =~= Seq::<(Seq<char>, RefOrV<PathItemV>)>::empty());
            assert(pairs_view(extra@) =~= Seq::<(Seq<char>, JsonV)>::empty());
        }
        for k in 0..n
            invariant
                n == pairs@.len(),
                members == pairs_view(pairs@),
                members.len() == n,
                v@ == JsonV::Object(members),
                forall|j: int| 0 <= j < n ==> members[j] == (
                    pairs@[j].0@,
                    crate::json::jv_view(pairs@[j].1),
                ),
                spec_decode_paths_map(members.take(k as int)) == Ok::<
                    (Seq<(Seq<char>, RefOrV<PathItemV>)>, Seq<(Seq<char>, JsonV)>),
                    ErrV,
                >((named_view(paths@), pairs_view(extra@))),
            decreases n - k,
        {
            let ghost prev_p = paths@;
            let ghost prev_e = extra@;
            proof {
                assert(members.take(k + 1).drop_last() =~= members.take(k as int));
                assert(members.take(k + 1).last() == members[k as int]);
            }
            if is_extension_key_exec(pairs[k].0.as_str()) {
                let key = pairs[k].0.clone();
                let value = pairs[k].1.deep_copy();
                extra.push((key, value));
                proof {
                    crate::json::lemma_pairs_view(prev_e);
                    crate::json::lemma_pairs_view(extra@);
                    assert(pairs_view(extra@) =~= pairs_view(prev_e).push(members[k as int]));
                }
            } else {
                match <RefOr<PathItem> as Decode>::decode(&pairs[k].1) {
                    Ok(x) => {
                        let key = pairs[k].0.clone();
                        paths.push((key, x));
                        proof {
                            assert(named_view(paths@) =~= named_view(prev_p).push(
                                (pairs@[k as int].0@, x@),
                            ));
                        }
                    },
                    Err(e) => {
                        proof {
                            lemma_decode_paths_map_err(members, k as int, e@);
                        }
                        return Err(e);
                    },
                }
            }
        }
        proof {
            assert(members.take(n as int) =~= members);
        }
        Ok(Paths { paths, extra })
    }
}

impl Decode for Operation {
    /// An operation must be an object; its `parameters`, `requestBody`,
    /// `responses` and `servers` members are decoded, everything else
    /// is carried through verbatim.
    open spec fn spec_decode(v: JsonV) -> Result<OperationV, ErrV> {
        match v {
            JsonV::Object(members) => match spec_list_field::<RefOr<Parameter>>(
                members,
                "parameters"@,
            ) {
                Err(e) => Err(e),
                Ok(parameters) => match spec_opt_member_field::<RefOr<RequestBody>>(
                    members,
                    "requestBody"@,
                ) {
                    Err(e) => Err(e),
                    Ok(request_body) => match spec_opt_member_field::<Responses>(
                        members,
                        "responses"@,
                    ) {
                        Err(e) => Err(e),
                        Ok(responses) => match spec_list_field::<Server>(
                            members,
                            "servers"@,
                        ) {
                            Err(e) => Err(e),
                            Ok(servers) => Ok(
                                OperationV {
                                    parameters,
                                    request_body,
                                    responses,
                                    servers,
                                    extra: keep_unknown(
                                        members,
                                        seq![
                                            "parameters"@,
                                            "requestBody"@,
                                            "responses"@,
                                            "servers"@,
                                        ],
                                    ),
                                },
                            ),
                        },
                    },
                },
            },
            _ => Err(ErrV::ParsingError { msg: "operation is not an object"@ }),
        }
    }

    fn decode(v: &JsonValue) -> (r: Result<Self, OpenApiError>) {
        let pairs = match v {
            JsonValue::Object(pairs) => pairs,
            _ => {
                return Err(
                    OpenApiError::ParsingError {
                        msg: String::from_str("operation is not an object"),
                    },
                );
            },
        };
        let parameters = match list_field::<RefOr<Parameter>>(pairs, "parameters") {
            Ok(xs) => xs,
            Err(e) => {
                return Err(e);
            },
        };
        let request_body = match opt_member_field::<RefOr<RequestBody>>(pairs, "requestBody") {
            Ok(x) => x,
            Err(e) => {
                return Err(e);
            },
        };
        let responses = match opt_member_field::<Responses>(pairs, "responses") {
            Ok(x) => x,
            Err(e) => {
                return Err(e);
            },
        };
        let servers = match list_field::<Server>(pairs, "servers") {
            Ok(xs) => xs,
            Err(e) => {
                return Err(e);
            },
        };
        let mut known: Vec<String> = Vec::new();
        known.push(String::from_str("parameters"));
        known.push(String::from_str("requestBody"));
        known.push(String::from_str("responses"));
        known.push(String::from_str("servers"));
        proof {
            assert(strings_view(known@) =~= seq![
                "parameters"@,
                "requestBody"@,
                "responses"@,
                "servers"@,
            ]);
        }
        let extra = extra_fields(pairs, &known);
        Ok(Operation { parameters, request_body, responses, servers, extra })
    }
}

impl Decode for PathItem {
    /// A path item must be an object; its per-method operations, its
    /// shared `parameters` and its `servers` are decoded, everything
    /// else is carried through verbatim.
    open spec fn spec_decode(v: JsonV) -> Result<PathItemV, ErrV> {
        match v {
            JsonV::Object(members) => match spec_opt_member_field::<Operation>(
                members,
                "get"@,
            ) {
                Err(e) => Err(e),
                Ok(get) => match spec_opt_member_field::<Operation>(members, "put"@) {
                    Err(e) => Err(e),
                    Ok(put) => match spec_opt_member_field::<Operation>(members, "post"@) {
                        Err(e) => Err(e),
                        Ok(post) => match spec_opt_member_field::<Operation>(
                            members,
                            "delete"@,
                        ) {
                            Err(e) => Err(e),
                            Ok(delete) => match spec_opt_member_field::<Operation>(
                                members,
                                "options"@,
                            ) {
                                Err(e) => Err(e),
                                Ok(options) => match spec_opt_member_field::<Operation>(
                                    members,
                                    "head"@,
                                ) {
                                    Err(e) => Err(e),
                                    Ok(head) => match spec_opt_member_field::<Operation>(
                                        members,
                                        "patch"@,
                                    ) {
                                        Err(e) => Err(e),
                                        Ok(patch) => match spec_opt_member_field::<
                                            Operation,
                                        >(members, "trace"@) {
                                            Err(e) => Err(e),
                                            Ok(trace) => match spec_list_field::<
                                                RefOr<Parameter>,
                                            >(members, "parameters"@) {
                                                Err(e) => Err(e),
                                                Ok(parameters) => match spec_list_field::<
                                                    Server,
                                                >(members, "servers"@) {
                                                    Err(e) => Err(e),
                                                    Ok(servers) => Ok(
                                                        PathItemV {
                                                            get,
                                                            put,
                                                            post,
                                                            delete,
                                                            options,
                                                            head,
                                                            patch,
                                                            trace,
                                                            parameters,
                                                            servers,
                                                            extra: keep_unknown(
                                                                members,
                                                                path_item_known_keys(),
                                                            ),
                                                        },
                                                    ),
                                                },
                                            },
                                        },
                                    },
                                },
                            },
                        },
                    },
                },
            },
            _ => Err(ErrV::ParsingError { msg: "path item is not an object"@ }),
        }
    }

    fn decode(v: &JsonValue) -> (r: Result<Self, OpenApiError>) {
        let pairs = match v {
            JsonValue::Object(pairs) => pairs,
            _ => {
                return Err(
                    OpenApiError::ParsingError {
                        msg: String::from_str("path item is not an object"),
                    },
                );
            },
        };
        let get = match opt_member_field::<Operation>(pairs, "get") {
            Ok(x) => x,
            Err(e) => {
                return Err(e);
            },
        };
        let put = match opt_member_field::<Operation>(pairs, "put") {
            Ok(x) => x,
            Err(e) => {
                return Err(e);
            },
        };
        let post = match opt_member_field::<Operation>(pairs, "post") {
            Ok(x) => x,
            Err(e) => {
                return Err(e);
            },
        };
        let delete = match opt_member_field::<Operation>(pairs, "delete") {
            Ok(x) => x,
            Err(e) => {
                return Err(e);
            },
        };
        let options = match opt_member_field::<Operation>(pairs, "options") {
            Ok(x) => x,
            Err(e) => {
                return Err(e);
            },
        };
        let head = match opt_member_field::<Operation>(pairs, "head") {
            Ok(x) => x,
            Err(e) => {
                return Err(e);
            },
        };
        let patch = match opt_member_field::<Operation>(pairs, "patch") {
            Ok(x) => x,
            Err(e) => {
                return Err(e);
            },
        };
        let trace = match opt_member_field::<Operation>(pairs, "trace") {
            Ok(x) => x,
            Err(e) => {
                return Err(e);
            },
        };
        let parameters = match list_field::<RefOr<Parameter>>(pairs, "parameters") {
            Ok(xs) => xs,
            Err(e) => {
                return Err(e);
            },
        };
        let servers = match list_field::<Server>(pairs, "servers") {
            Ok(xs) => xs,
            Err(e) => {
                return Err(e);
            },
        };
        let mut known: Vec<String> = Vec::new();
        known.push(String::from_str("get"));
        known.push(String::from_str("put"));
        known.push(String::from_str("post"));
        known.push(String::from_str("delete"));
        known.push(String::from_str("options"));
        known.push(String::from_str("head"));
        known.push(String::from_str("patch"));
        known.push(String::from_str("trace"));
        known.push(String::from_str("parameters"));
        known.push(String::from_str("servers"));
        proof {
            assert(strings_view(known@) =~= path_item_known_keys());
        }
        let extra = extra_fields(pairs, &known);
        Ok(
            PathItem {
                get,
                put,
                post,
                delete,
                options,
                head,
                patch,
                trace,
                parameters,
                servers,
                extra,
            },
        )
    }
}

/// The member names that the path item decoder reads itself.
pub open spec fn path_item_known_keys() -> Seq<Seq<char>> {
    seq![
        "get"@,
        "put"@,
        "post"@,
        "delete"@,
        "options"@,
        "head"@,
        "patch"@,
        "trace"@,
        "parameters"@,
        "servers"@,
    ]
}

/// The member names that the components decoder reads itself.
pub open spec fn components_known_keys() -> Seq<Seq<char>> {
    seq![
        "securitySchemes"@,
        "responses"@,
        "schemas"@,
        "parameters"@,
        "examples"@,
        "requestBodies"@,
        "headers"@,
        "links"@,
        "callbacks"@,
        "pathItems"@,
    ]
}

impl Decode for Components {
    /// The registry must be an object; each named collection decodes
    /// as a keyed list of slots (schemas: of schemas), everything else
    /// is carried through verbatim.
    open spec fn spec_decode(v: JsonV) -> Result<ComponentsV, ErrV> {
        match v {
            JsonV::Object(members) => match spec_named_map_field::<RefOr<SecurityScheme>>(
                members,
                "securitySchemes"@,
            ) {
                Err(e) => Err(e),
                Ok(security_schemes) => match spec_named_map_field::<RefOr<Response>>(
                    members,
                    "responses"@,
                ) {
                    Err(e) => Err(e),
                    Ok(responses) => match spec_named_map_field::<Schema>(
                        members,
                        "schemas"@,
                    ) {
                        Err(e) => Err(e),
                        Ok(schemas) => match spec_named_map_field::<RefOr<Parameter>>(
                            members,
                            "parameters"@,
                        ) {
                            Err(e) => Err(e),
                            Ok(parameters) => match spec_named_map_field::<RefOr<Example>>(
                                members,
                                "examples"@,
                            ) {
                                Err(e) => Err(e),
                                Ok(examples) => match spec_named_map_field::<
                                    RefOr<RequestBody>,
                                >(members, "requestBodies"@) {
                                    Err(e) => Err(e),
                                    Ok(request_bodies) => match spec_named_map_field::<
                                        RefOr<Header>,
                                    >(members, "headers"@) {
                                        Err(e) => Err(e),
                                        Ok(headers) => match spec_named_map_field::<
                                            RefOr<Link>,
                                        >(members, "links"@) {
                                            Err(e) => Err(e),
                                            Ok(links) => match spec_named_map_field::<
                                                RefOr<Callback>,
                                            >(members, "callbacks"@) {
                                                Err(e) => Err(e),
                                                Ok(callbacks) => match spec_named_map_field::<
                                                    RefOr<PathItem>,
                                                >(members, "pathItems"@) {
                                                    Err(e) => Err(e),
                                                    Ok(path_items) => Ok(
                                                        ComponentsV {
                                                            security_schemes,
                                                            responses,
                                                            schemas,
                                                            parameters,
                                                            examples,
                                                            request_bodies,
                                                            headers,
                                                            links,
                                                            callbacks,
                                                            path_items,
                                                            extra: keep_unknown(
                                                                members,
                                                                components_known_keys(),
                                                            ),
                                                        },
                                                    ),
                                                },
                                            },
                                        },
                                    },
                                },
                            },
                        },
                    },
                },
            },
            _ => Err(ErrV::ParsingError { msg: "components is not an object"@ }),
        }
    }

    fn decode(v: &JsonValue) -> (r: Result<Self, OpenApiError>) {
        let pairs = match v {
            JsonValue::Object(pairs) => pairs,
            _ => {
                return Err(
                    OpenApiError::ParsingError {
                        msg: String::from_str("components is not an object"),
                    },
                );
            },
        };
        let security_schemes = match named_map_field::<RefOr<SecurityScheme>>(
            pairs,
            "securitySchemes",
        ) {
            Ok(xs) => xs,
            Err(e) => {
                return Err(e);
            },
        };
        let responses = match named_map_field::<RefOr<Response>>(pairs, "responses") {
            Ok(xs) => xs,
            Err(e) => {
                return Err(e);
            },
        };
        let schemas = match named_map_field::<Schema>(pairs, "schemas") {
            Ok(xs) => xs,
            Err(e) => {
                return Err(e);
            },
        };
        let parameters = match named_map_field::<RefOr<Parameter>>(pairs, "parameters") {
            Ok(xs) => xs,
            Err(e) => {
                return Err(e);
            },
        };
        let examples = match named_map_field::<RefOr<Example>>(pairs, "examples") {
            Ok(xs) => xs,
            Err(e) => {
                return Err(e);
            },
        };
        let request_bodies = match named_map_field::<RefOr<RequestBody>>(
            pairs,
            "requestBodies",
        ) {
            Ok(xs) => xs,
            Err(e) => {
                return Err(e);
            },
        };
        let headers = match named_map_field::<RefOr<Header>>(pairs, "headers") {
            Ok(xs) => xs,
            Err(e) => {
                return Err(e);
            },
        };
        let links = match named_map_field::<RefOr<Link>>(pairs, "links") {
            Ok(xs) => xs,
            Err(e) => {
                return Err(e);
            },
        };
        let callbacks = match named_map_field::<RefOr<Callback>>(pairs, "callbacks") {
            Ok(xs) => xs,
            Err(e) => {
                return Err(e);
            },
        };
        let path_items = match named_map_field::<RefOr<PathItem>>(pairs, "pathItems") {
            Ok(xs) => xs,
            Err(e) => {
                return Err(e);
            },
        };
        let mut known: Vec<String> = Vec::new();
        known.push(String::from_str("securitySchemes"));
        known.push(String::from_str("responses"));
        known.push(String::from_str("schemas"));
        known.push(String::from_str("parameters"));
        known.push(String::from_str("examples"));
        known.push(String::from_str("requestBodies"));
        known.push(String::from_str("headers"));
        known.push(String::from_str("links"));
        known.push(String::from_str("callbacks"));
        known.push(String::from_str("pathItems"));
        proof {
            assert(strings_view(known@) =~= components_known_keys());
        }
        let extra = extra_fields(pairs, &known);
        Ok(
            Components {
                security_schemes,
                responses,
                schemas,
                parameters,
                examples,
                request_bodies,
                headers,
                links,
                callbacks,
                path_items,
                extra,
            },
        )
    }
}

/// Is the version string a 3.1 version (`3.1` or `3.1.x`)?
pub open spec fn version_is_31(s: Seq<char>) -> bool {
    s.len() >= 3 && s[0] == '3' && s[1] == '.' && s[2] == '1' && (s.len() == 3 || s[3] == '.')
}

fn version_is_31_exec(s: &str) -> (r: bool)
    ensures
        r == version_is_31(s@),
{
    let n = s.unicode_len();
    n >= 3 && s.get_char(0) == '3' && s.get_char(1) == '.' && s.get_char(2) == '1' && (n == 3
        || s.get_char(3) == '.')
}

/// The member names that the document decoder reads itself.
pub open spec fn document_known_keys() -> Seq<Seq<char>> {
    seq!["openapi"@, "servers"@, "components"@, "paths"@]
}

impl Decode for Document {
    /// The document must be an object whose `openapi` member is a
    /// string naming a 3.1 version; every other version fails with
    /// `UnsupportedOpenApiVersion` before any further decoding. Its
    /// `servers`, `components` and `paths` are decoded; everything
    /// else is carried through verbatim.
    open spec fn spec_decode(v: JsonV) -> Result<DocumentV, ErrV> {
        match v {
            JsonV::Object(members) => match obj_get(members, "openapi"@) {
                Some(JsonV::Text(openapi)) => if !version_is_31(openapi) {
                    Err(ErrV::UnsupportedOpenApiVersion)
                } else {
                    match spec_list_field::<Server>(members, "servers"@) {
                        Err(e) => Err(e),
                        Ok(servers) => match spec_opt_member_field::<Components>(
                            members,
                            "components"@,
                        ) {
                            Err(e) => Err(e),
                            Ok(components) => match spec_opt_member_field::<Paths>(
                                members,
                                "paths"@,
                            ) {
                                Err(e) => Err(e),
                                Ok(paths) => Ok(
                                    DocumentV {
                                        openapi,
                                        servers,
                                        components,
                                        paths,
                                        extra: keep_unknown(members, document_known_keys()),
                                    },
                                ),
                            },
                        },
                    }
                },
                _ => Err(
                    ErrV::ParsingError { msg: "document has no openapi version string"@ },
                ),
            },
            _ => Err(ErrV::ParsingError { msg: "document is not an object"@ }),
        }
    }

    fn decode(v: &JsonValue) -> (r: Result<Self, OpenApiError>) {
        let pairs = match v {
            JsonValue::Object(pairs) => pairs,
            _ => {
                return Err(
                    OpenApiError::ParsingError {
                        msg: String::from_str("document is not an object"),
                    },
                );
            },
        };
        let openapi = match lookup_key(pairs, "openapi") {
            Some(JsonValue::Text(openapi)) => openapi.clone(),
            _ => {
                return Err(
                    OpenApiError::ParsingError {
                        msg: String::from_str("document has no openapi version string"),
                    },
                );
            },
        };
        if !version_is_31_exec(openapi.as_str()) {
            return Err(OpenApiError::UnsupportedOpenApiVersion);
        }
        let servers = match list_field::<Server>(pairs, "servers") {
            Ok(xs) => xs,
            Err(e) => {
                return Err(e);
            },
        };
        let components = match opt_member_field::<Components>(pairs, "components") {
            Ok(x) => x,
            Err(e) => {
                return Err(e);
            },
        };
        let paths = match opt_member_field::<Paths>(pairs, "paths") {
            Ok(x) => x,
            Err(e) => {
                return Err(e);
            },
        };
        let mut known: Vec<String> = Vec::new();
        known.push(String::from_str("openapi"));
        known.push(String::from_str("servers"));
        known.push(String::from_str("components"));
        known.push(String::from_str("paths"));
        proof {
            assert(strings_view(known@) =~= document_known_keys());
        }
        let extra = extra_fields(pairs, &known);
        Ok(Document { openapi, servers, components, paths, extra })
    }
}

} // verus!
