use vstd::prelude::*;
use vstd::string::*;
use crate::cache::{cache_wf, ResolutionCache};
use crate::decode::Decode;
use crate::error::{ErrV, OpenApiError};
use crate::json::{JsonV, JsonValue};
use crate::model::{
    list_view, Document, DocumentV, PathItemV, RefOr, RefOrV, Server, ServerV,
};
use crate::walk::{spec_walk_document, walk_document};

verus! {

/// The tree a byte string holds, if it is one valid JSON text; what
/// `serde_json::from_slice` accepts and returns depends on the bytes
/// alone.
pub uninterp spec fn json_tree(bytes: Seq<u8>) -> Option<JsonV>;

/// The tree a character string holds, if it is one valid JSON text;
/// what `serde_json::from_str` accepts and returns depends on the
/// characters alone.
pub uninterp spec fn json_tree_text(text: Seq<char>) -> Option<JsonV>;

/// The tree a parsed `serde_json` value holds, member order included.
pub uninterp spec fn tree_of(v: serde_json::Value) -> JsonV;

/// Relies on `serde_json::Value`: declared so that parsed values can
/// stand in signatures; the verifier sees nothing inside one.
#[verifier::external_type_specification]
#[verifier::external_body]
pub struct ExValue(serde_json::Value);

/// Relies on `serde_json::from_slice`: parses one JSON text into a
/// tree, deterministically in the bytes, keeping member order.
#[verifier::external_body]
fn parse_slice(bytes: &[u8]) -> (r: Result<serde_json::Value, String>)
    ensures
        r is Ok <==> json_tree(bytes@) is Some,
        (match r {
            Ok(v) => json_tree(bytes@) == Some(tree_of(v)),
            Err(_) => true,
        }),
{
    serde_json::from_slice(bytes).map_err(|e| e.to_string())
}

/// Relies on `serde_json::from_str`: parses one JSON text into a
/// tree, deterministically in the characters, keeping member order.
#[verifier::external_body]
fn parse_str(text: &str) -> (r: Result<serde_json::Value, String>)
    ensures
        r is Ok <==> json_tree_text(text@) is Some,
        (match r {
            Ok(v) => json_tree_text(text@) == Some(tree_of(v)),
            Err(_) => true,
        }),
{
    serde_json::from_str(text).map_err(|e| e.to_string())
}

/// Relies on `serde_json::Value`: reads the parsed value variant by
/// variant, moving each boolean, number text, string, element and
/// member into the library's own tree, order kept.
#[verifier::external_body]
fn of_serde(v: &serde_json::Value) -> (r: JsonValue)
    ensures
        r@ == tree_of(*v),
{
    match v {
        serde_json::Value::Null => JsonValue::Null,
        serde_json::Value::Bool(b) => JsonValue::Bool(*b),
        serde_json::Value::Number(n) => JsonValue::Number(n.to_string()),
        serde_json::Value::String(s) => JsonValue::Text(s.clone()),
        serde_json::Value::Array(items) => JsonValue::Array(
            items.iter().map(|x| of_serde(x)).collect(),
        ),
        serde_json::Value::Object(members) => JsonValue::Object(
            members.iter().map(|(k, x)| (k.clone(), of_serde(x))).collect(),
        ),
    }
}

/// Owner of one document under dereferencing: the raw tree (the source
/// of every pointer lookup), the typed document, the resolution memo,
/// and whether the pass has completed.
pub struct OpenApiDereferencer {
    pub json: JsonValue,
    pub openapi: Document,
    pub cache: ResolutionCache,
    pub is_dereferenced: bool,
}

impl OpenApiDereferencer {
    /// The memo only ever holds what its keys resolve to in the raw
    /// document.
    pub open spec fn wf(&self) -> bool {
        cache_wf(self.cache@, self.json@)
    }

    /// Has the dereference pass completed on this instance?
    pub open spec fn spec_is_dereferenced(&self) -> bool {
        self.is_dereferenced
    }

    /// Builds the facade over an already-parsed tree: the typed
    /// document is decoded from it, the raw tree kept verbatim, the
    /// memo empty, the pass not yet run.
    pub fn from_tree(json: JsonValue) -> (r: Result<OpenApiDereferencer, OpenApiError>)
        ensures
            match r {
                Ok(d) => Document::spec_decode(json@) == Ok::<DocumentV, ErrV>(d.openapi@)
                    && d.json@ == json@ && !d.spec_is_dereferenced() && d.wf() && d.cache@
                    == Seq::<(Seq<char>, JsonV)>::empty(),
                Err(e) => Document::spec_decode(json@) == Err::<DocumentV, ErrV>(e@),
            },
    {
        match Document::decode(&json) {
            Ok(openapi) => Ok(
                OpenApiDereferencer {
                    json,
                    openapi,
                    cache: ResolutionCache::new(),
                    is_dereferenced: false,
                },
            ),
            Err(e) => Err(e),
        }
    }

    /// Builds the facade over a value parsed by `serde_json`.
    pub fn from_value(json: serde_json::Value) -> (r: Result<
        OpenApiDereferencer,
        OpenApiError,
    >)
        ensures
            match r {
                Ok(d) => Document::spec_decode(tree_of(json)) == Ok::<DocumentV, ErrV>(
                    d.openapi@,
                ) && d.json@ == tree_of(json) && !d.spec_is_dereferenced() && d.wf(),
                Err(e) => Document::spec_decode(tree_of(json)) == Err::<DocumentV, ErrV>(e@),
            },
    {
        let t = of_serde(&json);
        OpenApiDereferencer::from_tree(t)
    }

    /// Builds the facade from JSON bytes. Bytes that are no valid JSON
    /// fail with a parsing error; anything further is as `from_tree`.
    pub fn from_bytes(bytes: &[u8]) -> (r: Result<OpenApiDereferencer, OpenApiError>)
        ensures
            match r {
                Ok(d) => json_tree(bytes@) matches Some(t) && Document::spec_decode(t)
                    == Ok::<DocumentV, ErrV>(d.openapi@) && d.json@ == t
                    && !d.spec_is_dereferenced() && d.wf(),
                Err(e) => match json_tree(bytes@) {
                    Some(t) => Document::spec_decode(t) == Err::<DocumentV, ErrV>(e@),
                    None => e@ is ParsingError,
                },
            },
    {
        match parse_slice(bytes) {
            Ok(v) => {
                let t = of_serde(&v);
                OpenApiDereferencer::from_tree(t)
            },
            Err(cause) => {
                let mut msg = String::from_str("invalid JSON: ");
                msg.append(cause.as_str());
                Err(OpenApiError::ParsingError { msg })
            },
        }
    }

    /// Builds the facade from JSON text.
    pub fn from_str(text: &str) -> (r: Result<OpenApiDereferencer, OpenApiError>)
        ensures
            match r {
                Ok(d) => json_tree_text(text@) matches Some(t) && Document::spec_decode(t)
                    == Ok::<DocumentV, ErrV>(d.openapi@) && d.json@ == t
                    && !d.spec_is_dereferenced() && d.wf(),
                Err(e) => match json_tree_text(text@) {
                    Some(t) => Document::spec_decode(t) == Err::<DocumentV, ErrV>(e@),
                    None => e@ is ParsingError,
                },
            },
    {
        match parse_str(text) {
            Ok(v) => {
                let t = of_serde(&v);
                OpenApiDereferencer::from_tree(t)
            },
            Err(cause) => {
                let mut msg = String::from_str("invalid JSON: ");
                msg.append(cause.as_str());
                Err(OpenApiError::ParsingError { msg })
            },
        }
    }

    /// Runs the dereference pass: consumes the facade and returns it
    /// with every reference slot resolved, or the first failure, with
    /// no partial document. On success the pass is marked complete.
    pub fn dereference(self) -> (r: Result<OpenApiDereferencer, OpenApiError>)
        requires
            self.wf(),
        ensures
            match r {
                Ok(d) => spec_walk_document(self.json@, self.openapi@) == Ok::<
                    DocumentV,
                    ErrV,
                >(d.openapi@) && d.json@ == self.json@ && d.spec_is_dereferenced() && d.wf(),
                Err(e) => spec_walk_document(self.json@, self.openapi@) == Err::<
                    DocumentV,
                    ErrV,
                >(e@),
            },
    {
        let OpenApiDereferencer { json, openapi, cache, is_dereferenced: _ } = self;
        let mut cache = cache;
        match walk_document(&json, &mut cache, openapi) {
            Ok(openapi) => Ok(
                OpenApiDereferencer { json, openapi, cache, is_dereferenced: true },
            ),
            Err(e) => Err(e),
        }
    }
}

impl core::str::FromStr for OpenApiDereferencer {
    type Err = OpenApiError;

    /// Builds the facade from JSON text, as `OpenApiDereferencer::from_str`
    /// does; the contract lives on that method.
    fn from_str(text: &str) -> Result<OpenApiDereferencer, OpenApiError> {
        OpenApiDereferencer::from_str(text)
    }
}

/// The servers of one path item: its own list, then its GET
/// operation's list if there is one.
pub open spec fn path_item_servers(pi: PathItemV) -> Seq<ServerV> {
    pi.servers + (match pi.get {
        Some(op) => op.servers,
        None => Seq::<ServerV>::empty(),
    })
}

/// The servers contributed by one path slot; a slot still unresolved
/// is an inconsistency reported as `DerefBeforeGettingServers`.
pub open spec fn slot_servers(slot: RefOrV<PathItemV>) -> Result<Seq<ServerV>, ErrV> {
    match slot {
        RefOrV::Item(pi) => Ok(path_item_servers(pi)),
        RefOrV::DereferencedReference { item, .. } => Ok(path_item_servers(item)),
        RefOrV::Reference { .. } => Err(ErrV::DerefBeforeGettingServers),
    }
}

/// The servers of all path items, in document order.
pub open spec fn collect_path_servers(paths: Seq<(Seq<char>, RefOrV<PathItemV>)>) -> Result<
    Seq<ServerV>,
    ErrV,
>
    decreases paths.len(),
{
    if paths.len() == 0 {
        Ok(Seq::empty())
    } else {
        match collect_path_servers(paths.drop_last()) {
            Err(e) => Err(e),
            Ok(rest) => match slot_servers(paths.last().1) {
                Ok(more) => Ok(rest + more),
                Err(e) => Err(e),
            },
        }
    }
}

proof fn lemma_collect_path_servers_err(
    paths: Seq<(Seq<char>, RefOrV<PathItemV>)>,
    k: int,
    e: ErrV,
)
    requires
        0 <= k < paths.len(),
        collect_path_servers(paths.take(k)) is Ok,
        slot_servers(paths[k].1) == Err::<Seq<ServerV>, ErrV>(e),
    ensures
        collect_path_servers(paths) == Err::<Seq<ServerV>, ErrV>(e),
    decreases paths.len(),
{
    if k == paths.len() - 1 {
        assert(paths.drop_last() =~= paths.take(k));
    } else {
        assert(paths.drop_last().take(k) =~= paths.take(k));
        lemma_collect_path_servers_err(paths.drop_last(), k, e);
    }
}

/// What server aggregation returns: before the pass, the guard error;
/// after it, the top-level servers, then every path item's and its GET
/// operation's servers, in document order.
pub open spec fn spec_get_servers(d: DocumentV, dereferenced: bool) -> Result<
    Seq<ServerV>,
    ErrV,
> {
    if !dereferenced {
        Err(ErrV::DerefBeforeGettingServers)
    } else {
        match d.paths {
            None => Ok(d.servers),
            Some(p) => match collect_path_servers(p.paths) {
                Ok(more) => Ok(d.servers + more),
                Err(e) => Err(e),
            },
        }
    }
}

/// Appends a copy of every server in `src` to `out`.
fn append_servers(out: &mut Vec<Server>, src: &Vec<Server>)
    ensures
        list_view(final(out)@) == list_view(old(out)@) + list_view(src@),
{
    let ghost orig = old(out)@;
    let n = src.len();
    proof {
        assert(list_view(out@) =~= list_view(orig) + list_view(src@).take(0));
    }
    for k in 0..n
        invariant
            n == src@.len(),
            list_view(out@) == list_view(orig) + list_view(src@).take(k as int),
        decreases n - k,
    {
        let ghost prev = out@;
        out.push(src[k].duplicate());
        proof {
            assert(list_view(out@) =~= list_view(prev).push(src@[k as int]@));
            assert(list_view(orig) + list_view(src@).take(k + 1) =~= (list_view(orig)
                + list_view(src@).take(k as int)).push(src@[k as int]@));
        }
    }
    proof {
        assert(list_view(src@).take(n as int) =~= list_view(src@));
    }
}

impl OpenApiDereferencer {
    /// Collects the servers of the whole document: the top-level list,
    /// then, per path item in document order, the item's own servers
    /// and its GET operation's. Before `dereference` has completed,
    /// and on any path slot still unresolved, this fails with
    /// `DerefBeforeGettingServers`.
    pub fn get_servers(&self) -> (r: Result<Vec<Server>, OpenApiError>)
        ensures
            match r {
                Ok(list) => spec_get_servers(self.openapi@, self.spec_is_dereferenced())
                    == Ok::<Seq<ServerV>, ErrV>(list_view(list@)),
                Err(e) => spec_get_servers(self.openapi@, self.spec_is_dereferenced())
                    == Err::<Seq<ServerV>, ErrV>(e@),
            },
    {
        if !self.is_dereferenced {
            return Err(OpenApiError::DerefBeforeGettingServers);
        }
        let mut out: Vec<Server> = Vec::new();
        append_servers(&mut out, &self.openapi.servers);
        proof {
            assert(list_view(out@) =~= Seq::<ServerV>::empty() + list_view(
                self.openapi.servers@,
            ));
            assert(list_view(out@) =~= list_view(self.openapi.servers@));
        }
        let paths_obj = match &self.openapi.paths {
            None => {
                return Ok(out);
            },
            Some(p) => p,
        };
        let ghost views = crate::model::named_view(paths_obj.paths@);
        let n = paths_obj.paths.len();
        proof {
            assert(views.take(0) =~= Seq::<(Seq<char>, RefOrV<PathItemV>)>::empty());
            assert(list_view(out@) =~= list_view(self.openapi.servers@) + Seq::<
                ServerV,
            >::empty());
        }
        for k in 0..n
            invariant
                n == paths_obj.paths@.len(),
                views == crate::model::named_view(paths_obj.paths@),
                views.len() == n,
                self.openapi@.paths == Some(paths_obj@),
                paths_obj@.paths == views,
                collect_path_servers(views.take(k as int)) matches Ok(more) && list_view(
                    out@,
                ) == list_view(self.openapi.servers@) + more,
            decreases n - k,
        {
            let ghost prev = out@;
            proof {
                assert(views.take(k + 1).drop_last() =~= views.take(k as int));
                assert(views.take(k + 1).last() == views[k as int]);
                assert(views[k as int].1 == paths_obj.paths@[k as int].1@);
            }
            let item: &crate::model::PathItem = match &paths_obj.paths[k].1 {
                RefOr::Item(item) => item,
                RefOr::DereferencedReference { item, .. } => item,
                RefOr::Reference { .. } => {
                    proof {
                        lemma_collect_path_servers_err(
                            views,
                            k as int,
                            ErrV::DerefBeforeGettingServers,
                        );
                    }
                    return Err(OpenApiError::DerefBeforeGettingServers);
                },
            };
            append_servers(&mut out, &item.servers);
            match &item.get {
                Some(op) => {
                    append_servers(&mut out, &op.servers);
                    proof {
                        assert(list_view(out@) =~= list_view(prev) + path_item_servers(
                            item@,
                        ));
                    }
                },
                None => {
                    proof {
                        assert(path_item_servers(item@) =~= list_view(item.servers@));
                        assert(list_view(out@) =~= list_view(prev) + path_item_servers(
                            item@,
                        ));
                    }
                },
            }
            proof {
                let more = collect_path_servers(views.take(k as int))->Ok_0;
                assert(list_view(out@) =~= list_view(self.openapi.servers@) + (more
                    + path_item_servers(item@)));
            }
        }
        proof {
            assert(views.take(n as int) =~= views);
        }
        Ok(out)
    }
}

} // verus!
