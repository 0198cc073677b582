use vstd::prelude::*;
use crate::json::{pairs_view, JsonV, JsonValue};

verus! {

/// View of an optional string.
pub open spec fn opt_view(o: Option<String>) -> Option<Seq<char>> {
    match o {
        Some(s) => Some(s@),
        None => None,
    }
}

/// View of an ordered name/value list of viewable values.
pub open spec fn named_view<T: View>(s: Seq<(String, T)>) -> Seq<(Seq<char>, T::V)> {
    Seq::new(s.len(), |i: int| (s[i].0@, s[i].1@))
}

/// View of a list of viewable values.
pub open spec fn list_view<T: View>(s: Seq<T>) -> Seq<T::V> {
    Seq::new(s.len(), |i: int| s[i]@)
}

/// One slot of the document: a bare reference, an inline item, or a
/// reference that has been resolved and still carries its provenance.
pub enum RefOr<T> {
    Reference { reference: String, summary: Option<String>, description: Option<String> },
    Item(T),
    DereferencedReference {
        reference: String,
        summary: Option<String>,
        description: Option<String>,
        item: T,
    },
}

/// Mirror of `RefOr`.
pub ghost enum RefOrV<TV> {
    Reference { reference: Seq<char>, summary: Option<Seq<char>>, description: Option<Seq<char>> },
    Item(TV),
    DereferencedReference {
        reference: Seq<char>,
        summary: Option<Seq<char>>,
        description: Option<Seq<char>>,
        item: TV,
    },
}

impl<T: View> View for RefOr<T> {
    type V = RefOrV<T::V>;

    open spec fn view(&self) -> RefOrV<T::V> {
        match self {
            RefOr::Reference { reference, summary, description } => RefOrV::Reference {
                reference: reference@,
                summary: opt_view(*summary),
                description: opt_view(*description),
            },
            RefOr::Item(item) => RefOrV::Item(item@),
            RefOr::DereferencedReference { reference, summary, description, item } => {
                RefOrV::DereferencedReference {
                    reference: reference@,
                    summary: opt_view(*summary),
                    description: opt_view(*description),
                    item: item@,
                }
            },
        }
    }
}

/// A security scheme; its shape is carried through untouched.
pub struct SecurityScheme {
    pub raw: JsonValue,
}

impl View for SecurityScheme {
    type V = JsonV;

    open spec fn view(&self) -> JsonV {
        self.raw@
    }
}

/// An example; its shape is carried through untouched.
pub struct Example {
    pub raw: JsonValue,
}

impl View for Example {
    type V = JsonV;

    open spec fn view(&self) -> JsonV {
        self.raw@
    }
}

/// A link; its shape is carried through untouched.
pub struct Link {
    pub raw: JsonValue,
}

impl View for Link {
    type V = JsonV;

    open spec fn view(&self) -> JsonV {
        self.raw@
    }
}

/// A callback; its shape is carried through untouched.
pub struct Callback {
    pub raw: JsonValue,
}

impl View for Callback {
    type V = JsonV;

    open spec fn view(&self) -> JsonV {
        self.raw@
    }
}

/// A request body; its shape is carried through untouched.
pub struct RequestBody {
    pub raw: JsonValue,
}

impl View for RequestBody {
    type V = JsonV;

    open spec fn view(&self) -> JsonV {
        self.raw@
    }
}

/// One server entry: its URL, and every other member verbatim.
pub struct Server {
    pub url: String,
    pub extra: Vec<(String, JsonValue)>,
}

/// Mirror of `Server`.
pub ghost struct ServerV {
    pub url: Seq<char>,
    pub extra: Seq<(Seq<char>, JsonV)>,
}

impl View for Server {
    type V = ServerV;

    open spec fn view(&self) -> ServerV {
        ServerV { url: self.url@, extra: pairs_view(self.extra@) }
    }
}

impl Server {
    /// Structural copy with the same mathematical value.
    pub fn duplicate(&self) -> (r: Server)
        ensures
            r@ == self@,
    {
        let r = Server { url: self.url.clone(), extra: crate::json::copy_pairs(&self.extra) };
        proof {
            crate::json::lemma_pairs_view(self.extra@);
            crate::json::lemma_pairs_view(r.extra@);
            assert(pairs_view(r.extra@) =~= pairs_view(self.extra@));
        }
        r
    }
}

/// Where a parameter lives.
pub enum ParamLocation {
    Query,
    Header,
    Path,
    Cookie,
}

/// The body shared by all parameter kinds: its name, its named
/// examples (each possibly a reference), and every other member
/// verbatim.
pub struct ParameterData {
    pub name: String,
    pub examples: Vec<(String, RefOr<Example>)>,
    pub extra: Vec<(String, JsonValue)>,
}

/// Mirror of `ParameterData`.
pub ghost struct ParameterDataV {
    pub name: Seq<char>,
    pub examples: Seq<(Seq<char>, RefOrV<JsonV>)>,
    pub extra: Seq<(Seq<char>, JsonV)>,
}

impl View for ParameterData {
    type V = ParameterDataV;

    open spec fn view(&self) -> ParameterDataV {
        ParameterDataV {
            name: self.name@,
            examples: named_view(self.examples@),
            extra: pairs_view(self.extra@),
        }
    }
}

/// A parameter: its location and its data.
pub struct Parameter {
    pub location: ParamLocation,
    pub data: ParameterData,
}

/// Mirror of `Parameter`.
pub ghost struct ParameterV {
    pub location: ParamLocation,
    pub data: ParameterDataV,
}

impl View for Parameter {
    type V = ParameterV;

    open spec fn view(&self) -> ParameterV {
        ParameterV { location: self.location, data: self.data@ }
    }
}

/// A header: its named examples, and every other member verbatim.
pub struct Header {
    pub examples: Vec<(String, RefOr<Example>)>,
    pub extra: Vec<(String, JsonValue)>,
}

/// Mirror of `Header`.
pub ghost struct HeaderV {
    pub examples: Seq<(Seq<char>, RefOrV<JsonV>)>,
    pub extra: Seq<(Seq<char>, JsonV)>,
}

impl View for Header {
    type V = HeaderV;

    open spec fn view(&self) -> HeaderV {
        HeaderV { examples: named_view(self.examples@), extra: pairs_view(self.extra@) }
    }
}

/// A response: its named headers and links, and every other member
/// verbatim.
pub struct Response {
    pub headers: Vec<(String, RefOr<Header>)>,
    pub links: Vec<(String, RefOr<Link>)>,
    pub extra: Vec<(String, JsonValue)>,
}

/// Mirror of `Response`.
pub ghost struct ResponseV {
    pub headers: Seq<(Seq<char>, RefOrV<HeaderV>)>,
    pub links: Seq<(Seq<char>, RefOrV<JsonV>)>,
    pub extra: Seq<(Seq<char>, JsonV)>,
}

impl View for Response {
    type V = ResponseV;

    open spec fn view(&self) -> ResponseV {
        ResponseV {
            headers: named_view(self.headers@),
            links: named_view(self.links@),
            extra: pairs_view(self.extra@),
        }
    }
}

/// The responses of one operation: the optional default response, the
/// per-status-code responses in document order, and the extension
/// members verbatim.
pub struct Responses {
    pub default_response: Option<RefOr<Response>>,
    pub responses: Vec<(String, RefOr<Response>)>,
    pub extra: Vec<(String, JsonValue)>,
}

/// Mirror of `Responses`.
pub ghost struct ResponsesV {
    pub default_response: Option<RefOrV<ResponseV>>,
    pub responses: Seq<(Seq<char>, RefOrV<ResponseV>)>,
    pub extra: Seq<(Seq<char>, JsonV)>,
}

/// View of an optional viewable value.
pub open spec fn opt_elem_view<T: View>(o: Option<T>) -> Option<T::V> {
    match o {
        Some(x) => Some(x@),
        None => None,
    }
}

impl View for Responses {
    type V = ResponsesV;

    open spec fn view(&self) -> ResponsesV {
        ResponsesV {
            default_response: opt_elem_view(self.default_response),
            responses: named_view(self.responses@),
            extra: pairs_view(self.extra@),
        }
    }
}

/// One operation: its parameters, request body, responses and servers,
/// and every other member verbatim.
pub struct Operation {
    pub parameters: Vec<RefOr<Parameter>>,
    pub request_body: Option<RefOr<RequestBody>>,
    pub responses: Option<Responses>,
    pub servers: Vec<Server>,
    pub extra: Vec<(String, JsonValue)>,
}

/// Mirror of `Operation`.
pub ghost struct OperationV {
    pub parameters: Seq<RefOrV<ParameterV>>,
    pub request_body: Option<RefOrV<JsonV>>,
    pub responses: Option<ResponsesV>,
    pub servers: Seq<ServerV>,
    pub extra: Seq<(Seq<char>, JsonV)>,
}

impl View for Operation {
    type V = OperationV;

    open spec fn view(&self) -> OperationV {
        OperationV {
            parameters: list_view(self.parameters@),
            request_body: opt_elem_view(self.request_body),
            responses: opt_elem_view(self.responses),
            servers: list_view(self.servers@),
            extra: pairs_view(self.extra@),
        }
    }
}

/// One path item: its per-method operations, shared parameters and
/// servers, and every other member verbatim.
pub struct PathItem {
    pub get: Option<Operation>,
    pub put: Option<Operation>,
    pub post: Option<Operation>,
    pub delete: Option<Operation>,
    pub options: Option<Operation>,
    pub head: Option<Operation>,
    pub patch: Option<Operation>,
    pub trace: Option<Operation>,
    pub parameters: Vec<RefOr<Parameter>>,
    pub servers: Vec<Server>,
    pub extra: Vec<(String, JsonValue)>,
}

/// Mirror of `PathItem`.
pub ghost struct PathItemV {
    pub get: Option<OperationV>,
    pub put: Option<OperationV>,
    pub post: Option<OperationV>,
    pub delete: Option<OperationV>,
    pub options: Option<OperationV>,
    pub head: Option<OperationV>,
    pub patch: Option<OperationV>,
    pub trace: Option<OperationV>,
    pub parameters: Seq<RefOrV<ParameterV>>,
    pub servers: Seq<ServerV>,
    pub extra: Seq<(Seq<char>, JsonV)>,
}

impl View for PathItem {
    type V = PathItemV;

    open spec fn view(&self) -> PathItemV {
        PathItemV {
            get: opt_elem_view(self.get),
            put: opt_elem_view(self.put),
            post: opt_elem_view(self.post),
            delete: opt_elem_view(self.delete),
            options: opt_elem_view(self.options),
            head: opt_elem_view(self.head),
            patch: opt_elem_view(self.patch),
            trace: opt_elem_view(self.trace),
            parameters: list_view(self.parameters@),
            servers: list_view(self.servers@),
            extra: pairs_view(self.extra@),
        }
    }
}

/// The document's path map, plus its extension members verbatim.
pub struct Paths {
    pub paths: Vec<(String, RefOr<PathItem>)>,
    pub extra: Vec<(String, JsonValue)>,
}

/// Mirror of `Paths`.
pub ghost struct PathsV {
    pub paths: Seq<(Seq<char>, RefOrV<PathItemV>)>,
    pub extra: Seq<(Seq<char>, JsonV)>,
}

impl View for Paths {
    type V = PathsV;

    open spec fn view(&self) -> PathsV {
        PathsV { paths: named_view(self.paths@), extra: pairs_view(self.extra@) }
    }
}

/// The document's named, reusable object registry, one ordered
/// collection per kind, plus every other member verbatim.
pub struct Components {
    pub security_schemes: Vec<(String, RefOr<SecurityScheme>)>,
    pub responses: Vec<(String, RefOr<Response>)>,
    pub schemas: Vec<(String, crate::schema::Schema)>,
    pub parameters: Vec<(String, RefOr<Parameter>)>,
    pub examples: Vec<(String, RefOr<Example>)>,
    pub request_bodies: Vec<(String, RefOr<RequestBody>)>,
    pub headers: Vec<(String, RefOr<Header>)>,
    pub links: Vec<(String, RefOr<Link>)>,
    pub callbacks: Vec<(String, RefOr<Callback>)>,
    pub path_items: Vec<(String, RefOr<PathItem>)>,
    pub extra: Vec<(String, JsonValue)>,
}

/// Mirror of `Components`.
pub ghost struct ComponentsV {
    pub security_schemes: Seq<(Seq<char>, RefOrV<JsonV>)>,
    pub responses: Seq<(Seq<char>, RefOrV<ResponseV>)>,
    pub schemas: Seq<(Seq<char>, crate::schema::SchemaV)>,
    pub parameters: Seq<(Seq<char>, RefOrV<ParameterV>)>,
    pub examples: Seq<(Seq<char>, RefOrV<JsonV>)>,
    pub request_bodies: Seq<(Seq<char>, RefOrV<JsonV>)>,
    pub headers: Seq<(Seq<char>, RefOrV<HeaderV>)>,
    pub links: Seq<(Seq<char>, RefOrV<JsonV>)>,
    pub callbacks: Seq<(Seq<char>, RefOrV<JsonV>)>,
    pub path_items: Seq<(Seq<char>, RefOrV<PathItemV>)>,
    pub extra: Seq<(Seq<char>, JsonV)>,
}

impl View for Components {
    type V = ComponentsV;

    open spec fn view(&self) -> ComponentsV {
        ComponentsV {
            security_schemes: named_view(self.security_schemes@),
            responses: named_view(self.responses@),
            schemas: named_view(self.schemas@),
            parameters: named_view(self.parameters@),
            examples: named_view(self.examples@),
            request_bodies: named_view(self.request_bodies@),
            headers: named_view(self.headers@),
            links: named_view(self.links@),
            callbacks: named_view(self.callbacks@),
            path_items: named_view(self.path_items@),
            extra: pairs_view(self.extra@),
        }
    }
}

/// The typed document: its version string, servers, components and
/// paths, plus every other top-level member verbatim.
pub struct Document {
    pub openapi: String,
    pub servers: Vec<Server>,
    pub components: Option<Components>,
    pub paths: Option<Paths>,
    pub extra: Vec<(String, JsonValue)>,
}

/// Mirror of `Document`.
pub ghost struct DocumentV {
    pub openapi: Seq<char>,
    pub servers: Seq<ServerV>,
    pub components: Option<ComponentsV>,
    pub paths: Option<PathsV>,
    pub extra: Seq<(Seq<char>, JsonV)>,
}

impl View for Document {
    type V = DocumentV;

    open spec fn view(&self) -> DocumentV {
        DocumentV {
            openapi: self.openapi@,
            servers: list_view(self.servers@),
            components: opt_elem_view(self.components),
            paths: opt_elem_view(self.paths),
            extra: pairs_view(self.extra@),
        }
    }
}

} // verus!
