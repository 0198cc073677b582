use openapi_deref::model::{Parameter, ParamLocation, Paths, RefOr};
use openapi_deref::schema::Schema;
use openapi_deref::OpenApiDereferencer;
use openapi_deref::OpenApiError;

fn paths_of(d: &OpenApiDereferencer) -> &Paths {
    d.openapi.paths.as_ref().expect("document has paths")
}

#[test]
fn no_refs_is_a_structural_no_op() {
    let text = r##"{
        "openapi": "3.1.0",
        "servers": [{"url": "https://main.example"}],
        "paths": {
            "/x": {
                "get": {
                    "parameters": [{"name": "q", "in": "query"}]
                }
            }
        }
    }"##;
    let before = OpenApiDereferencer::from_str(text).unwrap();
    let after = before.dereference().unwrap();
    assert!(after.is_dereferenced);
    assert_eq!(after.openapi.openapi, "3.1.0");
    assert_eq!(after.openapi.servers.len(), 1);
    assert_eq!(after.openapi.servers[0].url, "https://main.example");
    let paths = paths_of(&after);
    assert_eq!(paths.paths.len(), 1);
    assert_eq!(paths.paths[0].0, "/x");
    let item = match &paths.paths[0].1 {
        RefOr::Item(item) => item,
        other => panic!("path item should stay inline, got {:?}", variant_name(other)),
    };
    let get = item.get.as_ref().expect("GET operation kept");
    assert_eq!(get.parameters.len(), 1);
    match &get.parameters[0] {
        RefOr::Item(p) => {
            assert_eq!(p.data.name, "q");
            assert!(matches!(p.location, ParamLocation::Query));
        }
        _ => panic!("inline parameter should stay inline"),
    }
}

fn variant_name<T>(slot: &RefOr<T>) -> &'static str {
    match slot {
        RefOr::Reference { .. } => "Reference",
        RefOr::Item(_) => "Item",
        RefOr::DereferencedReference { .. } => "DereferencedReference",
    }
}

#[test]
fn referenced_parameter_is_resolved_and_no_ref_remains() {
    let text = r##"{
        "openapi": "3.1.0",
        "components": {"parameters": {"p1": {"name": "p1", "in": "query"}}},
        "paths": {
            "/x": {
                "get": {
                    "parameters": [{"$ref": "#/components/parameters/p1"}]
                }
            }
        }
    }"##;
    let d = OpenApiDereferencer::from_str(text).unwrap().dereference().unwrap();
    let paths = paths_of(&d);
    let item = match &paths.paths[0].1 {
        RefOr::Item(item) => item,
        _ => panic!("path item should be inline"),
    };
    let get = item.get.as_ref().unwrap();
    assert_eq!(get.parameters.len(), 1);
    match &get.parameters[0] {
        RefOr::DereferencedReference { reference, item, .. } => {
            assert_eq!(reference, "#/components/parameters/p1");
            assert_eq!(item.data.name, "p1");
            assert!(matches!(item.location, ParamLocation::Query));
        }
        other => panic!(
            "parameter should be a resolved reference, got {}",
            variant_name(other)
        ),
    }
}

#[test]
fn same_pointer_twice_resolves_to_equal_values() {
    let text = r##"{
        "openapi": "3.1.0",
        "components": {"parameters": {"p1": {"name": "p1", "in": "header"}}},
        "paths": {
            "/a": {"get": {"parameters": [{"$ref": "#/components/parameters/p1"}]}},
            "/b": {"get": {"parameters": [{"$ref": "#/components/parameters/p1"}]}}
        }
    }"##;
    let d = OpenApiDereferencer::from_str(text).unwrap().dereference().unwrap();
    let paths = paths_of(&d);
    let mut seen: Vec<&Parameter> = Vec::new();
    for (_, slot) in &paths.paths {
        let item = match slot {
            RefOr::Item(item) => item,
            _ => panic!("path items should be inline"),
        };
        match &item.get.as_ref().unwrap().parameters[0] {
            RefOr::DereferencedReference { item, .. } => seen.push(item),
            _ => panic!("parameter should be resolved"),
        }
    }
    assert_eq!(seen.len(), 2);
    assert_eq!(seen[0].data.name, seen[1].data.name);
    assert!(matches!(seen[0].location, ParamLocation::Header));
    assert!(matches!(seen[1].location, ParamLocation::Header));
}

#[test]
fn allof_members_are_resolved_and_not_merged() {
    let text = r##"{
        "openapi": "3.1.0",
        "components": {
            "schemas": {
                "a": {"type": "integer"},
                "b": {"type": "string"},
                "both": {
                    "allOf": [
                        {"$ref": "#/components/schemas/a"},
                        {"$ref": "#/components/schemas/b"}
                    ]
                }
            }
        }
    }"##;
    let d = OpenApiDereferencer::from_str(text).unwrap().dereference().unwrap();
    let components = d.openapi.components.as_ref().unwrap();
    let both = components
        .schemas
        .iter()
        .find(|(k, _)| k == "both")
        .map(|(_, s)| s)
        .expect("schema kept under its name");
    let obj = match both {
        Schema::Object(obj) => obj,
        Schema::Bool(_) => panic!("composed schema is an object schema"),
    };
    let members = obj.all_of.as_ref().expect("allOf kept");
    assert_eq!(members.len(), 2);
    for member in members {
        match member {
            Schema::Object(m) => assert!(m.reference.is_none()),
            Schema::Bool(_) => panic!("members resolve to object schemas"),
        }
    }
}

#[test]
fn servers_are_collected_in_document_order() {
    let text = r##"{
        "openapi": "3.1.0",
        "servers": [{"url": "https://top.example"}],
        "paths": {
            "/x": {
                "servers": [{"url": "https://item.example"}],
                "get": {"servers": [{"url": "https://get.example"}]}
            }
        }
    }"##;
    let loaded = OpenApiDereferencer::from_str(text).unwrap();
    match loaded.get_servers() {
        Err(OpenApiError::DerefBeforeGettingServers) => {}
        other => panic!("expected DerefBeforeGettingServers, got {:?}", other.err()),
    }
    let d = loaded.dereference().unwrap();
    let servers = d.get_servers().unwrap();
    let urls: Vec<&str> = servers.iter().map(|s| s.url.as_str()).collect();
    assert_eq!(
        urls,
        vec!["https://top.example", "https://item.example", "https://get.example"]
    );
}

#[test]
fn version_3_0_is_rejected() {
    let text = r##"{"openapi": "3.0.0", "paths": {}}"##;
    match OpenApiDereferencer::from_str(text) {
        Err(OpenApiError::UnsupportedOpenApiVersion) => {}
        other => panic!("expected UnsupportedOpenApiVersion, got {:?}", other.err()),
    }
}

#[test]
fn version_3_1_patch_releases_are_accepted() {
    let text = r##"{"openapi": "3.1.7"}"##;
    assert!(OpenApiDereferencer::from_str(text).is_ok());
    let text = r##"{"openapi": "3.10.0"}"##;
    assert!(matches!(
        OpenApiDereferencer::from_str(text),
        Err(OpenApiError::UnsupportedOpenApiVersion)
    ));
}

#[test]
fn from_bytes_parses_like_from_str() {
    let bytes = br##"{"openapi": "3.1.0", "servers": [{"url": "https://b.example"}]}"##;
    let d = OpenApiDereferencer::from_bytes(bytes).unwrap();
    assert_eq!(d.openapi.servers[0].url, "https://b.example");
    assert!(!d.is_dereferenced);
}

#[test]
fn from_value_accepts_a_parsed_tree() {
    let v: serde_json::Value =
        serde_json::from_str(r##"{"openapi": "3.1.0", "servers": [{"url": "https://v.example"}]}"##)
            .unwrap();
    let d = OpenApiDereferencer::from_value(v).unwrap();
    assert_eq!(d.openapi.servers[0].url, "https://v.example");
}

#[test]
fn dereference_then_get_servers_keeps_resolved_path_items() {
    let text = r##"{
        "openapi": "3.1.0",
        "components": {
            "pathItems": {
                "shared": {
                    "servers": [{"url": "https://shared.example"}],
                    "get": {}
                }
            }
        },
        "paths": {
            "/x": {"$ref": "#/components/pathItems/shared"}
        }
    }"##;
    let d = OpenApiDereferencer::from_str(text).unwrap().dereference().unwrap();
    let paths = paths_of(&d);
    match &paths.paths[0].1 {
        RefOr::DereferencedReference { reference, item, .. } => {
            assert_eq!(reference, "#/components/pathItems/shared");
            assert_eq!(item.servers[0].url, "https://shared.example");
        }
        other => panic!("path item should be resolved, got {}", variant_name(other)),
    }
    let servers = d.get_servers().unwrap();
    assert_eq!(servers.len(), 1);
    assert_eq!(servers[0].url, "https://shared.example");
}

#[test]
fn parse_builds_the_same_facade_as_from_str() {
    let d: OpenApiDereferencer = r##"{"openapi": "3.1.0"}"##.parse().unwrap();
    assert_eq!(d.openapi.openapi, "3.1.0");
}
