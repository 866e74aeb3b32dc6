//! Per-endpoint operation assembly and the document-wide fold.
use vstd::prelude::*;

use crate::names::{schema_name, underscored, upper_camel_of};
use crate::params::{
    get_query_params, params_view, spec_query_params, Parameter, ParameterV,
};
use crate::parse::{declaration_of, get_declaration, parse_yaml, yaml_tree_of};
use crate::response::{get_response, spec_response};
use crate::schema::{opt_str_view, ObjectSchema, ObjectSchemaV, SchemaNode, SchemaNodeV};
use crate::types::{ApiEndpoint, ApiEndpointMethod, ApiProject};
use crate::params::{get_request_body, spec_request_body};
use crate::yaml::Yaml;

verus! {

/// A diagnostic raised while translating one endpoint's declaration;
/// the host decides how to surface it.
#[derive(Clone, Copy, PartialEq, Eq, Structural, Debug)]
pub enum Warning {
    /// The declaration string was present but did not parse, or lacked
    /// a top-level `declaration` mapping.
    MalformedDeclaration,
    /// `declaration.description` was present but not a string.
    DescriptionNotString,
}

/// One built operation: a method and path pair with its parameters,
/// request body and response. The request body is wrapped as a JSON
/// body marked required when the document is assembled.
#[derive(Debug, PartialEq)]
pub struct Operation {
    pub operation_id: String,
    pub tag: String,
    pub description: Option<String>,
    pub parameters: Vec<Parameter>,
    pub request_body: Option<ObjectSchema>,
    pub response: Option<SchemaNode>,
}

/// Mathematical form of `Operation`.
pub struct OperationV {
    pub operation_id: Seq<char>,
    pub tag: Seq<char>,
    pub description: Option<Seq<char>>,
    pub parameters: Seq<ParameterV>,
    pub request_body: Option<ObjectSchemaV>,
    pub response: Option<SchemaNodeV>,
}

impl View for Operation {
    type V = OperationV;

    open spec fn view(&self) -> OperationV {
        OperationV {
            operation_id: self.operation_id@,
            tag: self.tag@,
            description: opt_str_view(self.description),
            parameters: params_view(self.parameters@),
            request_body: match self.request_body {
                Some(b) => Some(b@),
                None => None,
            },
            response: match self.response {
                Some(n) => Some(n@),
                None => None,
            },
        }
    }
}

/// The views of a named-schema registry.
pub open spec fn schemas_view(ss: Seq<(String, ObjectSchema)>) -> Seq<(Seq<char>, ObjectSchemaV)> {
    ss.map_values(|p: (String, ObjectSchema)| (p.0@, p.1@))
}

/// The operation an endpoint gets when it has no usable declaration.
pub open spec fn bare_operation(path: Seq<char>, tag: Seq<char>) -> OperationV {
    OperationV {
        operation_id: path,
        tag,
        description: None,
        parameters: Seq::empty(),
        request_body: None,
        response: None,
    }
}

/// The declaration's own description and the warning its shape earns:
/// a non-string description is dropped with a warning.
pub open spec fn description_outcome(d: Yaml) -> (Option<Seq<char>>, Seq<Warning>) {
    match d.get_spec("description"@) {
        Some(v) => match v.str_spec() {
            Some(s) => (Some(s), Seq::empty()),
            None => (None, seq![Warning::DescriptionNotString]),
        },
        None => (None, Seq::empty()),
    }
}

/// The registry name of an endpoint's response schema.
pub open spec fn response_name_of(path: Seq<char>) -> Seq<char> {
    upper_camel_of("Response"@ + underscored(path))
}

/// The registry name of an endpoint's request-body schema.
pub open spec fn post_name_of(path: Seq<char>) -> Seq<char> {
    upper_camel_of("Post"@ + underscored(path))
}

/// The operation, named schemas and warnings a structurally valid
/// declaration mapping yields. The response is attached first; then a
/// GET gains its query parameters and a POST its request body.
pub open spec fn spec_operation_of_decl(
    path: Seq<char>,
    method: ApiEndpointMethod,
    tag: Seq<char>,
    d: Yaml,
) -> (OperationV, Seq<(Seq<char>, ObjectSchemaV)>, Seq<Warning>) {
    let desc = description_outcome(d);
    let resp = spec_response(d);
    let response_node = match resp {
        Some(p) => Some(p.0),
        None => None,
    };
    let response_schemas = match resp {
        Some(p) => seq![(response_name_of(path), p.1)],
        None => Seq::<(Seq<char>, ObjectSchemaV)>::empty(),
    };
    match method {
        ApiEndpointMethod::Get => {
            let params = match spec_query_params(d) {
                Some(ps) => ps,
                None => Seq::empty(),
            };
            (
                OperationV {
                    operation_id: path,
                    tag,
                    description: desc.0,
                    parameters: params,
                    request_body: None,
                    response: response_node,
                },
                response_schemas,
                desc.1,
            )
        },
        ApiEndpointMethod::Post => {
            match spec_request_body(d) {
                Some(body) => (
                    OperationV {
                        operation_id: path,
                        tag,
                        description: desc.0,
                        parameters: Seq::empty(),
                        request_body: Some(body),
                        response: response_node,
                    },
                    response_schemas.push((post_name_of(path), body)),
                    desc.1,
                ),
                None => (
                    OperationV {
                        operation_id: path,
                        tag,
                        description: desc.0,
                        parameters: Seq::empty(),
                        request_body: None,
                        response: response_node,
                    },
                    response_schemas,
                    desc.1,
                ),
            }
        },
    }
}

/// The view of an optional declaration string.
pub open spec fn opt_decl_view(s: Option<&str>) -> Option<Seq<char>> {
    match s {
        Some(s) => Some(s@),
        None => None,
    }
}

/// The operation, named schemas and warnings one endpoint yields from
/// its raw declaration string. A missing string yields the bare
/// operation silently; a string that does not parse, or parses without
/// a `declaration` mapping, yields the bare operation and one warning.
pub open spec fn spec_operation(
    path: Seq<char>,
    method: ApiEndpointMethod,
    tag: Seq<char>,
    decl: Option<Seq<char>>,
) -> (OperationV, Seq<(Seq<char>, ObjectSchemaV)>, Seq<Warning>) {
    match decl {
        None => (bare_operation(path, tag), Seq::empty(), Seq::empty()),
        Some(s) => match yaml_tree_of(s) {
            None => (
                bare_operation(path, tag),
                Seq::empty(),
                seq![Warning::MalformedDeclaration],
            ),
            Some(tree) => match declaration_of(tree) {
                None => (
                    bare_operation(path, tag),
                    Seq::empty(),
                    seq![Warning::MalformedDeclaration],
                ),
                Some(d) => spec_operation_of_decl(path, method, tag, d),
            },
        },
    }
}

/// Builds one endpoint's operation from its plain parts: path, method,
/// tag and optional raw declaration string. Returns the operation, the
/// named schemas to merge into the registry (the response schema, then
/// a POST body schema), and the warnings raised.
pub fn get_operation_and_schema(
    path: &str,
    method: ApiEndpointMethod,
    tag: &str,
    declaration_str: Option<&str>,
) -> (r: (Operation, Vec<(String, ObjectSchema)>, Vec<Warning>))
    ensures
        ({
            let target = spec_operation(path@, method, tag@, opt_decl_view(declaration_str));
            &&& r.0@ == target.0
            &&& schemas_view(r.1@) == target.1
            &&& r.2@ == target.2
        }),
{
    let mut operation = Operation {
        operation_id: path.to_owned(),
        tag: tag.to_owned(),
        description: None,
        parameters: Vec::new(),
        request_body: None,
        response: None,
    };
    let mut schemas: Vec<(String, ObjectSchema)> = Vec::new();
    let mut warnings: Vec<Warning> = Vec::new();
    proof {
        assert(params_view(operation.parameters@) =~= Seq::<ParameterV>::empty());
        assert(schemas_view(schemas@) =~= Seq::<(Seq<char>, ObjectSchemaV)>::empty());
        assert(operation@ == bare_operation(path@, tag@));
    }
    let s = match declaration_str {
        Some(s) => s,
        None => {
            return (operation, schemas, warnings);
        },
    };
    let tree = match parse_yaml(s) {
        Some(t) => t,
        None => {
            warnings.push(Warning::MalformedDeclaration);
            proof {
                assert(warnings@ =~= seq![Warning::MalformedDeclaration]);
            }
            return (operation, schemas, warnings);
        },
    };
    let declaration = match get_declaration(&tree) {
        Some(d) => d,
        None => {
            warnings.push(Warning::MalformedDeclaration);
            proof {
                assert(warnings@ =~= seq![Warning::MalformedDeclaration]);
            }
            return (operation, schemas, warnings);
        },
    };
    match declaration.get("description") {
        Some(v) => match v.as_str() {
            Some(d) => {
                operation.description = Some(d.to_owned());
            },
            None => {
                warnings.push(Warning::DescriptionNotString);
                proof {
                    assert(warnings@ =~= seq![Warning::DescriptionNotString]);
                }
            },
        },
        None => {},
    }
    proof {
        let desc = description_outcome(*declaration);
        assert(opt_str_view(operation.description) == desc.0);
        assert(warnings@ == desc.1);
    }
    match get_response(declaration) {
        Some(wire_and_schema) => {
            let (wire, obj) = wire_and_schema;
            operation.response = Some(wire);
            let ghost old_schemas = schemas@;
            schemas.push((schema_name("Response", path), obj));
            proof {
                assert(schemas_view(schemas@) =~= schemas_view(old_schemas).push(
                    (schemas@.last().0@, schemas@.last().1@),
                ));
            }
        },
        None => {},
    }
    match method {
        ApiEndpointMethod::Get => {
            match get_query_params(declaration) {
                Some(ps) => {
                    operation.parameters = ps;
                },
                None => {},
            }
        },
        ApiEndpointMethod::Post => {
            match get_request_body(declaration) {
                Some(body) => {
                    let registry_body = match get_request_body(declaration) {
                        Some(b) => b,
                        None => vstd::pervasive::unreached(),
                    };
                    operation.request_body = Some(body);
                    let ghost old_schemas = schemas@;
                    schemas.push((schema_name("Post", path), registry_body));
                    proof {
                        assert(schemas_view(schemas@) =~= schemas_view(old_schemas).push(
                            (schemas@.last().0@, schemas@.last().1@),
                        ));
                    }
                },
                None => {},
            }
        },
    }
    proof {
        let target = spec_operation(path@, method, tag@, opt_decl_view(declaration_str));
        assert(operation@.operation_id == target.0.operation_id);
        assert(operation@.tag == target.0.tag);
        assert(operation@.description == target.0.description);
        assert(operation@.parameters == target.0.parameters);
        assert(operation@.request_body == target.0.request_body);
        assert(operation@.response == target.0.response);
        assert(operation@ == target.0);
        assert(schemas_view(schemas@) == target.1);
        assert(warnings@ == target.2);
    }
    (operation, schemas, warnings)
}

/// One endpoint described by plain values.
#[derive(Debug, PartialEq)]
pub struct EndpointDesc {
    pub path: String,
    pub method: ApiEndpointMethod,
    pub tag: String,
    pub declaration: Option<String>,
}

/// Mathematical form of `EndpointDesc`.
pub struct EndpointDescV {
    pub path: Seq<char>,
    pub method: ApiEndpointMethod,
    pub tag: Seq<char>,
    pub declaration: Option<Seq<char>>,
}

impl View for EndpointDesc {
    type V = EndpointDescV;

    open spec fn view(&self) -> EndpointDescV {
        EndpointDescV {
            path: self.path@,
            method: self.method,
            tag: self.tag@,
            declaration: opt_str_view(self.declaration),
        }
    }
}

/// One path item of the built document.
#[derive(Debug, PartialEq)]
pub struct PathEntry {
    pub path: String,
    pub method: ApiEndpointMethod,
    pub operation: Operation,
}

/// Mathematical form of `PathEntry`.
pub struct PathEntryV {
    pub path: Seq<char>,
    pub method: ApiEndpointMethod,
    pub operation: OperationV,
}

impl View for PathEntry {
    type V = PathEntryV;

    open spec fn view(&self) -> PathEntryV {
        PathEntryV { path: self.path@, method: self.method, operation: self.operation@ }
    }
}

/// The built API-description document: top-level info, one path entry
/// per endpoint in supply order, the accumulated named-schema registry,
/// and the warnings raised, each paired with its endpoint's path. Two
/// endpoints that derive the same schema name both appear in the
/// registry; the later entry supersedes the earlier when the document
/// is assembled.
#[derive(Debug, PartialEq)]
pub struct ApiDocument {
    pub title: String,
    pub version: String,
    pub paths: Vec<PathEntry>,
    pub schemas: Vec<(String, ObjectSchema)>,
    pub warnings: Vec<(String, Warning)>,
}

/// Mathematical form of `ApiDocument`.
pub struct ApiDocumentV {
    pub title: Seq<char>,
    pub version: Seq<char>,
    pub paths: Seq<PathEntryV>,
    pub schemas: Seq<(Seq<char>, ObjectSchemaV)>,
    pub warnings: Seq<(Seq<char>, Warning)>,
}

impl View for ApiDocument {
    type V = ApiDocumentV;

    open spec fn view(&self) -> ApiDocumentV {
        ApiDocumentV {
            title: self.title@,
            version: self.version@,
            paths: self.paths@.map_values(|p: PathEntry| p@),
            schemas: schemas_view(self.schemas@),
            warnings: self.warnings@.map_values(|w: (String, Warning)| (w.0@, w.1)),
        }
    }
}

/// An endpoint's warnings, each paired with its path.
pub open spec fn warn_pairs(path: Seq<char>, ws: Seq<Warning>) -> Seq<(Seq<char>, Warning)> {
    ws.map_values(|w: Warning| (path, w))
}

/// The document that a sequence of endpoints folds to, endpoint by
/// endpoint in supply order.
pub open spec fn spec_build_document(
    title: Seq<char>,
    version: Seq<char>,
    eps: Seq<EndpointDescV>,
) -> ApiDocumentV
    decreases eps.len(),
{
    if eps.len() == 0 {
        ApiDocumentV {
            title,
            version,
            paths: Seq::empty(),
            schemas: Seq::empty(),
            warnings: Seq::empty(),
        }
    } else {
        let prev = spec_build_document(title, version, eps.drop_last());
        let e = eps.last();
        let parts = spec_operation(e.path, e.method, e.tag, e.declaration);
        ApiDocumentV {
            title,
            version,
            paths: prev.paths.push(
                PathEntryV { path: e.path, method: e.method, operation: parts.0 },
            ),
            schemas: prev.schemas + parts.1,
            warnings: prev.warnings + warn_pairs(e.path, parts.2),
        }
    }
}

/// One step of `spec_build_document` along a prefix of the endpoints.
proof fn lemma_build_document_step(
    title: Seq<char>,
    version: Seq<char>,
    eps: Seq<EndpointDescV>,
    i: int,
)
    requires
        0 <= i < eps.len(),
    ensures
        spec_build_document(title, version, eps.subrange(0, i + 1)) == ({
            let prev = spec_build_document(title, version, eps.subrange(0, i));
            let e = eps[i];
            let parts = spec_operation(e.path, e.method, e.tag, e.declaration);
            ApiDocumentV {
                title,
                version,
                paths: prev.paths.push(
                    PathEntryV { path: e.path, method: e.method, operation: parts.0 },
                ),
                schemas: prev.schemas + parts.1,
                warnings: prev.warnings + warn_pairs(e.path, parts.2),
            }
        }),
{
    assert(eps.subrange(0, i + 1).drop_last() =~= eps.subrange(0, i));
    assert(eps.subrange(0, i + 1).last() == eps[i]);
}

/// Folds endpoints described by plain values into one document: one
/// path entry per endpoint, the registry of named schemas, and every
/// warning paired with the path of the endpoint that raised it.
pub fn build_document(title: &str, version: &str, endpoints: &Vec<EndpointDesc>) -> (doc:
    ApiDocument)
    ensures
        doc@ == spec_build_document(
            title@,
            version@,
            endpoints@.map_values(|e: EndpointDesc| e@),
        ),
{
    let mut doc = ApiDocument {
        title: title.to_owned(),
        version: version.to_owned(),
        paths: Vec::new(),
        schemas: Vec::new(),
        warnings: Vec::new(),
    };
    let ghost eps_v = endpoints@.map_values(|e: EndpointDesc| e@);
    let n = endpoints.len();
    let mut i: usize = 0;
    proof {
        assert(eps_v.subrange(0, 0) =~= Seq::<EndpointDescV>::empty());
        assert(doc@.paths =~= Seq::<PathEntryV>::empty());
        assert(doc@.schemas =~= Seq::<(Seq<char>, ObjectSchemaV)>::empty());
        assert(doc@.warnings =~= Seq::<(Seq<char>, Warning)>::empty());
    }
    while i < n
        invariant
            n == endpoints@.len(),
            0 <= i <= n,
            eps_v == endpoints@.map_values(|e: EndpointDesc| e@),
            doc.title@ == title@,
            doc.version@ == version@,
            doc@ == spec_build_document(title@, version@, eps_v.subrange(0, i as int)),
        decreases n - i,
    {
        proof {
            lemma_build_document_step(title@, version@, eps_v, i as int);
            assert(eps_v[i as int] == endpoints@[i as int]@);
        }
        let e = &endpoints[i];
        let decl: Option<&str> = match &e.declaration {
            Some(s) => Some(s.as_str()),
            None => None,
        };
        let parts = get_operation_and_schema(e.path.as_str(), e.method, e.tag.as_str(), decl);
        let (operation, mut new_schemas, new_warnings) = parts;
        let ghost old_doc = doc@;
        doc.paths.push(PathEntry { path: e.path.clone(), method: e.method, operation });
        proof {
            assert(doc@.paths =~= old_doc.paths.push(doc.paths@.last()@));
        }
        let ghost schemas_before = doc.schemas@;
        let ghost added_schemas = new_schemas@;
        doc.schemas.append(&mut new_schemas);
        proof {
            assert(schemas_view(doc.schemas@) =~= schemas_view(schemas_before) + schemas_view(
                added_schemas,
            ));
        }
        let ghost warnings_before = doc@.warnings;
        let m = new_warnings.len();
        let mut j: usize = 0;
        proof {
            assert(new_warnings@.subrange(0, 0) =~= Seq::<Warning>::empty());
            assert(warn_pairs(e.path@, new_warnings@.subrange(0, 0)) =~= Seq::<(
                Seq<char>,
                Warning,
            )>::empty());
            assert(doc@.warnings =~= warnings_before + warn_pairs(
                e.path@,
                new_warnings@.subrange(0, 0),
            ));
        }
        let ghost doc_snapshot = doc@;
        while j < m
            invariant
                m == new_warnings@.len(),
                0 <= j <= m,
                doc@.title == doc_snapshot.title,
                doc@.version == doc_snapshot.version,
                doc@.paths == doc_snapshot.paths,
                doc@.schemas == doc_snapshot.schemas,
                doc@.warnings == warnings_before + warn_pairs(
                    e.path@,
                    new_warnings@.subrange(0, j as int),
                ),
            decreases m - j,
        {
            let ghost before = doc@.warnings;
            doc.warnings.push((e.path.clone(), new_warnings[j]));
            proof {
                assert(doc@.warnings =~= before.push((e.path@, new_warnings@[j as int])));
                assert(warn_pairs(e.path@, new_warnings@.subrange(0, j as int + 1)) =~= warn_pairs(
                    e.path@,
                    new_warnings@.subrange(0, j as int),
                ).push((e.path@, new_warnings@[j as int])));
                assert(doc@.warnings =~= warnings_before + warn_pairs(
                    e.path@,
                    new_warnings@.subrange(0, j as int + 1),
                ));
            }
            j += 1;
        }
        proof {
            assert(new_warnings@.subrange(0, m as int) =~= new_warnings@);
            let target = spec_build_document(title@, version@, eps_v.subrange(0, i as int + 1));
            assert(doc@.title == target.title);
            assert(doc@.version == target.version);
            assert(doc@.paths == target.paths);
            assert(doc@.schemas == target.schemas);
            assert(doc@.warnings == target.warnings);
            assert(doc@ == target);
        }
        i += 1;
    }
    proof {
        assert(eps_v.subrange(0, n as int) =~= eps_v);
    }
    doc
}

/// Builds the whole API-description document for a project: reads each
/// endpoint's plain parts once through the host's descriptors, then
/// folds them with `build_document`, whose contract pins what every
/// endpoint contributes. Nothing is promised of the descriptors
/// themselves, so this adapter only states that the result is such a
/// fold.
pub fn build_open_api<P: ApiProject>(api_project: &P) -> (doc: ApiDocument)
    ensures
        exists|title: Seq<char>, version: Seq<char>, eps: Seq<EndpointDescV>|
            doc@ == spec_build_document(title, version, eps),
{
    let title = api_project.get_title().to_owned();
    let version = api_project.get_version().to_owned();
    let endpoints = api_project.get_endpoints();
    let mut eps: Vec<EndpointDesc> = Vec::new();
    let n = endpoints.len();
    let mut i: usize = 0;
    while i < n
        invariant
            0 <= i <= n,
            n == endpoints@.len(),
        decreases n - i,
    {
        let e = &endpoints[i];
        let path = e.get_url_path().to_owned();
        let method = *e.get_endpoint_method();
        let tag = e.get_endpoint_tag().to_owned();
        let declaration = match e.get_yml_declaration_str() {
            Some(s) => Some(s.to_owned()),
            None => None,
        };
        eps.push(EndpointDesc { path, method, tag, declaration });
        i += 1;
    }
    let doc = build_document(title.as_str(), version.as_str(), &eps);
    proof {
        assert(doc@ == spec_build_document(
            title@,
            version@,
            eps@.map_values(|e: EndpointDesc| e@),
        ));
    }
    doc
}

} // verus!
