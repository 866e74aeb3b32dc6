//! The library's laws: what holds of every built operation, stated over
//! the specification functions that the executable contracts use.
use vstd::prelude::*;

use crate::params::{param_items, ParameterLocation};
use crate::parse::declaration_of;
use crate::response::spec_response;
use crate::schema::SchemaNodeV;
use crate::swagger::{
    bare_operation, post_name_of, response_name_of, spec_operation, spec_operation_of_decl,
    Warning,
};
use crate::types::ApiEndpointMethod;
use crate::utils::{
    composite_of, enum_of, named_names, nested_props, resolve_spec, string_items, type_name_of,
};
use crate::yaml::Yaml;

verus! {

/// An endpoint without a declaration string yields the bare operation:
/// no parameters, no request body, no response, no named schemas and no
/// warning.
pub proof fn lemma_missing_declaration(
    path: Seq<char>,
    method: ApiEndpointMethod,
    tag: Seq<char>,
)
    ensures
        ({
            let parts = spec_operation(path, method, tag, None);
            &&& parts.0 == bare_operation(path, tag)
            &&& parts.0.parameters.len() == 0
            &&& parts.0.request_body is None
            &&& parts.0.response is None
            &&& parts.1.len() == 0
            &&& parts.2.len() == 0
        }),
{
}

/// A declaration string that does not parse, or parses to a document
/// without a `declaration` mapping, yields exactly the no-declaration
/// result, plus one observable warning.
pub proof fn lemma_malformed_declaration(
    path: Seq<char>,
    method: ApiEndpointMethod,
    tag: Seq<char>,
    s: Seq<char>,
)
    requires
        match crate::parse::yaml_tree_of(s) {
            None => true,
            Some(tree) => declaration_of(tree) is None,
        },
    ensures
        ({
            let parts = spec_operation(path, method, tag, Some(s));
            let missing = spec_operation(path, method, tag, None);
            &&& parts.0 == missing.0
            &&& parts.1 == missing.1
            &&& parts.2 == seq![Warning::MalformedDeclaration]
        }),
{
}

/// A parameter list carries one entry per named field spec, in declared
/// order, each in the asked-for location; entries without a name are
/// excluded and do not shift the count. Every parameter is string-typed
/// and required by construction.
pub proof fn lemma_param_items_shape(items: Seq<Yaml>, loc: ParameterLocation)
    ensures
        param_items(items, loc).len() == named_names(items).len(),
        forall|k: int|
            0 <= k < param_items(items, loc).len() ==> (#[trigger] param_items(items, loc)[k]).name
                == named_names(items)[k] && param_items(items, loc)[k].location == loc,
    decreases items.len(),
{
    if items.len() > 0 {
        lemma_param_items_shape(items.drop_last(), loc);
    }
}

/// A GET endpoint whose declaration carries an `allowlist.query` list
/// gets exactly its parameters: one query parameter per named entry, in
/// declared order.
pub proof fn lemma_get_query_parameters(
    path: Seq<char>,
    tag: Seq<char>,
    d: Yaml,
    list: Seq<Yaml>,
)
    requires
        d.get_spec("allowlist"@) matches Some(a) && a.get_spec("query"@) matches Some(q) && q
            is Sequence && q->Sequence_0@ == list,
    ensures
        ({
            let op = spec_operation_of_decl(path, ApiEndpointMethod::Get, tag, d).0;
            &&& op.parameters == param_items(list, ParameterLocation::Query)
            &&& op.parameters.len() == named_names(list).len()
            &&& forall|k: int|
                0 <= k < op.parameters.len() ==> (#[trigger] op.parameters[k]).name
                    == named_names(list)[k] && op.parameters[k].location
                    == ParameterLocation::Query
        }),
{
    lemma_param_items_shape(list, ParameterLocation::Query);
}

/// A composite schema carries one property per named field spec, in
/// declared order, and marks exactly the named entries required, in the
/// same order; each property resolves its own entry's declared type.
pub proof fn lemma_nested_props_shape(items: Seq<Yaml>)
    ensures
        nested_props(items).len() == named_names(items).len(),
        forall|k: int|
            0 <= k < nested_props(items).len() ==> (#[trigger] nested_props(items)[k]).0
                == named_names(items)[k],
    decreases items.len(),
{
    if items.len() > 0 {
        lemma_nested_props_shape(items.drop_last());
    }
}

/// A POST endpoint whose declaration carries an `allowlist.body` list
/// gets the composite of those fields as its request body: one property
/// per named entry, each marked required, and a registry entry under
/// the endpoint's derived `Post` name.
pub proof fn lemma_post_request_body(
    path: Seq<char>,
    tag: Seq<char>,
    d: Yaml,
    list: Seq<Yaml>,
)
    requires
        d.get_spec("allowlist"@) matches Some(a) && a.get_spec("body"@) matches Some(b) && b
            is Sequence && b->Sequence_0@ == list,
    ensures
        ({
            let parts = spec_operation_of_decl(path, ApiEndpointMethod::Post, tag, d);
            &&& parts.0.request_body == Some(composite_of(list))
            &&& composite_of(list).required == named_names(list)
            &&& composite_of(list).properties.len() == named_names(list).len()
            &&& forall|k: int|
                0 <= k < composite_of(list).properties.len() ==> (#[trigger] composite_of(
                    list,
                ).properties[k]).0 == named_names(list)[k]
            &&& parts.1.last() == (post_name_of(path), composite_of(list))
        }),
{
    lemma_nested_props_shape(list);
}

/// An object-typed field spec resolves to a composite with one property
/// per named nested entry; the entries whose `optional` flag is truthy
/// are the ones marked required, reproducing the source's inverted
/// reading of that flag.
pub proof fn lemma_resolve_object(f: Yaml)
    requires
        type_name_of(f) == "object"@,
    ensures
        resolve_spec(f) matches SchemaNodeV::Object(o) && o.kind is None && o.properties
            == nested_props(crate::utils::fields_list_of(f)) && o.required
            == crate::utils::optional_names(crate::utils::fields_list_of(f)),
{
    lemma_nested_props_shape(crate::utils::fields_list_of(f));
    reveal_strlit("object");
    reveal_strlit("array");
    reveal_strlit("string");
    reveal_strlit("timestamp");
    reveal_strlit("number");
    reveal_strlit("integer");
    reveal_strlit("boolean");
    reveal_strlit("bool");
    assert(("object"@).len() == 6 && ("array"@).len() == 5 && ("timestamp"@).len() == 9 && (
    "integer"@).len() == 7 && ("boolean"@).len() == 7 && ("bool"@).len() == 4);
    assert(type_name_of(f) != "array"@);
    assert(("object"@) != ("string"@)) by {
        assert(("object"@)[0] == 'o' && ("string"@)[0] == 's');
    }
    assert(("object"@) != ("number"@)) by {
        assert(("object"@)[0] == 'o' && ("number"@)[0] == 'n');
    }
    assert(crate::utils::kind_of("object"@) is None);
    assert((match f.get_spec("fields"@) {
        Some(v) => match v {
            Yaml::Sequence(list) => nested_props(list@),
            _ => Seq::<(Seq<char>, SchemaNodeV)>::empty(),
        },
        None => Seq::<(Seq<char>, SchemaNodeV)>::empty(),
    }) == nested_props(crate::utils::fields_list_of(f)));
}

/// An array-typed field spec resolves to an array schema whose item is
/// the resolution of its `items` sub-spec, or to an array without an
/// item schema when `items` is absent.
pub proof fn lemma_resolve_array(f: Yaml)
    requires
        type_name_of(f) == "array"@,
    ensures
        resolve_spec(f) == (match f.get_spec("items"@) {
            Some(items) => SchemaNodeV::Array(Some(Box::new(resolve_spec(items)))),
            None => SchemaNodeV::Array(None),
        }),
{
}

/// A string-typed field spec with an `enum` list of strings resolves to
/// a string schema restricted to exactly those values, in declared
/// order; entries of any other shape are dropped.
pub proof fn lemma_resolve_string_enum(f: Yaml)
    requires
        type_name_of(f) == "string"@ || type_name_of(f) == "timestamp"@,
    ensures
        resolve_spec(f) matches SchemaNodeV::Object(o) && o.kind == Some(
            crate::schema::SchemaKind::Text,
        ) && o.enum_values == enum_of(f),
{
    reveal_strlit("string");
    reveal_strlit("timestamp");
    reveal_strlit("array");
    assert(("string"@).len() == 6 && ("timestamp"@).len() == 9 && ("array"@).len() == 5);
    assert(type_name_of(f) != "array"@);
}

/// A list whose entries are all strings keeps exactly those strings, in
/// order, when its string entries are collected.
pub proof fn lemma_string_items_all_strings(items: Seq<Yaml>)
    requires
        forall|k: int| 0 <= k < items.len() ==> (#[trigger] items[k]) is Str,
    ensures
        string_items(items).len() == items.len(),
        forall|k: int|
            0 <= k < items.len() ==> #[trigger] string_items(items)[k] == items[k]->Str_0@,
    decreases items.len(),
{
    if items.len() > 0 {
        assert(forall|k: int|
            0 <= k < items.drop_last().len() ==> (#[trigger] items.drop_last()[k]) is Str);
        lemma_string_items_all_strings(items.drop_last());
    }
}

/// A declaration with a non-empty `response.fields` list gives its
/// operation a response whose schema is an array of the composite of
/// those fields, and adds that composite to the registry, first, under
/// the endpoint's derived `Response` name, whatever the method.
pub proof fn lemma_response_schema(
    path: Seq<char>,
    method: ApiEndpointMethod,
    tag: Seq<char>,
    d: Yaml,
    list: Seq<Yaml>,
)
    requires
        d.get_spec("response"@) matches Some(r) && r.get_spec("fields"@) matches Some(fs) && fs
            is Sequence && fs->Sequence_0@ == list && list.len() > 0,
    ensures
        ({
            let parts = spec_operation_of_decl(path, method, tag, d);
            &&& parts.0.response == Some(
                SchemaNodeV::Array(Some(Box::new(SchemaNodeV::Object(composite_of(list))))),
            )
            &&& parts.1.len() >= 1
            &&& parts.1[0] == (response_name_of(path), composite_of(list))
        }),
{
}

/// A declaration whose `response.fields` list is empty, absent or not a
/// list gives its operation no response and no `Response` registry
/// entry: at most a POST body entry stands in the registry.
pub proof fn lemma_no_response_schema(
    path: Seq<char>,
    method: ApiEndpointMethod,
    tag: Seq<char>,
    d: Yaml,
)
    requires
        spec_response(d) is None,
    ensures
        ({
            let parts = spec_operation_of_decl(path, method, tag, d);
            &&& parts.0.response is None
            &&& forall|k: int|
                0 <= k < parts.1.len() ==> (#[trigger] parts.1[k]).0 == post_name_of(path)
        }),
{
}

} // verus!
