//! Response schema extraction from a declaration's `response.fields`
//! list.
use vstd::prelude::*;

use crate::schema::{schema_node_view, ObjectSchema, ObjectSchemaV, SchemaNode, SchemaNodeV};
use crate::utils::{build_composite, composite_of};
use crate::yaml::Yaml;

verus! {

/// The response a declaration asks for: present exactly when
/// `response.fields` is a non-empty list. The first component is the
/// JSON response content's schema, an array of the composite item
/// schema; the second is the raw item schema, kept for the registry.
pub open spec fn spec_response(d: Yaml) -> Option<(SchemaNodeV, ObjectSchemaV)> {
    match d.get_spec("response"@) {
        Some(resp) => match resp.get_spec("fields"@) {
            Some(fs) => match fs {
                Yaml::Sequence(list) => if list@.len() == 0 {
                    None
                } else {
                    Some(
                        (
                            SchemaNodeV::Array(
                                Some(Box::new(SchemaNodeV::Object(composite_of(list@)))),
                            ),
                            composite_of(list@),
                        ),
                    )
                },
                _ => None,
            },
            None => None,
        },
        None => None,
    }
}

/// Extracts the response of an operation from `response.fields`: every
/// response is implicitly a list, so the wire schema is an array whose
/// item is the composite of the listed fields.
pub fn get_response(schema_map: &Yaml) -> (r: Option<(SchemaNode, ObjectSchema)>)
    ensures
        match r {
            Some(p) => spec_response(*schema_map) == Some((p.0@, p.1@)),
            None => spec_response(*schema_map) is None,
        },
{
    let resp = match schema_map.get("response") {
        Some(v) => v,
        None => {
            return None;
        },
    };
    let fields = match resp.get("fields") {
        Some(v) => v,
        None => {
            return None;
        },
    };
    let list = match fields.as_sequence() {
        Some(l) => l,
        None => {
            return None;
        },
    };
    if list.len() == 0 {
        return None;
    }
    let item = build_composite(list);
    let registry_schema = build_composite(list);
    let wire = SchemaNode::Array(Some(Box::new(SchemaNode::Object(item))));
    proof {
        assert(wire@ == SchemaNodeV::Array(
            Some(Box::new(schema_node_view(SchemaNode::Object(item)))),
        ));
    }
    Some((wire, registry_schema))
}

} // verus!
