//! Resolved schema nodes: the typed output of the field-declaration
//! translator, together with their mathematical views.
use vstd::prelude::*;

verus! {

/// The scalar kind that a schema constrains its values to. A composite
/// schema, and a field whose declared type is unrecognized, carry no kind.
#[derive(Clone, Copy, PartialEq, Eq, Structural, Debug)]
pub enum SchemaKind {
    Text,
    Numeric,
    Boolean,
}

/// A scalar or composite schema. `required` lists the property names the
/// schema marks as required, in the order they were appended.
#[derive(Debug, PartialEq)]
pub struct ObjectSchema {
    pub kind: Option<SchemaKind>,
    pub description: Option<String>,
    pub enum_values: Option<Vec<String>>,
    pub properties: Vec<(String, SchemaNode)>,
    pub required: Vec<String>,
}

/// A resolved schema node: a scalar/composite schema, or an array schema
/// with an optional item schema. An array without a declared item schema
/// holds `None`.
#[derive(Debug, PartialEq)]
pub enum SchemaNode {
    Object(ObjectSchema),
    Array(Option<Box<SchemaNode>>),
}

/// Mathematical form of `ObjectSchema`.
pub struct ObjectSchemaV {
    pub kind: Option<SchemaKind>,
    pub description: Option<Seq<char>>,
    pub enum_values: Option<Seq<Seq<char>>>,
    pub properties: Seq<(Seq<char>, SchemaNodeV)>,
    pub required: Seq<Seq<char>>,
}

/// Mathematical form of `SchemaNode`.
pub enum SchemaNodeV {
    Object(ObjectSchemaV),
    Array(Option<Box<SchemaNodeV>>),
}

/// The views of a sequence of strings.
pub open spec fn strs_view(ss: Seq<String>) -> Seq<Seq<char>> {
    ss.map_values(|s: String| s@)
}

/// The view of an optional string.
pub open spec fn opt_str_view(s: Option<String>) -> Option<Seq<char>> {
    match s {
        Some(s) => Some(s@),
        None => None,
    }
}

/// The view of a schema node, by structural descent.
pub open spec fn schema_node_view(n: SchemaNode) -> SchemaNodeV
    decreases n,
{
    match n {
        SchemaNode::Object(o) => SchemaNodeV::Object(
            ObjectSchemaV {
                kind: o.kind,
                description: opt_str_view(o.description),
                enum_values: match o.enum_values {
                    Some(vs) => Some(strs_view(vs@)),
                    None => None,
                },
                properties: props_view(o.properties@),
                required: strs_view(o.required@),
            },
        ),
        SchemaNode::Array(item) => SchemaNodeV::Array(
            match item {
                Some(b) => Some(Box::new(schema_node_view(*b))),
                None => None,
            },
        ),
    }
}

/// The views of a sequence of named schema nodes.
pub open spec fn props_view(ps: Seq<(String, SchemaNode)>) -> Seq<(Seq<char>, SchemaNodeV)>
    decreases ps,
{
    if ps.len() == 0 {
        Seq::empty()
    } else {
        props_view(ps.drop_last()).push((ps.last().0@, schema_node_view(ps.last().1)))
    }
}

impl View for SchemaNode {
    type V = SchemaNodeV;

    open spec fn view(&self) -> SchemaNodeV {
        schema_node_view(*self)
    }
}

impl View for ObjectSchema {
    type V = ObjectSchemaV;

    open spec fn view(&self) -> ObjectSchemaV {
        schema_node_view(SchemaNode::Object(*self))->Object_0
    }
}

/// A property list's view grows by one entry when the list does.
pub proof fn lemma_props_view_push(ps: Seq<(String, SchemaNode)>, p: (String, SchemaNode))
    ensures
        props_view(ps.push(p)) == props_view(ps).push((p.0@, schema_node_view(p.1))),
{
    assert(ps.push(p).drop_last() =~= ps);
    assert(ps.push(p).last() == p);
}

/// A string list's view grows by one entry when the list does.
pub proof fn lemma_strs_view_push(ss: Seq<String>, s: String)
    ensures
        strs_view(ss.push(s)) == strs_view(ss).push(s@),
{
    assert(strs_view(ss.push(s)) =~= strs_view(ss).push(s@));
}

} // verus!
