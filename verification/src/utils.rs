//! The recursive field-declaration-to-schema translator and its
//! mathematical model.
use vstd::prelude::*;

use crate::schema::{
    lemma_props_view_push, lemma_strs_view_push, props_view, strs_view, ObjectSchema,
    ObjectSchemaV, SchemaKind, SchemaNode, SchemaNodeV,
};
use crate::yaml::{entry_key_matches, lookup, str_eq, Yaml};

verus! {

/// The string value of the attribute `key`, when present and a string.
pub open spec fn attr_str(f: Yaml, key: Seq<char>) -> Option<Seq<char>> {
    match f.get_spec(key) {
        Some(v) => v.str_spec(),
        None => None,
    }
}

/// A field spec's name; entries without one are dropped by every caller.
pub open spec fn name_of(f: Yaml) -> Option<Seq<char>> {
    attr_str(f, "field"@)
}

/// A field spec's description, coerced to the empty string when absent
/// or not a string.
pub open spec fn description_of(f: Yaml) -> Seq<char> {
    match attr_str(f, "description"@) {
        Some(d) => d,
        None => Seq::empty(),
    }
}

/// A field spec's declared type name, defaulting to `string` when absent
/// or not a string.
pub open spec fn type_name_of(f: Yaml) -> Seq<char> {
    match attr_str(f, "type"@) {
        Some(t) => t,
        None => "string"@,
    }
}

/// A field spec's `optional` flag, defaulting to false when absent or not
/// a boolean.
pub open spec fn optional_flag_of(f: Yaml) -> bool {
    match f.get_spec("optional"@) {
        Some(v) => match v.bool_spec() {
            Some(b) => b,
            None => false,
        },
        None => false,
    }
}

/// The nested field-spec list of an object-typed field spec.
pub open spec fn fields_list_of(f: Yaml) -> Seq<Yaml> {
    match f.get_spec("fields"@) {
        Some(v) => match v {
            Yaml::Sequence(list) => list@,
            _ => Seq::empty(),
        },
        None => Seq::empty(),
    }
}

/// The scalar kind a declared type name maps to; `object`, `array` and
/// unrecognized names map to none.
pub open spec fn kind_of(tn: Seq<char>) -> Option<SchemaKind> {
    if tn == "string"@ || tn == "timestamp"@ {
        Some(SchemaKind::Text)
    } else if tn == "number"@ || tn == "integer"@ {
        Some(SchemaKind::Numeric)
    } else if tn == "boolean"@ || tn == "bool"@ {
        Some(SchemaKind::Boolean)
    } else {
        None
    }
}

/// The string entries of a list, in order; entries of any other shape are
/// dropped.
pub open spec fn string_items(items: Seq<Yaml>) -> Seq<Seq<char>>
    decreases items.len(),
{
    if items.len() == 0 {
        Seq::empty()
    } else {
        let init = string_items(items.drop_last());
        match items.last().str_spec() {
            Some(s) => init.push(s),
            None => init,
        }
    }
}

/// The allowed-value set of a string-typed field spec: present exactly
/// when the `enum` attribute is a list.
pub open spec fn enum_of(f: Yaml) -> Option<Seq<Seq<char>>> {
    match f.get_spec("enum"@) {
        Some(v) => match v {
            Yaml::Sequence(list) => Some(string_items(list@)),
            _ => None,
        },
        None => None,
    }
}

/// The names of the named entries whose `optional` flag is truthy, in
/// order: the inverted required-marking that nested object fields get.
pub open spec fn optional_names(fs: Seq<Yaml>) -> Seq<Seq<char>>
    decreases fs.len(),
{
    if fs.len() == 0 {
        Seq::empty()
    } else {
        let init = optional_names(fs.drop_last());
        match name_of(fs.last()) {
            Some(n) => if optional_flag_of(fs.last()) {
                init.push(n)
            } else {
                init
            },
            None => init,
        }
    }
}

/// The names of all named entries, in order: the unconditional
/// required-marking that appended top-level fields get.
pub open spec fn named_names(fs: Seq<Yaml>) -> Seq<Seq<char>>
    decreases fs.len(),
{
    if fs.len() == 0 {
        Seq::empty()
    } else {
        let init = named_names(fs.drop_last());
        match name_of(fs.last()) {
            Some(n) => init.push(n),
            None => init,
        }
    }
}

/// A value looked up in a mapping stands below the entry list.
pub proof fn lemma_lookup_smaller(entries: Seq<(Yaml, Yaml)>, key: Seq<char>)
    ensures
        match lookup(entries, key) {
            Some(v) => decreases_to!(entries => v),
            None => true,
        },
    decreases entries.len(),
{
    if entries.len() > 0 {
        if entry_key_matches(entries[0], key) {
            assert(decreases_to!(entries => entries[0]));
            assert(decreases_to!(entries[0] => entries[0].1));
        } else {
            lemma_lookup_smaller(entries.drop_first(), key);
            assert(decreases_to!(entries => entries.drop_first()));
        }
    }
}

/// An attribute's value stands below the field spec that carries it.
pub proof fn lemma_get_smaller(f: Yaml, key: Seq<char>)
    ensures
        match f.get_spec(key) {
            Some(v) => decreases_to!(f => v),
            None => true,
        },
{
    match f {
        Yaml::Mapping(entries) => {
            assert(decreases_to!(f => f->Mapping_0));
            assert(decreases_to!(entries => entries@));
            lemma_lookup_smaller(entries@, key);
        },
        _ => {},
    }
}

/// The schema node a field spec resolves to.
pub open spec fn resolve_spec(f: Yaml) -> SchemaNodeV
    decreases f,
    via resolve_spec_dec
{
    let tn = type_name_of(f);
    if tn == "array"@ {
        match f.get_spec("items"@) {
            Some(items) => SchemaNodeV::Array(Some(Box::new(resolve_spec(items)))),
            None => SchemaNodeV::Array(None),
        }
    } else {
        SchemaNodeV::Object(
            ObjectSchemaV {
                kind: kind_of(tn),
                description: Some(description_of(f)),
                enum_values: if tn == "string"@ || tn == "timestamp"@ {
                    enum_of(f)
                } else {
                    None
                },
                properties: if tn == "object"@ {
                    match f.get_spec("fields"@) {
                        Some(v) => match v {
                            Yaml::Sequence(list) => nested_props(list@),
                            _ => Seq::empty(),
                        },
                        None => Seq::empty(),
                    }
                } else {
                    Seq::empty()
                },
                required: if tn == "object"@ {
                    optional_names(fields_list_of(f))
                } else {
                    Seq::empty()
                },
            },
        )
    }
}

/// The named properties of a nested field-spec list, each resolved.
pub open spec fn nested_props(fs: Seq<Yaml>) -> Seq<(Seq<char>, SchemaNodeV)>
    decreases fs,
    via nested_props_dec
{
    if fs.len() == 0 {
        Seq::empty()
    } else {
        let init = nested_props(fs.drop_last());
        match name_of(fs.last()) {
            Some(n) => init.push((n, resolve_spec(fs.last()))),
            None => init,
        }
    }
}

#[via_fn]
proof fn resolve_spec_dec(f: Yaml) {
    lemma_get_smaller(f, "items"@);
    lemma_get_smaller(f, "fields"@);
    match f.get_spec("fields"@) {
        Some(v) => {
            match v {
                Yaml::Sequence(list) => {
                    assert(decreases_to!(v => v->Sequence_0));
                    assert(decreases_to!(list => list@));
                },
                _ => {},
            }
        },
        None => {},
    }
}

#[via_fn]
proof fn nested_props_dec(fs: Seq<Yaml>) {
    if fs.len() > 0 {
        assert(decreases_to!(fs => fs[fs.len() - 1]));
        assert(decreases_to!(fs => fs.drop_last()));
    }
}

/// One step of `string_items` along a prefix of the list.
pub proof fn lemma_string_items_step(items: Seq<Yaml>, i: int)
    requires
        0 <= i < items.len(),
    ensures
        string_items(items.subrange(0, i + 1)) == (match items[i].str_spec() {
            Some(s) => string_items(items.subrange(0, i)).push(s),
            None => string_items(items.subrange(0, i)),
        }),
{
    assert(items.subrange(0, i + 1).drop_last() =~= items.subrange(0, i));
    assert(items.subrange(0, i + 1).last() == items[i]);
}

/// One step of `nested_props` and `optional_names` along a prefix of the
/// list.
pub proof fn lemma_nested_step(fs: Seq<Yaml>, i: int)
    requires
        0 <= i < fs.len(),
    ensures
        nested_props(fs.subrange(0, i + 1)) == (match name_of(fs[i]) {
            Some(n) => nested_props(fs.subrange(0, i)).push((n, resolve_spec(fs[i]))),
            None => nested_props(fs.subrange(0, i)),
        }),
        optional_names(fs.subrange(0, i + 1)) == (match name_of(fs[i]) {
            Some(n) => if optional_flag_of(fs[i]) {
                optional_names(fs.subrange(0, i)).push(n)
            } else {
                optional_names(fs.subrange(0, i))
            },
            None => optional_names(fs.subrange(0, i)),
        }),
        named_names(fs.subrange(0, i + 1)) == (match name_of(fs[i]) {
            Some(n) => named_names(fs.subrange(0, i)).push(n),
            None => named_names(fs.subrange(0, i)),
        }),
{
    assert(fs.subrange(0, i + 1).drop_last() =~= fs.subrange(0, i));
    assert(fs.subrange(0, i + 1).last() == fs[i]);
}

/// The string entries of an `enum` list, each cloned out.
fn collect_strings(items: &Vec<Yaml>) -> (r: Vec<String>)
    ensures
        strs_view(r@) == string_items(items@),
{
    let mut r: Vec<String> = Vec::new();
    let n = items.len();
    let mut i: usize = 0;
    proof {
        assert(items@.subrange(0, 0) =~= Seq::<Yaml>::empty());
        assert(strs_view(r@) =~= Seq::<Seq<char>>::empty());
    }
    while i < n
        invariant
            n == items@.len(),
            0 <= i <= n,
            strs_view(r@) == string_items(items@.subrange(0, i as int)),
        decreases n - i,
    {
        proof {
            lemma_string_items_step(items@, i as int);
        }
        match items[i].as_str() {
            Some(s) => {
                let ghost old_r = r@;
                r.push(s.to_owned());
                proof {
                    lemma_strs_view_push(old_r, r@.last());
                }
            },
            None => {},
        }
        i += 1;
    }
    proof {
        assert(items@.subrange(0, n as int) =~= items@);
    }
    r
}

/// Resolves one field spec to a schema node, by recursive descent over
/// the declared type: scalars, objects with named properties, arrays
/// with an optional item schema. Every input resolves to some node.
pub fn parse_type(field: &Yaml) -> (r: SchemaNode)
    ensures
        r@ == resolve_spec(*field),
    decreases *field,
{
    let description: String = match field.get("description") {
        Some(d) => match d.as_str() {
            Some(s) => s.to_owned(),
            None => String::new(),
        },
        None => String::new(),
    };
    let tn: &str = match field.get("type") {
        Some(t) => match t.as_str() {
            Some(s) => s,
            None => "string",
        },
        None => "string",
    };
    proof {
        assert(description@ == description_of(*field));
        assert(tn@ == type_name_of(*field));
    }
    if str_eq(tn, "array") {
        match field.get("items") {
            Some(items) => {
                proof {
                    lemma_get_smaller(*field, "items"@);
                }
                let inner = parse_type(items);
                SchemaNode::Array(Some(Box::new(inner)))
            },
            None => SchemaNode::Array(None),
        }
    } else {
        let is_string = str_eq(tn, "string") || str_eq(tn, "timestamp");
        let enum_values: Option<Vec<String>> = if is_string {
            match field.get("enum") {
                Some(e) => match e.as_sequence() {
                    Some(items) => Some(collect_strings(items)),
                    None => None,
                },
                None => None,
            }
        } else {
            None
        };
        let kind: Option<SchemaKind> = if is_string {
            Some(SchemaKind::Text)
        } else if str_eq(tn, "number") || str_eq(tn, "integer") {
            Some(SchemaKind::Numeric)
        } else if str_eq(tn, "boolean") || str_eq(tn, "bool") {
            Some(SchemaKind::Boolean)
        } else {
            None
        };
        let mut properties: Vec<(String, SchemaNode)> = Vec::new();
        let mut required: Vec<String> = Vec::new();
        if str_eq(tn, "object") {
            match field.get("fields") {
                Some(v) => match v.as_sequence() {
                    Some(list) => {
                        let n = list.len();
                        let mut i: usize = 0;
                        proof {
                            assert(list@.subrange(0, 0) =~= Seq::<Yaml>::empty());
                            assert(props_view(properties@) =~= Seq::<(
                                Seq<char>,
                                SchemaNodeV,
                            )>::empty());
                            assert(strs_view(required@) =~= Seq::<Seq<char>>::empty());
                        }
                        while i < n
                            invariant
                                n == list@.len(),
                                0 <= i <= n,
                                field.get_spec("fields"@) == Some(*v),
                                *v == Yaml::Sequence(*list),
                                props_view(properties@) == nested_props(
                                    list@.subrange(0, i as int),
                                ),
                                strs_view(required@) == optional_names(
                                    list@.subrange(0, i as int),
                                ),
                            decreases n - i,
                        {
                            proof {
                                lemma_nested_step(list@, i as int);
                            }
                            let inner_field = &list[i];
                            match inner_field.get("field") {
                                Some(nm) => match nm.as_str() {
                                    Some(name) => {
                                        let optional_flag = match inner_field.get("optional") {
                                            Some(o) => match o.as_bool() {
                                                Some(b) => b,
                                                None => false,
                                            },
                                            None => false,
                                        };
                                        proof {
                                            lemma_get_smaller(*field, "fields"@);
                                            assert(decreases_to!(*v => v->Sequence_0));
                                            assert(decreases_to!(*list => list@));
                                            assert(decreases_to!(list@ => list@[i as int]));
                                        }
                                        let node = parse_type(inner_field);
                                        let ghost old_props = properties@;
                                        let ghost old_req = required@;
                                        properties.push((name.to_owned(), node));
                                        proof {
                                            lemma_props_view_push(old_props, properties@.last());
                                        }
                                        if optional_flag {
                                            required.push(name.to_owned());
                                            proof {
                                                lemma_strs_view_push(old_req, required@.last());
                                            }
                                        }
                                    },
                                    None => {},
                                },
                                None => {},
                            }
                            i += 1;
                        }
                        proof {
                            assert(list@.subrange(0, n as int) =~= list@);
                            assert(props_view(properties@) == nested_props(list@));
                            assert(field.get_spec("fields"@) == Some(Yaml::Sequence(*list)));
                        }
                    },
                    None => {},
                },
                None => {},
            }
        }
        proof {
            assert(props_view(properties@) == (if type_name_of(*field) == "object"@ {
                match field.get_spec("fields"@) {
                    Some(v) => match v {
                        Yaml::Sequence(list) => nested_props(list@),
                        _ => Seq::<(Seq<char>, SchemaNodeV)>::empty(),
                    },
                    None => Seq::<(Seq<char>, SchemaNodeV)>::empty(),
                }
            } else {
                Seq::<(Seq<char>, SchemaNodeV)>::empty()
            }));
        }
        let r = SchemaNode::Object(
            ObjectSchema {
                kind,
                description: Some(description),
                enum_values,
                properties,
                required,
            },
        );
        proof {
            assert(fields_list_of(*field) == (match field.get_spec("fields"@) {
                Some(v) => match v {
                    Yaml::Sequence(list) => list@,
                    _ => Seq::<Yaml>::empty(),
                },
                None => Seq::<Yaml>::empty(),
            }));
            let target = resolve_spec(*field);
            assert(target is Object);
            assert(r@->Object_0.kind == target->Object_0.kind);
            assert(r@->Object_0.description == target->Object_0.description);
            assert(r@->Object_0.enum_values == target->Object_0.enum_values);
            assert(r@->Object_0.properties == target->Object_0.properties);
            assert(r@->Object_0.required == target->Object_0.required);
            assert(r@ == target);
        }
        r
    }
}

/// What appending one field spec does to a composite schema: named
/// entries become a property and are marked required unconditionally;
/// unnamed entries are dropped.
pub open spec fn append_field_spec(f: Yaml, o: ObjectSchemaV) -> ObjectSchemaV {
    match name_of(f) {
        Some(n) => ObjectSchemaV {
            properties: o.properties.push((n, resolve_spec(f))),
            required: o.required.push(n),
            ..o
        },
        None => o,
    }
}

/// Appends one field spec to a composite schema as a named, required
/// property; a spec without a name leaves the schema unchanged.
pub fn append_field(field: &Yaml, object: ObjectSchema) -> (r: ObjectSchema)
    ensures
        r@ == append_field_spec(*field, object@),
{
    let name: Option<&str> = match field.get("field") {
        Some(v) => v.as_str(),
        None => None,
    };
    match name {
        None => object,
        Some(n) => {
            let node = parse_type(field);
            let mut object = object;
            let ghost old_props = object.properties@;
            let ghost old_req = object.required@;
            object.properties.push((n.to_owned(), node));
            object.required.push(n.to_owned());
            proof {
                lemma_props_view_push(old_props, object.properties@.last());
                lemma_strs_view_push(old_req, object.required@.last());
            }
            object
        },
    }
}

/// The composite schema that a field-spec list folds to: one property
/// per named entry, each marked required, no kind and no description.
pub open spec fn composite_of(fs: Seq<Yaml>) -> ObjectSchemaV {
    ObjectSchemaV {
        kind: None,
        description: None,
        enum_values: None,
        properties: nested_props(fs),
        required: named_names(fs),
    }
}

/// Folds a field-spec list into one composite schema.
pub fn build_composite(fields: &Vec<Yaml>) -> (r: ObjectSchema)
    ensures
        r@ == composite_of(fields@),
{
    let mut object = ObjectSchema {
        kind: None,
        description: None,
        enum_values: None,
        properties: Vec::new(),
        required: Vec::new(),
    };
    let n = fields.len();
    let mut i: usize = 0;
    proof {
        assert(fields@.subrange(0, 0) =~= Seq::<Yaml>::empty());
        assert(props_view(object.properties@) =~= Seq::<(Seq<char>, SchemaNodeV)>::empty());
        assert(strs_view(object.required@) =~= Seq::<Seq<char>>::empty());
    }
    while i < n
        invariant
            n == fields@.len(),
            0 <= i <= n,
            object@ == composite_of(fields@.subrange(0, i as int)),
        decreases n - i,
    {
        proof {
            lemma_nested_step(fields@, i as int);
        }
        object = append_field(&fields[i], object);
        i += 1;
    }
    proof {
        assert(fields@.subrange(0, n as int) =~= fields@);
    }
    object
}

} // verus!
