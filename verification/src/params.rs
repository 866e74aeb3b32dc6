//! Query and header parameter extraction, and request-body extraction,
//! from a declaration's allowlist.
use vstd::prelude::*;

use crate::schema::{opt_str_view, ObjectSchema, ObjectSchemaV};
use crate::utils::{attr_str, build_composite, composite_of, lemma_nested_step, name_of};
use crate::yaml::Yaml;

verus! {

/// Where a parameter is carried. Every extracted parameter is typed as a
/// string and marked required, whatever its declared type: incoming
/// values arrive untyped.
#[derive(Clone, Copy, PartialEq, Eq, Structural, Debug)]
pub enum ParameterLocation {
    Query,
    Header,
}

/// One operation parameter.
#[derive(Debug, PartialEq)]
pub struct Parameter {
    pub name: String,
    pub location: ParameterLocation,
    pub description: Option<String>,
}

/// Mathematical form of `Parameter`.
pub struct ParameterV {
    pub name: Seq<char>,
    pub location: ParameterLocation,
    pub description: Option<Seq<char>>,
}

impl View for Parameter {
    type V = ParameterV;

    open spec fn view(&self) -> ParameterV {
        ParameterV {
            name: self.name@,
            location: self.location,
            description: opt_str_view(self.description),
        }
    }
}

/// The views of a parameter list.
pub open spec fn params_view(ps: Seq<Parameter>) -> Seq<ParameterV> {
    ps.map_values(|p: Parameter| p@)
}

/// One parameter per named entry of a field-spec list, in order; entries
/// without a name are dropped.
pub open spec fn param_items(items: Seq<Yaml>, loc: ParameterLocation) -> Seq<ParameterV>
    decreases items.len(),
{
    if items.len() == 0 {
        Seq::empty()
    } else {
        let init = param_items(items.drop_last(), loc);
        match name_of(items.last()) {
            Some(n) => init.push(
                ParameterV {
                    name: n,
                    location: loc,
                    description: attr_str(items.last(), "description"@),
                },
            ),
            None => init,
        }
    }
}

/// The query parameters a declaration asks for: present exactly when
/// `allowlist.query` is a list.
pub open spec fn spec_query_params(d: Yaml) -> Option<Seq<ParameterV>> {
    match d.get_spec("allowlist"@) {
        Some(a) => match a.get_spec("query"@) {
            Some(q) => match q {
                Yaml::Sequence(list) => Some(param_items(list@, ParameterLocation::Query)),
                _ => None,
            },
            None => None,
        },
        None => None,
    }
}

/// The header parameters a declaration asks for: present exactly when
/// `allowlist.headers` is a list.
pub open spec fn spec_headers(d: Yaml) -> Option<Seq<ParameterV>> {
    match d.get_spec("allowlist"@) {
        Some(a) => match a.get_spec("headers"@) {
            Some(h) => match h {
                Yaml::Sequence(list) => Some(param_items(list@, ParameterLocation::Header)),
                _ => None,
            },
            None => None,
        },
        None => None,
    }
}

/// The request-body schema a declaration asks for: present exactly when
/// `allowlist.body` is a list. The schema is the composite of the listed
/// fields; it is wrapped as a JSON request body marked required.
pub open spec fn spec_request_body(d: Yaml) -> Option<ObjectSchemaV> {
    match d.get_spec("allowlist"@) {
        Some(a) => match a.get_spec("body"@) {
            Some(b) => match b {
                Yaml::Sequence(list) => Some(composite_of(list@)),
                _ => None,
            },
            None => None,
        },
        None => None,
    }
}

/// One step of `param_items` along a prefix of the list.
proof fn lemma_param_items_step(items: Seq<Yaml>, i: int, loc: ParameterLocation)
    requires
        0 <= i < items.len(),
    ensures
        param_items(items.subrange(0, i + 1), loc) == (match name_of(items[i]) {
            Some(n) => param_items(items.subrange(0, i), loc).push(
                ParameterV { name: n, location: loc, description: attr_str(items[i], "description"@) },
            ),
            None => param_items(items.subrange(0, i), loc),
        }),
{
    assert(items.subrange(0, i + 1).drop_last() =~= items.subrange(0, i));
    assert(items.subrange(0, i + 1).last() == items[i]);
}

/// Builds one parameter list from a field-spec list.
fn collect_params(list: &Vec<Yaml>, location: ParameterLocation) -> (r: Vec<Parameter>)
    ensures
        params_view(r@) == param_items(list@, location),
{
    let mut r: Vec<Parameter> = Vec::new();
    let n = list.len();
    let mut i: usize = 0;
    proof {
        assert(list@.subrange(0, 0) =~= Seq::<Yaml>::empty());
        assert(params_view(r@) =~= Seq::<ParameterV>::empty());
    }
    while i < n
        invariant
            n == list@.len(),
            0 <= i <= n,
            params_view(r@) == param_items(list@.subrange(0, i as int), location),
        decreases n - i,
    {
        proof {
            lemma_param_items_step(list@, i as int, location);
        }
        let entry = &list[i];
        match entry.get("field") {
            Some(nm) => match nm.as_str() {
                Some(name) => {
                    let description: Option<String> = match entry.get("description") {
                        Some(d) => match d.as_str() {
                            Some(s) => Some(s.to_owned()),
                            None => None,
                        },
                        None => None,
                    };
                    let ghost old_r = r@;
                    r.push(
                        Parameter { name: name.to_owned(), location, description },
                    );
                    proof {
                        assert(params_view(r@) =~= params_view(old_r).push(r@.last()@));
                    }
                },
                None => {},
            },
            None => {},
        }
        i += 1;
    }
    proof {
        assert(list@.subrange(0, n as int) =~= list@);
    }
    r
}

/// Extracts the query parameters of a GET operation from
/// `allowlist.query`: one string-typed, required parameter per named
/// entry, in declared order.
pub fn get_query_params(declaration: &Yaml) -> (r: Option<Vec<Parameter>>)
    ensures
        match r {
            Some(ps) => spec_query_params(*declaration) == Some(params_view(ps@)),
            None => spec_query_params(*declaration) is None,
        },
{
    let allow = match declaration.get("allowlist") {
        Some(a) => a,
        None => {
            return None;
        },
    };
    let query = match allow.get("query") {
        Some(q) => q,
        None => {
            return None;
        },
    };
    let list = match query.as_sequence() {
        Some(l) => l,
        None => {
            return None;
        },
    };
    Some(collect_params(list, ParameterLocation::Query))
}

/// Extracts header parameters from `allowlist.headers`, shaped like
/// query parameters but placed in the header location. Extracted, but
/// not attached to any built operation.
pub fn get_headers(declaration: &Yaml) -> (r: Option<Vec<Parameter>>)
    ensures
        match r {
            Some(ps) => spec_headers(*declaration) == Some(params_view(ps@)),
            None => spec_headers(*declaration) is None,
        },
{
    let allow = match declaration.get("allowlist") {
        Some(a) => a,
        None => {
            return None;
        },
    };
    let headers = match allow.get("headers") {
        Some(h) => h,
        None => {
            return None;
        },
    };
    let list = match headers.as_sequence() {
        Some(l) => l,
        None => {
            return None;
        },
    };
    Some(collect_params(list, ParameterLocation::Header))
}

/// Extracts the request-body schema of a POST operation from
/// `allowlist.body`: one composite schema with a required property per
/// named entry.
pub fn get_request_body(declaration: &Yaml) -> (r: Option<ObjectSchema>)
    ensures
        match r {
            Some(o) => spec_request_body(*declaration) == Some(o@),
            None => spec_request_body(*declaration) is None,
        },
{
    let allow = match declaration.get("allowlist") {
        Some(a) => a,
        None => {
            return None;
        },
    };
    let body = match allow.get("body") {
        Some(b) => b,
        None => {
            return None;
        },
    };
    let list = match body.as_sequence() {
        Some(l) => l,
        None => {
            return None;
        },
    };
    Some(build_composite(list))
}

} // verus!
