//! Derivation of registry schema names: `Response` or `Post`, the
//! endpoint path with slashes turned to underscores, the whole converted
//! to upper camel case.
use vstd::prelude::*;

use convert_case::{Case, Casing};
use vstd::string::StringExecFns;

verus! {

/// A character sequence with every slash replaced by an underscore.
pub open spec fn underscored(s: Seq<char>) -> Seq<char> {
    s.map_values(|c: char| if c == '/' { '_' } else { c })
}

/// What convert_case's upper-camel conversion returns for a character
/// sequence: a function of the characters alone.
pub uninterp spec fn upper_camel_of(s: Seq<char>) -> Seq<char>;

/// Relies on str::replace: with a one-character pattern and a
/// one-character replacement, every matching character is replaced and
/// every other character kept, in order.
#[verifier::external_body]
fn replace_slashes(s: &str) -> (r: String)
    ensures
        r@ == underscored(s@),
{
    s.replace("/", "_")
}

/// Relies on convert_case's `Casing::to_case` with the upper-camel
/// case: splits the text into words and capitalizes each, a pure
/// function of the characters.
#[verifier::external_body]
fn to_upper_camel(s: &str) -> (r: String)
    ensures
        r@ == upper_camel_of(s@),
{
    s.to_case(Case::UpperCamel)
}

/// Derives the registry name of a generated schema from its role prefix
/// and the endpoint path.
pub fn schema_name(prefix: &str, path: &str) -> (r: String)
    ensures
        r@ == upper_camel_of(prefix@ + underscored(path@)),
{
    let mut joined = prefix.to_owned();
    let replaced = replace_slashes(path);
    joined.append(replaced.as_str());
    to_upper_camel(joined.as_str())
}

} // verus!
