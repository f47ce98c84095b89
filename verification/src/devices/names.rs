//! Names derived from identifiers: the type tag of a device kind and the
//! default name of a field.

use vstd::prelude::*;
use convert_case::Case;
use convert_case::Casing;
use crate::deserializer::Deserializer;

verus! {

/// An identifier in Pascal case, as `convert_case` converts it.
pub uninterp spec fn pascal_name(identifier: Seq<char>) -> Seq<char>;

/// An identifier in snake case, as `convert_case` converts it.
pub uninterp spec fn snake_name(identifier: Seq<char>) -> Seq<char>;

/// Calls `convert_case`'s `Casing::to_case` with `Case::Pascal`. Trusted: the
/// result is a function of the identifier's characters. The conversion cuts the
/// identifier at positions that it counts in characters and applies in bytes,
/// so only ASCII identifiers are accepted.
#[verifier::external_body]
pub(crate) fn to_pascal(identifier: &str) -> (r: String)
    requires
        identifier.is_ascii(),
    ensures
        r@ == pascal_name(identifier@),
{
    identifier.to_case(Case::Pascal)
}

/// Calls `convert_case`'s `Casing::to_case` with `Case::Snake`. Trusted: the
/// result is a function of the identifier's characters. The conversion cuts the
/// identifier at positions that it counts in characters and applies in bytes,
/// so only ASCII identifiers are accepted.
#[verifier::external_body]
pub(crate) fn to_snake(identifier: &str) -> (r: String)
    requires
        identifier.is_ascii(),
    ensures
        r@ == snake_name(identifier@),
{
    identifier.to_case(Case::Snake)
}

/// The name that a document gives to a field whose default name is
/// `default_name`: the string that the document holds under the default name,
/// or else the default name.
pub open spec fn configured_name<D: Deserializer>(doc: &D, default_name: Seq<char>) -> Seq<char> {
    match doc.field_of(default_name) {
        Some(entry) => match entry.text() {
            Some(name) => name,
            None => default_name,
        },
        None => default_name,
    }
}

/// Reads from `doc` the name of the field whose default name is `default_name`.
pub fn name_in<D: Deserializer>(doc: &D, default_name: &str) -> (r: String)
    ensures
        r@ == configured_name(doc, default_name@),
{
    match doc.get_field(default_name) {
        Some(entry) => match entry.as_str() {
            Some(name) => name.to_string(),
            None => default_name.to_string(),
        },
        None => default_name.to_string(),
    }
}

/// Reads from `doc` the name of the field declared as `identifier`, whose
/// default name is the identifier in Pascal case.
pub fn field_name<D: Deserializer>(doc: &D, identifier: &str) -> (r: String)
    requires
        identifier.is_ascii(),
    ensures
        r@ == configured_name(doc, pascal_name(identifier@)),
{
    let default_name = to_pascal(identifier);
    name_in(doc, default_name.as_str())
}

} // verus!
