//! Names, patterns and messages derived from a resource.
//!
//! These are the computed parts of the adapters that integrate the
//! identifier with schema documents, storage columns and codecs: what they
//! call the type, which pattern validates its string form, and what a codec
//! reports when parsing fails.  The adapters themselves are mechanical
//! translations of these values into framework vocabularies and live
//! outside the library.

use vstd::prelude::*;

use crate::resources::TSIDResource;

verus! {

/// The schema name of an identifier type: `TSID_` followed by the prefix,
/// or `TSID_unknown` for a resource without one.
pub open spec fn spec_schema_name<Resource: TSIDResource>() -> Seq<char> {
    match Resource::spec_prefix() {
        Some(p) => "TSID_"@ + p,
        None => "TSID_unknown"@,
    }
}

/// The schema name of the identifier type for `Resource`.
pub fn schema_name<Resource: TSIDResource>() -> (r: String)
    ensures
        r@ == spec_schema_name::<Resource>(),
{
    match Resource::prefix() {
        Some(p) => {
            let mut s = String::from_str("TSID_");
            s.append(p.as_str());
            s
        },
        None => String::from_str("TSID_unknown"),
    }
}

/// The display name of an identifier type: `TSID_` followed by the prefix,
/// or plain `TSID` for a resource without one.
pub open spec fn spec_display_name<Resource: TSIDResource>() -> Seq<char> {
    match Resource::spec_prefix() {
        Some(p) => "TSID_"@ + p,
        None => "TSID"@,
    }
}

/// The display name of the identifier type for `Resource`.
pub fn display_name<Resource: TSIDResource>() -> (r: String)
    ensures
        r@ == spec_display_name::<Resource>(),
{
    match Resource::prefix() {
        Some(p) => {
            let mut s = String::from_str("TSID_");
            s.append(p.as_str());
            s
        },
        None => String::from_str("TSID"),
    }
}

/// The schema identity of an identifier type: `TSID<` then the prefix (or
/// `unknown`) then `>`.
pub open spec fn spec_schema_id_name<Resource: TSIDResource>() -> Seq<char> {
    match Resource::spec_prefix() {
        Some(p) => "TSID<"@ + p + ">"@,
        None => "TSID<"@ + "unknown"@ + ">"@,
    }
}

/// The schema identity of the identifier type for `Resource`.
pub fn schema_id_name<Resource: TSIDResource>() -> (r: String)
    ensures
        r@ == spec_schema_id_name::<Resource>(),
{
    let mut s = String::from_str("TSID<");
    match Resource::prefix() {
        Some(p) => {
            s.append(p.as_str());
        },
        None => {
            s.append("unknown");
        },
    }
    s.append(">");
    s
}

/// The validation pattern for the string form of a prefixed identifier: the
/// literal prefix in a group, the separator, then one or more word
/// characters.
pub open spec fn spec_schema_pattern(p: Seq<char>) -> Seq<char> {
    "^("@ + p + "_)(\\w|\\d)+$"@
}

/// The validation pattern for the string form of identifiers of
/// `Resource`, or `None` for a resource without a prefix, whose string
/// form needs no pattern.
pub fn schema_pattern<Resource: TSIDResource>() -> (r: Option<String>)
    ensures
        r is Some <==> Resource::spec_prefix() is Some,
        r matches Some(s) ==> Resource::spec_prefix() matches Some(p) && s@
            == spec_schema_pattern(p),
{
    match Resource::prefix() {
        Some(p) => {
            let mut s = String::from_str("^(");
            s.append(p.as_str());
            s.append("_)(\\w|\\d)+$");
            Some(s)
        },
        None => None,
    }
}

/// The message a string codec reports when it expected an identifier:
/// names the prefix the resource requires, or `nothing` when it requires
/// none.
pub open spec fn spec_expected_description<Resource: TSIDResource>() -> Seq<char> {
    match Resource::spec_prefix() {
        Some(p) => "string TSID prefixed with "@ + p + "_"@,
        None => "string TSID prefixed with "@ + "nothing"@ + "_"@,
    }
}

/// The message a string codec reports when it expected an identifier of
/// `Resource`.
pub fn expected_description<Resource: TSIDResource>() -> (r: String)
    ensures
        r@ == spec_expected_description::<Resource>(),
{
    let mut s = String::from_str("string TSID prefixed with ");
    match Resource::prefix() {
        Some(p) => {
            s.append(p.as_str());
        },
        None => {
            s.append("nothing");
        },
    }
    s.append("_");
    s
}

} // verus!
