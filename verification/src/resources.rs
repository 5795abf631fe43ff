//! Resource markers: compile-time tags that decide the textual prefix of an
//! identifier.
//!
//! A resource is a zero-size type.  It carries no runtime state; its one
//! capability is to name the prefix (if any) that identifiers of that
//! resource display when rendered and must present when parsed.

use vstd::prelude::*;

verus! {

/// A compile-time marker for a kind of resource.
///
/// The prefix is a pure function of the type: the same resource always
/// answers the same prefix, and `spec_prefix` is the mathematical value the
/// contracts of the identifier operations speak of.
pub trait TSIDResource: Sized {
    /// The prefix the resource requires, as a mathematical value.
    spec fn spec_prefix() -> Option<Seq<char>>;

    /// The prefix the resource requires, or `None` when its identifiers are
    /// rendered bare.
    fn prefix() -> (r: Option<String>)
        ensures
            match r {
                Some(p) => Self::spec_prefix() == Some(p@),
                None => Self::spec_prefix() is None,
            },
    ;
}

/// The distinguished resource with no prefix.
///
/// It serves both as a legitimate "no prefix required" resource and as the
/// universal target of erasure: every identifier can be converted to an
/// `IDUnknown` identifier carrying the same raw value.
#[derive(Clone, Copy, PartialEq, Eq, Structural, Hash, Debug)]
pub struct IDUnknown;

impl TSIDResource for IDUnknown {
    open spec fn spec_prefix() -> Option<Seq<char>> {
        None
    }

    fn prefix() -> (r: Option<String>) {
        None
    }
}

/// The organisation resource: its identifiers are rendered and parsed with
/// the prefix `org`.
///
/// It is also the written-out pattern for declaring further prefixed
/// resources: a zero-size type whose `spec_prefix` names a fixed literal and
/// whose `prefix` returns that literal.
#[derive(Clone, Copy, PartialEq, Eq, Structural, Hash, Debug)]
pub struct IDOrganisation;

impl TSIDResource for IDOrganisation {
    open spec fn spec_prefix() -> Option<Seq<char>> {
        Some("org"@)
    }

    fn prefix() -> (r: Option<String>) {
        Some(String::from_str("org"))
    }
}

} // verus!
