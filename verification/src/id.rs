//! The identifier value type: a raw `u64` tagged with a resource marker.
//!
//! The raw number is the canonical, comparable, time-ordered value; the
//! resource marker is a zero-size phantom that only decides how the value is
//! rendered and which prefix a parsed string must present.  Equality,
//! ordering and hashing go by the raw number alone.

use core::marker::PhantomData;

use vstd::prelude::*;

use crate::codec::{canonical_chars, decode_tsid, encode_tsid, lemma_decode_canonical, spec_decode};
use crate::resources::{IDUnknown, TSIDResource};
use vstd::std_specs::cmp::PartialEqSpec;

verus! {

/// Why a string failed to parse as an identifier.
#[derive(Clone, Copy, PartialEq, Eq, Structural, Hash, Debug)]
pub enum ParseError {
    /// The resource requires a prefix and the input does not begin with it
    /// followed by the separator.
    MissingPrefix,
    /// The text after any required prefix is not a well-formed encoding of a
    /// 64-bit value.
    InvalidEncoding,
}

/// A prefixed, type-safe, resource-specific identifier.
///
/// Internally this stores a `u64`; a database should store that number
/// rather than the prefixed string, since the numbers are time-ordered and
/// sort cheaply.  The view of an identifier is its raw number.
#[derive(Hash, Debug)]
pub struct TSIDDatabaseID<Resource: TSIDResource> {
    id: u64,
    resource: PhantomData<Resource>,
}

impl<Resource: TSIDResource> Clone for TSIDDatabaseID<Resource> {
    /// An identifier is a plain value: a clone carries the same raw number.
    fn clone(&self) -> (r: Self)
        ensures
            r@ == self@,
    {
        TSIDDatabaseID { id: self.id, resource: PhantomData }
    }
}

impl<Resource: TSIDResource> Copy for TSIDDatabaseID<Resource> {

}

impl<Resource: TSIDResource> View for TSIDDatabaseID<Resource> {
    type V = u64;

    closed spec fn view(&self) -> u64 {
        self.id
    }
}

impl<Resource: TSIDResource> PartialEq for TSIDDatabaseID<Resource> {
    fn eq(&self, other: &Self) -> (r: bool) {
        self.id == other.id
    }
}

impl<Resource: TSIDResource> Eq for TSIDDatabaseID<Resource> {

}

impl<Resource: TSIDResource> vstd::std_specs::cmp::PartialEqSpecImpl for TSIDDatabaseID<Resource> {
    open spec fn obeys_eq_spec() -> bool {
        true
    }

    open spec fn eq_spec(&self, other: &Self) -> bool {
        self@ == other@
    }
}

/// The string form of an identifier with raw value `n` under `Resource`:
/// the prefix and a separator when the resource has one, then the canonical
/// 13-character encoding.
pub open spec fn spec_display_chars<Resource: TSIDResource>(n: u64) -> Seq<char> {
    match Resource::spec_prefix() {
        Some(p) => p + seq!['_'] + canonical_chars(n),
        None => canonical_chars(n),
    }
}

/// Whether `s` begins with the prefix `p` followed by the separator.
pub open spec fn has_prefix(s: Seq<char>, p: Seq<char>) -> bool {
    &&& s.len() > p.len()
    &&& s.subrange(0, p.len() as int) == p
    &&& s[p.len() as int] == '_'
}

/// What the text after any required prefix decodes to.
pub open spec fn spec_decode_result(t: Seq<char>) -> Result<u64, ParseError> {
    match spec_decode(t) {
        Some(n) => Ok(n),
        None => Err(ParseError::InvalidEncoding),
    }
}

/// What parsing `s` under `Resource` yields: the raw value, or the reason
/// the string is rejected.
pub open spec fn spec_parse<Resource: TSIDResource>(s: Seq<char>) -> Result<u64, ParseError> {
    match Resource::spec_prefix() {
        Some(p) => if has_prefix(s, p) {
            spec_decode_result(s.skip(p.len() + 1 as int))
        } else {
            Err(ParseError::MissingPrefix)
        },
        None => spec_decode_result(s),
    }
}

/// Relies on `tsid::create_tsid`: the external generator returns a fresh,
/// approximately time-ordered value.  Nothing is promised of the number it
/// picks.
#[verifier::external_body]
fn generate_tsid_number() -> u64 {
    tsid::create_tsid().number()
}

impl<Resource: TSIDResource> TSIDDatabaseID<Resource> {
    /// Wrap a number (for example one read back from a database).  Every
    /// `u64` is a legal identifier, so this cannot fail.
    pub fn from_raw_number(number: u64) -> (r: Self)
        ensures
            r@ == number,
    {
        TSIDDatabaseID { id: number, resource: PhantomData }
    }

    /// Wrap a signed number by reinterpreting its bit pattern as unsigned,
    /// the way a signed 64-bit storage column round-trips the value.  No
    /// range check: negative inputs alias to large unsigned values.
    pub fn from_integer(number: i64) -> (r: Self)
        ensures
            r@ == number as u64,
    {
        TSIDDatabaseID { id: (#[verifier::truncate] (number as u64)), resource: PhantomData }
    }

    /// A fresh identifier from the external time-ordered generator.
    pub fn random() -> Self {
        TSIDDatabaseID { id: generate_tsid_number(), resource: PhantomData }
    }

    /// The raw `u64`, suitable for numeric storage.
    pub fn to_raw_number(&self) -> (r: u64)
        ensures
            r == self@,
    {
        self.id
    }

    /// The raw value reinterpreted as a signed number, the form a signed
    /// 64-bit storage column takes.
    pub fn to_integer(&self) -> (r: i64)
        ensures
            r == self@ as i64,
    {
        #[verifier::truncate] (self.id as i64)
    }

    /// Erase the resource: the same raw value under the unknown resource.
    /// This is the only way to move a value between resources.
    pub fn into_unknown(&self) -> (r: TSIDDatabaseID<IDUnknown>)
        ensures
            r@ == self@,
    {
        TSIDDatabaseID { id: self.id, resource: PhantomData }
    }

    /// Render the identifier: the resource's prefix and a separator when it
    /// has one, then the canonical 13-character encoding of the raw value.
    pub fn to_string(&self) -> (r: String)
        ensures
            r@ == spec_display_chars::<Resource>(self@),
    {
        match Resource::prefix() {
            Some(p) => {
                let mut s = p;
                s.append("_");
                let enc = encode_tsid(self.id);
                s.append(enc.as_str());
                proof {
                    reveal_strlit("_");
                    assert(s@ =~= spec_display_chars::<Resource>(self@));
                }
                s
            },
            None => encode_tsid(self.id),
        }
    }

    /// Parse a string into an identifier of this resource.
    ///
    /// When the resource has a prefix, the input must begin with it followed
    /// by `_`, else the parse fails with `MissingPrefix`.  The remainder
    /// (or, for a resource without a prefix, the whole input) must be a
    /// well-formed encoding of a 64-bit value, else the parse fails with
    /// `InvalidEncoding`.
    pub fn from_str(v: &str) -> (r: Result<Self, ParseError>)
        ensures
            match r {
                Ok(id) => spec_parse::<Resource>(v@) == Ok::<u64, ParseError>(id@),
                Err(e) => spec_parse::<Resource>(v@) == Err::<u64, ParseError>(e),
            },
    {
        match Resource::prefix() {
            Some(p) => {
                let plen = p.as_str().unicode_len();
                let vlen = v.unicode_len();
                if vlen <= plen {
                    return Err(ParseError::MissingPrefix);
                }
                let mut i: usize = 0;
                while i < plen
                    invariant
                        i <= plen,
                        plen == p@.len(),
                        vlen == v@.len(),
                        vlen > plen,
                        Resource::spec_prefix() == Some(p@),
                        forall|j: int| 0 <= j < i ==> v@[j] == p@[j],
                    decreases plen - i,
                {
                    if v.get_char(i) != p.as_str().get_char(i) {
                        proof {
                            assert(v@.subrange(0, plen as int)[i as int] == v@[i as int]);
                            assert(!has_prefix(v@, p@));
                        }
                        return Err(ParseError::MissingPrefix);
                    }
                    i += 1;
                }
                if v.get_char(plen) != '_' {
                    return Err(ParseError::MissingPrefix);
                }
                proof {
                    assert(v@.subrange(0, plen as int) =~= p@);
                    assert(has_prefix(v@, p@));
                }
                let rest = v.substring_char(plen + 1, vlen);
                proof {
                    assert(rest@ =~= v@.skip(p@.len() + 1 as int));
                }
                match decode_tsid(rest) {
                    Some(n) => Ok(Self::from_raw_number(n)),
                    None => Err(ParseError::InvalidEncoding),
                }
            },
            None => match decode_tsid(v) {
                Some(n) => Ok(Self::from_raw_number(n)),
                None => Err(ParseError::InvalidEncoding),
            },
        }
    }
}

/// Law: rendering an identifier and parsing the rendered string back under
/// the same resource yields exactly the original raw value, for prefixed
/// and unprefixed resources alike.
pub proof fn lemma_parse_display_round_trip<Resource: TSIDResource>(n: u64)
    ensures
        spec_parse::<Resource>(spec_display_chars::<Resource>(n)) == Ok::<u64, ParseError>(n),
{
    lemma_decode_canonical(n);
    let s = spec_display_chars::<Resource>(n);
    match Resource::spec_prefix() {
        Some(p) => {
            assert(s.subrange(0, p.len() as int) =~= p);
            assert(s[p.len() as int] == '_');
            assert(has_prefix(s, p));
            assert(s.skip(p.len() + 1 as int) =~= canonical_chars(n));
        },
        None => {
        },
    }
}

/// Law: the string form is injective within one resource: distinct raw
/// values render to distinct strings.
pub proof fn lemma_display_injective<Resource: TSIDResource>(a: u64, b: u64)
    ensures
        spec_display_chars::<Resource>(a) == spec_display_chars::<Resource>(b) ==> a == b,
{
    if spec_display_chars::<Resource>(a) == spec_display_chars::<Resource>(b) {
        lemma_parse_display_round_trip::<Resource>(a);
        lemma_parse_display_round_trip::<Resource>(b);
    }
}

/// Law: identifiers of one resource compare equal exactly when their raw
/// values are equal; the resource marker takes no part in equality.
pub proof fn lemma_eq_is_raw_value_eq<Resource: TSIDResource>(
    a: TSIDDatabaseID<Resource>,
    b: TSIDDatabaseID<Resource>,
)
    ensures
        a.eq_spec(&b) <==> a@ == b@,
{
}

/// Law: erasure preserves the raw value, so identifiers of any two
/// resources erase to equal unknown identifiers exactly when their raw
/// values are equal.
pub proof fn lemma_erasure_ignores_resource<RA: TSIDResource, RB: TSIDResource>(
    a: TSIDDatabaseID<RA>,
    b: TSIDDatabaseID<RB>,
    ea: TSIDDatabaseID<IDUnknown>,
    eb: TSIDDatabaseID<IDUnknown>,
)
    requires
        ea@ == a@,
        eb@ == b@,
    ensures
        ea.eq_spec(&eb) <==> a@ == b@,
{
}

/// Law: the signed storage form loses nothing: a raw value reinterpreted as
/// a signed number and back is unchanged.
pub proof fn lemma_signed_storage_round_trip(n: u64)
    ensures
        ((n as i64) as u64) == n,
{
    assert(((n as i64) as u64) == n) by (bit_vector);
}

/// Law: a signed number wrapped by bit reinterpretation and read back as
/// signed is unchanged.
pub proof fn lemma_signed_wrap_round_trip(n: i64)
    ensures
        ((n as u64) as i64) == n,
{
    assert(((n as u64) as i64) == n) by (bit_vector);
}

} // verus!
