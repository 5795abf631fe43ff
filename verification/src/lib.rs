//! Resource-typed, time-ordered 64-bit identifiers.
//!
//! An identifier is a plain `u64` that can be rendered as a human-readable,
//! resource-prefixed string (for example `org_0DS8RXW6W0DYY`) and stored or
//! compared as a number.  The resource is a compile-time marker type that
//! decides which textual prefix the string form carries and which prefix a
//! parsed string must present.

pub mod codec;
pub mod id;
pub mod resources;
pub mod schema;

pub use id::{ParseError, TSIDDatabaseID};
pub use resources::{IDOrganisation, IDUnknown, TSIDResource};
