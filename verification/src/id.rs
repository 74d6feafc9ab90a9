//! The validated identifier every entity and cross-reference carries.
//!
//! An `Id` wraps the string form of a UUID. Two construction paths exist:
//! `new` draws a fresh random UUID and is valid by construction, and
//! `from_string` checks a caller-supplied string and fails on anything that
//! is not a well-formed UUID. The wrapper is transparent on the wire, so a
//! value that arrives by deserialization bypasses validation; every boundary
//! that accepts outside data must call `from_string` on each identifier
//! explicitly, as the import path does.

use vstd::prelude::*;

use crate::text::has_prefix;

verus! {

/// The shape of an error built from a failed identifier check: the
/// field-naming `prefix`, then the parser's own message, which starts with
/// `Invalid UUID: `.
pub open spec fn spec_id_error_msg(prefix: Seq<char>, m: Seq<char>) -> bool {
    &&& has_prefix(m, prefix)
    &&& has_prefix(m.skip(prefix.len() as int), "Invalid UUID: "@)
}

/// Whether `uuid::Uuid::parse_str` accepts `s`: the string is a well-formed
/// UUID in one of the textual forms that crate parses.
pub uninterp spec fn is_uuid(s: Seq<char>) -> bool;

/// Relies on uuid's `Uuid::parse_str`: acceptance depends on the characters
/// of `s` alone. The error string is the parser's own message.
#[verifier::external_body]
fn uuid_check(s: &str) -> (r: Result<(), String>)
    ensures
        r is Ok <==> is_uuid(s@),
{
    match uuid::Uuid::parse_str(s) {
        Ok(_) => Ok(()),
        Err(e) => Err(e.to_string()),
    }
}

/// Relies on uuid's `Uuid::new_v4` and its `Display` form: the hyphenated
/// lowercase rendering is 36 characters and parses back with `parse_str`.
#[verifier::external_body]
fn fresh_uuid_string() -> (r: String)
    ensures
        is_uuid(r@),
        r@.len() == 36,
{
    uuid::Uuid::new_v4().to_string()
}

/// A validated unique identifier: the string form of a UUID.
///
/// Equality is by the underlying string. The inner string is public because
/// the wrapper is transparent on the wire; the validity guarantee comes only
/// from the constructors.
#[derive(Debug, Hash)]
pub struct Id(pub String);

impl View for Id {
    type V = Seq<char>;

    open spec fn view(&self) -> Seq<char> {
        self.0@
    }
}

impl Clone for Id {
    fn clone(&self) -> (r: Self)
        ensures
            r == *self,
    {
        Id(self.0.clone())
    }
}

impl PartialEq for Id {
    fn eq(&self, other: &Id) -> bool {
        self.0 == other.0
    }
}

impl vstd::std_specs::cmp::PartialEqSpecImpl for Id {
    open spec fn obeys_eq_spec() -> bool {
        true
    }

    open spec fn eq_spec(&self, other: &Id) -> bool {
        self.0@ == other.0@
    }
}

impl Id {
    /// Creates a new random UUID-based identifier; always valid by
    /// construction.
    pub fn new() -> (r: Self)
        ensures
            is_uuid(r@),
            r@.len() == 36,
    {
        Id(fresh_uuid_string())
    }

    /// Checks a caller-supplied string and wraps it only when it is a
    /// well-formed UUID; the error message names the defect.
    pub fn from_string(s: String) -> (r: Result<Self, String>)
        ensures
            r is Ok <==> is_uuid(s@),
            r matches Ok(id) ==> id@ == s@,
            r matches Err(m) ==> has_prefix(m@, "Invalid UUID: "@),
    {
        match uuid_check(s.as_str()) {
            Ok(_) => Ok(Id(s)),
            Err(e) => {
                let prefix = "Invalid UUID: ".to_owned();
                proof {
                    reveal_strlit("Invalid UUID: ");
                }
                let m = prefix.concat(e.as_str());
                proof {
                    assert(m@.subrange(0, "Invalid UUID: "@.len() as int) =~= "Invalid UUID: "@);
                }
                Err(m)
            },
        }
    }

    /// The identifier as a string slice.
    pub fn as_str(&self) -> (r: &str)
        ensures
            r@ == self@,
    {
        self.0.as_str()
    }

    /// Consumes the identifier and returns the inner string.
    pub fn into_string(self) -> (r: String)
        ensures
            r@ == self@,
    {
        self.0
    }

    /// The identifier as an owned string; the textual rendering of the value.
    pub fn to_string(&self) -> (r: String)
        ensures
            r@ == self@,
    {
        self.0.clone()
    }
}

impl Default for Id {
    /// A fresh random identifier, so that every defaulted field is valid.
    fn default() -> (r: Self)
        ensures
            is_uuid(r@),
    {
        Id::new()
    }
}

} // verus!
