//! Identifiers of users and posts.

use vstd::prelude::*;

verus! {

/// A 128-bit identifier. Two identifiers are the same exactly when their
/// values are.
#[derive(Clone, Copy, Debug, PartialEq, Eq, Structural, Hash)]
pub struct Id {
    pub value: u128,
}

impl Id {
    /// The identifier with the given value.
    pub fn from_u128(value: u128) -> (id: Id)
        ensures
            id.value == value,
    {
        Id { value }
    }

    /// The value of this identifier.
    pub fn as_u128(&self) -> (value: u128)
        ensures
            value == self.value,
    {
        self.value
    }
}

/// A new random identifier: the 128-bit value of `uuid::Uuid::new_v4()`, as
/// `Uuid::as_u128` gives it. Nothing is claimed of the value; in particular
/// not that it differs from the identifiers drawn before.
#[verifier::external_body]
pub(crate) fn fresh_id() -> Id {
    Id { value: uuid::Uuid::new_v4().as_u128() }
}

} // verus!
