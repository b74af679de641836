//! Failures of the actor system.

use vstd::prelude::*;

verus! {

/// Everything that can go wrong in the actor system. The setup failures and
/// `System` carry the underlying cause as text.
#[derive(Debug, PartialEq, Eq)]
pub enum SystemActorError {
    /// The store could not be reached.
    ConnectionFailure(String),
    /// The store refused the credentials.
    AuthFailure(String),
    /// The startup schema could not be applied.
    SchemaApplyFailure(String),
    /// An active record already holds the identity.
    AlreadyExists,
    /// No record holds the identity.
    NotFound,
    /// A payload did not decode as the expected kind.
    SerializationFailure,
    /// No reply arrived within the bound.
    Timeout,
    /// The recipient is stopped.
    RecipientGone,
    /// Any other fault of the store.
    System(String),
}

} // verus!
