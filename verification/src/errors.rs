//! The error taxonomy every flow of the library surfaces.
use vstd::prelude::*;

verus! {

/// Everything that can go wrong, as callers see it: login failures,
/// session and authorization failures, and store-level failures.
#[derive(Clone, Copy, Debug, PartialEq, Eq)]
pub enum Error {
    LoginDoesntExist,
    LoginBadPassword,
    LoginFailedToGenerateToken,
    AuthMissingCookie,
    AuthBadToken,
    AuthNoAccess,
    SQLFail,
    SQLEntityNotFound { entity_type: &'static str, id: i32 },
}

/// Whether `e` reports that the entity of kind `kind` with key `id`
/// matched no row.
pub open spec fn is_entity_not_found(e: Error, kind: Seq<char>, id: i32) -> bool {
    match e {
        Error::SQLEntityNotFound { entity_type, id: found } => entity_type@ == kind && found == id,
        _ => false,
    }
}

} // verus!
