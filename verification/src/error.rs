use vstd::prelude::*;

verus! {

/// `serde_json::Error`, the failure of encoding an event to, or decoding it
/// from, its stored JSON form. Carried through unread.
#[verifier::external_type_specification]
#[verifier::external_body]
pub struct ExJsonError(serde_json::Error);

/// `serde_json::Value`, the stored JSON form of an event. Carried through
/// unread.
#[verifier::external_type_specification]
#[verifier::external_body]
pub struct ExJsonValue(serde_json::Value);

/// `sea_orm::DbErr`, a failure reported by the database. Carried through
/// unread.
#[verifier::external_type_specification]
#[verifier::external_body]
pub struct ExDbErr(sea_orm::DbErr);

/// Errors of the SQL event store.
#[derive(Debug)]
pub enum StoreError {
    /// The stored event of the row with this id could not be decoded.
    DeserializeDbEvent(u64, serde_json::Error),
    /// An event to be saved could not be encoded.
    SerializeEvent(serde_json::Error),
    /// The database refused or failed a request.
    DbError(sea_orm::DbErr),
}

} // verus!
