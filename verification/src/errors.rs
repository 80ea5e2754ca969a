//! The crate's failure taxonomy, and the mapping from storage-layer errors
//! onto it.

use vstd::prelude::*;

verus! {

/// Failures surfaced by the data-access core.
#[derive(Clone, Copy, Debug, PartialEq, Eq, Structural)]
pub enum DataError {
    /// A single-entity lookup by id yielded no row.
    NotFound,
    /// A storage connectivity, constraint or transaction failure, surfaced
    /// opaquely so no schema or query detail leaks to callers.
    Storage,
    /// Storage holds an enumeration value this code does not know.
    UnknownEnumValue,
}

/// Declares `sqlx::Error`, the storage driver's error type, so results of
/// storage calls can flow through verified code.  Values of it are opaque.
#[verifier::external_type_specification]
#[verifier::external_body]
pub struct ExSqlxError(sqlx::Error);

/// Map a storage result onto the crate's failure type: success passes
/// through untouched, and every storage error becomes the one opaque
/// `Storage` failure.
pub fn sqlx_result_to_our_result<T>(sqlx_result: Result<T, sqlx::Error>) -> (r: Result<
    T,
    DataError,
>)
    ensures
        match sqlx_result {
            Result::Ok(t) => r == Result::<T, DataError>::Ok(t),
            Result::Err(_) => r == Result::<T, DataError>::Err(DataError::Storage),
        },
{
    match sqlx_result {
        Result::Ok(t) => Result::Ok(t),
        Result::Err(_) => Result::Err(DataError::Storage),
    }
}

} // verus!
