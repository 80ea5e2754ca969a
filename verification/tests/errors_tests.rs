use ugs_metadata::errors::{sqlx_result_to_our_result, DataError};

#[test]
fn success_passes_through() {
    let r: Result<i64, sqlx::Error> = Ok(42);
    assert_eq!(sqlx_result_to_our_result(r), Ok(42));
}

#[test]
fn storage_errors_become_opaque() {
    let r: Result<i64, sqlx::Error> = Err(sqlx::Error::RowNotFound);
    assert_eq!(sqlx_result_to_our_result(r), Err(DataError::Storage));
    let r: Result<(), sqlx::Error> = Err(sqlx::Error::PoolClosed);
    assert_eq!(sqlx_result_to_our_result(r), Err(DataError::Storage));
}
