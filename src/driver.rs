use vstd::prelude::*;

verus! {

#[verifier::external_type_specification]
#[verifier::external_body]
pub struct ExSqlxError(sqlx::Error);

#[verifier::external_type_specification]
#[verifier::external_body]
pub struct ExMigrateError(sqlx::migrate::MigrateError);

/// The SQLSTATE code that the store attached to a driver error, if any.
pub uninterp spec fn sqlstate_of(e: sqlx::Error) -> Option<Seq<char>>;

/// The constraint that a driver error names, if any.
pub uninterp spec fn constraint_of(e: sqlx::Error) -> Option<Seq<char>>;

/// Relies on sqlx's `Error::as_database_error` and `DatabaseError::code`: the
/// SQLSTATE code that the store attached to a database error, if any.
#[verifier::external_body]
pub(crate) fn database_code(e: &sqlx::Error) -> (r: Option<String>)
    ensures
        crate::error::opt_view(r) == sqlstate_of(*e),
{
    match e.as_database_error() {
        Some(d) => d.code().map(|c| c.into_owned()),
        None => None,
    }
}

/// Relies on sqlx's `Error::as_database_error` and `DatabaseError::constraint`:
/// the name of the constraint that a database error reports, if any.
#[verifier::external_body]
pub(crate) fn database_constraint(e: &sqlx::Error) -> (r: Option<&str>)
    ensures
        r matches Some(s) ==> constraint_of(*e) == Some(s@),
        r is None ==> constraint_of(*e) is None,
{
    match e.as_database_error() {
        Some(d) => d.constraint(),
        None => None,
    }
}

} // verus!
