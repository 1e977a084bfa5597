//! What the engine makes of the store's answer to each statement.
use vstd::prelude::*;

use crate::error::{DbBmcError, DbError, OpError};
use crate::op::DbBmcOp;
use crate::pagination::{Cursored, Paginated};

verus! {

/// The failure of operation `op` on `entity` that the driver reported as `err`.
pub open spec fn driver_failure(entity: &'static str, op: DbBmcOp, err: sqlx::Error) -> DbBmcError {
    DbBmcError::Operation { entity, operation: op, source: OpError::Sqlx { source: err } }
}

/// What a driver error `err` of operation `op` becomes: a serialization
/// error where the driver reported the serialization-failure code, an
/// operation error otherwise.
pub open spec fn driver_outcome(entity: &'static str, op: DbBmcOp, err: sqlx::Error) -> DbError {
    crate::error::bmc_error_of(driver_failure(entity, op, err), crate::driver::sqlstate_of(err))
}

/// Wraps a driver error of operation `op` on `entity`.
pub fn driver_error(entity: &'static str, op: DbBmcOp, err: sqlx::Error) -> (r: DbError)
    ensures
        r == driver_outcome(entity, op, err),
{
    DbError::from_bmc(DbBmcError::Operation { entity, operation: op, source: OpError::Sqlx { source: err } })
}

/// The result of a count: the number of rows, which must fit in `usize`.
pub fn count_outcome(entity: &'static str, raw: Result<i64, sqlx::Error>) -> (r: Result<usize, DbError>)
    ensures
        raw matches Ok(n) ==> (0 <= n <= usize::MAX ==> r == Ok::<usize, DbError>(n as usize)),
        raw matches Ok(n) ==> (!(0 <= n <= usize::MAX) ==> (r matches Err(DbError::DbBmc {
            source: DbBmcError::Operation { entity: e, operation: DbBmcOp::Count, source: OpError::Usize { .. } },
        }) && e == entity)),
        raw matches Err(err) ==> (r matches Err(x) && x == driver_outcome(entity, DbBmcOp::Count, err)),
{
    match raw {
        Ok(n) => match usize::try_from(n) {
            Ok(u) => Ok(u),
            Err(e) => Err(DbError::from_bmc(DbBmcError::Operation {
                entity,
                operation: DbBmcOp::Count,
                source: OpError::Usize { source: e },
            })),
        },
        Err(err) => Err(driver_error(entity, DbBmcOp::Count, err)),
    }
}

/// The result of a statement that returns one row (a create): the row.
pub fn one_outcome<E>(entity: &'static str, op: DbBmcOp, raw: Result<E, sqlx::Error>) -> (r: Result<E, DbError>)
    ensures
        raw matches Ok(v) ==> r == Ok::<E, DbError>(v),
        raw matches Err(err) ==> (r matches Err(x) && x == driver_outcome(entity, op, err)),
{
    match raw {
        Ok(v) => Ok(v),
        Err(err) => Err(driver_error(entity, op, err)),
    }
}

/// The result of a statement on one id that may find no row (a get or an
/// update): the row, or `EntityNotFound` with the id's display form.
pub fn found_outcome<E>(
    entity: &'static str,
    op: DbBmcOp,
    id_display: String,
    raw: Result<Option<E>, sqlx::Error>,
) -> (r: Result<E, DbError>)
    ensures
        raw matches Ok(Some(v)) ==> r == Ok::<E, DbError>(v),
        raw matches Ok(None) ==> (r matches Err(DbError::EntityNotFound { entity: e, id }) && e == entity
            && id == id_display),
        raw matches Err(err) ==> (r matches Err(x) && x == driver_outcome(entity, op, err)),
{
    match raw {
        Ok(Some(v)) => Ok(v),
        Ok(None) => Err(DbError::EntityNotFound { entity, id: id_display }),
        Err(err) => Err(driver_error(entity, op, err)),
    }
}

/// The result of a delete, given the number of rows it removed: none
/// removed is `EntityNotFound` with the id's display form.
pub fn delete_outcome(entity: &'static str, id_display: String, raw: Result<u64, sqlx::Error>) -> (r: Result<(), DbError>)
    ensures
        raw matches Ok(n) ==> (n > 0 ==> r is Ok),
        raw == Ok::<u64, sqlx::Error>(0) ==> (r matches Err(DbError::EntityNotFound { entity: e, id })
            && e == entity && id == id_display),
        raw matches Err(err) ==> (r matches Err(x) && x == driver_outcome(entity, DbBmcOp::Delete, err)),
{
    match raw {
        Ok(n) => if n == 0 {
            Err(DbError::EntityNotFound { entity, id: id_display })
        } else {
            Ok(())
        },
        Err(err) => Err(driver_error(entity, DbBmcOp::Delete, err)),
    }
}

/// The result of fetching a page with a limit of `limit`.
pub fn page_outcome<E: Cursored>(
    entity: &'static str,
    raw: Result<Vec<E>, sqlx::Error>,
    limit: usize,
) -> (r: Result<Paginated<E>, DbError>)
    ensures
        raw matches Ok(rows) ==> (r matches Ok(p) && p.entries@ == rows@ && p.limit == limit
            && p.next_cursor == crate::pagination::next_cursor_of(
            crate::pagination::cursors_of(rows@),
            limit as nat,
        )),
        raw matches Err(err) ==> (r matches Err(x) && x == driver_outcome(entity, DbBmcOp::ListPaginated, err)),
{
    match raw {
        Ok(rows) => Ok(Paginated::new(rows, limit)),
        Err(err) => Err(driver_error(entity, DbBmcOp::ListPaginated, err)),
    }
}

} // verus!
