use vstd::prelude::*;

use crate::driver::{database_code, database_constraint};
use crate::op::DbBmcOp;

verus! {

/// The SQLSTATE code with which the store reports a serialization failure.
pub const SERIALIZATION_FAILURE_CODE: &'static str = "40001";

/// Whether a driver error code is the serialization-failure code.
pub open spec fn is_serialization_code(code: Option<Seq<char>>) -> bool {
    code == Some("40001"@)
}

/// Tests a driver error code for the serialization-failure code.
pub fn is_serialization_failure(code: &Option<String>) -> (r: bool)
    ensures
        r == is_serialization_code(opt_view(*code)),
{
    match code {
        Some(c) => {
            let expected = SERIALIZATION_FAILURE_CODE.to_string();
            let r = *c == expected;
            proof {
                if r {
                    assert(c@ =~= "40001"@);
                }
            }
            r
        },
        None => false,
    }
}

/// The characters of an optional string.
pub open spec fn opt_view(s: Option<String>) -> Option<Seq<char>> {
    match s {
        Some(v) => Some(v@),
        None => None,
    }
}

/// The failure underneath an operation error.
#[derive(Debug)]
pub enum OpError {
    /// The driver reported an error.
    Sqlx { source: sqlx::Error },
    /// A count did not fit in `usize`.
    Usize { source: core::num::TryFromIntError },
}

/// A failed controller operation, with the entity and the kind of operation.
#[derive(Debug)]
pub enum DbBmcError {
    Operation { entity: &'static str, operation: DbBmcOp, source: OpError },
}

impl DbBmcError {
    /// The SQLSTATE code of the driver error underneath, if any.
    pub open spec fn driver_code(self) -> Option<Seq<char>> {
        match self {
            DbBmcError::Operation { source: OpError::Sqlx { source }, .. } => crate::driver::sqlstate_of(source),
            _ => None,
        }
    }

    /// Whether the failure underneath came from the driver.
    pub open spec fn is_driver_error(self) -> bool {
        match self {
            DbBmcError::Operation { source, .. } => source is Sqlx,
        }
    }
}

/// A failure of the connection pool or of a transaction's lifecycle.
#[derive(Debug)]
pub enum DbModelManagerError {
    Connectivity { source: sqlx::Error },
    TransactionBegin { source: sqlx::Error },
    TransactionIsolation { source: sqlx::Error },
    TransactionCommit { source: sqlx::Error },
    TransactionRollback { source: sqlx::Error },
}

impl DbModelManagerError {
    /// The driver error underneath.
    pub open spec fn driver_error(self) -> sqlx::Error {
        match self {
            DbModelManagerError::Connectivity { source } => source,
            DbModelManagerError::TransactionBegin { source } => source,
            DbModelManagerError::TransactionIsolation { source } => source,
            DbModelManagerError::TransactionCommit { source } => source,
            DbModelManagerError::TransactionRollback { source } => source,
        }
    }

    /// The driver error underneath.
    pub fn source(&self) -> (r: &sqlx::Error)
        ensures
            *r == self.driver_error(),
    {
        match self {
            DbModelManagerError::Connectivity { source } => source,
            DbModelManagerError::TransactionBegin { source } => source,
            DbModelManagerError::TransactionIsolation { source } => source,
            DbModelManagerError::TransactionCommit { source } => source,
            DbModelManagerError::TransactionRollback { source } => source,
        }
    }
}

/// A retryable serialization conflict, with the error that reported it.
#[derive(Debug)]
pub enum SerializationError {
    DbBmc { source: DbBmcError },
    ModelManager { source: DbModelManagerError },
}

/// The errors surfaced to callers of the engine.
#[derive(Debug)]
pub enum DbError {
    /// An update carried no column to change.
    EmptyUpdate { entity: &'static str, id: String },
    /// No row has the given id.
    EntityNotFound { entity: &'static str, id: String },
    /// The connection pool could not be built.
    FailedToCreateDBPool { message: String },
    /// A controller operation failed.
    DbBmc { source: DbBmcError },
    /// The pool or a transaction failed.
    ModelManager { source: DbModelManagerError },
    /// The store could not serialize the transaction; the whole unit of work
    /// may be retried.
    TransactionSerialization { source: SerializationError },
    /// The caller gave up retrying; holds the last error.
    TransactionRetriesExceeded { source: Box<DbError> },
    /// A migration failed.
    SqlxMigrate { source: sqlx::migrate::MigrateError },
}

/// The error that a failed operation becomes, given the code of its driver
/// error: a serialization failure reported by the driver is set apart.
pub open spec fn bmc_error_of(value: DbBmcError, code: Option<Seq<char>>) -> DbError {
    if value.is_driver_error() && is_serialization_code(code) {
        DbError::TransactionSerialization { source: SerializationError::DbBmc { source: value } }
    } else {
        DbError::DbBmc { source: value }
    }
}

/// The error that a pool or transaction failure becomes, given the code of
/// its driver error.
pub open spec fn manager_error_of(value: DbModelManagerError, code: Option<Seq<char>>) -> DbError {
    if is_serialization_code(code) {
        DbError::TransactionSerialization { source: SerializationError::ModelManager { source: value } }
    } else {
        DbError::ModelManager { source: value }
    }
}

/// The characters of an optional string slice.
pub open spec fn opt_str_view(s: Option<&str>) -> Option<Seq<char>> {
    match s {
        Some(v) => Some(v@),
        None => None,
    }
}

impl DbError {
    /// The constraint that the driver error underneath names, if any.
    pub open spec fn constraint_spec(self) -> Option<Seq<char>> {
        match self {
            DbError::DbBmc { source: DbBmcError::Operation { source: OpError::Sqlx { source }, .. } } =>
                crate::driver::constraint_of(source),
            DbError::ModelManager { source } => crate::driver::constraint_of(source.driver_error()),
            _ => None,
        }
    }

    /// Classifies a failed operation whose driver error carries `code`.
    pub fn from_bmc_code(value: DbBmcError, code: Option<String>) -> (r: DbError)
        ensures
            r == bmc_error_of(value, opt_view(code)),
    {
        let is_driver = match &value {
            DbBmcError::Operation { source: OpError::Sqlx { .. }, .. } => true,
            _ => false,
        };
        if is_driver && is_serialization_failure(&code) {
            DbError::TransactionSerialization { source: SerializationError::DbBmc { source: value } }
        } else {
            DbError::DbBmc { source: value }
        }
    }

    /// Classifies a failed operation by the code of its driver error.
    pub fn from_bmc(value: DbBmcError) -> (r: DbError)
        ensures
            r == bmc_error_of(value, value.driver_code()),
    {
        let code = match &value {
            DbBmcError::Operation { source: OpError::Sqlx { source }, .. } => database_code(source),
            _ => None,
        };
        DbError::from_bmc_code(value, code)
    }

    /// Classifies a pool or transaction failure whose driver error carries `code`.
    pub fn from_manager_code(value: DbModelManagerError, code: Option<String>) -> (r: DbError)
        ensures
            r == manager_error_of(value, opt_view(code)),
    {
        if is_serialization_failure(&code) {
            DbError::TransactionSerialization {
                source: SerializationError::ModelManager { source: value },
            }
        } else {
            DbError::ModelManager { source: value }
        }
    }

    /// Classifies a pool or transaction failure by the code of its driver error.
    pub fn from_manager(value: DbModelManagerError) -> (r: DbError)
        ensures
            r == manager_error_of(value, crate::driver::sqlstate_of(value.driver_error())),
    {
        let code = database_code(value.source());
        DbError::from_manager_code(value, code)
    }

    /// Whether the caller may retry the whole unit of work.
    pub fn is_serialization(&self) -> (r: bool)
        ensures
            r == (*self is TransactionSerialization),
    {
        match self {
            DbError::TransactionSerialization { .. } => true,
            _ => false,
        }
    }

    /// The name of the constraint that triggered the error, where the driver
    /// reported one.
    pub fn constraint(&self) -> (r: Option<&str>)
        ensures
            opt_str_view(r) == self.constraint_spec(),
    {
        match self {
            DbError::DbBmc {
                source: DbBmcError::Operation { source: OpError::Sqlx { source }, .. },
            } => database_constraint(source),
            DbError::ModelManager { source } => database_constraint(source.source()),
            _ => None,
        }
    }
}

/// A driver error that carries the serialization-failure code becomes a
/// `TransactionSerialization` error whatever operation reported it, and
/// through no other code; the same holds of pool and transaction failures.
pub proof fn lemma_serialization_whatever_operation(
    entity: &'static str,
    op: DbBmcOp,
    err: sqlx::Error,
    m: DbModelManagerError,
)
    ensures
        bmc_error_of(
            DbBmcError::Operation { entity, operation: op, source: OpError::Sqlx { source: err } },
            Some("40001"@),
        ) is TransactionSerialization,
        manager_error_of(m, Some("40001"@)) is TransactionSerialization,
        crate::driver::sqlstate_of(err) == Some("40001"@) <==> bmc_error_of(
            DbBmcError::Operation { entity, operation: op, source: OpError::Sqlx { source: err } },
            crate::driver::sqlstate_of(err),
        ) is TransactionSerialization,
        forall|code: Option<Seq<char>>|
            #![trigger bmc_error_of(DbBmcError::Operation { entity, operation: op, source: OpError::Sqlx { source: err } }, code)]
            !is_serialization_code(code) ==> bmc_error_of(
                DbBmcError::Operation { entity, operation: op, source: OpError::Sqlx { source: err } },
                code,
            ) is DbBmc,
        forall|code: Option<Seq<char>>| #![trigger manager_error_of(m, code)]
            !is_serialization_code(code) ==> manager_error_of(m, code) is ModelManager,
{
}

/// The result of the engine's operations.
pub type Result<T> = core::result::Result<T, DbError>;

} // verus!
