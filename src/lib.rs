//! A generic CRUD engine for relational model controllers: statement plans,
//! result mapping, error classification and keyset pagination.
mod driver;
pub mod custom_option;
pub mod engine;
pub mod error;
pub mod executor;
pub mod op;
pub mod pagination;
pub mod query;
pub mod sql;

pub use custom_option::CustomOption;
pub use error::{DbBmcError, DbError, DbModelManagerError, OpError, Result, SerializationError};
pub use executor::AsExecutor;
pub use op::DbBmcOp;
pub use pagination::{Cursored, CursoredFilter, Paginated, SortOrder};
pub use query::{BuiltStatement, Column, CursorBound, DbBmc, Filter, IdType, Insert, PageQuery, Select, Statement, Update};
