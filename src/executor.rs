//! The executors that operations run through.
use vstd::prelude::*;

verus! {

/// The statement that a transaction runs first: every transaction of the
/// engine is serializable.
pub const SET_SERIALIZABLE: &'static str = "SET TRANSACTION ISOLATION LEVEL SERIALIZABLE;";

/// A handle that operations can run statements through: the pool, or one
/// active transaction. Holding one grants no access to the raw connection.
pub trait AsExecutor {
    /// Whether statements run inside a transaction; the pool is not one.
    fn is_transaction(&self) -> bool {
        false
    }
}

} // verus!
