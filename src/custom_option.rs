//! An optional value that renders as `NULL` when absent.
use vstd::prelude::*;

use crate::sql;

verus! {

/// An optional value of a statement: the value when present, `NULL` when
/// absent. sea-query has no null of its own type for `Option`, and the
/// orphan rule forbids converting `Option` of a foreign type directly.
pub struct CustomOption<T>(pub Option<T>);

impl<T: Into<sea_query::SimpleExpr>> From<Option<T>> for CustomOption<T> {
    fn from(value: Option<T>) -> (r: Self) {
        CustomOption(value)
    }
}

impl<T: Into<sea_query::SimpleExpr>> vstd::std_specs::convert::FromSpecImpl<Option<T>> for CustomOption<T> {
    open spec fn obeys_from_spec() -> bool {
        true
    }

    open spec fn from_spec(v: Option<T>) -> Self {
        CustomOption(v)
    }
}

impl<T: Into<sea_query::SimpleExpr>> CustomOption<T> {
    /// The value as an expression, or `NULL` when absent.
    pub fn into_expr(self) -> (r: sea_query::SimpleExpr)
        ensures
            self.0 matches Some(v) ==> call_ensures(T::into, (v,), r),
            self.0 is None ==> sql::custom_sql(r) == Some("NULL"@),
    {
        match self.0 {
            Some(v) => v.into(),
            None => sql::null_expr(),
        }
    }
}

} // verus!
