use vstd::prelude::*;

verus! {

/// The kind of operation a controller performed, carried by its errors.
#[derive(Debug, Clone, Copy, PartialEq, Eq, Structural, PartialOrd, Ord, Hash)]
#[non_exhaustive]
pub enum DbBmcOp {
    Count,
    Create,
    Delete,
    Get,
    List,
    ListPaginated,
    Update,
}

/// The upper-case label of an operation, as it appears in messages.
pub open spec fn op_label(op: DbBmcOp) -> Seq<char> {
    match op {
        DbBmcOp::Count => "COUNT"@,
        DbBmcOp::Create => "CREATE"@,
        DbBmcOp::Delete => "DELETE"@,
        DbBmcOp::Get => "GET"@,
        DbBmcOp::List => "LIST"@,
        DbBmcOp::ListPaginated => "LIST PAGINATED"@,
        DbBmcOp::Update => "UPDATE"@,
    }
}

impl DbBmcOp {
    /// The label of this operation (`"LIST PAGINATED"` for `ListPaginated`).
    pub fn label(&self) -> (r: &'static str)
        ensures
            r@ == op_label(*self),
    {
        match self {
            DbBmcOp::Count => "COUNT",
            DbBmcOp::Create => "CREATE",
            DbBmcOp::Delete => "DELETE",
            DbBmcOp::Get => "GET",
            DbBmcOp::List => "LIST",
            DbBmcOp::ListPaginated => "LIST PAGINATED",
            DbBmcOp::Update => "UPDATE",
        }
    }

    /// The label as an owned string.
    pub fn to_string(&self) -> (r: String)
        ensures
            r@ == op_label(*self),
    {
        let s = self.label();
        s.to_string()
    }
}

} // verus!
