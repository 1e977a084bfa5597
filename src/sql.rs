//! The statement builder and renderer of sea-query, as the engine uses it,
//! with a model of what each statement holds.
use vstd::prelude::*;

use sea_query_binder::SqlxBinder;

use crate::pagination::SortOrder;
use crate::query::Column;

verus! {

#[verifier::external_type_specification]
#[verifier::external_body]
pub struct ExSimpleExpr(sea_query::SimpleExpr);

#[verifier::external_type_specification]
#[verifier::external_body]
pub struct ExSelectStatement(sea_query::SelectStatement);

#[verifier::external_type_specification]
#[verifier::external_body]
pub struct ExInsertStatement(sea_query::InsertStatement);

#[verifier::external_type_specification]
#[verifier::external_body]
pub struct ExUpdateStatement(sea_query::UpdateStatement);

#[verifier::external_type_specification]
#[verifier::external_body]
pub struct ExDeleteStatement(sea_query::DeleteStatement);

#[verifier::external_type_specification]
#[verifier::external_body]
pub struct ExSqlxValues(sea_query_binder::SqlxValues);

/// A comparison of a column with a value.
pub enum Compare {
    Eq,
    Gt,
    Lt,
}

/// A WHERE condition `column op value`; the conditions of a statement are
/// joined by AND.
pub struct Cond {
    pub column: Seq<char>,
    pub op: Compare,
    pub value: sea_query::SimpleExpr,
}

/// An item of a SELECT list.
pub enum Selected {
    Column(Seq<char>),
    Count(Seq<char>),
}

/// What a SELECT holds: its list, its tables, its conditions in the order
/// they were added, its ORDER BY and its LIMIT. `chained` tells that its
/// WHERE was built by `and_or_where`, after which no condition in
/// condition form can be added.
pub struct SelectModel {
    pub selects: Seq<Selected>,
    pub from: Seq<Seq<char>>,
    pub conditions: Seq<Cond>,
    pub orders: Seq<(Seq<char>, SortOrder)>,
    pub limit: Option<u64>,
    pub chained: bool,
}

/// What an INSERT holds.
pub struct InsertModel {
    pub table: Option<Seq<char>>,
    pub columns: Seq<Seq<char>>,
    pub rows: Seq<Seq<sea_query::SimpleExpr>>,
    pub returning: Option<Seq<Seq<char>>>,
}

/// What an UPDATE holds; `chained` as for a SELECT.
pub struct UpdateModel {
    pub table: Option<Seq<char>>,
    pub values: Seq<(Seq<char>, sea_query::SimpleExpr)>,
    pub conditions: Seq<Cond>,
    pub returning: Option<Seq<Seq<char>>>,
    pub chained: bool,
}

/// What a DELETE holds; `chained` as for a SELECT.
pub struct DeleteModel {
    pub table: Option<Seq<char>>,
    pub conditions: Seq<Cond>,
    pub chained: bool,
}

/// The names of a sequence of columns.
pub open spec fn col_names(cols: Seq<Column>) -> Seq<Seq<char>> {
    cols.map_values(|c: Column| c.name@)
}

impl SelectModel {
    pub open spec fn empty() -> SelectModel {
        SelectModel { selects: seq![], from: seq![], conditions: seq![], orders: seq![], limit: None, chained: false }
    }

    pub open spec fn with_selects(self, s: Seq<Selected>) -> SelectModel {
        SelectModel { selects: self.selects + s, ..self }
    }

    pub open spec fn with_from(self, t: Seq<char>) -> SelectModel {
        SelectModel { from: self.from.push(t), ..self }
    }

    pub open spec fn with_cond(self, c: Cond) -> SelectModel {
        SelectModel { conditions: self.conditions.push(c), ..self }
    }

    pub open spec fn with_order(self, col: Seq<char>, order: SortOrder) -> SelectModel {
        SelectModel { orders: self.orders.push((col, order)), ..self }
    }

    pub open spec fn with_conditions(self, conds: Seq<Cond>) -> SelectModel {
        SelectModel { conditions: conds, ..self }
    }

    pub open spec fn with_limit(self, n: u64) -> SelectModel {
        SelectModel { limit: Some(n), ..self }
    }
}

/// The content of a SELECT of sea-query.
pub uninterp spec fn select_model(q: sea_query::SelectStatement) -> SelectModel;

/// The content of an INSERT of sea-query.
pub uninterp spec fn insert_model(q: sea_query::InsertStatement) -> InsertModel;

/// The content of an UPDATE of sea-query.
pub uninterp spec fn update_model(q: sea_query::UpdateStatement) -> UpdateModel;

/// The content of a DELETE of sea-query.
pub uninterp spec fn delete_model(q: sea_query::DeleteStatement) -> DeleteModel;

/// The Postgres text of a SELECT.
pub uninterp spec fn select_sql(q: sea_query::SelectStatement) -> Seq<char>;

/// The Postgres text of an INSERT.
pub uninterp spec fn insert_sql(q: sea_query::InsertStatement) -> Seq<char>;

/// The Postgres text of an UPDATE.
pub uninterp spec fn update_sql(q: sea_query::UpdateStatement) -> Seq<char>;

/// The Postgres text of a DELETE.
pub uninterp spec fn delete_sql(q: sea_query::DeleteStatement) -> Seq<char>;

/// The text of an expression written as custom SQL, if it is one.
pub uninterp spec fn custom_sql(e: sea_query::SimpleExpr) -> Option<Seq<char>>;

/// Relies on sea_query's `Expr::cust`: `SimpleExpr::Custom("NULL")`.
#[verifier::external_body]
pub(crate) fn null_expr() -> (r: sea_query::SimpleExpr)
    ensures
        custom_sql(r) == Some("NULL"@),
{
    sea_query::Expr::cust("NULL")
}

/// Relies on sea_query's `Query::select`: an empty SELECT.
#[verifier::external_body]
pub(crate) fn select_new() -> (r: sea_query::SelectStatement)
    ensures
        select_model(r) == SelectModel::empty(),
{
    sea_query::Query::select()
}

/// Relies on sea_query's `SelectStatement::from`: adds `table` to FROM.
#[verifier::external_body]
pub(crate) fn select_from(q: &mut sea_query::SelectStatement, table: &str)
    ensures
        select_model(*final(q)) == select_model(*old(q)).with_from(table@),
{
    q.from(sea_query::Alias::new(table));
}

/// Relies on sea_query's `SelectStatement::columns`: appends the columns to
/// the SELECT list.
#[verifier::external_body]
pub(crate) fn select_columns(q: &mut sea_query::SelectStatement, cols: &Vec<Column>)
    ensures
        select_model(*final(q)) == select_model(*old(q)).with_selects(
            col_names(cols@).map_values(|n: Seq<char>| Selected::Column(n)),
        ),
{
    q.columns(cols.iter().map(|c| sea_query::Alias::new(c.name.as_str())));
}

/// Relies on sea_query's `SelectStatement::expr` with `Expr::col` and
/// `Expr::count`: appends `COUNT(c)` to the SELECT list.
#[verifier::external_body]
pub(crate) fn select_count(q: &mut sea_query::SelectStatement, c: &Column)
    ensures
        select_model(*final(q)) == select_model(*old(q)).with_selects(seq![Selected::Count(c.name@)]),
{
    q.expr(sea_query::Expr::col(sea_query::Alias::new(c.name.as_str())).count());
}

/// Relies on sea_query's `SelectStatement::and_where` with `Expr::col` and
/// `Expr::eq`: adds the condition `c = v`. `and_where` panics on a WHERE
/// built by `and_or_where`, which `requires` leaves out.
#[verifier::external_body]
pub(crate) fn select_where_eq(q: &mut sea_query::SelectStatement, c: &Column, v: sea_query::SimpleExpr)
    requires
        !select_model(*old(q)).chained,
    ensures
        select_model(*final(q)) == select_model(*old(q)).with_cond(
            Cond { column: c.name@, op: Compare::Eq, value: v },
        ),
{
    q.and_where(sea_query::Expr::col(sea_query::Alias::new(c.name.as_str())).eq(v));
}

/// Relies on sea_query's `SelectStatement::and_where` with `Expr::col` and
/// `Expr::gt`: adds the condition `c > v`. `and_where` panics on a WHERE
/// built by `and_or_where`, which `requires` leaves out.
#[verifier::external_body]
pub(crate) fn select_where_gt(q: &mut sea_query::SelectStatement, c: &Column, v: sea_query::SimpleExpr)
    requires
        !select_model(*old(q)).chained,
    ensures
        select_model(*final(q)) == select_model(*old(q)).with_cond(
            Cond { column: c.name@, op: Compare::Gt, value: v },
        ),
{
    q.and_where(sea_query::Expr::col(sea_query::Alias::new(c.name.as_str())).gt(v));
}

/// Relies on sea_query's `SelectStatement::and_where` with `Expr::col` and
/// `Expr::lt`: adds the condition `c < v`. `and_where` panics on a WHERE
/// built by `and_or_where`, which `requires` leaves out.
#[verifier::external_body]
pub(crate) fn select_where_lt(q: &mut sea_query::SelectStatement, c: &Column, v: sea_query::SimpleExpr)
    requires
        !select_model(*old(q)).chained,
    ensures
        select_model(*final(q)) == select_model(*old(q)).with_cond(
            Cond { column: c.name@, op: Compare::Lt, value: v },
        ),
{
    q.and_where(sea_query::Expr::col(sea_query::Alias::new(c.name.as_str())).lt(v));
}

/// Relies on sea_query's `SelectStatement::order_by`: appends `c ASC|DESC`
/// to ORDER BY.
#[verifier::external_body]
pub(crate) fn select_order_by(q: &mut sea_query::SelectStatement, c: &Column, order: SortOrder)
    ensures
        select_model(*final(q)) == select_model(*old(q)).with_order(c.name@, order),
{
    let order = match order {
        SortOrder::Asc => sea_query::Order::Asc,
        SortOrder::Desc => sea_query::Order::Desc,
    };
    q.order_by(sea_query::Alias::new(c.name.as_str()), order);
}

/// Relies on sea_query's `SelectStatement::limit`: sets `LIMIT n`.
#[verifier::external_body]
pub(crate) fn select_limit(q: &mut sea_query::SelectStatement, n: u64)
    ensures
        select_model(*final(q)) == select_model(*old(q)).with_limit(n),
{
    q.limit(n);
}

/// Relies on sea_query_binder's `build_sqlx` with the Postgres builder: the
/// SQL text and the values bound to its parameters.
#[verifier::external_body]
pub(crate) fn build_select(q: &sea_query::SelectStatement) -> (r: (String, sea_query_binder::SqlxValues))
    ensures
        r.0@ == select_sql(*q),
{
    q.build_sqlx(sea_query::PostgresQueryBuilder)
}

/// Relies on sea_query's `Query::insert`: an empty INSERT.
#[verifier::external_body]
pub(crate) fn insert_new() -> (r: sea_query::InsertStatement)
    ensures
        insert_model(r) == (InsertModel { table: None, columns: seq![], rows: seq![], returning: None }),
{
    sea_query::Query::insert()
}

/// Relies on sea_query's `InsertStatement::into_table`: sets the table.
#[verifier::external_body]
pub(crate) fn insert_into(q: &mut sea_query::InsertStatement, table: &str)
    ensures
        insert_model(*final(q)) == (InsertModel { table: Some(table@), ..insert_model(*old(q)) }),
{
    q.into_table(sea_query::Alias::new(table));
}

/// Relies on sea_query's `InsertStatement::columns`, which replaces the
/// columns, and `values_panic`, which adds a row unless it is empty. It
/// panics only when the number of values differs from the number of
/// columns, which the pairs rule out.
#[verifier::external_body]
pub(crate) fn insert_row(q: &mut sea_query::InsertStatement, row: Vec<(Column, sea_query::SimpleExpr)>)
    ensures
        insert_model(*final(q)) == (InsertModel {
            columns: row@.map_values(|p: (Column, sea_query::SimpleExpr)| p.0.name@),
            rows: if row@.len() > 0 {
                insert_model(*old(q)).rows.push(row@.map_values(|p: (Column, sea_query::SimpleExpr)| p.1))
            } else {
                insert_model(*old(q)).rows
            },
            ..insert_model(*old(q))
        }),
{
    let (cols, vals): (Vec<Column>, Vec<sea_query::SimpleExpr>) = row.into_iter().unzip();
    q.columns(cols.iter().map(|c| sea_query::Alias::new(c.name.as_str())));
    q.values_panic(vals);
}

/// Relies on sea_query's `InsertStatement::returning` with
/// `Query::returning().columns`: sets `RETURNING cols`.
#[verifier::external_body]
pub(crate) fn insert_returning(q: &mut sea_query::InsertStatement, cols: &Vec<Column>)
    ensures
        insert_model(*final(q)) == (InsertModel { returning: Some(col_names(cols@)), ..insert_model(*old(q)) }),
{
    q.returning(sea_query::Query::returning().columns(cols.iter().map(|c| sea_query::Alias::new(c.name.as_str()))));
}

/// Relies on sea_query_binder's `build_sqlx` with the Postgres builder.
#[verifier::external_body]
pub(crate) fn build_insert(q: &sea_query::InsertStatement) -> (r: (String, sea_query_binder::SqlxValues))
    ensures
        r.0@ == insert_sql(*q),
{
    q.build_sqlx(sea_query::PostgresQueryBuilder)
}

/// Relies on sea_query's `Query::update`: an empty UPDATE.
#[verifier::external_body]
pub(crate) fn update_new() -> (r: sea_query::UpdateStatement)
    ensures
        update_model(r) == (UpdateModel { table: None, values: seq![], conditions: seq![], returning: None, chained: false }),
{
    sea_query::Query::update()
}

/// Relies on sea_query's `UpdateStatement::table`: sets the table.
#[verifier::external_body]
pub(crate) fn update_table(q: &mut sea_query::UpdateStatement, table: &str)
    ensures
        update_model(*final(q)) == (UpdateModel { table: Some(table@), ..update_model(*old(q)) }),
{
    q.table(sea_query::Alias::new(table));
}

/// Relies on sea_query's `UpdateStatement::values`: appends `c = v` pairs to
/// SET.
#[verifier::external_body]
pub(crate) fn update_values(q: &mut sea_query::UpdateStatement, pairs: Vec<(Column, sea_query::SimpleExpr)>)
    ensures
        update_model(*final(q)) == (UpdateModel {
            values: update_model(*old(q)).values + pairs@.map_values(
                |p: (Column, sea_query::SimpleExpr)| (p.0.name@, p.1),
            ),
            ..update_model(*old(q))
        }),
{
    q.values(pairs.into_iter().map(|(c, v)| (sea_query::Alias::new(c.name), v)));
}

/// Relies on sea_query's `UpdateStatement::and_where` with `Expr::col` and
/// `Expr::eq`: adds the condition `c = v`. `and_where` panics on a WHERE
/// built by `and_or_where`, which `requires` leaves out.
#[verifier::external_body]
pub(crate) fn update_where_eq(q: &mut sea_query::UpdateStatement, c: &Column, v: sea_query::SimpleExpr)
    requires
        !update_model(*old(q)).chained,
    ensures
        update_model(*final(q)) == (UpdateModel {
            conditions: update_model(*old(q)).conditions.push(Cond { column: c.name@, op: Compare::Eq, value: v }),
            ..update_model(*old(q))
        }),
{
    q.and_where(sea_query::Expr::col(sea_query::Alias::new(c.name.as_str())).eq(v));
}

/// Relies on sea_query's `UpdateStatement::returning` with
/// `Query::returning().columns`: sets `RETURNING cols`.
#[verifier::external_body]
pub(crate) fn update_returning(q: &mut sea_query::UpdateStatement, cols: &Vec<Column>)
    ensures
        update_model(*final(q)) == (UpdateModel { returning: Some(col_names(cols@)), ..update_model(*old(q)) }),
{
    q.returning(sea_query::Query::returning().columns(cols.iter().map(|c| sea_query::Alias::new(c.name.as_str()))));
}

/// Relies on sea_query_binder's `build_sqlx` with the Postgres builder.
#[verifier::external_body]
pub(crate) fn build_update(q: &sea_query::UpdateStatement) -> (r: (String, sea_query_binder::SqlxValues))
    ensures
        r.0@ == update_sql(*q),
{
    q.build_sqlx(sea_query::PostgresQueryBuilder)
}

/// Relies on sea_query's `Query::delete`: an empty DELETE.
#[verifier::external_body]
pub(crate) fn delete_new() -> (r: sea_query::DeleteStatement)
    ensures
        delete_model(r) == (DeleteModel { table: None, conditions: seq![], chained: false }),
{
    sea_query::Query::delete()
}

/// Relies on sea_query's `DeleteStatement::from_table`: sets the table.
#[verifier::external_body]
pub(crate) fn delete_from(q: &mut sea_query::DeleteStatement, table: &str)
    ensures
        delete_model(*final(q)) == (DeleteModel { table: Some(table@), ..delete_model(*old(q)) }),
{
    q.from_table(sea_query::Alias::new(table));
}

/// Relies on sea_query's `DeleteStatement::and_where` with `Expr::col` and
/// `Expr::eq`: adds the condition `c = v`. `and_where` panics on a WHERE
/// built by `and_or_where`, which `requires` leaves out.
#[verifier::external_body]
pub(crate) fn delete_where_eq(q: &mut sea_query::DeleteStatement, c: &Column, v: sea_query::SimpleExpr)
    requires
        !delete_model(*old(q)).chained,
    ensures
        delete_model(*final(q)) == (DeleteModel {
            conditions: delete_model(*old(q)).conditions.push(Cond { column: c.name@, op: Compare::Eq, value: v }),
            ..delete_model(*old(q))
        }),
{
    q.and_where(sea_query::Expr::col(sea_query::Alias::new(c.name.as_str())).eq(v));
}

/// Relies on sea_query_binder's `build_sqlx` with the Postgres builder.
#[verifier::external_body]
pub(crate) fn build_delete(q: &sea_query::DeleteStatement) -> (r: (String, sea_query_binder::SqlxValues))
    ensures
        r.0@ == delete_sql(*q),
{
    q.build_sqlx(sea_query::PostgresQueryBuilder)
}

} // verus!
