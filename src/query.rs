//! The statements the engine runs, described by plain values, and their
//! rendering to SQL.
use vstd::prelude::*;

use crate::error::DbError;
use crate::pagination::SortOrder;
use crate::sql;
use crate::sql::{Compare, Cond, DeleteModel, InsertModel, SelectModel, Selected, UpdateModel};

verus! {

/// A reference to a column, by name.
#[derive(Debug, Clone)]
pub struct Column {
    pub name: String,
}

impl Column {
    /// A column of the given name.
    pub fn new(name: &str) -> (r: Column)
        ensures
            r.name@ == name@,
    {
        Column { name: name.to_string() }
    }
}

/// A type that can be fetched from the store, by naming its columns.
pub trait Select {
    /// The columns to fetch.
    fn select_cols() -> Vec<Column>;
}

/// A type that can be inserted as a new row.
pub trait Insert {
    /// The columns to insert.
    fn insert_cols(&self) -> Vec<Column>;

    /// The values of the columns of `insert_cols`, in the same order.
    /// Consumes `self`.
    fn insert_vals(self) -> Vec<sea_query::SimpleExpr>;
}

/// A type that describes a change to a row.
pub trait Update {
    /// The (column, value) pairs to write; a field that is absent writes
    /// nothing. Consumes `self`.
    fn update_values(self) -> Vec<(Column, sea_query::SimpleExpr)>;
}

/// A type that adds conditions to the SELECT of a page.
pub trait Filter {
    /// Adds conditions to `query` with `and_where` (or `cond_where`), and
    /// changes nothing else; adds none by default.
    fn filter_query(&self, query: &mut sea_query::SelectStatement)
        ensures
            sql::select_model(*final(query)) == sql::select_model(*old(query)).with_conditions(
                sql::select_model(*final(query)).conditions,
            ),
            sql::select_model(*old(query)).conditions.is_prefix_of(
                sql::select_model(*final(query)).conditions,
            ),
    {
    }
}

/// A type that identifies a row. Each id type implements it by hand,
/// usually by converting a reference to the id into an expression.
pub trait IdType: Clone {
    /// The id as a value of a statement.
    fn id_value(&self) -> sea_query::SimpleExpr;
}

/// The fixed description of a model controller.
pub trait DbBmc {
    /// The name of the entity, for messages (such as `book`).
    const ENTITY: &'static str;

    /// The table that holds the entities.
    const TABLE: &'static str;

    /// The error of the controller's operations.
    type Error;

    /// The type of the id column.
    type IdType: IdType;

    /// The id column.
    fn id_column() -> Column;

    /// The id as a value of a statement.
    fn id_to_value(id: &Self::IdType) -> sea_query::SimpleExpr {
        id.id_value()
    }
}

/// A statement of the engine, before rendering.
pub enum Statement {
    /// `SELECT COUNT(id_column) FROM table`
    Count { table: String, id_column: Column },
    /// `INSERT INTO table (columns) VALUES (values) RETURNING returning`
    Insert {
        table: String,
        row: Vec<(Column, sea_query::SimpleExpr)>,
        returning: Vec<Column>,
    },
    /// `SELECT columns FROM table WHERE id_column = id`
    SelectById { table: String, columns: Vec<Column>, id_column: Column, id: sea_query::SimpleExpr },
    /// `SELECT columns FROM table`
    SelectAll { table: String, columns: Vec<Column> },
    /// `UPDATE table SET values WHERE id_column = id RETURNING returning`
    Update {
        table: String,
        values: Vec<(Column, sea_query::SimpleExpr)>,
        id_column: Column,
        id: sea_query::SimpleExpr,
        returning: Vec<Column>,
    },
    /// `DELETE FROM table WHERE id_column = id`
    Delete { table: String, id_column: Column, id: sea_query::SimpleExpr },
}

/// Pairs each column with the value at the same place.
fn zip_row(cols: Vec<Column>, vals: Vec<sea_query::SimpleExpr>) -> (r: Vec<(Column, sea_query::SimpleExpr)>)
    requires
        cols@.len() == vals@.len(),
    ensures
        r@.len() == cols@.len(),
        forall|i: int| 0 <= i < r@.len() ==> #[trigger] r@[i] == (cols@[i], vals@[i]),
{
    let ghost cols0 = cols@;
    let ghost vals0 = vals@;
    let mut cols = cols;
    let mut vals = vals;
    let mut rev: Vec<(Column, sea_query::SimpleExpr)> = Vec::new();
    while cols.len() > 0
        invariant
            cols@.len() == vals@.len(),
            cols@ == cols0.take(cols@.len() as int),
            vals@ == vals0.take(vals@.len() as int),
            cols@.len() + rev@.len() == cols0.len(),
            cols0.len() == vals0.len(),
            forall|j: int| 0 <= j < rev@.len() ==> #[trigger] rev@[j] == (
                cols0[cols0.len() - 1 - j],
                vals0[vals0.len() - 1 - j],
            ),
        decreases cols@.len(),
    {
        let c = cols.pop().unwrap();
        let v = vals.pop().unwrap();
        rev.push((c, v));
    }
    let mut r: Vec<(Column, sea_query::SimpleExpr)> = Vec::new();
    while rev.len() > 0
        invariant
            r@.len() + rev@.len() == cols0.len(),
            cols0.len() == vals0.len(),
            forall|j: int| 0 <= j < rev@.len() ==> #[trigger] rev@[j] == (
                cols0[cols0.len() - 1 - j],
                vals0[vals0.len() - 1 - j],
            ),
            forall|i: int| 0 <= i < r@.len() ==> #[trigger] r@[i] == (cols0[i], vals0[i]),
        decreases rev@.len(),
    {
        let p = rev.pop().unwrap();
        r.push(p);
    }
    r
}

impl Statement {
    /// Counts the ids of a table.
    pub fn count(table: &str, id_column: Column) -> (r: Statement)
        ensures
            r matches Statement::Count { table: t, id_column: c } && t@ == table@ && c == id_column,
    {
        Statement::Count { table: table.to_string(), id_column }
    }

    /// Inserts one row and returns the `returning` columns of it. Each column
    /// gets the value at the same place.
    pub fn insert(
        table: &str,
        columns: Vec<Column>,
        values: Vec<sea_query::SimpleExpr>,
        returning: Vec<Column>,
    ) -> (r: Statement)
        requires
            columns@.len() == values@.len(),
        ensures
            r matches Statement::Insert { table: t, row, returning: ret } && t@ == table@
                && ret@ == returning@ && row@.len() == columns@.len() && (forall|i: int|
                0 <= i < row@.len() ==> #[trigger] row@[i] == (columns@[i], values@[i])),
    {
        let row = zip_row(columns, values);
        Statement::Insert { table: table.to_string(), row, returning }
    }

    /// Fetches the row whose id column equals `id`.
    pub fn get(table: &str, columns: Vec<Column>, id_column: Column, id: sea_query::SimpleExpr) -> (r: Statement)
        ensures
            r matches Statement::SelectById { table: t, columns: cs, id_column: c, id: x } && t@ == table@
                && cs@ == columns@ && c == id_column && x == id,
    {
        Statement::SelectById { table: table.to_string(), columns, id_column, id }
    }

    /// Fetches every row of a table.
    pub fn list(table: &str, columns: Vec<Column>) -> (r: Statement)
        ensures
            r matches Statement::SelectAll { table: t, columns: cs } && t@ == table@ && cs@ == columns@,
    {
        Statement::SelectAll { table: table.to_string(), columns }
    }

    /// Writes `values` to the row whose id column equals `id`. An empty
    /// update is refused before any statement exists: it fails with
    /// `EmptyUpdate`, naming the entity and the id's display form.
    pub fn update(
        entity: &'static str,
        id_display: String,
        table: &str,
        values: Vec<(Column, sea_query::SimpleExpr)>,
        id_column: Column,
        id: sea_query::SimpleExpr,
        returning: Vec<Column>,
    ) -> (r: Result<Statement, DbError>)
        ensures
            r is Err <==> values@.len() == 0,
            values@.len() == 0 ==> (r matches Err(DbError::EmptyUpdate { entity: e, id: i })
                && e == entity && i == id_display),
            values@.len() > 0 ==> (r matches Ok(Statement::Update { table: t, values: vs, id_column: c, id: x, returning: ret })
                && t@ == table@ && vs@ == values@ && c == id_column && x == id && ret@ == returning@),
    {
        if values.len() == 0 {
            return Err(DbError::EmptyUpdate { entity, id: id_display });
        }
        Ok(Statement::Update { table: table.to_string(), values, id_column, id, returning })
    }

    /// Deletes the row whose id column equals `id`.
    pub fn delete(table: &str, id_column: Column, id: sea_query::SimpleExpr) -> (r: Statement)
        ensures
            r matches Statement::Delete { table: t, id_column: c, id: x } && t@ == table@ && c == id_column
                && x == id,
    {
        Statement::Delete { table: table.to_string(), id_column, id }
    }

    /// Whether the statement may run: an update writes at least one column.
    pub open spec fn well_formed(self) -> bool {
        self matches Statement::Update { values, .. } ==> values@.len() > 0
    }

    /// Tests `well_formed`.
    pub fn is_well_formed(&self) -> (r: bool)
        ensures
            r == self.well_formed(),
    {
        match self {
            Statement::Update { values, .. } => values.len() > 0,
            _ => true,
        }
    }

    /// Whether `q` is this statement, built with sea-query.
    pub open spec fn built_as(self, q: BuiltStatement) -> bool {
        match self {
            Statement::Count { table, id_column } => q matches BuiltStatement::Select(s) && sql::select_model(s) == (
            SelectModel {
                selects: seq![Selected::Count(id_column.name@)],
                from: seq![table@],
                conditions: seq![],
                orders: seq![],
                limit: None,
                chained: false,
            }),
            Statement::Insert { table, row, returning } => q matches BuiltStatement::Insert(s) && sql::insert_model(s)
                == (InsertModel {
                table: Some(table@),
                columns: row@.map_values(|p: (Column, sea_query::SimpleExpr)| p.0.name@),
                rows: if row@.len() > 0 {
                    seq![row@.map_values(|p: (Column, sea_query::SimpleExpr)| p.1)]
                } else {
                    seq![]
                },
                returning: Some(sql::col_names(returning@)),
            }),
            Statement::SelectById { table, columns, id_column, id } => q matches BuiltStatement::Select(s)
                && sql::select_model(s) == (SelectModel {
                selects: sql::col_names(columns@).map_values(|n: Seq<char>| Selected::Column(n)),
                from: seq![table@],
                conditions: seq![Cond { column: id_column.name@, op: Compare::Eq, value: id }],
                orders: seq![],
                limit: None,
                chained: false,
            }),
            Statement::SelectAll { table, columns } => q matches BuiltStatement::Select(s) && sql::select_model(s) == (
            SelectModel {
                selects: sql::col_names(columns@).map_values(|n: Seq<char>| Selected::Column(n)),
                from: seq![table@],
                conditions: seq![],
                orders: seq![],
                limit: None,
                chained: false,
            }),
            Statement::Update { table, values, id_column, id, returning } => q matches BuiltStatement::Update(s)
                && sql::update_model(s) == (UpdateModel {
                table: Some(table@),
                values: values@.map_values(|p: (Column, sea_query::SimpleExpr)| (p.0.name@, p.1)),
                conditions: seq![Cond { column: id_column.name@, op: Compare::Eq, value: id }],
                returning: Some(sql::col_names(returning@)),
                chained: false,
            }),
            Statement::Delete { table, id_column, id } => q matches BuiltStatement::Delete(s) && sql::delete_model(s)
                == (DeleteModel {
                table: Some(table@),
                conditions: seq![Cond { column: id_column.name@, op: Compare::Eq, value: id }],
                chained: false,
            }),
        }
    }

    /// Builds the statement with sea-query.
    pub fn to_query(self) -> (r: BuiltStatement)
        requires
            self.well_formed(),
        ensures
            self.built_as(r),
    {
        match self {
            Statement::Count { table, id_column } => {
                let mut q = sql::select_new();
                sql::select_count(&mut q, &id_column);
                sql::select_from(&mut q, table.as_str());
                assert(sql::select_model(q).selects =~= seq![Selected::Count(id_column.name@)]);
                assert(sql::select_model(q).from =~= seq![table@]);
                BuiltStatement::Select(q)
            },
            Statement::Insert { table, row, returning } => {
                let ghost cols = row@.map_values(|p: (Column, sea_query::SimpleExpr)| p.0.name@);
                let ghost vals = row@.map_values(|p: (Column, sea_query::SimpleExpr)| p.1);
                let ghost rowv = row@;
                let mut q = sql::insert_new();
                sql::insert_into(&mut q, table.as_str());
                sql::insert_row(&mut q, row);
                sql::insert_returning(&mut q, &returning);
                proof {
                    if rowv.len() > 0 {
                        assert(seq![].push(vals) =~= seq![vals]);
                    }
                }
                BuiltStatement::Insert(q)
            },
            Statement::SelectById { table, columns, id_column, id } => {
                let mut q = sql::select_new();
                sql::select_from(&mut q, table.as_str());
                sql::select_columns(&mut q, &columns);
                sql::select_where_eq(&mut q, &id_column, id);
                assert(sql::select_model(q).from =~= seq![table@]);
                assert(sql::select_model(q).selects =~= sql::col_names(columns@).map_values(
                    |n: Seq<char>| Selected::Column(n),
                ));
                assert(sql::select_model(q).conditions =~= seq![Cond { column: id_column.name@, op: Compare::Eq, value: id }]);
                BuiltStatement::Select(q)
            },
            Statement::SelectAll { table, columns } => {
                let mut q = sql::select_new();
                sql::select_from(&mut q, table.as_str());
                sql::select_columns(&mut q, &columns);
                assert(sql::select_model(q).from =~= seq![table@]);
                assert(sql::select_model(q).selects =~= sql::col_names(columns@).map_values(
                    |n: Seq<char>| Selected::Column(n),
                ));
                BuiltStatement::Select(q)
            },
            Statement::Update { table, values, id_column, id, returning } => {
                let ghost pairs = values@.map_values(|p: (Column, sea_query::SimpleExpr)| (p.0.name@, p.1));
                let mut q = sql::update_new();
                sql::update_table(&mut q, table.as_str());
                sql::update_values(&mut q, values);
                sql::update_where_eq(&mut q, &id_column, id);
                sql::update_returning(&mut q, &returning);
                assert(sql::update_model(q).values =~= pairs);
                assert(sql::update_model(q).conditions =~= seq![Cond { column: id_column.name@, op: Compare::Eq, value: id }]);
                BuiltStatement::Update(q)
            },
            Statement::Delete { table, id_column, id } => {
                let mut q = sql::delete_new();
                sql::delete_from(&mut q, table.as_str());
                sql::delete_where_eq(&mut q, &id_column, id);
                assert(sql::delete_model(q).conditions =~= seq![Cond { column: id_column.name@, op: Compare::Eq, value: id }]);
                BuiltStatement::Delete(q)
            },
        }
    }
}

/// A statement built with sea-query, ready to render.
pub enum BuiltStatement {
    Select(sea_query::SelectStatement),
    Insert(sea_query::InsertStatement),
    Update(sea_query::UpdateStatement),
    Delete(sea_query::DeleteStatement),
}

impl BuiltStatement {
    /// The Postgres text of the statement.
    pub open spec fn sql(self) -> Seq<char> {
        match self {
            BuiltStatement::Select(q) => sql::select_sql(q),
            BuiltStatement::Insert(q) => sql::insert_sql(q),
            BuiltStatement::Update(q) => sql::update_sql(q),
            BuiltStatement::Delete(q) => sql::delete_sql(q),
        }
    }

    /// Renders the statement for Postgres: the SQL text and the values bound
    /// to its parameters.
    pub fn render(&self) -> (r: (String, sea_query_binder::SqlxValues))
        ensures
            r.0@ == self.sql(),
    {
        match self {
            BuiltStatement::Select(q) => sql::build_select(q),
            BuiltStatement::Insert(q) => sql::build_insert(q),
            BuiltStatement::Update(q) => sql::build_update(q),
            BuiltStatement::Delete(q) => sql::build_delete(q),
        }
    }
}

/// The condition that bounds a page by its cursor.
pub enum CursorBound {
    /// `cursor_column > cursor`
    After(sea_query::SimpleExpr),
    /// `cursor_column < cursor`
    Before(sea_query::SimpleExpr),
}

/// The bound of a page: above the cursor when the order is ascending, below
/// it when descending, none without a cursor.
pub open spec fn bound_of(order: SortOrder, cursor: Option<sea_query::SimpleExpr>) -> Option<CursorBound> {
    match cursor {
        None => None,
        Some(c) => match order {
            SortOrder::Asc => Some(CursorBound::After(c)),
            SortOrder::Desc => Some(CursorBound::Before(c)),
        },
    }
}

/// The SELECT of one page: `SELECT columns FROM table ORDER BY cursor_column
/// order LIMIT limit`, then the filter's conditions, then the cursor bound.
pub struct PageQuery {
    pub table: String,
    pub columns: Vec<Column>,
    pub cursor_column: Column,
    pub order: SortOrder,
    pub limit: u64,
    pub bound: Option<CursorBound>,
}

impl PageQuery {
    /// The page of at most `limit` rows that follows `cursor` in `order`.
    pub fn new(
        table: &str,
        columns: Vec<Column>,
        cursor_column: Column,
        order: SortOrder,
        limit: usize,
        cursor: Option<sea_query::SimpleExpr>,
    ) -> (r: PageQuery)
        ensures
            r.table@ == table@,
            r.columns@ == columns@,
            r.cursor_column == cursor_column,
            r.order == order,
            r.limit == limit as u64,
            r.bound == bound_of(order, cursor),
    {
        let bound = match cursor {
            None => None,
            Some(c) => match order {
                SortOrder::Asc => Some(CursorBound::After(c)),
                SortOrder::Desc => Some(CursorBound::Before(c)),
            },
        };
        PageQuery {
            table: table.to_string(),
            columns,
            cursor_column,
            order,
            limit: limit as u64,
            bound,
        }
    }

    /// What the page's SELECT holds before the filter adds its conditions.
    pub open spec fn base_model(&self) -> SelectModel {
        SelectModel {
            selects: sql::col_names(self.columns@).map_values(|n: Seq<char>| Selected::Column(n)),
            from: seq![self.table@],
            conditions: seq![],
            orders: seq![(self.cursor_column.name@, self.order)],
            limit: Some(self.limit),
            chained: false,
        }
    }

    /// `SELECT columns FROM table ORDER BY cursor_column order LIMIT limit`,
    /// without conditions.
    pub fn base(&self) -> (q: sea_query::SelectStatement)
        ensures
            sql::select_model(q) == self.base_model(),
    {
        let mut q = sql::select_new();
        sql::select_from(&mut q, self.table.as_str());
        sql::select_columns(&mut q, &self.columns);
        sql::select_order_by(&mut q, &self.cursor_column, self.order);
        sql::select_limit(&mut q, self.limit);
        assert(sql::select_model(q).from =~= seq![self.table@]);
        assert(sql::select_model(q).selects =~= sql::col_names(self.columns@).map_values(
            |n: Seq<char>| Selected::Column(n),
        ));
        assert(sql::select_model(q).orders =~= seq![(self.cursor_column.name@, self.order)]);
        q
    }

    /// Adds the cursor bound to `q`: `cursor_column > c` for `After(c)`,
    /// `cursor_column < c` for `Before(c)`, nothing without a bound.
    pub fn bound_query(self, q: sea_query::SelectStatement) -> (r: sea_query::SelectStatement)
        requires
            !sql::select_model(q).chained,
        ensures
            sql::select_model(r) == with_bound(sql::select_model(q), self.cursor_column.name@, self.bound),
    {
        let mut q = q;
        match self.bound {
            Some(CursorBound::After(c)) => sql::select_where_gt(&mut q, &self.cursor_column, c),
            Some(CursorBound::Before(c)) => sql::select_where_lt(&mut q, &self.cursor_column, c),
            None => {},
        }
        q
    }

    /// Builds the page's SELECT: the base of `base`, then the filter's
    /// conditions, then the cursor bound of `bound_query` as the last
    /// condition.
    pub fn select<F: Filter>(self, filter: &F) -> (r: BuiltStatement)
        ensures
            r matches BuiltStatement::Select(q) && exists|added: Seq<Cond>|
                sql::select_model(q) == with_bound(
                    self.base_model().with_conditions(added),
                    self.cursor_column.name@,
                    self.bound,
                ),
            r matches BuiltStatement::Select(q) && sql::select_model(q).selects == self.base_model().selects
                && sql::select_model(q).from == seq![self.table@] && sql::select_model(q).orders == seq![
                (self.cursor_column.name@, self.order)] && sql::select_model(q).limit == Some(self.limit),
            r matches BuiltStatement::Select(q) && (self.bound matches Some(CursorBound::After(c))
                ==> sql::select_model(q).conditions.last() == (Cond {
                column: self.cursor_column.name@,
                op: Compare::Gt,
                value: c,
            })),
            r matches BuiltStatement::Select(q) && (self.bound matches Some(CursorBound::Before(c))
                ==> sql::select_model(q).conditions.last() == (Cond {
                column: self.cursor_column.name@,
                op: Compare::Lt,
                value: c,
            })),
    {
        let mut q = self.base();
        filter.filter_query(&mut q);
        let ghost added = sql::select_model(q).conditions;
        assert(sql::select_model(q) == self.base_model().with_conditions(added));
        let ghost bound = self.bound;
        let ghost col = self.cursor_column.name@;
        let q = self.bound_query(q);
        assert(sql::select_model(q) == with_bound(self.base_model().with_conditions(added), col, bound));
        BuiltStatement::Select(q)
    }
}

/// A SELECT with the cursor bound added as its last condition.
pub open spec fn with_bound(m: SelectModel, column: Seq<char>, bound: Option<CursorBound>) -> SelectModel {
    match bound {
        Some(CursorBound::After(c)) => m.with_cond(Cond { column, op: Compare::Gt, value: c }),
        Some(CursorBound::Before(c)) => m.with_cond(Cond { column, op: Compare::Lt, value: c }),
        None => m,
    }
}

} // verus!
