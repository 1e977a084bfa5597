use std::borrow::Cow;

use bodega::engine::{count_outcome, delete_outcome, driver_error, found_outcome, one_outcome, page_outcome};
use bodega::error::{is_serialization_failure, SERIALIZATION_FAILURE_CODE};
use bodega::{
    AsExecutor, Column, CustomOption, Cursored, DbBmcError, DbBmcOp, DbError, DbModelManagerError, OpError,
    SerializationError, Statement,
};

#[derive(Debug)]
struct CodedError {
    code: &'static str,
    constraint: Option<&'static str>,
}

impl std::fmt::Display for CodedError {
    fn fmt(&self, f: &mut std::fmt::Formatter<'_>) -> std::fmt::Result {
        f.write_str(self.code)
    }
}

impl std::error::Error for CodedError {}

impl sqlx::error::DatabaseError for CodedError {
    fn message(&self) -> &str {
        "database error"
    }

    fn code(&self) -> Option<Cow<'_, str>> {
        Some(Cow::Borrowed(self.code))
    }

    fn constraint(&self) -> Option<&str> {
        self.constraint
    }

    fn as_error(&self) -> &(dyn std::error::Error + Send + Sync + 'static) {
        self
    }

    fn as_error_mut(&mut self) -> &mut (dyn std::error::Error + Send + Sync + 'static) {
        self
    }

    fn into_error(self: Box<Self>) -> Box<dyn std::error::Error + Send + Sync + 'static> {
        self
    }

    fn kind(&self) -> sqlx::error::ErrorKind {
        sqlx::error::ErrorKind::Other
    }
}

fn db_error(code: &'static str) -> sqlx::Error {
    sqlx::Error::Database(Box::new(CodedError { code, constraint: None }))
}

const OPS: [DbBmcOp; 7] = [
    DbBmcOp::Count,
    DbBmcOp::Create,
    DbBmcOp::Delete,
    DbBmcOp::Get,
    DbBmcOp::List,
    DbBmcOp::ListPaginated,
    DbBmcOp::Update,
];

#[derive(Debug)]
struct Row {
    id: i64,
}

impl Cursored for Row {
    type CursorType = i64;

    fn cursor_spec(&self) -> i64 {
        self.id
    }

    fn cursor_value(&self) -> i64 {
        self.id
    }

    fn cursor_column() -> Column {
        Column::new("id")
    }
}

struct Pool;

impl AsExecutor for Pool {}

struct Tx;

impl AsExecutor for Tx {
    fn is_transaction(&self) -> bool {
        true
    }
}

fn cols(names: &[&str]) -> Vec<Column> {
    names.iter().map(|n| Column::new(n)).collect()
}

#[test]
fn op_labels() {
    assert_eq!(DbBmcOp::Count.label(), "COUNT");
    assert_eq!(DbBmcOp::Create.label(), "CREATE");
    assert_eq!(DbBmcOp::Delete.label(), "DELETE");
    assert_eq!(DbBmcOp::Get.label(), "GET");
    assert_eq!(DbBmcOp::List.label(), "LIST");
    assert_eq!(DbBmcOp::ListPaginated.to_string(), "LIST PAGINATED");
    assert_eq!(DbBmcOp::Update.to_string(), "UPDATE");
}

#[test]
fn count_of_empty_table_is_zero() {
    assert_eq!(count_outcome("book", Ok(0)).unwrap(), 0);
}

#[test]
fn count_returns_the_row_count() {
    assert_eq!(count_outcome("book", Ok(5)).unwrap(), 5);
    assert_eq!(count_outcome("book", Ok(1_000_000)).unwrap(), 1_000_000);
}

#[test]
fn negative_count_is_a_conversion_error() {
    let r = count_outcome("book", Ok(-1));
    assert!(matches!(
        r,
        Err(DbError::DbBmc {
            source: DbBmcError::Operation { entity: "book", operation: DbBmcOp::Count, source: OpError::Usize { .. } }
        })
    ));
}

#[test]
fn count_driver_error_is_wrapped() {
    let r = count_outcome("book", Err(sqlx::Error::RowNotFound));
    assert!(matches!(
        r,
        Err(DbError::DbBmc {
            source: DbBmcError::Operation { entity: "book", operation: DbBmcOp::Count, source: OpError::Sqlx { .. } }
        })
    ));
}

#[test]
fn get_of_missing_id_is_not_found() {
    let r: Result<Row, DbError> = found_outcome("book", DbBmcOp::Get, "42".to_string(), Ok(None));
    match r {
        Err(DbError::EntityNotFound { entity, id }) => {
            assert_eq!(entity, "book");
            assert_eq!(id, "42");
        }
        other => panic!("unexpected {:?}", other),
    }
}

#[test]
fn update_of_missing_id_is_not_found() {
    let r: Result<Row, DbError> = found_outcome("book", DbBmcOp::Update, "7".to_string(), Ok(None));
    assert!(matches!(r, Err(DbError::EntityNotFound { entity: "book", ref id }) if id == "7"));
}

#[test]
fn found_row_is_returned() {
    let r = found_outcome("book", DbBmcOp::Get, "1".to_string(), Ok(Some(Row { id: 1 })));
    assert_eq!(r.unwrap().id, 1);
    let r = one_outcome("book", DbBmcOp::Create, Ok(Row { id: 3 }));
    assert_eq!(r.unwrap().id, 3);
}

#[test]
fn delete_of_missing_id_is_not_found() {
    let r = delete_outcome("book", "9".to_string(), Ok(0));
    assert!(matches!(r, Err(DbError::EntityNotFound { entity: "book", ref id }) if id == "9"));
    assert!(delete_outcome("book", "9".to_string(), Ok(1)).is_ok());
}

#[test]
fn empty_update_is_refused_without_statement() {
    let r = Statement::update("book", "5".to_string(), "books", Vec::new(), Column::new("id"), 5i64.into(), cols(&["id"]));
    assert!(matches!(r, Err(DbError::EmptyUpdate { entity: "book", ref id }) if id == "5"));
}

#[test]
fn nonempty_update_builds_statement() {
    let values = vec![(Column::new("title"), "Dune".into())];
    let r = Statement::update("book", "5".to_string(), "books", values, Column::new("id"), 5i64.into(), cols(&["id", "title"]));
    let (sql, _) = r.unwrap().to_query().render();
    assert_eq!(sql, r#"UPDATE "books" SET "title" = $1 WHERE "id" = $2 RETURNING "id", "title""#);
}

#[test]
fn serialization_code_is_recognised() {
    assert_eq!(SERIALIZATION_FAILURE_CODE, "40001");
    assert!(is_serialization_failure(&Some("40001".to_string())));
    assert!(!is_serialization_failure(&Some("23505".to_string())));
    assert!(!is_serialization_failure(&None));
}

#[test]
fn serialization_failure_of_every_operation_is_retryable() {
    for op in OPS {
        let e = driver_error("book", op, db_error("40001"));
        assert!(e.is_serialization(), "{:?}", op);
        assert!(matches!(
            e,
            DbError::TransactionSerialization { source: SerializationError::DbBmc { source: DbBmcError::Operation { operation, .. } } }
                if operation == op
        ));
    }
}

#[test]
fn other_driver_codes_are_not_retryable() {
    for op in OPS {
        let e = driver_error("book", op, db_error("23505"));
        assert!(!e.is_serialization());
        assert!(matches!(e, DbError::DbBmc { .. }));
    }
}

#[test]
fn classification_by_code() {
    let value = DbBmcError::Operation {
        entity: "book",
        operation: DbBmcOp::Get,
        source: OpError::Sqlx { source: sqlx::Error::RowNotFound },
    };
    assert!(DbError::from_bmc_code(value, Some("40001".to_string())).is_serialization());
    let value = DbBmcError::Operation {
        entity: "book",
        operation: DbBmcOp::Get,
        source: OpError::Sqlx { source: sqlx::Error::RowNotFound },
    };
    assert!(matches!(DbError::from_bmc_code(value, None), DbError::DbBmc { .. }));
}

#[test]
fn commit_serialization_failure_is_retryable() {
    let e = DbError::from_manager(DbModelManagerError::TransactionCommit { source: db_error("40001") });
    assert!(matches!(
        e,
        DbError::TransactionSerialization { source: SerializationError::ModelManager { .. } }
    ));
    let e = DbError::from_manager(DbModelManagerError::TransactionCommit { source: sqlx::Error::PoolClosed });
    assert!(matches!(e, DbError::ModelManager { .. }));
    assert!(!e.is_serialization());
}

#[test]
fn constraint_is_reported() {
    let err = sqlx::Error::Database(Box::new(CodedError { code: "23505", constraint: Some("books_title_key") }));
    let e = driver_error("book", DbBmcOp::Create, err);
    assert_eq!(e.constraint(), Some("books_title_key"));
    let e = DbError::EntityNotFound { entity: "book", id: "1".to_string() };
    assert_eq!(e.constraint(), None);
}

#[test]
fn page_outcome_wraps_rows() {
    let p = page_outcome("book", Ok(vec![Row { id: 1 }, Row { id: 2 }]), 2).unwrap();
    assert_eq!(p.next_cursor, Some(2));
    assert_eq!(p.limit, 2);
    let r = page_outcome::<Row>("book", Err(sqlx::Error::RowNotFound), 2);
    assert!(matches!(
        r,
        Err(DbError::DbBmc { source: DbBmcError::Operation { operation: DbBmcOp::ListPaginated, .. } })
    ));
}

#[test]
fn count_statement_sql() {
    let (sql, _) = Statement::count("books", Column::new("id")).to_query().render();
    assert_eq!(sql, r#"SELECT COUNT("id") FROM "books""#);
}

#[test]
fn insert_statement_sql() {
    let s = Statement::insert("books", cols(&["title", "pages"]), vec!["Dune".into(), 412i64.into()], cols(&["id", "title"]));
    let (sql, _) = s.to_query().render();
    assert_eq!(sql, r#"INSERT INTO "books" ("title", "pages") VALUES ($1, $2) RETURNING "id", "title""#);
}

#[test]
fn get_list_delete_statement_sql() {
    let (sql, _) = Statement::get("books", cols(&["id", "title"]), Column::new("id"), 3i64.into()).to_query().render();
    assert_eq!(sql, r#"SELECT "id", "title" FROM "books" WHERE "id" = $1"#);
    let (sql, _) = Statement::list("books", cols(&["id", "title"])).to_query().render();
    assert_eq!(sql, r#"SELECT "id", "title" FROM "books""#);
    let (sql, _) = Statement::delete("books", Column::new("id"), 3i64.into()).to_query().render();
    assert_eq!(sql, r#"DELETE FROM "books" WHERE "id" = $1"#);
}

#[test]
fn custom_option_renders_null() {
    let none: CustomOption<i64> = CustomOption::from(None);
    let mut q = sea_query::Query::select();
    q.expr(none.into_expr());
    assert_eq!(q.to_string(sea_query::PostgresQueryBuilder), "SELECT NULL");
    let some: CustomOption<i64> = CustomOption::from(Some(4));
    let mut q = sea_query::Query::select();
    q.expr(some.into_expr());
    assert_eq!(q.to_string(sea_query::PostgresQueryBuilder), "SELECT 4");
}

#[test]
fn executors_tell_transactions_apart() {
    assert!(!Pool.is_transaction());
    assert!(Tx.is_transaction());
}

#[test]
fn update_statement_is_well_formed() {
    let values = vec![(Column::new("title"), "Dune".into())];
    let s = Statement::update("book", "5".to_string(), "books", values, Column::new("id"), 5i64.into(), cols(&["id"]));
    assert!(s.unwrap().is_well_formed());
    let s = Statement::Update {
        table: "books".to_string(),
        values: Vec::new(),
        id_column: Column::new("id"),
        id: 5i64.into(),
        returning: cols(&["id"]),
    };
    assert!(!s.is_well_formed());
    assert!(Statement::count("books", Column::new("id")).is_well_formed());
}
