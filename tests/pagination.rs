use bodega::{Column, CursorBound, Cursored, CursoredFilter, Filter, PageQuery, Paginated, SortOrder};

#[derive(Debug, Clone, PartialEq)]
struct Dummy {
    id: i64,
}

impl Cursored for Dummy {
    type CursorType = i64;

    fn cursor_spec(&self) -> Self::CursorType {
        self.id
    }

    fn cursor_value(&self) -> Self::CursorType {
        self.id
    }

    fn cursor_column() -> Column {
        Column::new("id")
    }
}

fn entries() -> Vec<Dummy> {
    vec![
        Dummy { id: 1 },
        Dummy { id: 2 },
        Dummy { id: 3 },
        Dummy { id: 4 },
        Dummy { id: 5 },
        Dummy { id: 6 },
        Dummy { id: 7 },
        Dummy { id: 8 },
        Dummy { id: 9 },
        Dummy { id: 10 },
    ]
}

struct DummyFilter {
    limit: usize,
    cursor: Option<i64>,
}

impl CursoredFilter for DummyFilter {
    type Entity = Dummy;

    fn cursor(&self) -> Option<i64> {
        self.cursor
    }

    fn set_cursor(&mut self, cursor: i64) {
        self.cursor = Some(cursor);
    }

    fn page_limit(&self) -> usize {
        self.limit
    }
}

/// What the store answers to an ascending page query over the ids `rows`.
fn fetch(rows: &[i64], filter: &DummyFilter) -> Paginated<Dummy> {
    let page: Vec<Dummy> = rows
        .iter()
        .filter(|id| filter.cursor().map_or(true, |c| **id > c))
        .take(filter.page_limit())
        .map(|id| Dummy { id: *id })
        .collect();
    Paginated::new(page, filter.page_limit())
}

fn ids(p: &Paginated<Dummy>) -> Vec<i64> {
    p.entries.iter().map(|e| e.id).collect()
}

#[test]
fn cursor_set_when_enough_entries() {
    let p = Paginated::new(entries(), 10);
    assert_eq!(p.next_cursor, Some(10));

    let p = Paginated::new(entries().into_iter().take(2).collect(), 2);
    assert_eq!(p.next_cursor, Some(2));
}

#[test]
fn cursor_none_when_not_enough_entries() {
    let entries = entries();
    let num = entries.len() + 1;
    let p = Paginated::new(entries, num);
    assert_eq!(p.next_cursor, None);
}

#[test]
fn new_keeps_entries_and_limit() {
    let p = Paginated::new(entries(), 4);
    assert_eq!(p.entries, entries());
    assert_eq!(p.limit, 4);
    assert_eq!(p.next_cursor, Some(10));
    assert!(p.has_next());
}

#[test]
fn empty_page_has_no_next() {
    let p: Paginated<Dummy> = Paginated::new(Vec::new(), 3);
    assert_eq!(p.next_cursor, None);
    assert!(!p.has_next());
    let p: Paginated<Dummy> = Paginated::new(Vec::new(), 0);
    assert_eq!(p.next_cursor, None);
}

#[test]
fn default_page_is_empty_with_limit_ten() {
    let p: Paginated<Dummy> = Paginated::default();
    assert!(p.entries.is_empty());
    assert_eq!(p.next_cursor, None);
    assert_eq!(p.limit, 10);
}

#[test]
fn limit_two_walks_five_rows() {
    let rows = [1, 2, 3, 4, 5];
    let mut filter = DummyFilter { limit: 2, cursor: None };

    let p = fetch(&rows, &filter);
    assert_eq!(ids(&p), vec![1, 2]);
    assert_eq!(p.next_cursor, Some(2));

    filter.set_cursor(p.next_cursor.unwrap());
    let p = fetch(&rows, &filter);
    assert_eq!(ids(&p), vec![3, 4]);
    assert_eq!(p.next_cursor, Some(4));

    filter.set_cursor(p.next_cursor.unwrap());
    let p = fetch(&rows, &filter);
    assert_eq!(ids(&p), vec![5]);
    assert_eq!(p.next_cursor, None);
}

#[test]
fn exact_multiple_reports_one_more_empty_page() {
    let rows = [1, 2, 3, 4];
    let mut filter = DummyFilter { limit: 2, cursor: None };
    let mut visited = Vec::new();
    let mut fetches = 0;
    loop {
        let p = fetch(&rows, &filter);
        fetches += 1;
        visited.extend(ids(&p));
        match p.next_cursor {
            Some(c) => filter.set_cursor(c),
            None => {
                assert!(p.entries.is_empty());
                break;
            }
        }
    }
    assert_eq!(visited, vec![1, 2, 3, 4]);
    assert_eq!(fetches, 3);
}

#[test]
fn walk_visits_every_row_once() {
    let rows: Vec<i64> = (1..=7).collect();
    let mut filter = DummyFilter { limit: 3, cursor: None };
    let mut visited = Vec::new();
    let mut fetches = 0;
    loop {
        let p = fetch(&rows, &filter);
        fetches += 1;
        visited.extend(ids(&p));
        match p.next_cursor {
            Some(c) => filter.set_cursor(c),
            None => break,
        }
    }
    assert_eq!(visited, rows);
    assert_eq!(fetches, 3);
}

#[test]
fn cursor_bound_follows_the_order() {
    let q = PageQuery::new("dummies", vec![Column::new("id")], Column::new("id"), SortOrder::Asc, 2, None);
    assert!(q.bound.is_none());
    assert_eq!(q.limit, 2);
    assert_eq!(q.table, "dummies");

    let asc = PageQuery::new("dummies", vec![Column::new("id")], Column::new("id"), SortOrder::Asc, 2, Some(2i64.into()));
    assert!(matches!(asc.bound, Some(CursorBound::After(_))));

    let desc = PageQuery::new("dummies", vec![Column::new("id")], Column::new("id"), SortOrder::Desc, 2, Some(2i64.into()));
    assert!(matches!(desc.bound, Some(CursorBound::Before(_))));
}

#[test]
fn default_filter_order_is_ascending() {
    assert_eq!(DummyFilter::cursor_column_order(), SortOrder::Asc);
}

struct AuthorFilter {
    author: Option<String>,
}

impl Filter for AuthorFilter {
    fn filter_query(&self, query: &mut sea_query::SelectStatement) {
        if let Some(ref author) = self.author {
            query.and_where(sea_query::Expr::col(sea_query::Alias::new("author")).eq(author.as_str()));
        }
    }
}

struct NoFilter;

impl Filter for NoFilter {}

fn page_sql(order: SortOrder, cursor: Option<i64>, filter: &impl Filter) -> String {
    let cols = vec![Column::new("id"), Column::new("title")];
    let q = PageQuery::new("books", cols, Column::new("id"), order, 20, cursor.map(Into::into));
    q.select(filter).render().0
}

#[test]
fn page_sql_ascending_without_cursor() {
    assert_eq!(
        page_sql(SortOrder::Asc, None, &NoFilter),
        r#"SELECT "id", "title" FROM "books" ORDER BY "id" ASC LIMIT $1"#
    );
}

#[test]
fn page_sql_ascending_with_cursor() {
    assert_eq!(
        page_sql(SortOrder::Asc, Some(2), &NoFilter),
        r#"SELECT "id", "title" FROM "books" WHERE "id" > $1 ORDER BY "id" ASC LIMIT $2"#
    );
}

#[test]
fn page_sql_descending_without_cursor() {
    assert_eq!(
        page_sql(SortOrder::Desc, None, &NoFilter),
        r#"SELECT "id", "title" FROM "books" ORDER BY "id" DESC LIMIT $1"#
    );
}

#[test]
fn page_sql_descending_with_cursor() {
    assert_eq!(
        page_sql(SortOrder::Desc, Some(9), &NoFilter),
        r#"SELECT "id", "title" FROM "books" WHERE "id" < $1 ORDER BY "id" DESC LIMIT $2"#
    );
}

#[test]
fn page_sql_filter_conditions_come_before_the_cursor() {
    let filter = AuthorFilter { author: Some("Herbert".to_string()) };
    assert_eq!(
        page_sql(SortOrder::Asc, Some(2), &filter),
        r#"SELECT "id", "title" FROM "books" WHERE "author" = $1 AND "id" > $2 ORDER BY "id" ASC LIMIT $3"#
    );
}

#[test]
fn descending_walk_visits_every_row_once() {
    let rows: Vec<i64> = (1..=5).rev().collect();
    let mut cursor: Option<i64> = None;
    let mut visited = Vec::new();
    loop {
        let page: Vec<Dummy> = rows
            .iter()
            .filter(|id| cursor.map_or(true, |c| **id < c))
            .take(2)
            .map(|id| Dummy { id: *id })
            .collect();
        let p = Paginated::new(page, 2);
        visited.extend(ids(&p));
        match p.next_cursor {
            Some(c) => cursor = Some(c),
            None => break,
        }
    }
    assert_eq!(visited, vec![5, 4, 3, 2, 1]);
}
