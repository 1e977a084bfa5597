use vstd::prelude::*;

use crate::query::Column;
use vstd::arithmetic::div_mod::{
    lemma_basic_div, lemma_div_plus_one, lemma_div_pos_is_pos, lemma_fundamental_div_mod, lemma_mod_add_multiples_vanish,
    lemma_mod_pos_bound,
};

verus! {

/// The direction in which a cursor column is sorted.
#[derive(Debug, Clone, Copy, PartialEq, Eq, Structural)]
pub enum SortOrder {
    Asc,
    Desc,
}

/// A type whose values carry a cursor for keyset pagination.
pub trait Cursored {
    /// The type of the cursor.
    type CursorType: core::fmt::Debug + Clone;

    /// The cursor of this value.
    spec fn cursor_spec(&self) -> Self::CursorType;

    /// Get the value of the cursor for this instance.
    fn cursor_value(&self) -> (r: Self::CursorType)
        ensures
            r == self.cursor_spec(),
    ;

    /// The column that holds the cursor (such as `id`).
    fn cursor_column() -> Column;
}

/// A type that selects pages of entries keyed by a cursor.
pub trait CursoredFilter {
    /// The entity that is paged.
    type Entity: Cursored;

    /// The cursor after (or before) which the page starts, if any.
    fn cursor(&self) -> Option<<Self::Entity as Cursored>::CursorType>;

    /// Sets the cursor. There is no way to clear it: a fresh filter starts
    /// from the beginning.
    fn set_cursor(&mut self, cursor: <Self::Entity as Cursored>::CursorType);

    /// The number of entries in a page.
    fn page_limit(&self) -> usize;

    /// The order of the cursor column, which also decides whether a page
    /// lies above or below the cursor.
    fn cursor_column_order() -> SortOrder {
        SortOrder::Asc
    }
}

/// The cursors of a sequence of entries.
pub open spec fn cursors_of<T: Cursored>(entries: Seq<T>) -> Seq<T::CursorType> {
    entries.map_values(|e: T| e.cursor_spec())
}

/// The cursor that leads to the next page: the last cursor of a page that
/// holds at least `limit` entries. A page that is exactly full reports one,
/// though the next page may be empty.
pub open spec fn next_cursor_of<C>(cursors: Seq<C>, limit: nat) -> Option<C> {
    if cursors.len() >= limit && cursors.len() > 0 {
        Some(cursors.last())
    } else {
        None
    }
}

/// Whether cursor `r` lies beyond cursor `c` in `order`: above it when
/// ascending, below it when descending.
pub open spec fn beyond(order: SortOrder, r: int, c: int) -> bool {
    match order {
        SortOrder::Asc => r > c,
        SortOrder::Desc => r < c,
    }
}

/// Whether the cursors of a table, listed in `order`, are distinct.
pub open spec fn strictly_sorted(rows: Seq<int>, order: SortOrder) -> bool {
    forall|i: int, j: int| 0 <= i < j < rows.len() ==> beyond(order, #[trigger] rows[j], #[trigger] rows[i])
}

/// The cursors beyond `c` in `order`, in their order.
pub open spec fn cursors_beyond(rows: Seq<int>, order: SortOrder, c: int) -> Seq<int>
    decreases rows.len(),
{
    if rows.len() == 0 {
        rows
    } else if beyond(order, rows[0], c) {
        seq![rows[0]] + cursors_beyond(rows.drop_first(), order, c)
    } else {
        cursors_beyond(rows.drop_first(), order, c)
    }
}

/// The cursors that the SELECT of a page fetches from a table whose
/// cursors, listed in `order`, are `rows`: the first `limit` of those beyond
/// `after`, or of all when there is no cursor.
pub open spec fn keyset_page(rows: Seq<int>, order: SortOrder, after: Option<int>, limit: nat) -> Seq<int> {
    let candidates = match after {
        None => rows,
        Some(c) => cursors_beyond(rows, order, c),
    };
    if candidates.len() <= limit {
        candidates
    } else {
        candidates.take(limit as int)
    }
}

/// Walks the pages from `after`, each fetched with the cursor of the one
/// before, for at most `fetches` fetches: the cursors visited, in order, once
/// a page reports no next cursor; `None` when the fetches run out first.
pub open spec fn walk_pages(
    rows: Seq<int>,
    order: SortOrder,
    after: Option<int>,
    limit: nat,
    fetches: nat,
) -> Option<Seq<int>>
    decreases fetches,
{
    if fetches == 0 {
        None
    } else {
        let page = keyset_page(rows, order, after, limit);
        match next_cursor_of(page, limit) {
            None => Some(page),
            Some(c) => match walk_pages(rows, order, Some(c), limit, (fetches - 1) as nat) {
                Some(rest) => Some(page + rest),
                None => None,
            },
        }
    }
}

/// The cursor from which the page that starts at row `i` is fetched.
pub open spec fn start_cursor(rows: Seq<int>, i: int) -> Option<int> {
    if i == 0 {
        None
    } else {
        Some(rows[i - 1])
    }
}

proof fn lemma_beyond_all(rows: Seq<int>, order: SortOrder, c: int)
    requires
        forall|i: int| 0 <= i < rows.len() ==> beyond(order, #[trigger] rows[i], c),
    ensures
        cursors_beyond(rows, order, c) == rows,
    decreases rows.len(),
{
    if rows.len() > 0 {
        lemma_beyond_all(rows.drop_first(), order, c);
        assert(seq![rows[0]] + rows.drop_first() =~= rows);
    }
}

proof fn lemma_beyond_row(rows: Seq<int>, order: SortOrder, i: int)
    requires
        strictly_sorted(rows, order),
        0 <= i < rows.len(),
    ensures
        cursors_beyond(rows, order, rows[i]) == rows.subrange(i + 1, rows.len() as int),
    decreases rows.len(),
{
    let rest = rows.drop_first();
    if i == 0 {
        assert forall|k: int| 0 <= k < rest.len() implies beyond(order, #[trigger] rest[k], rows[0]) by {
            assert(rest[k] == rows[k + 1]);
        }
        lemma_beyond_all(rest, order, rows[0]);
        assert(rest =~= rows.subrange(1, rows.len() as int));
    } else {
        assert(beyond(order, rows[i], rows[0]));
        assert(!beyond(order, rows[0], rows[i]));
        assert(rest[i - 1] == rows[i]);
        assert forall|a: int, b: int| 0 <= a < b < rest.len() implies beyond(order, #[trigger] rest[b], #[trigger] rest[a]) by {
            assert(rest[a] == rows[a + 1] && rest[b] == rows[b + 1]);
        }
        lemma_beyond_row(rest, order, i - 1);
        assert(rest.subrange(i, rest.len() as int) =~= rows.subrange(i + 1, rows.len() as int));
    }
}

/// The page fetched from the cursor before row `i` (from the start when `i`
/// is 0) holds the next `limit` rows, or all that are left: every page of a
/// walk but the last is full.
pub proof fn lemma_page_at(rows: Seq<int>, order: SortOrder, i: int, limit: nat)
    requires
        strictly_sorted(rows, order),
        0 <= i <= rows.len(),
    ensures
        keyset_page(rows, order, start_cursor(rows, i), limit) == rows.subrange(
            i,
            if i + limit <= rows.len() { i + limit } else { rows.len() as int },
        ),
{
    let n = rows.len() as int;
    let candidates = match start_cursor(rows, i) {
        None => rows,
        Some(c) => cursors_beyond(rows, order, c),
    };
    if i == 0 {
        assert(candidates =~= rows.subrange(0, n));
    } else {
        lemma_beyond_row(rows, order, i - 1);
    }
    assert(candidates =~= rows.subrange(i, n));
    if candidates.len() > limit {
        assert(candidates.take(limit as int) =~= rows.subrange(i, i + limit));
    }
}

proof fn lemma_walk_from(rows: Seq<int>, order: SortOrder, i: int, limit: nat, fetches: nat)
    requires
        strictly_sorted(rows, order),
        limit > 0,
        0 <= i <= rows.len(),
        fetches >= (rows.len() - i) / (limit as int) + 1,
    ensures
        walk_pages(rows, order, start_cursor(rows, i), limit, fetches) == Some(
            rows.subrange(i, rows.len() as int),
        ),
    decreases rows.len() - i,
{
    let n = rows.len() as int;
    let l = limit as int;
    lemma_div_pos_is_pos(n - i, l);
    lemma_page_at(rows, order, i, limit);
    let page = keyset_page(rows, order, start_cursor(rows, i), limit);
    if i + l <= n {
        assert(page.len() == l);
        assert(page.last() == rows[i + l - 1]);
        assert(start_cursor(rows, i + l) == Some(rows[i + l - 1]));
        lemma_div_plus_one(n - i - l, l);
        lemma_div_pos_is_pos(n - i - l, l);
        lemma_walk_from(rows, order, i + l, limit, (fetches - 1) as nat);
        assert(page + rows.subrange(i + l, n) =~= rows.subrange(i, n));
    } else {
        assert(page.len() < l);
    }
}

proof fn lemma_walk_short(rows: Seq<int>, order: SortOrder, i: int, limit: nat, fetches: nat)
    requires
        strictly_sorted(rows, order),
        limit > 0,
        0 <= i <= rows.len(),
        (rows.len() - i) % (limit as int) != 0,
        fetches <= (rows.len() - i) / (limit as int),
    ensures
        walk_pages(rows, order, start_cursor(rows, i), limit, fetches) is None,
    decreases fetches,
{
    let n = rows.len() as int;
    let l = limit as int;
    if fetches > 0 {
        if n - i < l {
            lemma_basic_div(n - i, l);
        }
        lemma_page_at(rows, order, i, limit);
        let page = keyset_page(rows, order, start_cursor(rows, i), limit);
        assert(page.len() == l);
        assert(page.last() == rows[i + l - 1]);
        assert(start_cursor(rows, i + l) == Some(rows[i + l - 1]));
        lemma_div_plus_one(n - i - l, l);
        lemma_mod_add_multiples_vanish(n - i - l, l);
        lemma_walk_short(rows, order, i + l, limit, (fetches - 1) as nat);
    }
}

/// Walking the pages of a table from the start, in either order, each page
/// fetched with the previous page's next cursor, visits every row exactly
/// once, in order, and stops on a page without a next cursor after exactly
/// `rows.len() / limit + 1` fetches, when the number of rows is not a
/// multiple of the limit: the last page holds the `rows.len() % limit` rows
/// left, every page before it holds `limit`.
pub proof fn lemma_walk_visits_every_row_once(rows: Seq<int>, order: SortOrder, limit: nat)
    requires
        strictly_sorted(rows, order),
        0 < limit < rows.len(),
        rows.len() % limit != 0,
    ensures
        walk_pages(rows, order, None, limit, (rows.len() / limit + 1) as nat) == Some(rows),
        walk_pages(rows, order, None, limit, (rows.len() / limit) as nat) is None,
        keyset_page(rows, order, start_cursor(rows, (limit * (rows.len() / limit)) as int), limit).len() == rows.len()
            % limit,
{
    let n = rows.len() as int;
    let l = limit as int;
    lemma_walk_from(rows, order, 0, limit, (rows.len() / limit + 1) as nat);
    assert(rows.subrange(0, n) =~= rows);
    lemma_walk_short(rows, order, 0, limit, (rows.len() / limit) as nat);
    lemma_fundamental_div_mod(n, l);
    lemma_mod_pos_bound(n, l);
    lemma_div_pos_is_pos(n, l);
    let q = n / l;
    assert(l * q >= 0) by (nonlinear_arith)
        requires
            q >= 0,
            l > 0,
    ;
    lemma_page_at(rows, order, l * q, limit);
}

/// When the number of rows is an exact multiple of the limit, the last full
/// page still reports a next cursor, the last row's; the page fetched with it
/// is empty and reports none. Every row is still visited exactly once.
pub proof fn lemma_exact_multiple_over_signals(rows: Seq<int>, order: SortOrder, limit: nat)
    requires
        strictly_sorted(rows, order),
        limit > 0,
        rows.len() > 0,
        rows.len() % limit == 0,
    ensures
        rows.len() >= limit,
        keyset_page(rows, order, start_cursor(rows, rows.len() - limit), limit) == rows.subrange(
            rows.len() - limit,
            rows.len() as int,
        ),
        next_cursor_of(keyset_page(rows, order, start_cursor(rows, rows.len() - limit), limit), limit)
            == Some(rows.last()),
        keyset_page(rows, order, Some(rows.last()), limit).len() == 0,
        next_cursor_of(keyset_page(rows, order, Some(rows.last()), limit), limit) is None,
        walk_pages(rows, order, None, limit, (rows.len() / limit + 1) as nat) == Some(rows),
{
    let n = rows.len() as int;
    let l = limit as int;
    lemma_fundamental_div_mod(n, l);
    let q = n / l;
    lemma_div_pos_is_pos(n, l);
    assert(q >= 1) by {
        if q == 0 {
            assert(l * q == 0) by (nonlinear_arith)
                requires
                    q == 0,
            ;
        }
    }
    assert(l * q >= l) by (nonlinear_arith)
        requires
            q >= 1,
            l > 0,
    ;
    lemma_page_at(rows, order, n - l, limit);
    lemma_page_at(rows, order, n, limit);
    assert(start_cursor(rows, n) == Some(rows.last()));
    lemma_walk_from(rows, order, 0, limit, (rows.len() / limit + 1) as nat);
    assert(rows.subrange(0, n) =~= rows);
}

/// One page of entries, with what is needed to ask for the next.
#[derive(Debug, Clone)]
pub struct Paginated<T: Cursored> {
    pub entries: Vec<T>,
    pub next_cursor: Option<<T as Cursored>::CursorType>,
    pub limit: usize,
}

impl<T: Cursored> Paginated<T> {
    /// Whether the next cursor agrees with the entries and the limit.
    pub open spec fn is_consistent(&self) -> bool {
        self.next_cursor == next_cursor_of(cursors_of(self.entries@), self.limit as nat)
    }

    /// Wraps a fetched page. The next cursor is set when the page holds at
    /// least `limit` entries.
    pub fn new(entries: Vec<T>, limit: usize) -> (r: Self)
        ensures
            r.entries@ == entries@,
            r.limit == limit,
            r.next_cursor == next_cursor_of(cursors_of(entries@), limit as nat),
            r.is_consistent(),
    {
        let n = entries.len();
        let next_cursor = if n >= limit && n > 0 {
            Some(entries[n - 1].cursor_value())
        } else {
            None
        };
        Paginated { entries, next_cursor, limit }
    }

    /// Whether a next page may exist.
    pub fn has_next(&self) -> (r: bool)
        ensures
            r == self.next_cursor is Some,
    {
        self.next_cursor.is_some()
    }
}

impl<T: Cursored> Default for Paginated<T> {
    /// An empty page with a limit of ten.
    fn default() -> (r: Self)
        ensures
            r.entries@.len() == 0,
            r.next_cursor is None,
            r.limit == 10,
    {
        Paginated { entries: Vec::new(), next_cursor: None, limit: 10 }
    }
}

} // verus!
