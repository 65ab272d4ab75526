//! Query plans: the SQL text and bound arguments that the repository runs
//! against the database for listings and updates.

pub mod movie;
pub mod podcast;

use crate::text::{
    decimal, digits_value, join, law_decimal_denotes_its_value, opt_view, push_decimal, push_joined,
    views,
};
use vstd::prelude::*;

verus! {

/// The condition `column = $index`.
pub open spec fn eq_clause(column: Seq<char>, index: nat) -> Seq<char> {
    column + " = $"@ + decimal(index)
}

/// Conditions of a WHERE clause (or assignments of a SET clause) in order,
/// with the arguments that their placeholders `$1`, `$2`, ... stand for.
pub struct ClausesView {
    pub clauses: Seq<Seq<char>>,
    pub args: Seq<Seq<char>>,
}

/// No clause and no argument.
pub open spec fn no_clauses() -> ClausesView {
    ClausesView { clauses: Seq::empty(), args: Seq::empty() }
}

/// Adds `column = $n` with `value` as its new argument `n`, when `value` is present.
pub open spec fn with_eq(c: ClausesView, column: Seq<char>, value: Option<Seq<char>>) -> ClausesView {
    match value {
        None => c,
        Some(v) => ClausesView {
            clauses: c.clauses.push(eq_clause(column, c.args.len() + 1)),
            args: c.args.push(v),
        },
    }
}

/// The clauses that a listing starts from: archived rows are left out unless asked for.
pub open spec fn archived_clauses(include_archived: bool) -> ClausesView {
    if include_archived {
        no_clauses()
    } else {
        ClausesView { clauses: seq!["archived = false"@], args: Seq::empty() }
    }
}

/// `WHERE c1 AND c2 ...`, or nothing when there is no condition.
pub open spec fn where_sql(clauses: Seq<Seq<char>>) -> Seq<char> {
    if clauses.len() == 0 {
        Seq::empty()
    } else {
        "WHERE "@ + join(clauses, " AND "@)
    }
}

/// The condition that `$index` occurs in the title or the description
/// (case-insensitive pattern match).
pub open spec fn search_clause(index: nat) -> Seq<char> {
    "(title ILIKE $"@ + decimal(index) + " OR description ILIKE $"@ + decimal(index) + ")"@
}

/// Adds a search for a present `term`, whose argument is the term wrapped in `%`
/// wildcards (`%` and `_` inside the term keep their pattern meaning).
pub open spec fn with_search(c: ClausesView, term: Option<Seq<char>>) -> ClausesView {
    match term {
        None => c,
        Some(t) => ClausesView {
            clauses: c.clauses.push(search_clause(c.args.len() + 1)),
            args: c.args.push("%"@ + t + "%"@),
        },
    }
}

/// `column = $k` is one of the clauses, and argument `k` (counted from 1) is `value`.
pub open spec fn binds(c: ClausesView, column: Seq<char>, value: Seq<char>) -> bool {
    exists|k: int|
        1 <= k <= c.args.len() && c.args[k - 1] == value && #[trigger] c.clauses.contains(
            column + " = $"@ + decimal(k as nat),
        )
}

/// 1 for a present value, 0 for an absent one.
pub open spec fn present(o: Option<Seq<char>>) -> nat {
    if o is Some {
        1
    } else {
        0
    }
}

/// Adding a condition keeps every binding already made, and makes the binding
/// of the new condition when its value is present.
pub proof fn lemma_with_eq(c: ClausesView, column: Seq<char>, value: Option<Seq<char>>)
    ensures
        with_eq(c, column, value).args.len() == c.args.len() + present(value),
        with_eq(c, column, value).clauses.len() == c.clauses.len() + present(value),
        forall|j: int| 0 <= j < c.clauses.len() ==> with_eq(c, column, value).clauses[j] == c.clauses[j],
        forall|col: Seq<char>, v: Seq<char>| binds(c, col, v) ==> binds(with_eq(c, column, value), col, v),
        value matches Some(v) ==> binds(with_eq(c, column, value), column, v),
{
    let d = with_eq(c, column, value);
    assert forall|col: Seq<char>, v: Seq<char>| binds(c, col, v) implies binds(d, col, v) by {
        let k = choose|k: int|
            1 <= k <= c.args.len() && c.args[k - 1] == v && #[trigger] c.clauses.contains(
                (col + " = $"@ + decimal(k as nat)),
            );
        if let Some(w) = value {
            assert(d.args[k - 1] == v);
            let i = choose|i: int| 0 <= i < c.clauses.len() && c.clauses[i] == (col + " = $"@ + decimal(k as nat));
            assert(d.clauses[i] == (col + " = $"@ + decimal(k as nat)));
            assert(d.clauses.contains((col + " = $"@ + decimal(k as nat))));
        }
    }
    if let Some(v) = value {
        let k = c.args.len() + 1;
        assert(d.args[k - 1] == v);
        assert(d.clauses[c.clauses.len() as int] == (column + " = $"@ + decimal(k as nat)));
        assert(d.clauses.contains((column + " = $"@ + decimal(k as nat))));
    }
}

/// The search clause on `$k` is one of the clauses, and argument `k` is the
/// term wrapped in `%` wildcards.
pub open spec fn binds_search(c: ClausesView, term: Seq<char>) -> bool {
    exists|k: int|
        1 <= k <= c.args.len() && c.args[k - 1] == "%"@ + term + "%"@
            && #[trigger] c.clauses.contains(search_clause(k as nat))
}

/// Adding a search keeps every binding already made, and binds the search term
/// when it is present.
pub proof fn lemma_with_search(c: ClausesView, term: Option<Seq<char>>)
    ensures
        with_search(c, term).args.len() == c.args.len() + present(term),
        with_search(c, term).clauses.len() == c.clauses.len() + present(term),
        forall|j: int| 0 <= j < c.clauses.len() ==> with_search(c, term).clauses[j] == c.clauses[j],
        forall|col: Seq<char>, v: Seq<char>| binds(c, col, v) ==> binds(with_search(c, term), col, v),
        term matches Some(t) ==> binds_search(with_search(c, term), t),
{
    let d = with_search(c, term);
    assert forall|col: Seq<char>, v: Seq<char>| binds(c, col, v) implies binds(d, col, v) by {
        let k = choose|k: int|
            1 <= k <= c.args.len() && c.args[k - 1] == v && #[trigger] c.clauses.contains(
                (col + " = $"@ + decimal(k as nat)),
            );
        if term is Some {
            assert(d.args[k - 1] == v);
            let i = choose|i: int| 0 <= i < c.clauses.len() && c.clauses[i] == (col + " = $"@ + decimal(k as nat));
            assert(d.clauses[i] == (col + " = $"@ + decimal(k as nat)));
            assert(d.clauses.contains((col + " = $"@ + decimal(k as nat))));
        }
    }
    if let Some(t) = term {
        let k = c.args.len() + 1;
        assert(d.args[k - 1] == "%"@ + t + "%"@);
        assert(d.clauses[c.clauses.len() as int] == search_clause(k as nat));
        assert(d.clauses.contains(search_clause(k as nat)));
    }
}

/// Some clause is `column = $k`, for some `k`.
pub open spec fn mentions(c: ClausesView, column: Seq<char>) -> bool {
    exists|k: nat| #[trigger] c.clauses.contains(column + " = $"@ + decimal(k))
}

/// The two column names differ in one of their first two characters, so that
/// no clause on one is a clause on the other.
pub open spec fn distinct_columns(a: Seq<char>, b: Seq<char>) -> bool {
    a.len() >= 2 && b.len() >= 2 && (a[0] != b[0] || a[1] != b[1])
}

/// A clause on `column` starts with the column's name.
pub proof fn lemma_eq_clause_starts_with_column(column: Seq<char>, k: nat)
    ensures
        forall|j: int| 0 <= j < column.len() ==> #[trigger] eq_clause(column, k)[j] == column[j],
{
}

/// Adding a condition on a column distinct from `other`, or adding none, leaves
/// `other` unmentioned.
pub proof fn lemma_with_eq_unmentioned(
    c: ClausesView,
    column: Seq<char>,
    value: Option<Seq<char>>,
    other: Seq<char>,
)
    requires
        !mentions(c, other),
        value is None || distinct_columns(column, other),
    ensures
        !mentions(with_eq(c, column, value), other),
{
    let d = with_eq(c, column, value);
    if mentions(d, other) {
        let k = choose|k: nat| #[trigger] d.clauses.contains((other + " = $"@ + decimal(k)));
        let i = choose|i: int| 0 <= i < d.clauses.len() && d.clauses[i] == (other + " = $"@ + decimal(k));
        if i < c.clauses.len() {
            assert(c.clauses.contains((other + " = $"@ + decimal(k))));
        } else {
            lemma_eq_clause_starts_with_column(other, k);
            lemma_eq_clause_starts_with_column(column, c.args.len() + 1);
            assert(d.clauses[i] == (column + " = $"@ + decimal(c.args.len() + 1)));
            assert((other + " = $"@ + decimal(k))[0] == other[0]);
            assert((other + " = $"@ + decimal(k))[1] == other[1]);
        }
    }
}

/// `clause` is the condition of placeholder `$k`: `col = $k` for one of
/// `columns`, or, when searching is allowed,
/// `(title ILIKE $k OR description ILIKE $k)`.
pub open spec fn condition_of(clause: Seq<char>, k: nat, columns: Seq<Seq<char>>, searchable: bool) -> bool {
    ||| exists|col: Seq<char>| columns.contains(col) && clause == col + " = $"@ + decimal(k)
    ||| searchable && clause == "(title ILIKE $"@ + decimal(k) + " OR description ILIKE $"@ + decimal(k)
        + ")"@
}

/// The clauses are `offset` fixed ones followed by one condition per argument,
/// in order: clause `offset + k - 1` is the condition of `$k`.
pub open spec fn numbered(c: ClausesView, offset: int, columns: Seq<Seq<char>>, searchable: bool) -> bool {
    &&& c.clauses.len() == c.args.len() + offset
    &&& forall|j: int|
        offset <= j < c.clauses.len() ==> condition_of(
            #[trigger] c.clauses[j],
            (j - offset + 1) as nat,
            columns,
            searchable,
        )
}

/// Adding an equality on one of `columns`, or a search where searching is
/// allowed, keeps the conditions numbered.
pub proof fn lemma_numbered_step(
    c: ClausesView,
    offset: int,
    columns: Seq<Seq<char>>,
    searchable: bool,
    column: Seq<char>,
    value: Option<Seq<char>>,
    search: bool,
)
    requires
        0 <= offset,
        numbered(c, offset, columns, searchable),
        search ==> searchable,
        !search ==> columns.contains(column),
    ensures
        numbered(
            if search {
                with_search(c, value)
            } else {
                with_eq(c, column, value)
            },
            offset,
            columns,
            searchable,
        ),
{
    let d = if search {
        with_search(c, value)
    } else {
        with_eq(c, column, value)
    };
    if value is Some {
        let n = c.clauses.len() as int;
        assert forall|j: int| offset <= j < d.clauses.len() implies condition_of(
            #[trigger] d.clauses[j],
            (j - offset + 1) as nat,
            columns,
            searchable,
        ) by {
            if j < n {
                assert(d.clauses[j] == c.clauses[j]);
            } else {
                assert((j - offset + 1) as nat == c.args.len() + 1);
                if !search {
                    assert(columns.contains(column) && d.clauses[j] == column + " = $"@ + decimal(
                        (j - offset + 1) as nat,
                    ));
                }
            }
        }
    }
}

/// Clauses and their arguments under construction.
pub struct Clauses {
    pub clauses: Vec<String>,
    pub args: Vec<String>,
}

impl View for Clauses {
    type V = ClausesView;

    open spec fn view(&self) -> ClausesView {
        ClausesView { clauses: views(self.clauses@), args: views(self.args@) }
    }
}

impl Clauses {
    /// No clause and no argument.
    pub fn new() -> (c: Clauses)
        ensures
            c@ == no_clauses(),
    {
        let c = Clauses { clauses: Vec::new(), args: Vec::new() };
        assert(c@.clauses =~= Seq::<Seq<char>>::empty());
        assert(c@.args =~= Seq::<Seq<char>>::empty());
        c
    }

    /// The clauses that a listing starts from.
    pub fn for_listing(include_archived: bool) -> (c: Clauses)
        ensures
            c@ == archived_clauses(include_archived),
    {
        let mut c = Clauses::new();
        if !include_archived {
            c.clauses.push(String::from_str("archived = false"));
            assert(c@.clauses =~= seq!["archived = false"@]);
        }
        c
    }

    /// Adds `column = $n` for a present `value`, which becomes argument `n`.
    pub fn push_eq(&mut self, column: &str, value: &Option<String>)
        requires
            old(self).args@.len() < u64::MAX,
        ensures
            final(self)@ == with_eq(old(self)@, column@, opt_view(*value)),
            final(self).args@.len() <= old(self).args@.len() + 1,
    {
        if let Some(v) = value {
            let ghost before = self@;
            let mut clause = String::from_str(column);
            clause.append(" = $");
            let n: u64 = self.args.len() as u64 + 1;
            push_decimal(&mut clause, n);
            self.clauses.push(clause);
            self.args.push(v.clone());
            assert(self@.clauses =~= before.clauses.push(eq_clause(column@, before.args.len() + 1)));
            assert(self@.args =~= before.args.push(v@));
        }
    }

    /// Adds a title-or-description search for a present `term`.
    pub fn push_search(&mut self, term: &Option<String>)
        requires
            old(self).args@.len() < u64::MAX,
        ensures
            final(self)@ == with_search(old(self)@, opt_view(*term)),
            final(self).args@.len() <= old(self).args@.len() + 1,
    {
        if let Some(t) = term {
            let ghost before = self@;
            let mut pattern = String::from_str("%");
            pattern.append(t.as_str());
            pattern.append("%");
            self.args.push(pattern);
            let n: u64 = self.args.len() as u64;
            let mut clause = String::from_str("(title ILIKE $");
            push_decimal(&mut clause, n);
            clause.append(" OR description ILIKE $");
            push_decimal(&mut clause, n);
            clause.append(")");
            self.clauses.push(clause);
            assert(self@.clauses =~= before.clauses.push(search_clause(before.args.len() + 1)));
            assert(self@.args =~= before.args.push("%"@ + t@ + "%"@));
        }
    }

    /// `WHERE c1 AND c2 ...`, or the empty text when there is no clause.
    pub fn where_sql(&self) -> (s: String)
        ensures
            s@ == where_sql(self@.clauses),
    {
        let mut s = String::new();
        if self.clauses.len() > 0 {
            s.append("WHERE ");
            push_joined(&mut s, &self.clauses, " AND ");
        }
        s
    }
}


/// The requested page, counted from 1; a missing or zero page is page 1.
pub open spec fn effective_page(page: Option<u32>) -> nat {
    match page {
        Some(p) => if p >= 1 { p as nat } else { 1 },
        None => 1,
    }
}

/// The requested page size; a missing size is 0, which means "no paging".
pub open spec fn effective_page_size(page_size: Option<u32>) -> nat {
    match page_size {
        Some(s) => s as nat,
        None => 0,
    }
}

/// The number of rows that come before the requested page.
pub open spec fn page_offset(page: Option<u32>, page_size: Option<u32>) -> nat {
    ((effective_page(page) - 1) * effective_page_size(page_size)) as nat
}

/// The offset of the requested page fits the 32-bit arithmetic that computes it.
pub open spec fn window_fits(page: Option<u32>, page_size: Option<u32>) -> bool {
    effective_page_size(page_size) == 0 || page_offset(page, page_size) <= u32::MAX
}

/// Whether the offset of the requested page fits 32 bits, so that a listing
/// can be planned for these paging parameters.
pub fn page_window_fits(page: Option<u32>, page_size: Option<u32>) -> (b: bool)
    ensures
        b == window_fits(page, page_size),
{
    let p: u32 = match page {
        Some(p) => if p >= 1 { p } else { 1 },
        None => 1,
    };
    let size: u32 = match page_size {
        Some(s) => s,
        None => 0,
    };
    if size == 0 {
        return true;
    }
    let before: u64 = (p - 1) as u64;
    assert(before * size <= u32::MAX * u32::MAX) by (nonlinear_arith)
        requires
            before <= u32::MAX,
            size <= u32::MAX,
    ;
    assert(u32::MAX * u32::MAX <= u64::MAX) by (nonlinear_arith);
    before * (size as u64) <= 0xffff_ffff
}

/// ` LIMIT size OFFSET offset` when a page size is given, else nothing.
pub open spec fn limit_sql(page: Option<u32>, page_size: Option<u32>) -> Seq<char> {
    if effective_page_size(page_size) > 0 {
        " LIMIT "@ + decimal(effective_page_size(page_size)) + " OFFSET "@ + decimal(
            page_offset(page, page_size),
        )
    } else {
        Seq::empty()
    }
}

/// The paging part of a listing reads, in base ten, the page size as its LIMIT
/// and `(page - 1) * size` as its OFFSET, where a missing or zero page is page
/// 1; without a page size there is no paging part.
pub proof fn law_limit_denotes_window(page: Option<u32>, page_size: Option<u32>)
    ensures
        page_size is None || page_size == Some(0u32) ==> limit_sql(page, page_size).len() == 0,
        page_size is Some && page_size != Some(0u32) ==> {
            let size: int = page_size.unwrap() as int;
            let p: int = match page {
                Some(k) => if k >= 1 { k as int } else { 1 },
                None => 1,
            };
            let d1 = decimal(size as nat);
            let d2 = decimal(((p - 1) * size) as nat);
            &&& limit_sql(page, page_size) == " LIMIT "@ + d1 + " OFFSET "@ + d2
            &&& digits_value(d1) == size
            &&& digits_value(d2) == (p - 1) * size
        },
{
    if let Some(size) = page_size {
        let p: int = match page {
            Some(k) => if k >= 1 { k as int } else { 1 },
            None => 1,
        };
        assert((p - 1) * size >= 0) by (nonlinear_arith)
            requires
                p >= 1,
                size >= 0,
        ;
        law_decimal_denotes_its_value(size as nat);
        law_decimal_denotes_its_value(((p - 1) * size) as nat);
    }
}

/// Appends the LIMIT/OFFSET part of a listing to `sql`.
pub fn push_limit(sql: &mut String, page: Option<u32>, page_size: Option<u32>)
    requires
        window_fits(page, page_size),
    ensures
        final(sql)@ == old(sql)@ + limit_sql(page, page_size),
{
    let p: u32 = match page {
        Some(p) => if p >= 1 { p } else { 1 },
        None => 1,
    };
    let size: u32 = match page_size {
        Some(s) => s,
        None => 0,
    };
    if size > 0 {
        assert((p - 1) * size <= u32::MAX);
        let offset: u32 = (p - 1) * size;
        sql.append(" LIMIT ");
        push_decimal(sql, size as u64);
        sql.append(" OFFSET ");
        push_decimal(sql, offset as u64);
    }
}

/// The two statements of a listing and the arguments that both bind:
/// `count_sql` counts the matching rows, `data_sql` fetches the requested page.
pub struct ListQuery {
    pub count_sql: String,
    pub data_sql: String,
    pub args: Vec<String>,
}

} // verus!
