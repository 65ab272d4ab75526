//! Movie query plans.

use crate::models::movie::MovieFilters;
use crate::repo::{
    archived_clauses, binds, binds_search, effective_page, effective_page_size, lemma_numbered_step,
    lemma_with_eq, lemma_with_search, limit_sql, numbered, present, push_limit, where_sql,
    window_fits, with_eq, with_search, Clauses, ClausesView, ListQuery,
};
use crate::text::{decimal, opt_view, views};
use vstd::prelude::*;

verus! {

/// The columns that a movie query returns.
pub open spec fn movie_columns() -> Seq<char> {
    "id, title, description, poster_url, audio_language, country, genre, release_year, url, archived, created_at, updated_at"@
}

/// The conditions of a movie listing: archived rows unless included, one
/// equality per given filter in the order audio_language, genre, country, then
/// the search term.
pub open spec fn movie_conditions(f: MovieFilters) -> ClausesView {
    with_search(
        with_eq(
            with_eq(
                with_eq(
                    archived_clauses(f.include_archived),
                    "audio_language"@,
                    opt_view(f.audio_language),
                ),
                "genre"@,
                opt_view(f.genre),
            ),
            "country"@,
            opt_view(f.country),
        ),
        opt_view(f.search),
    )
}

/// The statement that counts the movies a listing matches.
pub open spec fn movie_count_sql(f: MovieFilters) -> Seq<char> {
    "SELECT COUNT(*) as count FROM movies "@ + where_sql(movie_conditions(f).clauses)
}

/// The statement that fetches the requested page of a listing, newest first.
pub open spec fn movie_data_sql(f: MovieFilters) -> Seq<char> {
    "SELECT "@ + movie_columns() + " FROM movies "@ + where_sql(movie_conditions(f).clauses)
        + " ORDER BY created_at DESC"@ + limit_sql(f.page, f.page_size)
}

/// The query plan of a movie listing.
pub fn list_query(filters: &MovieFilters) -> (q: ListQuery)
    requires
        window_fits(filters.page, filters.page_size),
    ensures
        q.count_sql@ == movie_count_sql(*filters),
        q.data_sql@ == movie_data_sql(*filters),
        views(q.args@) == movie_conditions(*filters).args,
{
    let mut c = Clauses::for_listing(filters.include_archived);
    c.push_eq("audio_language", &filters.audio_language);
    c.push_eq("genre", &filters.genre);
    c.push_eq("country", &filters.country);
    c.push_search(&filters.search);
    let where_part = c.where_sql();
    let mut count_sql = String::from_str("SELECT COUNT(*) as count FROM movies ");
    count_sql.append(where_part.as_str());
    let mut data_sql = String::from_str("SELECT ");
    data_sql.append(
        "id, title, description, poster_url, audio_language, country, genre, release_year, url, archived, created_at, updated_at",
    );
    data_sql.append(" FROM movies ");
    data_sql.append(where_part.as_str());
    data_sql.append(" ORDER BY created_at DESC");
    push_limit(&mut data_sql, filters.page, filters.page_size);
    ListQuery { count_sql, data_sql, args: c.args }
}


/// A movie listing applies each given filter with its own value, searches for
/// a given term, and binds no other argument; it leaves archived movies out
/// unless they are asked for (then its first condition is `archived = false`
/// and the only condition without an argument), and when they are, every
/// condition belongs to a filter or the search. A search is the last
/// condition, one match of its `%term%` argument against the title or the
/// description.
pub proof fn law_listing_applies_filters(f: MovieFilters)
    ensures
        opt_view(f.audio_language) matches Some(v) ==> binds(
            movie_conditions(f),
            "audio_language"@,
            v,
        ),
        opt_view(f.genre) matches Some(v) ==> binds(movie_conditions(f), "genre"@, v),
        opt_view(f.country) matches Some(v) ==> binds(movie_conditions(f), "country"@, v),
        opt_view(f.search) matches Some(t) ==> binds_search(movie_conditions(f), t),
        movie_conditions(f).args.len() == present(opt_view(f.audio_language)) + present(
            opt_view(f.genre),
        ) + present(opt_view(f.country)) + present(opt_view(f.search)),
        !f.include_archived ==> movie_conditions(f).clauses[0] == "archived = false"@,
        f.include_archived ==> movie_conditions(f).clauses.len() == movie_conditions(f).args.len(),
        !f.include_archived ==> movie_conditions(f).clauses.len() == movie_conditions(f).args.len() + 1,
        opt_view(f.search) matches Some(t) ==> ({
            let c = movie_conditions(f);
            let n = decimal(c.args.len());
            &&& c.clauses.last() == "(title ILIKE $"@ + n + " OR description ILIKE $"@ + n + ")"@
            &&& c.args.last() == "%"@ + t + "%"@
        }),
{
    let c0 = archived_clauses(f.include_archived);
    let c1 = with_eq(c0, "audio_language"@, opt_view(f.audio_language));
    let c2 = with_eq(c1, "genre"@, opt_view(f.genre));
    let c3 = with_eq(c2, "country"@, opt_view(f.country));
    lemma_with_eq(c0, "audio_language"@, opt_view(f.audio_language));
    lemma_with_eq(c1, "genre"@, opt_view(f.genre));
    lemma_with_eq(c2, "country"@, opt_view(f.country));
    lemma_with_search(c3, opt_view(f.search));
}

/// The statement that fetches every matching movie, newest first, without paging.
pub open spec fn movie_unpaged_sql(f: MovieFilters) -> Seq<char> {
    "SELECT "@ + movie_columns() + " FROM movies "@ + where_sql(movie_conditions(f).clauses)
        + " ORDER BY created_at DESC"@
}

/// Listings that differ only in the requested page are pages of one listing:
/// they count the same rows with the same arguments, and each fetches the
/// unpaged, newest-first listing cut to the window
/// ` LIMIT size OFFSET (page - 1) * size` (the whole listing without a page
/// size). By `law_page_windows_tile_rows`, these windows for pages 1, 2, ...
/// tile the listing's rows.
pub proof fn law_pages_of_one_listing(f: MovieFilters, g: MovieFilters)
    requires
        f.audio_language == g.audio_language,
        f.genre == g.genre,
        f.country == g.country,
        f.search == g.search,
        f.include_archived == g.include_archived,
        f.page_size == g.page_size,
    ensures
        movie_count_sql(f) == movie_count_sql(g),
        movie_conditions(f).args == movie_conditions(g).args,
        movie_unpaged_sql(f) == movie_unpaged_sql(g),
        effective_page_size(f.page_size) > 0 ==> movie_data_sql(f) == movie_unpaged_sql(f)
            + " LIMIT "@ + decimal(effective_page_size(f.page_size)) + " OFFSET "@ + decimal(
            ((effective_page(f.page) - 1) * effective_page_size(f.page_size)) as nat,
        ),
        effective_page_size(f.page_size) == 0 ==> movie_data_sql(f) == movie_unpaged_sql(f),
{
    assert(movie_data_sql(f) =~= movie_unpaged_sql(f) + limit_sql(f.page, f.page_size));
}

/// The conditions of a movie listing are `archived = false` when archived
/// movies are hidden, and nothing else fixed, followed by exactly one condition
/// per bound argument, in order: the condition after the fixed ones at
/// position `k` is `col = $k` for one of the filter columns `audio_language`,
/// `genre`, `country`, or the search `(title ILIKE $k OR description ILIKE $k)`.
pub proof fn law_listing_conditions_are_numbered(f: MovieFilters)
    ensures
        numbered(
            movie_conditions(f),
            if f.include_archived {
                0
            } else {
                1
            },
            seq!["audio_language"@, "genre"@, "country"@],
            true,
        ),
        !f.include_archived ==> movie_conditions(f).clauses[0] == "archived = false"@,
{
    let cols = seq!["audio_language"@, "genre"@, "country"@];
    let off: int = if f.include_archived {
        0
    } else {
        1
    };
    let c0 = archived_clauses(f.include_archived);
    assert(numbered(c0, off, cols, true));
    let c1 = with_eq(c0, "audio_language"@, opt_view(f.audio_language));
    let c2 = with_eq(c1, "genre"@, opt_view(f.genre));
    let c3 = with_eq(c2, "country"@, opt_view(f.country));
    assert(cols[0] == "audio_language"@ && cols[1] == "genre"@ && cols[2] == "country"@);
    lemma_numbered_step(c0, off, cols, true, "audio_language"@, opt_view(f.audio_language), false);
    lemma_numbered_step(c1, off, cols, true, "genre"@, opt_view(f.genre), false);
    lemma_numbered_step(c2, off, cols, true, "country"@, opt_view(f.country), false);
    lemma_numbered_step(c3, off, cols, true, Seq::empty(), opt_view(f.search), true);
    law_listing_applies_filters(f);
}

/// The count of a movie listing and the page it fetches select their rows by
/// the same conditions: the same WHERE text follows the FROM clause of both.
pub proof fn law_count_and_page_share_conditions(f: MovieFilters)
    ensures
        ({
            let w = where_sql(movie_conditions(f).clauses);
            let count_head = "SELECT COUNT(*) as count FROM movies "@;
            let data_head = "SELECT "@ + movie_columns() + " FROM movies "@;
            &&& movie_count_sql(f) == count_head + w
            &&& movie_data_sql(f).subrange(data_head.len() as int, (data_head.len() + w.len()) as int) == w
        }),
{
    let w = where_sql(movie_conditions(f).clauses);
    let data_head = "SELECT "@ + movie_columns() + " FROM movies "@;
    let tail = " ORDER BY created_at DESC"@ + limit_sql(f.page, f.page_size);
    assert(movie_data_sql(f) =~= data_head + w + tail);
    assert((data_head + w + tail).subrange(data_head.len() as int, (data_head.len() + w.len()) as int) =~= w);
}

} // verus!
