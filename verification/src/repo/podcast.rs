//! Podcast query plans.

use crate::ids::{uuid_hyphenated, uuid_text};
use crate::models::podcast::{update_podcast_errors, PodcastFilters, UpdatePodcastInput};
use crate::repo::{
    archived_clauses, binds, distinct_columns, effective_page, effective_page_size,
    lemma_numbered_step, lemma_with_eq, lemma_with_eq_unmentioned, limit_sql, mentions, no_clauses,
    numbered, present, push_limit, where_sql, window_fits, with_eq, Clauses, ClausesView, ListQuery,
};
use crate::text::{decimal, join, opt_view, push_decimal, push_joined, views};
use vstd::prelude::*;

verus! {

/// The columns that a podcast query returns.
pub open spec fn podcast_columns() -> Seq<char> {
    "id, title, description, image_url, language, level, country, topic, url, archived, created_at, updated_at"@
}

/// The conditions of a podcast listing: archived rows unless included, then one
/// equality per given filter, in the order language, level, country, topic.
pub open spec fn podcast_conditions(f: PodcastFilters) -> ClausesView {
    with_eq(
        with_eq(
            with_eq(
                with_eq(archived_clauses(f.include_archived), "language"@, opt_view(f.language)),
                "level"@,
                opt_view(f.level),
            ),
            "country"@,
            opt_view(f.country),
        ),
        "topic"@,
        opt_view(f.topic),
    )
}

/// The statement that counts the podcasts a listing matches.
pub open spec fn podcast_count_sql(f: PodcastFilters) -> Seq<char> {
    "SELECT COUNT(*) as count FROM podcasts "@ + where_sql(podcast_conditions(f).clauses)
}

/// The statement that fetches the requested page of a listing, newest first.
pub open spec fn podcast_data_sql(f: PodcastFilters) -> Seq<char> {
    "SELECT "@ + podcast_columns() + " FROM podcasts "@ + where_sql(podcast_conditions(f).clauses)
        + " ORDER BY created_at DESC"@ + limit_sql(f.page, f.page_size)
}

/// The query plan of a podcast listing.
pub fn list_query(filters: &PodcastFilters) -> (q: ListQuery)
    requires
        window_fits(filters.page, filters.page_size),
    ensures
        q.count_sql@ == podcast_count_sql(*filters),
        q.data_sql@ == podcast_data_sql(*filters),
        views(q.args@) == podcast_conditions(*filters).args,
{
    let mut c = Clauses::for_listing(filters.include_archived);
    c.push_eq("language", &filters.language);
    c.push_eq("level", &filters.level);
    c.push_eq("country", &filters.country);
    c.push_eq("topic", &filters.topic);
    let where_part = c.where_sql();
    let mut count_sql = String::from_str("SELECT COUNT(*) as count FROM podcasts ");
    count_sql.append(where_part.as_str());
    let mut data_sql = String::from_str("SELECT ");
    data_sql.append(
        "id, title, description, image_url, language, level, country, topic, url, archived, created_at, updated_at",
    );
    data_sql.append(" FROM podcasts ");
    data_sql.append(where_part.as_str());
    data_sql.append(" ORDER BY created_at DESC");
    push_limit(&mut data_sql, filters.page, filters.page_size);
    ListQuery { count_sql, data_sql, args: c.args }
}

/// The assignments of an update: one per present field, in the order title,
/// description, image_url, language, level, country, topic, url.
pub open spec fn update_assignments(i: UpdatePodcastInput) -> ClausesView {
    with_eq(
        with_eq(
            with_eq(
                with_eq(
                    with_eq(
                        with_eq(
                            with_eq(
                                with_eq(no_clauses(), "title"@, opt_view(i.title)),
                                "description"@,
                                opt_view(i.description),
                            ),
                            "image_url"@,
                            opt_view(i.image_url),
                        ),
                        "language"@,
                        opt_view(i.language),
                    ),
                    "level"@,
                    opt_view(i.level),
                ),
                "country"@,
                opt_view(i.country),
            ),
            "topic"@,
            opt_view(i.topic),
        ),
        "url"@,
        opt_view(i.url),
    )
}

/// What an update does: nothing to change (the podcast is read back as it is),
/// or one UPDATE statement with its arguments.
pub enum UpdatePlan {
    Unchanged,
    Update { sql: String, args: Vec<String> },
}

/// The arguments of an update statement: the present fields, then the id's text.
pub open spec fn update_args(id: u128, i: UpdatePodcastInput) -> Seq<Seq<char>> {
    update_assignments(i).args.push(uuid_hyphenated(id))
}

/// The update statement: the assignments and the refreshed timestamp, for the
/// row whose id is the last argument, returning the updated row.
pub open spec fn update_sql(id: u128, i: UpdatePodcastInput) -> Seq<char> {
    "UPDATE podcasts SET "@ + join(update_assignments(i).clauses.push("updated_at = NOW()"@), ", "@)
        + " WHERE id = $"@ + decimal(update_args(id, i).len()) + "::UUID RETURNING "@
        + podcast_columns()
}

/// The plan of a partial update of podcast `id`.
pub fn update_query(id: u128, input: &UpdatePodcastInput) -> (p: UpdatePlan)
    ensures
        update_assignments(*input).clauses.len() == 0 <==> p is Unchanged,
        p matches UpdatePlan::Update { sql, args } ==> {
            &&& sql@ == update_sql(id, *input)
            &&& views(args@) == update_args(id, *input)
        },
{
    let mut c = Clauses::new();
    c.push_eq("title", &input.title);
    c.push_eq("description", &input.description);
    c.push_eq("image_url", &input.image_url);
    c.push_eq("language", &input.language);
    c.push_eq("level", &input.level);
    c.push_eq("country", &input.country);
    c.push_eq("topic", &input.topic);
    c.push_eq("url", &input.url);
    if c.clauses.len() == 0 {
        return UpdatePlan::Unchanged;
    }
    let ghost assigned = c@;
    let mut sets = c.clauses;
    let mut args = c.args;
    sets.push(String::from_str("updated_at = NOW()"));
    args.push(uuid_text(id));
    assert(views(sets@) =~= assigned.clauses.push("updated_at = NOW()"@));
    assert(views(args@) =~= assigned.args.push(uuid_hyphenated(id)));
    let mut sql = String::from_str("UPDATE podcasts SET ");
    push_joined(&mut sql, &sets, ", ");
    sql.append(" WHERE id = $");
    push_decimal(&mut sql, args.len() as u64);
    sql.append("::UUID RETURNING ");
    sql.append(
        "id, title, description, image_url, language, level, country, topic, url, archived, created_at, updated_at",
    );
    UpdatePlan::Update { sql, args }
}


/// A podcast listing applies each given filter with its own value and binds no
/// other argument; it leaves archived podcasts out unless they are asked for
/// (then its first condition is `archived = false` and the only condition
/// without an argument), and when they are, every
/// condition is a filter's equality.
pub proof fn law_listing_applies_filters(f: PodcastFilters)
    ensures
        opt_view(f.language) matches Some(v) ==> binds(podcast_conditions(f), "language"@, v),
        opt_view(f.level) matches Some(v) ==> binds(podcast_conditions(f), "level"@, v),
        opt_view(f.country) matches Some(v) ==> binds(podcast_conditions(f), "country"@, v),
        opt_view(f.topic) matches Some(v) ==> binds(podcast_conditions(f), "topic"@, v),
        podcast_conditions(f).args.len() == present(opt_view(f.language)) + present(
            opt_view(f.level),
        ) + present(opt_view(f.country)) + present(opt_view(f.topic)),
        !f.include_archived ==> podcast_conditions(f).clauses[0] == "archived = false"@,
        f.include_archived ==> podcast_conditions(f).clauses.len() == podcast_conditions(f).args.len(),
        !f.include_archived ==> podcast_conditions(f).clauses.len() == podcast_conditions(f).args.len()
            + 1,
{
    let c0 = archived_clauses(f.include_archived);
    let c1 = with_eq(c0, "language"@, opt_view(f.language));
    let c2 = with_eq(c1, "level"@, opt_view(f.level));
    let c3 = with_eq(c2, "country"@, opt_view(f.country));
    lemma_with_eq(c0, "language"@, opt_view(f.language));
    lemma_with_eq(c1, "level"@, opt_view(f.level));
    lemma_with_eq(c2, "country"@, opt_view(f.country));
    lemma_with_eq(c3, "topic"@, opt_view(f.topic));
}


/// The statement that fetches every matching podcast, newest first, without paging.
pub open spec fn podcast_unpaged_sql(f: PodcastFilters) -> Seq<char> {
    "SELECT "@ + podcast_columns() + " FROM podcasts "@ + where_sql(podcast_conditions(f).clauses)
        + " ORDER BY created_at DESC"@
}

/// Listings that differ only in the requested page are pages of one listing:
/// they count the same rows with the same arguments, and each fetches the
/// unpaged, newest-first listing cut to the window
/// ` LIMIT size OFFSET (page - 1) * size` (the whole listing without a page
/// size). By `law_page_windows_tile_rows`, these windows for pages 1, 2, ...
/// tile the listing's rows.
pub proof fn law_pages_of_one_listing(f: PodcastFilters, g: PodcastFilters)
    requires
        f.language == g.language,
        f.level == g.level,
        f.country == g.country,
        f.topic == g.topic,
        f.include_archived == g.include_archived,
        f.page_size == g.page_size,
    ensures
        podcast_count_sql(f) == podcast_count_sql(g),
        podcast_conditions(f).args == podcast_conditions(g).args,
        podcast_unpaged_sql(f) == podcast_unpaged_sql(g),
        effective_page_size(f.page_size) > 0 ==> podcast_data_sql(f) == podcast_unpaged_sql(f)
            + " LIMIT "@ + decimal(effective_page_size(f.page_size)) + " OFFSET "@ + decimal(
            ((effective_page(f.page) - 1) * effective_page_size(f.page_size)) as nat,
        ),
        effective_page_size(f.page_size) == 0 ==> podcast_data_sql(f) == podcast_unpaged_sql(f),
{
    assert(podcast_data_sql(f) =~= podcast_unpaged_sql(f) + limit_sql(f.page, f.page_size));
}

/// The conditions of a podcast listing are `archived = false` when archived
/// podcasts are hidden, and nothing else fixed, followed by exactly one
/// equality per bound argument, in order: the condition after the fixed ones
/// at position `k` is `col = $k` for one of the filter columns `language`,
/// `level`, `country`, `topic`.
pub proof fn law_listing_conditions_are_numbered(f: PodcastFilters)
    ensures
        numbered(
            podcast_conditions(f),
            if f.include_archived {
                0
            } else {
                1
            },
            seq!["language"@, "level"@, "country"@, "topic"@],
            false,
        ),
        !f.include_archived ==> podcast_conditions(f).clauses[0] == "archived = false"@,
{
    let cols = seq!["language"@, "level"@, "country"@, "topic"@];
    let off: int = if f.include_archived {
        0
    } else {
        1
    };
    let c0 = archived_clauses(f.include_archived);
    assert(numbered(c0, off, cols, false));
    let c1 = with_eq(c0, "language"@, opt_view(f.language));
    let c2 = with_eq(c1, "level"@, opt_view(f.level));
    let c3 = with_eq(c2, "country"@, opt_view(f.country));
    assert(cols[0] == "language"@ && cols[1] == "level"@ && cols[2] == "country"@ && cols[3] == "topic"@);
    lemma_numbered_step(c0, off, cols, false, "language"@, opt_view(f.language), false);
    lemma_numbered_step(c1, off, cols, false, "level"@, opt_view(f.level), false);
    lemma_numbered_step(c2, off, cols, false, "country"@, opt_view(f.country), false);
    lemma_numbered_step(c3, off, cols, false, "topic"@, opt_view(f.topic), false);
    law_listing_applies_filters(f);
}

/// The count of a podcast listing and the page it fetches select their rows by
/// the same conditions: the same WHERE text follows the FROM clause of both.
pub proof fn law_count_and_page_share_conditions(f: PodcastFilters)
    ensures
        ({
            let w = where_sql(podcast_conditions(f).clauses);
            let count_head = "SELECT COUNT(*) as count FROM podcasts "@;
            let data_head = "SELECT "@ + podcast_columns() + " FROM podcasts "@;
            &&& podcast_count_sql(f) == count_head + w
            &&& podcast_data_sql(f).subrange(data_head.len() as int, (data_head.len() + w.len()) as int) == w
        }),
{
    let w = where_sql(podcast_conditions(f).clauses);
    let data_head = "SELECT "@ + podcast_columns() + " FROM podcasts "@;
    let tail = " ORDER BY created_at DESC"@ + limit_sql(f.page, f.page_size);
    assert(podcast_data_sql(f) =~= data_head + w + tail);
    assert((data_head + w + tail).subrange(data_head.len() as int, (data_head.len() + w.len()) as int) =~= w);
}

/// An update body without any field passes validation and changes nothing:
/// the podcast is read back as it is.
pub proof fn law_empty_update_changes_nothing(i: UpdatePodcastInput)
    requires
        i.title is None,
        i.description is None,
        i.image_url is None,
        i.language is None,
        i.level is None,
        i.country is None,
        i.topic is None,
        i.url is None,
    ensures
        update_podcast_errors(i).len() == 0,
        update_assignments(i).clauses.len() == 0,
{
}

/// The columns an update may assign, in assignment order.
pub open spec fn update_columns() -> Seq<Seq<char>> {
    seq![
        "title"@,
        "description"@,
        "image_url"@,
        "language"@,
        "level"@,
        "country"@,
        "topic"@,
        "url"@,
    ]
}

/// The fields of an update body, in the order of [`update_columns`].
pub open spec fn update_values(i: UpdatePodcastInput) -> Seq<Option<Seq<char>>> {
    seq![
        opt_view(i.title),
        opt_view(i.description),
        opt_view(i.image_url),
        opt_view(i.language),
        opt_view(i.level),
        opt_view(i.country),
        opt_view(i.topic),
        opt_view(i.url),
    ]
}

/// The assignments after the first `n` fields of an update.
pub open spec fn assignments_upto(i: UpdatePodcastInput, n: nat) -> ClausesView
    decreases n,
{
    if n == 0 {
        no_clauses()
    } else {
        with_eq(
            assignments_upto(i, (n - 1) as nat),
            update_columns()[n - 1],
            update_values(i)[n - 1],
        )
    }
}

proof fn lemma_assignments_upto(i: UpdatePodcastInput)
    ensures
        assignments_upto(i, 8) == update_assignments(i),
{
    reveal_with_fuel(assignments_upto, 9);
}

proof fn lemma_update_columns_distinct()
    ensures
        forall|a: int, b: int|
            0 <= a < 8 && 0 <= b < 8 && a != b ==> distinct_columns(
                #[trigger] update_columns()[a],
                #[trigger] update_columns()[b],
            ),
{
    reveal_strlit("title");
    reveal_strlit("description");
    reveal_strlit("image_url");
    reveal_strlit("language");
    reveal_strlit("level");
    reveal_strlit("country");
    reveal_strlit("topic");
    reveal_strlit("url");
}

proof fn lemma_update_field_upto(i: UpdatePodcastInput, f: int, n: nat)
    requires
        0 <= f < 8,
        n <= 8,
    ensures
        n > f ==> (update_values(i)[f] matches Some(v) ==> binds(
            assignments_upto(i, n),
            update_columns()[f],
            v,
        )),
        update_values(i)[f] is None ==> !mentions(assignments_upto(i, n), update_columns()[f]),
    decreases n,
{
    let col = update_columns()[f];
    if n == 0 {
        assert(no_clauses().clauses.len() == 0);
    } else {
        let m = (n - 1) as nat;
        lemma_update_field_upto(i, f, m);
        let prev = assignments_upto(i, m);
        lemma_with_eq(prev, update_columns()[m as int], update_values(i)[m as int]);
        if update_values(i)[f] is None {
            if m as int != f {
                lemma_update_columns_distinct();
                assert(distinct_columns(update_columns()[m as int], update_columns()[f]));
            }
            lemma_with_eq_unmentioned(prev, update_columns()[m as int], update_values(i)[m as int], col);
        }
    }
}

/// A partial update assigns exactly the fields it is given: each present field
/// is assigned its own value, no absent field's column is assigned at all (so
/// it keeps its stored value), and the arguments are the present values
/// followed by the podcast's id.
pub proof fn law_update_assigns_exactly_given_fields(id: u128, i: UpdatePodcastInput)
    ensures
        forall|f: int|
            0 <= f < 8 ==> (update_values(i)[f] matches Some(v) ==> binds(
                update_assignments(i),
                #[trigger] update_columns()[f],
                v,
            )),
        forall|f: int|
            0 <= f < 8 ==> (update_values(i)[f] is None ==> !mentions(
                update_assignments(i),
                #[trigger] update_columns()[f],
            )),
        update_args(id, i).last() == uuid_hyphenated(id),
        update_args(id, i).len() == update_assignments(i).args.len() + 1,
{
    assert forall|f: int| 0 <= f < 8 implies (update_values(i)[f] matches Some(v) ==> binds(
        update_assignments(i),
        #[trigger] update_columns()[f],
        v,
    )) by {
        lemma_update_field_upto(i, f, 8);
        lemma_assignments_upto(i);
    }
    assert forall|f: int| 0 <= f < 8 && update_values(i)[f] is None implies !mentions(
        update_assignments(i),
        #[trigger] update_columns()[f],
    ) by {
        lemma_update_field_upto(i, f, 8);
        lemma_assignments_upto(i);
    }
}

/// The statement of a partial update sets exactly one numbered assignment per
/// argument before the id (`col = $k` on one of the update's columns), then
/// refreshes `updated_at`, and selects the row by the last argument, which is
/// the podcast's id: it ends with `WHERE id = $n::UUID RETURNING` and the
/// podcast's columns, where `n` is the number of arguments.
pub proof fn law_update_statement_targets_the_id(id: u128, i: UpdatePodcastInput)
    ensures
        numbered(update_assignments(i), 0, update_columns(), false),
        ({
            let a = update_args(id, i);
            let s = update_sql(id, i);
            let head = "UPDATE podcasts SET "@;
            let tail = " WHERE id = $"@ + decimal(a.len()) + "::UUID RETURNING "@ + podcast_columns();
            &&& a[a.len() - 1] == uuid_hyphenated(id)
            &&& s.len() >= head.len() + tail.len()
            &&& s.subrange(0, head.len() as int) == head
            &&& s.subrange(s.len() - tail.len(), s.len() as int) == tail
        }),
{
    let cols = update_columns();
    lemma_assignments_upto(i);
    reveal_with_fuel(assignments_upto, 9);
    let c0 = no_clauses();
    assert(numbered(c0, 0, cols, false));
    let c1 = with_eq(c0, "title"@, opt_view(i.title));
    let c2 = with_eq(c1, "description"@, opt_view(i.description));
    let c3 = with_eq(c2, "image_url"@, opt_view(i.image_url));
    let c4 = with_eq(c3, "language"@, opt_view(i.language));
    let c5 = with_eq(c4, "level"@, opt_view(i.level));
    let c6 = with_eq(c5, "country"@, opt_view(i.country));
    let c7 = with_eq(c6, "topic"@, opt_view(i.topic));
    assert(cols[0] == "title"@ && cols[1] == "description"@ && cols[2] == "image_url"@);
    assert(cols[3] == "language"@ && cols[4] == "level"@ && cols[5] == "country"@);
    assert(cols[6] == "topic"@ && cols[7] == "url"@);
    lemma_numbered_step(c0, 0, cols, false, "title"@, opt_view(i.title), false);
    lemma_numbered_step(c1, 0, cols, false, "description"@, opt_view(i.description), false);
    lemma_numbered_step(c2, 0, cols, false, "image_url"@, opt_view(i.image_url), false);
    lemma_numbered_step(c3, 0, cols, false, "language"@, opt_view(i.language), false);
    lemma_numbered_step(c4, 0, cols, false, "level"@, opt_view(i.level), false);
    lemma_numbered_step(c5, 0, cols, false, "country"@, opt_view(i.country), false);
    lemma_numbered_step(c6, 0, cols, false, "topic"@, opt_view(i.topic), false);
    lemma_numbered_step(c7, 0, cols, false, "url"@, opt_view(i.url), false);
    let a = update_args(id, i);
    let head = "UPDATE podcasts SET "@;
    let body = join(update_assignments(i).clauses.push("updated_at = NOW()"@), ", "@);
    let tail = " WHERE id = $"@ + decimal(a.len()) + "::UUID RETURNING "@ + podcast_columns();
    let s = update_sql(id, i);
    assert(s =~= head + body + tail);
    assert(s.subrange(0, head.len() as int) =~= head);
    assert(s.subrange(s.len() - tail.len(), s.len() as int) =~= tail);
}


} // verus!
