use hablemos_backend::models::movie::MovieFilters;
use hablemos_backend::models::podcast::{PodcastFilters, UpdatePodcastInput};
use hablemos_backend::repo::movie;
use hablemos_backend::repo::page_window_fits;
use hablemos_backend::repo::podcast::{self, UpdatePlan};

const PODCAST_COLUMNS: &str = "id, title, description, image_url, language, level, country, topic, url, archived, created_at, updated_at";
const MOVIE_COLUMNS: &str = "id, title, description, poster_url, audio_language, country, genre, release_year, url, archived, created_at, updated_at";

fn podcast_filters() -> PodcastFilters {
    PodcastFilters {
        language: None,
        level: None,
        country: None,
        topic: None,
        include_archived: false,
        page: None,
        page_size: None,
    }
}

fn movie_filters() -> MovieFilters {
    MovieFilters {
        audio_language: None,
        genre: None,
        country: None,
        search: None,
        include_archived: false,
        page: None,
        page_size: None,
    }
}

fn empty_update() -> UpdatePodcastInput {
    UpdatePodcastInput {
        title: None,
        description: None,
        image_url: None,
        language: None,
        level: None,
        country: None,
        topic: None,
        url: None,
    }
}

#[test]
fn podcast_listing_hides_archived_by_default() {
    let q = podcast::list_query(&podcast_filters());
    assert_eq!(q.count_sql, "SELECT COUNT(*) as count FROM podcasts WHERE archived = false");
    assert_eq!(
        q.data_sql,
        format!("SELECT {PODCAST_COLUMNS} FROM podcasts WHERE archived = false ORDER BY created_at DESC")
    );
    assert!(q.args.is_empty());
}

#[test]
fn podcast_listing_with_archived_has_no_condition() {
    let mut f = podcast_filters();
    f.include_archived = true;
    let q = podcast::list_query(&f);
    assert_eq!(q.count_sql, "SELECT COUNT(*) as count FROM podcasts ");
    assert_eq!(q.data_sql, format!("SELECT {PODCAST_COLUMNS} FROM podcasts  ORDER BY created_at DESC"));
    assert!(q.args.is_empty());
}

#[test]
fn podcast_listing_binds_each_filter_in_order() {
    let mut f = podcast_filters();
    f.language = Some("es".to_string());
    f.country = Some("Mexico".to_string());
    f.topic = Some("grammar".to_string());
    let q = podcast::list_query(&f);
    let w = "WHERE archived = false AND language = $1 AND country = $2 AND topic = $3";
    assert_eq!(q.count_sql, format!("SELECT COUNT(*) as count FROM podcasts {w}"));
    assert_eq!(q.data_sql, format!("SELECT {PODCAST_COLUMNS} FROM podcasts {w} ORDER BY created_at DESC"));
    assert_eq!(q.args, vec!["es".to_string(), "Mexico".to_string(), "grammar".to_string()]);
}

#[test]
fn podcast_listing_pages() {
    let mut f = podcast_filters();
    f.include_archived = true;
    f.level = Some("beginner".to_string());
    f.page = Some(3);
    f.page_size = Some(10);
    let q = podcast::list_query(&f);
    assert_eq!(
        q.data_sql,
        format!("SELECT {PODCAST_COLUMNS} FROM podcasts WHERE level = $1 ORDER BY created_at DESC LIMIT 10 OFFSET 20")
    );
    let mut f = podcast_filters();
    f.page = Some(0);
    f.page_size = Some(25);
    let q = podcast::list_query(&f);
    assert!(q.data_sql.ends_with("ORDER BY created_at DESC LIMIT 25 OFFSET 0"));
    let mut f = podcast_filters();
    f.page = Some(7);
    let q = podcast::list_query(&f);
    assert!(q.data_sql.ends_with("ORDER BY created_at DESC"));
}

#[test]
fn movie_listing_filters_by_language() {
    let mut f = movie_filters();
    f.audio_language = Some("es".to_string());
    let q = movie::list_query(&f);
    assert_eq!(
        q.count_sql,
        "SELECT COUNT(*) as count FROM movies WHERE archived = false AND audio_language = $1"
    );
    assert_eq!(
        q.data_sql,
        format!("SELECT {MOVIE_COLUMNS} FROM movies WHERE archived = false AND audio_language = $1 ORDER BY created_at DESC")
    );
    assert_eq!(q.args, vec!["es".to_string()]);
}

#[test]
fn movie_listing_search_uses_one_argument_twice() {
    let mut f = movie_filters();
    f.genre = Some("Drama".to_string());
    f.search = Some("amor".to_string());
    f.include_archived = true;
    f.page_size = Some(5);
    let q = movie::list_query(&f);
    let w = "WHERE genre = $1 AND (title ILIKE $2 OR description ILIKE $2)";
    assert_eq!(q.count_sql, format!("SELECT COUNT(*) as count FROM movies {w}"));
    assert_eq!(
        q.data_sql,
        format!("SELECT {MOVIE_COLUMNS} FROM movies {w} ORDER BY created_at DESC LIMIT 5 OFFSET 0")
    );
    assert_eq!(q.args, vec!["Drama".to_string(), "%amor%".to_string()]);
}

#[test]
fn empty_update_reads_back_unchanged() {
    assert!(matches!(podcast::update_query(1, &empty_update()), UpdatePlan::Unchanged));
}

#[test]
fn partial_update_sets_only_given_fields() {
    let id: u128 = 0x67e5504410b1426f9247bb680e5fe0c8;
    let mut u = empty_update();
    u.title = Some("Updated Title".to_string());
    match podcast::update_query(id, &u) {
        UpdatePlan::Update { sql, args } => {
            assert_eq!(
                sql,
                format!("UPDATE podcasts SET title = $1, updated_at = NOW() WHERE id = $2::UUID RETURNING {PODCAST_COLUMNS}")
            );
            assert_eq!(
                args,
                vec!["Updated Title".to_string(), "67e55044-10b1-426f-9247-bb680e5fe0c8".to_string()]
            );
        }
        UpdatePlan::Unchanged => panic!("expected an update"),
    }
}

#[test]
fn full_update_numbers_every_placeholder() {
    let mut u = empty_update();
    u.title = Some("a".to_string());
    u.description = Some("b".to_string());
    u.image_url = Some("c".to_string());
    u.language = Some("d".to_string());
    u.level = Some("e".to_string());
    u.country = Some("f".to_string());
    u.topic = Some("g".to_string());
    u.url = Some("h".to_string());
    match podcast::update_query(0, &u) {
        UpdatePlan::Update { sql, args } => {
            assert_eq!(
                sql,
                format!("UPDATE podcasts SET title = $1, description = $2, image_url = $3, language = $4, level = $5, country = $6, topic = $7, url = $8, updated_at = NOW() WHERE id = $9::UUID RETURNING {PODCAST_COLUMNS}")
            );
            assert_eq!(args.len(), 9);
            assert_eq!(args[8], "00000000-0000-0000-0000-000000000000");
        }
        UpdatePlan::Unchanged => panic!("expected an update"),
    }
}

fn id_argument(id: u128) -> String {
    let mut u = empty_update();
    u.topic = Some("grammar".to_string());
    match podcast::update_query(id, &u) {
        UpdatePlan::Update { sql, mut args } => {
            assert!(sql.starts_with("UPDATE podcasts SET topic = $1, updated_at = NOW() WHERE id = $2::UUID"));
            assert_eq!(args.len(), 2);
            args.pop().unwrap()
        }
        UpdatePlan::Unchanged => panic!("expected an update"),
    }
}

#[test]
fn update_binds_the_id_in_hyphenated_lowercase() {
    assert_eq!(id_argument(0xa1a2a3a4b1b2c1c2d1d2d3d4d5d6d7d8), "a1a2a3a4-b1b2-c1c2-d1d2-d3d4d5d6d7d8");
    assert_eq!(id_argument(u128::MAX), "ffffffff-ffff-ffff-ffff-ffffffffffff");
    assert_eq!(id_argument(0xF), "00000000-0000-0000-0000-00000000000f");
}

#[test]
fn listed_page_is_the_reported_page() {
    let mut f = podcast_filters();
    f.page = Some(3);
    f.page_size = Some(10);
    let q = podcast::list_query(&f);
    let meta = hablemos_backend::routes::pagination_meta(f.page, f.page_size, 57);
    assert_eq!(meta.current_page, 3);
    assert_eq!(meta.total_pages, 6);
    let offset = (meta.current_page - 1) * 10;
    assert!(q.data_sql.ends_with(&format!(" LIMIT 10 OFFSET {offset}")));
}

#[test]
fn paging_window_limits() {
    assert!(page_window_fits(None, None));
    assert!(page_window_fits(Some(u32::MAX), None));
    assert!(page_window_fits(Some(2), Some(u32::MAX)));
    assert!(!page_window_fits(Some(3), Some(u32::MAX)));
    assert!(page_window_fits(Some(65536), Some(65535)));
    assert!(!page_window_fits(Some(65537), Some(65536)));
}

#[test]
fn pages_of_one_listing_cut_the_same_rows() {
    let mut all = podcast_filters();
    all.country = Some("Mexico".to_string());
    let unpaged = podcast::list_query(&all);
    for k in 1u32..=4 {
        let mut f = podcast_filters();
        f.country = Some("Mexico".to_string());
        f.page = Some(k);
        f.page_size = Some(10);
        let q = podcast::list_query(&f);
        assert_eq!(q.count_sql, unpaged.count_sql);
        assert_eq!(q.args, unpaged.args);
        assert_eq!(q.data_sql, format!("{} LIMIT 10 OFFSET {}", unpaged.data_sql, (k - 1) * 10));
    }
    let mut f = movie_filters();
    f.search = Some("sol".to_string());
    let unpaged = movie::list_query(&f);
    f.page = Some(2);
    f.page_size = Some(7);
    let q = movie::list_query(&f);
    assert_eq!(q.count_sql, unpaged.count_sql);
    assert_eq!(q.data_sql, format!("{} LIMIT 7 OFFSET 7", unpaged.data_sql));
}

#[test]
fn page_windows_tile_the_rows() {
    let total: i64 = 23;
    let size: i64 = 5;
    let pages = hablemos_backend::routes::pagination_meta(None, Some(5), total).total_pages;
    assert_eq!(pages, 5);
    for row in 0..total {
        let owners: Vec<i64> = (1..=pages).filter(|k| (k - 1) * size <= row && row < k * size).collect();
        assert_eq!(owners, vec![row / size + 1]);
    }
    assert!((pages + 1 - 1) * size >= total);
}
