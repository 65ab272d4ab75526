//! The decisions behind the API's answers, on the inputs of the endpoint
//! scenarios: what each request is answered when the library decides it.

use hablemos_backend::models::movie::{BulkDeleteInput, CreateMovieInput, MovieFilters};
use hablemos_backend::models::podcast::{CreatePodcastInput, PodcastFilters, UpdatePodcastInput};
use hablemos_backend::repo::podcast::UpdatePlan;
use hablemos_backend::repo::{movie as movie_repo, podcast as podcast_repo};
use hablemos_backend::routes::link_report::require_podcast;
use hablemos_backend::routes::{movie, podcast, AppError, DbError};

fn s(x: &str) -> String {
    x.to_string()
}

fn row_not_found() -> DbError {
    DbError { row_not_found: true, message: s("no rows returned by a query that expected to return at least one row") }
}

fn status_of<T>(r: Result<T, AppError>) -> u16 {
    match r {
        Ok(_) => 200,
        Err(e) => e.status_code(),
    }
}

#[test]
fn list_podcasts_excludes_archived_by_default() {
    let mut f = PodcastFilters {
        language: None,
        level: None,
        country: None,
        topic: None,
        include_archived: false,
        page: None,
        page_size: None,
    };
    let q = podcast_repo::list_query(&f);
    assert!(q.count_sql.ends_with("FROM podcasts WHERE archived = false"));
    f.include_archived = true;
    let q = podcast_repo::list_query(&f);
    assert!(!q.count_sql.contains("archived"));
    assert!(!q.data_sql.contains("WHERE"));
}

#[test]
fn get_podcast_by_id_returns_404_for_missing() {
    assert_eq!(podcast::not_found(row_not_found()).status_code(), 404);
}

#[test]
fn report_dead_link_returns_404_for_missing_podcast() {
    assert_eq!(status_of(require_podcast(false)), 404);
}

#[test]
fn create_podcast_returns_201() {
    let input = CreatePodcastInput {
        title: s("New Pod"),
        description: s("A brand new podcast"),
        image_url: s("https://img.example.com/new.jpg"),
        language: s("en"),
        level: s("advanced"),
        country: s("Spain"),
        topic: s("culture"),
        url: s("https://example.com/new"),
    };
    assert!(input.validate().is_ok());
}

#[test]
fn create_podcast_validates_input() {
    let input = CreatePodcastInput {
        title: s(""),
        description: s("ok"),
        image_url: s("not-a-url"),
        language: s("invalid"),
        level: s("beginner"),
        country: s("Mexico"),
        topic: s("grammar"),
        url: s("https://example.com"),
    };
    let errors = input.validate().unwrap_err();
    assert!(!errors.is_empty());
    assert_eq!(AppError::BadRequest(String::new()).status_code(), 400);
}

#[test]
fn update_podcast_partial() {
    let input = UpdatePodcastInput {
        title: Some(s("Updated Title")),
        description: None,
        image_url: None,
        language: None,
        level: None,
        country: None,
        topic: None,
        url: None,
    };
    assert!(input.validate().is_ok());
    match podcast_repo::update_query(7, &input) {
        UpdatePlan::Update { sql, args } => {
            assert!(sql.starts_with("UPDATE podcasts SET title = $1, updated_at = NOW() WHERE id = $2::UUID"));
            assert!(!sql.contains("language ="));
            assert_eq!(args[0], "Updated Title");
        }
        UpdatePlan::Unchanged => panic!("expected an update"),
    }
}

#[test]
fn update_podcast_returns_404_for_missing() {
    assert_eq!(podcast::not_found(row_not_found()).status_code(), 404);
}

#[test]
fn delete_podcast_returns_204() {
    assert_eq!(podcast::delete_outcome(true).unwrap(), 204);
}

#[test]
fn delete_podcast_returns_404_for_missing() {
    assert_eq!(status_of(podcast::delete_outcome(false)), 404);
}

#[test]
fn list_movies_filters_by_language() {
    let f = MovieFilters {
        audio_language: Some(s("es")),
        genre: None,
        country: None,
        search: None,
        include_archived: false,
        page: None,
        page_size: None,
    };
    let q = movie_repo::list_query(&f);
    assert!(q.data_sql.contains("WHERE archived = false AND audio_language = $1 ORDER BY"));
    assert_eq!(q.args, vec![s("es")]);
}

#[test]
fn get_movie_by_id_returns_404_for_missing() {
    assert_eq!(movie::not_found(row_not_found()).status_code(), 404);
}

#[test]
fn create_movie_returns_201() {
    let input = CreateMovieInput {
        title: s("New Movie"),
        description: s("A brand new movie"),
        poster_url: s("https://img.example.com/new.jpg"),
        audio_language: s("es"),
        country: s("Spain"),
        genre: s("Comedy"),
        release_year: 2023,
        url: s("https://example.com/new-movie"),
    };
    assert!(input.validate().is_ok());
}

#[test]
fn create_movie_validates_input() {
    let input = CreateMovieInput {
        title: s(""),
        description: s("ok"),
        poster_url: s("not-a-url"),
        audio_language: s("invalid"),
        country: s("Mexico"),
        genre: s("Drama"),
        release_year: 2020,
        url: s("https://example.com"),
    };
    assert_eq!(input.validate().unwrap_err().len(), 3);
}

#[test]
fn delete_movie_returns_204() {
    assert_eq!(movie::delete_outcome(true).unwrap(), 204);
}

#[test]
fn delete_movie_returns_404_for_missing() {
    assert_eq!(status_of(movie::delete_outcome(false)), 404);
}

#[test]
fn bulk_delete_movies_returns_204() {
    let ids = vec![0x1111u128, 0x2222u128];
    assert!(movie::check_bulk_delete(&BulkDeleteInput { ids }).is_ok());
}

#[test]
fn bulk_delete_movies_rejects_empty_ids() {
    assert_eq!(status_of(movie::check_bulk_delete(&BulkDeleteInput { ids: vec![] })), 400);
}
