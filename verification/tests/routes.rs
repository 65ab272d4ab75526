use hablemos_backend::models::movie::BulkDeleteInput;
use hablemos_backend::models::podcast::PaginationMeta;
use hablemos_backend::routes::link_report::{extract_client_ip, require_podcast};
use hablemos_backend::routes::{movie, page_count_in_range, pagination_meta, podcast, AppError, DbError};

fn missing() -> DbError {
    DbError { row_not_found: true, message: "no rows returned by a query that expected to return at least one row".to_string() }
}

fn broken() -> DbError {
    DbError { row_not_found: false, message: "pool timed out while waiting for an open connection".to_string() }
}

#[test]
fn pagination_of_forty_two_items_in_pages_of_ten() {
    let m = pagination_meta(Some(1), Some(10), 42);
    assert_eq!(m, PaginationMeta { total_count: 42, total_pages: 5, current_page: 1 });
}

#[test]
fn pagination_edges() {
    assert_eq!(pagination_meta(None, None, 0), PaginationMeta { total_count: 0, total_pages: 0, current_page: 1 });
    assert_eq!(pagination_meta(Some(0), Some(10), 0).current_page, 1);
    assert_eq!(pagination_meta(Some(0), Some(10), 0).total_pages, 0);
    assert_eq!(pagination_meta(Some(4), Some(10), 40).total_pages, 4);
    assert_eq!(pagination_meta(Some(4), Some(10), 41).total_pages, 5);
    assert_eq!(pagination_meta(Some(9), Some(1), 3).total_pages, 3);
    assert_eq!(pagination_meta(Some(9), None, 3), PaginationMeta { total_count: 3, total_pages: 0, current_page: 9 });
    assert_eq!(pagination_meta(None, Some(u32::MAX), i64::MAX - u32::MAX as i64).total_pages, 2147483648);
}

#[test]
fn page_count_range() {
    assert!(page_count_in_range(None, i64::MAX));
    assert!(page_count_in_range(Some(0), i64::MAX));
    assert!(page_count_in_range(Some(10), i64::MAX - 10));
    assert!(!page_count_in_range(Some(10), i64::MAX - 9));
}

#[test]
fn client_ip_prefers_first_forwarded_address() {
    assert_eq!(extract_client_ip(Some("203.0.113.7, 10.0.0.1"), Some("10.0.0.9")), Some("203.0.113.7".to_string()));
    assert_eq!(extract_client_ip(Some(" \t198.51.100.2 ,x"), None), Some("198.51.100.2".to_string()));
    assert_eq!(extract_client_ip(Some("2001:db8::1"), None), Some("2001:db8::1".to_string()));
    assert_eq!(extract_client_ip(Some(""), Some("10.0.0.9")), Some(String::new()));
    assert_eq!(extract_client_ip(Some(",1.2.3.4"), None), Some(String::new()));
    assert_eq!(extract_client_ip(Some("\u{3000}x\u{2028}"), None), Some("x".to_string()));
}

#[test]
fn client_ip_falls_back_to_real_ip_untrimmed() {
    assert_eq!(extract_client_ip(None, Some(" 10.0.0.9 ")), Some(" 10.0.0.9 ".to_string()));
    assert_eq!(extract_client_ip(None, None), None);
}

#[test]
fn report_needs_an_existing_podcast() {
    assert!(require_podcast(true).is_ok());
    match require_podcast(false) {
        Err(AppError::NotFound(m)) => assert_eq!(m, "podcast not found"),
        other => panic!("unexpected {other:?}"),
    }
}

#[test]
fn lookups_map_missing_rows_to_not_found() {
    match podcast::not_found(missing()) {
        AppError::NotFound(m) => assert_eq!(m, "podcast not found"),
        other => panic!("unexpected {other:?}"),
    }
    match movie::not_found(missing()) {
        AppError::NotFound(m) => assert_eq!(m, "movie not found"),
        other => panic!("unexpected {other:?}"),
    }
    match podcast::not_found(broken()) {
        AppError::Internal(m) => assert_eq!(m, "pool timed out while waiting for an open connection"),
        other => panic!("unexpected {other:?}"),
    }
    match AppError::from_db(broken()) {
        AppError::Internal(m) => assert_eq!(m, "pool timed out while waiting for an open connection"),
        other => panic!("unexpected {other:?}"),
    }
}

#[test]
fn deletions_answer_204_or_404() {
    assert_eq!(podcast::delete_outcome(true).unwrap(), 204);
    assert_eq!(movie::delete_outcome(true).unwrap(), 204);
    let e = podcast::delete_outcome(false).unwrap_err();
    assert_eq!(e.status_code(), 404);
    let e = movie::delete_outcome(false).unwrap_err();
    match e {
        AppError::NotFound(m) => assert_eq!(m, "movie not found"),
        other => panic!("unexpected {other:?}"),
    }
}

#[test]
fn bulk_delete_rejects_empty_ids() {
    let e = movie::check_bulk_delete(&BulkDeleteInput { ids: vec![] }).unwrap_err();
    assert_eq!(e.status_code(), 400);
    match e {
        AppError::BadRequest(m) => assert_eq!(m, "ids must not be empty"),
        other => panic!("unexpected {other:?}"),
    }
    assert!(movie::check_bulk_delete(&BulkDeleteInput { ids: vec![1, 2] }).is_ok());
}

#[test]
fn error_statuses() {
    assert_eq!(AppError::NotFound(String::new()).status_code(), 404);
    assert_eq!(AppError::BadRequest(String::new()).status_code(), 400);
    assert_eq!(AppError::Internal(String::new()).status_code(), 500);
}
