use turkish_times::config::Config;
use turkish_times::forms::{
    related_genre_pattern, series_to_fetch, SearchParams, SearchQuery, SeriesQuery,
    RELATED_FALLBACK_GENRE,
};
use turkish_times::genres::{distinct_genres, home_genres};
use turkish_times::models::{Season, Series};
use turkish_times::text::make_like_pattern;

fn series_with_genres(genres: Option<&str>) -> Series {
    Series { genres: genres.map(|g| g.to_string()), ..Series::default() }
}

#[test]
fn genre_list_reads_the_json_array() {
    let s = series_with_genres(Some(r#"["Drama","History"]"#));
    assert_eq!(s.genre_list(), vec!["Drama".to_string(), "History".to_string()]);
    assert!(series_with_genres(Some("Drama")).genre_list().is_empty());
    assert!(series_with_genres(Some(r#"[1,2]"#)).genre_list().is_empty());
    assert!(series_with_genres(None).genre_list().is_empty());
}

#[test]
fn home_genres_are_distinct_in_order_and_at_most_ten() {
    let stored = vec![
        Some(r#"["Drama","History"]"#.to_string()),
        None,
        Some("not json".to_string()),
        Some(r#"["History","Action","Drama","Romance"]"#.to_string()),
    ];
    assert_eq!(home_genres(&stored), vec!["Drama", "History", "Action", "Romance"]);

    let many: Vec<String> = (0..15).map(|i| format!("G{i}")).collect();
    let stored = vec![Some(serde_json::to_string(&many).unwrap()), Some(r#"["G0","G3"]"#.to_string())];
    let shown = home_genres(&stored);
    assert_eq!(shown.len(), 10);
    assert_eq!(shown, many[..10].to_vec());
    assert!(home_genres(&Vec::new()).is_empty());
}

#[test]
fn upload_urls() {
    let mut s = Series::default();
    assert_eq!(s.thumbnail_url("http://x"), "");
    assert_eq!(s.backdrop_url("http://x"), "");
    s.thumbnail = Some("5_thumbnail.jpg".to_string());
    s.backdrop = Some("5_backdrop.png".to_string());
    assert_eq!(s.thumbnail_url("http://x"), "http://x/uploads/thumbnails/5_thumbnail.jpg");
    assert_eq!(s.backdrop_url("http://x"), "http://x/uploads/backdrops/5_backdrop.png");
}

#[test]
fn config_defaults_and_sqlite_file() {
    let c = Config::from_values(None, None, None);
    assert_eq!(c.database_url, "sqlite:data/database.sqlite");
    assert_eq!(c.app_url, "http://localhost:8000");
    assert_eq!(c.session_secret, "change-this-secret-key-in-production");
    assert_eq!(c.sqlite_file(), Some("data/database.sqlite".to_string()));
    let c = Config::from_values(Some("postgres://db".into()), Some("https://tt".into()), Some("s".into()));
    assert_eq!(c.database_url, "postgres://db");
    assert_eq!(c.app_url, "https://tt");
    assert_eq!(c.session_secret, "s");
    assert_eq!(c.sqlite_file(), None);
    assert_eq!(Config::from_values(Some("sqlite:".into()), None, None).sqlite_file(), Some(String::new()));
}

#[test]
fn page_search_needs_two_bytes() {
    let r = SearchQuery { q: None }.page_search();
    assert_eq!(r.query, "");
    assert_eq!(r.pattern, None);
    assert_eq!(SearchQuery { q: Some("a".into()) }.page_search().pattern, None);
    assert_eq!(SearchQuery { q: Some("ab".into()) }.page_search().pattern, Some("%ab%".to_string()));
    assert_eq!(SearchQuery { q: Some("ş".into()) }.page_search().pattern, Some("%ş%".to_string()));
}

#[test]
fn api_search_needs_a_query() {
    assert_eq!(SearchParams { q: None }.pattern(), None);
    assert_eq!(SearchParams { q: Some(String::new()) }.pattern(), None);
    assert_eq!(SearchParams { q: Some("k".into()) }.pattern(), Some("%k%".to_string()));
}

#[test]
fn series_listing_filters_by_status() {
    let all = SeriesQuery { status: None, genre: None, sort: None }.listing();
    assert_eq!(all.sql, "SELECT * FROM series WHERE 1=1 ORDER BY created_at DESC");
    assert!(!all.filter_by_status);
    assert_eq!(all.status, "");
    assert_eq!(all.genre, "");
    let done = SeriesQuery { status: Some("completed".into()), genre: Some("Drama".into()), sort: None }.listing();
    assert_eq!(done.sql, "SELECT * FROM series WHERE 1=1 AND status = ? ORDER BY created_at DESC");
    assert!(done.filter_by_status);
    assert_eq!(done.status, "completed");
    assert_eq!(done.genre, "Drama");
}

#[test]
fn related_patterns() {
    assert_eq!(related_genre_pattern(&None), "%%");
    assert_eq!(related_genre_pattern(&Some(r#"["Drama"]"#.into())), r#"%["Drama"]%"#);
    let long = r#"["Drama","History","Action"]"#.to_string();
    let expected: String = long.chars().take(20).collect();
    assert_eq!(related_genre_pattern(&Some(long)), format!("%{}%", expected));
    assert_eq!(make_like_pattern(RELATED_FALLBACK_GENRE), "%Historical%");
}

#[test]
fn episode_page_looks_up_the_series_of_a_found_season() {
    assert_eq!(series_to_fetch(&None), None);
    assert_eq!(series_to_fetch(&Some(Season::default())), None);
    let s = Season { id: 4, series_id: 9, ..Season::default() };
    assert_eq!(series_to_fetch(&Some(s)), Some(9));
}

#[test]
fn distinct_genres_of_parsed_lists() {
    let lists = vec![
        vec!["Drama".to_string(), "History".to_string()],
        vec![],
        vec!["History".to_string(), "Action".to_string(), "Drama".to_string()],
    ];
    assert_eq!(distinct_genres(&lists), vec!["Drama", "History", "Action"]);
    let many: Vec<String> = (0..12).map(|i| format!("G{i}")).collect();
    assert_eq!(distinct_genres(&vec![many.clone(), many.clone()]), many[..10].to_vec());
    assert!(distinct_genres(&Vec::new()).is_empty());
}
