use mijikaku::error::AppError;
use mijikaku::ident::{IdGenerator, ID_LENGTH};
use mijikaku::service::{
    prepare_link, redirect, redirect_to, short_url, shorten, shorten_with_id, Input, BASE_URL,
    STATUS_FOUND,
};
use mijikaku::store::{Link, LinkTable};
use mijikaku::store::{DUPLICATE_KEY_MESSAGE, NO_ROW_MESSAGE};
use mijikaku::validate::{check_authority, validate_url};

fn url_safe(c: char) -> bool {
    c.is_ascii_alphanumeric() || c == '_' || c == '-'
}

fn input(url: &str) -> Input {
    Input { url: url.to_string() }
}

fn id_of(short: &str) -> String {
    let prefix = format!("{}/", BASE_URL);
    assert!(short.starts_with(&prefix));
    short[prefix.len()..].to_string()
}

#[test]
fn create_then_redirect_end_to_end() {
    let mut table = LinkTable::new();
    let generator = IdGenerator::standard();
    let short = shorten(&mut table, &generator, BASE_URL, &input("https://example.com/page")).unwrap();
    let id = id_of(&short);
    assert_eq!(id.chars().count(), 6);
    assert!(id.chars().all(url_safe));
    assert_eq!(table.len(), 1);
    let answer = redirect(&table, &id).unwrap();
    assert_eq!(answer.status_code, 302);
    assert_eq!(answer.location, "https://example.com/page");
}

#[test]
fn created_link_resolves_to_normalized_form() {
    let mut table = LinkTable::new();
    let generator = IdGenerator::standard();
    let short = shorten(&mut table, &generator, BASE_URL, &input("HTTPS://Example.COM")).unwrap();
    let answer = redirect(&table, &id_of(&short)).unwrap();
    assert_eq!(answer.location, "https://example.com/");
}

#[test]
fn invalid_urls_are_rejected_and_write_nothing() {
    let mut table = LinkTable::new();
    let generator = IdGenerator::standard();
    for bad in ["not a url", "", "/relative/path", "http://", "ftp:/bad", "mailto:x", "1http://x.example"] {
        let err = shorten(&mut table, &generator, BASE_URL, &input(bad)).unwrap_err();
        assert!(matches!(err, AppError::URLParseError));
        let body = err.to_api_error();
        assert_eq!(body.status_code, 422);
        assert_eq!(body.message, "URL Parse Error");
        assert_eq!(table.len(), 0);
    }
}

#[test]
fn unknown_id_fails_with_server_error() {
    let table = LinkTable::new();
    let err = redirect(&table, "abcdef").unwrap_err();
    assert!(matches!(err, AppError::DatabaseError(_)));
    let body = err.to_api_error();
    assert_eq!(body.status_code, 500);
    assert_eq!(
        body.message,
        "Database Error: no rows returned by a query that expected to return at least one row"
    );
}

#[test]
fn generated_ids_have_fixed_length_and_safe_characters() {
    let generator = IdGenerator::standard();
    assert_eq!(generator.length_of(), ID_LENGTH);
    for _ in 0..1000 {
        let id = generator.generate();
        assert_eq!(id.len(), 6);
        assert!(id.chars().all(url_safe));
    }
}

#[test]
fn custom_generator_uses_its_alphabet() {
    let generator = IdGenerator::new(vec!['x', 'y'], 12).unwrap();
    for _ in 0..100 {
        let id = generator.generate();
        assert_eq!(id.len(), 12);
        assert!(id.chars().all(|c| c == 'x' || c == 'y'));
    }
    let long = IdGenerator::url_safe(21).unwrap().generate();
    assert_eq!(long.len(), 21);
    assert!(long.chars().all(url_safe));
}

#[test]
fn invalid_generator_configs_are_refused() {
    assert!(IdGenerator::new(vec![], 6).is_none());
    assert!(IdGenerator::new(vec!['a'], 0).is_none());
    assert!(IdGenerator::new(vec!['a', 'é'], 6).is_none());
    assert!(IdGenerator::new(vec!['a'; 256], 6).is_none());
    assert!(IdGenerator::new(vec!['a'; 255], 6).is_some());
    assert!(IdGenerator::url_safe(0).is_none());
}

#[test]
fn two_creates_give_distinct_ids() {
    let mut table = LinkTable::new();
    let generator = IdGenerator::standard();
    let a = shorten(&mut table, &generator, BASE_URL, &input("https://example.com/a")).unwrap();
    let b = shorten(&mut table, &generator, BASE_URL, &input("https://example.org/b")).unwrap();
    let (ida, idb) = (id_of(&a), id_of(&b));
    assert_ne!(ida, idb);
    assert_eq!(table.len(), 2);
    assert_eq!(redirect(&table, &ida).unwrap().location, "https://example.com/a");
    assert_eq!(redirect(&table, &idb).unwrap().location, "https://example.org/b");
}

#[test]
fn taken_id_is_a_database_error_and_keeps_the_table() {
    let mut table = LinkTable::new();
    let first = shorten_with_id(&mut table, BASE_URL, &input("https://a.example/"), "abc123".to_string());
    assert_eq!(first.unwrap(), "https://mijikaku.shuttleapp.rs/abc123");
    let err = shorten_with_id(&mut table, BASE_URL, &input("https://b.example/"), "abc123".to_string())
        .unwrap_err();
    assert!(matches!(err, AppError::DatabaseError(_)));
    assert_eq!(err.to_api_error().status_code, 500);
    assert_eq!(
        err.message(),
        "Database Error: error returned from database: duplicate key value violates unique constraint \"urls_pkey\""
    );
    assert_eq!(table.len(), 1);
    assert_eq!(redirect(&table, "abc123").unwrap().location, "https://a.example/");
}

#[test]
fn invalid_url_with_given_id_writes_nothing() {
    let mut table = LinkTable::new();
    let err = shorten_with_id(&mut table, BASE_URL, &input("not a url"), "abc123".to_string()).unwrap_err();
    assert!(matches!(err, AppError::URLParseError));
    assert_eq!(table.len(), 0);
    assert!(redirect(&table, "abc123").is_err());
}

#[test]
fn repeated_redirects_give_the_same_target() {
    let mut table = LinkTable::new();
    shorten_with_id(&mut table, BASE_URL, &input("https://example.com/page"), "XXXXXX".to_string()).unwrap();
    for _ in 0..10 {
        let answer = redirect(&table, "XXXXXX").unwrap();
        assert_eq!(answer.status_code, STATUS_FOUND);
        assert_eq!(answer.location, "https://example.com/page");
    }
    assert_eq!(table.len(), 1);
}

#[test]
fn short_url_joins_base_and_id() {
    assert_eq!(short_url("https://s.example", "ab12Cd"), "https://s.example/ab12Cd");
    assert_eq!(short_url(BASE_URL, "XXXXXX"), "https://mijikaku.shuttleapp.rs/XXXXXX");
}

#[test]
fn validate_url_normalizes() {
    assert_eq!(validate_url("https://example.com").unwrap(), "https://example.com/");
    assert_eq!(validate_url("https://EXAMPLE.com/a/../b?q=1").unwrap(), "https://example.com/b?q=1");
    assert!(matches!(validate_url("not a url"), Err(AppError::URLParseError)));
}

#[test]
fn prepare_link_keeps_id_and_normalizes_url() {
    let link = prepare_link(&input("https://example.com"), "id0001".to_string()).unwrap();
    assert_eq!(link.id, "id0001");
    assert_eq!(link.url, "https://example.com/");
    assert!(prepare_link(&input(""), "id0001".to_string()).is_err());
}

#[test]
fn table_insert_and_lookup() {
    let mut table = LinkTable::new();
    let link = Link { id: "k".to_string(), url: "https://k.example/".to_string() };
    assert!(table.insert(link.clone()).is_ok());
    assert!(table.insert(link).is_err());
    assert_eq!(table.lookup("k").unwrap(), "https://k.example/");
    let err = table.lookup("missing").unwrap_err();
    assert!(matches!(err, AppError::DatabaseError(_)));
}

#[test]
fn redirect_to_passes_lookup_results_on() {
    let ok = redirect_to(Ok("https://example.com/".to_string())).unwrap();
    assert_eq!(ok.status_code, 302);
    assert_eq!(ok.location, "https://example.com/");
    let err = redirect_to(Err(AppError::DatabaseError("pool timed out".to_string()))).unwrap_err();
    assert_eq!(err.message(), "Database Error: pool timed out");
    assert_eq!(err.status_code(), 500);
}

#[test]
fn ftp_without_authority_is_unprocessable() {
    let mut table = LinkTable::new();
    let err = shorten_with_id(&mut table, BASE_URL, &input("ftp:/bad"), "abc123".to_string()).unwrap_err();
    assert!(matches!(err, AppError::URLParseError));
    assert_eq!(err.to_api_error().status_code, 422);
    assert_eq!(table.len(), 0);
}

#[test]
fn authority_check_follows_the_scheme() {
    assert!(check_authority("https://example.com"));
    assert!(check_authority("  \tftp://files.example"));
    assert!(check_authority("a+b.c-d://host"));
    assert!(!check_authority("ftp:/bad"));
    assert!(!check_authority("mailto:x@example.com"));
    assert!(!check_authority("1http://x"));
    assert!(!check_authority("://x"));
    assert!(!check_authority("http:"));
    assert!(!check_authority(""));
    assert!(validate_url("  https://example.com").is_ok());
}

#[test]
fn failed_lookups_carry_the_no_row_detail() {
    let table = LinkTable::new();
    for _ in 0..3 {
        match redirect(&table, "abcdef") {
            Err(AppError::DatabaseError(detail)) => assert_eq!(detail, NO_ROW_MESSAGE),
            other => panic!("unexpected {:?}", other),
        }
    }
    let mut table = LinkTable::new();
    let link = Link { id: "k".to_string(), url: "https://k.example/".to_string() };
    table.insert(link.clone()).unwrap();
    match table.insert(link) {
        Err(AppError::DatabaseError(detail)) => assert_eq!(detail, DUPLICATE_KEY_MESSAGE),
        other => panic!("unexpected {:?}", other),
    }
}
