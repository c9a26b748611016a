use chrome_password_unlock::crypto::{derive_key, encrypt_password_legacy, encrypt_password_modern};
use chrome_password_unlock::database::query_login_data;
use chrome_password_unlock::models::{ChromeProfile, DecryptError, QueryParams};
use chrome_password_unlock::ChromePasswordUnlock;

const NONCE: [u8; 12] = [3, 1, 4, 1, 5, 9, 2, 6, 5, 3, 5, 8];

/// Creates a credential store at a fresh temporary path and returns the
/// path handle (the file lives as long as the handle).
fn make_store(rows: &[(&str, &str, Vec<u8>)]) -> tempfile::TempPath {
    let path = tempfile::NamedTempFile::new().unwrap().into_temp_path();
    let conn = rusqlite::Connection::open(&path).unwrap();
    conn.execute(
        "CREATE TABLE logins (action_url TEXT, username_value TEXT, password_value BLOB)",
        (),
    )
    .unwrap();
    for (url, user, blob) in rows {
        conn.execute(
            "INSERT INTO logins (action_url, username_value, password_value) VALUES (?1, ?2, ?3)",
            (*url, *user, blob),
        )
        .unwrap();
    }
    path
}

fn params<'a>(key: &'a [u8], keyword: Option<&str>) -> QueryParams<'a> {
    QueryParams { keyword: keyword.map(|s| s.to_string()), derived_key: key }
}

#[test]
fn per_record_isolation_counts_and_order() {
    // Five rows, of which exactly two survive: an empty ciphertext, a
    // malformed ciphertext and an empty URL are each skipped without
    // aborting the batch, and the survivors keep their relative order.
    let key = derive_key("isolation");
    let store = make_store(&[
        ("https://one.test", "u1", encrypt_password_legacy(&key, "pw1")),
        ("https://skip-empty.test", "u2", Vec::new()),
        ("https://skip-bad.test", "u3", vec![1, 2, 3, 4, 5]),
        ("", "u4", encrypt_password_modern(&key, &NONCE, "pw4")),
        ("https://five.test", "u5", encrypt_password_modern(&key, &NONCE, "pw5")),
    ]);
    let out = query_login_data(store.to_str().unwrap(), &params(&key, None)).unwrap();
    assert_eq!(out.len(), 2);
    assert_eq!(out[0].url, "https://one.test");
    assert_eq!(out[0].username, "u1");
    assert_eq!(out[0].password, "pw1");
    assert_eq!(out[1].url, "https://five.test");
    assert_eq!(out[1].password, "pw5");
}

#[test]
fn wrong_key_rows_are_skipped_not_fatal() {
    let key = derive_key("good key");
    let other = derive_key("other key");
    let store = make_store(&[
        ("https://a.test", "u", encrypt_password_modern(&other, &NONCE, "hidden")),
        ("https://b.test", "v", encrypt_password_legacy(&key, "visible")),
    ]);
    let out = query_login_data(store.to_str().unwrap(), &params(&key, None)).unwrap();
    assert_eq!(out.len(), 1);
    assert_eq!(out[0].url, "https://b.test");
    assert_eq!(out[0].password, "visible");
}

#[test]
fn keyword_filter_selects_matching_urls() {
    let key = derive_key("filter");
    let store = make_store(&[
        ("https://a.example.com", "u1", encrypt_password_legacy(&key, "p1")),
        ("https://b.other.com", "u2", encrypt_password_legacy(&key, "p2")),
    ]);
    let out = query_login_data(store.to_str().unwrap(), &params(&key, Some("example"))).unwrap();
    assert_eq!(out.len(), 1);
    assert_eq!(out[0].url, "https://a.example.com");
    let all = query_login_data(store.to_str().unwrap(), &params(&key, None)).unwrap();
    assert_eq!(all.len(), 2);
}

#[test]
fn keyword_without_match_returns_empty() {
    let key = derive_key("filter");
    let store = make_store(&[("https://a.example.com", "u1", encrypt_password_legacy(&key, "p1"))]);
    let out = query_login_data(store.to_str().unwrap(), &params(&key, Some("zebra"))).unwrap();
    assert!(out.is_empty());
}

#[test]
fn empty_store_is_a_valid_non_error_outcome() {
    let key = derive_key("empty");
    let store = make_store(&[]);
    let out = query_login_data(store.to_str().unwrap(), &params(&key, None)).unwrap();
    assert!(out.is_empty());
}

#[test]
fn missing_store_file_is_an_io_error() {
    let key = derive_key("missing");
    let r = query_login_data("/nonexistent/path/Login Data", &params(&key, None));
    assert!(matches!(r, Err(DecryptError::IoError(_))));
}

#[test]
fn store_without_logins_table_is_a_database_error() {
    let key = derive_key("schema");
    let path = tempfile::NamedTempFile::new().unwrap().into_temp_path();
    let conn = rusqlite::Connection::open(&path).unwrap();
    conn.execute("CREATE TABLE notlogins (x TEXT)", ()).unwrap();
    drop(conn);
    let r = query_login_data(path.to_str().unwrap(), &params(&key, None));
    assert!(matches!(r, Err(DecryptError::DatabaseError(_))));
}

#[test]
fn session_decrypts_profile() {
    let session = ChromePasswordUnlock::new("master secret");
    let key = derive_key("master secret");
    let store = make_store(&[("https://s.test", "me", encrypt_password_legacy(&key, "pw"))]);
    let profile = ChromeProfile {
        name: "Default".to_string(),
        path: "/tmp/ignored".to_string(),
        login_data_path: store.to_str().unwrap().to_string(),
    };
    let out = session.decrypt_from_profile(&profile, None).unwrap();
    assert_eq!(out.len(), 1);
    assert_eq!(out[0].password, "pw");
}

#[test]
fn session_keyword_filter() {
    let session = ChromePasswordUnlock::new("master secret");
    let key = derive_key("master secret");
    let store = make_store(&[
        ("https://a.example.com", "u1", encrypt_password_legacy(&key, "p1")),
        ("https://b.other.com", "u2", encrypt_password_legacy(&key, "p2")),
    ]);
    let profile = ChromeProfile {
        name: "Default".to_string(),
        path: "/tmp/ignored".to_string(),
        login_data_path: store.to_str().unwrap().to_string(),
    };
    let out = session.decrypt_from_profile(&profile, Some("example")).unwrap();
    assert_eq!(out.len(), 1);
    assert_eq!(out[0].url, "https://a.example.com");
}

#[test]
fn session_decrypts_all_profiles_and_isolates_failures() {
    let session = ChromePasswordUnlock::new("master secret");
    let key = derive_key("master secret");
    let store = make_store(&[("https://s.test", "me", encrypt_password_modern(&key, &NONCE, "pw"))]);
    let good = ChromeProfile {
        name: "Default".to_string(),
        path: "/tmp/ignored".to_string(),
        login_data_path: store.to_str().unwrap().to_string(),
    };
    let bad = ChromeProfile {
        name: "Profile 1".to_string(),
        path: "/tmp/ignored".to_string(),
        login_data_path: "/nonexistent/Login Data".to_string(),
    };
    let results = session.decrypt_from_all_profiles(&vec![good, bad], None);
    assert_eq!(results.len(), 2);
    assert_eq!(results[0].0, "Default");
    assert_eq!(results[0].1.as_ref().unwrap()[0].password, "pw");
    assert_eq!(results[1].0, "Profile 1");
    assert!(results[1].1.is_err());
}
