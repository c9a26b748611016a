use chrome_password_unlock::database::create_temp_db_copy;
use chrome_password_unlock::models::DecryptError;

fn make_store() -> tempfile::TempPath {
    let path = tempfile::NamedTempFile::new().unwrap().into_temp_path();
    let conn = rusqlite::Connection::open(&path).unwrap();
    conn.execute(
        "CREATE TABLE logins (action_url TEXT, username_value TEXT, password_value BLOB)",
        (),
    )
    .unwrap();
    conn.execute(
        "INSERT INTO logins (action_url, username_value, password_value) VALUES (?1, ?2, ?3)",
        ("https://x.test", "user", &b"blob".to_vec()),
    )
    .unwrap();
    path
}

#[test]
fn snapshot_permissions_are_owner_only() {
    let store = make_store();
    let snapshot = create_temp_db_copy(store.to_str().unwrap()).unwrap();
    let stat = rustix::fs::stat(snapshot.path().as_str()).unwrap();
    assert_eq!(stat.st_mode & 0o777, 0o600);
}

#[test]
fn snapshot_is_deleted_on_drop() {
    let store = make_store();
    let snapshot = create_temp_db_copy(store.to_str().unwrap()).unwrap();
    let path = snapshot.path().clone();
    assert!(rustix::fs::stat(path.as_str()).is_ok());
    drop(snapshot);
    assert!(rustix::fs::stat(path.as_str()).is_err());
}

#[test]
fn snapshot_preserves_contents_and_leaves_source_alone() {
    let store = make_store();
    let snapshot = create_temp_db_copy(store.to_str().unwrap()).unwrap();
    let conn = rusqlite::Connection::open(snapshot.path().as_str()).unwrap();
    let url: String = conn
        .query_row("SELECT action_url FROM logins", (), |row| row.get(0))
        .unwrap();
    assert_eq!(url, "https://x.test");
    drop(conn);
    drop(snapshot);
    // the original store is still there and intact
    let conn = rusqlite::Connection::open(&store).unwrap();
    let n: i64 = conn
        .query_row("SELECT COUNT(*) FROM logins", (), |row| row.get(0))
        .unwrap();
    assert_eq!(n, 1);
}

#[test]
fn snapshot_of_missing_file_is_an_io_error() {
    let r = create_temp_db_copy("/nonexistent/store/file");
    assert!(matches!(r, Err(DecryptError::IoError(_))));
}
