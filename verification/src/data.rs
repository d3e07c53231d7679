//! Durable persistence of users and encrypted secrets in a single SQLite
//! database, with uniqueness and isolation invariants.
//!
//! The store's contents are modeled by two maps: `users_of` (username to
//! user id, password hash and encryption salt) and `secrets_of` (owner id
//! and label to kind and ciphertext). Every operation's contract says how it
//! reads or rewrites those maps; usernames are globally unique, labels
//! unique within one user's namespace, and reads return only rows owned by
//! the queried user id.
//!
//! The store owns exactly one underlying connection, opened once with its
//! schema created inside a single transaction. The model — and every trusted
//! contract over it — speaks of a database laid out by this store's own
//! schema (its unique-username and unique-label-per-user constraints
//! included) and written through this connection alone, which is what the
//! session design guarantees: one store, one connection, one writer.
use vstd::prelude::*;

use crate::errors::VaultError;

verus! {

use vstd::string::StrSliceExecFns;

use rusqlite::OptionalExtension;

/// Declares the outside SQLite connection type: a value of it is opaque
/// here; the maps `users_of` and `secrets_of` name what its database holds.
#[verifier::external_type_specification]
#[verifier::external_body]
pub struct ExConnection(rusqlite::Connection);

/// Declares the outside SQLite error type.
#[verifier::external_type_specification]
#[verifier::external_body]
pub struct ExSqlError(rusqlite::Error);

/// The users table behind `conn`: username to
/// (user id, password hash, encryption salt).
pub uninterp spec fn users_of(conn: rusqlite::Connection) -> Map<
    Seq<char>,
    (int, Seq<char>, Seq<u8>),
>;

/// The secrets table behind `conn`: (owner's user id, label) to
/// (kind, ciphertext).
pub uninterp spec fn secrets_of(conn: rusqlite::Connection) -> Map<
    (int, Seq<char>),
    (Seq<char>, Seq<u8>),
>;

/// Whether some user in `users` already carries the id `id`.
pub open spec fn user_id_taken(
    users: Map<Seq<char>, (int, Seq<char>, Seq<u8>)>,
    id: int,
) -> bool {
    exists|u: Seq<char>| #[trigger] users.dom().contains(u) && users[u].0 == id
}

/// `secrets` with every entry owned by `user_id` removed.
pub open spec fn secrets_without_user(
    secrets: Map<(int, Seq<char>), (Seq<char>, Seq<u8>)>,
    user_id: int,
) -> Map<(int, Seq<char>), (Seq<char>, Seq<u8>)> {
    Map::new(
        |k: (int, Seq<char>)| secrets.dom().contains(k) && k.0 != user_id,
        |k: (int, Seq<char>)| secrets[k],
    )
}

/// The (kind, label) pairs of the secrets owned by `user_id` in `secrets`.
pub open spec fn user_labels(
    secrets: Map<(int, Seq<char>), (Seq<char>, Seq<u8>)>,
    user_id: int,
) -> Set<(Seq<char>, Seq<char>)> {
    Set::new(
        |p: (Seq<char>, Seq<char>)|
            secrets.dom().contains((user_id, p.1)) && secrets[(user_id, p.1)].0 == p.0,
    )
}

/// The isolation law for writes: a secret stored under one user's id is
/// invisible to every other user — it changes neither the other user's
/// label listing nor any of the other user's stored secrets.
pub proof fn lemma_user_isolation(
    m: Map<(int, Seq<char>), (Seq<char>, Seq<u8>)>,
    a: int,
    b: int,
    label: Seq<char>,
    v: (Seq<char>, Seq<u8>),
)
    requires
        a != b,
    ensures
        user_labels(m.insert((a, label), v), b) == user_labels(m, b),
        forall|l: Seq<char>|
            #[trigger] m.insert((a, label), v).dom().contains((b, l)) <==> m.dom().contains(
                (b, l),
            ),
        forall|l: Seq<char>|
            m.dom().contains((b, l)) ==> m.insert((a, label), v)[(b, l)] == m[(b, l)],
{
    assert(user_labels(m.insert((a, label), v), b) =~= user_labels(m, b));
}

/// The isolation law for deletion: removing every secret one user owns
/// leaves every other user's label listing and stored secrets untouched.
pub proof fn lemma_delete_isolation(
    m: Map<(int, Seq<char>), (Seq<char>, Seq<u8>)>,
    a: int,
    b: int,
)
    requires
        a != b,
    ensures
        user_labels(secrets_without_user(m, a), b) == user_labels(m, b),
        forall|l: Seq<char>|
            #[trigger] secrets_without_user(m, a).dom().contains((b, l)) <==> m.dom().contains(
                (b, l),
            ),
        forall|l: Seq<char>|
            m.dom().contains((b, l)) ==> secrets_without_user(m, a)[(b, l)] == m[(b, l)],
{
    assert(user_labels(secrets_without_user(m, a), b) =~= user_labels(m, b));
}

/// Compares two string slices by contents.
fn str_eq(a: &str, b: &str) -> (r: bool)
    ensures
        r == (a@ == b@),
{
    let x = a.to_owned();
    let y = b.to_owned();
    x == y
}

/// Relies on `rusqlite::Connection::open`: opens (creating it if missing)
/// the database file at `path`.
#[verifier::external_body]
fn open_conn(path: &str) -> (r: Result<rusqlite::Connection, rusqlite::Error>) {
    rusqlite::Connection::open(path)
}

/// Relies on `rusqlite::Connection::execute_batch`: creates the two tables
/// and the owner index if they do not exist yet, inside one transaction.
/// `CREATE TABLE IF NOT EXISTS` and `CREATE INDEX IF NOT EXISTS` never touch
/// existing rows, so the contents are unchanged.
#[verifier::external_body]
fn init_schema(conn: &mut rusqlite::Connection) -> (r: Result<(), rusqlite::Error>)
    ensures
        users_of(*final(conn)) == users_of(*old(conn)),
        secrets_of(*final(conn)) == secrets_of(*old(conn)),
{
    conn.execute_batch(
        "BEGIN;
        CREATE TABLE IF NOT EXISTS users (
            user_id INTEGER PRIMARY KEY,
            username TEXT UNIQUE NOT NULL CHECK(length(username) <= 24),
            passwd_hash TEXT NOT NULL,
            enc_salt BLOB NOT NULL);
        CREATE TABLE IF NOT EXISTS secrets (
            id INTEGER PRIMARY KEY,
            user_id INTEGER,
            kind TEXT NOT NULL CHECK(kind IN ('text', 'password')),
            label TEXT NOT NULL CHECK(length(label) >= 3 AND length(label) <= 32),
            data BLOB NOT NULL CHECK(length(data) > 3),
            UNIQUE(user_id, label),
            FOREIGN KEY(user_id) REFERENCES users(user_id));
        CREATE INDEX IF NOT EXISTS idx_secrets_user_id ON secrets (user_id);
        COMMIT;",
    )
}

/// Relies on `rusqlite::Connection::query_row` and
/// `OptionalExtension::optional` over the users table's unique username
/// column: the row's id when the username exists, `None` when not.
#[verifier::external_body]
fn db_get_user_id(conn: &rusqlite::Connection, username: &str) -> (r: Result<
    Option<i64>,
    rusqlite::Error,
>)
    ensures
        r matches Ok(opt) ==> ((opt is Some) <==> users_of(*conn).dom().contains(username@)) && (
        opt matches Some(id) ==> users_of(*conn)[username@].0 == id as int),
{
    conn.query_row(
        "SELECT user_id FROM users WHERE username = ?1",
        (username,),
        |row| row.get(0),
    ).optional()
}

/// Relies on `rusqlite::Connection::query_row` and
/// `OptionalExtension::optional`: the username of the user whose primary key
/// is `user_id`, `None` when no user carries that id.
#[verifier::external_body]
fn db_get_username(conn: &rusqlite::Connection, user_id: i64) -> (r: Result<
    Option<String>,
    rusqlite::Error,
>)
    ensures
        r matches Ok(opt) ==> (opt matches Some(u) ==> users_of(*conn).dom().contains(u@)
            && users_of(*conn)[u@].0 == user_id as int) && (opt is None ==> !user_id_taken(
            users_of(*conn),
            user_id as int,
        )),
{
    conn.query_row(
        "SELECT username FROM users WHERE user_id = ?1",
        (user_id,),
        |row| row.get(0),
    ).optional()
}

/// Relies on `rusqlite::Connection::query_row` and
/// `OptionalExtension::optional`: the stored password hash of `username`.
#[verifier::external_body]
fn db_get_passwd_hash(conn: &rusqlite::Connection, username: &str) -> (r: Result<
    Option<String>,
    rusqlite::Error,
>)
    ensures
        r matches Ok(opt) ==> ((opt is Some) <==> users_of(*conn).dom().contains(username@)) && (
        opt matches Some(h) ==> users_of(*conn)[username@].1 == h@),
{
    conn.query_row(
        "SELECT passwd_hash FROM users WHERE username = ?1",
        (username,),
        |row| row.get(0),
    ).optional()
}

/// Relies on `rusqlite::Connection::query_row` and
/// `OptionalExtension::optional`: the stored encryption salt of `username`.
#[verifier::external_body]
fn db_get_enc_salt(conn: &rusqlite::Connection, username: &str) -> (r: Result<
    Option<Vec<u8>>,
    rusqlite::Error,
>)
    ensures
        r matches Ok(opt) ==> ((opt is Some) <==> users_of(*conn).dom().contains(username@)) && (
        opt matches Some(s) ==> users_of(*conn)[username@].2 == s@),
{
    conn.query_row(
        "SELECT enc_salt FROM users WHERE username = ?1",
        (username,),
        |row| row.get(0),
    ).optional()
}

/// Relies on `rusqlite::Connection::execute` over `INSERT INTO users`: on
/// success SQLite assigned a primary key no existing user carries (the
/// column is the rowid primary key) and the unique constraint admitted the
/// username; on failure nothing was written.
#[verifier::external_body]
fn db_insert_user(
    conn: &mut rusqlite::Connection,
    username: &str,
    passwd_hash: &str,
    enc_salt: &[u8],
) -> (r: Result<(), rusqlite::Error>)
    ensures
        r is Ok ==> !users_of(*old(conn)).dom().contains(username@),
        r is Ok ==> exists|id: int|
            !(#[trigger] user_id_taken(users_of(*old(conn)), id)) && users_of(*final(conn))
                == users_of(*old(conn)).insert(username@, (id, passwd_hash@, enc_salt@)),
        r is Ok ==> secrets_of(*final(conn)) == secrets_of(*old(conn)),
        r is Err ==> users_of(*final(conn)) == users_of(*old(conn)) && secrets_of(*final(conn))
            == secrets_of(*old(conn)),
{
    conn.execute(
        "INSERT INTO users (username, passwd_hash, enc_salt) VALUES (?1, ?2, ?3)",
        (username, passwd_hash, enc_salt),
    )?;
    Ok(())
}

/// Relies on `rusqlite::Connection::execute` over `DELETE FROM users`:
/// removes the row of `username` if present, and nothing else.
#[verifier::external_body]
fn db_delete_user(conn: &mut rusqlite::Connection, username: &str) -> (r: Result<
    (),
    rusqlite::Error,
>)
    ensures
        r is Ok ==> users_of(*final(conn)) == users_of(*old(conn)).remove(username@) && secrets_of(
            *final(conn),
        ) == secrets_of(*old(conn)),
        r is Err ==> users_of(*final(conn)) == users_of(*old(conn)) && secrets_of(*final(conn))
            == secrets_of(*old(conn)),
{
    conn.execute("DELETE FROM users WHERE username = ?1", (username,))?;
    Ok(())
}

/// Relies on `rusqlite::Connection::execute` over `DELETE FROM secrets`:
/// removes every secret owned by `user_id`, and nothing else.
#[verifier::external_body]
fn db_delete_user_secrets(conn: &mut rusqlite::Connection, user_id: i64) -> (r: Result<
    (),
    rusqlite::Error,
>)
    ensures
        r is Ok ==> secrets_of(*final(conn)) == secrets_without_user(
            secrets_of(*old(conn)),
            user_id as int,
        ) && users_of(*final(conn)) == users_of(*old(conn)),
        r is Err ==> users_of(*final(conn)) == users_of(*old(conn)) && secrets_of(*final(conn))
            == secrets_of(*old(conn)),
{
    conn.execute("DELETE FROM secrets WHERE user_id = ?1", (user_id,))?;
    Ok(())
}

/// Relies on `rusqlite::Connection::query_row` and
/// `OptionalExtension::optional` over the per-user unique (user_id, label)
/// pair: the kind and ciphertext of that secret, `None` when absent.
#[verifier::external_body]
fn db_get_secret(conn: &rusqlite::Connection, user_id: i64, label: &str) -> (r: Result<
    Option<(String, Vec<u8>)>,
    rusqlite::Error,
>)
    ensures
        r matches Ok(opt) ==> ((opt is Some) <==> secrets_of(*conn).dom().contains(
            (user_id as int, label@),
        )) && (opt matches Some(p) ==> secrets_of(*conn)[(user_id as int, label@)] == (
        p.0@,
        p.1@,
        )),
{
    conn.query_row(
        "SELECT kind, data FROM secrets WHERE user_id = ?1 AND label = ?2",
        (user_id, label),
        |row| Ok((row.get(0)?, row.get(1)?)),
    ).optional()
}

/// Relies on `rusqlite::Connection::execute` over `INSERT INTO secrets`: on
/// success the per-user unique constraint admitted the (owner, label) pair
/// and exactly that row was added; on failure nothing was written.
#[verifier::external_body]
fn db_insert_secret(
    conn: &mut rusqlite::Connection,
    user_id: i64,
    kind: &str,
    label: &str,
    data: &[u8],
) -> (r: Result<(), rusqlite::Error>)
    ensures
        r is Ok ==> !secrets_of(*old(conn)).dom().contains((user_id as int, label@))
            && secrets_of(*final(conn)) == secrets_of(*old(conn)).insert(
            (user_id as int, label@),
            (kind@, data@),
        ) && users_of(*final(conn)) == users_of(*old(conn)),
        r is Err ==> users_of(*final(conn)) == users_of(*old(conn)) && secrets_of(*final(conn))
            == secrets_of(*old(conn)),
{
    conn.execute(
        "INSERT INTO secrets (user_id, kind, label, data) VALUES (?1, ?2, ?3, ?4)",
        (user_id, kind, label, data),
    )?;
    Ok(())
}

/// Relies on `rusqlite::Connection::execute` over `UPDATE OR ABORT secrets`:
/// rewrites label and data of the matched row, keeping its kind; the number
/// of changed rows is 1 or 0 as the (owner, label) pair is present or not;
/// on failure (including a collision on the per-user unique constraint)
/// nothing was changed.
#[verifier::external_body]
fn db_update_secret(
    conn: &mut rusqlite::Connection,
    user_id: i64,
    label: &str,
    new_label: &str,
    new_data: &[u8],
) -> (r: Result<usize, rusqlite::Error>)
    ensures
        r matches Ok(n) ==> users_of(*final(conn)) == users_of(*old(conn)) && (secrets_of(
            *old(conn),
        ).dom().contains((user_id as int, label@)) ==> n == 1 && secrets_of(*final(conn))
            == secrets_of(*old(conn)).remove((user_id as int, label@)).insert(
            (user_id as int, new_label@),
            (secrets_of(*old(conn))[(user_id as int, label@)].0, new_data@),
        )) && (!secrets_of(*old(conn)).dom().contains((user_id as int, label@)) ==> n == 0
            && secrets_of(*final(conn)) == secrets_of(*old(conn))),
        r is Err ==> users_of(*final(conn)) == users_of(*old(conn)) && secrets_of(*final(conn))
            == secrets_of(*old(conn)),
{
    let n = conn.execute(
        "UPDATE OR ABORT secrets SET label = ?1, data = ?2 WHERE user_id = ?3 AND label = ?4",
        (new_label, new_data, user_id, label),
    )?;
    Ok(n)
}

/// Relies on `rusqlite::Connection::execute` over `DELETE FROM secrets`:
/// removes the (owner, label) row if present, and nothing else.
#[verifier::external_body]
fn db_delete_secret(conn: &mut rusqlite::Connection, user_id: i64, label: &str) -> (r: Result<
    (),
    rusqlite::Error,
>)
    ensures
        r is Ok ==> secrets_of(*final(conn)) == secrets_of(*old(conn)).remove(
            (user_id as int, label@),
        ) && users_of(*final(conn)) == users_of(*old(conn)),
        r is Err ==> users_of(*final(conn)) == users_of(*old(conn)) && secrets_of(*final(conn))
            == secrets_of(*old(conn)),
{
    conn.execute("DELETE FROM secrets WHERE user_id = ?1 AND label = ?2", (user_id, label))?;
    Ok(())
}

/// Relies on `rusqlite::Statement::query_map` over the owner index: one
/// (kind, label) pair for each secret owned by `user_id`, each owned label
/// exactly once, and nothing of any other user.
#[verifier::external_body]
fn db_get_labels(conn: &rusqlite::Connection, user_id: i64) -> (r: Result<
    Vec<(String, String)>,
    rusqlite::Error,
>)
    ensures
        r matches Ok(v) ==> v@.map_values(|p: (String, String)| (p.0@, p.1@)).to_set()
            == user_labels(secrets_of(*conn), user_id as int) && (forall|x: int, y: int|
            0 <= x < y < v@.len() ==> v@[x].1@ != v@[y].1@),
{
    let mut stmt = conn.prepare("SELECT kind, label FROM secrets WHERE user_id = ?1")?;
    let rows = stmt.query_map((user_id,), |row| Ok((row.get(0)?, row.get(1)?)))?;
    let mut out: Vec<(String, String)> = Vec::new();
    for row in rows {
        out.push(row?);
    }
    Ok(out)
}

/// Relies on `rusqlite::Connection::close`: flushes and closes the handle.
#[verifier::external_body]
fn close_conn(conn: rusqlite::Connection) -> (r: Result<(), rusqlite::Error>) {
    conn.close().map_err(|p| p.1)
}

/// The kind of a stored secret: a password or free text.
#[derive(Debug, Clone, Copy, PartialEq, Eq, Structural)]
pub enum Kind {
    Password,
    Text,
}

impl Kind {
    /// The kind's stored text form: `password` or `text`.
    pub open spec fn spec_str(self) -> Seq<char> {
        match self {
            Kind::Password => "password"@,
            Kind::Text => "text"@,
        }
    }

    /// Parses a kind's text form; anything but `password` or `text` is
    /// rejected with `InvalidKind`.
    pub fn from_str(input: &str) -> (r: Result<Kind, VaultError>)
        ensures
            r matches Ok(k) ==> input@ == k.spec_str(),
            r is Err <==> input@ != "password"@ && input@ != "text"@,
            r is Err ==> r == Err::<Kind, VaultError>(VaultError::InvalidKind),
    {
        if str_eq(input, "password") {
            Ok(Kind::Password)
        } else if str_eq(input, "text") {
            Ok(Kind::Text)
        } else {
            Err(VaultError::InvalidKind)
        }
    }

    /// The kind's text form, as stored in the database.
    pub fn to_str(self) -> (r: String)
        ensures
            r@ == self.spec_str(),
    {
        match self {
            Kind::Password => "password".to_owned(),
            Kind::Text => "text".to_owned(),
        }
    }
}

/// One row of a label listing: the kind's text form and the label.
#[derive(Debug)]
pub struct RetrieveLabelsQueryResult {
    pub kind: String,
    pub label: String,
}

/// A connection to the vault's SQLite database. `close` is idempotent;
/// every other operation fails with `ConnectionFailed` once it is closed.
pub struct DbConn {
    conn: Option<rusqlite::Connection>,
}

impl DbConn {
    /// Whether the store still holds its connection.
    pub closed spec fn is_open(&self) -> bool {
        self.conn is Some
    }

    /// The users table behind this store.
    pub closed spec fn users(&self) -> Map<Seq<char>, (int, Seq<char>, Seq<u8>)> {
        users_of(self.conn->Some_0)
    }

    /// The secrets table behind this store.
    pub closed spec fn secrets(&self) -> Map<(int, Seq<char>), (Seq<char>, Seq<u8>)> {
        secrets_of(self.conn->Some_0)
    }

    /// Opens (creating the file and schema as needed) the database at
    /// `path`. The schema is created inside a single transaction; the file
    /// may already hold users and secrets, which the store then serves.
    pub fn new(path: &str) -> (r: Result<DbConn, VaultError>)
        ensures
            r matches Ok(db) ==> db.is_open(),
            r is Err ==> r == Err::<DbConn, VaultError>(VaultError::ConnectionFailed),
    {
        let mut conn = match open_conn(path) {
            Ok(c) => c,
            Err(_) => {
                return Err(VaultError::ConnectionFailed);
            },
        };
        match init_schema(&mut conn) {
            Ok(()) => Ok(DbConn { conn: Some(conn) }),
            Err(_) => Err(VaultError::ConnectionFailed),
        }
    }

    /// Inserts a new user row. The username must be at most 24 characters
    /// (`Validation`) and not yet taken (`UsernameTaken`); SQLite assigns it
    /// a user id no existing user carries.
    pub fn create_user(&mut self, username: &str, passwd_hash: &str, enc_salt: &[u8]) -> (r:
        Result<(), VaultError>)
        ensures
            !old(self).is_open() ==> r == Err::<(), VaultError>(VaultError::ConnectionFailed),
            r == Err::<(), VaultError>(VaultError::ConnectionFailed) ==> !old(self).is_open(),
            r is Err ==> r == Err::<(), VaultError>(VaultError::ConnectionFailed) || r == Err::<
                (),
                VaultError,
            >(VaultError::Validation) || r == Err::<(), VaultError>(VaultError::UsernameTaken) || r
                == Err::<(), VaultError>(VaultError::Storage),
            old(self).is_open() && username@.len() > 24 ==> r == Err::<(), VaultError>(
                VaultError::Validation,
            ),
            r == Err::<(), VaultError>(VaultError::Validation) ==> username@.len() > 24,
            r == Err::<(), VaultError>(VaultError::UsernameTaken) ==> old(
                self,
            ).users().dom().contains(username@),
            r is Ok ==> old(self).is_open() && !old(self).users().dom().contains(username@)
                && (exists|id: int|
                !(#[trigger] user_id_taken(old(self).users(), id)) && final(self).users() == old(self).users().insert(username@, (id, passwd_hash@, enc_salt@))) && final(self).secrets()
                == old(self).secrets() && final(self).is_open(),
            r is Err ==> final(self).is_open() == old(self).is_open() && final(self).users() == old(self).users() && final(self).secrets() == old(self).secrets(),
    {
        if username.unicode_len() > 24 {
            match &self.conn {
                Some(_) => {
                    return Err(VaultError::Validation);
                },
                None => {
                    return Err(VaultError::ConnectionFailed);
                },
            }
        }
        match &mut self.conn {
            Some(conn) => {
                match db_get_user_id(&*conn, username) {
                    Ok(Some(_)) => Err(VaultError::UsernameTaken),
                    Ok(None) => {
                        let ghost users_before = users_of(*conn);
                        match db_insert_user(conn, username, passwd_hash, enc_salt) {
                            Ok(()) => {
                                proof {
                                    let id = choose|id: int|
                                        !(#[trigger] user_id_taken(users_before, id)) && users_of(
                                            *conn,
                                        ) == users_before.insert(
                                            username@,
                                            (id, passwd_hash@, enc_salt@),
                                        );
                                    assert(!user_id_taken(users_before, id) && users_of(*conn)
                                        == users_before.insert(
                                        username@,
                                        (id, passwd_hash@, enc_salt@),
                                    ));
                                    assert(exists|id2: int|
                                        !(#[trigger] user_id_taken(users_before, id2)) && users_of(
                                            *conn,
                                        ) == users_before.insert(
                                            username@,
                                            (id2, passwd_hash@, enc_salt@),
                                        ));
                                }
                                Ok(())
                            },
                            Err(_) => Err(VaultError::Storage),
                        }
                    },
                    Err(_) => Err(VaultError::Storage),
                }
            },
            None => Err(VaultError::ConnectionFailed),
        }
    }

    /// The user id of `username`, or `None` when no such user exists.
    pub fn get_user_id(&self, username: &str) -> (r: Result<Option<i64>, VaultError>)
        ensures
            !self.is_open() ==> r == Err::<Option<i64>, VaultError>(VaultError::ConnectionFailed),
            r == Err::<Option<i64>, VaultError>(VaultError::ConnectionFailed) ==> !self.is_open(),
            r is Err ==> r == Err::<Option<i64>, VaultError>(VaultError::ConnectionFailed) || r
                == Err::<Option<i64>, VaultError>(VaultError::Storage),
            r matches Ok(opt) ==> self.is_open() && ((opt is Some) <==> self.users().dom().contains(
                username@,
            )) && (opt matches Some(id) ==> self.users()[username@].0 == id as int),
    {
        match &self.conn {
            Some(conn) => match db_get_user_id(conn, username) {
                Ok(opt) => Ok(opt),
                Err(_) => Err(VaultError::Storage),
            },
            None => Err(VaultError::ConnectionFailed),
        }
    }

    /// The username whose user id is `user_id`, or `None` when no user
    /// carries that id.
    pub fn get_username(&self, user_id: &i64) -> (r: Result<Option<String>, VaultError>)
        ensures
            !self.is_open() ==> r == Err::<Option<String>, VaultError>(
                VaultError::ConnectionFailed,
            ),
            r == Err::<Option<String>, VaultError>(VaultError::ConnectionFailed)
                ==> !self.is_open(),
            r is Err ==> r == Err::<Option<String>, VaultError>(VaultError::ConnectionFailed) || r
                == Err::<Option<String>, VaultError>(VaultError::Storage),
            r matches Ok(opt) ==> self.is_open() && (opt matches Some(u) ==> self.users(
            ).dom().contains(u@) && self.users()[u@].0 == *user_id as int) && (opt is None
                ==> !user_id_taken(self.users(), *user_id as int)),
    {
        match &self.conn {
            Some(conn) => match db_get_username(conn, *user_id) {
                Ok(opt) => Ok(opt),
                Err(_) => Err(VaultError::Storage),
            },
            None => Err(VaultError::ConnectionFailed),
        }
    }

    /// The stored password hash of `username`, or `None` when no such user
    /// exists.
    pub fn get_user_passwd_hash(&self, username: &str) -> (r: Result<Option<String>, VaultError>)
        ensures
            !self.is_open() ==> r == Err::<Option<String>, VaultError>(
                VaultError::ConnectionFailed,
            ),
            r == Err::<Option<String>, VaultError>(VaultError::ConnectionFailed)
                ==> !self.is_open(),
            r is Err ==> r == Err::<Option<String>, VaultError>(VaultError::ConnectionFailed) || r
                == Err::<Option<String>, VaultError>(VaultError::Storage),
            r matches Ok(opt) ==> self.is_open() && ((opt is Some) <==> self.users().dom().contains(
                username@,
            )) && (opt matches Some(h) ==> self.users()[username@].1 == h@),
    {
        match &self.conn {
            Some(conn) => match db_get_passwd_hash(conn, username) {
                Ok(opt) => Ok(opt),
                Err(_) => Err(VaultError::Storage),
            },
            None => Err(VaultError::ConnectionFailed),
        }
    }

    /// The stored encryption salt of `username`, or `None` when no such
    /// user exists.
    pub fn get_user_enc_salt(&self, username: &str) -> (r: Result<Option<Vec<u8>>, VaultError>)
        ensures
            !self.is_open() ==> r == Err::<Option<Vec<u8>>, VaultError>(
                VaultError::ConnectionFailed,
            ),
            r == Err::<Option<Vec<u8>>, VaultError>(VaultError::ConnectionFailed)
                ==> !self.is_open(),
            r is Err ==> r == Err::<Option<Vec<u8>>, VaultError>(VaultError::ConnectionFailed) || r
                == Err::<Option<Vec<u8>>, VaultError>(VaultError::Storage),
            r matches Ok(opt) ==> self.is_open() && ((opt is Some) <==> self.users().dom().contains(
                username@,
            )) && (opt matches Some(s) ==> self.users()[username@].2 == s@),
    {
        match &self.conn {
            Some(conn) => match db_get_enc_salt(conn, username) {
                Ok(opt) => Ok(opt),
                Err(_) => Err(VaultError::Storage),
            },
            None => Err(VaultError::ConnectionFailed),
        }
    }

    /// Removes `username`'s row together with every secret that user owns,
    /// so a later user can never inherit them; doing nothing when no such
    /// user exists.
    pub fn delete_user(&mut self, username: &str) -> (r: Result<(), VaultError>)
        ensures
            !old(self).is_open() ==> r == Err::<(), VaultError>(VaultError::ConnectionFailed),
            r == Err::<(), VaultError>(VaultError::ConnectionFailed) ==> !old(self).is_open(),
            r is Err ==> r == Err::<(), VaultError>(VaultError::ConnectionFailed) || r == Err::<
                (),
                VaultError,
            >(VaultError::Storage),
            r is Ok ==> old(self).is_open() && final(self).is_open() && final(self).users() == old(self).users().remove(username@) && (old(self).users().dom().contains(username@) ==> final(self).secrets() == secrets_without_user(
                old(self).secrets(),
                old(self).users()[username@].0,
            )) && (!old(self).users().dom().contains(username@) ==> final(self).secrets() == old(self).secrets()),
            r is Err ==> final(self).is_open() == old(self).is_open() && final(self).users() == old(self).users(),
    {
        match &mut self.conn {
            Some(conn) => {
                let id_opt = match db_get_user_id(&*conn, username) {
                    Ok(opt) => opt,
                    Err(_) => {
                        return Err(VaultError::Storage);
                    },
                };
                match id_opt {
                    Some(id) => {
                        match db_delete_user_secrets(conn, id) {
                            Ok(()) => {},
                            Err(_) => {
                                return Err(VaultError::Storage);
                            },
                        }
                        match db_delete_user(conn, username) {
                            Ok(()) => {
                                proof {
                                    assert(final(self).users() =~= old(self).users().remove(
                                        username@,
                                    ));
                                }
                                Ok(())
                            },
                            Err(_) => Err(VaultError::Storage),
                        }
                    },
                    None => {
                        proof {
                            assert(final(self).users() =~= old(self).users().remove(username@));
                        }
                        Ok(())
                    },
                }
            },
            None => Err(VaultError::ConnectionFailed),
        }
    }

    /// Stores a new secret for `user_id`. The label must be 3 to 32
    /// characters and the ciphertext longer than 3 bytes (`Validation`,
    /// before any row is written), and the label not yet used by this user
    /// (`DuplicateLabel`); the same label under another user is fine.
    pub fn store_secret(&mut self, user_id: i64, kind: Kind, label: &str, data: Vec<u8>) -> (r:
        Result<(), VaultError>)
        ensures
            !old(self).is_open() ==> r == Err::<(), VaultError>(VaultError::ConnectionFailed),
            r == Err::<(), VaultError>(VaultError::ConnectionFailed) ==> !old(self).is_open(),
            r is Err ==> r == Err::<(), VaultError>(VaultError::ConnectionFailed) || r == Err::<
                (),
                VaultError,
            >(VaultError::Validation) || r == Err::<(), VaultError>(VaultError::DuplicateLabel)
                || r == Err::<(), VaultError>(VaultError::Storage),
            old(self).is_open() && !(3 <= label@.len() <= 32 && data@.len() > 3) ==> r == Err::<
                (),
                VaultError,
            >(VaultError::Validation),
            r == Err::<(), VaultError>(VaultError::Validation) ==> !(3 <= label@.len() <= 32
                && data@.len() > 3),
            r == Err::<(), VaultError>(VaultError::DuplicateLabel) ==> old(
                self,
            ).secrets().dom().contains((user_id as int, label@)),
            r is Ok ==> old(self).is_open() && final(self).is_open() && 3 <= label@.len() <= 32
                && data@.len() > 3 && !old(self).secrets().dom().contains((user_id as int, label@))
                && final(self).secrets() == old(self).secrets().insert(
                (user_id as int, label@),
                (kind.spec_str(), data@),
            ) && final(self).users() == old(self).users(),
            r is Err ==> final(self).is_open() == old(self).is_open() && final(self).users() == old(self).users() && final(self).secrets() == old(self).secrets(),
    {
        match &mut self.conn {
            Some(conn) => {
                let llen = label.unicode_len();
                if llen < 3 || llen > 32 || data.len() <= 3 {
                    return Err(VaultError::Validation);
                }
                match db_get_secret(&*conn, user_id, label) {
                    Ok(Some(_)) => Err(VaultError::DuplicateLabel),
                    Ok(None) => {
                        let kind_str = kind.to_str();
                        match db_insert_secret(
                            conn,
                            user_id,
                            kind_str.as_str(),
                            label,
                            data.as_slice(),
                        ) {
                            Ok(()) => Ok(()),
                            Err(_) => Err(VaultError::Storage),
                        }
                    },
                    Err(_) => Err(VaultError::Storage),
                }
            },
            None => Err(VaultError::ConnectionFailed),
        }
    }

    /// Atomically renames and rewrites the secret stored under
    /// (`user_id`, `label`), keeping its kind. Fails with `NotFound` when
    /// that pair does not exist, with `Validation` on a bad new label or
    /// ciphertext, and with `DuplicateLabel` when the new label is already
    /// used by this user.
    pub fn edit_secret(&mut self, user_id: i64, label: &str, new_label: &str, new_data: Vec<u8>)
        -> (r: Result<(), VaultError>)
        ensures
            !old(self).is_open() ==> r == Err::<(), VaultError>(VaultError::ConnectionFailed),
            r == Err::<(), VaultError>(VaultError::ConnectionFailed) ==> !old(self).is_open(),
            r is Err ==> r == Err::<(), VaultError>(VaultError::ConnectionFailed) || r == Err::<
                (),
                VaultError,
            >(VaultError::Validation) || r == Err::<(), VaultError>(VaultError::NotFound) || r
                == Err::<(), VaultError>(VaultError::DuplicateLabel) || r == Err::<(), VaultError>(
                VaultError::Storage,
            ),
            old(self).is_open() && !(3 <= new_label@.len() <= 32 && new_data@.len() > 3) ==> r
                == Err::<(), VaultError>(VaultError::Validation),
            r == Err::<(), VaultError>(VaultError::Validation) ==> !(3 <= new_label@.len() <= 32
                && new_data@.len() > 3),
            r == Err::<(), VaultError>(VaultError::NotFound) ==> !old(
                self,
            ).secrets().dom().contains((user_id as int, label@)),
            r == Err::<(), VaultError>(VaultError::DuplicateLabel) ==> old(
                self,
            ).secrets().dom().contains((user_id as int, label@)) && new_label@ != label@ && old(
                self,
            ).secrets().dom().contains((user_id as int, new_label@)),
            r is Ok ==> old(self).is_open() && final(self).is_open() && old(self).secrets().dom().contains((user_id as int, label@)) && final(self).secrets() == old(self).secrets().remove((user_id as int, label@)).insert(
                (user_id as int, new_label@),
                (old(self).secrets()[(user_id as int, label@)].0, new_data@),
            ) && final(self).users() == old(self).users(),
            r is Err ==> final(self).is_open() == old(self).is_open() && final(self).users() == old(self).users() && final(self).secrets() == old(self).secrets(),
    {
        match &mut self.conn {
            Some(conn) => {
                let llen = new_label.unicode_len();
                if llen < 3 || llen > 32 || new_data.len() <= 3 {
                    return Err(VaultError::Validation);
                }
                match db_get_secret(&*conn, user_id, label) {
                    Ok(Some(_)) => {},
                    Ok(None) => {
                        return Err(VaultError::NotFound);
                    },
                    Err(_) => {
                        return Err(VaultError::Storage);
                    },
                }
                if !str_eq(new_label, label) {
                    match db_get_secret(&*conn, user_id, new_label) {
                        Ok(Some(_)) => {
                            return Err(VaultError::DuplicateLabel);
                        },
                        Ok(None) => {},
                        Err(_) => {
                            return Err(VaultError::Storage);
                        },
                    }
                }
                match db_update_secret(conn, user_id, label, new_label, new_data.as_slice()) {
                    Ok(_) => Ok(()),
                    Err(_) => Err(VaultError::Storage),
                }
            },
            None => Err(VaultError::ConnectionFailed),
        }
    }

    /// Lists the kind and label of every secret owned by `user_id` — and of
    /// no one else: rows of other users never appear.
    pub fn get_labels(&self, user_id: i64) -> (r: Result<
        Vec<RetrieveLabelsQueryResult>,
        VaultError,
    >)
        ensures
            !self.is_open() ==> r == Err::<Vec<RetrieveLabelsQueryResult>, VaultError>(
                VaultError::ConnectionFailed,
            ),
            r == Err::<Vec<RetrieveLabelsQueryResult>, VaultError>(VaultError::ConnectionFailed)
                ==> !self.is_open(),
            r is Err ==> r == Err::<Vec<RetrieveLabelsQueryResult>, VaultError>(
                VaultError::ConnectionFailed,
            ) || r == Err::<Vec<RetrieveLabelsQueryResult>, VaultError>(VaultError::Storage),
            r matches Ok(v) ==> self.is_open() && v@.map_values(
                |x: RetrieveLabelsQueryResult| (x.kind@, x.label@),
            ).to_set() == user_labels(self.secrets(), user_id as int) && (forall|x: int, y: int|
                0 <= x < y < v@.len() ==> v@[x].label@ != v@[y].label@),
    {
        match &self.conn {
            Some(conn) => match db_get_labels(conn, user_id) {
                Ok(rows) => {
                    let mut out: Vec<RetrieveLabelsQueryResult> = Vec::new();
                    let mut i: usize = 0;
                    while i < rows.len()
                        invariant
                            i <= rows@.len(),
                            out@.len() == i,
                            forall|t: int|
                                0 <= t < i ==> (#[trigger] out@[t]).kind@ == rows@[t].0@
                                    && out@[t].label@ == rows@[t].1@,
                        decreases rows@.len() - i,
                    {
                        let kind = rows[i].0.clone();
                        let label = rows[i].1.clone();
                        out.push(RetrieveLabelsQueryResult { kind, label });
                        i = i + 1;
                    }
                    proof {
                        assert(out@.map_values(|x: RetrieveLabelsQueryResult| (x.kind@, x.label@))
                            =~= rows@.map_values(|p: (String, String)| (p.0@, p.1@)));
                    }
                    Ok(out)
                },
                Err(_) => Err(VaultError::Storage),
            },
            None => Err(VaultError::ConnectionFailed),
        }
    }

    /// The kind and ciphertext of the secret stored under
    /// (`user_id`, `label`), or `None` when that pair does not exist. Only
    /// the owner's row is consulted.
    pub fn get_secret(&self, user_id: i64, label: &str) -> (r: Result<
        Option<(String, Vec<u8>)>,
        VaultError,
    >)
        ensures
            !self.is_open() ==> r == Err::<Option<(String, Vec<u8>)>, VaultError>(
                VaultError::ConnectionFailed,
            ),
            r == Err::<Option<(String, Vec<u8>)>, VaultError>(VaultError::ConnectionFailed)
                ==> !self.is_open(),
            r is Err ==> r == Err::<Option<(String, Vec<u8>)>, VaultError>(
                VaultError::ConnectionFailed,
            ) || r == Err::<Option<(String, Vec<u8>)>, VaultError>(VaultError::Storage),
            r matches Ok(opt) ==> self.is_open() && ((opt is Some) <==> self.secrets(
            ).dom().contains((user_id as int, label@))) && (opt matches Some(p) ==> self.secrets()[
                (user_id as int, label@)
            ] == (p.0@, p.1@)),
    {
        match &self.conn {
            Some(conn) => match db_get_secret(conn, user_id, label) {
                Ok(opt) => Ok(opt),
                Err(_) => Err(VaultError::Storage),
            },
            None => Err(VaultError::ConnectionFailed),
        }
    }

    /// Removes the secret stored under (`user_id`, `label`), doing nothing
    /// when that pair does not exist.
    pub fn delete_secret(&mut self, user_id: i64, label: &str) -> (r: Result<(), VaultError>)
        ensures
            !old(self).is_open() ==> r == Err::<(), VaultError>(VaultError::ConnectionFailed),
            r == Err::<(), VaultError>(VaultError::ConnectionFailed) ==> !old(self).is_open(),
            r is Err ==> r == Err::<(), VaultError>(VaultError::ConnectionFailed) || r == Err::<
                (),
                VaultError,
            >(VaultError::Storage),
            r is Ok ==> old(self).is_open() && final(self).is_open() && final(self).secrets()
                == old(self).secrets().remove((user_id as int, label@)) && final(self).users()
                == old(self).users(),
            r is Err ==> final(self).is_open() == old(self).is_open() && final(self).users() == old(self).users() && final(self).secrets() == old(self).secrets(),
    {
        match &mut self.conn {
            Some(conn) => match db_delete_secret(conn, user_id, label) {
                Ok(()) => Ok(()),
                Err(_) => Err(VaultError::Storage),
            },
            None => Err(VaultError::ConnectionFailed),
        }
    }

    /// Closes the underlying connection. Idempotent: safe to call any
    /// number of times; afterwards the store is closed for good.
    pub fn close(&mut self) -> (r: Result<(), VaultError>)
        ensures
            !final(self).is_open(),
            !old(self).is_open() ==> r is Ok,
            r is Err ==> r == Err::<(), VaultError>(VaultError::Storage),
    {
        match self.conn.take() {
            Some(conn) => match close_conn(conn) {
                Ok(()) => Ok(()),
                Err(_) => Err(VaultError::Storage),
            },
            None => Ok(()),
        }
    }
}

} // verus!
