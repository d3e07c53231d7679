//! The session state machine: turns one (username, password) pair into a
//! live authenticated context holding the derived master key, gates every
//! secret operation on that context, and zeroizes the key on each teardown
//! path (logout, timeout, replacement by a new login, close).
//!
//! A session is either `Unauthenticated` (no key, no user id) or
//! `Authenticated` (key, user id, last-activity timestamp) — a sum type, so
//! a partially-built session cannot type-check as usable. Time enters only
//! as a plain millisecond value supplied by the caller: the host's timeout
//! watcher reads the activity timestamp and forces a logout through
//! `force_logout_if_expired`.
use vstd::prelude::*;

use crate::auth::hash_password;
use crate::auth::phc_verifies;
use crate::auth::phc_well_formed;
use crate::auth::verify_passwd;
use crate::data::DbConn;
use crate::data::Kind;
use crate::data::RetrieveLabelsQueryResult;
use crate::data::secrets_without_user;
use crate::data::user_id_taken;
use crate::data::user_labels;
use crate::encryption::argon2_key;
use crate::encryption::decrypt_using_key;
use crate::encryption::derive_encryption_key;
use crate::encryption::encrypt_using_key;
use crate::encryption::envelope_encrypts;
use crate::encryption::generate_salt;
use crate::errors::VaultError;

verus! {

use vstd::string::StringSliceAdditionalSpecFns;
use vstd::utf8::encode_utf8;

use zeroize::Zeroize;

/// Relies on `zeroize::Zeroize for [u8; 32]`: overwrites every byte with
/// zero through a volatile write that the compiler will not elide.
#[verifier::external_body]
fn wipe_key(key: &mut [u8; 32])
    ensures
        forall|i: int| 0 <= i < 32 ==> final(key)@[i] == 0u8,
{
    key.zeroize();
}

/// Relies on `zeroize::Zeroize for String`: zeroizes the buffer (its spare
/// capacity included) and leaves the string empty.
#[verifier::external_body]
fn wipe_string(s: &mut String)
    ensures
        final(s)@.len() == 0,
{
    s.zeroize();
}

/// Creates a new user account in the vault at `db_path`: opens the store,
/// derives a fresh encryption salt, hashes the password and writes the user
/// row, then closes the store again. Does not log anyone in. The password
/// is zeroized after use, on every path.
pub fn create_new_account(username: &str, passwd: String, db_path: &str) -> (r: Result<
    (),
    VaultError,
>)
    ensures
        r == Err::<(), VaultError>(VaultError::Validation) ==> username@.len() > 24,
{
    let mut s = match Session::open(db_path) {
        Ok(s) => s,
        Err(e) => {
            return Err(e);
        },
    };
    let out = s.create_account(username, passwd);
    let _ = s.close();
    out
}

/// A decrypted secret handed back to the caller: its label, plaintext and
/// kind (`password` or `text`).
#[derive(Debug, PartialEq)]
pub struct Secret {
    pub label: String,
    pub data: String,
    pub kind: String,
}

/// The two states of a session: no key at all, or a live user id with the
/// derived master key and the time of the last secret operation.
enum Auth {
    Unauthenticated,
    Authenticated { user_id: i64, key: [u8; 32], last_activity: u64 },
}

/// A live handle on the vault: the single store connection plus the
/// authentication state. While authenticated it is the sole holder of the
/// decrypted master key.
pub struct Session {
    db: DbConn,
    auth: Auth,
}

impl Session {
    /// Whether a user is currently logged in.
    pub closed spec fn authenticated(&self) -> bool {
        self.auth is Authenticated
    }

    /// The logged-in user's id (meaningful only while authenticated).
    pub closed spec fn current_user(&self) -> int {
        match self.auth {
            Auth::Authenticated { user_id, .. } => user_id as int,
            Auth::Unauthenticated => 0,
        }
    }

    /// The held master key's bytes (meaningful only while authenticated).
    pub closed spec fn key_view(&self) -> Seq<u8> {
        match self.auth {
            Auth::Authenticated { key, .. } => key@,
            Auth::Unauthenticated => Seq::empty(),
        }
    }

    /// The time of the last activity (meaningful only while authenticated).
    pub closed spec fn activity(&self) -> u64 {
        match self.auth {
            Auth::Authenticated { last_activity, .. } => last_activity,
            Auth::Unauthenticated => 0,
        }
    }

    /// Whether the session still holds its store connection.
    pub closed spec fn store_open(&self) -> bool {
        self.db.is_open()
    }

    /// The users table behind this session's store.
    pub closed spec fn users(&self) -> Map<Seq<char>, (int, Seq<char>, Seq<u8>)> {
        self.db.users()
    }

    /// The secrets table behind this session's store.
    pub closed spec fn secrets(&self) -> Map<(int, Seq<char>), (Seq<char>, Seq<u8>)> {
        self.db.secrets()
    }

    /// The authentication state of `other` equals this one's.
    pub open spec fn auth_unchanged(&self, other: &Session) -> bool {
        &&& other.authenticated() == self.authenticated()
        &&& other.current_user() == self.current_user()
        &&& other.key_view() == self.key_view()
        &&& other.activity() == self.activity()
    }

    /// The store contents and connection state of `other` equal this one's.
    pub open spec fn store_unchanged(&self, other: &Session) -> bool {
        &&& other.users() == self.users()
        &&& other.secrets() == self.secrets()
        &&& other.store_open() == self.store_open()
    }

    /// Opens the vault at `db_path` with no one logged in: every secret
    /// operation fails with `NotAuthenticated` until `login` succeeds.
    pub fn open(db_path: &str) -> (r: Result<Session, VaultError>)
        ensures
            r matches Ok(s) ==> !s.authenticated() && s.store_open(),
            r is Err ==> r == Err::<Session, VaultError>(VaultError::ConnectionFailed),
    {
        match DbConn::new(db_path) {
            Ok(db) => Ok(Session { db, auth: Auth::Unauthenticated }),
            Err(e) => Err(e),
        }
    }

    /// Creates a new account: a fresh random encryption salt, the password
    /// hashed into a self-describing PHC string, one new user row. Available
    /// in either state and changes the session's own state in no way.
    /// The password is zeroized before returning, on every path.
    pub fn create_account(&mut self, username: &str, passwd: String) -> (r: Result<
        (),
        VaultError,
    >)
        ensures
            old(self).auth_unchanged(final(self)),
            final(self).store_open() == old(self).store_open(),
            !old(self).store_open() ==> r == Err::<(), VaultError>(VaultError::ConnectionFailed)
                || r == Err::<(), VaultError>(VaultError::HashingFailed),
            r == Err::<(), VaultError>(VaultError::Validation) ==> username@.len() > 24,
            old(self).store_open() && username@.len() > 24 ==> r == Err::<(), VaultError>(
                VaultError::Validation,
            ) || r == Err::<(), VaultError>(VaultError::HashingFailed),
            r == Err::<(), VaultError>(VaultError::UsernameTaken) ==> old(self).users().dom().contains(username@),
            r is Ok ==> old(self).store_open() && final(self).store_open() && !old(self).users().dom().contains(username@) && final(self).users().dom().contains(username@)
                && final(self).users() == old(self).users().insert(
                username@,
                final(self).users()[username@],
            ) && phc_well_formed(final(self).users()[username@].1) && phc_verifies(
                encode_utf8(passwd@),
                final(self).users()[username@].1,
            ) && final(self).users()[username@].2.len() == 16 && !user_id_taken(
                old(self).users(),
                final(self).users()[username@].0,
            ) && final(self).secrets() == old(self).secrets(),
            r is Err ==> final(self).users() == old(self).users() && final(self).secrets() == old(self).secrets(),
    {
        let mut passwd = passwd;
        let enc_salt = generate_salt();
        let passwd_hash = match hash_password(passwd.as_str()) {
            Ok(h) => h,
            Err(e) => {
                wipe_string(&mut passwd);
                return Err(e);
            },
        };
        wipe_string(&mut passwd);
        match self.db.create_user(username, passwd_hash.as_str(), enc_salt.as_slice()) {
            Ok(()) => Ok(()),
            Err(e) => Err(e),
        }
    }

    /// Logs a user in on this session's store: verifies the password
    /// against the stored hash (`InvalidCredentials` on a wrong password
    /// and on a missing user alike, so usernames cannot be probed),
    /// re-derives the master key from the stored salt, and enters the
    /// authenticated state with a fresh activity timestamp — zeroizing any
    /// previously held key before overwriting it. On failure the session
    /// state is unchanged. The password is zeroized before returning, on
    /// every path.
    pub fn login(&mut self, usrname: &str, passwd: String, now: u64) -> (r: Result<
        (),
        VaultError,
    >)
        ensures
            old(self).store_unchanged(final(self)),
            r is Ok ==> old(self).store_open() && final(self).authenticated() && old(self).users().dom().contains(usrname@) && phc_verifies(
                encode_utf8(passwd@),
                old(self).users()[usrname@].1,
            ) && final(self).current_user() == old(self).users()[usrname@].0 && final(self).key_view() == argon2_key(encode_utf8(passwd@), old(self).users()[usrname@].2)
                && final(self).activity() == now,
            r == Err::<(), VaultError>(VaultError::InvalidCredentials) ==> !old(self).users().dom().contains(usrname@) || !phc_verifies(
                encode_utf8(passwd@),
                old(self).users()[usrname@].1,
            ),
            r == Err::<(), VaultError>(VaultError::MalformedHash) ==> old(self).users().dom().contains(usrname@) && !phc_well_formed(old(self).users()[usrname@].1),
            !old(self).store_open() ==> r == Err::<(), VaultError>(VaultError::ConnectionFailed),
            r is Err ==> old(self).auth_unchanged(final(self)),
    {
        let mut passwd = passwd;
        let hash = match self.db.get_user_passwd_hash(usrname) {
            Ok(Some(h)) => h,
            Ok(None) => {
                wipe_string(&mut passwd);
                return Err(VaultError::InvalidCredentials);
            },
            Err(e) => {
                wipe_string(&mut passwd);
                return Err(e);
            },
        };
        let ok = match verify_passwd(passwd.as_str(), hash.as_str()) {
            Ok(b) => b,
            Err(e) => {
                wipe_string(&mut passwd);
                return Err(e);
            },
        };
        if !ok {
            wipe_string(&mut passwd);
            return Err(VaultError::InvalidCredentials);
        }
        let salt = match self.db.get_user_enc_salt(usrname) {
            Ok(Some(s)) => s,
            Ok(None) => {
                wipe_string(&mut passwd);
                return Err(VaultError::NotFound);
            },
            Err(e) => {
                wipe_string(&mut passwd);
                return Err(e);
            },
        };
        let key = match derive_encryption_key(passwd.as_str(), salt.as_slice()) {
            Ok(k) => k,
            Err(e) => {
                wipe_string(&mut passwd);
                return Err(e);
            },
        };
        let user_id = match self.db.get_user_id(usrname) {
            Ok(Some(id)) => id,
            Ok(None) => {
                wipe_string(&mut passwd);
                return Err(VaultError::NotFound);
            },
            Err(e) => {
                wipe_string(&mut passwd);
                return Err(e);
            },
        };
        wipe_string(&mut passwd);
        match &mut self.auth {
            Auth::Authenticated { key: old_key, .. } => {
                wipe_key(old_key);
            },
            Auth::Unauthenticated => {},
        }
        self.auth = Auth::Authenticated { user_id, key, last_activity: now };
        Ok(())
    }

    /// Opens the vault at `db_path` and logs `usrname` in: the one-call
    /// form of `open` followed by `login`. On a login failure the store is
    /// closed again and no session is returned.
    pub fn new(usrname: &str, passwd: String, db_path: &str, now: u64) -> (r: Result<
        Session,
        VaultError,
    >)
        ensures
            r matches Ok(s) ==> s.authenticated() && s.store_open() && s.users().dom().contains(
                usrname@,
            ) && phc_verifies(encode_utf8(passwd@), s.users()[usrname@].1) && s.current_user()
                == s.users()[usrname@].0 && s.key_view() == argon2_key(
                encode_utf8(passwd@),
                s.users()[usrname@].2,
            ) && s.activity() == now,
    {
        let mut s = match Session::open(db_path) {
            Ok(s) => s,
            Err(e) => {
                return Err(e);
            },
        };
        match s.login(usrname, passwd, now) {
            Ok(()) => Ok(s),
            Err(e) => {
                let _ = s.close();
                Err(e)
            },
        }
    }

    /// Refreshes the activity timestamp: the hook the host calls on user
    /// interaction to delay the inactivity timeout. Does nothing when no
    /// one is logged in.
    pub fn touch(&mut self, now: u64)
        ensures
            final(self).authenticated() == old(self).authenticated(),
            final(self).current_user() == old(self).current_user(),
            final(self).key_view() == old(self).key_view(),
            old(self).store_unchanged(final(self)),
            old(self).authenticated() ==> final(self).activity() == now,
            !old(self).authenticated() ==> *final(self) == *old(self),
    {
        match &mut self.auth {
            Auth::Authenticated { last_activity, .. } => {
                *last_activity = now;
            },
            Auth::Unauthenticated => {},
        }
    }

    /// Whether a user is currently logged in.
    pub fn is_authenticated(&self) -> (r: bool)
        ensures
            r == self.authenticated(),
    {
        match &self.auth {
            Auth::Authenticated { .. } => true,
            Auth::Unauthenticated => false,
        }
    }

    /// The time of the last secret operation or `touch`, while a user is
    /// logged in.
    pub fn last_activity(&self) -> (r: Option<u64>)
        ensures
            r matches Some(t) ==> self.authenticated() && t == self.activity(),
            r is None <==> !self.authenticated(),
    {
        match &self.auth {
            Auth::Authenticated { last_activity, .. } => Some(*last_activity),
            Auth::Unauthenticated => None,
        }
    }

    /// Logs out: zeroizes the master key and forgets the user id.
    /// Idempotent — logging out of a logged-out session is a no-op success.
    pub fn logout(&mut self) -> (r: Result<(), VaultError>)
        ensures
            r is Ok,
            !final(self).authenticated(),
            old(self).store_unchanged(final(self)),
    {
        match &mut self.auth {
            Auth::Authenticated { key, .. } => {
                wipe_key(key);
            },
            Auth::Unauthenticated => {},
        }
        self.auth = Auth::Unauthenticated;
        Ok(())
    }

    /// The timeout watcher's hook: if a user is logged in and `now` is at
    /// least `timeout_ms` past the last activity, forces a logout (key
    /// zeroized) and reports that it did so; otherwise changes nothing.
    pub fn force_logout_if_expired(&mut self, now: u64, timeout_ms: u64) -> (r: bool)
        ensures
            r == (old(self).authenticated() && now as int - old(self).activity() as int
                >= timeout_ms as int),
            r ==> !final(self).authenticated(),
            !r ==> *final(self) == *old(self),
            old(self).store_unchanged(final(self)),
    {
        let expired = match &self.auth {
            Auth::Authenticated { last_activity, .. } => now >= *last_activity && now
                - *last_activity >= timeout_ms,
            Auth::Unauthenticated => false,
        };
        if expired {
            let _ = self.logout();
        }
        expired
    }

    /// Encrypts `data` under the session's master key and stores it as a
    /// new secret of the logged-in user. Valid only while authenticated
    /// (`NotAuthenticated` otherwise, with no effect on storage); the kind
    /// must parse, the label must be 3 to 32 characters, and the label must
    /// be free in this user's namespace (`DuplicateLabel`). Success
    /// refreshes the activity timestamp. The plaintext is zeroized before
    /// returning, on every path.
    pub fn store_secret(&mut self, kind: &str, label: &str, data: String, now: u64) -> (r: Result<
        (),
        VaultError,
    >)
        ensures
            !old(self).authenticated() ==> r == Err::<(), VaultError>(VaultError::NotAuthenticated)
                && *final(self) == *old(self),
            r == Err::<(), VaultError>(VaultError::NotAuthenticated) ==> !old(self).authenticated(),
            r is Ok ==> old(self).authenticated() && final(self).authenticated() && final(self).current_user() == old(self).current_user() && final(self).key_view() == old(self).key_view() && final(self).activity() == now && (kind@ == "password"@ || kind@
                == "text"@) && 3 <= label@.len() <= 32 && !old(self).secrets().dom().contains(
                (old(self).current_user(), label@),
            ) && final(self).users() == old(self).users() && final(self).secrets() == old(self).secrets().insert(
                (old(self).current_user(), label@),
                final(self).secrets()[(old(self).current_user(), label@)],
            ) && final(self).secrets()[(old(self).current_user(), label@)].0 == kind@
                && envelope_encrypts(
                old(self).key_view(),
                final(self).secrets()[(old(self).current_user(), label@)].1,
                encode_utf8(data@),
            ) && final(self).store_open(),
            r == Err::<(), VaultError>(VaultError::InvalidKind) ==> kind@ != "password"@ && kind@
                != "text"@,
            r == Err::<(), VaultError>(VaultError::DuplicateLabel) ==> old(self).secrets().dom().contains((old(self).current_user(), label@)),
            r == Err::<(), VaultError>(VaultError::Validation) ==> !(3 <= label@.len() <= 32),
            r is Err ==> old(self).auth_unchanged(final(self)) && old(self).store_unchanged(
                final(self),
            ),
    {
        let mut data = data;
        let (user_id, key) = match &self.auth {
            Auth::Authenticated { user_id, key, .. } => (*user_id, *key),
            Auth::Unauthenticated => {
                wipe_string(&mut data);
                return Err(VaultError::NotAuthenticated);
            },
        };
        let kind_parsed = match Kind::from_str(kind) {
            Ok(k) => k,
            Err(e) => {
                wipe_string(&mut data);
                return Err(e);
            },
        };
        let env = match encrypt_using_key(key.as_slice(), data.as_str()) {
            Ok(env) => env,
            Err(e) => {
                wipe_string(&mut data);
                return Err(e);
            },
        };
        wipe_string(&mut data);
        match self.db.store_secret(user_id, kind_parsed, label, env) {
            Ok(()) => {
                self.touch(now);
                Ok(())
            },
            Err(e) => Err(e),
        }
    }

    /// Re-encrypts `new_data` under the session's master key and atomically
    /// renames and rewrites the secret stored under `label`, keeping its
    /// kind. Valid only while authenticated; fails with `NotFound` when no
    /// such label exists and with `DuplicateLabel` when the new label is
    /// already used. Success refreshes the activity timestamp.
    pub fn edit_secret(&mut self, label: &str, new_label: &str, new_data: String, now: u64) -> (r:
        Result<(), VaultError>)
        ensures
            !old(self).authenticated() ==> r == Err::<(), VaultError>(VaultError::NotAuthenticated)
                && *final(self) == *old(self),
            r == Err::<(), VaultError>(VaultError::NotAuthenticated) ==> !old(self).authenticated(),
            r is Ok ==> old(self).authenticated() && final(self).authenticated() && final(self).current_user() == old(self).current_user() && final(self).key_view() == old(self).key_view() && final(self).activity() == now && old(self).secrets().dom().contains(
                (old(self).current_user(), label@),
            ) && final(self).users() == old(self).users() && final(self).secrets() == old(self).secrets().remove((old(self).current_user(), label@)).insert(
                (old(self).current_user(), new_label@),
                (
                    old(self).secrets()[(old(self).current_user(), label@)].0,
                    final(self).secrets()[(old(self).current_user(), new_label@)].1,
                ),
            ) && envelope_encrypts(
                old(self).key_view(),
                final(self).secrets()[(old(self).current_user(), new_label@)].1,
                encode_utf8(new_data@),
            ) && final(self).store_open(),
            r == Err::<(), VaultError>(VaultError::NotFound) ==> !old(self).secrets().dom().contains((old(self).current_user(), label@)),
            r == Err::<(), VaultError>(VaultError::DuplicateLabel) ==> old(self).secrets().dom().contains((old(self).current_user(), label@)) && new_label@ != label@
                && old(self).secrets().dom().contains((old(self).current_user(), new_label@)),
            r == Err::<(), VaultError>(VaultError::Validation) ==> !(3 <= new_label@.len() <= 32),
            r is Err ==> old(self).auth_unchanged(final(self)) && old(self).store_unchanged(
                final(self),
            ),
    {
        let (user_id, key) = match &self.auth {
            Auth::Authenticated { user_id, key, .. } => (*user_id, *key),
            Auth::Unauthenticated => {
                return Err(VaultError::NotAuthenticated);
            },
        };
        let env = match encrypt_using_key(key.as_slice(), new_data.as_str()) {
            Ok(env) => env,
            Err(e) => {
                return Err(e);
            },
        };
        match self.db.edit_secret(user_id, label, new_label, env) {
            Ok(()) => {
                self.touch(now);
                Ok(())
            },
            Err(e) => Err(e),
        }
    }

    /// Fetches and decrypts the logged-in user's secret stored under
    /// `label`: `Ok(None)` when no such label exists, and on success the
    /// exact plaintext that was sealed — a tampered envelope fails with
    /// `DecryptionFailed` and never yields altered text. Valid only while
    /// authenticated; success refreshes the activity timestamp.
    pub fn retrieve_secret(&mut self, label: &str, now: u64) -> (r: Result<
        Option<Secret>,
        VaultError,
    >)
        ensures
            !old(self).authenticated() ==> r == Err::<Option<Secret>, VaultError>(
                VaultError::NotAuthenticated,
            ) && *final(self) == *old(self),
            r == Err::<Option<Secret>, VaultError>(VaultError::NotAuthenticated) ==> !old(self).authenticated(),
            old(self).store_unchanged(final(self)),
            r matches Ok(opt) ==> old(self).authenticated() && final(self).authenticated() && final(self).current_user() == old(self).current_user() && final(self).key_view() == old(self).key_view() && final(self).activity() == now && ((opt is Some) <==> old(self).secrets().dom().contains((old(self).current_user(), label@))),
            r matches Ok(opt) ==> (opt matches Some(s) ==> s.label@ == label@ && s.kind@ == old(
                self,
            ).secrets()[(old(self).current_user(), label@)].0 && envelope_encrypts(
                old(self).key_view(),
                old(self).secrets()[(old(self).current_user(), label@)].1,
                encode_utf8(s.data@),
            )),
            forall|pt: Seq<u8>|
                #![trigger envelope_encrypts(old(self).key_view(), old(self).secrets()[(old(self).current_user(), label@)].1, pt)]
                old(self).authenticated() && old(self).secrets().dom().contains(
                    (old(self).current_user(), label@),
                ) && envelope_encrypts(
                    old(self).key_view(),
                    old(self).secrets()[(old(self).current_user(), label@)].1,
                    pt,
                ) && vstd::utf8::valid_utf8(pt) && pt.len() <= 0x10_0000_0000int ==> (r is Err
                    ==> r == Err::<Option<Secret>, VaultError>(VaultError::Storage) || r == Err::<
                    Option<Secret>,
                    VaultError,
                >(VaultError::ConnectionFailed)) && (r matches Ok(opt) ==> opt matches Some(s)
                    && encode_utf8(s.data@) == pt),
            r == Err::<Option<Secret>, VaultError>(VaultError::DecryptionFailed) ==> old(self).secrets().dom().contains((old(self).current_user(), label@)) && !(exists|pt: Seq<u8>|
                pt.len() <= 0x10_0000_0000int && envelope_encrypts(
                    old(self).key_view(),
                    old(self).secrets()[(old(self).current_user(), label@)].1,
                    pt,
                )),
            r is Err ==> old(self).auth_unchanged(final(self)),
    {
        let (user_id, key) = match &self.auth {
            Auth::Authenticated { user_id, key, .. } => (*user_id, *key),
            Auth::Unauthenticated => {
                return Err(VaultError::NotAuthenticated);
            },
        };
        match self.db.get_secret(user_id, label) {
            Ok(None) => {
                self.touch(now);
                Ok(None)
            },
            Ok(Some((kind, enc))) => {
                match decrypt_using_key(key.as_slice(), enc) {
                    Ok(text) => {
                        self.touch(now);
                        Ok(Some(Secret { label: label.to_owned(), data: text, kind }))
                    },
                    Err(e) => Err(e),
                }
            },
            Err(e) => Err(e),
        }
    }

    /// Lists the kind and label of every secret the logged-in user owns —
    /// and of no other user. Valid only while authenticated; success
    /// refreshes the activity timestamp.
    pub fn retrieve_labels(&mut self, now: u64) -> (r: Result<
        Vec<RetrieveLabelsQueryResult>,
        VaultError,
    >)
        ensures
            !old(self).authenticated() ==> r == Err::<Vec<RetrieveLabelsQueryResult>, VaultError>(
                VaultError::NotAuthenticated,
            ) && *final(self) == *old(self),
            r == Err::<Vec<RetrieveLabelsQueryResult>, VaultError>(VaultError::NotAuthenticated) ==> !old(self).authenticated(),
            old(self).store_unchanged(final(self)),
            r matches Ok(v) ==> old(self).authenticated() && final(self).authenticated() && final(self).current_user() == old(self).current_user() && final(self).key_view() == old(self).key_view() && final(self).activity() == now && v@.map_values(
                |x: RetrieveLabelsQueryResult| (x.kind@, x.label@),
            ).to_set() == user_labels(old(self).secrets(), old(self).current_user()) && (forall|
                x: int,
                y: int,
            |
                0 <= x < y < v@.len() ==> v@[x].label@ != v@[y].label@),
            r is Err ==> old(self).auth_unchanged(final(self)),
    {
        let user_id = match &self.auth {
            Auth::Authenticated { user_id, .. } => *user_id,
            Auth::Unauthenticated => {
                return Err(VaultError::NotAuthenticated);
            },
        };
        match self.db.get_labels(user_id) {
            Ok(v) => {
                self.touch(now);
                Ok(v)
            },
            Err(e) => Err(e),
        }
    }

    /// Removes the logged-in user's secret stored under `label`, doing
    /// nothing when no such label exists. Valid only while authenticated;
    /// success refreshes the activity timestamp.
    pub fn delete_secret(&mut self, label: &str, now: u64) -> (r: Result<(), VaultError>)
        ensures
            !old(self).authenticated() ==> r == Err::<(), VaultError>(VaultError::NotAuthenticated)
                && *final(self) == *old(self),
            r == Err::<(), VaultError>(VaultError::NotAuthenticated) ==> !old(self).authenticated(),
            r is Ok ==> old(self).authenticated() && final(self).authenticated() && final(self).current_user() == old(self).current_user() && final(self).key_view() == old(self).key_view() && final(self).activity() == now && final(self).users() == old(self).users() && final(self).secrets() == old(self).secrets().remove(
                (old(self).current_user(), label@),
            ) && final(self).store_open(),
            r is Err ==> old(self).auth_unchanged(final(self)) && old(self).store_unchanged(
                final(self),
            ),
    {
        let user_id = match &self.auth {
            Auth::Authenticated { user_id, .. } => *user_id,
            Auth::Unauthenticated => {
                return Err(VaultError::NotAuthenticated);
            },
        };
        match self.db.delete_secret(user_id, label) {
            Ok(()) => {
                self.touch(now);
                Ok(())
            },
            Err(e) => Err(e),
        }
    }

    /// Deletes the logged-in user's account after re-verifying the password
    /// (a defense against a hijacked session performing a destructive
    /// action), removing the user row together with every secret the user
    /// owns. Valid only while authenticated. The password is zeroized
    /// before returning, on every path.
    pub fn delete_user(&mut self, passwd: String) -> (r: Result<(), VaultError>)
        ensures
            !old(self).authenticated() ==> r == Err::<(), VaultError>(VaultError::NotAuthenticated)
                && *final(self) == *old(self),
            r == Err::<(), VaultError>(VaultError::NotAuthenticated) ==> !old(self).authenticated(),
            old(self).auth_unchanged(final(self)),
            r is Ok ==> old(self).authenticated() && (exists|u: Seq<char>|
                (#[trigger] old(self).users().dom().contains(u)) && old(self).users()[u].0 == old(self).current_user() && phc_verifies(encode_utf8(passwd@), old(self).users()[u].1)
                    && final(self).users() == old(self).users().remove(u)) && final(self).secrets()
                == secrets_without_user(old(self).secrets(), old(self).current_user()) && final(self).store_open(),
            r == Err::<(), VaultError>(VaultError::InvalidCredentials) ==> (exists|u: Seq<char>|
                (#[trigger] old(self).users().dom().contains(u)) && old(self).users()[u].0 == old(self).current_user() && !phc_verifies(encode_utf8(passwd@), old(self).users()[u].1)),
            r is Err ==> final(self).users() == old(self).users(),
    {
        let ghost passwd0 = passwd@;
        let mut passwd = passwd;
        let user_id = match &self.auth {
            Auth::Authenticated { user_id, .. } => *user_id,
            Auth::Unauthenticated => {
                wipe_string(&mut passwd);
                return Err(VaultError::NotAuthenticated);
            },
        };
        let usrname = match self.db.get_username(&user_id) {
            Ok(Some(u)) => u,
            Ok(None) => {
                wipe_string(&mut passwd);
                return Err(VaultError::NotFound);
            },
            Err(e) => {
                wipe_string(&mut passwd);
                return Err(e);
            },
        };
        let stored_hash = match self.db.get_user_passwd_hash(usrname.as_str()) {
            Ok(Some(h)) => h,
            Ok(None) => {
                wipe_string(&mut passwd);
                return Err(VaultError::NotFound);
            },
            Err(e) => {
                wipe_string(&mut passwd);
                return Err(e);
            },
        };
        let ok = match verify_passwd(passwd.as_str(), stored_hash.as_str()) {
            Ok(b) => b,
            Err(e) => {
                wipe_string(&mut passwd);
                return Err(e);
            },
        };
        wipe_string(&mut passwd);
        if !ok {
            proof {
                let u = usrname@;
                assert(old(self).users().dom().contains(u));
                assert(old(self).users()[u].0 == old(self).current_user());
                assert(!phc_verifies(encode_utf8(passwd0), old(self).users()[u].1));
            }
            return Err(VaultError::InvalidCredentials);
        }
        match self.db.delete_user(usrname.as_str()) {
            Ok(()) => {
                proof {
                    let u = usrname@;
                    assert(old(self).users().dom().contains(u));
                    assert(old(self).users()[u].0 == old(self).current_user());
                    assert(phc_verifies(encode_utf8(passwd0), old(self).users()[u].1));
                    assert(self.users() == old(self).users().remove(u));
                }
                Ok(())
            },
            Err(e) => Err(e),
        }
    }

    /// Closes the session for good: zeroizes any held key, forgets the
    /// authentication state and closes the store connection — the cleanup
    /// owed on every exit path, whatever state the session was in.
    pub fn close(&mut self) -> (r: Result<(), VaultError>)
        ensures
            !final(self).authenticated(),
            !final(self).store_open(),
    {
        let _ = self.logout();
        self.db.close()
    }
}

} // verus!
