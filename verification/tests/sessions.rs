//! The session state machine end to end: login, gated secret operations,
//! logout, timeout and account deletion. Each test runs on its own shared
//! in-memory database (a held `DbConn` keeps it alive across the separate
//! connections that `create_new_account` and `Session::new` open).
use std::sync::Arc;
use std::sync::Mutex;

use lockkey::DbConn;
use lockkey::Secret;
use lockkey::Session;
use lockkey::VaultError;
use lockkey::create_new_account;

#[test]
fn lib_can_store_and_retrieve_secret() {
    let db_path = "file:lk_sess_1?mode=memory&cache=shared";
    let _holder = DbConn::new(db_path).unwrap();

    let username = String::from("test_user");
    let passwd = String::from("test_pass");
    let label = String::from("mypass");
    let secret = String::from("mysecret");

    create_new_account(&username, passwd.clone(), db_path).unwrap();
    let mut sess = Session::new(&username, passwd.clone(), db_path, 0).unwrap();

    sess.store_secret("password", &label, secret.to_string(), 1).unwrap();

    let retrieved_secret = sess.retrieve_secret(&label, 2).unwrap();

    assert_eq!(
        Some(Secret { label, kind: "password".to_string(), data: secret }),
        retrieved_secret
    );
}

#[test]
fn lib_can_retrieve_labels() {
    let db_path = "file:lk_sess_2?mode=memory&cache=shared";
    let _holder = DbConn::new(db_path).unwrap();

    let username = String::from("test_user");
    let passwd = String::from("test_pass");
    let label1 = String::from("mypass");
    let label2 = String::from("mypass2");
    let label3 = String::from("mypass3");
    let secret = String::from("mysecret");

    create_new_account(&username, passwd.clone(), db_path).unwrap();
    let mut sess = Session::new(&username, passwd.clone(), db_path, 0).unwrap();

    sess.store_secret("text", &label1, secret.to_string(), 1).expect(
        "should insert secret into db",
    );
    sess.store_secret("password", &label2, secret.to_string(), 2).expect(
        "should insert secret into db",
    );
    sess.store_secret("text", &label3, secret.to_string(), 3).expect(
        "should insert secret into db",
    );

    let labels = vec![label1.to_string(), label2.to_string(), label3.to_string()];
    let query = sess.retrieve_labels(4).expect("should retrieve labels");

    for result in query {
        assert!(labels.contains(&result.label));
    }
}

#[test]
fn should_return_empty_on_nonexistent_labels() {
    let db_path = "file:lk_sess_3?mode=memory&cache=shared";
    let _holder = DbConn::new(db_path).unwrap();
    let username = String::from("test_user");
    let passwd = String::from("test_pass");

    create_new_account(&username, passwd.clone(), db_path).unwrap();
    let mut sess = Session::new(&username, passwd.clone(), db_path, 0).unwrap();

    let data = sess.retrieve_secret("test", 1).unwrap();
    assert_eq!(data, None);
}

#[test]
fn can_delete_data() {
    let db_path = "file:lk_sess_4?mode=memory&cache=shared";
    let _holder = DbConn::new(db_path).unwrap();

    let username = String::from("test_user");
    let passwd = String::from("test_pass");
    let label = String::from("mypass");
    let secret = String::from("mysecret");

    create_new_account(&username, passwd.clone(), db_path).unwrap();
    let mut sess = Session::new(&username, passwd.clone(), db_path, 0).unwrap();

    sess.store_secret("password", &label, secret.to_string(), 1).unwrap();

    // check if data is inserted successfully
    let retrieved_secret = sess.retrieve_secret(&label, 2).expect(
        "should retrieve secret from db",
    );

    assert_eq!(
        retrieved_secret,
        Some(Secret { label: label.clone(), kind: "password".to_string(), data: secret })
    );

    // delete data
    sess.delete_secret(&label, 3).expect("should delete data");

    // check if data is deleted
    let retrieved_secret = sess.retrieve_secret(&label, 4).expect(
        "should retrieve secret from db",
    );
    assert_eq!(retrieved_secret, None);
}

#[test]
fn can_store_and_retrieve_in_arcmutex() {
    let db_path = "file:lk_sess_5?mode=memory&cache=shared";
    let _holder = DbConn::new(db_path).unwrap();

    let username = String::from("user");
    let passwd = String::from("test_pass");
    let label = String::from("mypass");
    let secret = String::from("mysecret");

    create_new_account(&username, passwd.clone(), db_path).unwrap();
    let sess = Session::new(&username, passwd.clone(), db_path, 0).unwrap();

    let sess = Arc::new(Mutex::new(sess));

    // acquire lock then store
    let mut s = sess.lock().expect("should acquire lock");
    s.store_secret("password", &label, secret.to_string(), 1).expect("should store secret");
    drop(s);

    // acquire lock then retrieve
    let mut s = sess.lock().expect("should acquire lock");
    let retrieved_secret = s.retrieve_secret(&label, 2).expect("should retrieve password");
    drop(s);

    assert_eq!(
        retrieved_secret,
        Some(Secret { label, kind: "password".to_string(), data: secret })
    );
}

#[test]
fn login_failures_are_uniform_and_harmless() {
    let db_path = "file:lk_sess_6?mode=memory&cache=shared";
    let _holder = DbConn::new(db_path).unwrap();

    create_new_account("alice", "right".to_string(), db_path).unwrap();

    // a wrong password and a missing user yield the same error
    let wrong = Session::new("alice", "wrong".to_string(), db_path, 0);
    let missing = Session::new("nobody", "right".to_string(), db_path, 0);
    assert_eq!(wrong.err(), Some(VaultError::InvalidCredentials));
    assert_eq!(missing.err(), Some(VaultError::InvalidCredentials));

    // and the right password still works afterwards
    let sess = Session::new("alice", "right".to_string(), db_path, 0).unwrap();
    assert!(sess.is_authenticated());
}

#[test]
fn session_gating_blocks_secret_operations() {
    let db_path = "file:lk_sess_7?mode=memory&cache=shared";
    let _holder = DbConn::new(db_path).unwrap();

    create_new_account("alice", "pw".to_string(), db_path).unwrap();
    let mut sess = Session::new("alice", "pw".to_string(), db_path, 0).unwrap();
    sess.store_secret("text", "kept", "before logout".to_string(), 1).unwrap();

    sess.logout().unwrap();
    assert!(!sess.is_authenticated());

    // every secret operation is rejected without touching storage
    assert_eq!(
        sess.store_secret("text", "nope1", "x".to_string(), 2).err(),
        Some(VaultError::NotAuthenticated)
    );
    assert_eq!(sess.retrieve_secret("kept", 3).err(), Some(VaultError::NotAuthenticated));
    assert_eq!(sess.retrieve_labels(4).err(), Some(VaultError::NotAuthenticated));
    assert_eq!(
        sess.edit_secret("kept", "kept2", "y".to_string(), 5).err(),
        Some(VaultError::NotAuthenticated)
    );
    assert_eq!(sess.delete_secret("kept", 6).err(), Some(VaultError::NotAuthenticated));
    assert_eq!(sess.delete_user("pw".to_string()).err(), Some(VaultError::NotAuthenticated));

    // logout is idempotent, and a fresh login sees storage unchanged
    sess.logout().unwrap();
    sess.login("alice", "pw".to_string(), 7).unwrap();
    let labels = sess.retrieve_labels(8).unwrap();
    assert_eq!(labels.len(), 1);
    assert_eq!(labels[0].label, "kept");
    let kept = sess.retrieve_secret("kept", 9).unwrap().unwrap();
    assert_eq!(kept.data, "before logout");
}

#[test]
fn timeout_forces_logout() {
    let db_path = "file:lk_sess_8?mode=memory&cache=shared";
    let _holder = DbConn::new(db_path).unwrap();

    create_new_account("alice", "pw".to_string(), db_path).unwrap();
    let mut sess = Session::new("alice", "pw".to_string(), db_path, 0).unwrap();
    assert_eq!(sess.last_activity(), Some(0));

    // not yet expired: nothing happens
    assert!(!sess.force_logout_if_expired(299_999, 300_000));
    assert!(sess.is_authenticated());

    // a touch delays the timeout
    sess.touch(200_000);
    assert_eq!(sess.last_activity(), Some(200_000));
    assert!(!sess.force_logout_if_expired(400_000, 300_000));
    assert!(sess.is_authenticated());

    // past the inactivity window: forced out
    assert!(sess.force_logout_if_expired(500_000, 300_000));
    assert!(!sess.is_authenticated());
    assert_eq!(sess.last_activity(), None);

    // the watcher finding a logged-out session does nothing
    assert!(!sess.force_logout_if_expired(900_000, 300_000));
}

#[test]
fn activity_is_refreshed_by_operations() {
    let db_path = "file:lk_sess_9?mode=memory&cache=shared";
    let _holder = DbConn::new(db_path).unwrap();

    create_new_account("alice", "pw".to_string(), db_path).unwrap();
    let mut sess = Session::new("alice", "pw".to_string(), db_path, 10).unwrap();
    assert_eq!(sess.last_activity(), Some(10));
    sess.store_secret("text", "note1", "n".to_string(), 20).unwrap();
    assert_eq!(sess.last_activity(), Some(20));
    sess.retrieve_secret("note1", 30).unwrap();
    assert_eq!(sess.last_activity(), Some(30));
    sess.retrieve_labels(40).unwrap();
    assert_eq!(sess.last_activity(), Some(40));
    sess.edit_secret("note1", "note2", "m".to_string(), 50).unwrap();
    assert_eq!(sess.last_activity(), Some(50));
    sess.delete_secret("note2", 60).unwrap();
    assert_eq!(sess.last_activity(), Some(60));
}

#[test]
fn session_error_kinds_are_specific() {
    let db_path = "file:lk_sess_10?mode=memory&cache=shared";
    let _holder = DbConn::new(db_path).unwrap();

    create_new_account("alice", "pw".to_string(), db_path).unwrap();
    assert_eq!(
        create_new_account("alice", "pw".to_string(), db_path),
        Err(VaultError::UsernameTaken)
    );

    let mut sess = Session::new("alice", "pw".to_string(), db_path, 0).unwrap();
    assert_eq!(
        sess.store_secret("letter", "mail", "x".to_string(), 1),
        Err(VaultError::InvalidKind)
    );
    assert_eq!(
        sess.store_secret("text", "ab", "x".to_string(), 2),
        Err(VaultError::Validation)
    );
    assert_eq!(
        sess.edit_secret("ghost", "ghost2", "x".to_string(), 3),
        Err(VaultError::NotFound)
    );
    assert_eq!(
        sess.delete_user("wrong password".to_string()),
        Err(VaultError::InvalidCredentials)
    );
    // the account survived the failed deletion
    assert!(sess.is_authenticated());
    sess.logout().unwrap();
    assert!(Session::new("alice", "pw".to_string(), db_path, 4).is_ok());
}

#[test]
fn delete_user_removes_account_and_secrets() {
    let db_path = "file:lk_sess_11?mode=memory&cache=shared";
    let _holder = DbConn::new(db_path).unwrap();

    create_new_account("alice", "pw".to_string(), db_path).unwrap();
    let mut sess = Session::new("alice", "pw".to_string(), db_path, 0).unwrap();
    sess.store_secret("text", "note1", "n".to_string(), 1).unwrap();

    sess.delete_user("pw".to_string()).unwrap();
    let _ = sess.close();

    // the account is gone: logging in fails like any unknown user
    assert_eq!(
        Session::new("alice", "pw".to_string(), db_path, 2).err(),
        Some(VaultError::InvalidCredentials)
    );
}

#[test]
fn end_to_end_alice_scenario() {
    let db_path = "file:lk_sess_12?mode=memory&cache=shared";
    let _holder = DbConn::new(db_path).unwrap();

    create_new_account("alice", "S3cr3t!".to_string(), db_path).unwrap();
    let mut sess = Session::new("alice", "S3cr3t!".to_string(), db_path, 0).unwrap();

    sess.store_secret("password", "gmail", "hunter2".to_string(), 1).unwrap();

    let got = sess.retrieve_secret("gmail", 2).unwrap();
    assert_eq!(
        got,
        Some(Secret {
            label: "gmail".to_string(),
            kind: "password".to_string(),
            data: "hunter2".to_string(),
        })
    );

    sess.logout().unwrap();
    assert_eq!(sess.retrieve_secret("gmail", 3), Err(VaultError::NotAuthenticated));
}

#[test]
fn end_to_end_edit_scenario() {
    let db_path = "file:lk_sess_13?mode=memory&cache=shared";
    let mut holder = DbConn::new(db_path).unwrap();

    create_new_account("alice", "S3cr3t!".to_string(), db_path).unwrap();
    let mut sess = Session::new("alice", "S3cr3t!".to_string(), db_path, 0).unwrap();
    sess.store_secret("password", "gmail", "hunter2".to_string(), 1).unwrap();

    sess.edit_secret("gmail", "gmail2", "newpass".to_string(), 2).unwrap();

    // the old label is gone from the store; the new one decrypts to the
    // new plaintext
    let user_id = holder.get_user_id("alice").unwrap().unwrap();
    assert_eq!(holder.get_secret(user_id, "gmail").unwrap(), None);
    let (kind, ciphertext) = holder.get_secret(user_id, "gmail2").unwrap().unwrap();
    assert_eq!(kind, "password");
    assert!(ciphertext.len() > 28);

    let got = sess.retrieve_secret("gmail2", 3).unwrap().unwrap();
    assert_eq!(got.data, "newpass");
    assert_eq!(got.kind, "password");
    assert_eq!(sess.retrieve_secret("gmail", 4).unwrap(), None);

    let _ = holder.close();
}
