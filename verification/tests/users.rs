use blog_backend::api_error::ApiError;
use blog_backend::clock::Timestamp;
use blog_backend::ident::Id;
use blog_backend::password::{
    hash_password, hash_password_with_salt, is_own_credential, verify_password, SALT_LENGTH,
};
use blog_backend::post::{NewPost, Post, PostStore};
use blog_backend::session::{Session, SessionStatus};
use blog_backend::user::routes;
use blog_backend::user::{User, UserMessage, UserPatch, UserStore};

/// The credential of the password "password" under the salt "somesalt".
const CREDENTIAL_OF_PASSWORD: &str =
    "$argon2id$v=19$m=19456,t=2,p=1$c29tZXNhbHQ$PL01amPyeUuxG7H0vIr5X+qHkZvWnHmGBGXFYvh8z2E";

/// A credential of the password "password" with less memory than the
/// library asks for, from the test vectors of Argon2.
const SMALLER_CREDENTIAL: &str =
    "$argon2id$v=19$m=256,t=2,p=1$c29tZXNhbHQ$nf65EOgLrQMR/uIPnA4rEsF5h7TKyQwu9U1bMCHGi/4";

fn message(email: &str, password: &str) -> UserMessage {
    UserMessage::new(email.to_string(), password.to_string())
}

fn at(secs: i64) -> Timestamp {
    Timestamp::new(secs, 0)
}

fn signed_in(user: Id) -> Session {
    Session::resumed(Some(user))
}

/// A store with ann (1) and bob (2), both with the password "password".
fn two_users() -> UserStore {
    let mut users = UserStore::new();
    User::create_with(&mut users, "ann@example.com".to_string(), CREDENTIAL_OF_PASSWORD.to_string(), Id::from_u128(1), at(10)).unwrap();
    User::create_with(&mut users, "bob@example.com".to_string(), CREDENTIAL_OF_PASSWORD.to_string(), Id::from_u128(2), at(20)).unwrap();
    users
}

fn is(err: &ApiError, status_code: u16, message: &str) -> bool {
    err.status_code == status_code && err.message == message
}

#[test]
fn register_then_sign_in_with_the_same_credentials_succeeds() {
    let mut users = UserStore::new();
    let registered = routes::register_user(&mut users, message("ann@example.com", "s3cret")).unwrap();
    assert_eq!(registered.email(), "ann@example.com");
    assert_eq!(registered.updated_at(), None);

    let mut session = Session::anonymous();
    let user = routes::sign_in(&users, &mut session, message("ann@example.com", "s3cret")).unwrap();
    assert_eq!(user, registered);
    assert_eq!(session.user_id(), Some(registered.id()));

    // what goes out carries the user without any form of the password
    let out = user.public();
    assert_eq!(out.id, registered.id());
    assert_eq!(out.email, "ann@example.com");
    assert_eq!(out.created_at, registered.created_at());
    assert_eq!(out.updated_at, None);
    let shown = format!("{:?}", out);
    assert!(!shown.contains("password"));
    assert!(!shown.contains("s3cret"));
    assert!(!shown.contains(registered.credential().as_str()));
}

#[test]
fn unknown_email_and_wrong_password_fail_alike() {
    let users = two_users();
    let mut session = Session::anonymous();
    let unknown = routes::sign_in(&users, &mut session, message("eve@example.com", "password")).unwrap_err();
    let wrong = routes::sign_in(&users, &mut session, message("ann@example.com", "passw0rd")).unwrap_err();
    assert_eq!(unknown, wrong);
    assert!(is(&unknown, 401, "Credentials not valid"));
    assert_eq!(session, Session::anonymous());
    // an empty store answers in the same way
    let nobody = UserStore::new();
    assert_eq!(routes::sign_in(&nobody, &mut session, message("ann@example.com", "password")).unwrap_err(), wrong);
}

#[test]
fn sign_in_establishes_the_session_under_a_new_token() {
    let users = two_users();
    let mut session = Session::anonymous();
    let user = routes::sign_in(&users, &mut session, message("bob@example.com", "password")).unwrap();
    assert_eq!(user.id(), Id::from_u128(2));
    assert_eq!(session.user_id(), Some(Id::from_u128(2)));
    assert_eq!(session.status(), SessionStatus::Renewed);

    // signing in as somebody else takes the session over
    let user = routes::sign_in(&users, &mut session, message("ann@example.com", "password")).unwrap();
    assert_eq!(user.id(), Id::from_u128(1));
    assert_eq!(session.user_id(), Some(Id::from_u128(1)));
    assert_eq!(session.status(), SessionStatus::Renewed);
}

#[test]
fn failed_sign_in_leaves_the_session_as_it_was() {
    let users = two_users();
    let mut session = signed_in(Id::from_u128(2));
    routes::sign_in(&users, &mut session, message("ann@example.com", "wrong")).unwrap_err();
    assert_eq!(session, signed_in(Id::from_u128(2)));
    assert_eq!(session.status(), SessionStatus::Unchanged);
}

#[test]
fn sign_in_on_an_unreadable_credential_is_an_internal_error() {
    let mut users = UserStore::new();
    User::create_with(&mut users, "ann@example.com".to_string(), "not a credential".to_string(), Id::from_u128(1), at(10)).unwrap();
    let mut session = Session::anonymous();
    let err = routes::sign_in(&users, &mut session, message("ann@example.com", "password")).unwrap_err();
    assert!(is(&err, 500, "Failed to verify password"));
    assert_eq!(session, Session::anonymous());
}

#[test]
fn sign_in_on_a_credential_with_other_parameters_is_an_internal_error() {
    let mut users = UserStore::new();
    User::create_with(&mut users, "ann@example.com".to_string(), SMALLER_CREDENTIAL.to_string(), Id::from_u128(1), at(10)).unwrap();
    let mut session = Session::anonymous();
    let err = routes::sign_in(&users, &mut session, message("ann@example.com", "password")).unwrap_err();
    assert!(is(&err, 500, "Failed to verify password"));
    assert_eq!(session, Session::anonymous());
}

#[test]
fn finish_sign_in_goes_by_the_verdict() {
    let ann = User::find(&two_users(), Id::from_u128(1)).unwrap();
    let mut session = Session::anonymous();
    let err = routes::finish_sign_in(&mut session, ann.clone(), false).unwrap_err();
    assert!(is(&err, 401, "Credentials not valid"));
    assert_eq!(session, Session::anonymous());
    let user = routes::finish_sign_in(&mut session, ann.clone(), true).unwrap();
    assert_eq!(user, ann);
    assert_eq!(session.user_id(), Some(Id::from_u128(1)));
    assert_eq!(session.status(), SessionStatus::Renewed);
}

#[test]
fn sign_out_ends_a_signed_in_session() {
    let mut session = signed_in(Id::from_u128(1));
    assert_eq!(routes::sign_out(&mut session), Ok(()));
    assert_eq!(session.user_id(), None);
    assert_eq!(session.status(), SessionStatus::Purged);
    // there is nothing left to sign out of
    let err = routes::sign_out(&mut session).unwrap_err();
    assert!(is(&err, 401, "Unauthorized"));
}

#[test]
fn sign_out_without_a_user_is_unauthorized() {
    let mut session = Session::anonymous();
    let err = routes::sign_out(&mut session).unwrap_err();
    assert!(is(&err, 401, "Unauthorized"));
    assert_eq!(session, Session::anonymous());
    assert_eq!(session.status(), SessionStatus::Unchanged);
}

#[test]
fn who_am_i_gives_the_sessions_user() {
    let users = two_users();
    let user = routes::who_am_i(&users, &signed_in(Id::from_u128(2))).unwrap();
    assert_eq!(user.email(), "bob@example.com");
    let err = routes::who_am_i(&users, &Session::anonymous()).unwrap_err();
    assert!(is(&err, 401, "Unauthorized"));
    // the session outlived its user
    let err = routes::who_am_i(&users, &signed_in(Id::from_u128(3))).unwrap_err();
    assert!(is(&err, 404, "User not found"));
}

#[test]
fn register_under_a_taken_email_is_a_conflict() {
    let mut users = two_users();
    let err = routes::register_user(&mut users, message("ann@example.com", "other")).unwrap_err();
    assert!(is(&err, 409, "Email already registered"));
    let err = routes::create_user(&mut users, message("bob@example.com", "other")).unwrap_err();
    assert!(is(&err, 409, "Email already registered"));
    let err = User::create(&mut users, message("bob@example.com", "other")).unwrap_err();
    assert!(is(&err, 409, "Email already registered"));
    assert_eq!(users.len(), 2);
    // the first registration stands
    let mut session = Session::anonymous();
    routes::sign_in(&users, &mut session, message("ann@example.com", "password")).unwrap();
}

#[test]
fn create_with_fails_on_a_taken_email_first_and_on_a_taken_identifier_next() {
    let mut users = two_users();
    let err = User::create_with(&mut users, "ann@example.com".to_string(), "c".to_string(), Id::from_u128(2), at(1)).unwrap_err();
    assert!(is(&err, 409, "Email already registered"));
    let err = User::create_with(&mut users, "eve@example.com".to_string(), "c".to_string(), Id::from_u128(2), at(1)).unwrap_err();
    assert!(is(&err, 409, "Identifier already in use"));
    assert_eq!(users.len(), 2);
    let eve = User::create_with(&mut users, "eve@example.com".to_string(), "c".to_string(), Id::from_u128(3), at(30)).unwrap();
    assert_eq!(eve, User::new(Id::from_u128(3), "eve@example.com".to_string(), "c".to_string(), at(30), None));
    assert_eq!(users.len(), 3);
}

#[test]
fn create_user_stores_a_credential_and_never_the_raw_password() {
    let mut users = UserStore::new();
    let user = routes::create_user(&mut users, message("ann@example.com", "correct horse")).unwrap();
    assert_ne!(user.credential(), "correct horse");
    assert!(!user.credential().contains("correct horse"));
    assert!(user.credential().starts_with("$argon2id$v=19$m=19456,t=2,p=1$"));
    assert_eq!(user.verify_password("correct horse"), Ok(true));
    assert_eq!(user.verify_password("correct horse "), Ok(false));
    assert_eq!(user.verify_password(""), Ok(false));
    assert!(user.created_at().secs > 1_577_836_800);
    assert_eq!(User::find(&users, user.id()).unwrap(), user);
    assert_eq!(User::find_by_email(&users, "ann@example.com".to_string()).unwrap(), user);
}

#[test]
fn two_registrations_draw_two_identifiers_and_two_salts() {
    let mut users = UserStore::new();
    let ann = User::create(&mut users, message("ann@example.com", "same")).unwrap();
    let bob = User::create(&mut users, message("bob@example.com", "same")).unwrap();
    assert_ne!(ann.id(), bob.id());
    assert_ne!(ann.credential(), bob.credential());
    assert_eq!(users.len(), 2);
}

#[test]
fn hash_password_with_salt_is_the_argon2_encoding() {
    let one = hash_password_with_salt("password", b"somesalt").unwrap();
    assert_eq!(one, CREDENTIAL_OF_PASSWORD);
    assert!(is_own_credential(&one));
    assert!(one.starts_with("$argon2id$v=19$m=19456,t=2,p=1$c29tZXNhbHQ$"));
    assert_eq!(one.len(), "$argon2id$v=19$m=19456,t=2,p=1$c29tZXNhbHQ$".len() + 43);
    assert_eq!(hash_password_with_salt("password", b"somesalt").unwrap(), one);
    assert_ne!(hash_password_with_salt("password", b"othersalt").unwrap(), one);
    assert_ne!(hash_password_with_salt("passwore", b"somesalt").unwrap(), one);
    assert_eq!(verify_password(&one, "password"), Ok(true));
    assert_eq!(verify_password(&one, "passwore"), Ok(false));
}

#[test]
fn hash_password_with_a_short_salt_fails() {
    let err = hash_password_with_salt("password", b"short").unwrap_err();
    assert!(is(&err, 500, "Failed to hash password"));
}

#[test]
fn hash_password_salts_with_fresh_random_bytes() {
    assert_eq!(SALT_LENGTH, 32);
    let one = hash_password("password").unwrap();
    let two = hash_password("password").unwrap();
    assert!(is_own_credential(&one) && is_own_credential(&two));
    assert_ne!(one, two);
    let salt = |encoded: &str| encoded.split('$').nth(4).unwrap().to_string();
    // 32 bytes in base64 without padding
    assert_eq!(salt(&one).len(), 43);
    assert_ne!(salt(&one), salt(&two));
    // not the salt of 32 zero bytes
    assert_ne!(salt(&one), "A".repeat(43));
    assert_eq!(verify_password(&one, "password"), Ok(true));
    assert_eq!(verify_password(&two, "password"), Ok(true));
}

#[test]
fn verify_password_on_a_known_credential() {
    assert_eq!(verify_password(CREDENTIAL_OF_PASSWORD, "password"), Ok(true));
    assert_eq!(verify_password(CREDENTIAL_OF_PASSWORD, "Password"), Ok(false));
    assert_eq!(verify_password(CREDENTIAL_OF_PASSWORD, ""), Ok(false));
}

#[test]
fn verify_password_refuses_a_credential_with_other_parameters() {
    // both are credentials of "password", and Argon2 itself would say so
    let older = "$argon2i$v=19$m=4096,t=3,p=1$c29tZXNhbHQ$iWh06vD8Fy27wf9npn6FXWiCX4K6pW6Ue1Bnzz07Z8A";
    for foreign in [SMALLER_CREDENTIAL, older] {
        assert!(!is_own_credential(foreign));
        let err = verify_password(foreign, "password").unwrap_err();
        assert!(is(&err, 500, "Failed to verify password"));
    }
    // many lanes and much memory are not even looked at
    let greedy = "$argon2id$v=19$m=4194304,t=2,p=64$c29tZXNhbHQ$PL01amPyeUuxG7H0vIr5X+qHkZvWnHmGBGXFYvh8z2E";
    let err = verify_password(greedy, "password").unwrap_err();
    assert!(is(&err, 500, "Failed to verify password"));
}

#[test]
fn verify_password_fails_on_own_parameters_with_nothing_readable_behind() {
    for broken in [
        "$argon2id$v=19$m=19456,t=2,p=1$",
        "$argon2id$v=19$m=19456,t=2,p=1$c29tZXNhbHQ",
        "$argon2id$v=19$m=19456,t=2,p=1$c29tZXNhbHQ$not base64!",
        "$argon2id$v=19$m=19456,t=2,p=1$c29tZXNhbHQ$PL01amPy$PL01amPy",
        "$argon2id$v=19$m=19456,t=2,p=1$c2hvcnQ$PL01amPyeUuxG7H0vIr5X+qHkZvWnHmGBGXFYvh8z2E",
    ] {
        assert!(is_own_credential(broken));
        let err = verify_password(broken, "password").unwrap_err();
        assert!(is(&err, 500, "Failed to verify password"));
    }
}

#[test]
fn own_credentials_are_told_by_their_parameters() {
    assert!(is_own_credential(CREDENTIAL_OF_PASSWORD));
    assert!(is_own_credential("$argon2id$v=19$m=19456,t=2,p=1$"));
    assert!(is_own_credential("$argon2id$v=19$m=19456,t=2,p=1$\u{e9}t\u{e9}"));
    assert!(!is_own_credential("$argon2id$v=19$m=19456,t=2,p=1"));
    assert!(!is_own_credential("$argon2id$v=19$m=19456,t=2,p=10$c29tZXNhbHQ$abc"));
    assert!(!is_own_credential("$argon2id$v=19$m=194560,t=2,p=1$c29tZXNhbHQ$abc"));
    assert!(!is_own_credential(" $argon2id$v=19$m=19456,t=2,p=1$"));
    assert!(!is_own_credential(SMALLER_CREDENTIAL));
    assert!(!is_own_credential("\u{e9}"));
    assert!(!is_own_credential(""));
}

#[test]
fn verify_password_on_an_unreadable_credential_fails() {
    let err = verify_password("plain text", "plain text").unwrap_err();
    assert!(is(&err, 500, "Failed to verify password"));
    let err = verify_password("", "").unwrap_err();
    assert!(is(&err, 500, "Failed to verify password"));
}

#[test]
fn find_of_a_missing_user_is_not_found() {
    let users = two_users();
    let err = User::find(&users, Id::from_u128(9)).unwrap_err();
    assert!(is(&err, 404, "User not found"));
    let err = User::find_by_email(&users, "eve@example.com".to_string()).unwrap_err();
    assert!(is(&err, 404, "User not found"));
    assert_eq!(User::find_by_email(&users, "bob@example.com".to_string()).unwrap().id(), Id::from_u128(2));
    assert_eq!(User::find(&users, Id::from_u128(1)).unwrap().email(), "ann@example.com");
}

#[test]
fn find_all_lists_the_users_in_order_of_registration() {
    let users = two_users();
    let all = routes::find_all(&users).unwrap();
    let emails: Vec<&str> = all.iter().map(|u| u.email().as_str()).collect();
    assert_eq!(emails, vec!["ann@example.com", "bob@example.com"]);
    assert_eq!(User::find_all(&users).unwrap(), all);
    assert!(User::find_all(&UserStore::new()).unwrap().is_empty());
}

#[test]
fn update_with_replaces_only_what_is_given() {
    let mut users = two_users();
    let user = User::update_with(&mut users, Id::from_u128(1), Some("ann@new.example".to_string()), None, at(50)).unwrap();
    assert_eq!(user, User::new(Id::from_u128(1), "ann@new.example".to_string(), CREDENTIAL_OF_PASSWORD.to_string(), at(10), Some(at(50))));
    let user = User::update_with(&mut users, Id::from_u128(1), None, Some("c2".to_string()), at(60)).unwrap();
    assert_eq!(user, User::new(Id::from_u128(1), "ann@new.example".to_string(), "c2".to_string(), at(10), Some(at(60))));
    let user = User::update_with(&mut users, Id::from_u128(1), None, None, at(70)).unwrap();
    assert_eq!(user.updated_at(), Some(at(70)));
    assert_eq!(user.credential(), "c2");
    assert_eq!(User::find(&users, Id::from_u128(1)).unwrap(), user);
    // bob is as he was
    assert_eq!(User::find(&users, Id::from_u128(2)).unwrap().updated_at(), None);
    // the old email is free again
    assert_eq!(User::find_by_email(&users, "ann@example.com".to_string()).unwrap_err().status_code, 404);
}

#[test]
fn update_to_the_email_of_another_user_is_a_conflict() {
    let mut users = two_users();
    let err = User::update_with(&mut users, Id::from_u128(1), Some("bob@example.com".to_string()), None, at(50)).unwrap_err();
    assert!(is(&err, 409, "Email already registered"));
    assert_eq!(User::find(&users, Id::from_u128(1)).unwrap().email(), "ann@example.com");
    assert_eq!(User::find(&users, Id::from_u128(1)).unwrap().updated_at(), None);
    // one's own email is no conflict
    let user = User::update_with(&mut users, Id::from_u128(1), Some("ann@example.com".to_string()), None, at(50)).unwrap();
    assert_eq!(user.email(), "ann@example.com");
    assert_eq!(user.updated_at(), Some(at(50)));
}

#[test]
fn update_of_a_missing_user_is_not_found() {
    let mut users = two_users();
    let err = User::update_with(&mut users, Id::from_u128(9), Some("bob@example.com".to_string()), None, at(50)).unwrap_err();
    assert!(is(&err, 404, "User not found"));
    let err = User::update(&mut users, Id::from_u128(9), UserPatch::new(None, Some("pw".to_string()))).unwrap_err();
    assert!(is(&err, 404, "User not found"));
}

#[test]
fn update_user_rehashes_a_new_password() {
    let mut users = two_users();
    let session = signed_in(Id::from_u128(1));
    let user = routes::update_user(&mut users, &session, UserPatch::new(None, Some("changed".to_string()))).unwrap();
    assert_eq!(user.email(), "ann@example.com");
    assert_ne!(user.credential(), "changed");
    assert_ne!(user.credential(), CREDENTIAL_OF_PASSWORD);
    assert!(user.updated_at().unwrap().secs > 1_577_836_800);
    assert_eq!(user.created_at(), at(10));

    let mut fresh = Session::anonymous();
    routes::sign_in(&users, &mut fresh, message("ann@example.com", "password")).unwrap_err();
    let again = routes::sign_in(&users, &mut fresh, message("ann@example.com", "changed")).unwrap();
    assert_eq!(again, user);
}

#[test]
fn update_user_with_a_full_message_sets_email_and_password() {
    let mut users = two_users();
    let session = signed_in(Id::from_u128(2));
    let user = routes::update_user(&mut users, &session, message("rob@example.com", "pw").into_patch()).unwrap();
    assert_eq!(user.id(), Id::from_u128(2));
    assert_eq!(user.email(), "rob@example.com");
    assert_eq!(user.verify_password("pw"), Ok(true));
    assert_eq!(user.verify_password("password"), Ok(false));
}

#[test]
fn update_user_is_refused_without_a_session_or_on_a_conflict() {
    let mut users = two_users();
    let err = routes::update_user(&mut users, &Session::anonymous(), UserPatch::new(Some("x@example.com".to_string()), None)).unwrap_err();
    assert!(is(&err, 401, "Unauthorized"));
    let err = routes::update_user(&mut users, &signed_in(Id::from_u128(2)), UserPatch::new(Some("ann@example.com".to_string()), Some("pw".to_string()))).unwrap_err();
    assert!(is(&err, 409, "Email already registered"));
    let err = routes::update_user(&mut users, &signed_in(Id::from_u128(7)), UserPatch::new(None, None)).unwrap_err();
    assert!(is(&err, 404, "User not found"));
    assert_eq!(User::find(&users, Id::from_u128(2)).unwrap().updated_at(), None);
    assert_eq!(User::find(&users, Id::from_u128(2)).unwrap().credential(), CREDENTIAL_OF_PASSWORD);
}

#[test]
fn delete_takes_the_user_out() {
    let mut users = two_users();
    assert_eq!(User::delete(&mut users, Id::from_u128(1)), Ok(()));
    assert_eq!(users.len(), 1);
    assert!(is(&User::find(&users, Id::from_u128(1)).unwrap_err(), 404, "User not found"));
    assert!(is(&User::delete(&mut users, Id::from_u128(1)).unwrap_err(), 404, "User not found"));
    assert_eq!(User::find_all(&users).unwrap()[0].id(), Id::from_u128(2));
    // the email can be registered anew
    User::create_with(&mut users, "ann@example.com".to_string(), "c".to_string(), Id::from_u128(3), at(1)).unwrap();
}

#[test]
fn delete_user_takes_the_users_posts_along() {
    let mut users = two_users();
    let mut posts = PostStore::new();
    Post::create_post_at(&mut posts, NewPost::new("a1".to_string(), "x".to_string()), Id::from_u128(1), Id::from_u128(11), at(1)).unwrap();
    Post::create_post_at(&mut posts, NewPost::new("b1".to_string(), "x".to_string()), Id::from_u128(2), Id::from_u128(12), at(2)).unwrap();
    Post::create_post_at(&mut posts, NewPost::new("a2".to_string(), "x".to_string()), Id::from_u128(1), Id::from_u128(13), at(3)).unwrap();
    Post::publish_post(&mut posts, Id::from_u128(13)).unwrap();

    let session = signed_in(Id::from_u128(1));
    assert_eq!(routes::delete_user(&mut users, &mut posts, &session), Ok(()));
    assert_eq!(users.len(), 1);
    assert_eq!(posts.len(), 1);
    assert!(Post::find_user_posts(&posts, Id::from_u128(1)).unwrap().is_empty());
    assert!(Post::find_published_posts(&posts).unwrap().is_empty());
    assert_eq!(Post::find_post(&posts, Id::from_u128(12)).unwrap().title(), "b1");
    assert_eq!(session, signed_in(Id::from_u128(1)));

    // the session is still there, the user is not
    let err = routes::delete_user(&mut users, &mut posts, &session).unwrap_err();
    assert!(is(&err, 404, "User not found"));
    assert_eq!(posts.len(), 1);
    let err = routes::delete_user(&mut users, &mut posts, &Session::anonymous()).unwrap_err();
    assert!(is(&err, 401, "Unauthorized"));
    assert_eq!(users.len(), 1);
}
