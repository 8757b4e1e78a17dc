use blog_backend::api_error::{ApiError, CONFLICT, INTERNAL_ERROR, NOT_FOUND, UNAUTHORIZED};
use blog_backend::clock::Timestamp;
use blog_backend::ident::Id;
use blog_backend::session::{Session, SessionStatus, SESSION_TTL_SECONDS};
use blog_backend::util::get_user_id_from_session;

#[test]
fn anonymous_session_resolves_to_unauthorized() {
    let session = Session::anonymous();
    assert_eq!(session.user_id(), None);
    assert_eq!(session.status(), SessionStatus::Unchanged);
    let err = get_user_id_from_session(&session).unwrap_err();
    assert_eq!(err.status_code, 401);
    assert_eq!(err.message, "Unauthorized");
    assert_eq!(Session::resumed(None), session);
}

#[test]
fn resumed_session_resolves_to_its_user() {
    let session = Session::resumed(Some(Id::from_u128(42)));
    assert_eq!(get_user_id_from_session(&session), Ok(Id::from_u128(42)));
    assert_eq!(session.status(), SessionStatus::Unchanged);
}

#[test]
fn establish_sets_the_user_and_asks_for_a_new_token() {
    let mut session = Session::anonymous();
    session.establish(Id::from_u128(5));
    assert_eq!(session.user_id(), Some(Id::from_u128(5)));
    assert_eq!(session.status(), SessionStatus::Renewed);
    assert_eq!(get_user_id_from_session(&session), Ok(Id::from_u128(5)));
    session.establish(Id::from_u128(6));
    assert_eq!(get_user_id_from_session(&session), Ok(Id::from_u128(6)));
    assert_eq!(session.status(), SessionStatus::Renewed);
}

#[test]
fn terminate_leaves_nothing_of_the_session() {
    let mut session = Session::resumed(Some(Id::from_u128(5)));
    session.terminate();
    assert_eq!(session.user_id(), None);
    assert_eq!(session.status(), SessionStatus::Purged);
    assert_eq!(get_user_id_from_session(&session).unwrap_err().status_code, 401);
}

#[test]
fn sessions_live_for_an_hour() {
    assert_eq!(SESSION_TTL_SECONDS, 3600);
}

#[test]
fn identifiers_keep_their_value() {
    assert_eq!(Id::from_u128(0xa1a2a3a4b1b2c1c2d1d2d3d4d5d6d7d8).as_u128(), 0xa1a2a3a4b1b2c1c2d1d2d3d4d5d6d7d8);
    assert_eq!(Id::from_u128(7), Id { value: 7 });
    assert_ne!(Id::from_u128(7), Id::from_u128(8));
}

#[test]
fn timestamps_are_ordered_by_seconds_then_nanoseconds() {
    let t = Timestamp::new(100, 500);
    assert_eq!((t.secs, t.nanos), (100, 500));
    assert!(Timestamp::new(101, 0).later_than(&t));
    assert!(Timestamp::new(100, 501).later_than(&t));
    assert!(!Timestamp::new(100, 500).later_than(&t));
    assert!(!Timestamp::new(100, 499).later_than(&t));
    assert!(!Timestamp::new(99, 999_999_999).later_than(&t));
    assert!(Timestamp::new(-1, 0).later_than(&Timestamp::new(-2, 999_999_999)));
    assert!(Timestamp::new(i64::MAX, u32::MAX).later_than(&Timestamp::new(i64::MIN, 0)));
    // the derived order is the same one
    assert!(Timestamp::new(100, 501) > t);
    assert!(Timestamp::new(99, 999_999_999) < t);
}

#[test]
fn failures_carry_their_status_and_message() {
    assert_eq!((UNAUTHORIZED, NOT_FOUND, CONFLICT, INTERNAL_ERROR), (401, 404, 409, 500));
    let e = ApiError::new(418, "teapot".to_string());
    assert_eq!((e.status_code, e.message.as_str()), (418, "teapot"));
    let cases = [
        (ApiError::unauthorized(), 401, "Unauthorized"),
        (ApiError::credentials_not_valid(), 401, "Credentials not valid"),
        (ApiError::post_not_found(), 404, "Post not found"),
        (ApiError::user_not_found(), 404, "User not found"),
        (ApiError::email_taken(), 409, "Email already registered"),
        (ApiError::id_taken(), 409, "Identifier already in use"),
        (ApiError::hashing_failed(), 500, "Failed to hash password"),
        (ApiError::verification_failed(), 500, "Failed to verify password"),
    ];
    for (e, status_code, message) in cases {
        assert_eq!(e, ApiError::new(status_code, message.to_string()));
    }
}
