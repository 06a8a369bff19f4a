use repu_cycle_backend::domain::Role;
use repu_cycle_backend::engine::Engine;
use repu_cycle_backend::errors::AppError;
use sha2::Digest;
use sha2::Sha256;

#[test]
fn register_then_get_returns_record() {
    let mut e = Engine::new();
    let r = e.register_user(
        "u1".to_string(),
        "Ada".to_string(),
        "a@x".to_string(),
        "pw".to_string(),
        Some(Role::User),
        "en".to_string(),
    );
    assert!(r.is_ok());
    let u = e.get_user(&"u1".to_string()).unwrap();
    assert_eq!(u.id, "u1");
    assert_eq!(u.full_name, "Ada");
    assert_eq!(u.email, "a@x");
    assert_eq!(u.preferred_language, "en");
    assert_eq!(u.tokens, 0);
    assert!(u.role == Role::User);
    assert!(u.session.is_none());
    assert!(u.passed_quizzes.is_empty());
    assert!(u.completed_courses.is_empty());
    assert!(u.challenges_completed.is_empty());
}

#[test]
fn register_defaults_role_to_user() {
    let mut e = Engine::new();
    e.register_user(
        "u1".to_string(),
        "Ada".to_string(),
        "a@x".to_string(),
        "pw".to_string(),
        None,
        "en".to_string(),
    )
    .unwrap();
    let u = e.get_user(&"u1".to_string()).unwrap();
    assert!(u.role == Role::User);
}

#[test]
fn register_duplicate_id_fails() {
    let mut e = Engine::new();
    e.register_user(
        "u1".to_string(),
        "Ada".to_string(),
        "a@x".to_string(),
        "pw".to_string(),
        None,
        "en".to_string(),
    )
    .unwrap();
    let r = e.register_user(
        "u1".to_string(),
        "Bob".to_string(),
        "b@x".to_string(),
        "pw2".to_string(),
        None,
        "en".to_string(),
    );
    assert!(matches!(r, Err(AppError::UserAlreadyExists)));
}

#[test]
fn stored_digest_is_salted_sha256() {
    let mut e = Engine::new();
    e.register_user(
        "u1".to_string(),
        "Ada".to_string(),
        "a@x".to_string(),
        "pw".to_string(),
        None,
        "en".to_string(),
    )
    .unwrap();
    let u = e.get_user(&"u1".to_string()).unwrap();
    assert_eq!(u.salt.len(), 36);
    let mut hasher = Sha256::new();
    hasher.update("pw");
    hasher.update(u.salt.as_str());
    let expected = format!("{:x}", hasher.finalize());
    assert_eq!(u.hashed_password.len(), 64);
    assert_eq!(u.hashed_password, expected);
    // the digest is not the password itself, so logging in with the
    // stored digest must fail
    let digest = u.hashed_password.clone();
    let r = e.login_user("u1".to_string(), digest);
    assert!(matches!(r, Err(AppError::InvalidCredentials)));
}

#[test]
fn login_issues_session_token() {
    let mut e = Engine::new();
    e.register_user(
        "u1".to_string(),
        "Ada".to_string(),
        "a@x".to_string(),
        "pw".to_string(),
        None,
        "en".to_string(),
    )
    .unwrap();
    let t = e
        .login_user_with("u1".to_string(), "pw".to_string(), "tok-1".to_string(), 1000)
        .unwrap();
    assert_eq!(t, "tok-1");
    let u = e.get_user(&"u1".to_string()).unwrap();
    let s = u.session.as_ref().unwrap();
    assert_eq!(s.token, "tok-1");
    assert_eq!(s.expires_at, 4600);
}

#[test]
fn login_with_random_token_is_opaque() {
    let mut e = Engine::new();
    e.register_user(
        "u1".to_string(),
        "Ada".to_string(),
        "a@x".to_string(),
        "pw".to_string(),
        None,
        "en".to_string(),
    )
    .unwrap();
    let t = e.login_user("u1".to_string(), "pw".to_string()).unwrap();
    assert_eq!(t.len(), 36);
}

#[test]
fn login_wrong_password_fails() {
    let mut e = Engine::new();
    e.register_user(
        "u1".to_string(),
        "Ada".to_string(),
        "a@x".to_string(),
        "pw".to_string(),
        None,
        "en".to_string(),
    )
    .unwrap();
    let r = e.login_user("u1".to_string(), "nope".to_string());
    assert!(matches!(r, Err(AppError::InvalidCredentials)));
    let r2 = e.login_user("ghost".to_string(), "pw".to_string());
    assert!(matches!(r2, Err(AppError::UserNotFound)));
}

#[test]
fn session_expires_after_ttl() {
    let mut e = Engine::new();
    e.register_user(
        "u1".to_string(),
        "Ada".to_string(),
        "a@x".to_string(),
        "pw".to_string(),
        None,
        "en".to_string(),
    )
    .unwrap();
    e.login_user_with("u1".to_string(), "pw".to_string(), "t".to_string(), 1000)
        .unwrap();
    // still live one second before the hour is up
    assert!(e.update_user_tokens("u1".to_string(), 1, 4599).is_ok());
    // expired exactly at the expiry instant
    let r = e.update_user_tokens("u1".to_string(), 1, 4600);
    assert!(matches!(r, Err(AppError::SessionExpired)));
}

#[test]
fn update_tokens_without_login_fails() {
    let mut e = Engine::new();
    e.register_user(
        "u1".to_string(),
        "Ada".to_string(),
        "a@x".to_string(),
        "pw".to_string(),
        None,
        "en".to_string(),
    )
    .unwrap();
    let r = e.update_user_tokens("u1".to_string(), 5, 1000);
    assert!(matches!(r, Err(AppError::SessionExpired)));
    let r2 = e.update_user_tokens("ghost".to_string(), 5, 1000);
    assert!(matches!(r2, Err(AppError::UserNotFound)));
}

#[test]
fn update_tokens_credits_profile_counter() {
    let mut e = Engine::new();
    e.register_user(
        "u1".to_string(),
        "Ada".to_string(),
        "a@x".to_string(),
        "pw".to_string(),
        None,
        "en".to_string(),
    )
    .unwrap();
    e.login_user_with("u1".to_string(), "pw".to_string(), "t".to_string(), 1000)
        .unwrap();
    e.update_user_tokens("u1".to_string(), 5, 1001).unwrap();
    e.update_user_tokens("u1".to_string(), 3, 1002).unwrap();
    assert_eq!(e.get_user(&"u1".to_string()).unwrap().tokens, 8);
}

#[test]
fn redeem_reward_spends_profile_tokens() {
    let mut e = Engine::new();
    e.register_user(
        "adm".to_string(),
        "Root".to_string(),
        "r@x".to_string(),
        "pw".to_string(),
        Some(Role::Admin),
        "en".to_string(),
    )
    .unwrap();
    e.register_user(
        "u1".to_string(),
        "Ada".to_string(),
        "a@x".to_string(),
        "pw".to_string(),
        None,
        "en".to_string(),
    )
    .unwrap();
    e.add_reward("adm".to_string(), "r1".to_string(), "badge".to_string(), 5, 10)
        .unwrap();
    e.login_user_with("u1".to_string(), "pw".to_string(), "t".to_string(), 1000)
        .unwrap();
    e.update_user_tokens("u1".to_string(), 7, 1001).unwrap();
    assert!(e.redeem_reward("u1".to_string(), "r1".to_string(), 1002).is_ok());
    assert_eq!(e.get_user(&"u1".to_string()).unwrap().tokens, 2);
    // not enough tokens left for a second redemption
    let r = e.redeem_reward("u1".to_string(), "r1".to_string(), 1003);
    assert!(matches!(r, Err(AppError::InvalidReward)));
    let r2 = e.redeem_reward("u1".to_string(), "ghost".to_string(), 1004);
    assert!(matches!(r2, Err(AppError::InvalidReward)));
    let r3 = e.redeem_reward("ghost".to_string(), "r1".to_string(), 1005);
    assert!(matches!(r3, Err(AppError::UserNotFound)));
}

#[test]
fn feedback_requires_existing_user() {
    let mut e = Engine::new();
    let r = e.submit_feedback("ghost".to_string(), "hi".to_string(), 10);
    assert!(matches!(r, Err(AppError::UserNotFound)));
    e.register_user(
        "u1".to_string(),
        "Ada".to_string(),
        "a@x".to_string(),
        "pw".to_string(),
        None,
        "en".to_string(),
    )
    .unwrap();
    assert!(e.submit_feedback("u1".to_string(), "great app".to_string(), 11).is_ok());
    assert_eq!(e.feedbacks.len(), 1);
    assert_eq!(e.feedbacks[0].user_id, "u1");
    assert_eq!(e.feedbacks[0].text, "great app");
}

#[test]
fn error_messages_render() {
    assert_eq!(AppError::UserNotFound.message(), "User not found");
    assert_eq!(AppError::InvalidCredentials.message(), "Invalid credentials");
    assert_eq!(
        AppError::StorageError("disk gone".to_string()).message(),
        "Storage error: disk gone"
    );
    assert_eq!(
        AppError::RequiredCoursesNotCompleted.message(),
        "You have not completed the required courses or quizzes"
    );
}

#[test]
fn session_tokens_stay_unique_across_users() {
    let mut e = Engine::new();
    for id in ["u1", "u2"] {
        e.register_user(
            id.to_string(),
            "X".to_string(),
            "x@x".to_string(),
            "pw".to_string(),
            None,
            "en".to_string(),
        )
        .unwrap();
    }
    e.login_user_with("u1".to_string(), "pw".to_string(), "tok".to_string(), 1000)
        .unwrap();
    // a token another user's session already stores is refused
    let r = e.login_user_with("u2".to_string(), "pw".to_string(), "tok".to_string(), 1001);
    assert!(matches!(r, Err(AppError::ValidationError)));
    assert!(e.get_user(&"u2".to_string()).unwrap().session.is_none());
    // a fresh token is accepted
    e.login_user_with("u2".to_string(), "pw".to_string(), "tok2".to_string(), 1002)
        .unwrap();
    // re-login may replace a user's own session with the same token
    e.login_user_with("u1".to_string(), "pw".to_string(), "tok".to_string(), 1003)
        .unwrap();
    let u1 = e.get_user(&"u1".to_string()).unwrap();
    assert_eq!(u1.session.as_ref().unwrap().token, "tok");
}
