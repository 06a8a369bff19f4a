use repu_cycle_backend::domain::CourseLevel;
use repu_cycle_backend::domain::NotificationKind;
use repu_cycle_backend::domain::Quiz;
use repu_cycle_backend::domain::Role;
use repu_cycle_backend::engine::Engine;
use repu_cycle_backend::errors::AppError;

fn engine_with_admin() -> Engine {
    let mut e = Engine::new();
    e.register_user(
        "adm".to_string(),
        "Root".to_string(),
        "r@x".to_string(),
        "pw".to_string(),
        Some(Role::Admin),
        "en".to_string(),
    )
    .unwrap();
    e
}

fn register_and_login(e: &mut Engine, id: &str) {
    e.register_user(
        id.to_string(),
        "Ada".to_string(),
        "a@x".to_string(),
        "pw".to_string(),
        None,
        "en".to_string(),
    )
    .unwrap();
    e.login_user_with(id.to_string(), "pw".to_string(), format!("tok-{}", id), 1000)
        .unwrap();
}

fn sample_quiz(title: &str, reward: u32) -> Quiz {
    Quiz {
        title: title.to_string(),
        level: 1,
        questions: vec!["q1".to_string()],
        options: vec![vec!["a".to_string(), "b".to_string()]],
        correct_answers: vec!["a".to_string()],
        reward,
    }
}

#[test]
fn add_course_is_admin_only_and_broadcasts() {
    let mut e = engine_with_admin();
    register_and_login(&mut e, "u1");
    let levels = vec![CourseLevel { level: 1, quiz: sample_quiz("Q1", 3) }];
    let r = e.add_course("u1".to_string(), "Recycling 101".to_string(), levels, Vec::new(), 10);
    assert!(matches!(r, Err(AppError::ValidationError)));
    let levels2 = vec![CourseLevel { level: 1, quiz: sample_quiz("Q1", 3) }];
    e.add_course("adm".to_string(), "Recycling 101".to_string(), levels2, Vec::new(), 11)
        .unwrap();
    let levels3 = vec![CourseLevel { level: 1, quiz: sample_quiz("Q1", 3) }];
    let r2 = e.add_course("adm".to_string(), "Recycling 101".to_string(), levels3, Vec::new(), 12);
    assert!(matches!(r2, Err(AppError::CourseAlreadyExists)));
    let broadcast = e.get_notifications(&"all".to_string()).unwrap();
    assert_eq!(broadcast.len(), 1);
    assert_eq!(broadcast[0].message, "A new course has been created: Recycling 101");
    assert!(broadcast[0].kind == NotificationKind::CourseAdded);
}

#[test]
fn add_course_rejects_colliding_levels() {
    let mut e = engine_with_admin();
    let levels = vec![
        CourseLevel { level: 1, quiz: sample_quiz("Q1", 3) },
        CourseLevel { level: 1, quiz: sample_quiz("Q2", 4) },
    ];
    let r = e.add_course("adm".to_string(), "C".to_string(), levels, Vec::new(), 10);
    assert!(matches!(r, Err(AppError::ValidationError)));
}

#[test]
fn add_quiz_validates_columns() {
    let mut e = engine_with_admin();
    let r = e.add_quiz(
        "adm".to_string(),
        "Q1".to_string(),
        1,
        vec!["q1".to_string(), "q2".to_string()],
        vec![vec!["a".to_string()]],
        vec!["a".to_string()],
        3,
        10,
    );
    assert!(matches!(r, Err(AppError::ValidationError)));
    e.add_quiz(
        "adm".to_string(),
        "Q1".to_string(),
        1,
        vec!["q1".to_string()],
        vec![vec!["a".to_string(), "b".to_string()]],
        vec!["a".to_string()],
        3,
        11,
    )
    .unwrap();
    let r2 = e.add_quiz(
        "adm".to_string(),
        "Q1".to_string(),
        1,
        vec!["q1".to_string()],
        vec![vec!["a".to_string()]],
        vec!["a".to_string()],
        3,
        12,
    );
    assert!(matches!(r2, Err(AppError::QuizAlreadyExists)));
}

#[test]
fn pass_quiz_credits_once() {
    let mut e = engine_with_admin();
    e.add_quiz(
        "adm".to_string(),
        "Q1".to_string(),
        1,
        vec!["q1".to_string()],
        vec![vec!["a".to_string(), "b".to_string()]],
        vec!["a".to_string()],
        7,
        10,
    )
    .unwrap();
    register_and_login(&mut e, "u1");
    e.pass_quiz("u1".to_string(), "Q1".to_string(), 1001).unwrap();
    assert_eq!(e.get_user(&"u1".to_string()).unwrap().tokens, 7);
    // a second pass is acknowledged without crediting again
    assert!(e.pass_quiz("u1".to_string(), "Q1".to_string(), 1002).is_ok());
    let u = e.get_user(&"u1".to_string()).unwrap();
    assert_eq!(u.tokens, 7);
    assert_eq!(u.passed_quizzes, vec!["Q1".to_string()]);
}

#[test]
fn pass_quiz_needs_session_and_quiz() {
    let mut e = engine_with_admin();
    e.register_user(
        "u1".to_string(),
        "Ada".to_string(),
        "a@x".to_string(),
        "pw".to_string(),
        None,
        "en".to_string(),
    )
    .unwrap();
    let r = e.pass_quiz("u1".to_string(), "Q1".to_string(), 1000);
    assert!(matches!(r, Err(AppError::SessionExpired)));
    e.login_user_with("u1".to_string(), "pw".to_string(), "t".to_string(), 1000)
        .unwrap();
    let r2 = e.pass_quiz("u1".to_string(), "missing".to_string(), 1001);
    assert!(matches!(r2, Err(AppError::ValidationError)));
}

#[test]
fn challenge_prerequisites_are_enforced() {
    let mut e = engine_with_admin();
    let levels = vec![CourseLevel { level: 1, quiz: sample_quiz("Q1", 3) }];
    e.add_course("adm".to_string(), "Recycling 101".to_string(), levels, Vec::new(), 5)
        .unwrap();
    e.add_challenge_with(
        "adm".to_string(),
        "c1".to_string(),
        "recycle for a week".to_string(),
        10,
        vec!["Recycling 101".to_string()],
        Vec::new(),
        6,
    )
    .unwrap();
    register_and_login(&mut e, "u1");
    let r = e.participate_in_challenge("u1".to_string(), "c1".to_string(), 1001);
    assert!(matches!(r, Err(AppError::RequiredCoursesNotCompleted)));
    e.complete_course("u1".to_string(), "Recycling 101".to_string(), 1002).unwrap();
    e.participate_in_challenge("u1".to_string(), "c1".to_string(), 1003).unwrap();
    let u = e.get_user(&"u1".to_string()).unwrap();
    assert_eq!(u.tokens, 10);
    assert_eq!(u.challenges_completed, vec!["c1".to_string()]);
    // re-entry is refused
    let r2 = e.participate_in_challenge("u1".to_string(), "c1".to_string(), 1004);
    assert!(matches!(r2, Err(AppError::AlreadyParticipating)));
    // the participant was notified
    let notes = e.get_notifications(&"u1".to_string()).unwrap();
    assert_eq!(notes.len(), 1);
    assert_eq!(
        notes[0].message,
        "You have successfully participated in the challenge: recycle for a week"
    );
    assert!(notes[0].kind == NotificationKind::ChallengeStarted);
}

#[test]
fn participate_unknown_challenge_fails() {
    let mut e = engine_with_admin();
    register_and_login(&mut e, "u1");
    let r = e.participate_in_challenge("u1".to_string(), "ghost".to_string(), 1001);
    assert!(matches!(r, Err(AppError::ChallengeNotFound)));
}

#[test]
fn add_challenge_draws_fresh_id_and_broadcasts() {
    let mut e = engine_with_admin();
    let cid = e
        .add_challenge(
            "adm".to_string(),
            "plant trees".to_string(),
            4,
            Vec::new(),
            Vec::new(),
        )
        .unwrap();
    assert_eq!(cid.len(), 36);
    let broadcast = e.get_notifications(&"all".to_string()).unwrap();
    assert_eq!(broadcast.len(), 1);
    assert_eq!(broadcast[0].message, "A new challenge has been added: plant trees");
    assert!(broadcast[0].kind == NotificationKind::ChallengeAdded);
    let r = e.add_challenge(
        "nobody".to_string(),
        "x".to_string(),
        1,
        Vec::new(),
        Vec::new(),
    );
    assert!(matches!(r, Err(AppError::ValidationError)));
}

#[test]
fn complete_course_is_idempotent() {
    let mut e = engine_with_admin();
    let levels = vec![CourseLevel { level: 1, quiz: sample_quiz("Q1", 3) }];
    e.add_course("adm".to_string(), "C1".to_string(), levels, Vec::new(), 5)
        .unwrap();
    register_and_login(&mut e, "u1");
    e.complete_course("u1".to_string(), "C1".to_string(), 1001).unwrap();
    e.complete_course("u1".to_string(), "C1".to_string(), 1002).unwrap();
    let u = e.get_user(&"u1".to_string()).unwrap();
    assert_eq!(u.completed_courses, vec!["C1".to_string()]);
    let r = e.complete_course("u1".to_string(), "missing".to_string(), 1003);
    assert!(matches!(r, Err(AppError::ValidationError)));
}

#[test]
fn leaderboard_sorts_tokens_desc_ties_by_id() {
    let mut e = Engine::new();
    for (id, tokens) in [("u1", 5u32), ("u2", 9), ("u3", 9)] {
        e.register_user(
            id.to_string(),
            "X".to_string(),
            "x@x".to_string(),
            "pw".to_string(),
            None,
            "en".to_string(),
        )
        .unwrap();
        e.login_user_with(id.to_string(), "pw".to_string(), format!("t-{}", id), 1000)
            .unwrap();
        e.update_user_tokens(id.to_string(), tokens, 1001).unwrap();
    }
    let board = e.get_leaderboard();
    assert_eq!(
        board,
        vec![
            ("u2".to_string(), 9),
            ("u3".to_string(), 9),
            ("u1".to_string(), 5),
        ]
    );
}

#[test]
fn empty_engine_has_empty_board_and_log() {
    let e = Engine::new();
    assert!(e.get_leaderboard().is_empty());
    assert!(e.get_action_logs().is_empty());
}

#[test]
fn footprint_follows_formula() {
    let mut e = Engine::new();
    let r = e.log_waste("u1".to_string(), 10, 4, 1);
    assert!(matches!(r, Err(AppError::UserNotFound)));
    e.register_user(
        "u1".to_string(),
        "Ada".to_string(),
        "a@x".to_string(),
        "pw".to_string(),
        None,
        "en".to_string(),
    )
    .unwrap();
    let score = e.log_waste("u1".to_string(), 10, 4, 2).unwrap();
    assert_eq!(score, 50);
    assert_eq!(score as f64 / 10.0, 0.7 * 10.0 - 0.5 * 4.0);
    let fp = e.get_footprint(&"u1".to_string()).unwrap();
    assert_eq!(fp.waste_generated, 10);
    assert_eq!(fp.recyclable_waste, 4);
    assert_eq!(fp.footprint_score_tenths, 50);
    // a new measurement overwrites the old one, and may go negative
    let score2 = e.log_waste("u1".to_string(), 0, 6, 3).unwrap();
    assert_eq!(score2, -30);
    assert_eq!(e.get_footprint(&"u1".to_string()).unwrap().footprint_score_tenths, -30);
    assert!(matches!(
        e.get_footprint(&"u2".to_string()),
        Err(AppError::UserNotFound)
    ));
}

#[test]
fn notifications_flow_between_users() {
    let mut e = Engine::new();
    for id in ["u1", "u2"] {
        e.register_user(
            id.to_string(),
            "X".to_string(),
            "x@x".to_string(),
            "pw".to_string(),
            None,
            "en".to_string(),
        )
        .unwrap();
    }
    let r = e.get_notifications(&"u2".to_string());
    assert!(matches!(r, Err(AppError::NotificationError)));
    e.send_notification("u1".to_string(), "u2".to_string(), "well done".to_string(), 7)
        .unwrap();
    let notes = e.get_notifications(&"u2".to_string()).unwrap();
    assert_eq!(notes.len(), 1);
    assert_eq!(notes[0].message, "u1: well done");
    assert_eq!(notes[0].timestamp, 7);
    assert!(notes[0].kind == NotificationKind::AchievementShared);
    let sender = e.get_user(&"u1".to_string()).unwrap();
    assert_eq!(sender.inbox, vec!["You sent a message to u2".to_string()]);
    let r2 = e.send_notification("u1".to_string(), "ghost".to_string(), "hi".to_string(), 8);
    assert!(matches!(r2, Err(AppError::UserNotFound)));
    e.add_notification(
        "u1".to_string(),
        "reminder".to_string(),
        NotificationKind::ChallengeReminder,
        9,
    )
    .unwrap();
    let own = e.get_notifications(&"u1".to_string()).unwrap();
    assert_eq!(own.len(), 1);
    assert_eq!(own[0].message, "reminder");
    let r3 = e.add_notification(
        "ghost".to_string(),
        "x".to_string(),
        NotificationKind::ChallengeReminder,
        10,
    );
    assert!(matches!(r3, Err(AppError::UserNotFound)));
}

#[test]
fn action_log_grows_across_mutations() {
    let mut e = engine_with_admin();
    let mut last = e.get_action_logs().len();
    register_and_login(&mut e, "u1");
    assert!(e.get_action_logs().len() > last);
    last = e.get_action_logs().len();
    e.log_waste("u1".to_string(), 1, 1, 5).unwrap();
    assert!(e.get_action_logs().len() > last);
    last = e.get_action_logs().len();
    e.submit_feedback("u1".to_string(), "ok".to_string(), 6).unwrap();
    assert!(e.get_action_logs().len() > last);
}
