use repu_cycle_backend::domain::Role;
use repu_cycle_backend::engine::Engine;
use repu_cycle_backend::errors::AppError;

#[test]
fn mint_then_burn_tracks_balance() {
    let mut e = Engine::new();
    e.mint_tokens("u1".to_string(), 10, 1).unwrap();
    assert_eq!(e.get_balance(&"u1".to_string()).unwrap(), 10);
    e.burn_tokens("u1".to_string(), 4, 2).unwrap();
    assert_eq!(e.get_balance(&"u1".to_string()).unwrap(), 6);
    let r = e.burn_tokens("u1".to_string(), 10, 3);
    assert!(matches!(r, Err(AppError::InsufficientBalance)));
    assert_eq!(e.get_balance(&"u1".to_string()).unwrap(), 6);
}

#[test]
fn mint_burn_roundtrip_restores_balance() {
    let mut e = Engine::new();
    e.mint_tokens("u1".to_string(), 5, 1).unwrap();
    e.mint_tokens("u1".to_string(), 7, 2).unwrap();
    e.burn_tokens("u1".to_string(), 7, 3).unwrap();
    assert_eq!(e.get_balance(&"u1".to_string()).unwrap(), 5);
}

#[test]
fn burn_whole_balance_leaves_zero() {
    let mut e = Engine::new();
    e.mint_tokens("u1".to_string(), 5, 1).unwrap();
    assert!(e.burn_tokens("u1".to_string(), 5, 2).is_ok());
    assert_eq!(e.get_balance(&"u1".to_string()).unwrap(), 0);
}

#[test]
fn burn_unknown_owner_fails() {
    let mut e = Engine::new();
    let r = e.burn_tokens("ghost".to_string(), 1, 1);
    assert!(matches!(r, Err(AppError::UserNotFoundInLedger)));
}

#[test]
fn get_balance_unknown_owner_fails() {
    let e = Engine::new();
    let r = e.get_balance(&"ghost".to_string());
    assert!(matches!(r, Err(AppError::UserNotFoundInLedger)));
}

#[test]
fn transfer_creates_recipient_row() {
    let mut e = Engine::new();
    e.mint_tokens("u1".to_string(), 5, 1).unwrap();
    e.transfer_tokens("u1".to_string(), "u2".to_string(), 3, 2).unwrap();
    assert_eq!(e.get_balance(&"u1".to_string()).unwrap(), 2);
    assert_eq!(e.get_balance(&"u2".to_string()).unwrap(), 3);
}

#[test]
fn transfer_preserves_sum() {
    let mut e = Engine::new();
    e.mint_tokens("u1".to_string(), 8, 1).unwrap();
    e.mint_tokens("u2".to_string(), 4, 2).unwrap();
    let before = e.get_balance(&"u1".to_string()).unwrap() + e.get_balance(&"u2".to_string()).unwrap();
    e.transfer_tokens("u1".to_string(), "u2".to_string(), 6, 3).unwrap();
    let after = e.get_balance(&"u1".to_string()).unwrap() + e.get_balance(&"u2".to_string()).unwrap();
    assert_eq!(before, after);
    assert_eq!(e.get_balance(&"u1".to_string()).unwrap(), 2);
    assert_eq!(e.get_balance(&"u2".to_string()).unwrap(), 10);
}

#[test]
fn overdrawn_transfer_moves_nothing() {
    let mut e = Engine::new();
    e.mint_tokens("u1".to_string(), 2, 1).unwrap();
    let r = e.transfer_tokens("u1".to_string(), "u2".to_string(), 5, 2);
    assert!(matches!(r, Err(AppError::InsufficientBalance)));
    assert_eq!(e.get_balance(&"u1".to_string()).unwrap(), 2);
    assert!(matches!(
        e.get_balance(&"u2".to_string()),
        Err(AppError::UserNotFoundInLedger)
    ));
}

#[test]
fn transfer_from_unknown_sender_fails() {
    let mut e = Engine::new();
    let r = e.transfer_tokens("ghost".to_string(), "u2".to_string(), 1, 1);
    assert!(matches!(r, Err(AppError::UserNotFoundInLedger)));
}

#[test]
fn challenge_reward_mints_into_ledger() {
    let mut e = Engine::new();
    e.register_user(
        "adm".to_string(),
        "Root".to_string(),
        "r@x".to_string(),
        "pw".to_string(),
        Some(Role::Admin),
        "en".to_string(),
    )
    .unwrap();
    e.add_challenge_with(
        "adm".to_string(),
        "c1".to_string(),
        "plant a tree".to_string(),
        10,
        Vec::new(),
        Vec::new(),
        5,
    )
    .unwrap();
    e.reward_user_for_challenge("u1".to_string(), "c1".to_string(), 6).unwrap();
    assert_eq!(e.get_balance(&"u1".to_string()).unwrap(), 10);
    let r = e.reward_user_for_challenge("u1".to_string(), "ghost".to_string(), 7);
    assert!(matches!(r, Err(AppError::ChallengeNotFound)));
    assert_eq!(e.get_balance(&"u1".to_string()).unwrap(), 10);
}

#[test]
fn ledger_and_profile_counter_stay_separate() {
    let mut e = Engine::new();
    e.register_user(
        "u1".to_string(),
        "Ada".to_string(),
        "a@x".to_string(),
        "pw".to_string(),
        None,
        "en".to_string(),
    )
    .unwrap();
    e.mint_tokens("u1".to_string(), 9, 1).unwrap();
    // minting touches only the ledger, never the profile counter
    assert_eq!(e.get_user(&"u1".to_string()).unwrap().tokens, 0);
    assert_eq!(e.get_balance(&"u1".to_string()).unwrap(), 9);
}

#[test]
fn failed_mutations_do_not_log() {
    let mut e = Engine::new();
    e.mint_tokens("u1".to_string(), 3, 1).unwrap();
    let len_after_mint = e.get_action_logs().len();
    assert_eq!(len_after_mint, 1);
    assert_eq!(e.get_action_logs()[0].action, "mint_tokens");
    assert_eq!(e.get_action_logs()[0].timestamp, 1);
    let _ = e.burn_tokens("ghost".to_string(), 1, 2);
    assert_eq!(e.get_action_logs().len(), len_after_mint);
    e.burn_tokens("u1".to_string(), 1, 3).unwrap();
    assert_eq!(e.get_action_logs().len(), len_after_mint + 1);
    assert_eq!(e.get_action_logs()[1].action, "burn_tokens");
}
