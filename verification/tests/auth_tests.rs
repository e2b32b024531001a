use ficha::auth::AuthManager;

#[test]
fn test_get_current_user() {
    let user = AuthManager::get_current_user(Some("alice".to_string()), None);
    assert!(user.is_ok(), "Should be able to get current user");
    assert!(!user.unwrap().is_empty(), "Username should not be empty");
}

#[test]
fn current_user_prefers_user_over_username() {
    assert_eq!(
        AuthManager::get_current_user(Some("alice".to_string()), Some("bob".to_string())),
        Ok("alice".to_string())
    );
    assert_eq!(AuthManager::get_current_user(None, Some("bob".to_string())), Ok("bob".to_string()));
    assert_eq!(
        AuthManager::get_current_user(None, None),
        Err("Could not determine current user".to_string())
    );
}

#[test]
fn stand_in_accepts_passwords_longer_than_three_bytes() {
    assert_eq!(AuthManager::authenticate("alice", ""), Ok(false));
    assert_eq!(AuthManager::authenticate("alice", "abc"), Ok(false));
    assert_eq!(AuthManager::authenticate("alice", "abcd"), Ok(true));
    assert_eq!(AuthManager::authenticate("", "a long password"), Ok(true));
    // Two characters of two bytes each.
    assert_eq!(AuthManager::authenticate("alice", "éé"), Ok(true));
    assert_eq!(AuthManager::authenticate("alice", "é"), Ok(false));
}

#[test]
fn authentication_of_the_current_user_hands_on_the_lookup_error() {
    assert_eq!(AuthManager::authenticate_current_user(Ok("alice".to_string()), "abcd"), Ok(true));
    assert_eq!(AuthManager::authenticate_current_user(Ok("alice".to_string()), "abc"), Ok(false));
    assert_eq!(
        AuthManager::authenticate_current_user(Err("no user".to_string()), "abcd"),
        Err("no user".to_string())
    );
}
