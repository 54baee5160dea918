use wechat_cli::commands::get_context_token::{
    extract_context_token, first_context_token, poll_step, resolve_target, PollAction, PollEvent,
    PollState, Target,
};
use wechat_cli::storage::{AccountData, AccountsFile};
use wechat_cli::wechat::models::{GetUpdatesResponse, InboundMessage};

fn no_accounts() -> AccountsFile {
    AccountsFile::new()
}

fn account(user_id: &str, token: &str) -> AccountData {
    AccountData {
        bot_token: token.to_string(),
        saved_at: "2025-01-01T00:00:00Z".to_string(),
        user_id: user_id.to_string(),
        route_tag: None,
    }
}

fn message(from: &str, to: &str, token: &str) -> InboundMessage {
    InboundMessage {
        from_user_id: from.to_string(),
        to_user_id: to.to_string(),
        context_token: token.to_string(),
        item_list: vec![],
    }
}

#[test]
fn get_context_token_test_account_with_explicit_creds_is_rejected() {
    let result = resolve_target(Some(0), None, Some("token"), None, &no_accounts());
    assert!(result.is_err());
    let err_msg = result.unwrap_err().message();
    assert!(
        err_msg.contains("cannot be used with"),
        "Expected error about mixing modes, got: {}",
        err_msg
    );
}

#[test]
fn get_context_token_test_explicit_creds_missing_bot_token_fails() {
    let result = resolve_target(None, Some("user@im.wechat"), None, None, &no_accounts());
    assert!(result.is_err());
    let err_msg = result.unwrap_err().message();
    assert!(
        err_msg.contains("bot-token"),
        "Expected error about missing bot-token, got: {}",
        err_msg
    );
}

#[test]
fn get_context_token_test_explicit_creds_missing_user_id_fails() {
    let result = resolve_target(None, None, Some("token"), None, &no_accounts());
    assert!(result.is_err());
    let err_msg = result.unwrap_err().message();
    assert!(
        err_msg.contains("user-id"),
        "Expected error about missing user-id, got: {}",
        err_msg
    );
}

#[test]
fn get_context_token_test_account_with_user_id_is_rejected() {
    let result = resolve_target(Some(0), Some("user@im.wechat"), None, None, &no_accounts());
    assert!(result.is_err());
    let err_msg = result.unwrap_err().message();
    assert!(
        err_msg.contains("cannot be used with"),
        "Expected error about cannot use together, got: {}",
        err_msg
    );
}

#[test]
fn without_any_mode_the_request_is_refused() {
    let mut accounts = AccountsFile::new();
    accounts.accounts.push(account("b@im.wechat", "t1"));
    let err = resolve_target(None, None, None, None, &accounts).unwrap_err();
    assert!(err.message().contains("must specify either"), "got: {}", err.message());
    let err = resolve_target(None, None, None, None, &no_accounts()).unwrap_err();
    assert!(err.message().contains("must specify either"), "got: {}", err.message());
    match resolve_target(Some(0), None, None, None, &accounts).unwrap() {
        Target::Saved { user_id, client } => {
            assert_eq!(user_id, "b@im.wechat");
            assert_eq!(client.token(), "t1");
        }
        other => panic!("unexpected {other:?}"),
    }
}

#[test]
fn only_messages_from_the_bound_user_yield_a_token() {
    assert_eq!(extract_context_token("me", &message("me", "bot", "ctx")), Some("ctx".to_string()));
    assert_eq!(extract_context_token("me", &message("bot", "me", "ctx")), None);
    assert_eq!(extract_context_token("me", &message("me", "", "ctx")), None);
    assert_eq!(extract_context_token("me", &message("me", "bot", "")), None);
    let messages = vec![message("x", "bot", "c0"), message("me", "bot", "c1"), message("me", "bot", "c2")];
    assert_eq!(first_context_token("me", &messages), Some("c1".to_string()));
    assert_eq!(first_context_token("nobody", &messages), None);
}

#[test]
fn three_failures_back_off_then_reset() {
    let mut state = PollState::new();
    let mut seen = vec![];
    for _ in 0..4 {
        match poll_step(&mut state, "me", &PollEvent::Failed) {
            PollAction::Backoff { attempt, seconds } => seen.push((attempt, seconds, state.consecutive_errors)),
            other => panic!("unexpected {other:?}"),
        }
    }
    assert_eq!(seen, vec![(1, 2, 1), (2, 2, 2), (3, 30, 0), (1, 2, 1)]);
}

#[test]
fn updates_reset_the_count_and_emit_the_token() {
    let mut state = PollState { consecutive_errors: 2 };
    let resp = GetUpdatesResponse {
        get_updates_buf: None,
        msg_list: None,
        msgs: Some(vec![message("me", "bot", "tok")]),
    };
    match poll_step(&mut state, "me", &PollEvent::Updates(resp)) {
        PollAction::Emit(t) => assert_eq!(t, "tok"),
        other => panic!("unexpected {other:?}"),
    }
    assert_eq!(state.consecutive_errors, 0);

    let mut state = PollState { consecutive_errors: 1 };
    assert!(matches!(poll_step(&mut state, "me", &PollEvent::TimedOut), PollAction::PollAgain));
    assert_eq!(state.consecutive_errors, 1);
    match poll_step(&mut state, "me", &PollEvent::SessionExpired) {
        PollAction::Abort(e) => assert_eq!(e.message(), "session expired for user `me`, re-run `wechat-cli login`"),
        other => panic!("unexpected {other:?}"),
    }
}
