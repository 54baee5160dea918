use wechat_cli::commands::send::{
    detect_media_kind, media_sent_notice, require_context_token, resolve_send_target, text_send_request,
    text_sent_notice, SendTarget,
};
use wechat_cli::errors::CliError;
use wechat_cli::storage::{AccountData, AccountsFile};
use wechat_cli::wechat::media::OutboundMediaKind;

fn no_accounts() -> AccountsFile {
    AccountsFile::new()
}

fn one_account() -> AccountsFile {
    let mut accounts = AccountsFile::new();
    accounts.accounts.push(AccountData {
        bot_token: "tok_saved".to_string(),
        saved_at: "2025-01-01T00:00:00Z".to_string(),
        user_id: "saved@im.wechat".to_string(),
        route_tag: Some("tag".to_string()),
    });
    accounts
}

#[test]
fn test_no_auth_params_is_rejected() {
    let result = resolve_send_target(None, None, None, None, &no_accounts());
    assert!(result.is_err());
    let err_msg = result.unwrap_err().message();
    assert!(
        err_msg.contains("must specify either"),
        "Expected error about requiring auth params, got: {}",
        err_msg
    );
}

#[test]
fn send_test_account_with_explicit_creds_is_rejected() {
    let result = resolve_send_target(Some(0), None, Some("token"), None, &no_accounts());
    assert!(result.is_err());
    let err_msg = result.unwrap_err().message();
    assert!(
        err_msg.contains("cannot be used with"),
        "Expected error about mixing modes, got: {}",
        err_msg
    );
}

#[test]
fn send_test_explicit_creds_missing_bot_token_fails() {
    let result = resolve_send_target(None, Some("user@im.wechat"), None, None, &no_accounts());
    assert!(result.is_err());
    let err_msg = result.unwrap_err().message();
    assert!(
        err_msg.contains("bot-token"),
        "Expected error about missing bot-token, got: {}",
        err_msg
    );
}

#[test]
fn send_test_explicit_creds_missing_user_id_fails() {
    let result = resolve_send_target(None, None, Some("token"), None, &no_accounts());
    assert!(result.is_err());
    let err_msg = result.unwrap_err().message();
    assert!(
        err_msg.contains("user-id"),
        "Expected error about missing user-id, got: {}",
        err_msg
    );
}

#[test]
fn send_test_account_with_user_id_is_rejected() {
    let result = resolve_send_target(Some(0), Some("user@im.wechat"), None, None, &no_accounts());
    assert!(result.is_err());
    let err_msg = result.unwrap_err().message();
    assert!(
        err_msg.contains("cannot be used with"),
        "Expected error about cannot use together, got: {}",
        err_msg
    );
}

#[test]
fn explicit_credentials_build_the_target() {
    let result = resolve_send_target(None, Some("u@im.wechat"), Some("tok"), Some("rt"), &no_accounts());
    match result.unwrap() {
        SendTarget::Explicit { user_id, client } => {
            assert_eq!(user_id, "u@im.wechat");
            assert_eq!(client.token(), "tok");
            assert_eq!(client.route_tag(), Some("rt".to_string()));
        }
        other => panic!("expected explicit target, got {other:?}"),
    }
}

#[test]
fn saved_account_by_index() {
    match resolve_send_target(Some(0), None, None, None, &one_account()).unwrap() {
        SendTarget::Saved { user_id, client } => {
            assert_eq!(user_id, "saved@im.wechat");
            assert_eq!(client.token(), "tok_saved");
            assert_eq!(client.route_tag(), Some("tag".to_string()));
        }
        other => panic!("expected saved target, got {other:?}"),
    }
}

#[test]
fn saved_account_index_out_of_range() {
    let err = resolve_send_target(Some(1), None, None, None, &one_account()).unwrap_err();
    assert_eq!(err.message(), "account index `1` not found");
}

#[test]
fn context_token_is_required() {
    assert_eq!(require_context_token("a", Some("ctx")).unwrap(), "ctx");
    let err = require_context_token("me@im.wechat", None).unwrap_err();
    assert_eq!(
        err.message(),
        "missing `--context-token` for `me@im.wechat`; run `wechat-cli get-context-token` for the bound user and pass the printed token"
    );
}

#[test]
fn media_kind_follows_the_file_name() {
    assert_eq!(detect_media_kind("/tmp/photo.png"), OutboundMediaKind::Image);
    assert_eq!(detect_media_kind("/tmp/photo.JPG"), OutboundMediaKind::Image);
    assert_eq!(detect_media_kind("/tmp/notes.txt"), OutboundMediaKind::File);
    assert_eq!(detect_media_kind("/tmp/no_extension"), OutboundMediaKind::File);
}

#[test]
fn text_request_goes_to_the_bound_user() {
    let target = resolve_send_target(Some(0), None, None, None, &one_account()).unwrap();
    assert_eq!(target.user_id(), "saved@im.wechat");
    assert_eq!(target.client().token(), "tok_saved");
    let request = text_send_request(&target, Some("ctx"), "hello").unwrap();
    assert_eq!(request.msg.to_user_id, "saved@im.wechat");
    assert_eq!(request.msg.context_token, "ctx");
    assert_eq!(request.msg.item_list.len(), 1);
    assert_eq!(request.msg.item_list[0].item_type, 1);
    assert_eq!(request.msg.item_list[0].text_item.as_ref().unwrap().text, "hello");
    assert!(request.msg.client_id.starts_with("wechat-cli-"));
    assert_eq!(
        text_send_request(&target, None, "hello").unwrap_err(),
        CliError::MissingContextToken { account_label: "saved@im.wechat".to_string() }
    );
}

#[test]
fn sent_notices_name_the_user_and_the_mode() {
    let saved = resolve_send_target(Some(0), None, None, None, &one_account()).unwrap();
    let explicit = resolve_send_target(None, Some("u@im.wechat"), Some("t"), None, &no_accounts()).unwrap();
    assert_eq!(text_sent_notice(&saved), "sent text message to `saved@im.wechat`");
    assert_eq!(
        text_sent_notice(&explicit),
        "sent text message to `u@im.wechat` using explicit bot token"
    );
    assert_eq!(
        media_sent_notice(&saved, OutboundMediaKind::Image, "./a.png"),
        "sent image `./a.png` to `saved@im.wechat`"
    );
    assert_eq!(
        media_sent_notice(&explicit, OutboundMediaKind::File, "notes.txt"),
        "sent file `notes.txt` to `u@im.wechat` using explicit bot token"
    );
}
