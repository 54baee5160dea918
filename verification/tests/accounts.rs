use wechat_cli::account::{build_client, list_accounts, load_account, resolve_user_id};
use wechat_cli::commands::account::{account_listing, add_account_data, new_account_data};
use wechat_cli::storage::{AccountData, AccountsFile};

fn account(user_id: &str, token: &str, tag: Option<&str>) -> AccountData {
    AccountData {
        bot_token: token.to_string(),
        saved_at: "2025-01-01T00:00:00Z".to_string(),
        user_id: user_id.to_string(),
        route_tag: tag.map(str::to_string),
    }
}

#[test]
fn new_accounts_are_checked() {
    assert_eq!(
        new_account_data("bob", "tok", None, "now").unwrap_err().message(),
        "user_id `bob` must end with `@im.wechat`"
    );
    assert_eq!(
        new_account_data("bob@im.wechat", " \t", None, "now").unwrap_err().message(),
        "bot_token cannot be empty"
    );
    let d = new_account_data("bob@im.wechat", "tok", Some("rt"), "now").unwrap();
    assert_eq!(d.route_tag.as_deref(), Some("rt"));
    assert_eq!(d.saved_at, "now");
    let d = add_account_data("bob@im.wechat", "tok", None).unwrap();
    assert_eq!(d.user_id, "bob@im.wechat");
    assert!(!d.saved_at.is_empty());
}

#[test]
fn listing_prints_every_account() {
    assert_eq!(account_listing(&AccountsFile::new()), vec!["no saved accounts".to_string()]);
    let mut accounts = AccountsFile::new();
    accounts.accounts.push(account("a@im.wechat", "t1", None));
    accounts.accounts.push(account("b@im.wechat", "t2", Some("rt")));
    let lines = account_listing(&accounts);
    let expected: Vec<String> = [
        "account: 0", "bot_token: t1", "user_id: a@im.wechat", "route_tag: -", "saved_at: 2025-01-01T00:00:00Z", "",
        "account: 1", "bot_token: t2", "user_id: b@im.wechat", "route_tag: rt", "saved_at: 2025-01-01T00:00:00Z", "",
    ]
    .iter()
    .map(|s| s.to_string())
    .collect();
    assert_eq!(lines, expected);
}

#[test]
fn sessions_of_saved_users() {
    let mut accounts = AccountsFile::new();
    accounts.accounts.push(account("legacy", "t0", None));
    accounts.accounts.push(account("a@im.wechat", "t1", Some("rt")));
    assert_eq!(resolve_user_id(Some("x"), &accounts).unwrap(), "x");
    assert_eq!(resolve_user_id(None, &accounts).unwrap(), "a@im.wechat");
    let session = load_account(None, &accounts).unwrap();
    assert_eq!(session.user_id, "a@im.wechat");
    assert_eq!(session.data.bot_token, "t1");
    let client = build_client(&session);
    assert_eq!(client.token(), "t1");
    assert_eq!(client.route_tag().as_deref(), Some("rt"));
    assert_eq!(load_account(Some("legacy"), &accounts).unwrap_err().message(), "user `legacy` not found");
    let sessions = list_accounts(&accounts);
    assert_eq!(sessions.len(), 1);
    assert_eq!(sessions[0].user_id, "a@im.wechat");
    assert_eq!(
        resolve_user_id(None, &AccountsFile::new()).unwrap_err().message(),
        "no saved user found, run `wechat-cli login` first"
    );
}
