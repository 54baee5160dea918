use wechat_cli::storage::{
    account_at, accounts_file_path, delete_account_at, delete_account_data, get_account_data,
    get_account_ids, save_account_data, AccountData, AccountsFile,
};

fn account(user_id: &str, token: &str) -> AccountData {
    AccountData {
        bot_token: token.to_string(),
        saved_at: "2025-01-01T00:00:00Z".to_string(),
        user_id: user_id.to_string(),
        route_tag: None,
    }
}

#[test]
fn lookup_after_save_returns_the_saved_data() {
    let mut accounts = AccountsFile::new();
    save_account_data(&mut accounts, "a@im.wechat", &account("a@im.wechat", "t1"));
    save_account_data(&mut accounts, "b@im.wechat", &account("b@im.wechat", "t2"));
    save_account_data(&mut accounts, "a@im.wechat", &account("a@im.wechat", "t3"));
    assert_eq!(accounts.accounts.len(), 2);
    assert_eq!(get_account_data(&accounts, "a@im.wechat").unwrap().bot_token, "t3");
    assert_eq!(get_account_data(&accounts, "b@im.wechat").unwrap().bot_token, "t2");
    assert_eq!(accounts.accounts[0].user_id, "a@im.wechat");
}

#[test]
fn missing_account_is_reported() {
    let accounts = AccountsFile::new();
    let err = get_account_data(&accounts, "x").unwrap_err();
    assert_eq!(err.message(), "account `x` not found");
}

#[test]
fn delete_removes_every_entry_of_the_id() {
    let mut accounts = AccountsFile::new();
    accounts.accounts.push(account("a@im.wechat", "t1"));
    accounts.accounts.push(account("b@im.wechat", "t2"));
    accounts.accounts.push(account("a@im.wechat", "t3"));
    delete_account_data(&mut accounts, "a@im.wechat").unwrap();
    assert_eq!(accounts.accounts.len(), 1);
    assert!(get_account_data(&accounts, "a@im.wechat").is_err());
    assert_eq!(get_account_data(&accounts, "b@im.wechat").unwrap().bot_token, "t2");
    let err = delete_account_data(&mut accounts, "a@im.wechat").unwrap_err();
    assert_eq!(err.message(), "account `a@im.wechat` not found");
    assert_eq!(accounts.accounts.len(), 1);
}

#[test]
fn only_wechat_ids_are_listed() {
    let mut accounts = AccountsFile::new();
    accounts.accounts.push(account("user_123", "t"));
    accounts.accounts.push(account("a@im.wechat", "t"));
    accounts.accounts.push(account("im.wechat", "t"));
    accounts.accounts.push(account("b@im.wechat", "t"));
    assert_eq!(get_account_ids(&accounts), vec!["a@im.wechat".to_string(), "b@im.wechat".to_string()]);
}

#[test]
fn accounts_by_index() {
    let mut accounts = AccountsFile::new();
    accounts.accounts.push(account("a@im.wechat", "t1"));
    accounts.accounts.push(account("b@im.wechat", "t2"));
    assert_eq!(account_at(&accounts, 1).unwrap().user_id, "b@im.wechat");
    assert!(account_at(&accounts, 2).is_err());
    let removed = delete_account_at(&mut accounts, 0).unwrap();
    assert_eq!(removed.user_id, "a@im.wechat");
    assert_eq!(accounts.accounts.len(), 1);
    assert_eq!(delete_account_at(&mut accounts, 5).unwrap_err().message(), "account index `5` not found");
}

#[test]
fn accounts_file_lies_under_the_home_directory() {
    assert_eq!(accounts_file_path("/home/me"), "/home/me/.config/wechat-cli/accounts.json");
    assert_eq!(accounts_file_path("/home/me/"), "/home/me/.config/wechat-cli/accounts.json");
    assert_eq!(accounts_file_path(""), ".config/wechat-cli/accounts.json");
}

#[test]
fn join_matches_path_join() {
    for (a, b) in [("/h", "x"), ("/h/", "x"), ("", "x"), ("/h", "/abs"), ("rel", ""), ("/", "x")] {
        let expected = std::path::Path::new(a).join(b);
        assert_eq!(wechat_cli::storage::join(a, b), expected.to_str().unwrap(), "{a:?} + {b:?}");
    }
}
