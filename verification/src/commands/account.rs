//! The `account` command: new accounts, the account listing, and the
//! client of a saved account.
use crate::errors::CliError;
use crate::storage::{AccountData, AccountView, AccountsFile, WECHAT_USER_ID_SUFFIX};
use crate::text::{
    concat2, copy_opt, decimal, ends_with, has_suffix, is_blank, is_blank_text, opt_view, own_opt,
    owned, string_views, u64_to_decimal,
};
use crate::wechat::api::WeixinApiClient;
use vstd::prelude::*;

verus! {

/// The client that acts for a saved account.
pub fn build_client(data: &AccountData) -> (r: WeixinApiClient)
    ensures
        r.spec_token() == data.bot_token@,
        r.spec_route_tag() == opt_view(data.route_tag),
{
    WeixinApiClient::new(data.bot_token.as_str(), copy_opt(&data.route_tag))
}

/// `chrono::Utc::now().to_rfc3339()`: the current time. Nothing is stated
/// of it; it depends on the clock.
#[verifier::external_body]
pub(crate) fn now_rfc3339() -> String {
    chrono::Utc::now().to_rfc3339()
}

/// The credentials of a new account saved at `saved_at`. The user id must
/// end with `@im.wechat` and the bot token must not be blank.
pub fn new_account_data(user_id: &str, bot_token: &str, route_tag: Option<&str>, saved_at: &str) -> (r:
    Result<AccountData, CliError>)
    ensures
        !has_suffix(user_id@, WECHAT_USER_ID_SUFFIX@) ==> (r matches Err(CliError::InvalidUserId {
            user_id: u,
        }) && u@ == user_id@),
        has_suffix(user_id@, WECHAT_USER_ID_SUFFIX@) && is_blank(bot_token@) ==> r == Err::<
            AccountData,
            CliError,
        >(CliError::EmptyBotToken),
        has_suffix(user_id@, WECHAT_USER_ID_SUFFIX@) && !is_blank(bot_token@) ==> (r matches Ok(d)
            && d@ == (AccountView {
            bot_token: bot_token@,
            saved_at: saved_at@,
            user_id: user_id@,
            route_tag: match route_tag {
                Some(t) => Some(t@),
                None => None,
            },
        })),
{
    if !ends_with(user_id, WECHAT_USER_ID_SUFFIX) {
        return Err(CliError::InvalidUserId { user_id: owned(user_id) });
    }
    if is_blank_text(bot_token) {
        return Err(CliError::EmptyBotToken);
    }
    Ok(
        AccountData {
            bot_token: owned(bot_token),
            saved_at: owned(saved_at),
            user_id: owned(user_id),
            route_tag: own_opt(route_tag),
        },
    )
}

/// The credentials of a new account, saved now; checked as
/// [`new_account_data`] checks them.
pub fn add_account_data(user_id: &str, bot_token: &str, route_tag: Option<&str>) -> (r: Result<
    AccountData,
    CliError,
>)
    ensures
        !has_suffix(user_id@, WECHAT_USER_ID_SUFFIX@) ==> (r matches Err(CliError::InvalidUserId {
            user_id: u,
        }) && u@ == user_id@),
        has_suffix(user_id@, WECHAT_USER_ID_SUFFIX@) && is_blank(bot_token@) ==> r == Err::<
            AccountData,
            CliError,
        >(CliError::EmptyBotToken),
        has_suffix(user_id@, WECHAT_USER_ID_SUFFIX@) && !is_blank(bot_token@) ==> (r matches Ok(d)
            && d.bot_token@ == bot_token@ && d.user_id@ == user_id@ && d@.route_tag == match route_tag {
            Some(t) => Some(t@),
            None => None::<Seq<char>>,
        }),
{
    if !ends_with(user_id, WECHAT_USER_ID_SUFFIX) {
        return Err(CliError::InvalidUserId { user_id: owned(user_id) });
    }
    if is_blank_text(bot_token) {
        return Err(CliError::EmptyBotToken);
    }
    let saved_at = now_rfc3339();
    new_account_data(user_id, bot_token, route_tag, saved_at.as_str())
}

/// The lines that describe the saved account at `index`.
pub open spec fn account_block(index: nat, a: AccountView) -> Seq<Seq<char>> {
    seq![
        "account: "@ + decimal(index),
        "bot_token: "@ + a.bot_token,
        "user_id: "@ + a.user_id,
        "route_tag: "@ + match a.route_tag {
            Some(t) => t,
            None => "-"@,
        },
        "saved_at: "@ + a.saved_at,
        Seq::<char>::empty(),
    ]
}

/// The blocks of all saved accounts, in order.
pub open spec fn account_blocks(s: Seq<AccountView>) -> Seq<Seq<char>>
    decreases s.len(),
{
    if s.len() == 0 {
        Seq::empty()
    } else {
        account_blocks(s.drop_last()) + account_block((s.len() - 1) as nat, s.last())
    }
}

/// What `account list` prints, line by line.
pub open spec fn account_listing_spec(s: Seq<AccountView>) -> Seq<Seq<char>> {
    if s.len() == 0 {
        seq!["no saved accounts"@]
    } else {
        account_blocks(s)
    }
}

/// The lines that `account list` prints: each saved account with its
/// index, token, user id, route tag (or `-`) and save time, followed by an
/// empty line; or a note that there are none.
pub fn account_listing(accounts: &AccountsFile) -> (r: Vec<String>)
    ensures
        string_views(r@) == account_listing_spec(accounts@),
{
    let mut lines: Vec<String> = Vec::new();
    if accounts.accounts.len() == 0 {
        lines.push(owned("no saved accounts"));
        assert(string_views(lines@) =~= account_listing_spec(accounts@));
        return lines;
    }
    let mut i: usize = 0;
    while i < accounts.accounts.len()
        invariant
            i <= accounts.accounts.len(),
            string_views(lines@) == account_blocks(accounts@.take(i as int)),
        decreases accounts.accounts.len() - i,
    {
        let a = &accounts.accounts[i];
        let ghost before = string_views(lines@);
        let index_text = u64_to_decimal(i as u64);
        lines.push(concat2("account: ", index_text.as_str()));
        lines.push(concat2("bot_token: ", a.bot_token.as_str()));
        lines.push(concat2("user_id: ", a.user_id.as_str()));
        match &a.route_tag {
            Some(t) => lines.push(concat2("route_tag: ", t.as_str())),
            None => lines.push(concat2("route_tag: ", "-")),
        }
        lines.push(concat2("saved_at: ", a.saved_at.as_str()));
        lines.push(String::new());
        assert(accounts@.take(i + 1).drop_last() =~= accounts@.take(i as int));
        assert(accounts@.take(i + 1).last() == a@);
        assert(string_views(lines@) =~= before + account_block(i as nat, a@));
        i = i + 1;
    }
    assert(accounts@.take(i as int) =~= accounts@);
    lines
}

} // verus!
