//! Saved-account sessions: resolving which saved user to act for and
//! loading its credentials.
use crate::errors::CliError;
use crate::storage::{
    first_user_index, get_account_data, get_account_ids, has_user, saved_user_ids, AccountData,
    AccountView, AccountsFile,
};
use crate::text::{copy_opt, owned, same_text, string_views};
use crate::wechat::api::WeixinApiClient;
use vstd::prelude::*;

verus! {

/// A saved user together with its credentials.
#[derive(Debug)]
pub struct AccountSession {
    pub user_id: String,
    pub data: AccountData,
}

/// Every id that `get_account_ids` reports belongs to some saved account.
pub proof fn lemma_saved_id_has_user(s: Seq<AccountView>, i: int)
    requires
        0 <= i < saved_user_ids(s).len(),
    ensures
        has_user(s, saved_user_ids(s)[i]),
    decreases s.len(),
{
    let rest = saved_user_ids(s.drop_last());
    if i < rest.len() {
        assert(saved_user_ids(s)[i] == rest[i]);
        lemma_saved_id_has_user(s.drop_last(), i);
        let w = choose|k: int| 0 <= k < s.drop_last().len() && #[trigger] s.drop_last()[k].user_id
            == rest[i];
        assert(s[w].user_id == rest[i]);
    } else {
        assert(saved_user_ids(s)[i] == s.last().user_id);
        assert(s[s.len() - 1].user_id == s.last().user_id);
    }
}

/// The user to act for: the one given, else the first saved user id.
pub fn resolve_user_id(explicit: Option<&str>, accounts: &AccountsFile) -> (r: Result<
    String,
    CliError,
>)
    ensures
        match explicit {
            Some(u) => r matches Ok(s) && s@ == u@,
            None => if saved_user_ids(accounts@).len() == 0 {
                r == Err::<String, CliError>(CliError::NoSavedUser)
            } else {
                r matches Ok(s) && s@ == saved_user_ids(accounts@)[0]
            },
        },
{
    if let Some(user_id) = explicit {
        return Ok(owned(user_id));
    }
    let mut ids = get_account_ids(accounts);
    if ids.len() == 0 {
        return Err(CliError::NoSavedUser);
    }
    assert(string_views(ids@)[0] == ids@[0]@);
    Ok(ids.swap_remove(0))
}

/// Whether `id` is among `ids`.
fn contains_text(ids: &Vec<String>, id: &str) -> (r: bool)
    ensures
        r == string_views(ids@).contains(id@),
{
    let mut i: usize = 0;
    while i < ids.len()
        invariant
            i <= ids.len(),
            forall|j: int| 0 <= j < i ==> #[trigger] ids@[j]@ != id@,
        decreases ids.len() - i,
    {
        if same_text(ids[i].as_str(), id) {
            assert(string_views(ids@)[i as int] == id@);
            return true;
        }
        i = i + 1;
    }
    assert(!string_views(ids@).contains(id@)) by {
        if string_views(ids@).contains(id@) {
            let k = choose|k: int| 0 <= k < string_views(ids@).len() && string_views(ids@)[k] == id@;
            assert(ids@[k]@ == id@);
        }
    }
    false
}

/// Loads the session of the given user, or of the first saved user. The
/// user must be among the saved user ids; its credentials are those of the
/// first account with that id.
pub fn load_account(user_id: Option<&str>, accounts: &AccountsFile) -> (r: Result<
    AccountSession,
    CliError,
>)
    ensures
        match user_id {
            Some(u) => if saved_user_ids(accounts@).contains(u@) {
                r matches Ok(session) && session.user_id@ == u@ && session.data@
                    == accounts@[first_user_index(accounts@, u@)]
            } else {
                r matches Err(CliError::UserNotFound { user_id: e }) && e@ == u@
            },
            None => if saved_user_ids(accounts@).len() == 0 {
                r == Err::<AccountSession, CliError>(CliError::NoSavedUser)
            } else {
                let u = saved_user_ids(accounts@)[0];
                r matches Ok(session) && session.user_id@ == u && session.data@
                    == accounts@[first_user_index(accounts@, u)]
            },
        },
{
    let user_id = resolve_user_id(user_id, accounts)?;
    let ids = get_account_ids(accounts);
    if !contains_text(&ids, user_id.as_str()) {
        return Err(CliError::UserNotFound { user_id });
    }
    proof {
        let k = choose|k: int| 0 <= k < saved_user_ids(accounts@).len() && saved_user_ids(accounts@)[k] == user_id@;
        lemma_saved_id_has_user(accounts@, k);
        if saved_user_ids(accounts@).len() > 0 {
            assert(saved_user_ids(accounts@).contains(saved_user_ids(accounts@)[0]));
        }
    }
    let data = get_account_data(accounts, user_id.as_str())?;
    Ok(AccountSession { user_id, data })
}

/// The sessions of all saved users, in the order of the saved user ids.
pub fn list_accounts(accounts: &AccountsFile) -> (r: Vec<AccountSession>)
    ensures
        r@.len() == saved_user_ids(accounts@).len(),
        forall|i: int|
            0 <= i < r@.len() ==> (#[trigger] r@[i]).user_id@ == saved_user_ids(accounts@)[i]
                && r@[i].data@ == accounts@[first_user_index(accounts@, saved_user_ids(accounts@)[i])],
{
    let ids = get_account_ids(accounts);
    let mut sessions: Vec<AccountSession> = Vec::new();
    let mut i: usize = 0;
    while i < ids.len()
        invariant
            i <= ids.len(),
            string_views(ids@) == saved_user_ids(accounts@),
            sessions@.len() == i,
            forall|j: int|
                0 <= j < i ==> (#[trigger] sessions@[j]).user_id@ == saved_user_ids(accounts@)[j]
                    && sessions@[j].data@ == accounts@[first_user_index(
                    accounts@,
                    saved_user_ids(accounts@)[j],
                )],
        decreases ids.len() - i,
    {
        assert(string_views(ids@)[i as int] == ids@[i as int]@);
        proof {
            lemma_saved_id_has_user(accounts@, i as int);
        }
        let id = ids[i].clone();
        match get_account_data(accounts, id.as_str()) {
            Ok(data) => {
                sessions.push(AccountSession { user_id: id, data });
            },
            Err(_) => {
                assert(false);
            },
        }
        i = i + 1;
    }
    sessions
}

/// The client that acts for a session.
pub fn build_client(session: &AccountSession) -> (r: WeixinApiClient)
    ensures
        r.spec_token() == session.data.bot_token@,
        r.spec_route_tag() == crate::text::opt_view(session.data.route_tag),
{
    WeixinApiClient::new(session.data.bot_token.as_str(), copy_opt(&session.data.route_tag))
}

} // verus!
