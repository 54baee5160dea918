//! Saved accounts: the contents of `~/.config/wechat-cli/accounts.json`
//! and the operations that read and rewrite it.
//!
//! The file itself is read and written by the caller; the functions here
//! take its decoded contents ([`AccountsFile`]) and compute what a lookup
//! returns or what the file holds after a change.
use crate::errors::CliError;
use crate::text::{concat2, copy_opt, ends_with, has_suffix, opt_view, owned, string_views};
use vstd::prelude::*;

verus! {

/// Fixed `WeChat` iLink API root.
pub const ILINK_API_ROOT: &'static str = "https://ilinkai.weixin.qq.com";

/// Base URL for uploading and downloading encrypted media on the `WeChat` CDN.
pub const CDN_BASE_URL: &'static str = "https://novac2c.cdn.weixin.qq.com/c2c";

/// The suffix that every stable iLink user id carries.
pub const WECHAT_USER_ID_SUFFIX: &'static str = "@im.wechat";

/// Persisted authentication credentials for a single `WeChat` account.
#[derive(Debug)]
pub struct AccountData {
    /// Bearer bot token used to authenticate API requests.
    pub bot_token: String,
    /// ISO-8601 timestamp of when this data was saved.
    pub saved_at: String,
    /// The iLink user ID associated with this account.
    pub user_id: String,
    /// Optional routing tag sent as a header on every API request.
    pub route_tag: Option<String>,
}

/// What an [`AccountData`] holds, as plain character sequences.
pub struct AccountView {
    pub bot_token: Seq<char>,
    pub saved_at: Seq<char>,
    pub user_id: Seq<char>,
    pub route_tag: Option<Seq<char>>,
}

impl View for AccountData {
    type V = AccountView;

    open spec fn view(&self) -> AccountView {
        AccountView {
            bot_token: self.bot_token@,
            saved_at: self.saved_at@,
            user_id: self.user_id@,
            route_tag: opt_view(self.route_tag),
        }
    }
}

impl Clone for AccountData {
    fn clone(&self) -> (r: Self)
        ensures
            r@ == self@,
    {
        AccountData {
            bot_token: self.bot_token.clone(),
            saved_at: self.saved_at.clone(),
            user_id: self.user_id.clone(),
            route_tag: copy_opt(&self.route_tag),
        }
    }
}

/// The decoded contents of the accounts file: the saved accounts in order.
#[derive(Debug)]
pub struct AccountsFile {
    pub accounts: Vec<AccountData>,
}

impl View for AccountsFile {
    type V = Seq<AccountView>;

    open spec fn view(&self) -> Seq<AccountView> {
        self.accounts@.map_values(|a: AccountData| a@)
    }
}

impl AccountsFile {
    /// An accounts file with no accounts, which is what a missing file means.
    pub fn new() -> (r: Self)
        ensures
            r@ == Seq::<AccountView>::empty(),
    {
        let r = AccountsFile { accounts: Vec::new() };
        assert(r@ =~= Seq::<AccountView>::empty());
        r
    }
}

/// Some saved account has user id `id`.
pub open spec fn has_user(s: Seq<AccountView>, id: Seq<char>) -> bool {
    exists|i: int| 0 <= i < s.len() && #[trigger] s[i].user_id == id
}

/// `i` is the position of the first saved account with user id `id`.
pub open spec fn is_first_user_index(s: Seq<AccountView>, id: Seq<char>, i: int) -> bool {
    &&& 0 <= i < s.len()
    &&& s[i].user_id == id
    &&& forall|j: int| 0 <= j < i ==> #[trigger] s[j].user_id != id
}

/// The position of the first saved account with user id `id`
/// (meaningful where [`has_user`] holds).
pub open spec fn first_user_index(s: Seq<AccountView>, id: Seq<char>) -> int {
    choose|i: int| is_first_user_index(s, id, i)
}

/// What the accounts file holds after saving `d` under `id`: the first
/// account with that id is overwritten, or `d` is appended.
pub open spec fn saved_accounts(s: Seq<AccountView>, id: Seq<char>, d: AccountView) -> Seq<
    AccountView,
> {
    if has_user(s, id) {
        s.update(first_user_index(s, id), d)
    } else {
        s.push(d)
    }
}

/// What the accounts file holds after deleting user id `id`: every account
/// with that id is gone, the others stay in order.
pub open spec fn without_user(s: Seq<AccountView>, id: Seq<char>) -> Seq<AccountView>
    decreases s.len(),
{
    if s.len() == 0 {
        s
    } else {
        let rest = without_user(s.drop_last(), id);
        if s.last().user_id == id {
            rest
        } else {
            rest.push(s.last())
        }
    }
}

/// The user ids of the saved accounts that end with `@im.wechat`, in order.
pub open spec fn saved_user_ids(s: Seq<AccountView>) -> Seq<Seq<char>>
    decreases s.len(),
{
    if s.len() == 0 {
        Seq::empty()
    } else {
        let rest = saved_user_ids(s.drop_last());
        if has_suffix(s.last().user_id, WECHAT_USER_ID_SUFFIX@) {
            rest.push(s.last().user_id)
        } else {
            rest
        }
    }
}

/// No two saved accounts share a user id.
pub open spec fn user_ids_unique(s: Seq<AccountView>) -> bool {
    forall|i: int, j: int|
        0 <= i < s.len() && 0 <= j < s.len() && i != j ==> #[trigger] s[i].user_id
            != #[trigger] s[j].user_id
}

/// The first position of a user id is unique, so `choose` finds it.
pub proof fn lemma_first_user_index(s: Seq<AccountView>, id: Seq<char>, i: int)
    requires
        is_first_user_index(s, id, i),
    ensures
        first_user_index(s, id) == i,
        has_user(s, id),
{
    let k = first_user_index(s, id);
    assert(is_first_user_index(s, id, k));
    if k < i {
        assert(s[k].user_id != id);
    }
    if i < k {
        assert(s[i].user_id != id);
    }
}

/// Where some account has user id `id`, a first such account exists.
pub proof fn lemma_has_user_first(s: Seq<AccountView>, id: Seq<char>)
    requires
        has_user(s, id),
    ensures
        is_first_user_index(s, id, first_user_index(s, id)),
    decreases s.len(),
{
    let w = choose|i: int| 0 <= i < s.len() && #[trigger] s[i].user_id == id;
    if has_user(s.drop_last(), id) {
        lemma_has_user_first(s.drop_last(), id);
        let k = first_user_index(s.drop_last(), id);
        assert(is_first_user_index(s, id, k)) by {
            assert forall|j: int| 0 <= j < k implies #[trigger] s[j].user_id != id by {
                assert(s.drop_last()[j] == s[j]);
            }
        }
        lemma_first_user_index(s, id, k);
    } else {
        assert(w == s.len() - 1) by {
            if w < s.len() - 1 {
                assert(s.drop_last()[w] == s[w]);
            }
        }
        assert(is_first_user_index(s, id, w)) by {
            assert forall|j: int| 0 <= j < w implies #[trigger] s[j].user_id != id by {
                assert(s.drop_last()[j] == s[j]);
            }
        }
        lemma_first_user_index(s, id, w);
    }
}

/// Deleting removes exactly the accounts with the id: an account stays
/// iff its id differs, and the length shrinks iff some account had the id.
pub proof fn lemma_without_user(s: Seq<AccountView>, id: Seq<char>)
    ensures
        without_user(s, id).len() <= s.len(),
        without_user(s, id).len() == s.len() <==> !has_user(s, id),
        !has_user(s, id) ==> without_user(s, id) == s,
        forall|i: int|
            0 <= i < without_user(s, id).len() ==> #[trigger] without_user(s, id)[i].user_id != id,
    decreases s.len(),
{
    if s.len() > 0 {
        let t = s.drop_last();
        lemma_without_user(t, id);
        if has_user(t, id) {
            let w = choose|i: int| 0 <= i < t.len() && #[trigger] t[i].user_id == id;
            assert(s[w].user_id == id);
        }
        if has_user(s, id) && !has_user(t, id) {
            let w = choose|i: int| 0 <= i < s.len() && #[trigger] s[i].user_id == id;
            if w < s.len() - 1 {
                assert(t[w].user_id == id);
            }
        }
        if !has_user(s, id) {
            assert(s.last().user_id != id) by {
                if s.last().user_id == id {
                    assert(s[s.len() - 1].user_id == id);
                }
            }
            assert(!has_user(t, id)) by {
                if has_user(t, id) {
                    let w = choose|i: int| 0 <= i < t.len() && #[trigger] t[i].user_id == id;
                    assert(s[w].user_id == id);
                }
            }
            assert(t.push(s.last()) =~= s);
        }
    }
}

/// Returns the saved user ids that end with `@im.wechat`, in file order.
pub fn get_account_ids(accounts: &AccountsFile) -> (ids: Vec<String>)
    ensures
        string_views(ids@) == saved_user_ids(accounts@),
{
    let mut ids: Vec<String> = Vec::new();
    let mut i: usize = 0;
    while i < accounts.accounts.len()
        invariant
            i <= accounts.accounts.len(),
            string_views(ids@) == saved_user_ids(accounts@.take(i as int)),
        decreases accounts.accounts.len() - i,
    {
        let account = &accounts.accounts[i];
        assert(accounts@.take(i + 1).drop_last() =~= accounts@.take(i as int));
        assert(accounts@.take(i + 1).last() == account@);
        let ghost before = ids@;
        if ends_with(account.user_id.as_str(), WECHAT_USER_ID_SUFFIX) {
            ids.push(account.user_id.clone());
            assert(string_views(ids@) =~= string_views(before).push(account.user_id@));
        }
        i = i + 1;
    }
    assert(accounts@.take(i as int) =~= accounts@);
    ids
}

/// Finds the first saved account with the given user id: its position, or
/// `None` where no account has that id.
pub fn find_account(accounts: &AccountsFile, account_id: &str) -> (r: Option<usize>)
    ensures
        match r {
            Some(i) => is_first_user_index(accounts@, account_id@, i as int) && first_user_index(
                accounts@,
                account_id@,
            ) == i,
            None => !has_user(accounts@, account_id@),
        },
{
    let mut i: usize = 0;
    while i < accounts.accounts.len()
        invariant
            i <= accounts.accounts.len(),
            forall|j: int| 0 <= j < i ==> #[trigger] accounts@[j].user_id != account_id@,
        decreases accounts.accounts.len() - i,
    {
        if crate::text::same_text(accounts.accounts[i].user_id.as_str(), account_id) {
            assert(accounts@[i as int].user_id == account_id@);
            proof {
                lemma_first_user_index(accounts@, account_id@, i as int);
            }
            return Some(i);
        }
        assert(accounts@[i as int].user_id != account_id@);
        i = i + 1;
    }
    assert(!has_user(accounts@, account_id@)) by {
        if has_user(accounts@, account_id@) {
            let w = choose|k: int| 0 <= k < accounts@.len() && #[trigger] accounts@[k].user_id
                == account_id@;
            assert(accounts@[w].user_id != account_id@);
        }
    }
    None
}

/// Loads the saved credentials for the given stable user ID: the first
/// account with that id.
pub fn get_account_data(accounts: &AccountsFile, account_id: &str) -> (r: Result<
    AccountData,
    CliError,
>)
    ensures
        match r {
            Ok(d) => has_user(accounts@, account_id@) && d@ == accounts@[first_user_index(
                accounts@,
                account_id@,
            )],
            Err(e) => !has_user(accounts@, account_id@) && (e matches CliError::AccountNotFound {
                account_id: a,
            } && a@ == account_id@),
        },
{
    match find_account(accounts, account_id) {
        Some(i) => {
            proof {
                lemma_first_user_index(accounts@, account_id@, i as int);
            }
            Ok(accounts.accounts[i].clone())
        },
        None => Err(CliError::AccountNotFound { account_id: owned(account_id) }),
    }
}

/// Saves credentials for the given stable user ID: the first account with
/// that id is overwritten, or the credentials are appended.
pub fn save_account_data(accounts: &mut AccountsFile, account_id: &str, data: &AccountData)
    ensures
        final(accounts)@ == saved_accounts(old(accounts)@, account_id@, data@),
{
    match find_account(accounts, account_id) {
        Some(i) => {
            proof {
                lemma_first_user_index(accounts@, account_id@, i as int);
            }
            let ghost before = accounts@;
            accounts.accounts.set(i, data.clone());
            assert(accounts@ =~= before.update(i as int, data@));
        },
        None => {
            let ghost before = accounts@;
            accounts.accounts.push(data.clone());
            assert(accounts@ =~= before.push(data@));
        },
    }
}

/// Deletes every saved account with the given stable user ID; fails when
/// there is none.
pub fn delete_account_data(accounts: &mut AccountsFile, account_id: &str) -> (r: Result<(), CliError>)
    ensures
        final(accounts)@ == without_user(old(accounts)@, account_id@),
        r is Ok <==> has_user(old(accounts)@, account_id@),
        r matches Err(e) ==> (e matches CliError::AccountNotFound { account_id: a } && a@
            == account_id@),
{
    let mut kept: Vec<AccountData> = Vec::new();
    let mut i: usize = 0;
    let ghost s = accounts@;
    while i < accounts.accounts.len()
        invariant
            s == accounts@,
            i <= accounts.accounts.len(),
            kept@.map_values(|a: AccountData| a@) == without_user(s.take(i as int), account_id@),
        decreases accounts.accounts.len() - i,
    {
        let account = &accounts.accounts[i];
        assert(s.take(i + 1).drop_last() =~= s.take(i as int));
        assert(s.take(i + 1).last() == account@);
        let ghost before = kept@.map_values(|a: AccountData| a@);
        if !crate::text::same_text(account.user_id.as_str(), account_id) {
            kept.push(account.clone());
            assert(kept@.map_values(|a: AccountData| a@) =~= before.push(account@));
        }
        i = i + 1;
    }
    assert(s.take(i as int) =~= s);
    proof {
        lemma_without_user(s, account_id@);
    }
    let original_len = accounts.accounts.len();
    accounts.accounts = kept;
    assert(accounts@ == without_user(s, account_id@));
    if accounts.accounts.len() == original_len {
        Err(CliError::AccountNotFound { account_id: owned(account_id) })
    } else {
        Ok(())
    }
}

/// Returns the saved account at the given index (`account list` order).
pub fn account_at(accounts: &AccountsFile, index: usize) -> (r: Result<AccountData, CliError>)
    ensures
        match r {
            Ok(d) => index < accounts@.len() && d@ == accounts@[index as int],
            Err(e) => index >= accounts@.len() && e == CliError::AccountIndexNotFound { index },
        },
{
    if index < accounts.accounts.len() {
        Ok(accounts.accounts[index].clone())
    } else {
        Err(CliError::AccountIndexNotFound { index })
    }
}

/// Removes the saved account at the given index and returns it.
pub fn delete_account_at(accounts: &mut AccountsFile, index: usize) -> (r: Result<
    AccountData,
    CliError,
>)
    ensures
        match r {
            Ok(d) => index < old(accounts)@.len() && d@ == old(accounts)@[index as int]
                && final(accounts)@ == old(accounts)@.remove(index as int),
            Err(e) => index >= old(accounts)@.len() && e == CliError::AccountIndexNotFound {
                index,
            } && final(accounts)@ == old(accounts)@,
        },
{
    if index < accounts.accounts.len() {
        let ghost before = accounts@;
        let d = accounts.accounts.remove(index);
        assert(accounts@ =~= before.remove(index as int));
        Ok(d)
    } else {
        Err(CliError::AccountIndexNotFound { index })
    }
}

/// `a` joined with the path `b`, as `Path::join` does it on Unix: an
/// absolute `b` (one that starts with `/`) replaces `a`; otherwise a
/// separator is inserted unless `a` is empty or already ends with one.
pub open spec fn join_path(a: Seq<char>, b: Seq<char>) -> Seq<char> {
    if b.len() > 0 && b[0] == '/' {
        b
    } else if a.len() == 0 {
        b
    } else if a.last() == '/' {
        a + b
    } else {
        a + seq!['/'] + b
    }
}

/// Joins a path onto a base path (`Path::join`).
pub fn join(a: &str, b: &str) -> (r: String)
    ensures
        r@ == join_path(a@, b@),
{
    let m = b.unicode_len();
    if m > 0 && b.get_char(0) == '/' {
        return owned(b);
    }
    let n = a.unicode_len();
    if n == 0 {
        owned(b)
    } else if a.get_char(n - 1) == '/' {
        concat2(a, b)
    } else {
        proof {
            reveal_strlit("/");
        }
        assert("/"@ =~= seq!['/']);
        crate::text::concat3(a, "/", b)
    }
}

/// The location of the accounts file under the given home directory:
/// `<home>/.config/wechat-cli/accounts.json`.
pub fn accounts_file_path(home: &str) -> (r: String)
    ensures
        r@ == join_path(join_path(join_path(home@, ".config"@), "wechat-cli"@), "accounts.json"@),
{
    let a = join(home, ".config");
    let b = join(a.as_str(), "wechat-cli");
    join(b.as_str(), "accounts.json")
}

/// Appending an account keeps the first position of every id already
/// present, and puts the first position of a new id at the end.
pub proof fn lemma_push_first_index(t: Seq<AccountView>, x: AccountView, id: Seq<char>)
    ensures
        has_user(t.push(x), id) <==> (has_user(t, id) || x.user_id == id),
        has_user(t, id) ==> first_user_index(t.push(x), id) == first_user_index(t, id),
        !has_user(t, id) && x.user_id == id ==> first_user_index(t.push(x), id) == t.len(),
{
    let u = t.push(x);
    if has_user(t, id) {
        lemma_has_user_first(t, id);
        let k = first_user_index(t, id);
        assert(is_first_user_index(u, id, k)) by {
            assert forall|j: int| 0 <= j < k implies #[trigger] u[j].user_id != id by {
                assert(u[j] == t[j]);
            }
        }
        lemma_first_user_index(u, id, k);
    } else if x.user_id == id {
        assert(is_first_user_index(u, id, t.len() as int)) by {
            assert forall|j: int| 0 <= j < t.len() implies #[trigger] u[j].user_id != id by {
                assert(u[j] == t[j]);
                if t[j].user_id == id {
                    assert(has_user(t, id));
                }
            }
        }
        lemma_first_user_index(u, id, t.len() as int);
    } else {
        if has_user(u, id) {
            let w = choose|i: int| 0 <= i < u.len() && #[trigger] u[i].user_id == id;
            if w < t.len() {
                assert(u[w] == t[w]);
                assert(has_user(t, id));
            }
        }
    }
}

/// Read after write: once credentials are saved under their own user id,
/// looking that id up gives exactly those credentials.
pub proof fn law_lookup_after_save(s: Seq<AccountView>, id: Seq<char>, d: AccountView)
    requires
        d.user_id == id,
    ensures
        has_user(saved_accounts(s, id, d), id),
        saved_accounts(s, id, d)[first_user_index(saved_accounts(s, id, d), id)] == d,
{
    let u = saved_accounts(s, id, d);
    if has_user(s, id) {
        lemma_has_user_first(s, id);
        let k = first_user_index(s, id);
        assert(is_first_user_index(u, id, k)) by {
            assert forall|j: int| 0 <= j < k implies #[trigger] u[j].user_id != id by {
                assert(u[j] == s[j]);
            }
        }
        lemma_first_user_index(u, id, k);
    } else {
        lemma_push_first_index(s, d, id);
    }
}

/// Saving credentials under one user id leaves the lookup of every other
/// user id as it was.
pub proof fn law_save_keeps_other_accounts(
    s: Seq<AccountView>,
    id: Seq<char>,
    d: AccountView,
    other: Seq<char>,
)
    requires
        d.user_id == id,
        other != id,
    ensures
        has_user(saved_accounts(s, id, d), other) == has_user(s, other),
        has_user(s, other) ==> saved_accounts(s, id, d)[first_user_index(
            saved_accounts(s, id, d),
            other,
        )] == s[first_user_index(s, other)],
{
    let u = saved_accounts(s, id, d);
    if has_user(s, id) {
        lemma_has_user_first(s, id);
        let k = first_user_index(s, id);
        assert(has_user(u, other) == has_user(s, other)) by {
            if has_user(s, other) {
                let w = choose|i: int| 0 <= i < s.len() && #[trigger] s[i].user_id == other;
                assert(u[w].user_id == other);
            }
            if has_user(u, other) {
                let w = choose|i: int| 0 <= i < u.len() && #[trigger] u[i].user_id == other;
                assert(s[w].user_id == other);
            }
        }
        if has_user(s, other) {
            lemma_has_user_first(s, other);
            let m = first_user_index(s, other);
            assert(m != k);
            assert(is_first_user_index(u, other, m)) by {
                assert forall|j: int| 0 <= j < m implies #[trigger] u[j].user_id != other by {
                    if j != k {
                        assert(u[j] == s[j]);
                    }
                }
            }
            lemma_first_user_index(u, other, m);
        }
    } else {
        lemma_push_first_index(s, d, other);
        if has_user(s, other) {
            lemma_has_user_first(s, other);
        }
    }
}

/// Saving credentials under their own user id never creates a second
/// account for one id: distinct ids stay distinct.
pub proof fn law_save_keeps_ids_unique(s: Seq<AccountView>, id: Seq<char>, d: AccountView)
    requires
        d.user_id == id,
        user_ids_unique(s),
    ensures
        user_ids_unique(saved_accounts(s, id, d)),
{
    let u = saved_accounts(s, id, d);
    if has_user(s, id) {
        lemma_has_user_first(s, id);
        let k = first_user_index(s, id);
        assert forall|i: int, j: int|
            0 <= i < u.len() && 0 <= j < u.len() && i != j implies #[trigger] u[i].user_id
            != #[trigger] u[j].user_id by {
            assert(u[i].user_id == s[i].user_id);
            assert(u[j].user_id == s[j].user_id);
        }
    } else {
        assert forall|i: int, j: int|
            0 <= i < u.len() && 0 <= j < u.len() && i != j implies #[trigger] u[i].user_id
            != #[trigger] u[j].user_id by {
            if i < s.len() && j < s.len() {
                assert(u[i] == s[i] && u[j] == s[j]);
            } else if i < s.len() {
                assert(u[i] == s[i]);
                if s[i].user_id == id {
                    assert(has_user(s, id));
                }
            } else {
                assert(u[j] == s[j]);
                if s[j].user_id == id {
                    assert(has_user(s, id));
                }
            }
        }
    }
}

/// After deleting a user id, looking it up finds nothing; the lookup of
/// every other user id is as before.
pub proof fn law_lookup_after_delete(s: Seq<AccountView>, id: Seq<char>, other: Seq<char>)
    requires
        other != id,
    ensures
        !has_user(without_user(s, id), id),
        has_user(without_user(s, id), other) == has_user(s, other),
        has_user(s, other) ==> without_user(s, id)[first_user_index(without_user(s, id), other)]
            == s[first_user_index(s, other)],
    decreases s.len(),
{
    lemma_without_user(s, id);
    let w = without_user(s, id);
    if has_user(w, id) {
        let k = choose|i: int| 0 <= i < w.len() && #[trigger] w[i].user_id == id;
        assert(w[k].user_id != id);
    }
    if s.len() > 0 {
        let t = s.drop_last();
        let x = s.last();
        assert(t.push(x) =~= s);
        law_lookup_after_delete(t, id, other);
        let wt = without_user(t, id);
        lemma_push_first_index(t, x, other);
        if x.user_id == id {
            assert(w == wt);
        } else {
            assert(w == wt.push(x));
            lemma_push_first_index(wt, x, other);
        }
        if has_user(t, other) {
            lemma_has_user_first(t, other);
            lemma_has_user_first(wt, other);
            assert(s[first_user_index(t, other)] == t[first_user_index(t, other)]);
            assert(w[first_user_index(wt, other)] == wt[first_user_index(wt, other)]);
        }
    }
}

/// Every id that `get_account_ids` reports ends with `@im.wechat`.
pub proof fn law_saved_ids_carry_suffix(s: Seq<AccountView>)
    ensures
        forall|i: int|
            0 <= i < saved_user_ids(s).len() ==> has_suffix(
                #[trigger] saved_user_ids(s)[i],
                WECHAT_USER_ID_SUFFIX@,
            ),
    decreases s.len(),
{
    if s.len() > 0 {
        law_saved_ids_carry_suffix(s.drop_last());
        let rest = saved_user_ids(s.drop_last());
        assert forall|i: int| 0 <= i < saved_user_ids(s).len() implies has_suffix(
            #[trigger] saved_user_ids(s)[i],
            WECHAT_USER_ID_SUFFIX@,
        ) by {
            if i < rest.len() {
                assert(saved_user_ids(s)[i] == rest[i]);
            }
        }
    }
}

/// Saving never moves an account. Where no account has the user id, the
/// new account is appended after all the others; where one has it, the
/// first such account is overwritten in place and every other account
/// keeps its position and contents.
pub proof fn law_save_keeps_positions(s: Seq<AccountView>, id: Seq<char>, d: AccountView)
    requires
        d.user_id == id,
    ensures
        (forall|k: int| 0 <= k < s.len() ==> #[trigger] s[k].user_id != id) ==> saved_accounts(
            s,
            id,
            d,
        ) == s.push(d),
        (exists|k: int| 0 <= k < s.len() && #[trigger] s[k].user_id == id) ==> ({
            let u = saved_accounts(s, id, d);
            &&& u.len() == s.len()
            &&& exists|k: int|
                #![trigger s[k]]
                0 <= k < s.len() && s[k].user_id == id && u[k] == d && (forall|j: int|
                    0 <= j < k ==> #[trigger] s[j].user_id != id) && (forall|j: int|
                    0 <= j < s.len() && j != k ==> #[trigger] u[j] == s[j])
        }),
{
    if has_user(s, id) {
        lemma_has_user_first(s, id);
        let k = first_user_index(s, id);
        let u = saved_accounts(s, id, d);
        assert(u[k] == d);
        assert(forall|j: int| 0 <= j < s.len() && j != k ==> #[trigger] u[j] == s[j]);
        assert(s[k].user_id == id);
    } else {
        assert forall|k: int| 0 <= k < s.len() implies #[trigger] s[k].user_id != id by {
            if s[k].user_id == id {
                assert(has_user(s, id));
            }
        }
    }
}

} // verus!
