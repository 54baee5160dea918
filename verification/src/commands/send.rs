//! The `send` command: what to send, to whom and with which credentials.
use crate::commands::account::build_client;
use crate::errors::CliError;
use crate::storage::{account_at, AccountsFile};
use crate::text::{concat2, concat3, is_blank, is_blank_text, opt_view, own_opt, owned};
use crate::wechat::api::{text_message_request, WeixinApiClient};
use crate::wechat::media::OutboundMediaKind;
use crate::wechat::models::{SendMessageRequest, CHANNEL_VERSION, MESSAGE_ITEM_TEXT};
use vstd::prelude::*;

verus! {

/// What a `send` delivers: a text, or the file at a path.
#[derive(Debug, PartialEq)]
pub enum SendContent {
    Text(String),
    File(String),
}

/// Decides what to send from `--text`, `--file` and stdin. Exactly one of
/// text and file may be given; with neither, piped stdin is the text,
/// provided it is not blank. `stdin_text` is what stdin held where it is a
/// pipe and neither option was given (it is not looked at otherwise).
pub fn resolve_send_content(
    text: Option<&str>,
    file_path: Option<&str>,
    stdin_text: &str,
    stdin_is_pipe: bool,
) -> (r: Result<SendContent, CliError>)
    ensures
        match (text, file_path) {
            (Some(t), None) => r matches Ok(SendContent::Text(s)) && s@ == t@,
            (None, Some(f)) => r matches Ok(SendContent::File(p)) && p@ == f@,
            (Some(_), Some(_)) => r == Err::<SendContent, CliError>(CliError::TextAndFileTogether),
            (None, None) => if !stdin_is_pipe {
                r == Err::<SendContent, CliError>(CliError::NoSendContent)
            } else if is_blank(stdin_text@) {
                r == Err::<SendContent, CliError>(CliError::EmptyStdin)
            } else {
                r matches Ok(SendContent::Text(s)) && s@ == stdin_text@
            },
        },
{
    match (text, file_path) {
        (Some(t), None) => Ok(SendContent::Text(owned(t))),
        (None, Some(f)) => Ok(SendContent::File(owned(f))),
        (Some(_), Some(_)) => Err(CliError::TextAndFileTogether),
        (None, None) => {
            if !stdin_is_pipe {
                return Err(CliError::NoSendContent);
            }
            if is_blank_text(stdin_text) {
                return Err(CliError::EmptyStdin);
            }
            Ok(SendContent::Text(owned(stdin_text)))
        },
    }
}

/// The account a message is sent from, and the user it goes to.
#[derive(Debug)]
pub enum SendTarget {
    /// A saved account.
    Saved { user_id: String, client: WeixinApiClient },
    /// Credentials given on the command line.
    Explicit { user_id: String, client: WeixinApiClient },
}

impl SendTarget {
    /// The user the message goes to: the bot's bound user.
    pub open spec fn spec_user_id(&self) -> Seq<char> {
        match self {
            SendTarget::Saved { user_id, .. } => user_id@,
            SendTarget::Explicit { user_id, .. } => user_id@,
        }
    }

    /// The client the message is sent with.
    pub open spec fn spec_client(&self) -> WeixinApiClient {
        match self {
            SendTarget::Saved { client, .. } => *client,
            SendTarget::Explicit { client, .. } => *client,
        }
    }

    /// The user the message goes to.
    pub fn user_id(&self) -> (r: &str)
        ensures
            r@ == self.spec_user_id(),
    {
        match self {
            SendTarget::Saved { user_id, .. } => user_id.as_str(),
            SendTarget::Explicit { user_id, .. } => user_id.as_str(),
        }
    }

    /// The client the message is sent with.
    pub fn client(&self) -> (r: &WeixinApiClient)
        ensures
            *r == self.spec_client(),
    {
        match self {
            SendTarget::Saved { client, .. } => client,
            SendTarget::Explicit { client, .. } => client,
        }
    }
}

/// Explicit credentials are in use when a user id or a bot token is given.
pub open spec fn uses_explicit_credentials(user_id: Option<&str>, bot_token: Option<&str>) -> bool {
    user_id is Some || bot_token is Some
}

/// The characters of an optional borrowed string.
pub open spec fn opt_text(o: Option<&str>) -> Option<Seq<char>> {
    match o {
        Some(s) => Some(s@),
        None => None,
    }
}

/// `target` is the explicit target for `user_id`, authenticating with
/// `bot_token` and routing by `route_tag`.
pub open spec fn is_explicit_target(
    target: SendTarget,
    user_id: Seq<char>,
    bot_token: Seq<char>,
    route_tag: Option<Seq<char>>,
) -> bool {
    target matches SendTarget::Explicit { user_id: u, client } && u@ == user_id
        && client.spec_token() == bot_token && client.spec_route_tag() == route_tag
}

/// `target` is the saved account at `index`.
pub open spec fn is_saved_target(target: SendTarget, accounts: AccountsFile, index: int) -> bool {
    &&& 0 <= index < accounts@.len()
    &&& target matches SendTarget::Saved { user_id: u, client } && u@ == accounts@[index].user_id
        && client.spec_token() == accounts@[index].bot_token && client.spec_route_tag()
        == accounts@[index].route_tag
}

/// Decides which account sends. Explicit credentials (a user id or a bot
/// token) need both and exclude `--account`; otherwise `--account` names a
/// saved account by index; with neither the request is refused.
pub fn resolve_send_target(
    account: Option<usize>,
    user_id: Option<&str>,
    bot_token: Option<&str>,
    route_tag: Option<&str>,
    accounts: &AccountsFile,
) -> (r: Result<SendTarget, CliError>)
    ensures
        uses_explicit_credentials(user_id, bot_token) ==> {
            if account is Some {
                r == Err::<SendTarget, CliError>(CliError::AccountWithExplicitCredentials)
            } else if user_id is None {
                r == Err::<SendTarget, CliError>(CliError::MissingUserId)
            } else if bot_token is None {
                r == Err::<SendTarget, CliError>(CliError::MissingBotToken)
            } else {
                r matches Ok(t) && is_explicit_target(
                    t,
                    user_id.unwrap()@,
                    bot_token.unwrap()@,
                    opt_text(route_tag),
                )
            }
        },
        !uses_explicit_credentials(user_id, bot_token) ==> match account {
            Some(i) => if i < accounts@.len() {
                r matches Ok(t) && is_saved_target(t, *accounts, i as int)
            } else {
                r == Err::<SendTarget, CliError>(CliError::AccountIndexNotFound { index: i })
            },
            None => r == Err::<SendTarget, CliError>(CliError::NoAuthenticationMode),
        },
{
    let using_explicit = user_id.is_some() || bot_token.is_some();
    if using_explicit {
        if account.is_some() {
            return Err(CliError::AccountWithExplicitCredentials);
        }
        let user_id = match user_id {
            Some(u) => owned(u),
            None => {
                return Err(CliError::MissingUserId);
            },
        };
        let bot_token = match bot_token {
            Some(t) => t,
            None => {
                return Err(CliError::MissingBotToken);
            },
        };
        return Ok(
            SendTarget::Explicit { user_id, client: WeixinApiClient::new(bot_token, own_opt(route_tag)) },
        );
    }
    match account {
        Some(index) => {
            let data = account_at(accounts, index)?;
            let client = build_client(&data);
            Ok(SendTarget::Saved { user_id: data.user_id, client })
        },
        None => Err(CliError::NoAuthenticationMode),
    }
}

/// The context token to send with: the one given, or a refusal that names
/// the account.
pub fn require_context_token(account_label: &str, explicit: Option<&str>) -> (r: Result<
    String,
    CliError,
>)
    ensures
        match explicit {
            Some(t) => r matches Ok(s) && s@ == t@,
            None => r matches Err(CliError::MissingContextToken { account_label: l }) && l@
                == account_label@,
        },
{
    match explicit {
        Some(t) => Ok(owned(t)),
        None => Err(CliError::MissingContextToken { account_label: owned(account_label) }),
    }
}

/// The request that sends `text` from the target's bot: addressed to its
/// bound user, with the context token that must be given.
pub fn text_send_request(target: &SendTarget, context_token: Option<&str>, text: &str) -> (r: Result<
    SendMessageRequest,
    CliError,
>)
    ensures
        match context_token {
            None => r matches Err(CliError::MissingContextToken { account_label: l }) && l@
                == target.spec_user_id(),
            Some(t) => r matches Ok(req) && {
                &&& req.msg.describes(target.spec_user_id(), t@)
                &&& req.msg.item_list@.len() == 1
                &&& req.msg.item_list@[0].item_type == MESSAGE_ITEM_TEXT
                &&& req.msg.item_list@[0].text_item matches Some(x) && x.text@ == text@
                &&& req.msg.item_list@[0].image_item is None
                &&& req.msg.item_list@[0].file_item is None
                &&& req.base_info.channel_version@ == CHANNEL_VERSION@
            },
        },
{
    let user_id = target.user_id();
    let context_token = require_context_token(user_id, context_token)?;
    Ok(text_message_request(user_id, context_token.as_str(), text))
}

/// What a report of a successful send adds after the user id: nothing for
/// a saved account, a note for credentials given on the command line.
pub open spec fn credentials_note(target: SendTarget) -> Seq<char> {
    match target {
        SendTarget::Saved { .. } => Seq::empty(),
        SendTarget::Explicit { .. } => " using explicit bot token"@,
    }
}

/// The word for a kind of media.
pub open spec fn media_word(kind: OutboundMediaKind) -> Seq<char> {
    match kind {
        OutboundMediaKind::Image => "image"@,
        OutboundMediaKind::File => "file"@,
    }
}

/// The note after the user id, for the target.
fn credentials_note_text(target: &SendTarget) -> (r: &'static str)
    ensures
        r@ == credentials_note(*target),
{
    match target {
        SendTarget::Saved { .. } => {
            proof {
                reveal_strlit("");
            }
            ""
        },
        SendTarget::Explicit { .. } => " using explicit bot token",
    }
}

/// The report of a sent text message.
pub fn text_sent_notice(target: &SendTarget) -> (r: String)
    ensures
        r@ == "sent text message to `"@ + target.spec_user_id() + "`"@ + credentials_note(*target),
{
    let head = concat3("sent text message to `", target.user_id(), "`");
    concat2(head.as_str(), credentials_note_text(target))
}

/// The report of a sent image or file, naming the file by `file_path`.
pub fn media_sent_notice(target: &SendTarget, kind: OutboundMediaKind, file_path: &str) -> (r: String)
    ensures
        r@ == "sent "@ + media_word(kind) + " `"@ + file_path@ + "` to `"@ + target.spec_user_id()
            + "`"@ + credentials_note(*target),
{
    let word = match kind {
        OutboundMediaKind::Image => "image",
        OutboundMediaKind::File => "file",
    };
    let a = concat3("sent ", word, " `");
    let b = concat3(a.as_str(), file_path, "` to `");
    let c = concat3(b.as_str(), target.user_id(), "`");
    concat2(c.as_str(), credentials_note_text(target))
}

/// The top-level type of the first MIME type that the file name of `path`
/// suggests (such as `image`), where it suggests one.
pub uninterp spec fn guessed_mime_top_level(path: Seq<char>) -> Option<Seq<char>>;

/// `mime_guess::from_path(path).first()`, reduced to its top-level type.
#[verifier::external_body]
fn guess_mime_top_level(path: &str) -> (r: Option<String>)
    ensures
        opt_view(r) == guessed_mime_top_level(path@),
{
    mime_guess::from_path(path).first().map(|m| m.type_().as_str().to_string())
}

/// Files whose name suggests an image type are sent as images, all others
/// as files.
pub fn detect_media_kind(file_path: &str) -> (r: OutboundMediaKind)
    ensures
        r == (if guessed_mime_top_level(file_path@) == Some("image"@) {
            OutboundMediaKind::Image
        } else {
            OutboundMediaKind::File
        }),
{
    match guess_mime_top_level(file_path) {
        Some(t) => {
            if crate::text::same_text(t.as_str(), "image") {
                OutboundMediaKind::Image
            } else {
                OutboundMediaKind::File
            }
        },
        None => OutboundMediaKind::File,
    }
}

} // verus!
