//! The `get-context-token` command: whose messages to wait for, which
//! message carries the token, and how the polling loop reacts to each
//! outcome of a poll.
use crate::commands::account::build_client;
use crate::commands::send::{opt_text, uses_explicit_credentials};
use crate::errors::CliError;
use crate::storage::{account_at, AccountsFile};
use crate::text::{own_opt, owned, same_text};
use crate::wechat::api::WeixinApiClient;
use crate::wechat::models::{GetUpdatesResponse, InboundMessage};
use vstd::prelude::*;

verus! {

/// The account whose incoming messages are awaited.
#[derive(Debug)]
pub enum Target {
    /// A saved account.
    Saved { user_id: String, client: WeixinApiClient },
    /// Credentials given on the command line.
    Explicit { user_id: String, client: WeixinApiClient },
}

impl Target {
    /// The user id of the target.
    pub open spec fn spec_user_id(&self) -> Seq<char> {
        match self {
            Target::Saved { user_id, .. } => user_id@,
            Target::Explicit { user_id, .. } => user_id@,
        }
    }

    /// The client of the target.
    pub open spec fn spec_client(&self) -> WeixinApiClient {
        match self {
            Target::Saved { client, .. } => *client,
            Target::Explicit { client, .. } => *client,
        }
    }
}

/// Decides whose messages to wait for. Explicit credentials (a user id or
/// a bot token) need both and exclude `--account`; otherwise `--account`
/// names a saved account by index; with neither the request is refused,
/// since exactly one of the two modes must be used.
pub fn resolve_target(
    account: Option<usize>,
    user_id: Option<&str>,
    bot_token: Option<&str>,
    route_tag: Option<&str>,
    accounts: &AccountsFile,
) -> (r: Result<Target, CliError>)
    ensures
        uses_explicit_credentials(user_id, bot_token) ==> {
            if account is Some {
                r == Err::<Target, CliError>(CliError::AccountWithExplicitCredentials)
            } else if user_id is None {
                r == Err::<Target, CliError>(CliError::MissingUserId)
            } else if bot_token is None {
                r == Err::<Target, CliError>(CliError::MissingBotToken)
            } else {
                r matches Ok(t) && t is Explicit && t.spec_user_id() == user_id.unwrap()@
                    && t.spec_client().spec_token() == bot_token.unwrap()@
                    && t.spec_client().spec_route_tag() == opt_text(route_tag)
            }
        },
        !uses_explicit_credentials(user_id, bot_token) ==> match account {
            Some(i) => if i < accounts@.len() {
                r matches Ok(t) && t is Saved && t.spec_user_id() == accounts@[i as int].user_id
                    && t.spec_client().spec_token() == accounts@[i as int].bot_token
                    && t.spec_client().spec_route_tag() == accounts@[i as int].route_tag
            } else {
                r == Err::<Target, CliError>(CliError::AccountIndexNotFound { index: i })
            },
            None => r == Err::<Target, CliError>(CliError::NoAuthenticationMode),
        },
{
    let using_explicit = user_id.is_some() || bot_token.is_some();
    if using_explicit {
        if account.is_some() {
            return Err(CliError::AccountWithExplicitCredentials);
        }
        let user_id = match user_id {
            Some(u) => owned(u),
            None => {
                return Err(CliError::MissingUserId);
            },
        };
        let bot_token = match bot_token {
            Some(t) => t,
            None => {
                return Err(CliError::MissingBotToken);
            },
        };
        return Ok(
            Target::Explicit { user_id, client: WeixinApiClient::new(bot_token, own_opt(route_tag)) },
        );
    }
    match account {
        Some(index) => {
            let data = account_at(accounts, index)?;
            let client = build_client(&data);
            Ok(Target::Saved { user_id: data.user_id, client })
        },
        None => Err(CliError::NoAuthenticationMode),
    }
}

/// The context token that a message yields for the bound user `user_id`:
/// the message must carry a token and come from that user to someone.
pub open spec fn message_token(user_id: Seq<char>, m: InboundMessage) -> Option<Seq<char>> {
    if m.context_token@.len() > 0 && m.from_user_id@ == user_id && m.to_user_id@.len() > 0 {
        Some(m.context_token@)
    } else {
        None
    }
}

/// The token of the first message that yields one.
pub open spec fn first_message_token(user_id: Seq<char>, ms: Seq<InboundMessage>) -> Option<
    Seq<char>,
>
    decreases ms.len(),
{
    if ms.len() == 0 {
        None
    } else {
        match message_token(user_id, ms[0]) {
            Some(t) => Some(t),
            None => first_message_token(user_id, ms.drop_first()),
        }
    }
}

/// The context token of a message from the bound user `user_id`.
pub fn extract_context_token(user_id: &str, message: &InboundMessage) -> (r: Option<String>)
    ensures
        opt_text_of(r) == message_token(user_id@, *message),
{
    if message.context_token.as_str().is_empty() {
        return None;
    }
    if same_text(message.from_user_id.as_str(), user_id) && !message.to_user_id.as_str().is_empty() {
        Some(message.context_token.clone())
    } else {
        None
    }
}

/// The characters of an optional owned string.
pub open spec fn opt_text_of(o: Option<String>) -> Option<Seq<char>> {
    match o {
        Some(s) => Some(s@),
        None => None,
    }
}

/// The context token of the first message, in order, that yields one.
pub fn first_context_token(user_id: &str, messages: &[InboundMessage]) -> (r: Option<String>)
    ensures
        opt_text_of(r) == first_message_token(user_id@, messages@),
{
    let mut i: usize = 0;
    assert(messages@.skip(0) =~= messages@);
    while i < messages.len()
        invariant
            i <= messages.len(),
            first_message_token(user_id@, messages@) == first_message_token(
                user_id@,
                messages@.skip(i as int),
            ),
        decreases messages.len() - i,
    {
        assert(messages@.skip(i as int)[0] == messages@[i as int]);
        assert(messages@.skip(i as int).drop_first() =~= messages@.skip(i + 1));
        match extract_context_token(user_id, &messages[i]) {
            Some(t) => {
                return Some(t);
            },
            None => {},
        }
        i = i + 1;
    }
    None
}

/// The number of consecutive failed polls after which the loop waits long.
pub const MAX_CONSECUTIVE_ERRORS: u32 = 3;

/// Seconds to wait after a failed poll.
pub const SHORT_BACKOFF_SECS: u64 = 2;

/// Seconds to wait after the third consecutive failed poll.
pub const LONG_BACKOFF_SECS: u64 = 30;

/// The state of the polling loop: how many polls in a row have failed.
#[derive(Debug)]
pub struct PollState {
    pub consecutive_errors: u32,
}

impl PollState {
    /// The state before the first poll.
    pub fn new() -> (r: Self)
        ensures
            r.consecutive_errors == 0,
    {
        PollState { consecutive_errors: 0 }
    }
}

/// The outcome of one poll.
#[derive(Debug)]
pub enum PollEvent {
    /// The poll returned these updates.
    Updates(GetUpdatesResponse),
    /// The API reported that the session expired.
    SessionExpired,
    /// The poll timed out, which is how a long poll ends without news.
    TimedOut,
    /// The poll failed for another reason.
    Failed,
}

/// What the loop does next.
#[derive(Debug)]
pub enum PollAction {
    /// Print this token and stop.
    Emit(String),
    /// Stop with this error.
    Abort(CliError),
    /// Poll again at once.
    PollAgain,
    /// Report failure number `attempt`, wait `seconds`, then poll again.
    Backoff { attempt: u32, seconds: u64 },
}

/// What a failed poll does when `errors` polls in a row had failed
/// before it: the new count, and how many seconds to wait.
pub open spec fn failure_outcome(errors: u32) -> (u32, u64) {
    if errors + 1 >= MAX_CONSECUTIVE_ERRORS {
        (0, LONG_BACKOFF_SECS)
    } else {
        ((errors + 1) as u32, SHORT_BACKOFF_SECS)
    }
}

/// One step of the polling loop: updates reset the failure count and
/// yield the first context token of the bound user, if any; an expired
/// session stops the loop; a timeout polls again; a failure waits two
/// seconds, or thirty after the third failure in a row, which also
/// resets the count.
pub fn poll_step(state: &mut PollState, user_id: &str, event: &PollEvent) -> (r: PollAction)
    requires
        old(state).consecutive_errors < MAX_CONSECUTIVE_ERRORS,
    ensures
        final(state).consecutive_errors < MAX_CONSECUTIVE_ERRORS,
        match event {
            PollEvent::Updates(resp) => final(state).consecutive_errors == 0 && match first_message_token(
                user_id@,
                resp.spec_messages(),
            ) {
                Some(t) => r matches PollAction::Emit(s) && s@ == t,
                None => r matches PollAction::PollAgain,
            },
            PollEvent::SessionExpired => final(state).consecutive_errors == old(
                state,
            ).consecutive_errors && (r matches PollAction::Abort(CliError::SessionExpiredFor {
                user_id: u,
            }) && u@ == user_id@),
            PollEvent::TimedOut => final(state).consecutive_errors == old(state).consecutive_errors
                && r matches PollAction::PollAgain,
            PollEvent::Failed => final(state).consecutive_errors == failure_outcome(
                old(state).consecutive_errors,
            ).0 && r == (PollAction::Backoff {
                attempt: (old(state).consecutive_errors + 1) as u32,
                seconds: failure_outcome(old(state).consecutive_errors).1,
            }),
        },
{
    match event {
        PollEvent::Updates(resp) => {
            state.consecutive_errors = 0;
            match first_context_token(user_id, resp.messages()) {
                Some(t) => PollAction::Emit(t),
                None => PollAction::PollAgain,
            }
        },
        PollEvent::SessionExpired => PollAction::Abort(
            CliError::SessionExpiredFor { user_id: owned(user_id) },
        ),
        PollEvent::TimedOut => PollAction::PollAgain,
        PollEvent::Failed => {
            state.consecutive_errors = state.consecutive_errors + 1;
            let attempt = state.consecutive_errors;
            if state.consecutive_errors >= MAX_CONSECUTIVE_ERRORS {
                state.consecutive_errors = 0;
                PollAction::Backoff { attempt, seconds: LONG_BACKOFF_SECS }
            } else {
                PollAction::Backoff { attempt, seconds: SHORT_BACKOFF_SECS }
            }
        },
    }
}

/// Failed polls in a row wait two seconds, two seconds, then thirty, after
/// which the count starts again from zero; the count never reaches three.
pub proof fn law_failure_backoff()
    ensures
        failure_outcome(0) == (1u32, SHORT_BACKOFF_SECS),
        failure_outcome(1) == (2u32, SHORT_BACKOFF_SECS),
        failure_outcome(2) == (0u32, LONG_BACKOFF_SECS),
        forall|n: u32| n < MAX_CONSECUTIVE_ERRORS ==> #[trigger] failure_outcome(n).0 < MAX_CONSECUTIVE_ERRORS,
{
}

} // verus!
