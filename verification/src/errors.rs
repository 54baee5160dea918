//! Error types: [`Error`] for failures while talking to the iLink API and
//! [`CliError`] for requests that the command layer refuses.
use crate::text::{concat2, concat3, i64_to_decimal, signed_decimal, u64_to_decimal, decimal};
use vstd::prelude::*;

verus! {

/// Errors that can occur when interacting with the `WeChat` iLink API.
#[derive(Debug)]
#[allow(inconsistent_fields)]
pub enum Error {
    /// An HTTP request failed.
    Http { source: reqwest::Error },
    /// JSON serialization or deserialization failed.
    Json { source: serde_json::Error },
    /// A filesystem I/O operation failed.
    Io { source: std::io::Error },
    /// The `WeChat` API returned a non-zero error code.
    Api {
        /// The numeric error code from the API.
        code: i64,
        /// The human-readable error message.
        message: String,
    },
    /// The current session has expired and requires re-authentication.
    SessionExpired,
    /// The login QR code has expired before being scanned.
    QrCodeExpired,
    /// The login flow failed for the given reason.
    LoginFailed {
        /// Description of why the login failed.
        reason: String,
    },
}

/// The text of a `reqwest::Error` (its `Display`).
#[verifier::external_body]
fn http_error_text(e: &reqwest::Error) -> String {
    e.to_string()
}

/// The text of a `serde_json::Error` (its `Display`).
#[verifier::external_body]
fn json_error_text(e: &serde_json::Error) -> String {
    e.to_string()
}

/// The text of a `std::io::Error` (its `Display`).
#[verifier::external_body]
fn io_error_text(e: &std::io::Error) -> String {
    e.to_string()
}

impl Error {
    /// The fixed text that opens the rendering of this error.
    pub open spec fn display_prefix(&self) -> Seq<char> {
        match self {
            Error::Http { .. } => "HTTP error: "@,
            Error::Json { .. } => "JSON error: "@,
            Error::Io { .. } => "IO error: "@,
            Error::Api { code, .. } => "API error (code "@ + signed_decimal(*code as int) + "): "@,
            Error::SessionExpired => "Session expired"@,
            Error::QrCodeExpired => "QR code expired"@,
            Error::LoginFailed { .. } => "Login failed: "@,
        }
    }

    /// The text that follows the prefix, where it is known: the API
    /// message or the login failure reason.
    pub open spec fn display_detail(&self) -> Seq<char> {
        match self {
            Error::Api { message, .. } => message@,
            Error::LoginFailed { reason } => reason@,
            _ => Seq::empty(),
        }
    }

    /// Whether the rendering ends with the text of a wrapped source error.
    pub open spec fn has_source(&self) -> bool {
        match self {
            Error::Http { .. } | Error::Json { .. } | Error::Io { .. } => true,
            _ => false,
        }
    }

    /// The human-readable rendering of the error, as its `Display` shows it.
    pub fn display_text(&self) -> (r: String)
        ensures
            !self.has_source() ==> r@ == self.display_prefix() + self.display_detail(),
            self.has_source() ==> r@.len() >= self.display_prefix().len() && r@.subrange(
                0,
                self.display_prefix().len() as int,
            ) == self.display_prefix(),
    {
        match self {
            Error::Http { source } => {
                let t = http_error_text(source);
                let r = concat2("HTTP error: ", t.as_str());
                assert(r@.subrange(0, "HTTP error: "@.len() as int) =~= "HTTP error: "@);
                r
            },
            Error::Json { source } => {
                let t = json_error_text(source);
                let r = concat2("JSON error: ", t.as_str());
                assert(r@.subrange(0, "JSON error: "@.len() as int) =~= "JSON error: "@);
                r
            },
            Error::Io { source } => {
                let t = io_error_text(source);
                let r = concat2("IO error: ", t.as_str());
                assert(r@.subrange(0, "IO error: "@.len() as int) =~= "IO error: "@);
                r
            },
            Error::Api { code, message } => {
                let c = i64_to_decimal(*code);
                let head = concat3("API error (code ", c.as_str(), "): ");
                concat2(head.as_str(), message.as_str())
            },
            Error::SessionExpired => "Session expired".to_owned(),
            Error::QrCodeExpired => "QR code expired".to_owned(),
            Error::LoginFailed { reason } => concat2("Login failed: ", reason.as_str()),
        }
    }
}

/// A request that the command layer refuses, or a lookup that found nothing.
#[derive(Debug, PartialEq, Eq)]
pub enum CliError {
    /// Both a text and a file were given to `send`.
    TextAndFileTogether,
    /// Neither a text, a file nor piped stdin was given to `send`.
    NoSendContent,
    /// Piped stdin held nothing but whitespace.
    EmptyStdin,
    /// `--account` was combined with explicit credentials.
    AccountWithExplicitCredentials,
    /// Explicit credentials lack the user id.
    MissingUserId,
    /// Explicit credentials lack the bot token.
    MissingBotToken,
    /// Neither a saved account nor explicit credentials were named.
    NoAuthenticationMode,
    /// No context token was given for the named account.
    MissingContextToken { account_label: String },
    /// The user id of a new account does not end with `@im.wechat`.
    InvalidUserId { user_id: String },
    /// The bot token of a new account is blank.
    EmptyBotToken,
    /// No saved account exists.
    NoSavedUser,
    /// The named user has no saved account.
    UserNotFound { user_id: String },
    /// No saved account has the given user id.
    AccountNotFound { account_id: String },
    /// No saved account has the given index.
    AccountIndexNotFound { index: usize },
    /// The QR code response names no QR code URL.
    MissingQrCodeUrl,
    /// The QR code response names no QR code id.
    MissingQrCodeId,
    /// A confirmed login carries no bot token.
    MissingLoginBotToken,
    /// A confirmed login carries no user id.
    MissingLoginUserId,
    /// The login QR code expired.
    QrCodeExpired,
    /// The QR code could not be rendered.
    QrRenderFailed { detail: String },
    /// The session of the given user has expired.
    SessionExpiredFor { user_id: String },
    /// No context token was given and none is cached for the user.
    NoCachedContext { user_id: String },
}

impl CliError {
    /// The message shown for this error.
    pub open spec fn message_spec(&self) -> Seq<char> {
        match self {
            CliError::TextAndFileTogether => "`--text` and `--file` cannot be used together"@,
            CliError::NoSendContent => "one of `--text`, `--file`, or piped stdin is required"@,
            CliError::EmptyStdin => "stdin is empty; provide text via `--text` or pipe content"@,
            CliError::AccountWithExplicitCredentials =>
                "`--account` cannot be used with `--bot-token` / `--user-id`"@,
            CliError::MissingUserId => "`--user-id` is required in explicit credential mode"@,
            CliError::MissingBotToken => "`--bot-token` is required in explicit credential mode"@,
            CliError::NoAuthenticationMode =>
                "You must specify either `--account <index>` for a saved account, or use explicit credentials mode (`--bot-token` and `--user-id`)"@,
            CliError::MissingContextToken { account_label } => "missing `--context-token` for `"@
                + account_label@
                + "`; run `wechat-cli get-context-token` for the bound user and pass the printed token"@,
            CliError::InvalidUserId { user_id } => "user_id `"@ + user_id@
                + "` must end with `@im.wechat`"@,
            CliError::EmptyBotToken => "bot_token cannot be empty"@,
            CliError::NoSavedUser => "no saved user found, run `wechat-cli login` first"@,
            CliError::UserNotFound { user_id } => "user `"@ + user_id@ + "` not found"@,
            CliError::AccountNotFound { account_id } => "account `"@ + account_id@
                + "` not found"@,
            CliError::AccountIndexNotFound { index } => "account index `"@ + decimal(
                *index as nat,
            ) + "` not found"@,
            CliError::MissingQrCodeUrl => "Login failed: no qrcode_url"@,
            CliError::MissingQrCodeId => "Login failed: no qrcode_id"@,
            CliError::MissingLoginBotToken => "Login failed: no bot_token"@,
            CliError::MissingLoginUserId => "Login failed: no ilink_user_id"@,
            CliError::QrCodeExpired => "QR code expired"@,
            CliError::QrRenderFailed { detail } => "Login failed: QR generation failed: "@
                + detail@,
            CliError::SessionExpiredFor { user_id } => "session expired for user `"@ + user_id@
                + "`, re-run `wechat-cli login`"@,
            CliError::NoCachedContext { user_id } =>
                "no cached context_token for bound user under `"@ + user_id@
                + "`; run `wechat-cli get-context-token --user-id "@ + user_id@
                + "` first or pass `--context-token`"@,
        }
    }

    /// The message shown for this error.
    pub fn message(&self) -> (r: String)
        ensures
            r@ == self.message_spec(),
    {
        match self {
            CliError::TextAndFileTogether => "`--text` and `--file` cannot be used together".to_owned(),
            CliError::NoSendContent => "one of `--text`, `--file`, or piped stdin is required".to_owned(),
            CliError::EmptyStdin => "stdin is empty; provide text via `--text` or pipe content".to_owned(),
            CliError::AccountWithExplicitCredentials =>
                "`--account` cannot be used with `--bot-token` / `--user-id`".to_owned(),
            CliError::MissingUserId => "`--user-id` is required in explicit credential mode".to_owned(),
            CliError::MissingBotToken => "`--bot-token` is required in explicit credential mode".to_owned(),
            CliError::NoAuthenticationMode =>
                "You must specify either `--account <index>` for a saved account, or use explicit credentials mode (`--bot-token` and `--user-id`)".to_owned(),
            CliError::MissingContextToken { account_label } => concat3(
                "missing `--context-token` for `",
                account_label.as_str(),
                "`; run `wechat-cli get-context-token` for the bound user and pass the printed token",
            ),
            CliError::InvalidUserId { user_id } => concat3(
                "user_id `",
                user_id.as_str(),
                "` must end with `@im.wechat`",
            ),
            CliError::EmptyBotToken => "bot_token cannot be empty".to_owned(),
            CliError::NoSavedUser => "no saved user found, run `wechat-cli login` first".to_owned(),
            CliError::UserNotFound { user_id } => concat3("user `", user_id.as_str(), "` not found"),
            CliError::AccountNotFound { account_id } => concat3(
                "account `",
                account_id.as_str(),
                "` not found",
            ),
            CliError::AccountIndexNotFound { index } => {
                let n = u64_to_decimal(*index as u64);
                concat3("account index `", n.as_str(), "` not found")
            },
            CliError::MissingQrCodeUrl => "Login failed: no qrcode_url".to_owned(),
            CliError::MissingQrCodeId => "Login failed: no qrcode_id".to_owned(),
            CliError::MissingLoginBotToken => "Login failed: no bot_token".to_owned(),
            CliError::MissingLoginUserId => "Login failed: no ilink_user_id".to_owned(),
            CliError::QrCodeExpired => "QR code expired".to_owned(),
            CliError::QrRenderFailed { detail } => concat2(
                "Login failed: QR generation failed: ",
                detail.as_str(),
            ),
            CliError::SessionExpiredFor { user_id } => concat3(
                "session expired for user `",
                user_id.as_str(),
                "`, re-run `wechat-cli login`",
            ),
            CliError::NoCachedContext { user_id } => {
                let head = concat3(
                    "no cached context_token for bound user under `",
                    user_id.as_str(),
                    "`; run `wechat-cli get-context-token --user-id ",
                );
                concat3(head.as_str(), user_id.as_str(), "` first or pass `--context-token`")
            },
        }
    }
}

} // verus!
