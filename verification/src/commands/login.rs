//! The `login` command: the QR code to show, and how each scan status
//! moves the login on.
use crate::errors::CliError;
use crate::storage::{AccountData, AccountView};
use crate::text::owned;
use crate::wechat::api::WeixinApiClient;
use crate::wechat::models::{
    data_field, first_present, opt_str_view, FetchQrCodeResponse, QrCodeData, QrCodeStatusResponse,
};
use crate::text::opt_view;
use vstd::prelude::*;

verus! {

/// The client used before any account exists: no token, no route tag.
pub fn anonymous_client() -> (r: WeixinApiClient)
    ensures
        r.spec_token() == Seq::<char>::empty(),
        r.spec_route_tag() is None,
{
    proof {
        reveal_strlit("");
    }
    WeixinApiClient::new("", None)
}

/// The QR code URL that a QR code response names.
pub open spec fn response_qrcode_url(resp: FetchQrCodeResponse) -> Option<Seq<char>> {
    first_present(data_field(resp.data, |d: QrCodeData| d.qrcode_url), opt_view(resp.qrcode_img_content))
}

/// The QR code id that a QR code response names.
pub open spec fn response_qrcode_id(resp: FetchQrCodeResponse) -> Option<Seq<char>> {
    first_present(data_field(resp.data, |d: QrCodeData| d.qrcode_id), opt_view(resp.qrcode))
}

/// The URL to show and the id to poll, from a QR code response; a missing
/// URL is reported before a missing id.
pub fn login_qr_code(resp: &FetchQrCodeResponse) -> (r: Result<(String, String), CliError>)
    ensures
        match (response_qrcode_url(*resp), response_qrcode_id(*resp)) {
            (None, _) => r == Err::<(String, String), CliError>(CliError::MissingQrCodeUrl),
            (Some(_), None) => r == Err::<(String, String), CliError>(CliError::MissingQrCodeId),
            (Some(u), Some(i)) => r matches Ok(p) && p.0@ == u && p.1@ == i,
        },
{
    let url = match resp.qrcode_url() {
        Some(u) => owned(u),
        None => {
            return Err(CliError::MissingQrCodeUrl);
        },
    };
    let id = match resp.qrcode_id() {
        Some(i) => owned(i),
        None => {
            return Err(CliError::MissingQrCodeId);
        },
    };
    Ok((url, id))
}

/// The terminal rendering of a QR code for `data`, drawn with a quiet zone
/// and each module two characters wide and one high, or the text of the
/// error that stops it.
pub uninterp spec fn qr_text(data: Seq<char>) -> Result<Seq<char>, Seq<char>>;

/// `qrcode::QrCode::new(data)` rendered with
/// `render::<char>().quiet_zone(true).module_dimensions(2, 1).build()`, or
/// the text of the error of `QrCode::new`. The module size is fixed, so the
/// canvas size (at most 185 modules across) cannot overflow.
#[verifier::external_body]
fn render_qr_text(data: &str) -> (r: Result<String, String>)
    ensures
        match r {
            Ok(t) => qr_text(data@) == Ok::<Seq<char>, Seq<char>>(t@),
            Err(e) => qr_text(data@) == Err::<Seq<char>, Seq<char>>(e@),
        },
{
    match qrcode::QrCode::new(data.as_bytes()) {
        Ok(code) => Ok(code.render::<char>().quiet_zone(true).module_dimensions(2, 1).build()),
        Err(e) => Err(e.to_string()),
    }
}

/// The QR code of the login URL as terminal text: with a quiet zone, each
/// module two characters wide and one high.
pub fn render_login_qr(url: &str) -> (r: Result<String, CliError>)
    ensures
        match qr_text(url@) {
            Ok(t) => r matches Ok(s) && s@ == t,
            Err(e) => r matches Err(CliError::QrRenderFailed { detail }) && detail@ == e,
        },
{
    match render_qr_text(url) {
        Ok(t) => Ok(t),
        Err(e) => Err(CliError::QrRenderFailed { detail: e }),
    }
}

/// How the login stands after one status poll.
#[derive(Debug)]
pub enum LoginStep {
    /// Not scanned yet.
    Waiting,
    /// Scanned, waiting for confirmation.
    Scanned,
    /// Confirmed: these credentials are to be saved.
    Confirmed(AccountData),
    /// A status this client does not know.
    Unknown(String),
}

/// The bot token that a status response names.
pub open spec fn response_bot_token(resp: QrCodeStatusResponse) -> Option<Seq<char>> {
    first_present(data_field(resp.data, |d: QrCodeData| d.bot_token), opt_view(resp.bot_token))
}

/// The user id that a status response names.
pub open spec fn response_user_id(resp: QrCodeStatusResponse) -> Option<Seq<char>> {
    first_present(data_field(resp.data, |d: QrCodeData| d.ilink_user_id), opt_view(resp.ilink_user_id))
}

/// One status poll of the login: `wait` and `scaned` keep waiting,
/// `expired` ends the login, `confirmed` yields the credentials to save
/// (saved at `saved_at`, with no route tag), anything else is reported and
/// waited out.
pub fn login_step(resp: &QrCodeStatusResponse, saved_at: &str) -> (r: Result<LoginStep, CliError>)
    ensures
        resp.spec_status() == "wait"@ ==> r matches Ok(LoginStep::Waiting),
        resp.spec_status() == "scaned"@ ==> r matches Ok(LoginStep::Scanned),
        resp.spec_status() == "expired"@ ==> r == Err::<LoginStep, CliError>(CliError::QrCodeExpired),
        resp.spec_status() == "confirmed"@ ==> match (response_bot_token(*resp), response_user_id(*resp)) {
            (None, _) => r == Err::<LoginStep, CliError>(CliError::MissingLoginBotToken),
            (Some(_), None) => r == Err::<LoginStep, CliError>(CliError::MissingLoginUserId),
            (Some(t), Some(u)) => r matches Ok(LoginStep::Confirmed(d)) && d@ == (AccountView {
                bot_token: t,
                saved_at: saved_at@,
                user_id: u,
                route_tag: None,
            }),
        },
        resp.spec_status() != "wait"@ && resp.spec_status() != "scaned"@ && resp.spec_status()
            != "expired"@ && resp.spec_status() != "confirmed"@ ==> (r matches Ok(LoginStep::Unknown(s))
            && s@ == resp.spec_status()),
{
    let status = resp.status();
    proof {
        reveal_strlit("wait");
        reveal_strlit("scaned");
        reveal_strlit("expired");
        reveal_strlit("confirmed");
        assert("wait"@.len() == 4);
        assert("scaned"@.len() == 6);
        assert("expired"@.len() == 7);
        assert("confirmed"@.len() == 9);
    }
    if crate::text::same_text(status, "wait") {
        Ok(LoginStep::Waiting)
    } else if crate::text::same_text(status, "scaned") {
        Ok(LoginStep::Scanned)
    } else if crate::text::same_text(status, "expired") {
        Err(CliError::QrCodeExpired)
    } else if crate::text::same_text(status, "confirmed") {
        let bot_token = match resp.bot_token() {
            Some(t) => owned(t),
            None => {
                return Err(CliError::MissingLoginBotToken);
            },
        };
        let user_id = match resp.ilink_user_id() {
            Some(u) => owned(u),
            None => {
                return Err(CliError::MissingLoginUserId);
            },
        };
        Ok(LoginStep::Confirmed(AccountData { bot_token, saved_at: owned(saved_at), user_id, route_tag: None }))
    } else {
        Ok(LoginStep::Unknown(owned(status)))
    }
}

/// One status poll of the login, with a confirmed login saved now; it
/// moves on as [`login_step`] does.
pub fn login_step_now(resp: &QrCodeStatusResponse) -> (r: Result<LoginStep, CliError>)
    ensures
        resp.spec_status() == "wait"@ ==> r matches Ok(LoginStep::Waiting),
        resp.spec_status() == "scaned"@ ==> r matches Ok(LoginStep::Scanned),
        resp.spec_status() == "expired"@ ==> r == Err::<LoginStep, CliError>(CliError::QrCodeExpired),
        resp.spec_status() == "confirmed"@ ==> match (response_bot_token(*resp), response_user_id(*resp)) {
            (None, _) => r == Err::<LoginStep, CliError>(CliError::MissingLoginBotToken),
            (Some(_), None) => r == Err::<LoginStep, CliError>(CliError::MissingLoginUserId),
            (Some(t), Some(u)) => r matches Ok(LoginStep::Confirmed(d)) && d@.bot_token == t
                && d@.user_id == u && d@.route_tag is None,
        },
        resp.spec_status() != "wait"@ && resp.spec_status() != "scaned"@ && resp.spec_status()
            != "expired"@ && resp.spec_status() != "confirmed"@ ==> (r matches Ok(LoginStep::Unknown(s))
            && s@ == resp.spec_status()),
{
    let saved_at = crate::commands::account::now_rfc3339();
    login_step(resp, saved_at.as_str())
}

/// What a status response says of the login is read from its nested
/// `data` object where that object carries the field, and from the top
/// level otherwise: the user id and the bot token that a confirmed login
/// saves, and what `qrcode-status` prints.
pub proof fn law_status_credentials_prefer_data(resp: QrCodeStatusResponse)
    ensures
        response_user_id(resp) == match resp.data {
            Some(d) => match d.ilink_user_id {
                Some(u) => Some(u@),
                None => match resp.ilink_user_id {
                    Some(u) => Some(u@),
                    None => None,
                },
            },
            None => match resp.ilink_user_id {
                Some(u) => Some(u@),
                None => None,
            },
        },
        response_bot_token(resp) == match resp.data {
            Some(d) => match d.bot_token {
                Some(t) => Some(t@),
                None => match resp.bot_token {
                    Some(t) => Some(t@),
                    None => None,
                },
            },
            None => match resp.bot_token {
                Some(t) => Some(t@),
                None => None,
            },
        },
{
}

/// The QR code of a QR code response is read from its nested `data` object
/// where that object carries the field, and from the top-level
/// `qrcode_img_content` (the URL) and `qrcode` (the id) otherwise.
pub proof fn law_qrcode_fields_prefer_data(resp: FetchQrCodeResponse)
    ensures
        response_qrcode_url(resp) == match resp.data {
            Some(d) => match d.qrcode_url {
                Some(u) => Some(u@),
                None => match resp.qrcode_img_content {
                    Some(u) => Some(u@),
                    None => None,
                },
            },
            None => match resp.qrcode_img_content {
                Some(u) => Some(u@),
                None => None,
            },
        },
        response_qrcode_id(resp) == match resp.data {
            Some(d) => match d.qrcode_id {
                Some(i) => Some(i@),
                None => match resp.qrcode {
                    Some(i) => Some(i@),
                    None => None,
                },
            },
            None => match resp.qrcode {
                Some(i) => Some(i@),
                None => None,
            },
        },
{
}

} // verus!
