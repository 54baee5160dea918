//! The `qrcode` and `qrcode-status` commands: the JSON objects they print.
use crate::commands::login::{response_bot_token, response_qrcode_id, response_qrcode_url, response_user_id};
use crate::errors::CliError;
use crate::text::{opt_view, own_opt, owned};
use crate::wechat::models::{FetchQrCodeResponse, QrCodeStatusResponse};
use vstd::prelude::*;

verus! {

/// What `qrcode` prints.
#[derive(Debug)]
pub struct QrcodeOutput {
    pub qrcode_id: String,
    pub qrcode_url: String,
}

/// What `qrcode-status` prints.
#[derive(Debug)]
pub struct QrcodeStatusOutput {
    pub qrcode_id: String,
    pub status: String,
    pub bot_token: Option<String>,
    pub user_id: Option<String>,
}

/// The id and URL of a new QR code; a missing id is reported before a
/// missing URL.
pub fn qrcode_output(resp: &FetchQrCodeResponse) -> (r: Result<QrcodeOutput, CliError>)
    ensures
        match (response_qrcode_id(*resp), response_qrcode_url(*resp)) {
            (None, _) => r == Err::<QrcodeOutput, CliError>(CliError::MissingQrCodeId),
            (Some(_), None) => r == Err::<QrcodeOutput, CliError>(CliError::MissingQrCodeUrl),
            (Some(i), Some(u)) => r matches Ok(o) && o.qrcode_id@ == i && o.qrcode_url@ == u,
        },
{
    let qrcode_id = match resp.qrcode_id() {
        Some(i) => owned(i),
        None => {
            return Err(CliError::MissingQrCodeId);
        },
    };
    let qrcode_url = match resp.qrcode_url() {
        Some(u) => owned(u),
        None => {
            return Err(CliError::MissingQrCodeUrl);
        },
    };
    Ok(QrcodeOutput { qrcode_id, qrcode_url })
}

/// The status of the QR code `qrcode_id`, with the credentials where the
/// response names them.
pub fn qrcode_status_output(qrcode_id: &str, resp: &QrCodeStatusResponse) -> (r: QrcodeStatusOutput)
    ensures
        r.qrcode_id@ == qrcode_id@,
        r.status@ == resp.spec_status(),
        opt_view(r.bot_token) == response_bot_token(*resp),
        opt_view(r.user_id) == response_user_id(*resp),
{
    QrcodeStatusOutput {
        qrcode_id: owned(qrcode_id),
        status: owned(resp.status()),
        bot_token: own_opt(resp.bot_token()),
        user_id: own_opt(resp.ilink_user_id()),
    }
}

} // verus!
