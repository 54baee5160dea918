use wechat_cli::commands::login::{anonymous_client, login_qr_code, login_step, render_login_qr, LoginStep};
use wechat_cli::commands::qrcode::{qrcode_output, qrcode_status_output};
use wechat_cli::wechat::models::{FetchQrCodeResponse, QrCodeData, QrCodeStatusResponse};

fn data() -> QrCodeData {
    QrCodeData {
        qrcode_url: None,
        qrcode_id: None,
        status: None,
        bot_token: None,
        ilink_bot_id: None,
        ilink_user_id: None,
    }
}

fn status_response(status: Option<&str>, token: Option<&str>, user: Option<&str>) -> QrCodeStatusResponse {
    QrCodeStatusResponse {
        data: None,
        status: status.map(str::to_string),
        bot_token: token.map(str::to_string),
        ilink_bot_id: None,
        ilink_user_id: user.map(str::to_string),
    }
}

#[test]
fn nested_data_wins_over_top_level_fields() {
    let resp = FetchQrCodeResponse {
        data: Some(QrCodeData { qrcode_url: Some("nested".to_string()), ..data() }),
        qrcode_img_content: Some("top".to_string()),
        qrcode: Some("id-top".to_string()),
    };
    assert_eq!(resp.qrcode_url(), Some("nested"));
    assert_eq!(resp.qrcode_id(), Some("id-top"));
    assert_eq!(login_qr_code(&resp).unwrap(), ("nested".to_string(), "id-top".to_string()));
}

#[test]
fn missing_qr_fields_are_reported() {
    let none = FetchQrCodeResponse { data: None, qrcode_img_content: None, qrcode: None };
    assert_eq!(login_qr_code(&none).unwrap_err().message(), "Login failed: no qrcode_url");
    assert_eq!(qrcode_output(&none).unwrap_err().message(), "Login failed: no qrcode_id");
    let url_only = FetchQrCodeResponse { data: None, qrcode_img_content: Some("u".to_string()), qrcode: None };
    assert_eq!(login_qr_code(&url_only).unwrap_err().message(), "Login failed: no qrcode_id");
    let both = FetchQrCodeResponse { data: None, qrcode_img_content: Some("u".to_string()), qrcode: Some("i".to_string()) };
    let out = qrcode_output(&both).unwrap();
    assert_eq!((out.qrcode_id.as_str(), out.qrcode_url.as_str()), ("i", "u"));
}

#[test]
fn login_status_transitions() {
    assert!(matches!(login_step(&status_response(Some("wait"), None, None), "t"), Ok(LoginStep::Waiting)));
    assert!(matches!(login_step(&status_response(Some("scaned"), None, None), "t"), Ok(LoginStep::Scanned)));
    assert_eq!(login_step(&status_response(Some("expired"), None, None), "t").unwrap_err().message(), "QR code expired");
    match login_step(&status_response(None, None, None), "t") {
        Ok(LoginStep::Unknown(s)) => assert_eq!(s, "unknown"),
        other => panic!("unexpected {other:?}"),
    }
    assert_eq!(
        login_step(&status_response(Some("confirmed"), None, Some("u")), "t").unwrap_err().message(),
        "Login failed: no bot_token"
    );
    assert_eq!(
        login_step(&status_response(Some("confirmed"), Some("tok"), None), "t").unwrap_err().message(),
        "Login failed: no ilink_user_id"
    );
    match login_step(&status_response(Some("confirmed"), Some("tok"), Some("u@im.wechat")), "2025") {
        Ok(LoginStep::Confirmed(d)) => {
            assert_eq!(d.bot_token, "tok");
            assert_eq!(d.user_id, "u@im.wechat");
            assert_eq!(d.saved_at, "2025");
            assert!(d.route_tag.is_none());
        }
        other => panic!("unexpected {other:?}"),
    }
}

#[test]
fn status_output_reports_credentials() {
    let resp = QrCodeStatusResponse {
        data: Some(QrCodeData { status: Some("confirmed".to_string()), bot_token: Some("tok".to_string()), ..data() }),
        status: Some("wait".to_string()),
        bot_token: None,
        ilink_bot_id: Some("bot".to_string()),
        ilink_user_id: Some("u".to_string()),
    };
    assert_eq!(resp.status(), "confirmed");
    assert_eq!(resp.ilink_bot_id(), Some("bot"));
    let out = qrcode_status_output("q", &resp);
    assert_eq!(out.qrcode_id, "q");
    assert_eq!(out.status, "confirmed");
    assert_eq!(out.bot_token.as_deref(), Some("tok"));
    assert_eq!(out.user_id.as_deref(), Some("u"));
}

#[test]
fn qr_code_renders_as_text() {
    let text = render_login_qr("https://example.com/qr").unwrap();
    assert!(text.lines().count() > 10);
    assert!(text.contains('\u{2588}') || text.contains('#') || text.contains('█'));
    let client = anonymous_client();
    assert_eq!(client.token(), "");
    assert!(client.route_tag().is_none());
}
