use base64::Engine;
use wechat_cli::errors::Error;
use wechat_cli::wechat::api::{
    api_url, check_api_status, get_updates_body, media_message_requests, qr_code_form,
    qr_code_status_form, text_message_request, ApiStatus, WeixinApiClient,
};
use wechat_cli::wechat::models::OutboundMessageItem;

#[test]
fn api_test_client_new() {
    let client = WeixinApiClient::new("tok_123", None);
    assert_eq!(client.token(), "tok_123");
    assert!(client.route_tag().is_none());
}

fn status(errcode: Option<i64>, errmsg: Option<&str>, ret: Option<i64>, err_msg: Option<&str>) -> ApiStatus {
    ApiStatus {
        errcode,
        errmsg: errmsg.map(str::to_string),
        ret,
        err_msg: err_msg.map(str::to_string),
    }
}

#[test]
fn status_fields_decide_the_outcome() {
    assert!(check_api_status(&status(None, None, None, None)).is_ok());
    assert!(check_api_status(&status(Some(0), None, Some(0), None)).is_ok());
    assert!(matches!(check_api_status(&status(Some(-14), None, Some(5), None)), Err(Error::SessionExpired)));
    match check_api_status(&status(Some(3), Some("bad"), Some(5), Some("worse"))) {
        Err(Error::Api { code, message }) => assert_eq!((code, message.as_str()), (3, "bad")),
        other => panic!("unexpected {other:?}"),
    }
    match check_api_status(&status(Some(0), None, Some(-2), None)) {
        Err(Error::Api { code, message }) => assert_eq!((code, message.as_str()), (-2, "unknown error")),
        other => panic!("unexpected {other:?}"),
    }
}

#[test]
fn auth_headers_carry_token_and_route_tag() {
    let client = WeixinApiClient::new("tok", Some("rt".to_string()));
    let headers = client.auth_headers_with("uin");
    let expected: Vec<(String, String)> = vec![
        ("authorizationtype".into(), "ilink_bot_token".into()),
        ("x-wechat-uin".into(), "uin".into()),
        ("authorization".into(), "Bearer tok".into()),
        ("skroutetag".into(), "rt".into()),
    ];
    assert_eq!(headers, expected);
    let anonymous = WeixinApiClient::new("", None).auth_headers_with("uin");
    assert_eq!(anonymous.len(), 2);
}

#[test]
fn random_uin_is_base64_of_a_decimal_number() {
    let headers = WeixinApiClient::new("", None).json_headers(17);
    assert_eq!(headers.len(), 4);
    let uin = &headers[1].1;
    let decoded = base64::engine::general_purpose::STANDARD.decode(uin).unwrap();
    let text = String::from_utf8(decoded).unwrap();
    assert!(text.parse::<u32>().is_ok(), "not a number: {text}");
    assert_eq!(headers[2], ("content-type".to_string(), "application/json".to_string()));
    assert_eq!(headers[3], ("content-length".to_string(), "17".to_string()));
    let auth = WeixinApiClient::new("t", None).auth_headers();
    let decoded = base64::engine::general_purpose::STANDARD.decode(&auth[1].1).unwrap();
    assert!(String::from_utf8(decoded).unwrap().parse::<u32>().is_ok());
}

#[test]
fn request_bodies() {
    assert_eq!(api_url("ilink/bot/getupdates"), "https://ilinkai.weixin.qq.com/ilink/bot/getupdates");
    assert_eq!(qr_code_form(), vec![("bot_type".to_string(), "3".to_string())]);
    assert_eq!(qr_code_status_form("q1"), vec![("qrcode".to_string(), "q1".to_string())]);
    let body = get_updates_body(Some("buf"));
    assert_eq!(body.get_updates_buf.as_deref(), Some("buf"));
    assert_eq!(body.base_info.channel_version, "0.1.0");

    let text = text_message_request("to", "ctx", "hi");
    assert_eq!(text.msg.to_user_id, "to");
    assert_eq!(text.msg.context_token, "ctx");
    assert_eq!(text.msg.from_user_id, "");
    assert_eq!(text.msg.message_type, 2);
    assert_eq!(text.msg.message_state, 2);
    assert!(text.msg.client_id.starts_with("wechat-cli-"));
    assert_eq!(text.msg.client_id.len(), 43);
    assert_eq!(text.msg.item_list[0].text_item.as_ref().unwrap().text, "hi");

    let requests = media_message_requests("to", "ctx", Some("caption"), OutboundMessageItem::text("media"));
    assert_eq!(requests.len(), 2);
    assert_eq!(requests[0].msg.item_list[0].text_item.as_ref().unwrap().text, "caption");
    assert_eq!(requests[0].msg.item_list.len(), 1);
    assert!(requests[0].msg.item_list[0].image_item.is_none());
    assert!(requests[0].msg.item_list[0].file_item.is_none());
    assert_eq!(requests[1].msg.item_list[0].text_item.as_ref().unwrap().text, "media");
    assert_ne!(requests[0].msg.client_id, requests[1].msg.client_id);
    let single = media_message_requests("to", "ctx", None, OutboundMessageItem::text("media"));
    assert_eq!(single.len(), 1);
}
