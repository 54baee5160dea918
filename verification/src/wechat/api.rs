//! The iLink bot API client: its credentials, the headers and bodies of its
//! requests, and how a response's status fields are judged.
use crate::errors::Error;
use crate::storage::ILINK_API_ROOT;
use crate::text::{concat2, concat3, copy_opt, decimal, opt_view, owned, u64_to_decimal};
use crate::wechat::media::{base64_encode, base64_standard};
use crate::wechat::models::{
    BaseInfo, GetUpdatesRequest, OutboundMessageItem, SendMessageRequest, CHANNEL_VERSION,
    MESSAGE_ITEM_TEXT,
};
use vstd::prelude::*;
use vstd::utf8::encode_utf8;

verus! {

/// The `errcode` with which the API reports an expired session.
pub const SESSION_EXPIRED_ERRCODE: i64 = -14;

/// Path of the QR code request.
pub const GET_BOT_QRCODE_PATH: &'static str = "ilink/bot/get_bot_qrcode";

/// Path of the QR code status request.
pub const GET_QRCODE_STATUS_PATH: &'static str = "ilink/bot/get_qrcode_status";

/// Path of the long-poll request for new messages.
pub const GET_UPDATES_PATH: &'static str = "ilink/bot/getupdates";

/// Path of the send-message request.
pub const SEND_MESSAGE_PATH: &'static str = "ilink/bot/sendmessage";

/// Path of the upload-metadata request.
pub const GET_UPLOAD_URL_PATH: &'static str = "ilink/bot/getuploadurl";

/// Seconds to wait for an ordinary request.
pub const DEFAULT_TIMEOUT_SECS: u64 = 30;

/// Seconds to wait for a long-poll request (updates and QR code status).
pub const LONG_POLL_TIMEOUT_SECS: u64 = 40;

/// The status fields of an API response.
#[derive(Debug)]
pub struct ApiStatus {
    pub errcode: Option<i64>,
    pub errmsg: Option<String>,
    pub ret: Option<i64>,
    pub err_msg: Option<String>,
}

/// An optional message, or `"unknown error"` where there is none.
pub open spec fn message_or_unknown(m: Option<String>) -> Seq<char> {
    match m {
        Some(s) => s@,
        None => "unknown error"@,
    }
}

/// A status code that is absent or zero.
pub open spec fn code_is_ok(c: Option<i64>) -> bool {
    c is None || c == Some(0i64)
}

/// The API client: the bot token and the optional route tag that every
/// request carries.
#[derive(Debug)]
pub struct WeixinApiClient {
    token: String,
    route_tag: Option<String>,
}

/// One header as a name and a value.
pub open spec fn header_view(h: (String, String)) -> (Seq<char>, Seq<char>) {
    (h.0@, h.1@)
}

/// The headers as names and values.
pub open spec fn headers_view(v: Seq<(String, String)>) -> Seq<(Seq<char>, Seq<char>)> {
    v.map_values(|h: (String, String)| header_view(h))
}

/// `rand::random::<u32>()`: a random number.
#[verifier::external_body]
fn random_u32() -> u32 {
    rand::random()
}

/// The `x-wechat-uin` value for the number `n`: the Base64 encoding of
/// its decimal text.
pub open spec fn wechat_uin(n: u32) -> Seq<char> {
    base64_standard(encode_utf8(decimal(n as nat)))
}

/// A random `x-wechat-uin` value: the Base64 encoding of the decimal text
/// of a random 32-bit number.
pub fn random_wechat_uin() -> (r: String)
    ensures
        exists|n: u32| r@ == #[trigger] wechat_uin(n),
{
    let n = random_u32();
    let digits = u64_to_decimal(n as u64);
    let r = base64_encode(digits.as_str().as_bytes());
    assert(r@ == wechat_uin(n));
    r
}

/// Makes a header from a name and a value.
fn header(name: &str, value: &str) -> (h: (String, String))
    ensures
        header_view(h) == (name@, value@),
{
    (owned(name), owned(value))
}

impl WeixinApiClient {
    /// The bot token.
    pub closed spec fn spec_token(&self) -> Seq<char> {
        self.token@
    }

    /// The route tag.
    pub closed spec fn spec_route_tag(&self) -> Option<Seq<char>> {
        opt_view(self.route_tag)
    }

    /// A client that authenticates with `token` and routes by `route_tag`.
    pub fn new(token: &str, route_tag: Option<String>) -> (r: Self)
        ensures
            r.spec_token() == token@,
            r.spec_route_tag() == opt_view(route_tag),
    {
        WeixinApiClient { token: owned(token), route_tag }
    }

    /// The bot token.
    pub fn token(&self) -> (r: &str)
        ensures
            r@ == self.spec_token(),
    {
        self.token.as_str()
    }

    /// The route tag.
    pub fn route_tag(&self) -> (r: Option<String>)
        ensures
            opt_view(r) == self.spec_route_tag(),
    {
        copy_opt(&self.route_tag)
    }

    /// The authentication headers for a request carrying `uin`.
    pub open spec fn spec_auth_headers(&self, uin: Seq<char>) -> Seq<(Seq<char>, Seq<char>)> {
        let base = seq![("authorizationtype"@, "ilink_bot_token"@), ("x-wechat-uin"@, uin)];
        let with_token = if self.spec_token().len() == 0 {
            base
        } else {
            base.push(("authorization"@, "Bearer "@ + self.spec_token()))
        };
        match self.spec_route_tag() {
            Some(tag) => with_token.push(("skroutetag"@, tag)),
            None => with_token,
        }
    }

    /// The authentication headers with the given `x-wechat-uin`: the token
    /// type, the uin, a bearer token unless the token is empty, and the
    /// route tag where there is one.
    pub fn auth_headers_with(&self, uin: &str) -> (r: Vec<(String, String)>)
        ensures
            headers_view(r@) == self.spec_auth_headers(uin@),
    {
        let mut headers: Vec<(String, String)> = Vec::new();
        headers.push(header("authorizationtype", "ilink_bot_token"));
        headers.push(header("x-wechat-uin", uin));
        if !self.token.as_str().is_empty() {
            let bearer = concat2("Bearer ", self.token.as_str());
            headers.push(header("authorization", bearer.as_str()));
        }
        match &self.route_tag {
            Some(tag) => {
                headers.push(header("skroutetag", tag.as_str()));
            },
            None => {},
        }
        assert(headers_view(headers@) =~= self.spec_auth_headers(uin@));
        headers
    }

    /// The authentication headers of a request, with the uin of a random
    /// 32-bit number.
    pub fn auth_headers(&self) -> (r: Vec<(String, String)>)
        ensures
            exists|n: u32| headers_view(r@) == self.spec_auth_headers(#[trigger] wechat_uin(n)),
    {
        let uin = random_wechat_uin();
        let r = self.auth_headers_with(uin.as_str());
        proof {
            let n = choose|n: u32| uin@ == #[trigger] wechat_uin(n);
            assert(headers_view(r@) == self.spec_auth_headers(wechat_uin(n)));
        }
        r
    }

    /// The headers of a JSON request whose body is `content_length` bytes
    /// long: the authentication headers, then the content type and length.
    pub fn json_headers(&self, content_length: usize) -> (r: Vec<(String, String)>)
        ensures
            exists|n: u32|
                headers_view(r@) == self.spec_auth_headers(#[trigger] wechat_uin(n)).push(
                    ("content-type"@, "application/json"@),
                ).push(("content-length"@, decimal(content_length as nat))),
    {
        let mut headers = self.auth_headers();
        let ghost before = headers@;
        let ghost n = choose|n: u32| headers_view(before) == self.spec_auth_headers(#[trigger] wechat_uin(n));
        headers.push(header("content-type", "application/json"));
        let len = u64_to_decimal(content_length as u64);
        headers.push(header("content-length", len.as_str()));
        assert(headers_view(headers@) =~= headers_view(before).push(
            ("content-type"@, "application/json"@),
        ).push(("content-length"@, decimal(content_length as nat))));
        assert(headers_view(headers@) == self.spec_auth_headers(wechat_uin(n)).push(
            ("content-type"@, "application/json"@),
        ).push(("content-length"@, decimal(content_length as nat))));
        headers
    }
}

/// The URL of an API path: the API root, a slash, and the path.
pub fn api_url(path: &str) -> (r: String)
    ensures
        r@ == ILINK_API_ROOT@ + "/"@ + path@,
{
    concat3(ILINK_API_ROOT, "/", path)
}

/// Judges the status fields of a response: an `errcode` of -14 means the
/// session expired; another non-zero `errcode`, or failing that a non-zero
/// `ret`, is an API error with the matching message (or "unknown error").
pub fn check_api_status(status: &ApiStatus) -> (r: Result<(), Error>)
    ensures
        r is Ok <==> code_is_ok(status.errcode) && code_is_ok(status.ret),
        r matches Err(Error::SessionExpired) <==> status.errcode == Some(SESSION_EXPIRED_ERRCODE),
        match r {
            Ok(_) => true,
            Err(Error::SessionExpired) => true,
            Err(Error::Api { code, message }) => if code_is_ok(status.errcode) {
                status.ret == Some(code) && message@ == message_or_unknown(status.err_msg)
            } else {
                status.errcode == Some(code) && message@ == message_or_unknown(status.errmsg)
            },
            Err(_) => false,
        },
{
    match status.errcode {
        Some(code) => {
            if code == SESSION_EXPIRED_ERRCODE {
                return Err(Error::SessionExpired);
            }
            if code != 0 {
                let message = match &status.errmsg {
                    Some(m) => m.clone(),
                    None => owned("unknown error"),
                };
                return Err(Error::Api { code, message });
            }
        },
        None => {},
    }
    match status.ret {
        Some(code) => {
            if code != 0 {
                let message = match &status.err_msg {
                    Some(m) => m.clone(),
                    None => owned("unknown error"),
                };
                return Err(Error::Api { code, message });
            }
        },
        None => {},
    }
    Ok(())
}

/// The form of a QR code request: a bot of type 3.
pub fn qr_code_form() -> (r: Vec<(String, String)>)
    ensures
        headers_view(r@) == seq![("bot_type"@, "3"@)],
{
    let mut form: Vec<(String, String)> = Vec::new();
    form.push(header("bot_type", "3"));
    assert(headers_view(form@) =~= seq![("bot_type"@, "3"@)]);
    form
}

/// The form of a QR code status request.
pub fn qr_code_status_form(qrcode_id: &str) -> (r: Vec<(String, String)>)
    ensures
        headers_view(r@) == seq![("qrcode"@, qrcode_id@)],
{
    let mut form: Vec<(String, String)> = Vec::new();
    form.push(header("qrcode", qrcode_id));
    assert(headers_view(form@) =~= seq![("qrcode"@, qrcode_id@)]);
    form
}

/// The body of a long-poll request, resuming from `buf` where given.
pub fn get_updates_body(buf: Option<&str>) -> (r: GetUpdatesRequest)
    ensures
        opt_view(r.get_updates_buf) == match buf {
            Some(b) => Some(b@),
            None => None::<Seq<char>>,
        },
        r.base_info.channel_version@ == CHANNEL_VERSION@,
{
    GetUpdatesRequest { get_updates_buf: crate::text::own_opt(buf), base_info: BaseInfo::current() }
}

/// The request that sends the plain text `text` to `to_user_id`.
pub fn text_message_request(to_user_id: &str, context_token: &str, text: &str) -> (r:
    SendMessageRequest)
    ensures
        r.msg.describes(to_user_id@, context_token@),
        r.msg.item_list@.len() == 1,
        r.msg.item_list@[0].item_type == MESSAGE_ITEM_TEXT,
        r.msg.item_list@[0].text_item matches Some(t) && t.text@ == text@,
        r.msg.item_list@[0].image_item is None,
        r.msg.item_list@[0].file_item is None,
        r.base_info.channel_version@ == CHANNEL_VERSION@,
{
    SendMessageRequest::new(to_user_id, context_token, OutboundMessageItem::text(text))
}

/// The requests that send a media item, in order: the caption as a text
/// message first where there is one, then the media item.
pub fn media_message_requests(
    to_user_id: &str,
    context_token: &str,
    text: Option<&str>,
    media_item: OutboundMessageItem,
) -> (r: Vec<SendMessageRequest>)
    ensures
        r@.len() == if text is Some { 2int } else { 1int },
        forall|i: int| 0 <= i < r@.len() ==> (#[trigger] r@[i]).msg.describes(to_user_id@, context_token@),
        match text {
            Some(t) => {
                &&& r@[0].msg.item_list@.len() == 1
                &&& r@[0].msg.item_list@[0].item_type == MESSAGE_ITEM_TEXT
                &&& r@[0].msg.item_list@[0].text_item matches Some(x) && x.text@ == t@
                &&& r@[0].msg.item_list@[0].image_item is None
                &&& r@[0].msg.item_list@[0].file_item is None
            },
            None => true,
        },
        r@[r@.len() - 1].msg.item_list@ == seq![media_item],
{
    let mut requests: Vec<SendMessageRequest> = Vec::new();
    match text {
        Some(t) => {
            requests.push(text_message_request(to_user_id, context_token, t));
        },
        None => {},
    }
    requests.push(SendMessageRequest::new(to_user_id, context_token, media_item));
    requests
}

/// Every request is authenticated the same way, whatever the route tag:
/// the token type and the uin come first; a non-empty bot token always adds
/// `authorization: Bearer <token>` right after them, and an empty one adds
/// no such header; a route tag only adds `skroutetag`, last; nothing else
/// is sent.
pub proof fn law_auth_headers(c: WeixinApiClient, uin: Seq<char>)
    ensures
        ({
            let h = c.spec_auth_headers(uin);
            let t = c.spec_token();
            &&& h.len() == 2 + (if t.len() > 0 { 1int } else { 0int }) + (if c.spec_route_tag() is Some {
                1int
            } else {
                0int
            })
            &&& h[0] == ("authorizationtype"@, "ilink_bot_token"@)
            &&& h[1] == ("x-wechat-uin"@, uin)
            &&& t.len() > 0 ==> h[2] == ("authorization"@, "Bearer "@ + t)
            &&& t.len() == 0 ==> forall|i: int| 0 <= i < h.len() ==> (#[trigger] h[i]).0 != "authorization"@
            &&& match c.spec_route_tag() {
                Some(tag) => h[h.len() - 1] == ("skroutetag"@, tag),
                None => forall|i: int| 0 <= i < h.len() ==> (#[trigger] h[i]).0 != "skroutetag"@,
            }
        }),
{
    reveal_strlit("authorizationtype");
    reveal_strlit("x-wechat-uin");
    reveal_strlit("authorization");
    reveal_strlit("skroutetag");
    assert("authorizationtype"@.len() == 17);
    assert("x-wechat-uin"@.len() == 12);
    assert("authorization"@.len() == 13);
    assert("skroutetag"@.len() == 10);
}

} // verus!
