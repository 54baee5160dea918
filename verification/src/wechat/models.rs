//! Request and response bodies of the iLink bot API, and their builders.
use crate::text::{concat2, copy_opt, decimal, is_lower_hex_digit, opt_view, owned, u64_to_decimal};
use crate::wechat::media::UploadedMedia;
use vstd::prelude::*;

verus! {

/// The client version reported in every request's `base_info`.
pub const CHANNEL_VERSION: &'static str = "0.1.0";

/// Item type of a text item.
pub const MESSAGE_ITEM_TEXT: u64 = 1;

/// Item type of an image item.
pub const MESSAGE_ITEM_IMAGE: u64 = 2;

/// Item type of a file item.
pub const MESSAGE_ITEM_FILE: u64 = 4;

/// Message type of a message sent by the bot.
pub const MESSAGE_TYPE_BOT: u64 = 2;

/// Message state of a complete message.
pub const MESSAGE_STATE_FINISH: u64 = 2;

/// Encryption type of media encrypted with AES-128 in ECB mode.
pub const MEDIA_ENCRYPT_TYPE_AES128_ECB: u64 = 1;

/// The prefix of every outbound message's client id.
pub const CLIENT_ID_PREFIX: &'static str = "wechat-cli-";

/// The characters of an optional borrowed string.
pub open spec fn opt_str_view(o: Option<&str>) -> Option<Seq<char>> {
    match o {
        Some(s) => Some(s@),
        None => None,
    }
}

/// The first of two optional values that is present.
pub open spec fn first_present(a: Option<Seq<char>>, b: Option<Seq<char>>) -> Option<Seq<char>> {
    match a {
        Some(x) => Some(x),
        None => b,
    }
}

/// `s` is a client id: the prefix followed by 32 lower-case hexadecimal digits.
pub open spec fn is_client_id(s: Seq<char>) -> bool {
    &&& s.len() == CLIENT_ID_PREFIX@.len() + 32
    &&& s.subrange(0, CLIENT_ID_PREFIX@.len() as int) == CLIENT_ID_PREFIX@
    &&& forall|i: int|
        CLIENT_ID_PREFIX@.len() <= i < s.len() ==> is_lower_hex_digit(#[trigger] s[i])
}

/// `Uuid::new_v4().simple().to_string()`: a random version-4 UUID written
/// as 32 lower-case hexadecimal digits without hyphens. Only the shape of
/// the result is stated; its value is random.
#[verifier::external_body]
fn random_uuid_simple() -> (r: String)
    ensures
        r@.len() == 32,
        forall|i: int| 0 <= i < 32 ==> is_lower_hex_digit(#[trigger] r@[i]),
{
    uuid::Uuid::new_v4().simple().to_string()
}

/// A fresh client id for an outbound message.
pub fn generate_client_id() -> (r: String)
    ensures
        is_client_id(r@),
{
    let u = random_uuid_simple();
    let r = concat2(CLIENT_ID_PREFIX, u.as_str());
    assert forall|i: int| CLIENT_ID_PREFIX@.len() <= i < r@.len() implies is_lower_hex_digit(
        #[trigger] r@[i],
    ) by {
        assert(r@[i] == u@[i - CLIENT_ID_PREFIX@.len()]);
    }
    assert(r@.subrange(0, CLIENT_ID_PREFIX@.len() as int) =~= CLIENT_ID_PREFIX@);
    r
}

/// The `base_info` object that accompanies every request.
#[derive(Debug)]
pub struct BaseInfo {
    pub channel_version: String,
}

impl BaseInfo {
    /// The `base_info` of this client.
    pub fn current() -> (r: Self)
        ensures
            r.channel_version@ == CHANNEL_VERSION@,
    {
        BaseInfo { channel_version: owned(CHANNEL_VERSION) }
    }
}

/// A response body whose contents are not used.
#[derive(Debug)]
pub struct EmptyResponse {}

/// Response to a QR code request.
#[derive(Debug)]
pub struct FetchQrCodeResponse {
    pub data: Option<QrCodeData>,
    pub qrcode_img_content: Option<String>,
    pub qrcode: Option<String>,
}

/// Response to a QR code status request.
#[derive(Debug)]
pub struct QrCodeStatusResponse {
    pub data: Option<QrCodeData>,
    pub status: Option<String>,
    pub bot_token: Option<String>,
    pub ilink_bot_id: Option<String>,
    pub ilink_user_id: Option<String>,
}

/// The nested `data` object of the QR code responses.
#[derive(Debug)]
pub struct QrCodeData {
    pub qrcode_url: Option<String>,
    pub qrcode_id: Option<String>,
    pub status: Option<String>,
    pub bot_token: Option<String>,
    pub ilink_bot_id: Option<String>,
    pub ilink_user_id: Option<String>,
}

/// Body of a long-poll request for new messages.
#[derive(Debug)]
pub struct GetUpdatesRequest {
    pub get_updates_buf: Option<String>,
    pub base_info: BaseInfo,
}

/// Response to a long-poll request.
#[derive(Debug)]
pub struct GetUpdatesResponse {
    pub get_updates_buf: Option<String>,
    pub msg_list: Option<Vec<InboundMessage>>,
    pub msgs: Option<Vec<InboundMessage>>,
}

impl GetUpdatesResponse {
    /// The messages of the response: `msg_list` where present, else `msgs`.
    pub open spec fn spec_messages(&self) -> Seq<InboundMessage> {
        match self.msg_list {
            Some(v) => v@,
            None => match self.msgs {
                Some(v) => v@,
                None => Seq::empty(),
            },
        }
    }

    /// The messages of the response: `msg_list` where present, else
    /// `msgs`, else none.
    pub fn messages(&self) -> (r: &[InboundMessage])
        ensures
            r@ == self.spec_messages(),
    {
        match &self.msg_list {
            Some(v) => v.as_slice(),
            None => match &self.msgs {
                Some(v) => v.as_slice(),
                None => &[],
            },
        }
    }
}

/// A message received by the bot.
#[derive(Debug)]
pub struct InboundMessage {
    pub from_user_id: String,
    pub to_user_id: String,
    pub context_token: String,
    pub item_list: Vec<InboundMessageItem>,
}

/// One item of a received message.
#[derive(Debug)]
pub struct InboundMessageItem {
    pub item_type: u64,
    pub body: Option<String>,
    pub text_item: Option<TextItem>,
    pub voice_transcription_body: Option<String>,
    pub ref_item_list: Option<Vec<InboundMessageItem>>,
}

/// The payload of a text item.
#[derive(Debug)]
pub struct TextItem {
    pub text: String,
}

/// Body of a send-message request.
#[derive(Debug)]
pub struct SendMessageRequest {
    pub msg: OutboundMessage,
    pub base_info: BaseInfo,
}

impl SendMessageRequest {
    /// A request that sends the single item `item` to `to_user_id`.
    pub fn new(to_user_id: &str, context_token: &str, item: OutboundMessageItem) -> (r: Self)
        ensures
            r.msg.describes(to_user_id@, context_token@),
            r.msg.item_list@ == seq![item],
            r.base_info.channel_version@ == CHANNEL_VERSION@,
    {
        let mut items: Vec<OutboundMessageItem> = Vec::new();
        items.push(item);
        SendMessageRequest {
            msg: OutboundMessage::new(to_user_id, context_token, items),
            base_info: BaseInfo::current(),
        }
    }
}

/// A message sent by the bot.
#[derive(Debug)]
pub struct OutboundMessage {
    pub from_user_id: String,
    pub to_user_id: String,
    pub client_id: String,
    pub message_type: u64,
    pub message_state: u64,
    pub item_list: Vec<OutboundMessageItem>,
    pub context_token: String,
}

impl OutboundMessage {
    /// Every field but the items: a complete bot message to `to` in the
    /// conversation of `context_token`, from no named sender, with a
    /// fresh client id.
    pub open spec fn describes(&self, to: Seq<char>, context_token: Seq<char>) -> bool {
        &&& self.from_user_id@ == Seq::<char>::empty()
        &&& self.to_user_id@ == to
        &&& is_client_id(self.client_id@)
        &&& self.message_type == MESSAGE_TYPE_BOT
        &&& self.message_state == MESSAGE_STATE_FINISH
        &&& self.context_token@ == context_token
    }

    /// A complete bot message holding `item_list`.
    pub fn new(to_user_id: &str, context_token: &str, item_list: Vec<OutboundMessageItem>) -> (r:
        Self)
        ensures
            r.describes(to_user_id@, context_token@),
            r.item_list@ == item_list@,
    {
        OutboundMessage {
            from_user_id: String::new(),
            to_user_id: owned(to_user_id),
            client_id: generate_client_id(),
            message_type: MESSAGE_TYPE_BOT,
            message_state: MESSAGE_STATE_FINISH,
            item_list,
            context_token: owned(context_token),
        }
    }
}

/// One item of an outbound message: a text, an image or a file.
#[derive(Debug)]
pub struct OutboundMessageItem {
    pub item_type: u64,
    pub text_item: Option<TextItem>,
    pub image_item: Option<ImageItem>,
    pub file_item: Option<FileItem>,
}

impl OutboundMessageItem {
    /// A text item.
    pub fn text(text: &str) -> (r: Self)
        ensures
            r.item_type == MESSAGE_ITEM_TEXT,
            r.text_item matches Some(t) && t.text@ == text@,
            r.image_item is None,
            r.file_item is None,
    {
        OutboundMessageItem {
            item_type: MESSAGE_ITEM_TEXT,
            text_item: Some(TextItem { text: owned(text) }),
            image_item: None,
            file_item: None,
        }
    }

    /// An image item.
    pub fn image(image_item: ImageItem) -> (r: Self)
        ensures
            r.item_type == MESSAGE_ITEM_IMAGE,
            r.text_item is None,
            r.image_item == Some(image_item),
            r.file_item is None,
    {
        OutboundMessageItem {
            item_type: MESSAGE_ITEM_IMAGE,
            text_item: None,
            image_item: Some(image_item),
            file_item: None,
        }
    }

    /// A file item.
    pub fn file(file_item: FileItem) -> (r: Self)
        ensures
            r.item_type == MESSAGE_ITEM_FILE,
            r.text_item is None,
            r.image_item is None,
            r.file_item == Some(file_item),
    {
        OutboundMessageItem {
            item_type: MESSAGE_ITEM_FILE,
            text_item: None,
            image_item: None,
            file_item: Some(file_item),
        }
    }
}

/// The payload of an image item.
#[derive(Debug)]
pub struct ImageItem {
    pub media: MediaRef,
    pub mid_size: u64,
}

impl ImageItem {
    /// The image payload that refers to an uploaded file.
    pub fn from_uploaded(uploaded: &UploadedMedia) -> (r: Self)
        ensures
            r.media.refers_to(uploaded),
            r.mid_size == uploaded.file_size_ciphertext,
    {
        ImageItem {
            media: MediaRef::from_uploaded(uploaded),
            mid_size: uploaded.file_size_ciphertext,
        }
    }
}

/// The payload of a file item.
#[derive(Debug)]
pub struct FileItem {
    pub media: MediaRef,
    pub file_name: String,
    pub len: String,
}

impl FileItem {
    /// The file payload that refers to an uploaded file; its length is the
    /// decimal size of the plain file.
    pub fn from_uploaded(uploaded: &UploadedMedia) -> (r: Self)
        ensures
            r.media.refers_to(uploaded),
            r.file_name@ == uploaded.file_name@,
            r.len@ == decimal(uploaded.file_size as nat),
    {
        FileItem {
            media: MediaRef::from_uploaded(uploaded),
            file_name: uploaded.file_name.clone(),
            len: u64_to_decimal(uploaded.file_size),
        }
    }
}

/// Where an uploaded file lies on the CDN and how it is encrypted.
#[derive(Debug)]
pub struct MediaRef {
    pub encrypt_query_param: String,
    pub aes_key: String,
    pub encrypt_type: u64,
}

impl MediaRef {
    /// This reference points at `uploaded`.
    pub open spec fn refers_to(&self, uploaded: &UploadedMedia) -> bool {
        &&& self.encrypt_query_param@ == uploaded.encrypt_query_param@
        &&& self.aes_key@ == uploaded.aes_key_base64@
        &&& self.encrypt_type == MEDIA_ENCRYPT_TYPE_AES128_ECB
    }

    /// The reference to an uploaded file.
    pub fn from_uploaded(uploaded: &UploadedMedia) -> (r: Self)
        ensures
            r.refers_to(uploaded),
    {
        MediaRef {
            encrypt_query_param: uploaded.encrypt_query_param.clone(),
            aes_key: uploaded.aes_key_base64.clone(),
            encrypt_type: MEDIA_ENCRYPT_TYPE_AES128_ECB,
        }
    }
}

/// Body of a request for upload metadata.
#[derive(Debug)]
pub struct GetUploadUrlRequest {
    pub filekey: String,
    pub media_type: u64,
    pub to_user_id: String,
    pub rawsize: u64,
    pub rawfilemd5: String,
    pub filesize: u64,
    pub no_need_thumb: bool,
    pub aeskey: String,
    pub base_info: BaseInfo,
}

impl GetUploadUrlRequest {
    /// An upload-metadata request; thumbnails are never asked for.
    pub fn new(
        filekey: &str,
        media_type: u64,
        to_user_id: &str,
        rawsize: u64,
        rawfilemd5: &str,
        filesize: u64,
        aeskey: &str,
    ) -> (r: Self)
        ensures
            r.filekey@ == filekey@,
            r.media_type == media_type,
            r.to_user_id@ == to_user_id@,
            r.rawsize == rawsize,
            r.rawfilemd5@ == rawfilemd5@,
            r.filesize == filesize,
            r.no_need_thumb,
            r.aeskey@ == aeskey@,
            r.base_info.channel_version@ == CHANNEL_VERSION@,
    {
        GetUploadUrlRequest {
            filekey: owned(filekey),
            media_type,
            to_user_id: owned(to_user_id),
            rawsize,
            rawfilemd5: owned(rawfilemd5),
            filesize,
            no_need_thumb: true,
            aeskey: owned(aeskey),
            base_info: BaseInfo::current(),
        }
    }
}

/// Response to an upload-metadata request.
#[derive(Debug)]
pub struct GetUploadUrlResponse {
    pub upload_param: Option<String>,
}

/// The optional string inside an optional `data` object.
pub open spec fn data_field(data: Option<QrCodeData>, f: spec_fn(QrCodeData) -> Option<String>) -> Option<Seq<char>> {
    match data {
        Some(d) => opt_view(f(d)),
        None => None,
    }
}

/// Borrows an optional string.
fn opt_as_str(o: &Option<String>) -> (r: Option<&str>)
    ensures
        opt_str_view(r) == opt_view(*o),
{
    match o {
        Some(s) => Some(s.as_str()),
        None => None,
    }
}

impl FetchQrCodeResponse {
    /// The QR code URL: `data.qrcode_url`, else `qrcode_img_content`.
    pub fn qrcode_url(&self) -> (r: Option<&str>)
        ensures
            opt_str_view(r) == first_present(
                data_field(self.data, |d: QrCodeData| d.qrcode_url),
                opt_view(self.qrcode_img_content),
            ),
    {
        match &self.data {
            Some(d) => match &d.qrcode_url {
                Some(u) => Some(u.as_str()),
                None => opt_as_str(&self.qrcode_img_content),
            },
            None => opt_as_str(&self.qrcode_img_content),
        }
    }

    /// The QR code id: `data.qrcode_id`, else `qrcode`.
    pub fn qrcode_id(&self) -> (r: Option<&str>)
        ensures
            opt_str_view(r) == first_present(
                data_field(self.data, |d: QrCodeData| d.qrcode_id),
                opt_view(self.qrcode),
            ),
    {
        match &self.data {
            Some(d) => match &d.qrcode_id {
                Some(u) => Some(u.as_str()),
                None => opt_as_str(&self.qrcode),
            },
            None => opt_as_str(&self.qrcode),
        }
    }
}

impl QrCodeStatusResponse {
    /// The scan status: `data.status`, else `status`, else `"unknown"`.
    pub open spec fn spec_status(&self) -> Seq<char> {
        match first_present(data_field(self.data, |d: QrCodeData| d.status), opt_view(self.status)) {
            Some(s) => s,
            None => "unknown"@,
        }
    }

    /// The scan status: `data.status`, else `status`, else `"unknown"`.
    pub fn status(&self) -> (r: &str)
        ensures
            r@ == self.spec_status(),
    {
        match &self.data {
            Some(d) => match &d.status {
                Some(u) => u.as_str(),
                None => match &self.status {
                    Some(s) => s.as_str(),
                    None => "unknown",
                },
            },
            None => match &self.status {
                Some(s) => s.as_str(),
                None => "unknown",
            },
        }
    }

    /// The bot token of a confirmed login: `data.bot_token`, else `bot_token`.
    pub fn bot_token(&self) -> (r: Option<&str>)
        ensures
            opt_str_view(r) == first_present(
                data_field(self.data, |d: QrCodeData| d.bot_token),
                opt_view(self.bot_token),
            ),
    {
        match &self.data {
            Some(d) => match &d.bot_token {
                Some(u) => Some(u.as_str()),
                None => opt_as_str(&self.bot_token),
            },
            None => opt_as_str(&self.bot_token),
        }
    }

    /// The bot id: `data.ilink_bot_id`, else `ilink_bot_id`.
    pub fn ilink_bot_id(&self) -> (r: Option<&str>)
        ensures
            opt_str_view(r) == first_present(
                data_field(self.data, |d: QrCodeData| d.ilink_bot_id),
                opt_view(self.ilink_bot_id),
            ),
    {
        match &self.data {
            Some(d) => match &d.ilink_bot_id {
                Some(u) => Some(u.as_str()),
                None => opt_as_str(&self.ilink_bot_id),
            },
            None => opt_as_str(&self.ilink_bot_id),
        }
    }

    /// The user id of a confirmed login: `data.ilink_user_id`, else `ilink_user_id`.
    pub fn ilink_user_id(&self) -> (r: Option<&str>)
        ensures
            opt_str_view(r) == first_present(
                data_field(self.data, |d: QrCodeData| d.ilink_user_id),
                opt_view(self.ilink_user_id),
            ),
    {
        match &self.data {
            Some(d) => match &d.ilink_user_id {
                Some(u) => Some(u.as_str()),
                None => opt_as_str(&self.ilink_user_id),
            },
            None => opt_as_str(&self.ilink_user_id),
        }
    }
}

impl GetUploadUrlResponse {
    /// The upload parameter, where the response carries one.
    pub fn upload_param(&self) -> (r: Option<&str>)
        ensures
            opt_str_view(r) == opt_view(self.upload_param),
    {
        opt_as_str(&self.upload_param)
    }
}


/// The messages of an updates response are those of `msg_list` wherever it
/// is present, even when it is empty; `msgs` counts only where `msg_list`
/// is absent; with neither there are none.
pub proof fn law_messages_prefer_msg_list(resp: GetUpdatesResponse)
    ensures
        match resp.msg_list {
            Some(v) => resp.spec_messages() == v@,
            None => match resp.msgs {
                Some(v) => resp.spec_messages() == v@,
                None => resp.spec_messages().len() == 0,
            },
        },
{
}

/// The scan status of a QR code status response is read from the nested
/// `data` object where that object carries one, else from the top level,
/// and is `"unknown"` where neither carries one.
pub proof fn law_status_prefers_data(resp: QrCodeStatusResponse)
    ensures
        resp.spec_status() == match resp.data {
            Some(d) => match d.status {
                Some(st) => st@,
                None => match resp.status {
                    Some(st) => st@,
                    None => "unknown"@,
                },
            },
            None => match resp.status {
                Some(st) => st@,
                None => "unknown"@,
            },
        },
{
}

} // verus!
