//! Outbound media: encryption, the upload exchange with the API and the
//! CDN, and the message item that refers to an uploaded file.
use crate::errors::Error;
use crate::storage::CDN_BASE_URL;
use crate::text::{concat2, hex_encode, hex_lower, opt_view, owned};
use crate::wechat::models::{
    FileItem, GetUploadUrlRequest, GetUploadUrlResponse, ImageItem, OutboundMessageItem,
    CHANNEL_VERSION, MESSAGE_ITEM_FILE, MESSAGE_ITEM_IMAGE,
};
use base64::Engine;
use block_padding::Pkcs7;
use cipher::{BlockEncryptMut, KeyInit};
use vstd::prelude::*;
use vstd::utf8::encode_utf8;

verus! {

/// Upload media type of an image.
pub const UPLOAD_MEDIA_IMAGE: u64 = 1;

/// Upload media type of any other file.
pub const UPLOAD_MEDIA_FILE: u64 = 3;

/// A file that has been uploaded to the CDN.
#[derive(Debug)]
pub struct UploadedMedia {
    pub encrypt_query_param: String,
    pub aes_key_base64: String,
    pub file_name: String,
    pub file_size: u64,
    pub file_size_ciphertext: u64,
}

/// Whether a file is sent as an image or as a plain file.
#[derive(Debug, Clone, Copy, PartialEq, Eq, Structural)]
pub enum OutboundMediaKind {
    Image,
    File,
}

/// The upload media type of a kind of media.
pub open spec fn upload_media_type(kind: OutboundMediaKind) -> u64 {
    match kind {
        OutboundMediaKind::Image => UPLOAD_MEDIA_IMAGE,
        OutboundMediaKind::File => UPLOAD_MEDIA_FILE,
    }
}

/// The ciphertext of `data` under AES-128 in ECB mode with PKCS#7 padding
/// and key `key`.
pub uninterp spec fn aes128_ecb_pkcs7(key: Seq<u8>, data: Seq<u8>) -> Seq<u8>;

/// The MD5 digest of `data`.
pub uninterp spec fn md5_digest(data: Seq<u8>) -> Seq<u8>;

/// The character of the standard Base64 alphabet for `v` (`0 <= v < 64`):
/// `A-Z`, `a-z`, `0-9`, `+`, `/`.
pub open spec fn base64_char(v: int) -> char {
    if v < 26 {
        (65 + v) as char
    } else if v < 52 {
        (97 + v - 26) as char
    } else if v < 62 {
        (48 + v - 52) as char
    } else if v == 62 {
        '+'
    } else {
        '/'
    }
}

/// The standard, padded Base64 encoding of `bytes`: each group of three
/// bytes becomes four characters of six bits each; a last group of one or
/// two bytes is padded with `=` to four characters.
pub open spec fn base64_standard(bytes: Seq<u8>) -> Seq<char>
    decreases bytes.len(),
{
    if bytes.len() == 0 {
        Seq::empty()
    } else if bytes.len() == 1 {
        let b0 = bytes[0] as int;
        seq![base64_char(b0 / 4), base64_char((b0 % 4) * 16), '=', '=']
    } else if bytes.len() == 2 {
        let b0 = bytes[0] as int;
        let b1 = bytes[1] as int;
        seq![
            base64_char(b0 / 4),
            base64_char((b0 % 4) * 16 + b1 / 16),
            base64_char((b1 % 16) * 4),
            '=',
        ]
    } else {
        let b0 = bytes[0] as int;
        let b1 = bytes[1] as int;
        let b2 = bytes[2] as int;
        seq![
            base64_char(b0 / 4),
            base64_char((b0 % 4) * 16 + b1 / 16),
            base64_char((b1 % 16) * 4 + b2 / 64),
            base64_char(b2 % 64),
        ] + base64_standard(bytes.subrange(3, bytes.len() as int))
    }
}

/// The URL `base` with the query pairs `(k1, v1)` and `(k2, v2)` appended,
/// or the text of the parse error of `base`.
pub uninterp spec fn url_with_query(
    base: Seq<char>,
    k1: Seq<char>,
    v1: Seq<char>,
    k2: Seq<char>,
    v2: Seq<char>,
) -> Result<Seq<char>, Seq<char>>;

/// `ecb::Encryptor::<aes::Aes128>::new(key).encrypt_padded_vec_mut::<Pkcs7>(data)`.
/// The ciphertext is named by [`aes128_ecb_pkcs7`], not written out; since
/// PKCS#7 always pads, it is one block longer than the whole blocks of the
/// plaintext.
#[verifier::external_body]
fn aes128_ecb_encrypt(key: &[u8; 16], data: &[u8]) -> (r: Vec<u8>)
    requires
        data@.len() + 16 <= usize::MAX,
    ensures
        r@ == aes128_ecb_pkcs7(key@, data@),
        r@.len() == 16 * (data@.len() / 16 + 1),
{
    ecb::Encryptor::<aes::Aes128>::new(key.into()).encrypt_padded_vec_mut::<Pkcs7>(data)
}

/// `md5::compute(data)`: the 16-byte MD5 digest of `data`.
#[verifier::external_body]
fn md5_compute(data: &[u8]) -> (r: [u8; 16])
    ensures
        r@ == md5_digest(data@),
{
    md5::compute(data).0
}

/// `base64::engine::general_purpose::STANDARD.encode(bytes)`: the standard
/// alphabet with `=` padding, as [`base64_standard`] writes it out.
#[verifier::external_body]
pub(crate) fn base64_encode(bytes: &[u8]) -> (r: String)
    ensures
        r@ == base64_standard(bytes@),
{
    base64::engine::general_purpose::STANDARD.encode(bytes)
}

/// `rand::random::<[u8; 16]>()`: sixteen random bytes.
#[verifier::external_body]
fn random_bytes16() -> [u8; 16] {
    rand::random()
}

/// `reqwest::Url::parse_with_params(base, [(k1, v1), (k2, v2)])`, rendered
/// as a string, or the text of its error.
#[verifier::external_body]
fn parse_url_with_query(base: &str, k1: &str, v1: &str, k2: &str, v2: &str) -> (r: Result<
    String,
    String,
>)
    ensures
        match r {
            Ok(u) => url_with_query(base@, k1@, v1@, k2@, v2@) == Ok::<Seq<char>, Seq<char>>(u@),
            Err(e) => url_with_query(base@, k1@, v1@, k2@, v2@) == Err::<Seq<char>, Seq<char>>(e@),
        },
{
    match reqwest::Url::parse_with_params(base, [(k1, v1), (k2, v2)]) {
        Ok(u) => Ok(u.to_string()),
        Err(e) => Err(e.to_string()),
    }
}

/// Encrypts `data` with AES-128 in ECB mode and PKCS#7 padding.
pub fn encrypt_aes_ecb(key: &[u8; 16], data: &[u8]) -> (r: Vec<u8>)
    requires
        data@.len() + 16 <= usize::MAX,
    ensures
        r@ == aes128_ecb_pkcs7(key@, data@),
        r@.len() == 16 * (data@.len() / 16 + 1),
{
    aes128_ecb_encrypt(key, data)
}

/// Everything about an upload that is known before the API is asked for
/// an upload slot.
#[derive(Debug)]
pub struct UploadPlan {
    /// The body of the upload-metadata request.
    pub request: GetUploadUrlRequest,
    /// The encrypted file contents to send to the CDN.
    pub encrypted: Vec<u8>,
    /// The AES key the file is encrypted with.
    pub aes_key: [u8; 16],
    /// The file key that names the upload.
    pub filekey: [u8; 16],
    /// The AES key in lower-case hexadecimal.
    pub aes_key_hex: String,
    /// The file key in lower-case hexadecimal.
    pub filekey_hex: String,
    /// The name the file is sent under.
    pub file_name: String,
    /// The size of the plain file.
    pub file_size: u64,
    /// The size of the encrypted file.
    pub file_size_ciphertext: u64,
}

impl UploadPlan {
    /// This plan uploads `data` under `file_name` to `to_user_id` as media of
    /// kind `kind`, encrypted with its own AES key and named by its own file key.
    pub open spec fn plans(
        &self,
        to_user_id: Seq<char>,
        file_name: Seq<char>,
        data: Seq<u8>,
        kind: OutboundMediaKind,
    ) -> bool {
        &&& self.encrypted@ == aes128_ecb_pkcs7(self.aes_key@, data)
        &&& self.encrypted@.len() == 16 * (data.len() / 16 + 1)
        &&& self.aes_key_hex@ == hex_lower(self.aes_key@)
        &&& self.filekey_hex@ == hex_lower(self.filekey@)
        &&& self.file_name@ == file_name
        &&& self.file_size == data.len()
        &&& self.file_size_ciphertext == self.encrypted@.len()
        &&& self.request.filekey@ == hex_lower(self.filekey@)
        &&& self.request.media_type == upload_media_type(kind)
        &&& self.request.to_user_id@ == to_user_id
        &&& self.request.rawsize == data.len()
        &&& self.request.rawfilemd5@ == hex_lower(md5_digest(data))
        &&& self.request.filesize == self.encrypted@.len()
        &&& self.request.no_need_thumb
        &&& self.request.aeskey@ == hex_lower(self.aes_key@)
        &&& self.request.base_info.channel_version@ == CHANNEL_VERSION@
    }
}

/// Plans the upload of `data` with the given AES key and file key.
pub fn plan_upload(
    to_user_id: &str,
    file_name: &str,
    data: &[u8],
    kind: OutboundMediaKind,
    aes_key: [u8; 16],
    filekey: [u8; 16],
) -> (r: UploadPlan)
    requires
        data@.len() + 16 <= usize::MAX,
        data@.len() + 16 <= u64::MAX,
    ensures
        r.plans(to_user_id@, file_name@, data@, kind),
        r.aes_key@ == aes_key@,
        r.filekey@ == filekey@,
{
    let file_size = data.len() as u64;
    let digest = md5_compute(data);
    let rawfilemd5 = hex_encode(&digest);
    let aes_key_hex = hex_encode(&aes_key);
    let encrypted = aes128_ecb_encrypt(&aes_key, data);
    let file_size_ciphertext = encrypted.len() as u64;
    let filekey_hex = hex_encode(&filekey);
    let media_type = match kind {
        OutboundMediaKind::Image => UPLOAD_MEDIA_IMAGE,
        OutboundMediaKind::File => UPLOAD_MEDIA_FILE,
    };
    let request = GetUploadUrlRequest::new(
        filekey_hex.as_str(),
        media_type,
        to_user_id,
        file_size,
        rawfilemd5.as_str(),
        file_size_ciphertext,
        aes_key_hex.as_str(),
    );
    UploadPlan {
        request,
        encrypted,
        aes_key,
        filekey,
        aes_key_hex,
        filekey_hex,
        file_name: owned(file_name),
        file_size,
        file_size_ciphertext,
    }
}

/// Plans the upload of `data` under a fresh random AES key and file key.
pub fn prepare_upload(to_user_id: &str, file_name: &str, data: &[u8], kind: OutboundMediaKind) -> (r:
    UploadPlan)
    requires
        data@.len() + 16 <= usize::MAX,
        data@.len() + 16 <= u64::MAX,
    ensures
        r.plans(to_user_id@, file_name@, data@, kind),
{
    let aes_key = random_bytes16();
    let filekey = random_bytes16();
    plan_upload(to_user_id, file_name, data, kind, aes_key, filekey)
}

/// The run of characters after the last `/` of `p`.
pub open spec fn trailing_segment(p: Seq<char>) -> Seq<char>
    decreases p.len(),
{
    if p.len() == 0 || p.last() == '/' {
        Seq::empty()
    } else {
        trailing_segment(p.drop_last()).push(p.last())
    }
}

/// The file name of the path `p`, as `Path::file_name` finds it: its last
/// component, trailing slashes and `.` components skipped; none where that
/// component is `..` or there is no component.
pub open spec fn path_file_name(p: Seq<char>) -> Option<Seq<char>>
    decreases p.len(),
{
    if p.len() == 0 {
        None
    } else if p.last() == '/' {
        path_file_name(p.drop_last())
    } else if trailing_segment(p) == seq!['.'] {
        path_file_name(p.drop_last())
    } else if trailing_segment(p) == seq!['.', '.'] {
        None
    } else {
        Some(trailing_segment(p))
    }
}

/// The trailing segment of `p` is what follows position `start`, where
/// `start` is the start of `p` or follows a `/` and no `/` comes after it.
proof fn lemma_trailing_segment(p: Seq<char>, start: int)
    requires
        0 <= start <= p.len(),
        start == 0 || p[start - 1] == '/',
        forall|i: int| start <= i < p.len() ==> p[i] != '/',
    ensures
        trailing_segment(p) == p.subrange(start, p.len() as int),
    decreases p.len(),
{
    if p.len() == start {
        assert(p.subrange(start, p.len() as int) =~= Seq::<char>::empty());
    } else {
        lemma_trailing_segment(p.drop_last(), start);
        assert(p.drop_last().subrange(start, p.len() - 1).push(p.last()) =~= p.subrange(
            start,
            p.len() as int,
        ));
    }
}

/// The file name of a path (`Path::file_name`).
fn path_file_name_of(path: &str) -> (r: Option<String>)
    ensures
        opt_view(r) == path_file_name(path@),
{
    let n = path.unicode_len();
    let mut end: usize = n;
    assert(path@.subrange(0, n as int) =~= path@);
    loop
        invariant
            n == path@.len(),
            end <= n,
            path_file_name(path@.subrange(0, end as int)) == path_file_name(path@),
        decreases end,
    {
        let ghost q = path@.subrange(0, end as int);
        if end == 0 {
            return None;
        }
        let c = path.get_char(end - 1);
        assert(q.drop_last() =~= path@.subrange(0, end - 1));
        assert(q.last() == c);
        if c == '/' {
            end = end - 1;
        } else {
            let mut start: usize = end - 1;
            while start > 0 && path.get_char(start - 1) != '/'
                invariant
                    n == path@.len(),
                    start < end <= n,
                    forall|i: int| start <= i < end ==> path@[i] != '/',
                decreases start,
            {
                start = start - 1;
            }
            proof {
                lemma_trailing_segment(q, start as int);
            }
            let seg = path.substring_char(start, end);
            assert(seg@ =~= trailing_segment(q));
            if end - start == 1 && c == '.' {
                assert(trailing_segment(q) =~= seq!['.']);
                end = end - 1;
            } else if end - start == 2 && c == '.' && path.get_char(start) == '.' {
                assert(trailing_segment(q) =~= seq!['.', '.']);
                return None;
            } else {
                assert(trailing_segment(q) != seq!['.']) by {
                    if trailing_segment(q) == seq!['.'] {
                        assert(seg@.len() == 1 && seg@[0] == '.');
                    }
                }
                assert(trailing_segment(q) != seq!['.', '.']) by {
                    if trailing_segment(q) == seq!['.', '.'] {
                        assert(seg@.len() == 2 && seg@[0] == '.' && seg@[1] == '.');
                    }
                }
                return Some(owned(seg));
            }
        }
    }
}

/// The name a file is uploaded under: the file name of its path, or
/// `file` where the path has none.
pub fn upload_file_name(path: &str) -> (r: String)
    ensures
        r@ == match path_file_name(path@) {
            Some(name) => name,
            None => "file"@,
        },
{
    match path_file_name_of(path) {
        Some(name) => name,
        None => owned("file"),
    }
}

/// The CDN upload endpoint, `<CDN base>/upload`.
pub open spec fn cdn_upload_endpoint() -> Seq<char> {
    CDN_BASE_URL@ + "/upload"@
}

/// The CDN URL to post the encrypted file to, from the upload parameter
/// that the API returned: the upload endpoint with the parameter and the
/// file key as query pairs. A missing parameter or an unparsable URL is an
/// API error with code -1.
pub fn upload_url(plan: &UploadPlan, response: &GetUploadUrlResponse) -> (r: Result<String, Error>)
    ensures
        match response.upload_param {
            None => r matches Err(Error::Api { code, message }) && code == -1 && message@
                == "no upload_param in response"@,
            Some(p) => match url_with_query(
                cdn_upload_endpoint(),
                "encrypted_query_param"@,
                p@,
                "filekey"@,
                plan.filekey_hex@,
            ) {
                Ok(u) => r matches Ok(s) && s@ == u,
                Err(e) => r matches Err(Error::Api { code, message }) && code == -1 && message@
                    == "invalid upload url: "@ + e,
            },
        },
{
    match &response.upload_param {
        None => Err(Error::Api { code: -1, message: owned("no upload_param in response") }),
        Some(param) => {
            let endpoint = concat2(CDN_BASE_URL, "/upload");
            match parse_url_with_query(
                endpoint.as_str(),
                "encrypted_query_param",
                param.as_str(),
                "filekey",
                plan.filekey_hex.as_str(),
            ) {
                Ok(u) => Ok(u),
                Err(e) => Err(Error::Api { code: -1, message: concat2("invalid upload url: ", e.as_str()) }),
            }
        },
    }
}

/// The record of a finished upload, from the `x-encrypted-param` header of
/// the CDN's answer; a missing header is an API error with code -1. The
/// AES key is handed on as the Base64 encoding of its hexadecimal text.
pub fn finish_upload(plan: &UploadPlan, encrypt_query_param: Option<&str>) -> (r: Result<
    UploadedMedia,
    Error,
>)
    ensures
        match encrypt_query_param {
            None => r matches Err(Error::Api { code, message }) && code == -1 && message@
                == "CDN upload response missing x-encrypted-param"@,
            Some(p) => r matches Ok(m) && m.encrypt_query_param@ == p@ && m.aes_key_base64@
                == base64_standard(encode_utf8(plan.aes_key_hex@)) && m.file_name@
                == plan.file_name@ && m.file_size == plan.file_size && m.file_size_ciphertext
                == plan.file_size_ciphertext,
        },
{
    match encrypt_query_param {
        None => Err(
            Error::Api {
                code: -1,
                message: owned("CDN upload response missing x-encrypted-param"),
            },
        ),
        Some(p) => {
            let key_text = plan.aes_key_hex.as_str();
            let aes_key_base64 = base64_encode(key_text.as_bytes());
            Ok(
                UploadedMedia {
                    encrypt_query_param: owned(p),
                    aes_key_base64,
                    file_name: plan.file_name.clone(),
                    file_size: plan.file_size,
                    file_size_ciphertext: plan.file_size_ciphertext,
                },
            )
        },
    }
}

/// The message item that sends an uploaded file: an image item for
/// images, a file item otherwise.
pub fn build_media_item(kind: OutboundMediaKind, uploaded: &UploadedMedia) -> (r: OutboundMessageItem)
    ensures
        match kind {
            OutboundMediaKind::Image => {
                &&& r.item_type == MESSAGE_ITEM_IMAGE
                &&& r.text_item is None
                &&& r.file_item is None
                &&& r.image_item matches Some(i) && i.media.refers_to(uploaded) && i.mid_size
                    == uploaded.file_size_ciphertext
            },
            OutboundMediaKind::File => {
                &&& r.item_type == MESSAGE_ITEM_FILE
                &&& r.text_item is None
                &&& r.image_item is None
                &&& r.file_item matches Some(f) && f.media.refers_to(uploaded) && f.file_name@
                    == uploaded.file_name@ && f.len@ == crate::text::decimal(
                    uploaded.file_size as nat,
                )
            },
        },
{
    match kind {
        OutboundMediaKind::Image => OutboundMessageItem::image(ImageItem::from_uploaded(uploaded)),
        OutboundMediaKind::File => OutboundMessageItem::file(FileItem::from_uploaded(uploaded)),
    }
}

} // verus!
