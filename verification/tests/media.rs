use wechat_cli::errors::Error;
use wechat_cli::wechat::media::{
    build_media_item, encrypt_aes_ecb, finish_upload, plan_upload, upload_file_name, upload_url,
    OutboundMediaKind, UploadedMedia,
};
use wechat_cli::wechat::models::GetUploadUrlResponse;

#[test]
fn test_encrypt_aes_ecb_expands_to_block_size() {
    let key = [0x42u8; 16];
    let plaintext = b"Hello, WeChat media encryption!";
    let encrypted = encrypt_aes_ecb(&key, plaintext);
    assert_eq!(encrypted.len() % 16, 0);
    assert!(encrypted.len() >= plaintext.len());
}

#[test]
fn test_build_file_media_item() {
    let item = build_media_item(
        OutboundMediaKind::File,
        &UploadedMedia {
            encrypt_query_param: "param".to_string(),
            aes_key_base64: "key".to_string(),
            file_name: "demo.txt".to_string(),
            file_size: 12,
            file_size_ciphertext: 16,
        },
    );
    assert_eq!(item.item_type, 4);
    assert_eq!(
        item.file_item.as_ref().map(|file| file.file_name.as_str()),
        Some("demo.txt")
    );
    assert_eq!(
        item.file_item.as_ref().map(|file| file.len.as_str()),
        Some("12")
    );
}

#[test]
fn image_media_item_carries_ciphertext_size() {
    let item = build_media_item(
        OutboundMediaKind::Image,
        &UploadedMedia {
            encrypt_query_param: "param".to_string(),
            aes_key_base64: "key".to_string(),
            file_name: "a.png".to_string(),
            file_size: 20,
            file_size_ciphertext: 32,
        },
    );
    assert_eq!(item.item_type, 2);
    let image = item.image_item.unwrap();
    assert_eq!(image.mid_size, 32);
    assert_eq!(image.media.encrypt_query_param, "param");
    assert_eq!(image.media.aes_key, "key");
    assert_eq!(image.media.encrypt_type, 1);
    assert!(item.file_item.is_none() && item.text_item.is_none());
}

#[test]
fn aligned_plaintext_gets_a_full_padding_block() {
    let key = [0u8; 16];
    assert_eq!(encrypt_aes_ecb(&key, &[]).len(), 16);
    assert_eq!(encrypt_aes_ecb(&key, &[7u8; 16]).len(), 32);
    let encrypted = encrypt_aes_ecb(&key, &[7u8; 16]);
    assert_ne!(&encrypted[..16], &[7u8; 16]);
}

#[test]
fn plan_describes_the_upload() {
    let plan = plan_upload("to@im.wechat", "empty.bin", &[], OutboundMediaKind::File, [0x11; 16], [0xab; 16]);
    assert_eq!(plan.request.rawfilemd5, "d41d8cd98f00b204e9800998ecf8427e");
    assert_eq!(plan.request.rawsize, 0);
    assert_eq!(plan.request.filesize, 16);
    assert_eq!(plan.request.media_type, 3);
    assert_eq!(plan.request.filekey, "abababababababababababababababab");
    assert_eq!(plan.request.aeskey, "11111111111111111111111111111111");
    assert_eq!(plan.request.to_user_id, "to@im.wechat");
    assert!(plan.request.no_need_thumb);
    assert_eq!(plan.file_size_ciphertext, 16);
    assert_eq!(plan.encrypted.len(), 16);

    let image = plan_upload("to@im.wechat", "a.png", b"abc", OutboundMediaKind::Image, [0; 16], [1; 16]);
    assert_eq!(image.request.media_type, 1);
    assert_eq!(image.request.rawfilemd5, "900150983cd24fb0d6963f7d28e17f72");
}

#[test]
fn upload_url_encodes_the_parameters() {
    let plan = plan_upload("to@im.wechat", "x", b"x", OutboundMediaKind::File, [0; 16], [0xab; 16]);
    let url = upload_url(&plan, &GetUploadUrlResponse { upload_param: Some("a/b c".to_string()) }).unwrap();
    assert_eq!(
        url,
        "https://novac2c.cdn.weixin.qq.com/c2c/upload?encrypted_query_param=a%2Fb+c&filekey=abababababababababababababababab"
    );
    match upload_url(&plan, &GetUploadUrlResponse { upload_param: None }) {
        Err(Error::Api { code, message }) => {
            assert_eq!(code, -1);
            assert_eq!(message, "no upload_param in response");
        }
        other => panic!("unexpected {other:?}"),
    }
}

#[test]
fn finished_upload_encodes_the_key_text() {
    let plan = plan_upload("to@im.wechat", "x.txt", b"hello", OutboundMediaKind::File, [0x01; 16], [0x02; 16]);
    let media = finish_upload(&plan, Some("enc")).unwrap();
    assert_eq!(media.encrypt_query_param, "enc");
    assert_eq!(media.aes_key_base64, "MDEwMTAxMDEwMTAxMDEwMTAxMDEwMTAxMDEwMTAxMDE=");
    assert_eq!(media.file_name, "x.txt");
    assert_eq!(media.file_size, 5);
    assert_eq!(media.file_size_ciphertext, 16);
    match finish_upload(&plan, None) {
        Err(Error::Api { code, message }) => {
            assert_eq!(code, -1);
            assert_eq!(message, "CDN upload response missing x-encrypted-param");
        }
        other => panic!("unexpected {other:?}"),
    }
}

#[test]
fn upload_file_name_follows_path_file_name() {
    for path in [
        "a.png", "./a.png", "dir/a.png", "/abs/dir/a.png", "dir/", "dir//", "dir/.", "a/./b",
        "..", "a/..", "a/../", ".", "./", "/", "", "...", ".hidden", "a/.b", "x/..y",
    ] {
        let expected = std::path::Path::new(path)
            .file_name()
            .and_then(|n| n.to_str())
            .unwrap_or("file");
        assert_eq!(upload_file_name(path), expected, "path {path:?}");
    }
}
