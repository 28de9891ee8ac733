use image::ImageOutputFormat;
use kylin_stock::attachment::{
    attachment_preview, check_attachment_deleted, check_attachment_file, check_attachment_slot,
    check_attachment_target, detect_image_mime, entity_table, normalize_image_for_preview,
    prepare_attachment_image, preview_format, validate_entity_type, AttachmentData,
    PreviewFormat, MAX_ATTACHMENTS_PER_ENTITY, MAX_FILE_SIZE,
};
use std::io::Cursor;

fn png_fixture(with_alpha: bool) -> Vec<u8> {
    let source = if with_alpha {
        image::DynamicImage::new_rgba8(2, 2)
    } else {
        image::DynamicImage::new_rgb8(2, 2)
    };
    let mut encoded = Cursor::new(Vec::new());
    source
        .write_to(&mut encoded, ImageOutputFormat::Png)
        .expect("encode fixture");
    encoded.into_inner()
}

#[test]
fn recognizes_supported_image_signatures() {
    assert_eq!(
        detect_image_mime(b"\x89PNG\r\n\x1a\nrest"),
        Some("image/png")
    );
    assert_eq!(
        detect_image_mime(&[0xff, 0xd8, 0xff, 0xe0]),
        Some("image/jpeg")
    );
    assert_eq!(detect_image_mime(b"RIFF1234WEBPdata"), Some("image/webp"));
    assert_eq!(detect_image_mime(b"GIF89arest"), Some("image/gif"));
    assert_eq!(detect_image_mime(b"BMrest"), Some("image/bmp"));
}

#[test]
fn rejects_files_that_only_claim_to_be_images() {
    assert_eq!(detect_image_mime(b"not an image"), None);
}

#[test]
fn normalizes_supported_images_and_rejects_broken_data() {
    let source = image::DynamicImage::new_rgb8(2, 2);
    let mut encoded = Cursor::new(Vec::new());
    source
        .write_to(&mut encoded, ImageOutputFormat::Png)
        .expect("encode fixture");

    let (mime_type, normalized) =
        normalize_image_for_preview(&encoded.into_inner()).expect("normalize image");
    assert_eq!(mime_type, "image/jpeg");
    assert_eq!(detect_image_mime(&normalized), Some("image/jpeg"));
    assert!(normalize_image_for_preview(b"not an image").is_err());
}

#[test]
fn image_signature_edge_cases() {
    assert_eq!(detect_image_mime(b""), None);
    assert_eq!(detect_image_mime(&[0xff]), None);
    assert_eq!(detect_image_mime(b"GIF87a"), Some("image/gif"));
    assert_eq!(detect_image_mime(b"GIF88a"), None);
    // A RIFF container shorter than 12 bytes is no WebP.
    assert_eq!(detect_image_mime(b"RIFF1234WEB"), None);
    assert_eq!(detect_image_mime(b"RIFF1234WAVE"), None);
    // PNG needs its whole 8-byte signature.
    assert_eq!(detect_image_mime(b"\x89PNG\r\n\x1a"), None);
}

#[test]
fn transparent_images_stay_png() {
    let (mime_type, normalized) =
        normalize_image_for_preview(&png_fixture(true)).expect("normalize image");
    assert_eq!(mime_type, "image/png");
    assert_eq!(detect_image_mime(&normalized), Some("image/png"));
}

#[test]
fn broken_image_message() {
    assert_eq!(
        normalize_image_for_preview(b"\x89PNG\r\n\x1a\nbroken").unwrap_err(),
        "图片内容已损坏或格式不兼容，请换一张图片后重试"
    );
}

#[test]
fn preview_format_follows_transparency() {
    assert_eq!(preview_format(true), (PreviewFormat::Png, "image/png"));
    assert_eq!(
        preview_format(false),
        (PreviewFormat::Jpeg { quality: 90 }, "image/jpeg")
    );
}

#[test]
fn preview_is_base64_of_the_normalized_image() {
    let data = attachment_preview(&png_fixture(false)).expect("preview");
    assert_eq!(data.mime_type, "image/jpeg");
    assert!(data.data.starts_with("/9j/"));
    let direct = AttachmentData::from_preview("image/png", b"hello");
    assert_eq!(direct.data, "aGVsbG8=");
    assert_eq!(direct.mime_type, "image/png");
    assert!(attachment_preview(b"nope").is_err());
}

#[test]
fn entity_types_and_tables() {
    assert_eq!(validate_entity_type("MATERIAL"), Ok("MATERIAL"));
    assert_eq!(validate_entity_type("TRANSACTION"), Ok("TRANSACTION"));
    assert_eq!(
        validate_entity_type("material"),
        Err("不支持的附件归属类型".to_string())
    );
    assert_eq!(entity_table("MATERIAL"), Ok("materials"));
    assert_eq!(entity_table("TRANSACTION"), Ok("stock_transactions"));
    assert!(entity_table("OTHER").is_err());
}

#[test]
fn attachment_target_and_file_checks() {
    assert_eq!(check_attachment_target("MATERIAL", 3), Ok("MATERIAL"));
    assert_eq!(
        check_attachment_target("MATERIAL", 0),
        Err("附件所属记录无效".to_string())
    );
    assert_eq!(
        check_attachment_target("X", 3),
        Err("不支持的附件归属类型".to_string())
    );
    assert_eq!(
        check_attachment_file(false, 10),
        Err("所选内容不是图片文件".to_string())
    );
    assert_eq!(
        check_attachment_file(true, 0),
        Err("不能添加空图片".to_string())
    );
    assert_eq!(check_attachment_file(true, MAX_FILE_SIZE), Ok(()));
    assert_eq!(
        check_attachment_file(true, MAX_FILE_SIZE + 1),
        Err("单张图片不能超过 15 MB".to_string())
    );
    assert_eq!(MAX_FILE_SIZE, 15 * 1024 * 1024);
}

#[test]
fn attachment_slots_are_limited() {
    assert_eq!(check_attachment_slot(true, 9), Ok(()));
    assert_eq!(
        check_attachment_slot(true, MAX_ATTACHMENTS_PER_ENTITY),
        Err("每条记录最多添加 10 张图片".to_string())
    );
    assert_eq!(
        check_attachment_slot(false, 0),
        Err("要添加附件的业务记录不存在".to_string())
    );
    assert_eq!(check_attachment_deleted(1), Ok(()));
    assert_eq!(
        check_attachment_deleted(0),
        Err("单据图片不存在".to_string())
    );
}

#[test]
fn prepared_images_keep_their_name() {
    let prepared = prepare_attachment_image(&png_fixture(false), Some(" scan 1.png"))
        .expect("prepare image");
    assert_eq!(prepared.mime_type, "image/jpeg");
    assert_eq!(prepared.file_name, " scan 1.png");
    assert_eq!(detect_image_mime(&prepared.data), Some("image/jpeg"));
    assert_eq!(
        prepare_attachment_image(&png_fixture(false), Some("   ")).unwrap_err(),
        "图片文件名无效"
    );
    assert_eq!(
        prepare_attachment_image(&png_fixture(false), None).unwrap_err(),
        "图片文件名无效"
    );
    assert_eq!(
        prepare_attachment_image(b"plain text", Some("a.png")).unwrap_err(),
        "仅支持内容有效的 JPG、PNG、WebP、GIF 或 BMP 图片"
    );
}

#[test]
fn prepared_transparent_images_are_png_previews() {
    let source = png_fixture(true);
    let prepared = prepare_attachment_image(&source, Some("stamp.png")).expect("prepare image");
    assert_eq!(prepared.mime_type, "image/png");
    let (mime_type, normalized) = normalize_image_for_preview(&source).expect("normalize");
    assert_eq!(mime_type, prepared.mime_type);
    assert_eq!(normalized, prepared.data);
    assert_eq!(detect_image_mime(&prepared.data), Some("image/png"));
}
