//! Document images attached to materials and ledger rows: which files are
//! accepted, and how an image is normalised for preview.
use vstd::prelude::*;
use base64::Engine as _;
use crate::text::{concat, text_equals, trim_text, trimmed};

verus! {

/// The largest image file accepted, in bytes (15 MB).
pub const MAX_FILE_SIZE: u64 = 15 * 1024 * 1024;
/// The most images one material or ledger row may have.
pub const MAX_ATTACHMENTS_PER_ENTITY: i64 = 10;

/// Message for an owner type other than a material or a ledger row.
pub const MSG_BAD_ENTITY_TYPE: &'static str = "不支持的附件归属类型";
/// Message for stored image data that cannot be decoded.
pub const MSG_BROKEN_IMAGE: &'static str = "图片内容已损坏或格式不兼容，请换一张图片后重试";
/// The start of the message for an image that cannot be re-encoded.
pub const MSG_ENCODE_FAILED: &'static str = "无法转换图片用于预览：";
/// Message for a file whose content is none of the accepted image types.
pub const MSG_UNSUPPORTED_IMAGE: &'static str = "仅支持内容有效的 JPG、PNG、WebP、GIF 或 BMP 图片";
/// Message for an image whose file name is blank or not text.
pub const MSG_BAD_FILE_NAME: &'static str = "图片文件名无效";
/// Message when an image to delete or show does not exist.
pub const MSG_NO_IMAGE: &'static str = "单据图片不存在";

/// An image attached to a material or a ledger row.
#[derive(Debug)]
pub struct AttachmentInfo {
    pub id: i64,
    pub entity_type: String,
    pub entity_id: i64,
    pub file_name: String,
    pub mime_type: String,
    pub file_size: i64,
    pub created_at: String,
}

/// An image ready to show: its type and its bytes in standard Base64.
#[derive(Debug)]
pub struct AttachmentData {
    pub mime_type: String,
    pub data: String,
}

/// The owner types that may have attachments.
pub open spec fn is_entity_type(value: Seq<char>) -> bool {
    value == "MATERIAL"@ || value == "TRANSACTION"@
}

/// Accepts "MATERIAL" and "TRANSACTION" as owner types.
pub fn validate_entity_type(value: &str) -> (r: Result<&str, String>)
    ensures
        match r {
            Ok(v) => v@ == value@ && is_entity_type(value@),
            Err(e) => !is_entity_type(value@) && e@ == MSG_BAD_ENTITY_TYPE@,
        },
{
    if text_equals(value, "MATERIAL") || text_equals(value, "TRANSACTION") {
        Ok(value)
    } else {
        Err(MSG_BAD_ENTITY_TYPE.to_owned())
    }
}

/// The table that holds owners of `entity_type`.
pub open spec fn entity_table_of(entity_type: Seq<char>) -> Option<Seq<char>> {
    if entity_type == "MATERIAL"@ {
        Some("materials"@)
    } else if entity_type == "TRANSACTION"@ {
        Some("stock_transactions"@)
    } else {
        None
    }
}

/// The table in which to look up an owner of `entity_type`.
pub fn entity_table(entity_type: &str) -> (r: Result<&'static str, String>)
    ensures
        match r {
            Ok(t) => entity_table_of(entity_type@) == Some(t@),
            Err(e) => entity_table_of(entity_type@) is None && e@ == MSG_BAD_ENTITY_TYPE@,
        },
{
    if text_equals(entity_type, "MATERIAL") {
        Ok("materials")
    } else if text_equals(entity_type, "TRANSACTION") {
        Ok("stock_transactions")
    } else {
        Err(MSG_BAD_ENTITY_TYPE.to_owned())
    }
}

/// `data` starts with the bytes `prefix`.
pub open spec fn bytes_start_with(data: Seq<u8>, prefix: Seq<u8>) -> bool {
    prefix.len() <= data.len() && data.subrange(0, prefix.len() as int) == prefix
}

fn starts_with_bytes(data: &[u8], prefix: &[u8]) -> (r: bool)
    ensures
        r == bytes_start_with(data@, prefix@),
{
    if prefix.len() > data.len() {
        return false;
    }
    let mut i: usize = 0;
    while i < prefix.len()
        invariant
            prefix@.len() <= data@.len(),
            i <= prefix@.len(),
            forall|j: int| 0 <= j < i ==> data@[j] == prefix@[j],
        decreases prefix@.len() - i,
    {
        if data[i] != prefix[i] {
            assert(data@.subrange(0, prefix@.len() as int)[i as int] != prefix@[i as int]);
            return false;
        }
        i = i + 1;
    }
    assert(data@.subrange(0, prefix@.len() as int) =~= prefix@);
    true
}

/// The PNG signature.
pub open spec fn png_signature() -> Seq<u8> {
    seq![0x89u8, 0x50u8, 0x4eu8, 0x47u8, 0x0du8, 0x0au8, 0x1au8, 0x0au8]
}

/// The image type that the first bytes of `data` announce: PNG, JPEG,
/// WebP (a RIFF container of type WEBP), GIF (87a or 89a) or BMP.
pub open spec fn image_mime(data: Seq<u8>) -> Option<Seq<char>> {
    if bytes_start_with(data, png_signature()) {
        Some("image/png"@)
    } else if bytes_start_with(data, seq![0xffu8, 0xd8u8]) {
        Some("image/jpeg"@)
    } else if data.len() >= 12 && data.subrange(0, 4) == seq![0x52u8, 0x49u8, 0x46u8, 0x46u8]
        && data.subrange(8, 12) == seq![0x57u8, 0x45u8, 0x42u8, 0x50u8] {
        Some("image/webp"@)
    } else if bytes_start_with(data, seq![0x47u8, 0x49u8, 0x46u8, 0x38u8, 0x37u8, 0x61u8])
        || bytes_start_with(data, seq![0x47u8, 0x49u8, 0x46u8, 0x38u8, 0x39u8, 0x61u8]) {
        Some("image/gif"@)
    } else if bytes_start_with(data, seq![0x42u8, 0x4du8]) {
        Some("image/bmp"@)
    } else {
        None
    }
}

/// The image type announced by the signature at the start of `data`.
pub fn detect_image_mime(data: &[u8]) -> (r: Option<&'static str>)
    ensures
        match r {
            Some(m) => image_mime(data@) == Some(m@),
            None => image_mime(data@) is None,
        },
{
    let png: [u8; 8] = [0x89, 0x50, 0x4e, 0x47, 0x0d, 0x0a, 0x1a, 0x0a];
    let jpeg: [u8; 2] = [0xff, 0xd8];
    let gif87: [u8; 6] = [0x47, 0x49, 0x46, 0x38, 0x37, 0x61];
    let gif89: [u8; 6] = [0x47, 0x49, 0x46, 0x38, 0x39, 0x61];
    let bmp: [u8; 2] = [0x42, 0x4d];
    assert(png@ =~= png_signature());
    assert(jpeg@ =~= seq![0xffu8, 0xd8u8]);
    assert(gif87@ =~= seq![0x47u8, 0x49u8, 0x46u8, 0x38u8, 0x37u8, 0x61u8]);
    assert(gif89@ =~= seq![0x47u8, 0x49u8, 0x46u8, 0x38u8, 0x39u8, 0x61u8]);
    assert(bmp@ =~= seq![0x42u8, 0x4du8]);
    if starts_with_bytes(data, png.as_slice()) {
        Some("image/png")
    } else if starts_with_bytes(data, jpeg.as_slice()) {
        Some("image/jpeg")
    } else if data.len() >= 12 && data[0] == 0x52 && data[1] == 0x49 && data[2] == 0x46 && data[3]
        == 0x46 && data[8] == 0x57 && data[9] == 0x45 && data[10] == 0x42 && data[11] == 0x50 {
        assert(data@.subrange(0, 4) =~= seq![0x52u8, 0x49u8, 0x46u8, 0x46u8]);
        assert(data@.subrange(8, 12) =~= seq![0x57u8, 0x45u8, 0x42u8, 0x50u8]);
        Some("image/webp")
    } else if starts_with_bytes(data, gif87.as_slice()) || starts_with_bytes(
        data,
        gif89.as_slice(),
    ) {
        proof {
            if data@.len() >= 12 {
                if data@.subrange(0, 4) == seq![0x52u8, 0x49u8, 0x46u8, 0x46u8] {
                    assert(data@.subrange(0, 4)[0] == data@[0]);
                    assert(data@.subrange(0, 4)[1] == data@[1]);
                    assert(data@.subrange(0, 4)[2] == data@[2]);
                    assert(data@.subrange(0, 4)[3] == data@[3]);
                }
            }
        }
        Some("image/gif")
    } else {
        proof {
            if data@.len() >= 12 && data@.subrange(0, 4) == seq![0x52u8, 0x49u8, 0x46u8, 0x46u8]
                && data@.subrange(8, 12) == seq![0x57u8, 0x45u8, 0x42u8, 0x50u8] {
                assert(data@.subrange(0, 4)[0] == data@[0]);
                assert(data@.subrange(0, 4)[1] == data@[1]);
                assert(data@.subrange(0, 4)[2] == data@[2]);
                assert(data@.subrange(0, 4)[3] == data@[3]);
                assert(data@.subrange(8, 12)[0] == data@[8]);
                assert(data@.subrange(8, 12)[1] == data@[9]);
                assert(data@.subrange(8, 12)[2] == data@[10]);
                assert(data@.subrange(8, 12)[3] == data@[11]);
            }
        }
        if starts_with_bytes(data, bmp.as_slice()) {
            Some("image/bmp")
        } else {
            None
        }
    }
}

/// Declares `image::ImageError`.
#[verifier::external_type_specification]
#[verifier::external_body]
pub struct ExImageError(image::ImageError);

/// Whether `image::load_from_memory` decodes `data` (guessing the format
/// from its first bytes): a function of the bytes alone.
pub uninterp spec fn image_decodes(data: Seq<u8>) -> bool;

/// Whether the image that `image::load_from_memory` decodes from `data`
/// has an alpha channel (`DynamicImage::color`, then
/// `ColorType::has_alpha`): a function of the bytes alone.
pub uninterp spec fn image_has_alpha(data: Seq<u8>) -> bool;

/// `image::load_from_memory`, then `ColorType::has_alpha` of the decoded
/// image's `DynamicImage::color`: succeeds exactly on the bytes that
/// decode, and then tells whether the image has an alpha channel.
#[verifier::external_body]
fn decoded_has_alpha(data: &[u8]) -> (r: Result<bool, image::ImageError>)
    ensures
        r is Ok == image_decodes(data@),
        r matches Ok(a) ==> a == image_has_alpha(data@),
{
    let image = image::load_from_memory(data)?;
    Ok(image.color().has_alpha())
}

/// The encodings of a preview image.
#[derive(Clone, Copy, Debug, PartialEq, Eq, Structural)]
pub enum PreviewFormat {
    Png,
    Jpeg { quality: u8 },
}

/// The bytes that `DynamicImage::write_to` writes, in `format`, for the
/// image that `image::load_from_memory` decodes from `data`; `None` where
/// decoding or encoding fails. A function of its arguments alone.
pub uninterp spec fn preview_encoding(data: Seq<u8>, format: PreviewFormat) -> Option<Seq<u8>>;

/// `DynamicImage::write_to` into an in-memory buffer, of the image that
/// `image::load_from_memory` decodes from `data`: the image encoded as PNG
/// or as JPEG of the given quality. What is written comes first: the PNG
/// encoder writes the PNG signature, the JPEG encoder the start-of-image
/// marker `FF D8`.
#[verifier::external_body]
fn encode_preview(data: &[u8], format: PreviewFormat) -> (r: Result<Vec<u8>, image::ImageError>)
    ensures
        r is Ok == preview_encoding(data@, format) is Some,
        r matches Ok(b) ==> {
            &&& preview_encoding(data@, format) == Some(b@)
            &&& image_decodes(data@)
            &&& format is Png ==> bytes_start_with(b@, png_signature())
            &&& format is Jpeg ==> bytes_start_with(b@, seq![0xffu8, 0xd8u8])
        },
{
    let image = image::load_from_memory(data)?;
    let output_format = match format {
        PreviewFormat::Png => image::ImageOutputFormat::Png,
        PreviewFormat::Jpeg { quality } => image::ImageOutputFormat::Jpeg(quality),
    };
    let mut output = std::io::Cursor::new(Vec::new());
    image.write_to(&mut output, output_format)?;
    Ok(output.into_inner())
}

/// The preview encoding of an image with or without an alpha channel: PNG
/// (keeps transparency) or JPEG of quality 90.
pub open spec fn preview_format_for(has_alpha: bool) -> PreviewFormat {
    if has_alpha {
        PreviewFormat::Png
    } else {
        PreviewFormat::Jpeg { quality: 90 }
    }
}

/// The media type of the preview of an image with or without an alpha
/// channel.
pub open spec fn preview_mime(has_alpha: bool) -> Seq<char> {
    if has_alpha {
        "image/png"@
    } else {
        "image/jpeg"@
    }
}

/// The preview encoding of an image: PNG when it has an alpha channel,
/// else JPEG of quality 90; with its media type.
pub fn preview_format(has_alpha: bool) -> (r: (PreviewFormat, &'static str))
    ensures
        r.0 == preview_format_for(has_alpha),
        r.1@ == preview_mime(has_alpha),
{
    if has_alpha {
        (PreviewFormat::Png, "image/png")
    } else {
        (PreviewFormat::Jpeg { quality: 90 }, "image/jpeg")
    }
}

/// The preview bytes of the image in `data`: `None` where it does not
/// decode or its preview encoding fails.
pub open spec fn preview_bytes(data: Seq<u8>) -> Option<Seq<u8>> {
    if image_decodes(data) {
        preview_encoding(data, preview_format_for(image_has_alpha(data)))
    } else {
        None
    }
}

/// Preview bytes in the format chosen for `has_alpha` announce the media
/// type chosen for it.
proof fn lemma_preview_signature(b: Seq<u8>, has_alpha: bool)
    requires
        preview_format_for(has_alpha) is Png ==> bytes_start_with(b, png_signature()),
        preview_format_for(has_alpha) is Jpeg ==> bytes_start_with(b, seq![0xffu8, 0xd8u8]),
    ensures
        image_mime(b) == Some(preview_mime(has_alpha)),
{
    if !has_alpha {
        assert(b.subrange(0, 2)[0] == b[0]);
        if bytes_start_with(b, png_signature()) {
            assert(b.subrange(0, 8)[0] == b[0]);
        }
    }
}

/// Decodes an image and encodes it again for preview: as PNG when it has
/// an alpha channel, else as JPEG of quality 90. Data that does not decode
/// is refused; so is an image whose preview cannot be encoded.
pub fn normalize_image_for_preview(data: &[u8]) -> (r: Result<(&'static str, Vec<u8>), String>)
    ensures
        !image_decodes(data@) ==> (r matches Err(e) && e@ == MSG_BROKEN_IMAGE@),
        image_decodes(data@) ==> match preview_bytes(data@) {
            Some(b) => r matches Ok((m, out)) && m@ == preview_mime(image_has_alpha(data@)) && out@
                == b,
            None => r matches Err(e) && e@.len() >= MSG_ENCODE_FAILED@.len() && e@.subrange(
                0,
                MSG_ENCODE_FAILED@.len() as int,
            ) == MSG_ENCODE_FAILED@,
        },
        r matches Ok((m, out)) ==> image_mime(out@) == Some(m@),
{
    let has_alpha = match decoded_has_alpha(data) {
        Ok(a) => a,
        Err(_) => {
            return Err(MSG_BROKEN_IMAGE.to_owned());
        },
    };
    let (format, mime_type) = preview_format(has_alpha);
    match encode_preview(data, format) {
        Ok(bytes) => {
            proof {
                lemma_preview_signature(bytes@, has_alpha);
            }
            Ok((mime_type, bytes))
        },
        Err(e) => {
            let detail = e.to_string();
            let message = concat(MSG_ENCODE_FAILED, detail.as_str());
            assert(message@.subrange(0, MSG_ENCODE_FAILED@.len() as int) =~= MSG_ENCODE_FAILED@);
            Err(message)
        },
    }
}

/// The character of the standard Base64 alphabet (RFC 4648) for the
/// six-bit value `v`: `A`-`Z`, `a`-`z`, `0`-`9`, `+`, `/`.
pub open spec fn base64_char(v: int) -> char {
    if v < 26 {
        (65 + v) as char
    } else if v < 52 {
        (71 + v) as char
    } else if v < 62 {
        (v - 4) as char
    } else if v == 62 {
        '+'
    } else {
        '/'
    }
}

/// The standard Base64 encoding of `data` (RFC 4648 alphabet, padded with
/// `=`): every three bytes become four characters of six bits each, most
/// significant first; a final one or two bytes become two or three
/// characters and `=` padding up to four.
pub open spec fn base64_standard(data: Seq<u8>) -> Seq<char>
    decreases data.len(),
{
    if data.len() == 0 {
        Seq::empty()
    } else if data.len() == 1 {
        let a = data[0] as int;
        seq![base64_char(a / 4), base64_char((a % 4) * 16), '=', '=']
    } else if data.len() == 2 {
        let a = data[0] as int;
        let b = data[1] as int;
        seq![base64_char(a / 4), base64_char((a % 4) * 16 + b / 16), base64_char((b % 16) * 4), '=']
    } else {
        let a = data[0] as int;
        let b = data[1] as int;
        let c = data[2] as int;
        seq![
            base64_char(a / 4),
            base64_char((a % 4) * 16 + b / 16),
            base64_char((b % 16) * 4 + c / 64),
            base64_char(c % 64),
        ] + base64_standard(data.subrange(3, data.len() as int))
    }
}

/// `Engine::encode` of `base64::engine::general_purpose::STANDARD`: the
/// standard Base64 text of `data`, as [`base64_standard`] states it.
#[verifier::external_body]
fn encode_base64(data: &[u8]) -> (r: String)
    ensures
        r@ == base64_standard(data@),
{
    base64::engine::general_purpose::STANDARD.encode(data)
}

impl AttachmentData {
    /// A preview of media type `mime_type` with the image bytes `preview`.
    pub fn from_preview(mime_type: &str, preview: &[u8]) -> (r: AttachmentData)
        ensures
            r.mime_type@ == mime_type@,
            r.data@ == base64_standard(preview@),
    {
        AttachmentData { mime_type: mime_type.to_owned(), data: encode_base64(preview) }
    }
}

/// The preview of a stored image: normalised (older rows hold the bytes as
/// uploaded) and encoded in Base64.
pub fn attachment_preview(stored: &[u8]) -> (r: Result<AttachmentData, String>)
    ensures
        !image_decodes(stored@) ==> (r matches Err(e) && e@ == MSG_BROKEN_IMAGE@),
        image_decodes(stored@) ==> match preview_bytes(stored@) {
            Some(b) => r matches Ok(d) && d.mime_type@ == preview_mime(image_has_alpha(stored@))
                && d.data@ == base64_standard(b),
            None => r matches Err(e) && e@.len() >= MSG_ENCODE_FAILED@.len() && e@.subrange(
                0,
                MSG_ENCODE_FAILED@.len() as int,
            ) == MSG_ENCODE_FAILED@,
        },
{
    let (mime_type, preview) = normalize_image_for_preview(stored)?;
    Ok(AttachmentData::from_preview(mime_type, preview.as_slice()))
}

/// The first rule that an attachment target breaks, if any.
pub open spec fn target_error(entity_type: Seq<char>, entity_id: i64) -> Option<Seq<char>> {
    if !is_entity_type(entity_type) {
        Some(MSG_BAD_ENTITY_TYPE@)
    } else if entity_id <= 0 {
        Some("附件所属记录无效"@)
    } else {
        None
    }
}

/// Checks the owner of a new attachment.
pub fn check_attachment_target(entity_type: &str, entity_id: i64) -> (r: Result<&str, String>)
    ensures
        match r {
            Ok(t) => target_error(entity_type@, entity_id) is None && t@ == entity_type@,
            Err(e) => target_error(entity_type@, entity_id) == Some(e@),
        },
{
    let t = validate_entity_type(entity_type)?;
    if entity_id <= 0 {
        return Err("附件所属记录无效".to_owned());
    }
    Ok(t)
}

/// The first rule that the chosen file breaks, if any.
pub open spec fn file_error(is_file: bool, len: u64) -> Option<Seq<char>> {
    if !is_file {
        Some("所选内容不是图片文件"@)
    } else if len == 0 {
        Some("不能添加空图片"@)
    } else if len > MAX_FILE_SIZE {
        Some("单张图片不能超过 15 MB"@)
    } else {
        None
    }
}

/// Checks the chosen file before it is read: a regular file of 1 byte to
/// 15 MB.
pub fn check_attachment_file(is_file: bool, len: u64) -> (r: Result<(), String>)
    ensures
        match r {
            Ok(()) => file_error(is_file, len) is None,
            Err(e) => file_error(is_file, len) == Some(e@),
        },
{
    if !is_file {
        return Err("所选内容不是图片文件".to_owned());
    }
    if len == 0 {
        return Err("不能添加空图片".to_owned());
    }
    if len > MAX_FILE_SIZE {
        return Err("单张图片不能超过 15 MB".to_owned());
    }
    Ok(())
}

/// An image ready to store.
#[derive(Debug)]
pub struct PreparedAttachment {
    pub mime_type: &'static str,
    pub data: Vec<u8>,
    pub file_name: String,
}

/// A file name that may be stored: a name that is text and not blank.
pub open spec fn usable_file_name(file_name: Option<&str>) -> bool {
    file_name matches Some(n) && trimmed(n@).len() > 0
}

/// Prepares the bytes of a chosen image: its signature must be one of the
/// accepted image types, it is normalised for preview, and its file name
/// (if it is text) must not be blank; the name is kept as it is.
pub fn prepare_attachment_image(source: &[u8], file_name: Option<&str>) -> (r: Result<
    PreparedAttachment,
    String,
>)
    ensures
        image_mime(source@) is None ==> (r matches Err(e) && e@ == MSG_UNSUPPORTED_IMAGE@),
        image_mime(source@) is Some && !image_decodes(source@) ==> (r matches Err(e) && e@
            == MSG_BROKEN_IMAGE@),
        image_mime(source@) is Some && image_decodes(source@) ==> match preview_bytes(source@) {
            Some(b) => if usable_file_name(file_name) {
                r matches Ok(p) && p.mime_type@ == preview_mime(image_has_alpha(source@))
                    && p.data@ == b && p.file_name@ == file_name->0@
            } else {
                r matches Err(e) && e@ == MSG_BAD_FILE_NAME@
            },
            None => r matches Err(e) && e@.len() >= MSG_ENCODE_FAILED@.len() && e@.subrange(
                0,
                MSG_ENCODE_FAILED@.len() as int,
            ) == MSG_ENCODE_FAILED@,
        },
        r matches Ok(p) ==> image_mime(p.data@) == Some(p.mime_type@),
{
    if detect_image_mime(source).is_none() {
        return Err(MSG_UNSUPPORTED_IMAGE.to_owned());
    }
    let (mime_type, data) = normalize_image_for_preview(source)?;
    let name = match file_name {
        Some(n) => n,
        None => {
            return Err(MSG_BAD_FILE_NAME.to_owned());
        },
    };
    let trimmed_name = trim_text(name);
    if trimmed_name.as_str().is_empty() {
        return Err(MSG_BAD_FILE_NAME.to_owned());
    }
    Ok(PreparedAttachment { mime_type, data, file_name: name.to_owned() })
}

/// Checks the owner of a new attachment once it has been looked up: it
/// must exist and have fewer than 10 images.
pub fn check_attachment_slot(exists: bool, count: i64) -> (r: Result<(), String>)
    ensures
        match r {
            Ok(()) => exists && count < MAX_ATTACHMENTS_PER_ENTITY,
            Err(e) => if !exists {
                e@ == "要添加附件的业务记录不存在"@
            } else {
                count >= MAX_ATTACHMENTS_PER_ENTITY && e@ == "每条记录最多添加 10 张图片"@
            },
        },
{
    if !exists {
        return Err("要添加附件的业务记录不存在".to_owned());
    }
    if count >= MAX_ATTACHMENTS_PER_ENTITY {
        return Err("每条记录最多添加 10 张图片".to_owned());
    }
    Ok(())
}

/// Checks that deleting an image removed a row.
pub fn check_attachment_deleted(rows_affected: u64) -> (r: Result<(), String>)
    ensures
        match r {
            Ok(()) => rows_affected > 0,
            Err(e) => rows_affected == 0 && e@ == MSG_NO_IMAGE@,
        },
{
    if rows_affected == 0 {
        return Err(MSG_NO_IMAGE.to_owned());
    }
    Ok(())
}

} // verus!
