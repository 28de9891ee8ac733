//! Reading a scanned transfer document with the system OCR engine: which
//! file is scanned, and what its run gives back.
use vstd::prelude::*;
use crate::text::{concat, has_prefix, starts_with_text, trim_text, trimmed};

verus! {

/// Message when no document image is chosen.
pub const MSG_NO_SCAN: &'static str = "请选择扫描单据图片";
/// Message when the OCR run fails without saying why.
pub const MSG_SCAN_FAILED: &'static str = "扫描单据识别失败，请检查图片清晰度";
/// The start of the message when the OCR run fails with a reason.
pub const MSG_SCAN_FAILED_WITH: &'static str = "扫描单据识别失败：";

/// The path of the document to scan: the chosen text trimmed, without a
/// leading `file://`.
pub open spec fn scan_path(source: Seq<char>) -> Option<Seq<char>> {
    let t = trimmed(source);
    if t.len() == 0 {
        None
    } else if has_prefix(t, "file://"@) {
        Some(t.subrange(7, t.len() as int))
    } else {
        Some(t)
    }
}

/// The path of the document to scan, or the message for a blank choice.
pub fn scan_source_path(source_path: &str) -> (r: Result<String, String>)
    ensures
        match r {
            Ok(p) => scan_path(source_path@) == Some(p@),
            Err(e) => scan_path(source_path@) is None && e@ == MSG_NO_SCAN@,
        },
{
    let path = trim_text(source_path);
    if path.as_str().is_empty() {
        return Err(MSG_NO_SCAN.to_owned());
    }
    if starts_with_text(path.as_str(), "file://") {
        proof {
            reveal_strlit("file://");
        }
        let n = path.as_str().unicode_len();
        let rest = path.as_str().substring_char(7, n);
        Ok(rest.to_owned())
    } else {
        Ok(path)
    }
}

/// The extension of the temporary copy handed to the OCR engine: the
/// document's own, else "img".
pub fn ocr_extension(extension: Option<&str>) -> (r: &str)
    ensures
        r@ == match extension {
            Some(e) => e@,
            None => "img"@,
        },
{
    match extension {
        Some(e) => e,
        None => "img",
    }
}

/// What a finished OCR run gives: its output when it succeeded, else the
/// failure with the trimmed error output as the reason, if there is one.
pub open spec fn ocr_result(success: bool, stderr_text: Seq<char>, stdout_text: Seq<char>) -> Result<
    Seq<char>,
    Seq<char>,
> {
    if success {
        Ok(stdout_text)
    } else if trimmed(stderr_text).len() == 0 {
        Err(MSG_SCAN_FAILED@)
    } else {
        Err(MSG_SCAN_FAILED_WITH@ + trimmed(stderr_text))
    }
}

/// The outcome of an OCR run, from its exit status and its two outputs
/// (read as text).
pub fn ocr_outcome(success: bool, stderr_text: &str, stdout_text: String) -> (r: Result<
    String,
    String,
>)
    ensures
        match r {
            Ok(t) => ocr_result(success, stderr_text@, stdout_text@) == Ok::<
                Seq<char>,
                Seq<char>,
            >(t@),
            Err(e) => ocr_result(success, stderr_text@, stdout_text@) == Err::<
                Seq<char>,
                Seq<char>,
            >(e@),
        },
{
    if success {
        return Ok(stdout_text);
    }
    let detail = trim_text(stderr_text);
    if detail.as_str().is_empty() {
        Err(MSG_SCAN_FAILED.to_owned())
    } else {
        Err(concat(MSG_SCAN_FAILED_WITH, detail.as_str()))
    }
}

} // verus!
