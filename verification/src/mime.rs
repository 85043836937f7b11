//! MIME type mapping for the caller-facing file commands: the type is
//! decided by the file name's lowercase extension alone.

use vstd::prelude::*;
use crate::scanner::spec_extension;
use crate::scanner::extension_of;
use crate::text::str_eq;

verus! {

/// The MIME type of each known lowercase extension; the generic byte
/// stream type for every other one.
pub open spec fn spec_mime_type(ext: Seq<char>) -> Seq<char> {
    if ext == "jpg"@ || ext == "jpeg"@ {
        "image/jpeg"@
    } else if ext == "png"@ {
        "image/png"@
    } else if ext == "gif"@ {
        "image/gif"@
    } else if ext == "webp"@ {
        "image/webp"@
    } else if ext == "bmp"@ {
        "image/bmp"@
    } else if ext == "svg"@ {
        "image/svg+xml"@
    } else if ext == "heic"@ || ext == "heif"@ {
        "image/heic"@
    } else if ext == "tiff"@ || ext == "tif"@ {
        "image/tiff"@
    } else if ext == "mp4"@ {
        "video/mp4"@
    } else if ext == "mov"@ {
        "video/quicktime"@
    } else if ext == "avi"@ {
        "video/x-msvideo"@
    } else if ext == "mkv"@ {
        "video/x-matroska"@
    } else if ext == "webm"@ {
        "video/webm"@
    } else if ext == "flv"@ {
        "video/x-flv"@
    } else if ext == "wmv"@ {
        "video/x-ms-wmv"@
    } else if ext == "m4v"@ {
        "video/x-m4v"@
    } else if ext == "mpg"@ || ext == "mpeg"@ {
        "video/mpeg"@
    } else {
        "application/octet-stream"@
    }
}

/// Gets the MIME type for a file based on its extension.
pub fn get_mime_type(file_path: &str) -> (r: String)
    ensures
        r@ == spec_mime_type(spec_extension(file_path@)),
{
    let ext = extension_of(file_path);
    let e = ext.as_str();
    let m: &str = if str_eq(e, "jpg") || str_eq(e, "jpeg") {
        "image/jpeg"
    } else if str_eq(e, "png") {
        "image/png"
    } else if str_eq(e, "gif") {
        "image/gif"
    } else if str_eq(e, "webp") {
        "image/webp"
    } else if str_eq(e, "bmp") {
        "image/bmp"
    } else if str_eq(e, "svg") {
        "image/svg+xml"
    } else if str_eq(e, "heic") || str_eq(e, "heif") {
        "image/heic"
    } else if str_eq(e, "tiff") || str_eq(e, "tif") {
        "image/tiff"
    } else if str_eq(e, "mp4") {
        "video/mp4"
    } else if str_eq(e, "mov") {
        "video/quicktime"
    } else if str_eq(e, "avi") {
        "video/x-msvideo"
    } else if str_eq(e, "mkv") {
        "video/x-matroska"
    } else if str_eq(e, "webm") {
        "video/webm"
    } else if str_eq(e, "flv") {
        "video/x-flv"
    } else if str_eq(e, "wmv") {
        "video/x-ms-wmv"
    } else if str_eq(e, "m4v") {
        "video/x-m4v"
    } else if str_eq(e, "mpg") || str_eq(e, "mpeg") {
        "video/mpeg"
    } else {
        "application/octet-stream"
    };
    String::from_str(m)
}

} // verus!
