use vstd::prelude::*;

verus! {

/// The picture formats this build decodes.
#[derive(Clone, Copy, Debug, PartialEq, Eq, Structural, Hash)]
pub enum PictureFormat {
    Png,
    Jpeg,
    WebP,
    Bmp,
    Tiff,
}

/// A character with an ASCII capital turned to its small letter.
pub open spec fn ascii_lower(c: char) -> char {
    if 'A' <= c <= 'Z' {
        ((c as u32) + 32) as char
    } else {
        c
    }
}

/// The format a file extension names, in any case, among those this build
/// decodes.
pub open spec fn spec_picture_format(extension: Seq<char>) -> Option<PictureFormat> {
    let e = extension.map_values(|c: char| ascii_lower(c));
    if e == "jpg"@ || e == "jpeg"@ || e == "jfif"@ {
        Some(PictureFormat::Jpeg)
    } else if e == "png"@ || e == "apng"@ {
        Some(PictureFormat::Png)
    } else if e == "webp"@ {
        Some(PictureFormat::WebP)
    } else if e == "tif"@ || e == "tiff"@ {
        Some(PictureFormat::Tiff)
    } else if e == "bmp"@ {
        Some(PictureFormat::Bmp)
    } else {
        None
    }
}

/// The width, height and 8-bit RGBA pixels, row by row, that the image
/// crate decodes from `bytes` read as `format`, or `None` where it refuses
/// them.
pub uninterp spec fn decoded_rgba(bytes: Seq<u8>, format: PictureFormat) -> Option<(u32, u32, Seq<u8>)>;

/// `image::ImageFormat::from_extension`, kept to the formats this build
/// decodes.
///
/// The crate lowercases the ASCII letters of the extension and reads
/// jpg, jpeg and jfif as JPEG, png and apng as PNG, webp as WebP, tif and
/// tiff as TIFF and bmp as BMP; every other extension it knows names a
/// format left out of this build, so it is taken as no format at all.
#[verifier::external_body]
fn picture_format_of_extension(extension: &str) -> (result: Option<PictureFormat>)
    ensures
        result == spec_picture_format(extension@),
{
    match image::ImageFormat::from_extension(extension) {
        Some(image::ImageFormat::Png) => Some(PictureFormat::Png),
        Some(image::ImageFormat::Jpeg) => Some(PictureFormat::Jpeg),
        Some(image::ImageFormat::WebP) => Some(PictureFormat::WebP),
        Some(image::ImageFormat::Bmp) => Some(PictureFormat::Bmp),
        Some(image::ImageFormat::Tiff) => Some(PictureFormat::Tiff),
        _ => None,
    }
}

/// `image::load_from_memory_with_format`, its picture converted to 8-bit
/// RGBA by `DynamicImage::into_rgba8` and taken apart into its width,
/// height and pixels; `None` where the crate refuses the bytes.
///
/// The contract only names the result, as a function of the bytes and the
/// format: the decoders themselves are the crate's.
#[verifier::external_body]
fn decode_rgba(bytes: &[u8], format: PictureFormat) -> (result: Option<(u32, u32, Vec<u8>)>)
    ensures
        decoded_rgba(bytes@, format) == match result {
            Some(decoded) => Some((decoded.0, decoded.1, decoded.2@)),
            None => None,
        },
{
    let format = match format {
        PictureFormat::Png => image::ImageFormat::Png,
        PictureFormat::Jpeg => image::ImageFormat::Jpeg,
        PictureFormat::WebP => image::ImageFormat::WebP,
        PictureFormat::Bmp => image::ImageFormat::Bmp,
        PictureFormat::Tiff => image::ImageFormat::Tiff,
    };
    let rgba = image::load_from_memory_with_format(bytes, format).ok()?.into_rgba8();
    Some((rgba.width(), rgba.height(), rgba.into_raw()))
}

/// A decoded reference picture.
pub struct Picture {
    pub width: u32,
    pub height: u32,
    /// 8-bit RGBA pixels, row by row.
    pub rgba: Vec<u8>,
}

/// Decodes the bytes of a reference picture file, as the format its
/// extension names.
///
/// An extension that names no format this build decodes gives no picture,
/// and so do bytes the decoder refuses.
pub fn decode_picture(bytes: &Vec<u8>, extension: &str) -> (result: Option<Picture>)
    ensures
        match spec_picture_format(extension@) {
            None => result is None,
            Some(format) => match decoded_rgba(bytes@, format) {
                None => result is None,
                Some(decoded) => result matches Some(picture) && picture.width == decoded.0
                    && picture.height == decoded.1 && picture.rgba@ == decoded.2,
            },
        },
{
    let format = match picture_format_of_extension(extension) {
        Some(format) => format,
        None => return None,
    };
    match decode_rgba(bytes.as_slice(), format) {
        Some((width, height, rgba)) => Some(Picture { width, height, rgba }),
        None => None,
    }
}

} // verus!
