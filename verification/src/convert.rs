//! Conversion of one image: from the bytes of a WebP file to the bytes of a
//! PNG file, and the checks made before a single file is converted.

use vstd::prelude::*;
use crate::batch::{source_extension, target_extension};
use crate::errors::{io_failure, message_of, ConvertError, PathKind};
use crate::names::{has_extension, matches_extension, renamed, with_extension};

verus! {

/// How the bytes of a picture make up its pixels: three bytes each, or four
/// with transparency.
#[derive(Clone, Copy, Debug, PartialEq, Eq, Structural)]
pub enum PixelLayout {
    Rgb,
    Rgba,
}

/// A decoded picture as mathematics: its size, and its pixels row by row.
pub struct PictureView {
    pub width: int,
    pub height: int,
    pub layout: PixelLayout,
    pub data: Seq<u8>,
}

/// A decoded picture, on its way from the decoder to the encoder.
struct Picture {
    width: u32,
    height: u32,
    layout: PixelLayout,
    data: Vec<u8>,
}

impl View for Picture {
    type V = PictureView;

    closed spec fn view(&self) -> PictureView {
        PictureView {
            width: self.width as int,
            height: self.height as int,
            layout: self.layout,
            data: self.data@,
        }
    }
}

/// The number of bytes of one pixel.
pub open spec fn channels(layout: PixelLayout) -> int {
    match layout {
        PixelLayout::Rgb => 3,
        PixelLayout::Rgba => 4,
    }
}

/// A picture holds as many bytes as its size and layout ask for.
pub open spec fn is_whole(picture: PictureView) -> bool {
    picture.data.len() == picture.width * picture.height * channels(picture.layout)
}

/// What the `image` crate makes of `bytes` read as WebP: the picture, or
/// the text of the error with which it refuses them.
pub uninterp spec fn webp_decoding(bytes: Seq<u8>) -> Result<PictureView, Seq<char>>;

/// What the `image` crate makes of a picture written as PNG: the bytes, or
/// the text of the error with which it refuses the picture.
pub uninterp spec fn png_encoding(picture: PictureView) -> Result<Seq<u8>, Seq<char>>;

/// `image::load_from_memory_with_format` with the WebP format. Not proved:
/// that the picture, or the text of the error, depends on the bytes alone,
/// and that the picture comes with all its bytes.
#[verifier::external_body]
fn decode_webp(bytes: &[u8]) -> (r: Result<Picture, String>)
    ensures
        match r {
            Ok(picture) => is_whole(picture@) && webp_decoding(bytes@) == Ok::<
                PictureView,
                Seq<char>,
            >(picture@),
            Err(text) => webp_decoding(bytes@) == Err::<PictureView, Seq<char>>(text@),
        },
{
    match image::load_from_memory_with_format(bytes, image::ImageFormat::WebP) {
        Ok(image::DynamicImage::ImageRgb8(p)) => {
            Ok(Picture { width: p.width(), height: p.height(), layout: PixelLayout::Rgb, data: p.into_raw() })
        },
        Ok(other) => {
            let p = other.into_rgba8();
            Ok(Picture { width: p.width(), height: p.height(), layout: PixelLayout::Rgba, data: p.into_raw() })
        },
        Err(e) => Err(e.to_string()),
    }
}

/// `image::ImageEncoder::write_image` of `image::codecs::png::PngEncoder`,
/// into memory. Not proved: that the bytes, or the text of the error, depend
/// on the picture alone. The encoder panics on a picture that lacks bytes.
#[verifier::external_body]
fn encode_png(picture: &Picture) -> (r: Result<Vec<u8>, String>)
    requires
        is_whole(picture@),
    ensures
        match r {
            Ok(bytes) => png_encoding(picture@) == Ok::<Seq<u8>, Seq<char>>(bytes@),
            Err(text) => png_encoding(picture@) == Err::<Seq<u8>, Seq<char>>(text@),
        },
{
    let color = match picture.layout {
        PixelLayout::Rgb => image::ExtendedColorType::Rgb8,
        PixelLayout::Rgba => image::ExtendedColorType::Rgba8,
    };
    let mut out = std::io::Cursor::new(Vec::new());
    let encoder = image::codecs::png::PngEncoder::new(&mut out);
    match image::ImageEncoder::write_image(encoder, &picture.data, picture.width, picture.height, color) {
        Ok(_) => Ok(out.into_inner()),
        Err(e) => Err(e.to_string()),
    }
}

/// The bytes of the PNG file that the bytes of a WebP file are converted
/// to, or the text of the failure: that of the decoder where it refuses
/// the bytes, that of the encoder where it refuses the picture.
pub open spec fn converted(bytes: Seq<u8>) -> Result<Seq<u8>, Seq<char>> {
    match webp_decoding(bytes) {
        Err(text) => Err("Ошибка декодирования: "@ + text),
        Ok(picture) => match png_encoding(picture) {
            Err(text) => Err("Ошибка сохранения PNG: "@ + text),
            Ok(png) => Ok(png),
        },
    }
}

/// What a conversion answers once the encoder has run: its bytes, or an
/// `Encode` failure with the encoder's text.
pub fn encoded_outcome(encoded: Result<Vec<u8>, String>) -> (r: Result<Vec<u8>, ConvertError>)
    ensures
        match encoded {
            Ok(bytes) => r == Ok::<Vec<u8>, ConvertError>(bytes),
            Err(cause) => r matches Err(e) && e is Encode && message_of(e)
                == "Ошибка сохранения PNG: "@ + cause@,
        },
{
    match encoded {
        Ok(bytes) => Ok(bytes),
        Err(cause) => Err(ConvertError::Encode(cause)),
    }
}

/// What a conversion answers once the target file was written, or could not
/// be: a failure to write counts as a failure to encode.
pub fn saved_outcome(written: Result<(), String>) -> (r: Result<(), ConvertError>)
    ensures
        match written {
            Ok(_) => r is Ok,
            Err(cause) => r matches Err(e) && e is Encode && message_of(e)
                == "Ошибка сохранения PNG: "@ + cause@,
        },
{
    match written {
        Ok(_) => Ok(()),
        Err(cause) => Err(ConvertError::Encode(cause)),
    }
}

/// Converts the contents of one WebP file to the contents of a PNG file.
/// `source` is what opening and reading the file gave. A file that could
/// not be read fails with `Io`, bytes that the decoder refuses fail with
/// `Decode`, a picture that the encoder refuses fails with `Encode`, each
/// with the text of its cause; otherwise the answer is the encoder's bytes.
pub fn convert_single_file(source: Result<Vec<u8>, String>) -> (r: Result<Vec<u8>, ConvertError>)
    ensures
        match source {
            Err(cause) => r matches Err(e) && e is Io && message_of(e)
                == "Ошибка открытия файла: "@ + cause@,
            Ok(bytes) => match r {
                Ok(png) => converted(bytes@) == Ok::<Seq<u8>, Seq<char>>(png@),
                Err(e) => {
                    &&& converted(bytes@) == Err::<Seq<u8>, Seq<char>>(message_of(e))
                    &&& webp_decoding(bytes@) is Err ==> e is Decode
                    &&& webp_decoding(bytes@) is Ok ==> e is Encode
                },
            },
        },
{
    match source {
        Err(cause) => Err(io_failure("Ошибка открытия файла: ", cause.as_str())),
        Ok(bytes) => match decode_webp(bytes.as_slice()) {
            Err(text) => Err(ConvertError::Decode(text)),
            Ok(picture) => encoded_outcome(encode_png(&picture)),
        },
    }
}

/// The checks before a single file is converted, and the name of the file
/// that the conversion writes. `name` is the file's name and `kind` what its
/// path was found to be. A path that does not exist fails with
/// `InvalidPath`, one that is no regular file with `NotAFile`, and a name
/// whose extension is not that of a source file, or that has none, with
/// `WrongExtension`. Otherwise the answer is the name with the extension
/// of a target file in place of its own.
pub fn convert_single_webp_to_png(name: &str, kind: PathKind) -> (r: Result<String, ConvertError>)
    ensures
        kind == PathKind::Missing ==> r == Err::<String, ConvertError>(ConvertError::InvalidPath),
        kind != PathKind::Missing && kind != PathKind::File ==> r == Err::<String, ConvertError>(
            ConvertError::NotAFile,
        ),
        kind == PathKind::File && !matches_extension(name@, source_extension()) ==> r == Err::<
            String,
            ConvertError,
        >(ConvertError::WrongExtension),
        kind == PathKind::File && matches_extension(name@, source_extension()) ==> (r matches Ok(
            target,
        ) && target@ == renamed(name@, target_extension())),
{
    if kind == PathKind::Missing {
        Err(ConvertError::InvalidPath)
    } else if kind != PathKind::File {
        Err(ConvertError::NotAFile)
    } else if !has_extension(name, "webp") {
        Err(ConvertError::WrongExtension)
    } else {
        Ok(with_extension(name, "png"))
    }
}

} // verus!
