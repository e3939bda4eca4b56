use vstd::prelude::*;
use crate::error::{plain, CaptureError, CaptureFailure, FailedView};
use crate::raster::{Raster, RasterView};

verus! {

/// What the PNG decoder makes of `data`: width, height and RGBA bytes of the
/// picture, or the reason it gives where `data` is no PNG file it can read.
pub uninterp spec fn decoded_rgba(data: Seq<u8>) -> Result<(nat, nat, Seq<u8>), Seq<char>>;

/// The PNG file that the image encoder writes for RGBA bytes of the given
/// size, or the reason it gives where it refuses them.
pub uninterp spec fn encoded_png(width: nat, height: nat, pixels: Seq<u8>) -> Result<
    Seq<u8>,
    Seq<char>,
>;

/// The raster that `data` decodes to, where the decoder reads it and the
/// bytes it hands over are those of its rows; else the decode error, with
/// the decoder's reason where it gave one.
pub open spec fn decoded(data: Seq<u8>) -> Result<RasterView, FailedView> {
    match decoded_rgba(data) {
        Ok((width, height, pixels)) => {
            let raster = RasterView { width, height, pixels };
            if raster.valid() {
                Ok(raster)
            } else {
                Err(plain(CaptureError::Decode))
            }
        },
        Err(reason) => Err(FailedView { error: CaptureError::Decode, reason }),
    }
}

/// The PNG file of a raster, or the encode error with the encoder's reason.
pub open spec fn encoded(raster: RasterView) -> Result<Seq<u8>, FailedView> {
    match encoded_png(raster.width, raster.height, raster.pixels) {
        Ok(bytes) => Ok(bytes),
        Err(reason) => Err(FailedView { error: CaptureError::Encode, reason }),
    }
}

/// Calls `image::load_from_memory_with_format` with the PNG format and
/// converts the picture with `DynamicImage::into_rgba8`. The format is fixed,
/// so nothing but `data` decides the result: the size and bytes of the
/// decoded picture, or the text of the decoding error.
#[verifier::external_body]
fn load_rgba(data: &[u8]) -> (parts: Result<(u32, u32, Vec<u8>), String>)
    ensures
        decoded_rgba(data@) == match parts {
            Ok((width, height, pixels)) => Ok::<(nat, nat, Seq<u8>), Seq<char>>(
                (width as nat, height as nat, pixels@),
            ),
            Err(reason) => Err(reason@),
        },
{
    match image::load_from_memory_with_format(data, image::ImageFormat::Png) {
        Ok(picture) => {
            let rgba = picture.into_rgba8();
            let (width, height) = rgba.dimensions();
            Ok((width, height, rgba.into_raw()))
        },
        Err(error) => Err(error.to_string()),
    }
}

/// Calls `image::write_buffer_with_format` for RGBA bytes and the PNG format
/// on a buffer in memory. The result is taken to depend on the size and the
/// bytes alone: the file written, or the text of the encoding error. The
/// encoder stops the program on bytes that are not those of the rows
/// announced, so they are left out.
#[verifier::external_body]
fn write_png(width: u32, height: u32, pixels: &[u8]) -> (file: Result<Vec<u8>, String>)
    requires
        pixels@.len() == width as nat * height as nat * 4,
    ensures
        encoded_png(width as nat, height as nat, pixels@) == match file {
            Ok(bytes) => Ok::<Seq<u8>, Seq<char>>(bytes@),
            Err(reason) => Err(reason@),
        },
{
    let mut out = std::io::Cursor::new(Vec::new());
    let color = image::ExtendedColorType::Rgba8;
    match image::write_buffer_with_format(&mut out, pixels, width, height, color, image::ImageFormat::Png) {
        Ok(()) => Ok(out.into_inner()),
        Err(error) => Err(error.to_string()),
    }
}

/// The raster that a decoder's answer stands for, where its bytes are those
/// of the rows it announces; else the decode error, with the decoder's
/// reason where it gave one.
pub open spec fn parts_view(parts: Result<(u32, u32, Vec<u8>), String>) -> Result<
    RasterView,
    FailedView,
> {
    match parts {
        Ok((width, height, pixels)) => {
            let raster = RasterView {
                width: width as nat,
                height: height as nat,
                pixels: pixels@,
            };
            if raster.valid() {
                Ok(raster)
            } else {
                Err(plain(CaptureError::Decode))
            }
        },
        Err(reason) => Err(FailedView { error: CaptureError::Decode, reason: reason@ }),
    }
}

/// Whether a result holds the raster, or the failure, that is expected of
/// it.
pub open spec fn raster_is(
    result: Result<Raster, CaptureFailure>,
    expected: Result<RasterView, FailedView>,
) -> bool {
    match result {
        Ok(raster) => expected == Ok::<RasterView, FailedView>(raster@),
        Err(failure) => expected == Err::<RasterView, FailedView>(failure@),
    }
}

/// Whether a result holds the file, or the failure, that is expected of it.
pub open spec fn file_is(
    result: Result<Vec<u8>, CaptureFailure>,
    expected: Result<Seq<u8>, FailedView>,
) -> bool {
    match result {
        Ok(bytes) => expected == Ok::<Seq<u8>, FailedView>(bytes@),
        Err(failure) => expected == Err::<Seq<u8>, FailedView>(failure@),
    }
}

/// Makes a raster of what a decoder handed over: a decode error where it
/// handed over its reason for having none, or bytes that are not those of
/// the rows it announced.
pub fn raster_from_parts(parts: Result<(u32, u32, Vec<u8>), String>) -> (result: Result<
    Raster,
    CaptureFailure,
>)
    ensures
        raster_is(result, parts_view(parts)),
{
    match parts {
        Ok((width, height, pixels)) => {
            match Raster::new(width, height, pixels) {
                Some(raster) => Ok(raster),
                None => Err(CaptureFailure::plain(CaptureError::Decode)),
            }
        },
        Err(reason) => Err(CaptureFailure { error: CaptureError::Decode, reason }),
    }
}

/// Decodes a PNG file into a raster.
pub fn decode(data: &[u8]) -> (result: Result<Raster, CaptureFailure>)
    ensures
        raster_is(result, decoded(data@)),
{
    raster_from_parts(load_rgba(data))
}

/// What an encoder's answer means for the caller: the file, or an encode
/// error with the encoder's reason.
pub fn file_from_encoder(file: Result<Vec<u8>, String>) -> (result: Result<Vec<u8>, CaptureFailure>)
    ensures
        match (file, result) {
            (Ok(written), Ok(bytes)) => bytes == written,
            (Err(reason), Err(failure)) => failure.error == CaptureError::Encode && failure.reason
                == reason,
            _ => false,
        },
{
    match file {
        Ok(bytes) => Ok(bytes),
        Err(reason) => Err(CaptureFailure { error: CaptureError::Encode, reason }),
    }
}

/// Encodes a raster as a PNG file.
pub fn encode(raster: &Raster) -> (result: Result<Vec<u8>, CaptureFailure>)
    ensures
        file_is(result, encoded(raster@)),
{
    let width: u32 = raster.width();
    let height: u32 = raster.height();
    file_from_encoder(write_png(width, height, raster.pixels().as_slice()))
}

} // verus!
