//! Turning a captured camera frame into the JPEG bytes sent to clients.
use vstd::prelude::*;
use vstd::string::StringExecFns;

use crate::cameras::{strip_trailing_zeros, without_trailing_zeros};
use crate::text::{decimal_string, format_u64};

verus! {

/// An RGB image of the `image` crate (`image::RgbImage`), with 8-bit
/// samples held in a `Vec<u8>`. Its insides are private; it is known by the
/// names below.
#[verifier::external_body]
pub struct RgbFrame {
    image: image::RgbImage,
}

/// The samples an RGB image holds, three per pixel, row after row.
pub uninterp spec fn rgb_image_samples(img: RgbFrame) -> Seq<u8>;

/// The width and height an RGB image was made with.
pub uninterp spec fn rgb_image_size(img: RgbFrame) -> (u32, u32);

/// The JPEG file that the `image` crate's encoder writes for an RGB image of
/// the given width and height with the given samples.
pub uninterp spec fn rgb_jpeg_bytes(width: u32, height: u32, samples: Seq<u8>) -> Seq<u8>;

/// `image::ImageBuffer::from_raw` for RGB samples: it accepts the samples
/// when they are at least `3 * width * height` (its buffer length check,
/// done with checked multiplication), and keeps them and the size as given.
#[verifier::external_body]
fn rgb_image_from_raw(width: u32, height: u32, raw: Vec<u8>) -> (r: Option<RgbFrame>)
    ensures
        r is Some <==> 3 * width * height <= raw@.len(),
        r matches Some(img) ==> rgb_image_samples(img) == raw@ && rgb_image_size(img) == (
            width,
            height,
        ),
{
    match image::RgbImage::from_raw(width, height, raw) {
        Some(image) => Some(RgbFrame { image }),
        None => None,
    }
}

/// `image::ImageBuffer::write_to` with `ImageFormat::Jpeg`, into an
/// in-memory cursor: the JPEG encoder succeeds exactly when width and height
/// are both in 1..=65535, and then writes a file that starts with the SOI
/// marker `FF D8` and depends on the size and the first `3 * width * height`
/// samples alone. The text of the error is not stated.
#[verifier::external_body]
fn write_rgb_jpeg(img: &RgbFrame) -> (r: Result<Vec<u8>, String>)
    ensures
        ({
            let (w, h) = rgb_image_size(*img);
            match r {
                Ok(bytes) => 1 <= w <= 65535 && 1 <= h <= 65535 && bytes@ == rgb_jpeg_bytes(
                    w,
                    h,
                    rgb_image_samples(*img).take(3 * w * h),
                ) && bytes@.len() >= 2 && bytes@[0] == 0xFF && bytes@[1] == 0xD8,
                Err(_) => !(1 <= w <= 65535 && 1 <= h <= 65535),
            }
        }),
{
    let mut cursor = std::io::Cursor::new(Vec::new());
    match img.image.write_to(&mut cursor, image::ImageFormat::Jpeg) {
        Ok(()) => Ok(cursor.into_inner()),
        Err(e) => Err(e.to_string()),
    }
}

/// How a captured frame is stored.
#[derive(Debug, Clone, Copy, PartialEq, Eq, Structural)]
pub enum FrameFormat {
    /// Already JPEG (motion JPEG), possibly padded with zero bytes.
    Mjpeg,
    /// Raw RGB samples, three bytes per pixel.
    Rgb,
}

/// The error reported when the samples are too few for the frame's size.
pub open spec fn short_buffer_message(len: nat) -> Seq<char> {
    "Failed to create image buffer from "@ + decimal_string(len) + " bytes"@
}

/// The JPEG bytes of a captured frame: a motion-JPEG frame is sent as it is
/// without its zero padding; an RGB frame is encoded as JPEG, which fails
/// when the samples are too few for its size or the size is not one JPEG
/// can hold.
pub fn encode_frame(format: FrameFormat, width: u32, height: u32, raw: Vec<u8>) -> (r: Result<
    Vec<u8>,
    String,
>)
    ensures
        format == FrameFormat::Mjpeg ==> (r matches Ok(bytes) && bytes@ == without_trailing_zeros(
            raw@,
        )),
        format == FrameFormat::Rgb && raw@.len() < 3 * width * height ==> (r matches Err(msg)
            && msg@ == short_buffer_message(raw@.len())),
        format == FrameFormat::Rgb && 3 * width * height <= raw@.len() ==> match r {
            Ok(bytes) => 1 <= width <= 65535 && 1 <= height <= 65535 && bytes@ == rgb_jpeg_bytes(
                width,
                height,
                raw@.take(3 * width * height),
            ),
            Err(_) => !(1 <= width <= 65535 && 1 <= height <= 65535),
        },
{
    match format {
        FrameFormat::Mjpeg => Ok(strip_trailing_zeros(raw.as_slice())),
        FrameFormat::Rgb => {
            let len = raw.len();
            match rgb_image_from_raw(width, height, raw) {
                Some(img) => write_rgb_jpeg(&img),
                None => {
                    let mut msg = String::from_str("Failed to create image buffer from ");
                    let n = format_u64(len as u64);
                    msg.append(n.as_str());
                    msg.append(" bytes");
                    Err(msg)
                },
            }
        },
    }
}

} // verus!
