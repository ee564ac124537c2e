//! Properties that relate several functions of the library.

use vstd::prelude::*;
use crate::api::{ChromaSubsampling, EncoderConfig, ImageView, Error, PixelFormat, sys_error_maps_to};
use crate::rules::{row_bytes, span_bytes, f32_within_zero_to_25};
use crate::sys;
use crate::sys::raw;

verus! {

/// The shim layer checks a configuration by exactly the rules of the high
/// level: a configuration and its lowering are refused for the same reason,
/// so a configuration that built an encoder is never refused below.
pub proof fn lemma_config_checks_agree(cfg: EncoderConfig, lowered: sys::EncodeConfig)
    requires
        cfg.lowers_to(lowered),
    ensures
        lowered.spec_fault() == cfg.spec_fault(),
{
}

/// The shim layer checks an image view by exactly the rules of the high
/// level: an image view and its lowering are refused for the same reason.
pub proof fn lemma_image_checks_agree(image: ImageView)
    ensures
        image.spec_as_sys().spec_fault() == image.spec_fault(),
{
}

/// Every row of an accepted image view lies inside its buffer: row `r`
/// starts at `r * stride` and takes `width * bytes_per_pixel` bytes, and
/// rows do not overlap.
pub proof fn lemma_accepted_image_rows_in_bounds(image: ImageView, r: nat)
    requires
        image.spec_fault() is None,
        r < image.height,
    ensures
        row_bytes(image.width, image.format.spec_bytes_per_pixel()) <= image.stride,
        r * image.stride + row_bytes(image.width, image.format.spec_bytes_per_pixel())
            <= image.data@.len(),
{
    let stride = image.stride as int;
    let h1 = (image.height - 1) as int;
    assert(r * stride <= h1 * stride) by (nonlinear_arith)
        requires r <= h1, stride >= 0;
    assert(span_bytes(image.width, image.height, image.format.spec_bytes_per_pixel(), image.stride)
        == h1 * stride + row_bytes(image.width, image.format.spec_bytes_per_pixel())) by (nonlinear_arith)
        requires h1 == image.height - 1, stride == image.stride;
}

/// What the shim reports for a failed or internal encode reaches the caller
/// unchanged: the high-level error is `EncodeFailed` with the shim's message.
pub proof fn lemma_shim_message_reaches_caller(
    status: raw::jpegli_rs_status,
    output: raw::jpegli_rs_output,
    low: Result<Vec<u8>, sys::EncodeError>,
    high: Error,
    message: String,
)
    requires
        status == raw::jpegli_rs_status::JPEGLI_RS_STATUS_ENCODE_ERROR || status
            == raw::jpegli_rs_status::JPEGLI_RS_STATUS_INTERNAL_ERROR,
        output.error_message == Some(message),
        sys::finished(status, output, low),
        low matches Err(e) && sys_error_maps_to(e, high),
    ensures
        high == Error::EncodeFailed(message),
{
}

/// The bytes that the shim hands back with a success status reach the
/// caller unchanged.
pub proof fn lemma_shim_bytes_reach_caller(
    output: raw::jpegli_rs_output,
    low: Result<Vec<u8>, sys::EncodeError>,
    bytes: Vec<u8>,
)
    requires
        output.data == Some(bytes),
        sys::finished(raw::jpegli_rs_status::JPEGLI_RS_STATUS_OK, output, low),
    ensures
        low == Ok::<Vec<u8>, sys::EncodeError>(bytes),
{
}

/// An accepted configuration sets at most one of quality and distance, asks
/// for progressive output only together with optimized coding, keeps quality
/// in `1..=100` and distance in `0.0..=25.0`, and carries no empty ICC profile.
pub proof fn lemma_accepted_config_properties(cfg: EncoderConfig)
    requires
        cfg.spec_fault() is None,
    ensures
        !(cfg.quality is Some && cfg.distance is Some),
        cfg.progressive ==> cfg.optimize_coding,
        cfg.quality matches Some(q) ==> 1 <= q <= 100,
        cfg.distance matches Some(d) ==> f32_within_zero_to_25(d),
        cfg.icc_profile matches Some(p) ==> p@.len() > 0,
{
}

/// The request that the shim receives for an accepted image view never
/// points it outside the buffer: every one of its `height` rows, starting
/// `stride` bytes apart and `width * pixel_format` bytes long, ends within
/// `data_len`, which is the length of the buffer handed over.
pub proof fn lemma_request_rows_in_bounds(image: sys::ImageView, r: nat)
    requires
        image.spec_fault() is None,
        r < image.height,
    ensures
        image.spec_as_raw().data_len == image.data@.len(),
        r * image.spec_as_raw().stride + image.spec_as_raw().width * image.spec_as_raw().pixel_format
            <= image.spec_as_raw().data_len,
{
    let raw_view = image.spec_as_raw();
    let stride = raw_view.stride as int;
    let h1 = (raw_view.height - 1) as int;
    let row = raw_view.width * raw_view.pixel_format;
    assert(r * stride <= h1 * stride) by (nonlinear_arith)
        requires r <= h1, stride >= 0;
    assert(span_bytes(image.width, image.height, image.pixel_format.spec_value() as nat, image.stride)
        == h1 * stride + row) by (nonlinear_arith)
        requires h1 == image.height - 1, stride == image.stride,
            row == image.width * (image.pixel_format.spec_value() as nat);
}

/// Lowering a configuration for the shim keeps every setting the caller
/// chose: quality, distance and the three flags are copied unchanged, the
/// subsampling mode becomes the shim mode of the same name whatever the other
/// settings are, and the ICC profile is handed over byte for byte.
pub proof fn lemma_lowering_keeps_settings(cfg: EncoderConfig, lowered: sys::EncodeConfig)
    requires
        cfg.lowers_to(lowered),
    ensures
        lowered.quality == cfg.quality,
        lowered.distance == cfg.distance,
        lowered.progressive == cfg.progressive,
        lowered.optimize_coding == cfg.optimize_coding,
        lowered.baseline_compatible == cfg.baseline_compatible,
        lowered.subsampling == match cfg.subsampling {
            ChromaSubsampling::Auto => raw::jpegli_rs_subsampling::JPEGLI_RS_SUBSAMPLING_AUTO,
            ChromaSubsampling::Cs444 => raw::jpegli_rs_subsampling::JPEGLI_RS_SUBSAMPLING_444,
            ChromaSubsampling::Cs422 => raw::jpegli_rs_subsampling::JPEGLI_RS_SUBSAMPLING_422,
            ChromaSubsampling::Cs420 => raw::jpegli_rs_subsampling::JPEGLI_RS_SUBSAMPLING_420,
        },
        lowered.icc_profile is Some <==> cfg.icc_profile is Some,
        lowered.icc_profile matches Some(p) ==> p@ == cfg.icc_profile.unwrap()@,
{
}

/// The shim's configuration layout holds each setting of the configuration
/// field by field: every flag is `1` exactly when the setting of the same name
/// is on and `0` otherwise, quality and distance are their values (or `0`
/// when unset), subsampling is the ABI number of the mode (AUTO 0, 444 1,
/// 422 2, 420 3), and the ICC profile comes with its length.
pub proof fn lemma_raw_layout_fields(config: sys::EncodeConfig)
    ensures
        ({
            let r = config.spec_as_raw();
            &&& (r.has_quality == 1 <==> config.quality is Some) && r.has_quality <= 1
            &&& (r.has_distance == 1 <==> config.distance is Some) && r.has_distance <= 1
            &&& (r.progressive == 1 <==> config.progressive) && r.progressive <= 1
            &&& (r.optimize_coding == 1 <==> config.optimize_coding) && r.optimize_coding <= 1
            &&& (r.baseline_compatible == 1 <==> config.baseline_compatible)
                && r.baseline_compatible <= 1
            &&& r._reserved0 == 0
            &&& r.quality == (match config.quality {
                Some(q) => q,
                None => 0u8,
            })
            &&& r.distance == (match config.distance {
                Some(d) => d,
                None => 0u32,
            })
            &&& r.subsampling == (match config.subsampling {
                raw::jpegli_rs_subsampling::JPEGLI_RS_SUBSAMPLING_AUTO => 0u32,
                raw::jpegli_rs_subsampling::JPEGLI_RS_SUBSAMPLING_444 => 1u32,
                raw::jpegli_rs_subsampling::JPEGLI_RS_SUBSAMPLING_422 => 2u32,
                raw::jpegli_rs_subsampling::JPEGLI_RS_SUBSAMPLING_420 => 3u32,
            })
            &&& r.icc_profile == config.icc_profile
            &&& r.icc_profile_len == (match config.icc_profile {
                Some(p) => p@.len(),
                None => 0,
            })
        }),
{
    match config.icc_profile {
        Some(p) => {
            assert(p.len() == p@.len());
        },
        None => {},
    }
}

/// From the high-level configuration to the shim's layout: the subsampling
/// number and the flags that reach the shim are those the caller set.
pub proof fn lemma_settings_reach_shim_layout(cfg: EncoderConfig, lowered: sys::EncodeConfig)
    requires
        cfg.lowers_to(lowered),
    ensures
        lowered.spec_as_raw().subsampling == (match cfg.subsampling {
            ChromaSubsampling::Auto => 0u32,
            ChromaSubsampling::Cs444 => 1u32,
            ChromaSubsampling::Cs422 => 2u32,
            ChromaSubsampling::Cs420 => 3u32,
        }),
        lowered.spec_as_raw().baseline_compatible == (if cfg.baseline_compatible { 1u8 } else { 0u8 }),
        lowered.spec_as_raw().progressive == (if cfg.progressive { 1u8 } else { 0u8 }),
        lowered.spec_as_raw().optimize_coding == (if cfg.optimize_coding { 1u8 } else { 0u8 }),
{
    lemma_lowering_keeps_settings(cfg, lowered);
    lemma_raw_layout_fields(lowered);
}

/// A configuration is accepted exactly when it sets at most one of quality
/// and distance, asks for progressive output only together with optimized
/// coding, keeps quality in `1..=100` and distance in `0.0..=25.0`, and
/// carries no empty ICC profile. Nothing else is refused: in particular a
/// non-progressive configuration may leave optimized coding off.
pub proof fn lemma_config_accepted_iff(cfg: EncoderConfig)
    ensures
        cfg.spec_fault() is None <==> {
            &&& !(cfg.quality is Some && cfg.distance is Some)
            &&& (cfg.progressive ==> cfg.optimize_coding)
            &&& (cfg.quality matches Some(q) ==> 1 <= q <= 100)
            &&& (cfg.distance matches Some(d) ==> f32_within_zero_to_25(d))
            &&& (cfg.icc_profile matches Some(p) ==> p@.len() > 0)
        },
{
}

/// The shim layer accepts a configuration by the same conditions, spelled out.
pub proof fn lemma_sys_config_accepted_iff(config: sys::EncodeConfig)
    ensures
        config.spec_fault() is None <==> {
            &&& !(config.quality is Some && config.distance is Some)
            &&& (config.progressive ==> config.optimize_coding)
            &&& (config.quality matches Some(q) ==> 1 <= q <= 100)
            &&& (config.distance matches Some(d) ==> f32_within_zero_to_25(d))
            &&& (config.icc_profile matches Some(p) ==> p@.len() > 0)
        },
{
}

/// An image view is accepted exactly when its width and height are non-zero,
/// a row (`width * bytes_per_pixel` bytes, with 3 for RGB, 4 for RGBA and 1
/// for gray) fits in the stride, and the buffer holds at least
/// `(height - 1) * stride` bytes plus one row. A longer buffer is never
/// refused, so acceptance only grows with the buffer.
pub proof fn lemma_image_accepted_iff(image: ImageView)
    ensures
        image.spec_fault() is None <==> {
            let bpp: int = match image.format {
                PixelFormat::Rgb8 => 3,
                PixelFormat::Rgba8 => 4,
                PixelFormat::Gray8 => 1,
            };
            &&& image.width > 0
            &&& image.height > 0
            &&& image.width * bpp <= image.stride
            &&& (image.height - 1) * image.stride + image.width * bpp <= image.data@.len()
        },
{
    assert(image.data.len() == image.data@.len());
    let bpp: int = image.format.spec_bytes_per_pixel() as int;
    assert(span_bytes(image.width, image.height, image.format.spec_bytes_per_pixel(), image.stride)
        == (image.height - 1) * image.stride + image.width * bpp) by (nonlinear_arith)
        requires bpp == image.format.spec_bytes_per_pixel();
}

/// The shim layer accepts an image view by the same conditions, with the
/// bytes per pixel given by the shim format (GRAY8 1, RGB8 3, RGBA8 4).
pub proof fn lemma_sys_image_accepted_iff(image: sys::ImageView)
    ensures
        image.spec_fault() is None <==> {
            let bpp: int = match image.pixel_format {
                raw::jpegli_rs_pixel_format::JPEGLI_RS_PIXEL_FORMAT_GRAY8 => 1,
                raw::jpegli_rs_pixel_format::JPEGLI_RS_PIXEL_FORMAT_RGB8 => 3,
                raw::jpegli_rs_pixel_format::JPEGLI_RS_PIXEL_FORMAT_RGBA8 => 4,
            };
            &&& image.width > 0
            &&& image.height > 0
            &&& image.width * bpp <= image.stride
            &&& (image.height - 1) * image.stride + image.width * bpp <= image.data@.len()
        },
{
    assert(image.data.len() == image.data@.len());
    let bpp: int = image.pixel_format.spec_value() as int;
    assert(span_bytes(image.width, image.height, image.pixel_format.spec_value() as nat, image.stride)
        == (image.height - 1) * image.stride + image.width * bpp) by (nonlinear_arith)
        requires bpp == image.pixel_format.spec_value();
}

/// A failing shim status becomes an error whose kind is decided by the
/// status alone (INVALID_ARGUMENT: InvalidArgument, ENCODE_ERROR:
/// EncodeFailed, INTERNAL_ERROR: Internal) and whose message is the shim's,
/// whatever else the output holds. Success with a buffer hands the buffer
/// back; success without one is an InvalidArgument error.
pub proof fn lemma_status_decides_outcome(
    status: raw::jpegli_rs_status,
    output: raw::jpegli_rs_output,
    res: Result<Vec<u8>, sys::EncodeError>,
)
    requires
        sys::finished(status, output, res),
    ensures
        status == raw::jpegli_rs_status::JPEGLI_RS_STATUS_INVALID_ARGUMENT ==> (res matches Err(e)
            && e.kind == sys::EncodeErrorKind::InvalidArgument && e.message == output.error_message),
        status == raw::jpegli_rs_status::JPEGLI_RS_STATUS_ENCODE_ERROR ==> (res matches Err(e)
            && e.kind == sys::EncodeErrorKind::EncodeFailed && e.message == output.error_message),
        status == raw::jpegli_rs_status::JPEGLI_RS_STATUS_INTERNAL_ERROR ==> (res matches Err(e)
            && e.kind == sys::EncodeErrorKind::Internal && e.message == output.error_message),
        status == raw::jpegli_rs_status::JPEGLI_RS_STATUS_OK && output.data is Some ==> res
            == Ok::<Vec<u8>, sys::EncodeError>(output.data.unwrap()),
        status == raw::jpegli_rs_status::JPEGLI_RS_STATUS_OK && output.data is None ==> (res matches Err(e)
            && e.kind == sys::EncodeErrorKind::InvalidArgument),
{
}

/// Two outputs with the same failing status give errors of the same kind:
/// neither the bytes nor the message the shim left change the kind.
pub proof fn lemma_error_kind_ignores_output(
    status: raw::jpegli_rs_status,
    first: raw::jpegli_rs_output,
    first_res: Result<Vec<u8>, sys::EncodeError>,
    second: raw::jpegli_rs_output,
    second_res: Result<Vec<u8>, sys::EncodeError>,
)
    requires
        status != raw::jpegli_rs_status::JPEGLI_RS_STATUS_OK,
        sys::finished(status, first, first_res),
        sys::finished(status, second, second_res),
    ensures
        first_res matches Err(a) && second_res matches Err(b) && a.kind == b.kind,
{
    lemma_status_decides_outcome(status, first, first_res);
    lemma_status_decides_outcome(status, second, second_res);
}

/// What the caller sees for a shim-layer error: a refused configuration or
/// image becomes InvalidConfig or InvalidImage whatever the shim said; a
/// failed or internal encode with a message becomes EncodeFailed with that
/// message; without a message, a failed encode is EncodeFailed and an
/// internal one is Internal.
pub proof fn lemma_caller_sees_error_kind(error: sys::EncodeError, res: Error)
    requires
        sys_error_maps_to(error, res),
    ensures
        error.kind == sys::EncodeErrorKind::InvalidConfig ==> res is InvalidConfig,
        error.kind == sys::EncodeErrorKind::InvalidArgument ==> res is InvalidImage,
        error.kind == sys::EncodeErrorKind::EncodeFailed ==> res is EncodeFailed,
        error.kind == sys::EncodeErrorKind::Internal && error.message is None ==> res is Internal,
        (error.kind == sys::EncodeErrorKind::EncodeFailed || error.kind
            == sys::EncodeErrorKind::Internal) && error.message is Some ==> res
            == Error::EncodeFailed(error.message.unwrap()),
{
}

/// A shim rejection of the image reaches the caller as InvalidImage, never as
/// an encode failure, whatever message the shim gave.
pub proof fn lemma_shim_rejection_reaches_caller_as_invalid_image(
    output: raw::jpegli_rs_output,
    low: Result<Vec<u8>, sys::EncodeError>,
    high: Error,
)
    requires
        sys::finished(raw::jpegli_rs_status::JPEGLI_RS_STATUS_INVALID_ARGUMENT, output, low),
        low matches Err(e) && sys_error_maps_to(e, high),
    ensures
        high is InvalidImage,
{
    lemma_status_decides_outcome(raw::jpegli_rs_status::JPEGLI_RS_STATUS_INVALID_ARGUMENT, output, low);
    lemma_caller_sees_error_kind(low->Err_0, high);
}

/// Lowering an image view keeps its geometry and buffer, and the shim's
/// layout names the pixel format by its number of bytes per pixel (RGB 3,
/// RGBA 4, gray 1), with the buffer's length beside it.
pub proof fn lemma_image_reaches_shim_layout(image: ImageView)
    ensures
        image.spec_as_sys().width == image.width,
        image.spec_as_sys().height == image.height,
        image.spec_as_sys().stride == image.stride,
        image.spec_as_sys().data == image.data,
        image.spec_as_sys().pixel_format == match image.format {
            PixelFormat::Rgb8 => raw::jpegli_rs_pixel_format::JPEGLI_RS_PIXEL_FORMAT_RGB8,
            PixelFormat::Rgba8 => raw::jpegli_rs_pixel_format::JPEGLI_RS_PIXEL_FORMAT_RGBA8,
            PixelFormat::Gray8 => raw::jpegli_rs_pixel_format::JPEGLI_RS_PIXEL_FORMAT_GRAY8,
        },
        image.spec_as_sys().spec_as_raw().pixel_format == image.format.spec_bytes_per_pixel(),
        image.spec_as_sys().spec_as_raw().pixel_format == match image.format {
            PixelFormat::Rgb8 => 3u32,
            PixelFormat::Rgba8 => 4u32,
            PixelFormat::Gray8 => 1u32,
        },
        image.spec_as_sys().spec_as_raw().width == image.width,
        image.spec_as_sys().spec_as_raw().height == image.height,
        image.spec_as_sys().spec_as_raw().stride == image.stride,
        image.spec_as_sys().spec_as_raw().data == image.data,
        image.spec_as_sys().spec_as_raw().data_len == image.data@.len(),
{
    assert(image.data.len() == image.data@.len());
}

} // verus!
