//! The shim layer: the low-level configuration and image view, their checks,
//! their layout in the shim's ABI values, and the reading of the
//! shim's status and output.
//!
//! Encoding is one round trip through the C shim. `prepare_encode` decides
//! whether the request may go out and builds it; the caller hands it to the
//! shim and passes what came back to `finish_encode`.

pub mod raw;

use vstd::prelude::*;
use crate::rules::{config_fault, image_fault, distance_in_range};

verus! {

/// Low-level encoder configuration passed to the C shim. `distance` is the
/// bit pattern of a binary32 number (as `f32::to_bits` gives it).
#[derive(Clone, Copy, Debug)]
pub struct EncodeConfig<'a> {
    pub quality: Option<u8>,
    pub distance: Option<u32>,
    pub progressive: bool,
    pub optimize_coding: bool,
    pub baseline_compatible: bool,
    pub subsampling: raw::jpegli_rs_subsampling,
    pub icc_profile: Option<&'a [u8]>,
}

/// Low-level borrowed image view passed to the C shim.
#[derive(Clone, Copy, Debug)]
pub struct ImageView<'a> {
    pub width: u32,
    pub height: u32,
    pub stride: usize,
    pub pixel_format: raw::jpegli_rs_pixel_format,
    pub data: &'a [u8],
}

/// Broad category of a low-level encode error.
#[derive(Clone, Copy, Debug, PartialEq, Eq, Structural)]
pub enum EncodeErrorKind {
    InvalidConfig,
    InvalidArgument,
    EncodeFailed,
    Internal,
}

/// Error returned by the low-level encoder.
#[derive(Debug)]
pub struct EncodeError {
    pub kind: EncodeErrorKind,
    pub message: Option<String>,
}

impl EncodeError {
    /// The error is of `kind` and carries the message `msg`.
    pub open spec fn reports(self, kind: EncodeErrorKind, msg: Seq<char>) -> bool {
        &&& self.kind == kind
        &&& self.message matches Some(m) && m@ == msg
    }

    /// Human-readable text of the error: its message, or else the name of its kind.
    pub fn to_string(&self) -> (text: String)
        ensures
            text@ == match self.message {
                Some(m) => m@,
                None => kind_name(self.kind),
            },
    {
        match &self.message {
            Some(m) => m.clone(),
            None => match self.kind {
                EncodeErrorKind::InvalidConfig => "InvalidConfig".to_owned(),
                EncodeErrorKind::InvalidArgument => "InvalidArgument".to_owned(),
                EncodeErrorKind::EncodeFailed => "EncodeFailed".to_owned(),
                EncodeErrorKind::Internal => "Internal".to_owned(),
            },
        }
    }
}

/// The name of an error kind, as its variant is spelled.
pub open spec fn kind_name(kind: EncodeErrorKind) -> Seq<char> {
    match kind {
        EncodeErrorKind::InvalidConfig => "InvalidConfig"@,
        EncodeErrorKind::InvalidArgument => "InvalidArgument"@,
        EncodeErrorKind::EncodeFailed => "EncodeFailed"@,
        EncodeErrorKind::Internal => "Internal"@,
    }
}

/// The error kind that a failing shim status stands for.
pub open spec fn status_error_kind(status: raw::jpegli_rs_status) -> EncodeErrorKind {
    match status {
        raw::jpegli_rs_status::JPEGLI_RS_STATUS_INVALID_ARGUMENT => EncodeErrorKind::InvalidArgument,
        raw::jpegli_rs_status::JPEGLI_RS_STATUS_ENCODE_ERROR => EncodeErrorKind::EncodeFailed,
        _ => EncodeErrorKind::Internal,
    }
}

/// The view of an optional borrowed buffer as an optional byte sequence.
pub open spec fn bytes_view(buf: Option<&[u8]>) -> Option<Seq<u8>> {
    match buf {
        Some(b) => Some(b@),
        None => None,
    }
}

impl<'a> EncodeConfig<'a> {
    /// Why the shim layer refuses this configuration, if it does.
    pub open spec fn spec_fault(&self) -> Option<Seq<char>> {
        config_fault(
            self.quality,
            self.distance,
            self.progressive,
            self.optimize_coding,
            bytes_view(self.icc_profile),
        )
    }

    /// Checks the configuration; the error carries the first rule it breaks.
    pub fn validate(&self) -> (res: Result<(), EncodeError>)
        ensures
            match self.spec_fault() {
                None => res is Ok,
                Some(msg) => res matches Err(e) && e.reports(EncodeErrorKind::InvalidConfig, msg),
            },
    {
        if self.quality.is_some() && self.distance.is_some() {
            return Err(EncodeError {
                kind: EncodeErrorKind::InvalidConfig,
                message: Some("quality and distance are mutually exclusive".to_owned()),
            });
        }
        if self.progressive && !self.optimize_coding {
            return Err(EncodeError {
                kind: EncodeErrorKind::InvalidConfig,
                message: Some("progressive encoding requires optimize_coding=true".to_owned()),
            });
        }
        if let Some(quality) = self.quality {
            if !(1 <= quality && quality <= 100) {
                return Err(EncodeError {
                    kind: EncodeErrorKind::InvalidConfig,
                    message: Some("quality must be in the range 1..=100".to_owned()),
                });
            }
        }
        if let Some(distance) = self.distance {
            if !distance_in_range(distance) {
                return Err(EncodeError {
                    kind: EncodeErrorKind::InvalidConfig,
                    message: Some("distance must be finite and in the range 0.0..=25.0".to_owned()),
                });
            }
        }
        if let Some(profile) = self.icc_profile {
            if profile.len() == 0 {
                return Err(EncodeError {
                    kind: EncodeErrorKind::InvalidConfig,
                    message: Some("icc_profile must not be empty".to_owned()),
                });
            }
        }
        Ok(())
    }

    /// The configuration in the shim's layout.
    pub open spec fn spec_as_raw(&self) -> raw::jpegli_rs_encoder_config<'a> {
        raw::jpegli_rs_encoder_config {
            has_quality: if self.quality is Some { 1 } else { 0 },
            quality: match self.quality {
                Some(q) => q,
                None => 0,
            },
            has_distance: if self.distance is Some { 1 } else { 0 },
            progressive: if self.progressive { 1 } else { 0 },
            optimize_coding: if self.optimize_coding { 1 } else { 0 },
            baseline_compatible: if self.baseline_compatible { 1 } else { 0 },
            _reserved0: 0,
            distance: match self.distance {
                Some(d) => d,
                None => 0,
            },
            subsampling: self.subsampling.spec_value(),
            icc_profile: self.icc_profile,
            icc_profile_len: match self.icc_profile {
                Some(p) => p.len(),
                None => 0,
            },
        }
    }

    /// The configuration in the shim's layout.
    pub fn as_raw(&self) -> (r: raw::jpegli_rs_encoder_config<'a>)
        ensures
            r == self.spec_as_raw(),
    {
        raw::jpegli_rs_encoder_config {
            has_quality: if self.quality.is_some() { 1 } else { 0 },
            quality: match self.quality {
                Some(q) => q,
                None => 0,
            },
            has_distance: if self.distance.is_some() { 1 } else { 0 },
            progressive: if self.progressive { 1 } else { 0 },
            optimize_coding: if self.optimize_coding { 1 } else { 0 },
            baseline_compatible: if self.baseline_compatible { 1 } else { 0 },
            _reserved0: 0,
            distance: match self.distance {
                Some(d) => d,
                None => 0,
            },
            subsampling: self.subsampling.value(),
            icc_profile: self.icc_profile,
            icc_profile_len: match self.icc_profile {
                Some(p) => p.len(),
                None => 0,
            },
        }
    }
}

impl<'a> ImageView<'a> {
    /// Why the shim layer refuses this image view, if it does.
    pub open spec fn spec_fault(&self) -> Option<Seq<char>> {
        image_fault(
            self.width,
            self.height,
            self.pixel_format.spec_value() as nat,
            self.stride,
            self.data@.len(),
        )
    }

    /// Checks the image view; the error carries the first rule it breaks.
    pub fn validate(&self) -> (res: Result<(), EncodeError>)
        ensures
            match self.spec_fault() {
                None => res is Ok,
                Some(msg) => res matches Err(e) && e.reports(EncodeErrorKind::InvalidArgument, msg),
            },
    {
        if self.width == 0 || self.height == 0 {
            return Err(EncodeError {
                kind: EncodeErrorKind::InvalidArgument,
                message: Some("width and height must be non-zero".to_owned()),
            });
        }
        let bytes_per_pixel = self.pixel_format.value() as usize;
        let row_bytes = match (self.width as usize).checked_mul(bytes_per_pixel) {
            Some(r) => r,
            None => {
                return Err(EncodeError {
                    kind: EncodeErrorKind::InvalidArgument,
                    message: Some("image row size overflow".to_owned()),
                });
            },
        };
        if self.stride < row_bytes {
            return Err(EncodeError {
                kind: EncodeErrorKind::InvalidArgument,
                message: Some("stride must be at least width * bytes_per_pixel".to_owned()),
            });
        }
        let total_bytes = match self.stride.checked_mul((self.height - 1) as usize) {
            Some(prefix) => prefix.checked_add(row_bytes),
            None => None,
        };
        let total_bytes = match total_bytes {
            Some(t) => t,
            None => {
                return Err(EncodeError {
                    kind: EncodeErrorKind::InvalidArgument,
                    message: Some("image buffer size overflow".to_owned()),
                });
            },
        };
        if self.data.len() < total_bytes {
            return Err(EncodeError {
                kind: EncodeErrorKind::InvalidArgument,
                message: Some("input buffer is too small for the image view".to_owned()),
            });
        }
        Ok(())
    }

    /// The image view in the shim's layout.
    pub open spec fn spec_as_raw(&self) -> raw::jpegli_rs_image_view<'a> {
        raw::jpegli_rs_image_view {
            width: self.width,
            height: self.height,
            stride: self.stride,
            pixel_format: self.pixel_format.spec_value(),
            data: self.data,
            data_len: self.data.len(),
        }
    }

    /// The image view in the shim's layout.
    pub fn as_raw(&self) -> (r: raw::jpegli_rs_image_view<'a>)
        ensures
            r == self.spec_as_raw(),
    {
        raw::jpegli_rs_image_view {
            width: self.width,
            height: self.height,
            stride: self.stride,
            pixel_format: self.pixel_format.value(),
            data: self.data,
            data_len: self.data.len(),
        }
    }
}

/// First half of an encode: checks the configuration, then the image, and
/// builds the request that the shim receives.
pub fn prepare_encode<'c, 'i>(config: &EncodeConfig<'c>, image: &ImageView<'i>) -> (res: Result<
    (raw::jpegli_rs_encoder_config<'c>, raw::jpegli_rs_image_view<'i>),
    EncodeError,
>)
    ensures
        match config.spec_fault() {
            Some(msg) => res matches Err(e) && e.reports(EncodeErrorKind::InvalidConfig, msg),
            None => match image.spec_fault() {
                Some(msg) => res matches Err(e) && e.reports(EncodeErrorKind::InvalidArgument, msg),
                None => res matches Ok(r) && r == (config.spec_as_raw(), image.spec_as_raw()),
            },
        },
{
    config.validate()?;
    image.validate()?;
    Ok((config.as_raw(), image.as_raw()))
}

/// `res` is what the shim's `status` and `output` amount to: success hands
/// back the encoded bytes, success without a buffer is refused, and a failing
/// status becomes an error of the matching kind with the shim's message.
pub open spec fn finished(
    status: raw::jpegli_rs_status,
    output: raw::jpegli_rs_output,
    res: Result<Vec<u8>, EncodeError>,
) -> bool {
    if status == raw::jpegli_rs_status::JPEGLI_RS_STATUS_OK {
        match output.data {
            Some(d) => res == Ok::<Vec<u8>, EncodeError>(d),
            None => res matches Err(e) && e.reports(
                EncodeErrorKind::InvalidArgument,
                "encoder returned success without an output buffer"@,
            ),
        }
    } else {
        res == Err::<Vec<u8>, EncodeError>(
            EncodeError { kind: status_error_kind(status), message: output.error_message },
        )
    }
}

/// Second half of an encode: reads the shim's status and output. Success
/// hands back the encoded bytes; success without a buffer is refused; a
/// failing status becomes an error of the matching kind with the shim's message.
pub fn finish_encode(status: raw::jpegli_rs_status, output: raw::jpegli_rs_output) -> (res: Result<
    Vec<u8>,
    EncodeError,
>)
    ensures
        finished(status, output, res),
{
    match status {
        raw::jpegli_rs_status::JPEGLI_RS_STATUS_OK => match output.data {
            Some(bytes) => Ok(bytes),
            None => Err(
                EncodeError {
                    kind: EncodeErrorKind::InvalidArgument,
                    message: Some("encoder returned success without an output buffer".to_owned()),
                },
            ),
        },
        raw::jpegli_rs_status::JPEGLI_RS_STATUS_INVALID_ARGUMENT => Err(
            EncodeError { kind: EncodeErrorKind::InvalidArgument, message: output.error_message },
        ),
        raw::jpegli_rs_status::JPEGLI_RS_STATUS_ENCODE_ERROR => Err(
            EncodeError { kind: EncodeErrorKind::EncodeFailed, message: output.error_message },
        ),
        raw::jpegli_rs_status::JPEGLI_RS_STATUS_INTERNAL_ERROR => Err(
            EncodeError { kind: EncodeErrorKind::Internal, message: output.error_message },
        ),
    }
}

} // verus!
