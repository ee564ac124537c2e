//! The high-level API: encoder configuration, image views, the encoder that
//! holds a checked configuration, and the high-level error model.

use vstd::prelude::*;
use crate::rules::{config_fault, image_fault, distance_in_range};
use crate::sys;
use crate::sys::raw;

verus! {

/// High-level encoder with validated configuration.
#[derive(Debug)]
pub struct Encoder {
    cfg: EncoderConfig,
}

/// Configuration for high-level JPEG encoding. `distance` is the bit pattern
/// of a binary32 number (as `f32::to_bits` gives it).
#[derive(Debug, PartialEq)]
pub struct EncoderConfig {
    pub quality: Option<u8>,
    pub distance: Option<u32>,
    pub progressive: bool,
    pub subsampling: ChromaSubsampling,
    pub optimize_coding: bool,
    pub baseline_compatible: bool,
    pub icc_profile: Option<Vec<u8>>,
}

/// Output chroma subsampling mode.
#[derive(Clone, Copy, Debug, Eq, PartialEq, Structural)]
pub enum ChromaSubsampling {
    Auto,
    Cs444,
    Cs422,
    Cs420,
}

/// Borrowed source image passed into the encoder.
#[derive(Clone, Copy, Debug)]
pub struct ImageView<'a> {
    pub width: u32,
    pub height: u32,
    pub format: PixelFormat,
    pub stride: usize,
    pub data: &'a [u8],
}

/// Supported input pixel formats.
#[derive(Clone, Copy, Debug, Eq, PartialEq, Structural)]
pub enum PixelFormat {
    Rgb8,
    Rgba8,
    Gray8,
}

/// High-level encoder errors.
#[derive(Debug, Eq, PartialEq)]
pub enum Error {
    InvalidConfig(&'static str),
    InvalidImage(&'static str),
    EncodeFailed(String),
    NullPointer,
    Internal(&'static str),
}

impl Default for EncoderConfig {
    fn default() -> (cfg: Self)
        ensures
            cfg.quality is None,
            cfg.distance is None,
            !cfg.progressive,
            cfg.subsampling == ChromaSubsampling::Auto,
            cfg.optimize_coding,
            !cfg.baseline_compatible,
            cfg.icc_profile is None,
            cfg.spec_fault() is None,
    {
        EncoderConfig {
            quality: None,
            distance: None,
            progressive: false,
            subsampling: ChromaSubsampling::Auto,
            optimize_coding: true,
            baseline_compatible: false,
            icc_profile: None,
        }
    }
}

impl EncoderConfig {
    /// `other` holds the same settings as this configuration.
    pub open spec fn same_settings(&self, other: EncoderConfig) -> bool {
        &&& other.quality == self.quality
        &&& other.distance == self.distance
        &&& other.progressive == self.progressive
        &&& other.subsampling == self.subsampling
        &&& other.optimize_coding == self.optimize_coding
        &&& other.baseline_compatible == self.baseline_compatible
        &&& owned_bytes_view(other.icc_profile) == owned_bytes_view(self.icc_profile)
    }
}

impl Clone for EncoderConfig {
    fn clone(&self) -> (c: Self)
        ensures
            self.same_settings(c),
    {
        let icc_profile = match &self.icc_profile {
            Some(profile) => {
                let copy = profile.clone();
                proof {
                    assert(copy@ =~= profile@);
                }
                Some(copy)
            },
            None => None,
        };
        EncoderConfig {
            quality: self.quality,
            distance: self.distance,
            progressive: self.progressive,
            subsampling: self.subsampling,
            optimize_coding: self.optimize_coding,
            baseline_compatible: self.baseline_compatible,
            icc_profile,
        }
    }
}

impl Clone for Encoder {
    fn clone(&self) -> (e: Self)
        ensures
            self.config().same_settings(e.config()),
    {
        proof {
            use_type_invariant(self);
        }
        Encoder { cfg: self.cfg.clone() }
    }
}

impl PixelFormat {
    /// Number of bytes that one pixel of this format takes.
    pub open spec fn spec_bytes_per_pixel(self) -> nat {
        match self {
            PixelFormat::Rgb8 => 3,
            PixelFormat::Rgba8 => 4,
            PixelFormat::Gray8 => 1,
        }
    }

    /// Number of bytes that one pixel of this format takes.
    pub fn bytes_per_pixel(self) -> (n: usize)
        ensures
            n == self.spec_bytes_per_pixel(),
    {
        match self {
            PixelFormat::Rgb8 => 3,
            PixelFormat::Rgba8 => 4,
            PixelFormat::Gray8 => 1,
        }
    }

    /// The shim's name for this format.
    pub open spec fn spec_as_sys(self) -> raw::jpegli_rs_pixel_format {
        match self {
            PixelFormat::Rgb8 => raw::jpegli_rs_pixel_format::JPEGLI_RS_PIXEL_FORMAT_RGB8,
            PixelFormat::Rgba8 => raw::jpegli_rs_pixel_format::JPEGLI_RS_PIXEL_FORMAT_RGBA8,
            PixelFormat::Gray8 => raw::jpegli_rs_pixel_format::JPEGLI_RS_PIXEL_FORMAT_GRAY8,
        }
    }

    /// The shim's name for this format.
    pub fn as_sys(self) -> (f: raw::jpegli_rs_pixel_format)
        ensures
            f == self.spec_as_sys(),
    {
        match self {
            PixelFormat::Rgb8 => raw::jpegli_rs_pixel_format::JPEGLI_RS_PIXEL_FORMAT_RGB8,
            PixelFormat::Rgba8 => raw::jpegli_rs_pixel_format::JPEGLI_RS_PIXEL_FORMAT_RGBA8,
            PixelFormat::Gray8 => raw::jpegli_rs_pixel_format::JPEGLI_RS_PIXEL_FORMAT_GRAY8,
        }
    }
}

impl ChromaSubsampling {
    /// The shim's name for this mode.
    pub open spec fn spec_as_sys(self) -> raw::jpegli_rs_subsampling {
        match self {
            ChromaSubsampling::Auto => raw::jpegli_rs_subsampling::JPEGLI_RS_SUBSAMPLING_AUTO,
            ChromaSubsampling::Cs444 => raw::jpegli_rs_subsampling::JPEGLI_RS_SUBSAMPLING_444,
            ChromaSubsampling::Cs422 => raw::jpegli_rs_subsampling::JPEGLI_RS_SUBSAMPLING_422,
            ChromaSubsampling::Cs420 => raw::jpegli_rs_subsampling::JPEGLI_RS_SUBSAMPLING_420,
        }
    }

    /// The shim's name for this mode.
    pub fn as_sys(self) -> (s: raw::jpegli_rs_subsampling)
        ensures
            s == self.spec_as_sys(),
    {
        match self {
            ChromaSubsampling::Auto => raw::jpegli_rs_subsampling::JPEGLI_RS_SUBSAMPLING_AUTO,
            ChromaSubsampling::Cs444 => raw::jpegli_rs_subsampling::JPEGLI_RS_SUBSAMPLING_444,
            ChromaSubsampling::Cs422 => raw::jpegli_rs_subsampling::JPEGLI_RS_SUBSAMPLING_422,
            ChromaSubsampling::Cs420 => raw::jpegli_rs_subsampling::JPEGLI_RS_SUBSAMPLING_420,
        }
    }
}

/// The view of an optional owned buffer as an optional byte sequence.
pub open spec fn owned_bytes_view(buf: Option<Vec<u8>>) -> Option<Seq<u8>> {
    match buf {
        Some(b) => Some(b@),
        None => None,
    }
}

impl EncoderConfig {
    /// Why this configuration is refused, if it is.
    pub open spec fn spec_fault(&self) -> Option<Seq<char>> {
        config_fault(
            self.quality,
            self.distance,
            self.progressive,
            self.optimize_coding,
            owned_bytes_view(self.icc_profile),
        )
    }

    /// Checks the configuration; the error carries the first rule it breaks.
    pub fn validate(&self) -> (res: Result<(), Error>)
        ensures
            match self.spec_fault() {
                None => res is Ok,
                Some(msg) => res matches Err(Error::InvalidConfig(m)) && m@ == msg,
            },
    {
        if self.quality.is_some() && self.distance.is_some() {
            return Err(Error::InvalidConfig("quality and distance are mutually exclusive"));
        }
        if self.progressive && !self.optimize_coding {
            return Err(Error::InvalidConfig("progressive encoding requires optimize_coding=true"));
        }
        if let Some(quality) = self.quality {
            if !(1 <= quality && quality <= 100) {
                return Err(Error::InvalidConfig("quality must be in the range 1..=100"));
            }
        }
        if let Some(distance) = self.distance {
            if !distance_in_range(distance) {
                return Err(
                    Error::InvalidConfig("distance must be finite and in the range 0.0..=25.0"),
                );
            }
        }
        if let Some(profile) = &self.icc_profile {
            if profile.len() == 0 {
                return Err(Error::InvalidConfig("icc_profile must not be empty"));
            }
        }
        Ok(())
    }

    /// `c` is this configuration as the shim layer receives it.
    pub open spec fn lowers_to(&self, c: sys::EncodeConfig) -> bool {
        &&& c.quality == self.quality
        &&& c.distance == self.distance
        &&& c.progressive == self.progressive
        &&& c.optimize_coding == self.optimize_coding
        &&& c.baseline_compatible == self.baseline_compatible
        &&& c.subsampling == self.subsampling.spec_as_sys()
        &&& sys::bytes_view(c.icc_profile) == owned_bytes_view(self.icc_profile)
    }

    /// This configuration as the shim layer receives it, borrowing the ICC profile.
    pub fn as_sys(&self) -> (c: sys::EncodeConfig<'_>)
        ensures
            self.lowers_to(c),
    {
        sys::EncodeConfig {
            quality: self.quality,
            distance: self.distance,
            progressive: self.progressive,
            optimize_coding: self.optimize_coding,
            baseline_compatible: self.baseline_compatible,
            subsampling: self.subsampling.as_sys(),
            icc_profile: match &self.icc_profile {
                Some(profile) => Some(profile.as_slice()),
                None => None,
            },
        }
    }
}

impl<'a> ImageView<'a> {
    /// Why this image view is refused, if it is.
    pub open spec fn spec_fault(&self) -> Option<Seq<char>> {
        image_fault(
            self.width,
            self.height,
            self.format.spec_bytes_per_pixel(),
            self.stride,
            self.data@.len(),
        )
    }

    /// Checks the image view; the error carries the first rule it breaks.
    pub fn validate(&self) -> (res: Result<(), Error>)
        ensures
            match self.spec_fault() {
                None => res is Ok,
                Some(msg) => res matches Err(Error::InvalidImage(m)) && m@ == msg,
            },
    {
        if self.width == 0 || self.height == 0 {
            return Err(Error::InvalidImage("width and height must be non-zero"));
        }
        let row_bytes = match (self.width as usize).checked_mul(self.format.bytes_per_pixel()) {
            Some(r) => r,
            None => {
                return Err(Error::InvalidImage("image row size overflow"));
            },
        };
        if self.stride < row_bytes {
            return Err(Error::InvalidImage("stride must be at least width * bytes_per_pixel"));
        }
        let total_bytes = match self.stride.checked_mul((self.height - 1) as usize) {
            Some(prefix) => prefix.checked_add(row_bytes),
            None => None,
        };
        let total_bytes = match total_bytes {
            Some(t) => t,
            None => {
                return Err(Error::InvalidImage("image buffer size overflow"));
            },
        };
        if self.data.len() < total_bytes {
            return Err(Error::InvalidImage("input buffer is too small for the image view"));
        }
        Ok(())
    }

    /// This image view as the shim layer receives it.
    pub open spec fn spec_as_sys(&self) -> sys::ImageView<'a> {
        sys::ImageView {
            width: self.width,
            height: self.height,
            stride: self.stride,
            pixel_format: self.format.spec_as_sys(),
            data: self.data,
        }
    }

    /// This image view as the shim layer receives it.
    pub fn as_sys(&self) -> (v: sys::ImageView<'a>)
        ensures
            v == self.spec_as_sys(),
    {
        sys::ImageView {
            width: self.width,
            height: self.height,
            stride: self.stride,
            pixel_format: self.format.as_sys(),
            data: self.data,
        }
    }
}

impl Error {
    /// Human-readable text of the error.
    pub open spec fn spec_text(&self) -> Seq<char> {
        match self {
            Error::InvalidConfig(m) => m@,
            Error::InvalidImage(m) => m@,
            Error::EncodeFailed(m) => m@,
            Error::NullPointer => "unexpected null pointer from FFI"@,
            Error::Internal(m) => m@,
        }
    }

    /// Human-readable text of the error.
    pub fn to_string(&self) -> (text: String)
        ensures
            text@ == self.spec_text(),
    {
        match self {
            Error::InvalidConfig(m) => (*m).to_owned(),
            Error::InvalidImage(m) => (*m).to_owned(),
            Error::EncodeFailed(m) => m.clone(),
            Error::NullPointer => "unexpected null pointer from FFI".to_owned(),
            Error::Internal(m) => (*m).to_owned(),
        }
    }
}

/// `res` is what the shim-layer error `error` becomes at the high level.
pub open spec fn sys_error_maps_to(error: sys::EncodeError, res: Error) -> bool {
    match error.kind {
        sys::EncodeErrorKind::InvalidConfig => res matches Error::InvalidConfig(m) && m@
            == "ffi rejected the provided encoder config"@,
        sys::EncodeErrorKind::InvalidArgument => res matches Error::InvalidImage(m) && m@
            == "ffi rejected the provided image"@,
        sys::EncodeErrorKind::EncodeFailed => match error.message {
            Some(s) => res == Error::EncodeFailed(s),
            None => res matches Error::EncodeFailed(s) && s@ == "jpegli encode failed"@,
        },
        sys::EncodeErrorKind::Internal => match error.message {
            Some(s) => res == Error::EncodeFailed(s),
            None => res matches Error::Internal(m) && m@ == "jpegli internal error"@,
        },
    }
}

/// Maps a shim-layer error onto the high-level error model; a message that
/// the shim gave for a failed or internal encode is kept.
pub fn map_sys_error(error: sys::EncodeError) -> (res: Error)
    ensures
        sys_error_maps_to(error, res),
{
    match error.kind {
        sys::EncodeErrorKind::InvalidConfig => Error::InvalidConfig(
            "ffi rejected the provided encoder config",
        ),
        sys::EncodeErrorKind::InvalidArgument => Error::InvalidImage("ffi rejected the provided image"),
        sys::EncodeErrorKind::EncodeFailed => match error.message {
            Some(message) => Error::EncodeFailed(message),
            None => Error::EncodeFailed("jpegli encode failed".to_owned()),
        },
        sys::EncodeErrorKind::Internal => match error.message {
            Some(message) => Error::EncodeFailed(message),
            None => Error::Internal("jpegli internal error"),
        },
    }
}

impl Encoder {
    /// Every encoder holds a configuration that passes validation.
    #[verifier::type_invariant]
    spec fn holds_valid_config(self) -> bool {
        self.cfg.spec_fault() is None
    }

    /// The configuration this encoder was built with.
    pub closed spec fn config(self) -> EncoderConfig {
        self.cfg
    }

    /// Builds an encoder from a configuration that passes validation, and
    /// refuses any other with the first rule it breaks.
    pub fn new(cfg: EncoderConfig) -> (res: Result<Self, Error>)
        ensures
            match cfg.spec_fault() {
                None => res matches Ok(e) && e.config() == cfg,
                Some(msg) => res matches Err(Error::InvalidConfig(m)) && m@ == msg,
            },
    {
        cfg.validate()?;
        Ok(Encoder { cfg })
    }

    /// First half of `encode`: checks the image and builds the shim-layer
    /// configuration and image view. The configuration always passes the
    /// shim layer's own check.
    pub fn prepare_encode<'i>(&self, image: &ImageView<'i>) -> (res: Result<
        (sys::EncodeConfig<'_>, sys::ImageView<'i>),
        Error,
    >)
        ensures
            match image.spec_fault() {
                Some(msg) => res matches Err(Error::InvalidImage(m)) && m@ == msg,
                None => res matches Ok(r) && self.config().lowers_to(r.0) && r.1
                    == image.spec_as_sys(),
            },
            res matches Ok(r) ==> r.0.spec_fault() is None && r.1.spec_fault() is None,
    {
        proof {
            use_type_invariant(self);
        }
        image.validate()?;
        let c = self.cfg.as_sys();
        let v = image.as_sys();
        proof {
            crate::laws::lemma_config_checks_agree(self.cfg, c);
            crate::laws::lemma_image_checks_agree(*image);
        }
        Ok((c, v))
    }

    /// Second half of `encode`: turns what the shim layer reported into the
    /// high-level result.
    pub fn finish_encode(result: Result<Vec<u8>, sys::EncodeError>) -> (res: Result<Vec<u8>, Error>)
        ensures
            match result {
                Ok(bytes) => res == Ok::<Vec<u8>, Error>(bytes),
                Err(e) => res matches Err(r) && sys_error_maps_to(e, r),
            },
    {
        match result {
            Ok(bytes) => Ok(bytes),
            Err(e) => Err(map_sys_error(e)),
        }
    }
}

} // verus!
