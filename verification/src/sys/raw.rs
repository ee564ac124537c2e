//! The values exchanged with the narrow C encoder shim, held as plain values:
//! the enums by their variants (`value` gives the number the ABI uses), the
//! borrowed buffers as slices, and what the shim hands back as owned copies.
#![allow(non_camel_case_types)]

use vstd::prelude::*;

verus! {

/// Status code returned by the shim's encode entry point.
#[derive(Clone, Copy, Debug, PartialEq, Eq, Structural)]
pub enum jpegli_rs_status {
    JPEGLI_RS_STATUS_OK,
    JPEGLI_RS_STATUS_INVALID_ARGUMENT,
    JPEGLI_RS_STATUS_ENCODE_ERROR,
    JPEGLI_RS_STATUS_INTERNAL_ERROR,
}

/// Pixel layout of the input buffer, as the shim knows it.
#[derive(Clone, Copy, Debug, PartialEq, Eq, Structural)]
pub enum jpegli_rs_pixel_format {
    JPEGLI_RS_PIXEL_FORMAT_GRAY8,
    JPEGLI_RS_PIXEL_FORMAT_RGB8,
    JPEGLI_RS_PIXEL_FORMAT_RGBA8,
}

/// Chroma subsampling requested from the shim.
#[derive(Clone, Copy, Debug, PartialEq, Eq, Structural)]
pub enum jpegli_rs_subsampling {
    JPEGLI_RS_SUBSAMPLING_AUTO,
    JPEGLI_RS_SUBSAMPLING_444,
    JPEGLI_RS_SUBSAMPLING_422,
    JPEGLI_RS_SUBSAMPLING_420,
}

impl jpegli_rs_status {
    /// The number that stands for this status in the shim's ABI.
    pub open spec fn spec_value(self) -> u32 {
        match self {
            jpegli_rs_status::JPEGLI_RS_STATUS_OK => 0,
            jpegli_rs_status::JPEGLI_RS_STATUS_INVALID_ARGUMENT => 1,
            jpegli_rs_status::JPEGLI_RS_STATUS_ENCODE_ERROR => 2,
            jpegli_rs_status::JPEGLI_RS_STATUS_INTERNAL_ERROR => 3,
        }
    }

    /// The number that stands for this status in the shim's ABI.
    #[verifier::when_used_as_spec(spec_value)]
    pub fn value(self) -> (v: u32)
        ensures
            v == self.spec_value(),
    {
        match self {
            jpegli_rs_status::JPEGLI_RS_STATUS_OK => 0,
            jpegli_rs_status::JPEGLI_RS_STATUS_INVALID_ARGUMENT => 1,
            jpegli_rs_status::JPEGLI_RS_STATUS_ENCODE_ERROR => 2,
            jpegli_rs_status::JPEGLI_RS_STATUS_INTERNAL_ERROR => 3,
        }
    }
}

impl jpegli_rs_pixel_format {
    /// The number that stands for this format in the shim's ABI, which is
    /// also the number of bytes that one pixel takes.
    pub open spec fn spec_value(self) -> u32 {
        match self {
            jpegli_rs_pixel_format::JPEGLI_RS_PIXEL_FORMAT_GRAY8 => 1,
            jpegli_rs_pixel_format::JPEGLI_RS_PIXEL_FORMAT_RGB8 => 3,
            jpegli_rs_pixel_format::JPEGLI_RS_PIXEL_FORMAT_RGBA8 => 4,
        }
    }

    /// The number that stands for this format in the shim's ABI, which is
    /// also the number of bytes that one pixel takes.
    #[verifier::when_used_as_spec(spec_value)]
    pub fn value(self) -> (v: u32)
        ensures
            v == self.spec_value(),
    {
        match self {
            jpegli_rs_pixel_format::JPEGLI_RS_PIXEL_FORMAT_GRAY8 => 1,
            jpegli_rs_pixel_format::JPEGLI_RS_PIXEL_FORMAT_RGB8 => 3,
            jpegli_rs_pixel_format::JPEGLI_RS_PIXEL_FORMAT_RGBA8 => 4,
        }
    }
}

impl jpegli_rs_subsampling {
    /// The number that stands for this mode in the shim's ABI.
    pub open spec fn spec_value(self) -> u32 {
        match self {
            jpegli_rs_subsampling::JPEGLI_RS_SUBSAMPLING_AUTO => 0,
            jpegli_rs_subsampling::JPEGLI_RS_SUBSAMPLING_444 => 1,
            jpegli_rs_subsampling::JPEGLI_RS_SUBSAMPLING_422 => 2,
            jpegli_rs_subsampling::JPEGLI_RS_SUBSAMPLING_420 => 3,
        }
    }

    /// The number that stands for this mode in the shim's ABI.
    #[verifier::when_used_as_spec(spec_value)]
    pub fn value(self) -> (v: u32)
        ensures
            v == self.spec_value(),
    {
        match self {
            jpegli_rs_subsampling::JPEGLI_RS_SUBSAMPLING_AUTO => 0,
            jpegli_rs_subsampling::JPEGLI_RS_SUBSAMPLING_444 => 1,
            jpegli_rs_subsampling::JPEGLI_RS_SUBSAMPLING_422 => 2,
            jpegli_rs_subsampling::JPEGLI_RS_SUBSAMPLING_420 => 3,
        }
    }
}

/// Encoder configuration in the shim's layout. Flags are `0` or `1`; the
/// distance is the bit pattern of a binary32 number; the ICC profile is
/// `None` where the shim receives a null pointer.
#[derive(Clone, Copy, Debug)]
pub struct jpegli_rs_encoder_config<'a> {
    pub has_quality: u8,
    pub quality: u8,
    pub has_distance: u8,
    pub progressive: u8,
    pub optimize_coding: u8,
    pub baseline_compatible: u8,
    pub _reserved0: u8,
    pub distance: u32,
    pub subsampling: u32,
    pub icc_profile: Option<&'a [u8]>,
    pub icc_profile_len: usize,
}

/// Image view in the shim's layout.
#[derive(Clone, Copy, Debug)]
pub struct jpegli_rs_image_view<'a> {
    pub width: u32,
    pub height: u32,
    pub stride: usize,
    pub pixel_format: u32,
    pub data: &'a [u8],
    pub data_len: usize,
}

/// What the shim hands back next to its status, copied out of the shim's
/// buffers: `None` where the shim left a null pointer.
#[derive(Clone, Debug)]
pub struct jpegli_rs_output {
    pub data: Option<Vec<u8>>,
    pub error_message: Option<String>,
}

} // verus!
