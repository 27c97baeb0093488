//! What the adapters exchange with libwebp, as plain values.
//!
//! libwebp works on C structures that hold raw pointers. The adapters never touch
//! those: they keep the fields that their decisions depend on, and the caller copies
//! them into the C structures when it runs a libwebp routine.

use vstd::prelude::*;
use crate::bitmap::BitmapBgra;

verus! {

/// The status that libwebp's decoding routines return.
#[derive(Clone, Copy, Debug, PartialEq, Eq, Structural)]
pub enum StatusCode {
    Success,
    OutOfMemory,
    InvalidParam,
    BitstreamError,
    UnsupportedFeature,
    Suspended,
    UserAbort,
    NotEnoughData,
}

impl StatusCode {
    /// The name that libwebp gives the status.
    pub open spec fn name(self) -> Seq<char> {
        match self {
            StatusCode::Success => "VP8_STATUS_OK"@,
            StatusCode::OutOfMemory => "VP8_STATUS_OUT_OF_MEMORY"@,
            StatusCode::InvalidParam => "VP8_STATUS_INVALID_PARAM"@,
            StatusCode::BitstreamError => "VP8_STATUS_BITSTREAM_ERROR"@,
            StatusCode::UnsupportedFeature => "VP8_STATUS_UNSUPPORTED_FEATURE"@,
            StatusCode::Suspended => "VP8_STATUS_SUSPENDED"@,
            StatusCode::UserAbort => "VP8_STATUS_USER_ABORT"@,
            StatusCode::NotEnoughData => "VP8_STATUS_NOT_ENOUGH_DATA"@,
        }
    }

    /// The name that libwebp gives the status, for diagnostics.
    pub fn as_str(self) -> (s: &'static str)
        ensures
            s@ == self.name(),
    {
        match self {
            StatusCode::Success => "VP8_STATUS_OK",
            StatusCode::OutOfMemory => "VP8_STATUS_OUT_OF_MEMORY",
            StatusCode::InvalidParam => "VP8_STATUS_INVALID_PARAM",
            StatusCode::BitstreamError => "VP8_STATUS_BITSTREAM_ERROR",
            StatusCode::UnsupportedFeature => "VP8_STATUS_UNSUPPORTED_FEATURE",
            StatusCode::Suspended => "VP8_STATUS_SUSPENDED",
            StatusCode::UserAbort => "VP8_STATUS_USER_ABORT",
            StatusCode::NotEnoughData => "VP8_STATUS_NOT_ENOUGH_DATA",
        }
    }

    /// Whether the routine succeeded.
    pub fn is_ok(self) -> (b: bool)
        ensures
            b == (self == StatusCode::Success),
    {
        match self {
            StatusCode::Success => true,
            _ => false,
        }
    }
}

/// What a feature probe learns from the head of a compressed stream.
#[derive(Clone, Copy, Debug, PartialEq, Eq, Structural)]
pub struct BitstreamFeatures {
    pub width: i32,
    pub height: i32,
    pub has_alpha: i32,
    pub has_animation: i32,
    pub format: i32,
}

/// The decoding options that the adapter sets.
#[derive(Clone, Copy, Debug, PartialEq, Eq, Structural)]
pub struct DecoderOptions {
    /// Not zero when the frame is to be scaled while it is decoded: the adapter
    /// writes 1 for a scaling hint, and libwebp starts out with 0.
    pub use_scaling: i32,
    pub scaled_width: i32,
    pub scaled_height: i32,
}

/// The part of libwebp's decoder configuration that the adapter reads and writes.
#[derive(Clone, Copy, Debug, PartialEq, Eq, Structural)]
pub struct DecoderConfig {
    pub input: BitstreamFeatures,
    pub options: DecoderOptions,
}

impl DecoderConfig {
    /// The configuration in which every field is zero: no features, no scaling.
    pub open spec fn empty() -> DecoderConfig {
        DecoderConfig {
            input: BitstreamFeatures { width: 0, height: 0, has_alpha: 0, has_animation: 0, format: 0 },
            options: DecoderOptions { use_scaling: 0, scaled_width: 0, scaled_height: 0 },
        }
    }

    /// Whether a scaling target is in effect: whether libwebp, given these options,
    /// scales the frame.
    pub open spec fn scales(self) -> bool {
        self.options.use_scaling != 0
    }

    /// The width of the frame that a decode with this configuration produces.
    pub open spec fn output_width(self) -> i32 {
        if self.scales() {
            self.options.scaled_width
        } else {
            self.input.width
        }
    }

    /// The height of the frame that a decode with this configuration produces.
    pub open spec fn output_height(self) -> i32 {
        if self.scales() {
            self.options.scaled_height
        } else {
            self.input.height
        }
    }
}

/// The order of the colour channels in a decoded row.
#[derive(Clone, Copy, Debug, PartialEq, Eq, Structural)]
pub enum ColorSpace {
    Rgb,
    Rgba,
    Bgr,
    Bgra,
    Argb,
}

/// The memory that libwebp is to decode into, as its output buffer describes it.
#[derive(Clone, Copy, Debug, PartialEq, Eq, Structural)]
pub struct OutputBuffer {
    pub colorspace: ColorSpace,
    /// 1 when the memory belongs to the caller and libwebp must not allocate, else 0.
    pub is_external_memory: i32,
    /// The distance in bytes from one row to the next.
    pub stride: i32,
    /// How many bytes libwebp may write.
    pub size: usize,
}

/// One call of libwebp's decoder: the bitmap to fill, and the configuration to fill it with.
#[derive(Clone, Copy, Debug, PartialEq, Eq)]
pub struct DecodeRequest {
    /// The bitmap whose pixel memory receives the frame.
    pub bitmap: BitmapBgra,
    pub options: DecoderOptions,
    pub output: OutputBuffer,
}

impl DecodeRequest {
    /// The request that decodes straight into `bitmap`: BGRA rows in the bitmap's own
    /// memory, at the bitmap's stride, and one stride for each row as the length that
    /// may be written.
    pub open spec fn into_bitmap(bitmap: BitmapBgra, options: DecoderOptions) -> DecodeRequest {
        DecodeRequest {
            bitmap,
            options,
            output: OutputBuffer {
                colorspace: ColorSpace::Bgra,
                is_external_memory: 1,
                stride: bitmap.row_stride() as i32,
                size: (bitmap.row_stride() * bitmap.h()) as usize,
            },
        }
    }

    /// The request that decodes straight into `bitmap`.
    pub fn new(bitmap: BitmapBgra, options: DecoderOptions) -> (r: DecodeRequest)
        ensures
            r == Self::into_bitmap(bitmap, options),
            r.output.stride == bitmap.row_stride(),
            r.output.size == bitmap.row_stride() * bitmap.h(),
            bitmap.wf(),
    {
        let stride: i32 = bitmap.stride() as i32;
        let size: usize = bitmap.byte_len();
        DecodeRequest {
            bitmap,
            options,
            output: OutputBuffer { colorspace: ColorSpace::Bgra, is_external_memory: 1, stride, size },
        }
    }
}

/// Asks libwebp for a decoder configuration and keeps the fields that the adapter uses.
///
/// Trusted: calls `libwebp_sys::WebPDecoderConfig::new`. That function returns `Ok` only
/// after `WebPInitDecoderConfigInternal` has cleared the whole structure with `memset`,
/// so the contract claims that every field that is kept is zero. It returns `Err` when
/// the library's ABI version does not match the bindings; that becomes `None`.
#[verifier::external_body]
pub(crate) fn fresh_decoder_config() -> (r: Option<DecoderConfig>)
    ensures
        r matches Some(c) ==> c == DecoderConfig::empty(),
{
    let raw = libwebp_sys::WebPDecoderConfig::new().ok()?;
    let (i, o) = (raw.input, raw.options);
    Some(DecoderConfig {
        input: BitstreamFeatures {
            width: i.width,
            height: i.height,
            has_alpha: i.has_alpha,
            has_animation: i.has_animation,
            format: i.format,
        },
        options: DecoderOptions { use_scaling: o.use_scaling, scaled_width: o.scaled_width, scaled_height: o.scaled_height },
    })
}

} // verus!
