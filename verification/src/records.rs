//! The records that the pipeline and the adapters pass to each other.

use vstd::prelude::*;

verus! {

/// A pixel layout of the pipeline's bitmaps.
#[derive(Clone, Copy, Debug, PartialEq, Eq, Structural)]
pub enum PixelFormat {
    Bgr24,
    Bgra32,
    Bgr32,
    Gray8,
}

impl PixelFormat {
    /// How many bytes one pixel takes in this layout.
    pub open spec fn pixel_bytes(self) -> u32 {
        match self {
            PixelFormat::Bgr24 => 3,
            PixelFormat::Bgra32 => 4,
            PixelFormat::Bgr32 => 4,
            PixelFormat::Gray8 => 1,
        }
    }

    /// How many bytes one pixel takes in this layout.
    pub fn bytes_per_pixel(self) -> (n: u32)
        ensures
            n == self.pixel_bytes(),
    {
        match self {
            PixelFormat::Bgr24 => 3,
            PixelFormat::Bgra32 => 4,
            PixelFormat::Bgr32 => 4,
            PixelFormat::Gray8 => 1,
        }
    }
}

/// The MIME type that the pipeline should prefer for WebP data.
pub open spec fn webp_mime_type() -> Seq<char> {
    "image/webp"@
}

/// The file extension that the pipeline should prefer for WebP data.
pub open spec fn webp_extension() -> Seq<char> {
    "webp"@
}

/// What a decoder reports about the image in its stream.
#[derive(Clone, Debug, PartialEq, Eq)]
pub struct ImageInfo {
    pub preferred_mime_type: String,
    pub preferred_extension: String,
    pub image_width: i32,
    pub image_height: i32,
    pub frame_decodes_into: PixelFormat,
}

/// The mathematical content of an [`ImageInfo`].
pub struct ImageInfoView {
    pub preferred_mime_type: Seq<char>,
    pub preferred_extension: Seq<char>,
    pub image_width: i32,
    pub image_height: i32,
    pub frame_decodes_into: PixelFormat,
}

impl View for ImageInfo {
    type V = ImageInfoView;

    open spec fn view(&self) -> ImageInfoView {
        ImageInfoView {
            preferred_mime_type: self.preferred_mime_type@,
            preferred_extension: self.preferred_extension@,
            image_width: self.image_width,
            image_height: self.image_height,
            frame_decodes_into: self.frame_decodes_into,
        }
    }
}

impl ImageInfoView {
    /// The record of a WebP image of the given size: it decodes into 32-bit BGRA.
    pub open spec fn webp(width: i32, height: i32) -> ImageInfoView {
        ImageInfoView {
            preferred_mime_type: webp_mime_type(),
            preferred_extension: webp_extension(),
            image_width: width,
            image_height: height,
            frame_decodes_into: PixelFormat::Bgra32,
        }
    }
}

impl ImageInfo {
    /// The record of a WebP image of the given size.
    pub fn webp(width: i32, height: i32) -> (info: ImageInfo)
        ensures
            info@ == ImageInfoView::webp(width, height),
    {
        ImageInfo {
            preferred_mime_type: "image/webp".to_owned(),
            preferred_extension: "webp".to_owned(),
            image_width: width,
            image_height: height,
            frame_decodes_into: PixelFormat::Bgra32,
        }
    }
}

/// The size to which a WebP frame is to be scaled while it is decoded.
#[derive(Clone, Copy, Debug, PartialEq, Eq, Structural)]
pub struct WebPDecoderHints {
    pub width: i32,
    pub height: i32,
}

/// The size below which a JPEG decoder may shrink a frame while it decodes.
#[derive(Clone, Copy, Debug, PartialEq, Eq, Structural)]
pub struct JpegIDCTDownscaleHints {
    pub width: i64,
    pub height: i64,
}

/// A command that the pipeline sends to a decoder. Each decoder acts on the
/// commands that it knows and ignores the others.
#[derive(Clone, Copy, Debug, PartialEq, Eq, Structural)]
pub enum DecoderCommand {
    JpegDownscaleHints(JpegIDCTDownscaleHints),
    DiscardColorProfile,
    WebPDecoderHints(WebPDecoderHints),
}

/// How a frame is to be encoded. Each encoder accepts the presets of its own format.
#[derive(Clone, Copy, Debug, PartialEq, Eq, Structural)]
pub enum EncoderPreset {
    LibjpegTurbo { quality: Option<i32> },
    Lodepng,
    Gif,
    /// Lossy WebP. The quality, on a scale from 0 to 100, travels as the bit pattern
    /// of an IEEE 754 single: the encoder hands it on untouched.
    WebPLossy { quality_bits: u32 },
    WebPLossless,
}

impl EncoderPreset {
    /// Whether the WebP encoder accepts the preset.
    pub open spec fn is_webp(self) -> bool {
        self is WebPLossy || self is WebPLossless
    }
}

/// Where the bytes of an encoded image are.
#[derive(Clone, Debug, PartialEq, Eq)]
pub enum ResultBytes {
    Base64(String),
    ByteArray(Vec<u8>),
    PhysicalFile(String),
    /// The bytes went to the output stream of the encoder.
    Elsewhere,
}

/// What an encoder reports about the image that it wrote.
#[derive(Clone, Debug, PartialEq, Eq)]
pub struct EncodeResult {
    pub preferred_mime_type: String,
    pub preferred_extension: String,
    pub io_id: i32,
    pub w: i32,
    pub h: i32,
    pub bytes: ResultBytes,
}

/// The mathematical content of an [`EncodeResult`] whose bytes are elsewhere.
pub struct EncodeResultView {
    pub preferred_mime_type: Seq<char>,
    pub preferred_extension: Seq<char>,
    pub io_id: i32,
    pub w: i32,
    pub h: i32,
    pub elsewhere: bool,
}

impl View for EncodeResult {
    type V = EncodeResultView;

    open spec fn view(&self) -> EncodeResultView {
        EncodeResultView {
            preferred_mime_type: self.preferred_mime_type@,
            preferred_extension: self.preferred_extension@,
            io_id: self.io_id,
            w: self.w,
            h: self.h,
            elsewhere: self.bytes is Elsewhere,
        }
    }
}

impl EncodeResultView {
    /// The report of a WebP image of the given size that went to the stream `io_id`.
    pub open spec fn webp(w: i32, h: i32, io_id: i32) -> EncodeResultView {
        EncodeResultView {
            preferred_mime_type: webp_mime_type(),
            preferred_extension: webp_extension(),
            io_id,
            w,
            h,
            elsewhere: true,
        }
    }
}

impl EncodeResult {
    /// The report of a WebP image of the given size that went to the stream `io_id`.
    pub fn webp(w: i32, h: i32, io_id: i32) -> (r: EncodeResult)
        ensures
            r@ == EncodeResultView::webp(w, h, io_id),
    {
        EncodeResult {
            preferred_mime_type: "image/webp".to_owned(),
            preferred_extension: "webp".to_owned(),
            io_id,
            w,
            h,
            bytes: ResultBytes::Elsewhere,
        }
    }
}

} // verus!
