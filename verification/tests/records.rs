use webp_codec::bitmap::BitmapBgra;
use webp_codec::errors::{ErrorKind, FlowError, IoError};
use webp_codec::libwebp::{ColorSpace, DecodeRequest, DecoderOptions, OutputBuffer, StatusCode};
use webp_codec::records::{EncodeResult, ImageInfo, PixelFormat, ResultBytes};

#[test]
fn a_pixel_takes_the_bytes_of_its_layout() {
    assert_eq!(PixelFormat::Bgra32.bytes_per_pixel(), 4);
    assert_eq!(PixelFormat::Bgr32.bytes_per_pixel(), 4);
    assert_eq!(PixelFormat::Bgr24.bytes_per_pixel(), 3);
    assert_eq!(PixelFormat::Gray8.bytes_per_pixel(), 1);
}

#[test]
fn a_bitmap_keeps_its_geometry() {
    let bitmap = BitmapBgra::new(33, 7, 192, PixelFormat::Bgra32).unwrap();
    assert_eq!(bitmap.width(), 33);
    assert_eq!(bitmap.height(), 7);
    assert_eq!(bitmap.stride(), 192);
    assert_eq!(bitmap.format(), PixelFormat::Bgra32);
    assert_eq!(bitmap.byte_len(), 1344);
}

#[test]
fn a_row_may_be_exactly_as_long_as_its_pixels() {
    assert!(BitmapBgra::new(33, 7, 132, PixelFormat::Bgra32).is_some());
    assert!(BitmapBgra::new(33, 7, 131, PixelFormat::Bgra32).is_none());
    assert!(BitmapBgra::new(33, 7, 99, PixelFormat::Bgr24).is_some());
    assert!(BitmapBgra::new(33, 7, 98, PixelFormat::Bgr24).is_none());
    assert!(BitmapBgra::new(33, 7, 33, PixelFormat::Gray8).is_some());
    assert!(BitmapBgra::new(33, 7, 32, PixelFormat::Gray8).is_none());
}

#[test]
fn a_bitmap_has_a_positive_size_that_fits_a_c_int() {
    assert!(BitmapBgra::new(0, 7, 192, PixelFormat::Bgra32).is_none());
    assert!(BitmapBgra::new(33, 0, 192, PixelFormat::Bgra32).is_none());
    assert!(BitmapBgra::new(1, 1, 4, PixelFormat::Bgra32).is_some());
    assert!(BitmapBgra::new(1, 1, 0x7fff_ffff, PixelFormat::Bgra32).is_some());
    assert!(BitmapBgra::new(1, 1, 0x8000_0000, PixelFormat::Bgra32).is_none());
    assert!(BitmapBgra::new(0x8000_0000, 1, 0xffff_ffff, PixelFormat::Gray8).is_none());
    assert!(BitmapBgra::new(1, 0x8000_0000, 4, PixelFormat::Bgra32).is_none());
    assert!(BitmapBgra::new(0x2000_0000, 1, 0x7fff_ffff, PixelFormat::Bgra32).is_none());
    assert!(BitmapBgra::new(0x1fff_ffff, 1, 0x7fff_fffc, PixelFormat::Bgra32).is_some());
}

#[test]
fn a_decode_request_lends_the_whole_bitmap_and_no_more() {
    let bitmap = BitmapBgra::new(10, 3, 64, PixelFormat::Bgra32).unwrap();
    let options = DecoderOptions { use_scaling: 1, scaled_width: 10, scaled_height: 3 };
    assert_eq!(
        DecodeRequest::new(bitmap, options),
        DecodeRequest {
            bitmap,
            options,
            output: OutputBuffer {
                colorspace: ColorSpace::Bgra,
                is_external_memory: 1,
                stride: 64,
                size: 192,
            },
        }
    );
}

#[test]
fn a_status_has_the_name_that_libwebp_gives_it() {
    assert_eq!(StatusCode::Success.as_str(), "VP8_STATUS_OK");
    assert_eq!(StatusCode::OutOfMemory.as_str(), "VP8_STATUS_OUT_OF_MEMORY");
    assert_eq!(StatusCode::InvalidParam.as_str(), "VP8_STATUS_INVALID_PARAM");
    assert_eq!(StatusCode::BitstreamError.as_str(), "VP8_STATUS_BITSTREAM_ERROR");
    assert_eq!(StatusCode::UnsupportedFeature.as_str(), "VP8_STATUS_UNSUPPORTED_FEATURE");
    assert_eq!(StatusCode::Suspended.as_str(), "VP8_STATUS_SUSPENDED");
    assert_eq!(StatusCode::UserAbort.as_str(), "VP8_STATUS_USER_ABORT");
    assert_eq!(StatusCode::NotEnoughData.as_str(), "VP8_STATUS_NOT_ENOUGH_DATA");
}

#[test]
fn only_one_status_is_a_success() {
    assert!(StatusCode::Success.is_ok());
    for status in [
        StatusCode::OutOfMemory,
        StatusCode::InvalidParam,
        StatusCode::BitstreamError,
        StatusCode::UnsupportedFeature,
        StatusCode::Suspended,
        StatusCode::UserAbort,
        StatusCode::NotEnoughData,
    ] {
        assert!(!status.is_ok());
    }
}

#[test]
fn an_error_keeps_its_kind_and_its_message() {
    let e = FlowError::new(ErrorKind::InvalidArgument, "no such thing");
    assert_eq!(e.kind, ErrorKind::InvalidArgument);
    assert_eq!(e.message, "no such thing");
}

#[test]
fn a_stream_failure_is_told_apart_by_its_side() {
    let source = FlowError::from_decoder(IoError { message: "broken pipe".to_string() });
    assert_eq!(source.kind, ErrorKind::DecodingIoError);
    assert_eq!(source.message, "broken pipe");
    let destination = FlowError::from_encoder(IoError { message: "broken pipe".to_string() });
    assert_eq!(destination.kind, ErrorKind::EncodingIoError);
    assert_eq!(destination.message, "broken pipe");
}

#[test]
fn the_records_of_webp_name_its_type_and_extension() {
    let info = ImageInfo::webp(12, 34);
    assert_eq!(info.preferred_mime_type, "image/webp");
    assert_eq!(info.preferred_extension, "webp");
    assert_eq!((info.image_width, info.image_height), (12, 34));
    assert_eq!(info.frame_decodes_into, PixelFormat::Bgra32);
    let result = EncodeResult::webp(56, 78, 9);
    assert_eq!(result.preferred_mime_type, "image/webp");
    assert_eq!(result.preferred_extension, "webp");
    assert_eq!((result.w, result.h, result.io_id), (56, 78, 9));
    assert_eq!(result.bytes, ResultBytes::Elsewhere);
}
