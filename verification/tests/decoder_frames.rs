use webp_codec::bitmap::BitmapBgra;
use webp_codec::decoder::{DecoderEvent, FrameStep, InfoStep, WebPDecoder};
use webp_codec::errors::{ErrorKind, FlowError, IoError};
use webp_codec::libwebp::{
    BitstreamFeatures, ColorSpace, DecodeRequest, DecoderConfig, DecoderOptions, OutputBuffer,
    StatusCode,
};
use webp_codec::records::{
    DecoderCommand, ImageInfo, JpegIDCTDownscaleHints, PixelFormat, WebPDecoderHints,
};

const NO_SCALING: DecoderOptions = DecoderOptions { use_scaling: 0, scaled_width: 0, scaled_height: 0 };

fn features(width: i32, height: i32) -> BitstreamFeatures {
    BitstreamFeatures { width, height, has_alpha: 1, has_animation: 0, format: 1 }
}

fn known(width: i32, height: i32) -> WebPDecoder {
    let mut decoder = WebPDecoder::create(4).unwrap();
    let config = DecoderConfig { input: features(0, 0), options: NO_SCALING };
    assert_eq!(decoder.initialize_with(Some(config)), Ok(()));
    assert_eq!(decoder.read_frame(DecoderEvent::Start), FrameStep::ReadInput);
    assert_eq!(decoder.read_frame(DecoderEvent::InputRead(Ok(vec![1; 64]))), FrameStep::ProbeFeatures);
    decoder.get_image_info(DecoderEvent::FeaturesProbed {
        status: StatusCode::Success,
        features: features(width, height),
    });
    decoder
}

fn bitmap(w: u32, h: u32, stride: u32) -> BitmapBgra {
    BitmapBgra::new(w, h, stride, PixelFormat::Bgra32).unwrap()
}

fn hint(width: i32, height: i32) -> DecoderCommand {
    DecoderCommand::WebPDecoderHints(WebPDecoderHints { width, height })
}

fn allocation_failure() -> FlowError {
    FlowError {
        kind: ErrorKind::AllocationFailed,
        message: "Failed to allocate the bitmap to decode into".to_string(),
    }
}

#[test]
fn a_frame_without_a_hint_has_the_size_of_the_image() {
    let mut decoder = known(100, 50);
    assert_eq!(
        decoder.read_frame(DecoderEvent::Start),
        FrameStep::AllocateBitmap { width: 100, height: 50, format: PixelFormat::Bgra32 }
    );
    let allocated = bitmap(100, 50, 448);
    assert_eq!(
        decoder.read_frame(DecoderEvent::BitmapAllocated(Some(allocated))),
        FrameStep::Decode(DecodeRequest {
            bitmap: allocated,
            options: NO_SCALING,
            output: OutputBuffer {
                colorspace: ColorSpace::Bgra,
                is_external_memory: 1,
                stride: 448,
                size: 22400,
            },
        })
    );
    let decoded = decoder.read_frame(DecoderEvent::FrameDecoded(StatusCode::Success));
    assert_eq!(decoded, FrameStep::Finished(Ok(allocated)));
    assert_eq!(allocated.width(), 100);
    assert_eq!(allocated.height(), 50);
}

#[test]
fn a_frame_with_a_hint_has_the_size_of_the_hint() {
    let mut decoder = known(4000, 3000);
    assert_eq!(decoder.tell_decoder(hint(200, 150)), Ok(()));
    assert_eq!(decoder.input_width(), Some(4000));
    assert_eq!(decoder.input_height(), Some(3000));
    assert_eq!(decoder.output_width(), Some(200));
    assert_eq!(decoder.output_height(), Some(150));
    assert_eq!(
        decoder.read_frame(DecoderEvent::Start),
        FrameStep::AllocateBitmap { width: 200, height: 150, format: PixelFormat::Bgra32 }
    );
    let allocated = bitmap(200, 150, 832);
    assert_eq!(
        decoder.read_frame(DecoderEvent::BitmapAllocated(Some(allocated))),
        FrameStep::Decode(DecodeRequest {
            bitmap: allocated,
            options: DecoderOptions { use_scaling: 1, scaled_width: 200, scaled_height: 150 },
            output: OutputBuffer {
                colorspace: ColorSpace::Bgra,
                is_external_memory: 1,
                stride: 832,
                size: 124800,
            },
        })
    );
    assert_eq!(
        decoder.read_frame(DecoderEvent::FrameDecoded(StatusCode::Success)),
        FrameStep::Finished(Ok(allocated))
    );
}

#[test]
fn a_hint_may_come_before_the_features_are_read() {
    let mut decoder = WebPDecoder::create(4).unwrap();
    assert_eq!(decoder.initialize(), Ok(()));
    assert_eq!(decoder.tell_decoder(hint(32, 24)), Ok(()));
    assert_eq!(decoder.output_width(), None);
    decoder.read_frame(DecoderEvent::InputRead(Ok(vec![1; 8])));
    let probed = DecoderEvent::FeaturesProbed { status: StatusCode::Success, features: features(640, 480) };
    assert_eq!(
        decoder.read_frame(probed),
        FrameStep::AllocateBitmap { width: 32, height: 24, format: PixelFormat::Bgra32 }
    );
    assert_eq!(decoder.input_width(), Some(640));
    assert_eq!(decoder.output_width(), Some(32));
    assert_eq!(decoder.output_height(), Some(24));
}

#[test]
fn the_metadata_reports_the_size_of_the_image_with_or_without_a_hint() {
    let mut decoder = known(300, 200);
    let info = ImageInfo {
        preferred_mime_type: "image/webp".to_string(),
        preferred_extension: "webp".to_string(),
        image_width: 300,
        image_height: 200,
        frame_decodes_into: PixelFormat::Bgra32,
    };
    assert_eq!(decoder.get_image_info(DecoderEvent::Start), InfoStep::Finished(Ok(info.clone())));
    decoder.tell_decoder(hint(30, 20)).unwrap();
    assert_eq!(decoder.get_image_info(DecoderEvent::Start), InfoStep::Finished(Ok(info)));
}

#[test]
fn the_metadata_and_the_decoded_frame_agree_on_the_size() {
    let mut decoder = known(77, 33);
    let info = match decoder.get_image_info(DecoderEvent::Start) {
        InfoStep::Finished(Ok(info)) => info,
        other => panic!("no metadata: {:?}", other),
    };
    decoder.read_frame(DecoderEvent::Start);
    decoder.read_frame(DecoderEvent::BitmapAllocated(Some(bitmap(77, 33, 320))));
    match decoder.read_frame(DecoderEvent::FrameDecoded(StatusCode::Success)) {
        FrameStep::Finished(Ok(frame)) => {
            assert_eq!(frame.width() as i32, info.image_width);
            assert_eq!(frame.height() as i32, info.image_height);
        }
        other => panic!("no frame: {:?}", other),
    }
    assert_eq!(decoder.get_image_info(DecoderEvent::Start), InfoStep::Finished(Ok(info)));
}

#[test]
fn a_hint_that_comes_after_the_bitmap_is_asked_for_does_not_reach_the_frame() {
    let mut decoder = known(64, 48);
    assert_eq!(
        decoder.read_frame(DecoderEvent::Start),
        FrameStep::AllocateBitmap { width: 64, height: 48, format: PixelFormat::Bgra32 }
    );
    assert_eq!(decoder.tell_decoder(hint(8, 6)), Ok(()));
    assert_eq!(
        decoder.read_frame(DecoderEvent::Start),
        FrameStep::AllocateBitmap { width: 64, height: 48, format: PixelFormat::Bgra32 }
    );
    let allocated = bitmap(64, 48, 256);
    match decoder.read_frame(DecoderEvent::BitmapAllocated(Some(allocated))) {
        FrameStep::Decode(request) => {
            assert_eq!(request.options, NO_SCALING);
            assert_eq!(request.bitmap, allocated);
        }
        other => panic!("no decode: {:?}", other),
    }
    assert_eq!(
        decoder.read_frame(DecoderEvent::FrameDecoded(StatusCode::Success)),
        FrameStep::Finished(Ok(allocated))
    );
    assert_eq!(
        decoder.read_frame(DecoderEvent::Start),
        FrameStep::AllocateBitmap { width: 8, height: 6, format: PixelFormat::Bgra32 }
    );
}

#[test]
fn commands_for_other_decoders_are_ignored() {
    let mut decoder = known(64, 48);
    assert_eq!(decoder.tell_decoder(DecoderCommand::DiscardColorProfile), Ok(()));
    let jpeg = JpegIDCTDownscaleHints { width: 16, height: 12 };
    assert_eq!(decoder.tell_decoder(DecoderCommand::JpegDownscaleHints(jpeg)), Ok(()));
    assert_eq!(decoder.output_width(), Some(64));
    assert_eq!(decoder.output_height(), Some(48));
    assert_eq!(
        decoder.read_frame(DecoderEvent::Start),
        FrameStep::AllocateBitmap { width: 64, height: 48, format: PixelFormat::Bgra32 }
    );
}

#[test]
fn the_last_hint_counts() {
    let mut decoder = known(64, 48);
    decoder.tell_decoder(hint(10, 10)).unwrap();
    decoder.tell_decoder(hint(20, 15)).unwrap();
    assert_eq!(decoder.output_width(), Some(20));
    assert_eq!(decoder.output_height(), Some(15));
}

#[test]
fn an_allocator_that_returns_nothing_is_fatal() {
    let mut decoder = known(64, 48);
    decoder.read_frame(DecoderEvent::Start);
    assert_eq!(
        decoder.read_frame(DecoderEvent::BitmapAllocated(None)),
        FrameStep::Fatal(allocation_failure())
    );
}

#[test]
fn an_allocator_that_returns_another_bitmap_is_fatal() {
    for wrong in [
        bitmap(63, 48, 256),
        bitmap(64, 47, 256),
        BitmapBgra::new(64, 48, 256, PixelFormat::Bgr32).unwrap(),
        BitmapBgra::new(64, 48, 256, PixelFormat::Bgr24).unwrap(),
    ] {
        let mut decoder = known(64, 48);
        decoder.read_frame(DecoderEvent::Start);
        assert_eq!(
            decoder.read_frame(DecoderEvent::BitmapAllocated(Some(wrong))),
            FrameStep::Fatal(allocation_failure())
        );
    }
}

#[test]
fn a_hint_that_no_bitmap_can_have_ends_at_the_allocator() {
    let mut decoder = known(64, 48);
    decoder.tell_decoder(hint(0, -5)).unwrap();
    assert_eq!(
        decoder.read_frame(DecoderEvent::Start),
        FrameStep::AllocateBitmap { width: 0, height: -5, format: PixelFormat::Bgra32 }
    );
    assert_eq!(
        decoder.read_frame(DecoderEvent::BitmapAllocated(None)),
        FrameStep::Fatal(allocation_failure())
    );
}

#[test]
fn a_failed_decode_releases_the_bitmap_and_then_reports_the_status() {
    let mut decoder = known(16, 16);
    decoder.read_frame(DecoderEvent::Start);
    let allocated = bitmap(16, 16, 64);
    decoder.read_frame(DecoderEvent::BitmapAllocated(Some(allocated)));
    assert_eq!(
        decoder.read_frame(DecoderEvent::FrameDecoded(StatusCode::NotEnoughData)),
        FrameStep::ReleaseBitmap(allocated)
    );
    assert_eq!(
        decoder.read_frame(DecoderEvent::BitmapReleased),
        FrameStep::Finished(Err(FlowError {
            kind: ErrorKind::ImageDecodingError,
            message: "libwebp decoding error VP8_STATUS_NOT_ENOUGH_DATA".to_string(),
        }))
    );
    assert_eq!(
        decoder.read_frame(DecoderEvent::Start),
        FrameStep::AllocateBitmap { width: 16, height: 16, format: PixelFormat::Bgra32 }
    );
}

#[test]
fn a_failed_decode_names_the_status_of_libwebp() {
    let cases = [
        (StatusCode::OutOfMemory, "VP8_STATUS_OUT_OF_MEMORY"),
        (StatusCode::InvalidParam, "VP8_STATUS_INVALID_PARAM"),
        (StatusCode::BitstreamError, "VP8_STATUS_BITSTREAM_ERROR"),
        (StatusCode::UnsupportedFeature, "VP8_STATUS_UNSUPPORTED_FEATURE"),
        (StatusCode::Suspended, "VP8_STATUS_SUSPENDED"),
        (StatusCode::UserAbort, "VP8_STATUS_USER_ABORT"),
        (StatusCode::NotEnoughData, "VP8_STATUS_NOT_ENOUGH_DATA"),
    ];
    for (status, name) in cases {
        let mut decoder = known(2, 2);
        decoder.read_frame(DecoderEvent::Start);
        decoder.read_frame(DecoderEvent::BitmapAllocated(Some(bitmap(2, 2, 8))));
        decoder.read_frame(DecoderEvent::FrameDecoded(status));
        assert_eq!(
            decoder.read_frame(DecoderEvent::BitmapReleased),
            FrameStep::Finished(Err(FlowError {
                kind: ErrorKind::ImageDecodingError,
                message: format!("libwebp decoding error {}", name),
            }))
        );
    }
}

#[test]
fn an_event_that_answers_nothing_repeats_the_step() {
    let mut decoder = known(16, 16);
    let ask = FrameStep::AllocateBitmap { width: 16, height: 16, format: PixelFormat::Bgra32 };
    assert_eq!(decoder.read_frame(DecoderEvent::Start), ask);
    assert_eq!(decoder.read_frame(DecoderEvent::FrameDecoded(StatusCode::Success)), ask);
    assert_eq!(decoder.read_frame(DecoderEvent::BitmapReleased), ask);
    let allocated = bitmap(16, 16, 64);
    let decode = decoder.read_frame(DecoderEvent::BitmapAllocated(Some(allocated)));
    assert!(matches!(decode, FrameStep::Decode(_)));
    assert_eq!(decoder.read_frame(DecoderEvent::Start), decode);
    assert_eq!(decoder.read_frame(DecoderEvent::BitmapAllocated(None)), decode);
    assert_eq!(decoder.read_frame(DecoderEvent::BitmapReleased), decode);
    let release = decoder.read_frame(DecoderEvent::FrameDecoded(StatusCode::UserAbort));
    assert_eq!(release, FrameStep::ReleaseBitmap(allocated));
    assert_eq!(decoder.read_frame(DecoderEvent::Start), release);
    assert_eq!(decoder.read_frame(DecoderEvent::FrameDecoded(StatusCode::Success)), release);
}

#[test]
fn a_frame_of_a_failing_stream_is_the_stream_failure() {
    let mut decoder = WebPDecoder::create(4).unwrap();
    decoder.initialize().unwrap();
    assert_eq!(decoder.read_frame(DecoderEvent::Start), FrameStep::ReadInput);
    let failure = IoError { message: "timed out".to_string() };
    assert_eq!(
        decoder.read_frame(DecoderEvent::InputRead(Err(failure))),
        FrameStep::Finished(Err(FlowError {
            kind: ErrorKind::DecodingIoError,
            message: "timed out".to_string(),
        }))
    );
}

#[test]
fn a_frame_of_a_stream_that_is_not_webp_is_a_decoding_error() {
    let mut decoder = WebPDecoder::create(4).unwrap();
    decoder.initialize().unwrap();
    decoder.read_frame(DecoderEvent::InputRead(Ok(vec![0x89, 0x50, 0x4e, 0x47])));
    let probed = DecoderEvent::FeaturesProbed {
        status: StatusCode::BitstreamError,
        features: features(0, 0),
    };
    assert_eq!(
        decoder.read_frame(probed),
        FrameStep::Finished(Err(FlowError {
            kind: ErrorKind::ImageDecodingError,
            message: "libwebp features decoding error VP8_STATUS_BITSTREAM_ERROR".to_string(),
        }))
    );
    assert_eq!(decoder.output_width(), None);
}

#[test]
fn a_second_frame_reads_and_probes_nothing() {
    let mut decoder = known(16, 16);
    decoder.read_frame(DecoderEvent::Start);
    decoder.read_frame(DecoderEvent::BitmapAllocated(Some(bitmap(16, 16, 64))));
    decoder.read_frame(DecoderEvent::FrameDecoded(StatusCode::Success));
    assert_eq!(
        decoder.read_frame(DecoderEvent::Start),
        FrameStep::AllocateBitmap { width: 16, height: 16, format: PixelFormat::Bgra32 }
    );
    assert_eq!(decoder.bytes(), Some(&vec![1; 64]));
}

#[test]
fn any_scaling_flag_that_is_not_zero_scales() {
    let mut decoder = WebPDecoder::create(4).unwrap();
    let config = DecoderConfig {
        input: features(0, 0),
        options: DecoderOptions { use_scaling: 2, scaled_width: 40, scaled_height: 30 },
    };
    assert_eq!(decoder.initialize_with(Some(config)), Ok(()));
    decoder.read_frame(DecoderEvent::InputRead(Ok(vec![1; 8])));
    let probed = DecoderEvent::FeaturesProbed { status: StatusCode::Success, features: features(400, 300) };
    assert_eq!(
        decoder.read_frame(probed),
        FrameStep::AllocateBitmap { width: 40, height: 30, format: PixelFormat::Bgra32 }
    );
    assert_eq!(decoder.input_width(), Some(400));
    assert_eq!(decoder.output_width(), Some(40));
    assert_eq!(decoder.output_height(), Some(30));
}
