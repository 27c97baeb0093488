use webp_codec::decoder::{BufferStep, DecoderEvent, FrameStep, InfoStep, WebPDecoder};
use webp_codec::errors::{ErrorKind, FlowError, IoError};
use webp_codec::libwebp::{BitstreamFeatures, DecoderConfig, DecoderOptions, StatusCode};
use webp_codec::records::{ImageInfo, PixelFormat};

fn features(width: i32, height: i32) -> BitstreamFeatures {
    BitstreamFeatures { width, height, has_alpha: 0, has_animation: 0, format: 0 }
}

fn probed(status: StatusCode, width: i32, height: i32) -> DecoderEvent {
    DecoderEvent::FeaturesProbed { status, features: features(width, height) }
}

fn plain_config() -> DecoderConfig {
    DecoderConfig {
        input: features(0, 0),
        options: DecoderOptions { use_scaling: 0, scaled_width: 0, scaled_height: 0 },
    }
}

fn ready() -> WebPDecoder {
    let mut decoder = WebPDecoder::create(1).unwrap();
    assert_eq!(decoder.initialize_with(Some(plain_config())), Ok(()));
    decoder
}

fn webp_info(width: i32, height: i32) -> ImageInfo {
    ImageInfo {
        preferred_mime_type: "image/webp".to_string(),
        preferred_extension: "webp".to_string(),
        image_width: width,
        image_height: height,
        frame_decodes_into: PixelFormat::Bgra32,
    }
}

#[test]
fn create_binds_the_stream_and_reads_nothing() {
    let decoder = WebPDecoder::create(3).unwrap();
    assert_eq!(decoder.io_id(), 3);
    assert!(!decoder.is_initialized());
    assert!(decoder.bytes().is_none());
    assert_eq!(decoder.input_width(), None);
    assert_eq!(decoder.input_height(), None);
    assert_eq!(decoder.output_width(), None);
    assert_eq!(decoder.output_height(), None);
}

#[test]
fn initialize_asks_libwebp_for_a_configuration_without_scaling() {
    let mut decoder = WebPDecoder::create(0).unwrap();
    assert_eq!(decoder.initialize(), Ok(()));
    assert!(decoder.is_initialized());
    assert_eq!(decoder.read_frame(DecoderEvent::Start), FrameStep::ReadInput);
    assert_eq!(
        decoder.read_frame(DecoderEvent::InputRead(Ok(vec![1, 2, 3]))),
        FrameStep::ProbeFeatures
    );
    assert_eq!(
        decoder.read_frame(probed(StatusCode::Success, 640, 480)),
        FrameStep::AllocateBitmap { width: 640, height: 480, format: PixelFormat::Bgra32 }
    );
    assert_eq!(decoder.output_width(), Some(640));
    assert_eq!(decoder.output_height(), Some(480));
}

#[test]
fn initialize_without_a_configuration_fails_and_changes_nothing() {
    let mut decoder = WebPDecoder::create(0).unwrap();
    assert_eq!(
        decoder.initialize_with(None),
        Err(FlowError {
            kind: ErrorKind::ImageDecodingError,
            message: "Failed to initialize WebPDecoderConfig".to_string(),
        })
    );
    assert!(!decoder.is_initialized());
}

#[test]
fn initialize_again_forgets_the_features_and_the_hint() {
    let mut decoder = ready();
    decoder.ensure_data_buffered(DecoderEvent::InputRead(Ok(vec![9])));
    assert_eq!(
        decoder.get_image_info(probed(StatusCode::Success, 8, 6)),
        InfoStep::Finished(Ok(webp_info(8, 6)))
    );
    assert_eq!(decoder.input_width(), Some(8));
    assert_eq!(decoder.initialize_with(Some(plain_config())), Ok(()));
    assert_eq!(decoder.input_width(), None);
    assert_eq!(decoder.output_height(), None);
    assert_eq!(decoder.bytes(), Some(&vec![9]));
    assert_eq!(decoder.get_image_info(DecoderEvent::Start), InfoStep::ProbeFeatures);
}

#[test]
fn the_stream_is_read_once() {
    let mut decoder = WebPDecoder::create(1).unwrap();
    assert_eq!(decoder.ensure_data_buffered(DecoderEvent::Start), BufferStep::ReadInput);
    assert_eq!(decoder.ensure_data_buffered(DecoderEvent::BitmapReleased), BufferStep::ReadInput);
    assert!(decoder.bytes().is_none());
    assert_eq!(
        decoder.ensure_data_buffered(DecoderEvent::InputRead(Ok(vec![82, 73, 70, 70]))),
        BufferStep::Finished(Ok(()))
    );
    assert_eq!(decoder.bytes(), Some(&vec![82, 73, 70, 70]));
    assert_eq!(decoder.ensure_data_buffered(DecoderEvent::Start), BufferStep::Finished(Ok(())));
    assert_eq!(
        decoder.ensure_data_buffered(DecoderEvent::InputRead(Ok(vec![0, 0]))),
        BufferStep::Finished(Ok(()))
    );
    assert_eq!(
        decoder.ensure_data_buffered(DecoderEvent::InputRead(Err(IoError { message: "late".to_string() }))),
        BufferStep::Finished(Ok(()))
    );
    assert_eq!(decoder.bytes(), Some(&vec![82, 73, 70, 70]));
}

#[test]
fn an_empty_stream_is_buffered_as_it_is() {
    let mut decoder = WebPDecoder::create(1).unwrap();
    assert_eq!(
        decoder.ensure_data_buffered(DecoderEvent::InputRead(Ok(Vec::new()))),
        BufferStep::Finished(Ok(()))
    );
    assert_eq!(decoder.bytes(), Some(&Vec::new()));
    assert_eq!(decoder.ensure_data_buffered(DecoderEvent::Start), BufferStep::Finished(Ok(())));
}

#[test]
fn a_failing_stream_is_a_decoding_io_error() {
    let mut decoder = WebPDecoder::create(1).unwrap();
    let failure = IoError { message: "connection reset".to_string() };
    assert_eq!(
        decoder.ensure_data_buffered(DecoderEvent::InputRead(Err(failure))),
        BufferStep::Finished(Err(FlowError {
            kind: ErrorKind::DecodingIoError,
            message: "connection reset".to_string(),
        }))
    );
    assert!(decoder.bytes().is_none());
    assert_eq!(decoder.ensure_data_buffered(DecoderEvent::Start), BufferStep::ReadInput);
}

#[test]
fn metadata_is_read_then_probed_then_reported() {
    let mut decoder = ready();
    assert_eq!(decoder.get_image_info(DecoderEvent::Start), InfoStep::ReadInput);
    assert_eq!(
        decoder.get_image_info(DecoderEvent::InputRead(Ok(vec![1, 2, 3, 4]))),
        InfoStep::ProbeFeatures
    );
    assert_eq!(decoder.input_width(), None);
    assert_eq!(
        decoder.get_image_info(probed(StatusCode::Success, 1000, 750)),
        InfoStep::Finished(Ok(webp_info(1000, 750)))
    );
    assert_eq!(decoder.input_width(), Some(1000));
    assert_eq!(decoder.input_height(), Some(750));
    assert_eq!(decoder.output_width(), Some(1000));
    assert_eq!(decoder.output_height(), Some(750));
}

#[test]
fn metadata_of_a_failing_stream_is_the_stream_failure() {
    let mut decoder = ready();
    let failure = IoError { message: "disk gone".to_string() };
    assert_eq!(
        decoder.get_image_info(DecoderEvent::InputRead(Err(failure))),
        InfoStep::Finished(Err(FlowError {
            kind: ErrorKind::DecodingIoError,
            message: "disk gone".to_string(),
        }))
    );
    assert_eq!(decoder.get_image_info(DecoderEvent::Start), InfoStep::ReadInput);
}

#[test]
fn features_that_come_before_the_bytes_are_not_taken() {
    let mut decoder = ready();
    assert_eq!(decoder.get_image_info(probed(StatusCode::Success, 5, 5)), InfoStep::ReadInput);
    assert_eq!(decoder.input_width(), None);
}

#[test]
fn metadata_is_extracted_once_and_then_repeated() {
    let mut decoder = ready();
    decoder.get_image_info(DecoderEvent::InputRead(Ok(vec![7; 32])));
    let first = decoder.get_image_info(probed(StatusCode::Success, 320, 200));
    assert_eq!(first, InfoStep::Finished(Ok(webp_info(320, 200))));
    for _ in 0..5 {
        assert_eq!(decoder.get_image_info(DecoderEvent::Start), first);
    }
    assert_eq!(decoder.get_image_info(probed(StatusCode::Success, 1, 1)), first);
    assert_eq!(decoder.get_image_info(probed(StatusCode::BitstreamError, 0, 0)), first);
    assert_eq!(decoder.get_image_info(DecoderEvent::InputRead(Ok(vec![1]))), first);
    assert_eq!(decoder.input_width(), Some(320));
    assert_eq!(decoder.input_height(), Some(200));
    assert_eq!(decoder.bytes(), Some(&vec![7; 32]));
}

#[test]
fn a_failed_probe_is_a_decoding_error_and_leaves_no_dimensions() {
    let mut decoder = ready();
    decoder.get_image_info(DecoderEvent::InputRead(Ok(vec![0; 12])));
    assert_eq!(
        decoder.get_image_info(probed(StatusCode::BitstreamError, 13, 17)),
        InfoStep::Finished(Err(FlowError {
            kind: ErrorKind::ImageDecodingError,
            message: "libwebp features decoding error VP8_STATUS_BITSTREAM_ERROR".to_string(),
        }))
    );
    assert_eq!(decoder.input_width(), None);
    assert_eq!(decoder.input_height(), None);
    assert_eq!(decoder.output_width(), None);
    assert_eq!(decoder.output_height(), None);
    assert_eq!(decoder.get_image_info(DecoderEvent::Start), InfoStep::ProbeFeatures);
}

#[test]
fn a_failed_probe_names_the_status_of_libwebp() {
    let cases = [
        (StatusCode::OutOfMemory, "VP8_STATUS_OUT_OF_MEMORY"),
        (StatusCode::InvalidParam, "VP8_STATUS_INVALID_PARAM"),
        (StatusCode::BitstreamError, "VP8_STATUS_BITSTREAM_ERROR"),
        (StatusCode::UnsupportedFeature, "VP8_STATUS_UNSUPPORTED_FEATURE"),
        (StatusCode::Suspended, "VP8_STATUS_SUSPENDED"),
        (StatusCode::UserAbort, "VP8_STATUS_USER_ABORT"),
        (StatusCode::NotEnoughData, "VP8_STATUS_NOT_ENOUGH_DATA"),
    ];
    for (status, name) in cases {
        let mut decoder = ready();
        decoder.get_image_info(DecoderEvent::InputRead(Ok(vec![0; 12])));
        assert_eq!(
            decoder.get_image_info(probed(status, 1, 1)),
            InfoStep::Finished(Err(FlowError {
                kind: ErrorKind::ImageDecodingError,
                message: format!("libwebp features decoding error {}", name),
            }))
        );
    }
}

#[test]
fn orientation_is_never_reported() {
    let mut decoder = ready();
    assert_eq!(decoder.get_exif_rotation_flag(), Ok(None));
    decoder.get_image_info(DecoderEvent::InputRead(Ok(vec![0; 12])));
    let rotated = BitstreamFeatures { width: 4, height: 3, has_alpha: 1, has_animation: 0, format: 2 };
    decoder.get_image_info(DecoderEvent::FeaturesProbed { status: StatusCode::Success, features: rotated });
    assert_eq!(decoder.get_exif_rotation_flag(), Ok(None));
    assert_eq!(decoder.input_width(), Some(4));
}

#[test]
fn an_animation_has_no_more_frames() {
    let mut decoder = ready();
    assert_eq!(decoder.has_more_frames(), Ok(false));
    decoder.get_image_info(DecoderEvent::InputRead(Ok(vec![0; 12])));
    let animated = BitstreamFeatures { width: 400, height: 400, has_alpha: 0, has_animation: 1, format: 0 };
    decoder.get_image_info(DecoderEvent::FeaturesProbed { status: StatusCode::Success, features: animated });
    assert_eq!(decoder.has_more_frames(), Ok(false));
    assert_eq!(decoder.input_height(), Some(400));
}
