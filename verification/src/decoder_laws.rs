//! What holds of every stream that the decoder handles.
//!
//! The laws speak of a caller that follows the protocol: it answers each step with
//! the event that reports it. What the stream, libwebp and the allocator do is
//! arbitrary.

use vstd::prelude::*;
use crate::bitmap::BitmapBgra;
use crate::decoder::{
    allocation_error, decode_error, probe_error, BufferStepView, DecoderEventView, DecoderModel,
    FramePhase, FrameStepView, InfoStepView,
};
use crate::errors::FlowErrorView;
use crate::libwebp::{
    BitstreamFeatures, ColorSpace, DecodeRequest, DecoderConfig, DecoderOptions, StatusCode,
};
use crate::records::{DecoderCommand, ImageInfoView, PixelFormat, WebPDecoderHints};

verus! {

/// What the stream, libwebp and the allocator do while the decoder works.
pub struct DecodeOutcomes {
    /// What reading the stream gives, if it is read.
    pub input: Result<Seq<u8>, Seq<char>>,
    /// The status of the feature probe, if it runs.
    pub probe_status: StatusCode,
    /// The features that the probe finds, if it runs.
    pub features: BitstreamFeatures,
    /// What the allocator returns, if a bitmap is asked for.
    pub allocated: Option<BitmapBgra>,
    /// The status of the decode, if it runs.
    pub decode_status: StatusCode,
}

/// The event by which a caller that follows the protocol answers a step of
/// `get_image_info`; `None` for the step that ends the operation.
pub open spec fn reply_to_info(step: InfoStepView, outcomes: DecodeOutcomes) -> Option<DecoderEventView> {
    match step {
        InfoStepView::ReadInput => Some(DecoderEventView::InputRead(outcomes.input)),
        InfoStepView::ProbeFeatures => Some(
            DecoderEventView::FeaturesProbed { status: outcomes.probe_status, features: outcomes.features },
        ),
        InfoStepView::Finished(_) => None,
    }
}

/// The event by which a caller that follows the protocol answers a step of
/// `read_frame`; `None` for a step that ends the operation.
pub open spec fn reply_to_frame(step: FrameStepView, outcomes: DecodeOutcomes) -> Option<DecoderEventView> {
    match step {
        FrameStepView::ReadInput => Some(DecoderEventView::InputRead(outcomes.input)),
        FrameStepView::ProbeFeatures => Some(
            DecoderEventView::FeaturesProbed { status: outcomes.probe_status, features: outcomes.features },
        ),
        FrameStepView::AllocateBitmap { .. } => Some(DecoderEventView::BitmapAllocated(outcomes.allocated)),
        FrameStepView::Decode(_) => Some(DecoderEventView::FrameDecoded(outcomes.decode_status)),
        FrameStepView::ReleaseBitmap(_) => Some(DecoderEventView::BitmapReleased),
        FrameStepView::Fatal(_) => None,
        FrameStepView::Finished(_) => None,
    }
}

/// The decoder afterwards and the steps that `get_image_info` issues, from `decoder`
/// and `event` on, to a caller that follows the protocol: up to the step that ends the
/// operation, or until `fuel` steps have been answered.
pub open spec fn info_steps_from(
    decoder: DecoderModel,
    event: DecoderEventView,
    outcomes: DecodeOutcomes,
    fuel: nat,
) -> (DecoderModel, Seq<InfoStepView>)
    decreases fuel,
{
    let (next, step) = decoder.info_step(event);
    match reply_to_info(step, outcomes) {
        Some(answer) if fuel > 0 => {
            let (last, rest) = info_steps_from(next, answer, outcomes, (fuel - 1) as nat);
            (last, seq![step] + rest)
        },
        _ => (next, seq![step]),
    }
}

/// The decoder afterwards and the steps that `read_frame` issues, from `decoder` and
/// `event` on, to a caller that follows the protocol: up to the step that ends the
/// operation, or until `fuel` steps have been answered.
pub open spec fn frame_steps_from(
    decoder: DecoderModel,
    event: DecoderEventView,
    outcomes: DecodeOutcomes,
    fuel: nat,
) -> (DecoderModel, Seq<FrameStepView>)
    decreases fuel,
{
    let (next, step) = decoder.frame_step(event);
    match reply_to_frame(step, outcomes) {
        Some(answer) if fuel > 0 => {
            let (last, rest) = frame_steps_from(next, answer, outcomes, (fuel - 1) as nat);
            (last, seq![step] + rest)
        },
        _ => (next, seq![step]),
    }
}

/// One whole `get_image_info`: the decoder afterwards, and the steps that it issued.
/// It never takes more than two answers.
pub open spec fn info_run(decoder: DecoderModel, outcomes: DecodeOutcomes) -> (
    DecoderModel,
    Seq<InfoStepView>,
) {
    info_steps_from(decoder, DecoderEventView::Start, outcomes, 2)
}

/// One whole `read_frame`: the decoder afterwards, and the steps that it issued. It
/// never takes more than five answers.
pub open spec fn frame_run(decoder: DecoderModel, outcomes: DecodeOutcomes) -> (
    DecoderModel,
    Seq<FrameStepView>,
) {
    frame_steps_from(decoder, DecoderEventView::Start, outcomes, 5)
}

/// Whether the bytes are there once the stream has been asked for them.
pub open spec fn input_ok(decoder: DecoderModel, outcomes: DecodeOutcomes) -> bool {
    decoder.bytes is Some || outcomes.input is Ok
}

/// Whether the features are there once libwebp has been asked for them.
pub open spec fn probe_ok(decoder: DecoderModel, outcomes: DecodeOutcomes) -> bool {
    decoder.features_read || outcomes.probe_status == StatusCode::Success
}

/// The features of the image: those that the decoder holds, else those that the probe finds.
pub open spec fn features_of(decoder: DecoderModel, outcomes: DecodeOutcomes) -> BitstreamFeatures {
    if decoder.features_read {
        decoder.config.unwrap().input
    } else {
        outcomes.features
    }
}

/// The configuration with which the frame is decoded: the image's features, and the
/// options that the decoder holds.
pub open spec fn config_of(decoder: DecoderModel, outcomes: DecodeOutcomes) -> DecoderConfig {
    DecoderConfig { input: features_of(decoder, outcomes), options: decoder.config.unwrap().options }
}

/// Whether the allocator returns the bitmap that the frame needs: one of the output
/// size, in 32-bit BGRA.
pub open spec fn bitmap_ok(decoder: DecoderModel, outcomes: DecodeOutcomes) -> bool {
    outcomes.allocated matches Some(bitmap) && bitmap.w() == config_of(decoder, outcomes).output_width()
        && bitmap.h() == config_of(decoder, outcomes).output_height() && bitmap.fmt()
        == PixelFormat::Bgra32
}

/// The decoder after one whole operation: it has the bytes if the stream gave them,
/// and the features if the probe then found them. Nothing else has changed.
pub open spec fn settled(decoder: DecoderModel, outcomes: DecodeOutcomes) -> DecoderModel {
    let bytes = if decoder.bytes is None && outcomes.input is Ok {
        Some(outcomes.input->Ok_0)
    } else {
        decoder.bytes
    };
    if input_ok(decoder, outcomes) && !decoder.features_read && outcomes.probe_status
        == StatusCode::Success {
        DecoderModel { bytes, config: Some(config_of(decoder, outcomes)), features_read: true, ..decoder }
    } else {
        DecoderModel { bytes, ..decoder }
    }
}

/// The steps of one whole `get_image_info`, case by case.
pub open spec fn expected_info(decoder: DecoderModel, outcomes: DecodeOutcomes) -> Seq<InfoStepView> {
    let read = if decoder.bytes is None {
        seq![InfoStepView::ReadInput]
    } else {
        seq![]
    };
    if !input_ok(decoder, outcomes) {
        read + seq![InfoStepView::Finished(Err(FlowErrorView::from_decoder(outcomes.input->Err_0)))]
    } else if decoder.features_read {
        read + seq![InfoStepView::Finished(Ok(decoder.image_info()))]
    } else if outcomes.probe_status == StatusCode::Success {
        read + seq![
            InfoStepView::ProbeFeatures,
            InfoStepView::Finished(Ok(ImageInfoView::webp(outcomes.features.width, outcomes.features.height))),
        ]
    } else {
        read + seq![
            InfoStepView::ProbeFeatures,
            InfoStepView::Finished(Err(probe_error(outcomes.probe_status))),
        ]
    }
}

/// The steps that answer the request for a bitmap of the given size: a decode into
/// the bitmap if the allocator returns one that fits, and the release of the bitmap
/// if the decode fails.
pub open spec fn expected_decode(
    width: i32,
    height: i32,
    options: DecoderOptions,
    outcomes: DecodeOutcomes,
) -> Seq<FrameStepView> {
    match outcomes.allocated {
        Some(bitmap) => if bitmap.w() == width && bitmap.h() == height && bitmap.fmt()
            == PixelFormat::Bgra32 {
            let decode = FrameStepView::Decode(DecodeRequest::into_bitmap(bitmap, options));
            if outcomes.decode_status == StatusCode::Success {
                seq![decode, FrameStepView::Finished(Ok(bitmap))]
            } else {
                seq![
                    decode,
                    FrameStepView::ReleaseBitmap(bitmap),
                    FrameStepView::Finished(Err(decode_error(outcomes.decode_status))),
                ]
            }
        } else {
            seq![FrameStepView::Fatal(allocation_error())]
        },
        None => seq![FrameStepView::Fatal(allocation_error())],
    }
}

/// The steps of one whole `read_frame`, case by case.
pub open spec fn expected_frame(decoder: DecoderModel, outcomes: DecodeOutcomes) -> Seq<FrameStepView> {
    let read = if decoder.bytes is None {
        seq![FrameStepView::ReadInput]
    } else {
        seq![]
    };
    let probe = if decoder.features_read {
        seq![]
    } else {
        seq![FrameStepView::ProbeFeatures]
    };
    let config = config_of(decoder, outcomes);
    let allocate = seq![
        FrameStepView::AllocateBitmap {
            width: config.output_width(),
            height: config.output_height(),
            format: PixelFormat::Bgra32,
        },
    ];
    if !input_ok(decoder, outcomes) {
        read + seq![FrameStepView::Finished(Err(FlowErrorView::from_decoder(outcomes.input->Err_0)))]
    } else if !probe_ok(decoder, outcomes) {
        read + probe + seq![FrameStepView::Finished(Err(probe_error(outcomes.probe_status)))]
    } else {
        read + probe + allocate + expected_decode(
            config.output_width(),
            config.output_height(),
            config.options,
            outcomes,
        )
    }
}

/// One whole `get_image_info` takes at most three steps, and they are those of
/// `expected_info`: the stream is read only if the bytes are missing, the probe runs
/// only if the features are missing, and the decoder keeps what either gave.
pub proof fn lemma_run_of_get_image_info(decoder: DecoderModel, outcomes: DecodeOutcomes)
    requires
        decoder.wf(),
        decoder.config is Some,
    ensures
        info_run(decoder, outcomes).0 == settled(decoder, outcomes),
        info_run(decoder, outcomes).1 == expected_info(decoder, outcomes),
        1 <= info_run(decoder, outcomes).1.len() <= 3,
        info_run(decoder, outcomes).1.last() is Finished,
        settled(decoder, outcomes).wf(),
        settled(decoder, outcomes).config is Some,
{
    reveal_with_fuel(info_steps_from, 4);
    let steps = info_run(decoder, outcomes).1;
    assert(steps =~= expected_info(decoder, outcomes));
}

/// One whole `read_frame` takes at most six steps, and they are those of
/// `expected_frame`: the metadata is obtained as `get_image_info` obtains it; a bitmap
/// of the output size is asked for; libwebp decodes into it with the options that the
/// decoder holds; and a bitmap whose decode failed is released before the failure is
/// reported. Afterwards no frame is in hand.
pub proof fn lemma_run_of_read_frame(decoder: DecoderModel, outcomes: DecodeOutcomes)
    requires
        decoder.wf(),
        decoder.config is Some,
        decoder.frame is Idle,
    ensures
        frame_run(decoder, outcomes).0 == settled(decoder, outcomes),
        frame_run(decoder, outcomes).1 == expected_frame(decoder, outcomes),
        1 <= frame_run(decoder, outcomes).1.len() <= 6,
        frame_run(decoder, outcomes).1.last().is_final(),
        settled(decoder, outcomes).wf(),
        settled(decoder, outcomes).config is Some,
        settled(decoder, outcomes).frame is Idle,
{
    lemma_frame_steps_are_as_expected(decoder, outcomes, 5);
    lemma_expected_frame_ends(decoder, outcomes);
}

#[verifier::rlimit(30)]
proof fn lemma_frame_steps_are_as_expected(decoder: DecoderModel, outcomes: DecodeOutcomes, fuel: nat)
    requires
        decoder.wf(),
        decoder.config is Some,
        decoder.frame is Idle,
        fuel >= 5,
    ensures
        frame_steps_from(decoder, DecoderEventView::Start, outcomes, fuel).0 == settled(decoder, outcomes),
        frame_steps_from(decoder, DecoderEventView::Start, outcomes, fuel).1 == expected_frame(
            decoder,
            outcomes,
        ),
{
    reveal_with_fuel(frame_steps_from, 4);
    let config = config_of(decoder, outcomes);
    let asked = DecoderModel {
        frame: FramePhase::Allocating {
            width: config.output_width(),
            height: config.output_height(),
            options: config.options,
        },
        ..settled(decoder, outcomes)
    };
    if input_ok(decoder, outcomes) && probe_ok(decoder, outcomes) {
        lemma_decode_steps_are_as_expected(asked, outcomes, (fuel - 1) as nat);
        lemma_decode_steps_are_as_expected(asked, outcomes, (fuel - 2) as nat);
        lemma_decode_steps_are_as_expected(asked, outcomes, (fuel - 3) as nat);
    }
    let steps = frame_steps_from(decoder, DecoderEventView::Start, outcomes, fuel).1;
    assert(steps =~= expected_frame(decoder, outcomes));
}

proof fn lemma_decode_steps_are_as_expected(decoder: DecoderModel, outcomes: DecodeOutcomes, fuel: nat)
    requires
        decoder.frame is Allocating,
        fuel >= 2,
    ensures
        ({
            let answer = DecoderEventView::BitmapAllocated(outcomes.allocated);
            let (last, steps) = frame_steps_from(decoder, answer, outcomes, fuel);
            &&& last == (DecoderModel { frame: FramePhase::Idle, ..decoder })
            &&& decoder.frame matches FramePhase::Allocating { width, height, options } && steps
                == expected_decode(width, height, options, outcomes)
        }),
{
    reveal_with_fuel(frame_steps_from, 4);
    let answer = DecoderEventView::BitmapAllocated(outcomes.allocated);
    let steps = frame_steps_from(decoder, answer, outcomes, fuel).1;
    if let FramePhase::Allocating { width, height, options } = decoder.frame {
        assert(steps =~= expected_decode(width, height, options, outcomes));
    }
}

proof fn lemma_expected_frame_ends(decoder: DecoderModel, outcomes: DecodeOutcomes)
    ensures
        1 <= expected_frame(decoder, outcomes).len() <= 6,
        expected_frame(decoder, outcomes).last().is_final(),
{
}

/// The runs are whole: a caller that goes on answering gets no further step.
pub proof fn lemma_runs_are_whole(decoder: DecoderModel, outcomes: DecodeOutcomes, fuel: nat)
    requires
        decoder.wf(),
        decoder.config is Some,
    ensures
        fuel >= 2 ==> info_steps_from(decoder, DecoderEventView::Start, outcomes, fuel) == info_run(
            decoder,
            outcomes,
        ),
        fuel >= 5 && decoder.frame is Idle ==> frame_steps_from(
            decoder,
            DecoderEventView::Start,
            outcomes,
            fuel,
        ) == frame_run(decoder, outcomes),
{
    if fuel >= 2 {
        reveal_with_fuel(info_steps_from, 4);
        let steps = info_steps_from(decoder, DecoderEventView::Start, outcomes, fuel).1;
        assert(steps =~= info_run(decoder, outcomes).1);
    }
    if fuel >= 5 && decoder.frame is Idle {
        lemma_frame_steps_are_as_expected(decoder, outcomes, fuel);
        lemma_frame_steps_are_as_expected(decoder, outcomes, 5);
    }
}

/// The stream is read once. With the bytes in place no step of any operation asks for
/// a read, whatever the event, and the bytes stay as they are.
pub proof fn lemma_stream_is_read_once(decoder: DecoderModel, event: DecoderEventView)
    requires
        decoder.wf(),
        decoder.bytes is Some,
    ensures
        decoder.buffer_step(event) == (decoder, BufferStepView::Finished(Ok(()))),
        !(decoder.info_step(event).1 is ReadInput),
        !(decoder.frame_step(event).1 is ReadInput),
        decoder.info_step(event).0.bytes == decoder.bytes,
        decoder.frame_step(event).0.bytes == decoder.bytes,
{
}

/// Once the metadata has been extracted, extracting it again is free and gives the
/// same record: whatever the event, the one step is `Finished` with the record of the
/// features that the decoder holds, the decoder is unchanged, and neither a read nor
/// a probe is asked for. Decoding a frame and taking commands leave that record alone.
pub proof fn lemma_metadata_is_cached(decoder: DecoderModel, event: DecoderEventView, tell: DecoderCommand)
    requires
        decoder.wf(),
        decoder.features_read,
    ensures
        decoder.info_step(event) == (decoder, InfoStepView::Finished(Ok(decoder.image_info()))),
        !(decoder.frame_step(event).1 is ProbeFeatures),
        decoder.frame_step(event).0.features_read,
        decoder.frame_step(event).0.image_info() == decoder.image_info(),
        decoder.told(tell).features_read,
        decoder.told(tell).image_info() == decoder.image_info(),
{
}

/// The features are probed once. One whole operation asks for at most one probe, and
/// for none if the features are read.
pub proof fn lemma_features_are_probed_once(decoder: DecoderModel, outcomes: DecodeOutcomes)
    requires
        decoder.wf(),
        decoder.config is Some,
        decoder.frame is Idle,
    ensures
        ({
            let info = info_run(decoder, outcomes).1;
            let frame = frame_run(decoder, outcomes).1;
            &&& forall|i: int, j: int|
                0 <= i < j < info.len() ==> !(#[trigger] info[i] is ProbeFeatures && #[trigger] info[j]
                    is ProbeFeatures)
            &&& forall|i: int, j: int|
                0 <= i < j < frame.len() ==> !(#[trigger] frame[i] is ProbeFeatures
                    && #[trigger] frame[j] is ProbeFeatures)
            &&& decoder.features_read ==> {
                &&& forall|k: int| 0 <= k < info.len() ==> !(#[trigger] info[k] is ProbeFeatures)
                &&& forall|k: int| 0 <= k < frame.len() ==> !(#[trigger] frame[k] is ProbeFeatures)
            }
        }),
{
    lemma_run_of_get_image_info(decoder, outcomes);
    lemma_run_of_read_frame(decoder, outcomes);
}

/// The steps of as many whole `get_image_info` as there are outcomes, one after the
/// other on the same decoder.
pub open spec fn info_calls(decoder: DecoderModel, outcomes: Seq<DecodeOutcomes>) -> Seq<Seq<InfoStepView>>
    decreases outcomes.len(),
{
    if outcomes.len() == 0 {
        seq![]
    } else {
        let (next, steps) = info_run(decoder, outcomes.first());
        seq![steps] + info_calls(next, outcomes.drop_first())
    }
}

/// Extracting the metadata is idempotent. Of any number of calls on one decoder, once
/// one has given a record, every later call gives the same record in a single step:
/// it reads nothing and probes nothing, so the probe that succeeded was the last.
pub proof fn lemma_metadata_is_idempotent(decoder: DecoderModel, outcomes: Seq<DecodeOutcomes>)
    requires
        decoder.wf(),
        decoder.config is Some,
    ensures
        info_calls(decoder, outcomes).len() == outcomes.len(),
        forall|i: int, j: int|
            0 <= i < j < outcomes.len() ==> (#[trigger] info_calls(decoder, outcomes)[i].last()
                matches InfoStepView::Finished(Ok(info)) ==> #[trigger] info_calls(decoder, outcomes)[j]
                == seq![InfoStepView::Finished(Ok(info))]),
{
    lemma_info_calls_len(decoder, outcomes);
    let calls = info_calls(decoder, outcomes);
    assert forall|i: int, j: int| 0 <= i < j < outcomes.len() implies (#[trigger] calls[i].last()
        matches InfoStepView::Finished(Ok(info)) ==> #[trigger] calls[j] == seq![
        InfoStepView::Finished(Ok(info)),
    ]) by {
        lemma_later_call_repeats(decoder, outcomes, i, j);
    }
}

proof fn lemma_later_call_repeats(decoder: DecoderModel, outcomes: Seq<DecodeOutcomes>, i: int, j: int)
    requires
        decoder.wf(),
        decoder.config is Some,
        0 <= i < j < outcomes.len(),
    ensures
        info_calls(decoder, outcomes).len() == outcomes.len(),
        info_calls(decoder, outcomes)[i].last() matches InfoStepView::Finished(Ok(info)) ==> info_calls(
            decoder,
            outcomes,
        )[j] == seq![InfoStepView::Finished(Ok(info))],
    decreases outcomes.len(),
{
    let first = outcomes.first();
    let rest = outcomes.drop_first();
    let (next, steps) = info_run(decoder, first);
    lemma_run_of_get_image_info(decoder, first);
    lemma_info_calls_len(next, rest);
    if i == 0 {
        if let InfoStepView::Finished(Ok(info)) = steps.last() {
            assert(next.features_read);
            assert(info == next.image_info());
            lemma_cached_call(next, rest, j - 1);
        }
    } else {
        lemma_later_call_repeats(next, rest, i - 1, j - 1);
    }
}

proof fn lemma_info_calls_len(decoder: DecoderModel, outcomes: Seq<DecodeOutcomes>)
    ensures
        info_calls(decoder, outcomes).len() == outcomes.len(),
    decreases outcomes.len(),
{
    if outcomes.len() > 0 {
        let (next, steps) = info_run(decoder, outcomes.first());
        lemma_info_calls_len(next, outcomes.drop_first());
    }
}

proof fn lemma_cached_call(decoder: DecoderModel, outcomes: Seq<DecodeOutcomes>, j: int)
    requires
        decoder.wf(),
        decoder.features_read,
        0 <= j < outcomes.len(),
    ensures
        info_calls(decoder, outcomes).len() == outcomes.len(),
        info_calls(decoder, outcomes)[j] == seq![InfoStepView::Finished(Ok(decoder.image_info()))],
    decreases outcomes.len(),
{
    reveal_with_fuel(info_steps_from, 2);
    let (next, steps) = info_run(decoder, outcomes.first());
    assert(next == decoder);
    assert(steps == seq![InfoStepView::Finished(Ok(decoder.image_info()))]);
    lemma_info_calls_len(next, outcomes.drop_first());
    if j > 0 {
        lemma_cached_call(next, outcomes.drop_first(), j - 1);
    }
}

/// A probe that fails leaves the decoder without dimensions: the operation ends with
/// a decoding error that names libwebp's status, and every dimension query still
/// answers that nothing is known.
pub proof fn lemma_failed_probe_leaves_no_dimensions(decoder: DecoderModel, outcomes: DecodeOutcomes)
    requires
        decoder.wf(),
        decoder.config is Some,
        !decoder.features_read,
        input_ok(decoder, outcomes),
        outcomes.probe_status != StatusCode::Success,
    ensures
        ({
            let (last, steps) = info_run(decoder, outcomes);
            &&& steps.last() == InfoStepView::Finished(Err(probe_error(outcomes.probe_status)))
            &&& last.input_width() is None
            &&& last.input_height() is None
            &&& last.output_width() is None
            &&& last.output_height() is None
        }),
{
    lemma_run_of_get_image_info(decoder, outcomes);
}

/// When the metadata is owed: `get_image_info` gives a record exactly when the bytes
/// and the features are there, and the record is that of the image's features. Every
/// failure of the stream or of the probe ends the operation as an error.
pub proof fn lemma_when_metadata_is_reported(decoder: DecoderModel, outcomes: DecodeOutcomes)
    requires
        decoder.wf(),
        decoder.config is Some,
    ensures
        ({
            let (last, steps) = info_run(decoder, outcomes);
            let features = features_of(decoder, outcomes);
            &&& steps.last().is_success() <==> input_ok(decoder, outcomes) && probe_ok(decoder, outcomes)
            &&& steps.last() matches InfoStepView::Finished(Ok(info)) ==> {
                &&& info == ImageInfoView::webp(features.width, features.height)
                &&& last.input_width() == Some(features.width)
                &&& last.input_height() == Some(features.height)
            }
            &&& !input_ok(decoder, outcomes) ==> steps.last() == InfoStepView::Finished(
                Err(FlowErrorView::from_decoder(outcomes.input->Err_0)),
            )
            &&& input_ok(decoder, outcomes) && !probe_ok(decoder, outcomes) ==> steps.last()
                == InfoStepView::Finished(Err(probe_error(outcomes.probe_status)))
        }),
{
    lemma_run_of_get_image_info(decoder, outcomes);
}

/// When a frame is owed: `read_frame` hands over a bitmap exactly when the bytes, the
/// features and a fitting bitmap are there and libwebp's decode succeeds. The bitmap
/// is the one that the allocator made, in 32-bit BGRA, of the output size.
pub proof fn lemma_when_a_frame_is_decoded(decoder: DecoderModel, outcomes: DecodeOutcomes)
    requires
        decoder.wf(),
        decoder.config is Some,
        decoder.frame is Idle,
    ensures
        ({
            let (last, steps) = frame_run(decoder, outcomes);
            &&& steps.last().is_success() <==> input_ok(decoder, outcomes) && probe_ok(decoder, outcomes)
                && bitmap_ok(decoder, outcomes) && outcomes.decode_status == StatusCode::Success
            &&& steps.last() matches FrameStepView::Finished(Ok(bitmap)) ==> {
                &&& outcomes.allocated == Some(bitmap)
                &&& bitmap.fmt() == PixelFormat::Bgra32
                &&& last.output_width() matches Some(width) && bitmap.w() == width
                &&& last.output_height() matches Some(height) && bitmap.h() == height
            }
        }),
{
    lemma_run_of_read_frame(decoder, outcomes);
}

/// Without a scaling hint the decoded bitmap has the size of the image.
pub proof fn lemma_unscaled_frame_has_natural_size(decoder: DecoderModel, outcomes: DecodeOutcomes)
    requires
        decoder.wf(),
        decoder.config is Some,
        decoder.frame is Idle,
        !decoder.config.unwrap().scales(),
    ensures
        ({
            let (last, steps) = frame_run(decoder, outcomes);
            steps.last() matches FrameStepView::Finished(Ok(bitmap)) ==> {
                &&& last.input_width() matches Some(width) && bitmap.w() == width
                &&& last.input_height() matches Some(height) && bitmap.h() == height
            }
        }),
{
    lemma_run_of_read_frame(decoder, outcomes);
}

/// The metadata and the decoded frame agree. Without a scaling hint, the width and
/// the height that `get_image_info` reports for a stream are those of the bitmap that
/// `read_frame` decodes from it, whether the metadata is asked for instead of the
/// frame, before it, or after it.
pub proof fn lemma_metadata_matches_the_decoded_frame(
    decoder: DecoderModel,
    outcomes: DecodeOutcomes,
    later: DecodeOutcomes,
)
    requires
        decoder.wf(),
        decoder.config is Some,
        decoder.frame is Idle,
        !decoder.config.unwrap().scales(),
    ensures
        ({
            let steps = frame_run(decoder, outcomes).1;
            let instead = info_run(decoder, outcomes);
            let before = frame_run(instead.0, later).1;
            let after = info_run(frame_run(decoder, outcomes).0, later).1;
            &&& steps.last() matches FrameStepView::Finished(Ok(bitmap)) ==> {
                &&& instead.1.last() matches InfoStepView::Finished(Ok(info)) && info.image_width
                    == bitmap.w() && info.image_height == bitmap.h()
                &&& after.last() matches InfoStepView::Finished(Ok(info)) && info.image_width == bitmap.w()
                    && info.image_height == bitmap.h()
            }
            &&& (instead.1.last() matches InfoStepView::Finished(Ok(info)) ==> (before.last()
                matches FrameStepView::Finished(Ok(bitmap)) ==> info.image_width == bitmap.w()
                && info.image_height == bitmap.h()))
        }),
{
    lemma_run_of_read_frame(decoder, outcomes);
    lemma_run_of_get_image_info(decoder, outcomes);
    let known = settled(decoder, outcomes);
    lemma_run_of_read_frame(known, later);
    lemma_run_of_get_image_info(known, later);
}

/// With a scaling hint of a width and a height the decoded bitmap has exactly that
/// size, whatever the size of the image: the bitmap is asked for at that size, and
/// libwebp is told to scale to it.
pub proof fn lemma_hinted_frame_has_hinted_size(
    decoder: DecoderModel,
    hints: WebPDecoderHints,
    outcomes: DecodeOutcomes,
)
    requires
        decoder.wf(),
        decoder.config is Some,
        decoder.frame is Idle,
    ensures
        ({
            let hinted = decoder.told(DecoderCommand::WebPDecoderHints(hints));
            let steps = frame_run(hinted, outcomes).1;
            &&& hinted.wf() && hinted.config is Some && hinted.frame is Idle
            &&& hinted.config.unwrap().options.use_scaling == 1
            &&& hinted.config.unwrap().options.scaled_width == hints.width
            &&& hinted.config.unwrap().options.scaled_height == hints.height
            &&& steps.last() matches FrameStepView::Finished(Ok(bitmap)) ==> {
                &&& bitmap.w() == hints.width
                &&& bitmap.h() == hints.height
                &&& steps.len() >= 2
                &&& steps[steps.len() - 2] == FrameStepView::Decode(
                    DecodeRequest::into_bitmap(bitmap, hinted.config.unwrap().options),
                )
            }
        }),
{
    let hinted = decoder.told(DecoderCommand::WebPDecoderHints(hints));
    lemma_run_of_read_frame(hinted, outcomes);
}

/// A bitmap never dangles. `read_frame` asks for the release of a bitmap exactly when
/// libwebp's decode into it failed, once, as the step before the failure is reported;
/// a bitmap that is handed over is never released.
pub proof fn lemma_failed_frame_releases_its_bitmap(decoder: DecoderModel, outcomes: DecodeOutcomes)
    requires
        decoder.wf(),
        decoder.config is Some,
        decoder.frame is Idle,
    ensures
        ({
            let steps = frame_run(decoder, outcomes).1;
            let decoded = input_ok(decoder, outcomes) && probe_ok(decoder, outcomes) && bitmap_ok(
                decoder,
                outcomes,
            );
            &&& decoded && outcomes.decode_status != StatusCode::Success ==> {
                &&& steps.len() >= 3
                &&& steps[steps.len() - 2] == FrameStepView::ReleaseBitmap(outcomes.allocated.unwrap())
                &&& steps.last() == FrameStepView::Finished(Err(decode_error(outcomes.decode_status)))
                &&& forall|k: int| 0 <= k < steps.len() - 2 ==> !(#[trigger] steps[k] is ReleaseBitmap)
            }
            &&& !(decoded && outcomes.decode_status != StatusCode::Success) ==> forall|k: int|
                0 <= k < steps.len() ==> !(#[trigger] steps[k] is ReleaseBitmap)
        }),
{
    lemma_run_of_read_frame(decoder, outcomes);
}

/// A command that comes while a frame is in hand does not reach that frame: its steps
/// are those that it would have taken without the command.
pub proof fn lemma_late_hint_changes_no_frame(
    decoder: DecoderModel,
    tell: DecoderCommand,
    event: DecoderEventView,
)
    requires
        decoder.wf(),
        decoder.config is Some,
        !(decoder.frame is Idle),
    ensures
        decoder.told(tell).frame_step(event).1 == decoder.frame_step(event).1,
        decoder.told(tell).frame_step(event).0.frame == decoder.frame_step(event).0.frame,
{
}

/// A command that is not a WebP hint changes nothing.
pub proof fn lemma_foreign_command_is_ignored(decoder: DecoderModel, tell: DecoderCommand)
    requires
        !(tell is WebPDecoderHints),
    ensures
        decoder.told(tell) == decoder,
{
}

/// Every step leaves the decoder well formed, whatever the event, and so does every
/// command.
pub proof fn lemma_steps_keep_the_decoder_well_formed(
    decoder: DecoderModel,
    event: DecoderEventView,
    tell: DecoderCommand,
    config: Option<DecoderConfig>,
)
    requires
        decoder.wf(),
        event matches DecoderEventView::BitmapAllocated(Some(bitmap)) ==> bitmap.wf(),
    ensures
        decoder.buffer_step(event).0.wf(),
        decoder.initialized(config).0.wf(),
        decoder.config is Some ==> decoder.info_step(event).0.wf() && decoder.info_step(event).0.config is Some,
        decoder.config is Some ==> decoder.frame_step(event).0.wf() && decoder.frame_step(event).0.config
            is Some,
        decoder.config is Some ==> decoder.told(tell).wf() && decoder.told(tell).config is Some,
{
}

/// libwebp is told to write inside the bitmap and nowhere else. Whenever a step asks
/// for a decode, the request names a well-formed bitmap in 32-bit BGRA, rows of BGRA
/// at the bitmap's own stride, and exactly one stride for each row as the length that
/// may be written.
pub proof fn lemma_decode_request_covers_the_bitmap(decoder: DecoderModel, event: DecoderEventView)
    requires
        decoder.wf(),
        decoder.config is Some,
        event matches DecoderEventView::BitmapAllocated(Some(bitmap)) ==> bitmap.wf(),
    ensures
        decoder.frame_step(event).1 matches FrameStepView::Decode(request) ==> {
            &&& request.bitmap.wf()
            &&& request.bitmap.fmt() == PixelFormat::Bgra32
            &&& request.output.colorspace == ColorSpace::Bgra
            &&& request.output.is_external_memory == 1
            &&& request.output.stride == request.bitmap.row_stride()
            &&& request.output.size == request.bitmap.row_stride() * request.bitmap.h()
            &&& request.bitmap.w() * 4 <= request.output.stride
            &&& decoder.frame_step(event).0.bytes is Some
        },
{
}

/// No frame ends with a bitmap in hand, in whatever order the events come. A step ends
/// the frame only before a bitmap has been accepted, or by handing the bitmap over
/// after a decode that succeeded, or when the release of the bitmap has been
/// reported; until then the decoder keeps asking for what is due.
pub proof fn lemma_no_frame_ends_with_a_bitmap_in_hand(decoder: DecoderModel, event: DecoderEventView)
    requires
        decoder.wf(),
        decoder.config is Some,
    ensures
        ({
            let (next, step) = decoder.frame_step(event);
            &&& step.is_final() ==> next.frame is Idle
            &&& step.is_final() ==> {
                ||| decoder.frame is Idle && (step matches FrameStepView::Finished(Err(_)))
                ||| decoder.frame is Allocating && step is Fatal
                ||| (decoder.frame matches FramePhase::Decoding { bitmap, .. } && event
                    == DecoderEventView::FrameDecoded(StatusCode::Success) && step
                    == FrameStepView::Finished(Ok(bitmap)))
                ||| decoder.frame is Releasing && event is BitmapReleased && (step
                    matches FrameStepView::Finished(Err(_)))
            }
            &&& decoder.frame matches FramePhase::Decoding { bitmap, .. } ==> (step is Decode || step
                == FrameStepView::ReleaseBitmap(bitmap) || step == FrameStepView::Finished(Ok(bitmap)))
            &&& decoder.frame matches FramePhase::Releasing { bitmap, .. } ==> (step
                == FrameStepView::ReleaseBitmap(bitmap) || step is Finished)
            &&& step is ReleaseBitmap ==> next.frame is Releasing
        }),
{
}

} // verus!
