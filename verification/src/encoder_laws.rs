//! What holds of every frame that the encoder writes.
//!
//! The laws speak of a caller that follows the protocol: it answers each step with
//! the event that reports it. What the compressor and the stream do is arbitrary.

use vstd::prelude::*;
use crate::bitmap::BitmapBgra;
use crate::encoder::{
    encoding_error, preset_error, CompressRequest, EncodePhase, EncodeStepView, EncoderEventView,
    EncoderModel,
};
use crate::errors::FlowErrorView;
use crate::records::{EncodeResultView, EncoderPreset};

verus! {

/// What the compressor and the stream do while one frame is written.
pub struct EncodeOutcomes {
    /// The length of the compressor's output.
    pub len: usize,
    /// Whether the compressor handed over a buffer.
    pub buffer: bool,
    /// How the write goes, if it is asked for.
    pub written: Result<(), Seq<char>>,
}

/// The event by which a caller that follows the protocol answers a step; `None` for a
/// step that ends the operation.
pub open spec fn reply(step: EncodeStepView, outcomes: EncodeOutcomes) -> Option<EncoderEventView> {
    match step {
        EncodeStepView::Compress(_) => Some(
            EncoderEventView::Compressed { len: outcomes.len, buffer: outcomes.buffer },
        ),
        EncodeStepView::Write { .. } => Some(EncoderEventView::Written(outcomes.written)),
        EncodeStepView::Release => Some(EncoderEventView::Released),
        EncodeStepView::Fatal(_) => None,
        EncodeStepView::Finished(_) => None,
    }
}

/// The encoder afterwards and the steps that it issues, from `encoder` and `event` on,
/// to a caller that follows the protocol: up to the step that ends the operation, or
/// until `fuel` steps have been answered.
pub open spec fn steps_from(
    encoder: EncoderModel,
    preset: EncoderPreset,
    frame: BitmapBgra,
    event: EncoderEventView,
    outcomes: EncodeOutcomes,
    fuel: nat,
) -> (EncoderModel, Seq<EncodeStepView>)
    decreases fuel,
{
    let (next, step) = encoder.step(preset, frame, event);
    match reply(step, outcomes) {
        Some(answer) if fuel > 0 => {
            let (last, rest) = steps_from(next, preset, frame, answer, outcomes, (fuel - 1) as nat);
            (last, seq![step] + rest)
        },
        _ => (next, seq![step]),
    }
}

/// One whole `write_frame`: the encoder afterwards, and the steps that it issued. No
/// frame takes more than three answers.
pub open spec fn frame_run(
    encoder: EncoderModel,
    preset: EncoderPreset,
    frame: BitmapBgra,
    outcomes: EncodeOutcomes,
) -> (EncoderModel, Seq<EncodeStepView>) {
    steps_from(encoder, preset, frame, EncoderEventView::Start, outcomes, 3)
}

/// How many steps ask for the compressor's buffer to be released.
pub open spec fn releases(steps: Seq<EncodeStepView>) -> nat
    decreases steps.len(),
{
    if steps.len() == 0 {
        0
    } else {
        releases(steps.drop_last()) + if steps.last() is Release {
            1nat
        } else {
            0nat
        }
    }
}

/// The steps of one whole `write_frame`, case by case.
pub open spec fn expected_steps(
    io_id: i32,
    preset: EncoderPreset,
    frame: BitmapBgra,
    outcomes: EncodeOutcomes,
) -> Seq<EncodeStepView> {
    match CompressRequest::plan(preset, frame) {
        None => seq![EncodeStepView::Fatal(preset_error())],
        Some(request) => if !outcomes.buffer {
            seq![EncodeStepView::Compress(request), EncodeStepView::Finished(Err(encoding_error()))]
        } else if outcomes.len == 0 {
            seq![
                EncodeStepView::Compress(request),
                EncodeStepView::Release,
                EncodeStepView::Finished(Err(encoding_error())),
            ]
        } else {
            seq![
                EncodeStepView::Compress(request),
                EncodeStepView::Write { len: outcomes.len },
                EncodeStepView::Release,
                EncodeStepView::Finished(
                    match outcomes.written {
                        Ok(()) => Ok(EncodeResultView::webp(frame.w() as i32, frame.h() as i32, io_id)),
                        Err(e) => Err(FlowErrorView::from_encoder(e)),
                    },
                ),
            ]
        },
    }
}

/// A frame takes at most four steps, and they are those of `expected_steps`: the
/// compressor runs once; its output is written only if there is a buffer that is not
/// empty; the buffer is released after the write has come back, whether or not the
/// stream took it; and only then is the frame reported. Afterwards the encoder is as
/// it was before, ready for the next frame.
pub proof fn lemma_run_of_write_frame(
    encoder: EncoderModel,
    preset: EncoderPreset,
    frame: BitmapBgra,
    outcomes: EncodeOutcomes,
)
    requires
        encoder.phase is Idle,
    ensures
        frame_run(encoder, preset, frame, outcomes).0 == encoder,
        frame_run(encoder, preset, frame, outcomes).1 == expected_steps(
            encoder.io_id,
            preset,
            frame,
            outcomes,
        ),
        1 <= frame_run(encoder, preset, frame, outcomes).1.len() <= 4,
        frame_run(encoder, preset, frame, outcomes).1.last().is_final(),
{
    reveal_with_fuel(steps_from, 5);
    let steps = frame_run(encoder, preset, frame, outcomes).1;
    assert(steps =~= expected_steps(encoder.io_id, preset, frame, outcomes));
}

/// The run of a frame is whole: a caller that goes on answering gets no further step.
pub proof fn lemma_frame_run_is_whole(
    encoder: EncoderModel,
    preset: EncoderPreset,
    frame: BitmapBgra,
    outcomes: EncodeOutcomes,
    fuel: nat,
)
    requires
        encoder.phase is Idle,
        fuel >= 3,
    ensures
        steps_from(encoder, preset, frame, EncoderEventView::Start, outcomes, fuel) == frame_run(
            encoder,
            preset,
            frame,
            outcomes,
        ),
{
    reveal_with_fuel(steps_from, 5);
    let steps = steps_from(encoder, preset, frame, EncoderEventView::Start, outcomes, fuel).1;
    assert(steps =~= frame_run(encoder, preset, frame, outcomes).1);
}

/// A preset of another format fails at once and in the open: from an encoder with no
/// frame in hand, whatever the event, the step is `Fatal` with an error of kind
/// `InvalidArgument`, the encoder is unchanged, and no compressor is ever asked for.
pub proof fn lemma_foreign_preset_is_fatal(
    encoder: EncoderModel,
    preset: EncoderPreset,
    frame: BitmapBgra,
    event: EncoderEventView,
    outcomes: EncodeOutcomes,
)
    requires
        encoder.phase is Idle,
        !preset.is_webp(),
    ensures
        encoder.step(preset, frame, event) == (encoder, EncodeStepView::Fatal(preset_error())),
        frame_run(encoder, preset, frame, outcomes).1 == seq![EncodeStepView::Fatal(preset_error())],
{
    reveal_with_fuel(steps_from, 2);
}

/// Every frame whose compressor handed over a buffer has that buffer released exactly
/// once, and a frame without a buffer asks for no release. In particular a frame that
/// is reported as written has had exactly one release, after its one write.
pub proof fn lemma_one_release_for_each_buffer(
    encoder: EncoderModel,
    preset: EncoderPreset,
    frame: BitmapBgra,
    outcomes: EncodeOutcomes,
)
    requires
        encoder.phase is Idle,
    ensures
        ({
            let steps = frame_run(encoder, preset, frame, outcomes).1;
            &&& releases(steps) == if preset.is_webp() && outcomes.buffer {
                1nat
            } else {
                0nat
            }
            &&& steps.last().is_success() ==> {
                &&& steps.len() == 4
                &&& steps[1] is Write
                &&& steps[2] is Release
                &&& releases(steps) == 1
            }
        }),
{
    lemma_run_of_write_frame(encoder, preset, frame, outcomes);
    let steps = expected_steps(encoder.io_id, preset, frame, outcomes);
    reveal_with_fuel(releases, 5);
    if steps.len() == 4 {
        let s3 = steps.drop_last();
        let s2 = s3.drop_last();
        let s1 = s2.drop_last();
        assert(s1.drop_last().len() == 0);
    } else if steps.len() == 3 {
        let s2 = steps.drop_last();
        let s1 = s2.drop_last();
        assert(s1.drop_last().len() == 0);
    } else if steps.len() == 2 {
        let s1 = steps.drop_last();
        assert(s1.drop_last().len() == 0);
    } else {
        assert(steps.drop_last().len() == 0);
    }
}

/// An empty output is never written: if the compressor's output has length zero, no
/// step of the frame asks for a write, and the frame is reported as an encoding error.
pub proof fn lemma_empty_output_is_not_written(
    encoder: EncoderModel,
    preset: EncoderPreset,
    frame: BitmapBgra,
    outcomes: EncodeOutcomes,
)
    requires
        encoder.phase is Idle,
        preset.is_webp(),
        outcomes.len == 0,
    ensures
        ({
            let steps = frame_run(encoder, preset, frame, outcomes).1;
            &&& forall|i: int| 0 <= i < steps.len() ==> !(#[trigger] steps[i] is Write)
            &&& steps.last() == EncodeStepView::Finished(Err(encoding_error()))
        }),
{
    lemma_run_of_write_frame(encoder, preset, frame, outcomes);
}

/// A frame is reported as written exactly when the preset is one of WebP's, the
/// compressor handed over a buffer that is not empty, and the stream took all of it;
/// the report then carries the frame's size and the encoder's stream.
pub proof fn lemma_when_a_frame_is_written(
    encoder: EncoderModel,
    preset: EncoderPreset,
    frame: BitmapBgra,
    outcomes: EncodeOutcomes,
)
    requires
        encoder.phase is Idle,
        frame.wf(),
    ensures
        ({
            let steps = frame_run(encoder, preset, frame, outcomes).1;
            &&& steps.last().is_success() <==> preset.is_webp() && outcomes.buffer && outcomes.len > 0
                && outcomes.written is Ok
            &&& steps.last() matches EncodeStepView::Finished(Ok(report)) ==> {
                &&& report == EncodeResultView::webp(frame.w() as i32, frame.h() as i32, encoder.io_id)
                &&& report.w == frame.w()
                &&& report.h == frame.h()
            }
        }),
{
    lemma_run_of_write_frame(encoder, preset, frame, outcomes);
}

/// One call of `write_frame` and what the world does during it.
pub struct EncodeCall {
    pub preset: EncoderPreset,
    pub frame: BitmapBgra,
    pub outcomes: EncodeOutcomes,
}

/// The steps of whole `write_frame`s, one after the other on the same encoder.
pub open spec fn encode_calls(encoder: EncoderModel, calls: Seq<EncodeCall>) -> Seq<Seq<EncodeStepView>>
    decreases calls.len(),
{
    if calls.len() == 0 {
        seq![]
    } else {
        let first = calls.first();
        let (next, steps) = frame_run(encoder, first.preset, first.frame, first.outcomes);
        seq![steps] + encode_calls(next, calls.drop_first())
    }
}

/// However many frames an encoder writes, each of them releases its own buffer once:
/// the frames do not leak into each other, and none leaves a buffer behind.
pub proof fn lemma_every_frame_releases_its_own_buffer(encoder: EncoderModel, calls: Seq<EncodeCall>)
    requires
        encoder.phase is Idle,
    ensures
        encode_calls(encoder, calls).len() == calls.len(),
        forall|i: int|
            0 <= i < calls.len() ==> {
                &&& (#[trigger] encode_calls(encoder, calls)[i]) == expected_steps(
                    encoder.io_id,
                    calls[i].preset,
                    calls[i].frame,
                    calls[i].outcomes,
                )
                &&& releases(encode_calls(encoder, calls)[i]) == if calls[i].preset.is_webp()
                    && calls[i].outcomes.buffer {
                    1nat
                } else {
                    0nat
                }
            },
    decreases calls.len(),
{
    if calls.len() > 0 {
        let first = calls.first();
        let rest = calls.drop_first();
        lemma_run_of_write_frame(encoder, first.preset, first.frame, first.outcomes);
        lemma_one_release_for_each_buffer(encoder, first.preset, first.frame, first.outcomes);
        lemma_every_frame_releases_its_own_buffer(encoder, rest);
        let all = encode_calls(encoder, calls);
        assert forall|i: int| 0 <= i < calls.len() implies {
            &&& (#[trigger] all[i]) == expected_steps(
                encoder.io_id,
                calls[i].preset,
                calls[i].frame,
                calls[i].outcomes,
            )
            &&& releases(all[i]) == if calls[i].preset.is_webp() && calls[i].outcomes.buffer {
                1nat
            } else {
                0nat
            }
        } by {
            if i > 0 {
                assert(all[i] == encode_calls(encoder, rest)[i - 1]);
                assert(calls[i] == rest[i - 1]);
            }
        }
    }
}

/// The compressor is told to read inside the frame and nowhere else. Whenever a frame
/// starts, the request carries the width, the height and the stride of the frame as
/// they are, and the quality of the preset untouched.
pub proof fn lemma_compress_request_covers_the_frame(
    encoder: EncoderModel,
    preset: EncoderPreset,
    frame: BitmapBgra,
    event: EncoderEventView,
)
    requires
        encoder.phase is Idle,
        frame.wf(),
    ensures
        encoder.step(preset, frame, event).1 matches EncodeStepView::Compress(request) ==> {
            &&& request.covers(frame)
            &&& request is Lossy <==> preset is WebPLossy
            &&& request is Lossless <==> preset is WebPLossless
            &&& preset matches EncoderPreset::WebPLossy { quality_bits } ==> request
                == (CompressRequest::Lossy {
                quality_bits,
                width: request.width(),
                height: request.height(),
                stride: request.stride(),
            })
        },
        encoder.step(preset, frame, event).1 is Compress <==> preset.is_webp(),
{
}

/// No frame ends with a buffer in hand, in whatever order the events come. A step ends
/// the frame only before the compressor has run, or when the compressor has handed
/// over no buffer, or when the release of its buffer has been reported; until then
/// the encoder keeps asking for what is due.
pub proof fn lemma_no_frame_ends_with_a_buffer_in_hand(
    encoder: EncoderModel,
    preset: EncoderPreset,
    frame: BitmapBgra,
    event: EncoderEventView,
)
    ensures
        ({
            let (next, step) = encoder.step(preset, frame, event);
            &&& step.is_final() ==> next.phase is Idle
            &&& step.is_final() ==> {
                ||| encoder.phase is Idle && step is Fatal
                ||| encoder.phase is Compressing && (event matches EncoderEventView::Compressed {
                    buffer,
                    ..
                } && !buffer)
                ||| encoder.phase is Releasing && event is Released
            }
            &&& step is Write ==> next.phase is Writing
            &&& step is Release ==> next.phase is Releasing
            &&& encoder.phase is Writing ==> step is Write || step is Release
            &&& encoder.phase is Releasing ==> step is Release || step is Finished
            &&& step.is_success() ==> (encoder.phase matches EncodePhase::Releasing { failure, .. }
                && failure is None)
        }),
{
}

} // verus!
