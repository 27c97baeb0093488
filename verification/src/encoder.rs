//! The encoder adapter: one bitmap and a preset in, one WebP image out.
//!
//! The compressor hands back memory that it allocated itself. The adapter keeps
//! track of that memory: it asks for the write only when there is something to
//! write, and it asks for the release once the write has come back, whatever the
//! write's result, before it reports how the frame went.

use vstd::prelude::*;
use crate::bitmap::BitmapBgra;
use crate::errors::{ErrorKind, FlowError, FlowErrorView, IoError};
use crate::records::{EncodeResult, EncodeResultView, EncoderPreset};

verus! {

/// What the caller has done since the last step.
#[derive(Debug, PartialEq, Eq)]
pub enum EncoderEvent {
    /// Nothing yet: the caller asks what to do.
    Start,
    /// The compressor returned. `len` is the length of its output; `buffer` says
    /// whether it handed over a buffer (a pointer that is not null).
    Compressed { len: usize, buffer: bool },
    /// The whole output was written to the stream, or the stream failed.
    Written(Result<(), IoError>),
    /// The compressor's buffer was given back to libwebp.
    Released,
}

/// The mathematical content of an [`EncoderEvent`].
pub enum EncoderEventView {
    Start,
    Compressed { len: usize, buffer: bool },
    Written(Result<(), Seq<char>>),
    Released,
}

impl View for EncoderEvent {
    type V = EncoderEventView;

    open spec fn view(&self) -> EncoderEventView {
        match self {
            EncoderEvent::Start => EncoderEventView::Start,
            EncoderEvent::Compressed { len, buffer } => EncoderEventView::Compressed {
                len: *len,
                buffer: *buffer,
            },
            EncoderEvent::Written(Ok(())) => EncoderEventView::Written(Ok(())),
            EncoderEvent::Written(Err(e)) => EncoderEventView::Written(Err(e@)),
            EncoderEvent::Released => EncoderEventView::Released,
        }
    }
}

/// Which libwebp compressor to run, and on what. The pixels are those of the frame
/// that was passed to [`WebPEncoder::write_frame`]; they are not copied.
#[derive(Clone, Copy, Debug, PartialEq, Eq, Structural)]
pub enum CompressRequest {
    /// `WebPEncodeBGRA` with the quality whose bit pattern is `quality_bits`.
    Lossy { quality_bits: u32, width: i32, height: i32, stride: i32 },
    /// `WebPEncodeLosslessBGRA`.
    Lossless { width: i32, height: i32, stride: i32 },
}

impl CompressRequest {
    /// The request that a preset and a frame call for, if the preset is one of WebP's.
    pub open spec fn plan(preset: EncoderPreset, frame: BitmapBgra) -> Option<CompressRequest> {
        match preset {
            EncoderPreset::WebPLossy { quality_bits } => Some(
                CompressRequest::Lossy {
                    quality_bits,
                    width: frame.w() as i32,
                    height: frame.h() as i32,
                    stride: frame.row_stride() as i32,
                },
            ),
            EncoderPreset::WebPLossless => Some(
                CompressRequest::Lossless {
                    width: frame.w() as i32,
                    height: frame.h() as i32,
                    stride: frame.row_stride() as i32,
                },
            ),
            _ => None,
        }
    }

    /// The width of the frame to compress.
    pub open spec fn width(self) -> i32 {
        match self {
            CompressRequest::Lossy { width, .. } => width,
            CompressRequest::Lossless { width, .. } => width,
        }
    }

    /// The height of the frame to compress.
    pub open spec fn height(self) -> i32 {
        match self {
            CompressRequest::Lossy { height, .. } => height,
            CompressRequest::Lossless { height, .. } => height,
        }
    }

    /// The distance in bytes from one row of the frame to the next.
    pub open spec fn stride(self) -> i32 {
        match self {
            CompressRequest::Lossy { stride, .. } => stride,
            CompressRequest::Lossless { stride, .. } => stride,
        }
    }

    /// Whether the request describes `frame` as it is.
    pub open spec fn covers(self, frame: BitmapBgra) -> bool {
        self.width() == frame.w() && self.height() == frame.h() && self.stride() == frame.row_stride()
    }
}

/// What the caller has to do next.
#[derive(Debug, PartialEq, Eq)]
pub enum EncodeStep {
    /// Run the compressor over the frame, then report `Compressed`.
    Compress(CompressRequest),
    /// Write all `len` bytes of the compressor's buffer to the stream, then report `Written`.
    Write { len: usize },
    /// Give the compressor's buffer back to libwebp, then report `Released`.
    Release,
    /// The caller broke the encoder's contract. Nothing was started; do not go on.
    Fatal(FlowError),
    /// The frame is done: this is the result of the operation.
    Finished(Result<EncodeResult, FlowError>),
}

/// The mathematical content of an [`EncodeStep`].
pub enum EncodeStepView {
    Compress(CompressRequest),
    Write { len: usize },
    Release,
    Fatal(FlowErrorView),
    Finished(Result<EncodeResultView, FlowErrorView>),
}

impl EncodeStepView {
    /// Whether the step reports a frame that was written.
    pub open spec fn is_success(self) -> bool {
        self matches EncodeStepView::Finished(Ok(_))
    }

    /// Whether the step ends the operation.
    pub open spec fn is_final(self) -> bool {
        self is Finished || self is Fatal
    }
}

impl View for EncodeStep {
    type V = EncodeStepView;

    open spec fn view(&self) -> EncodeStepView {
        match self {
            EncodeStep::Compress(request) => EncodeStepView::Compress(*request),
            EncodeStep::Write { len } => EncodeStepView::Write { len: *len },
            EncodeStep::Release => EncodeStepView::Release,
            EncodeStep::Fatal(e) => EncodeStepView::Fatal(e@),
            EncodeStep::Finished(Ok(r)) => EncodeStepView::Finished(Ok(r@)),
            EncodeStep::Finished(Err(e)) => EncodeStepView::Finished(Err(e@)),
        }
    }
}

/// Why a frame failed although the compressor had handed over a buffer.
enum Failure {
    /// The compressor's output was empty.
    Empty,
    /// The stream refused the output.
    Stream(IoError),
}

/// How far the frame in hand has come.
enum Phase {
    /// No frame is in hand.
    Idle,
    /// The compressor has been asked to run.
    Compressing { request: CompressRequest },
    /// The compressor's output is being written.
    Writing { len: usize, width: i32, height: i32 },
    /// The compressor's buffer is being released.
    Releasing { width: i32, height: i32, failure: Option<Failure> },
}

/// How far the frame in hand has come, in the encoder's model.
pub enum EncodePhase {
    /// No frame is in hand.
    Idle,
    /// The compressor has been asked to run.
    Compressing { request: CompressRequest },
    /// The compressor's output is being written.
    Writing { len: usize, width: i32, height: i32 },
    /// The compressor's buffer is being released; `failure` is what will be reported.
    Releasing { width: i32, height: i32, failure: Option<FlowErrorView> },
}

/// The error of a compressor that produced nothing.
pub open spec fn encoding_error() -> FlowErrorView {
    FlowErrorView { kind: ErrorKind::ImageEncodingError, message: "libwebp encoding error"@ }
}

/// The error of a preset that belongs to another encoder.
pub open spec fn preset_error() -> FlowErrorView {
    FlowErrorView {
        kind: ErrorKind::InvalidArgument,
        message: "Incorrect encoder for encoder preset"@,
    }
}

/// The encoder as a state machine: the stream it is bound to and its phase.
pub struct EncoderModel {
    pub io_id: i32,
    pub phase: EncodePhase,
}

impl EncoderModel {
    /// The encoder that `create` returns.
    pub open spec fn fresh(io_id: i32) -> EncoderModel {
        EncoderModel { io_id, phase: EncodePhase::Idle }
    }

    /// A copy of the model in another phase.
    pub open spec fn at(self, phase: EncodePhase) -> EncoderModel {
        EncoderModel { io_id: self.io_id, phase }
    }

    /// One step of `write_frame`: the encoder afterwards, and what the caller is told.
    ///
    /// With no frame in hand every event starts one, from the preset and the frame
    /// given. With a frame in hand the preset and the frame are not looked at, and an
    /// event that does not answer the step before it changes nothing: the step is
    /// issued again.
    pub open spec fn step(self, preset: EncoderPreset, frame: BitmapBgra, event: EncoderEventView) -> (
        EncoderModel,
        EncodeStepView,
    ) {
        match self.phase {
            EncodePhase::Idle => match CompressRequest::plan(preset, frame) {
                Some(request) => (
                    self.at(EncodePhase::Compressing { request }),
                    EncodeStepView::Compress(request),
                ),
                None => (self, EncodeStepView::Fatal(preset_error())),
            },
            EncodePhase::Compressing { request } => match event {
                EncoderEventView::Compressed { len, buffer } => if buffer && len > 0 {
                    (
                        self.at(
                            EncodePhase::Writing {
                                len,
                                width: request.width(),
                                height: request.height(),
                            },
                        ),
                        EncodeStepView::Write { len },
                    )
                } else if buffer {
                    (
                        self.at(
                            EncodePhase::Releasing {
                                width: request.width(),
                                height: request.height(),
                                failure: Some(encoding_error()),
                            },
                        ),
                        EncodeStepView::Release,
                    )
                } else {
                    (self.at(EncodePhase::Idle), EncodeStepView::Finished(Err(encoding_error())))
                },
                _ => (self, EncodeStepView::Compress(request)),
            },
            EncodePhase::Writing { len, width, height } => match event {
                EncoderEventView::Written(Ok(())) => (
                    self.at(EncodePhase::Releasing { width, height, failure: None }),
                    EncodeStepView::Release,
                ),
                EncoderEventView::Written(Err(e)) => (
                    self.at(
                        EncodePhase::Releasing {
                            width,
                            height,
                            failure: Some(FlowErrorView::from_encoder(e)),
                        },
                    ),
                    EncodeStepView::Release,
                ),
                _ => (self, EncodeStepView::Write { len }),
            },
            EncodePhase::Releasing { width, height, failure } => match event {
                EncoderEventView::Released => (
                    self.at(EncodePhase::Idle),
                    EncodeStepView::Finished(
                        match failure {
                            None => Ok(EncodeResultView::webp(width, height, self.io_id)),
                            Some(e) => Err(e),
                        },
                    ),
                ),
                _ => (self, EncodeStepView::Release),
            },
        }
    }
}

/// Encodes the frames of one output stream as WebP.
pub struct WebPEncoder {
    io_id: i32,
    phase: Phase,
}

impl View for WebPEncoder {
    type V = EncoderModel;

    closed spec fn view(&self) -> EncoderModel {
        EncoderModel {
            io_id: self.io_id,
            phase: match self.phase {
                Phase::Idle => EncodePhase::Idle,
                Phase::Compressing { request } => EncodePhase::Compressing { request },
                Phase::Writing { len, width, height } => EncodePhase::Writing { len, width, height },
                Phase::Releasing { width, height, failure: None } => EncodePhase::Releasing {
                    width,
                    height,
                    failure: None,
                },
                Phase::Releasing { width, height, failure: Some(Failure::Empty) } => EncodePhase::Releasing {
                    width,
                    height,
                    failure: Some(encoding_error()),
                },
                Phase::Releasing {
                    width,
                    height,
                    failure: Some(Failure::Stream(e)),
                } => EncodePhase::Releasing {
                    width,
                    height,
                    failure: Some(FlowErrorView::from_encoder(e@)),
                },
            },
        }
    }
}

impl WebPEncoder {
    /// Binds an encoder to the output stream `io_id`. Nothing is written yet.
    pub fn create(io_id: i32) -> (r: Result<WebPEncoder, FlowError>)
        ensures
            r matches Ok(encoder) && encoder@ == EncoderModel::fresh(io_id),
    {
        Ok(WebPEncoder { io_id, phase: Phase::Idle })
    }

    /// The stream that the encoder is bound to.
    pub fn get_io(&self) -> (r: Result<i32, FlowError>)
        ensures
            r matches Ok(io_id) && io_id == self@.io_id,
    {
        Ok(self.io_id)
    }

    /// Which compressor a preset and a frame call for; `None` for a preset that is not
    /// one of WebP's.
    pub fn plan(preset: &EncoderPreset, frame: &BitmapBgra) -> (r: Option<CompressRequest>)
        ensures
            r == CompressRequest::plan(*preset, *frame),
            r is Some <==> preset.is_webp(),
            r matches Some(request) ==> request.covers(*frame),
            frame.wf(),
    {
        let width: i32 = frame.width() as i32;
        let height: i32 = frame.height() as i32;
        let stride: i32 = frame.stride() as i32;
        match preset {
            EncoderPreset::WebPLossy { quality_bits } => Some(
                CompressRequest::Lossy { quality_bits: *quality_bits, width, height, stride },
            ),
            EncoderPreset::WebPLossless => Some(CompressRequest::Lossless { width, height, stride }),
            _ => None,
        }
    }

    /// Advances the encoding of one frame by one step.
    ///
    /// Call it with `Start`, do what the step says, and call it again with the event
    /// that reports what was done, until the step is `Finished` or `Fatal`. The
    /// provenance of the frame (`decoder_io_ids`) is accepted and not used.
    pub fn write_frame(
        &mut self,
        preset: &EncoderPreset,
        frame: &BitmapBgra,
        decoder_io_ids: &[i32],
        event: EncoderEvent,
    ) -> (step: EncodeStep)
        ensures
            final(self)@ == old(self)@.step(*preset, *frame, event@).0,
            step@ == old(self)@.step(*preset, *frame, event@).1,
            frame.wf(),
    {
        let planned = Self::plan(preset, frame);
        let mut phase = Phase::Idle;
        core::mem::swap(&mut self.phase, &mut phase);
        match phase {
            Phase::Idle => match planned {
                Some(request) => {
                    self.phase = Phase::Compressing { request };
                    EncodeStep::Compress(request)
                },
                None => EncodeStep::Fatal(
                    FlowError::new(ErrorKind::InvalidArgument, "Incorrect encoder for encoder preset"),
                ),
            },
            Phase::Compressing { request } => match event {
                EncoderEvent::Compressed { len, buffer } => {
                    let (width, height) = match request {
                        CompressRequest::Lossy { width, height, .. } => (width, height),
                        CompressRequest::Lossless { width, height, .. } => (width, height),
                    };
                    if buffer && len > 0 {
                        self.phase = Phase::Writing { len, width, height };
                        EncodeStep::Write { len }
                    } else if buffer {
                        self.phase = Phase::Releasing { width, height, failure: Some(Failure::Empty) };
                        EncodeStep::Release
                    } else {
                        EncodeStep::Finished(
                            Err(FlowError::new(ErrorKind::ImageEncodingError, "libwebp encoding error")),
                        )
                    }
                },
                _ => {
                    self.phase = Phase::Compressing { request };
                    EncodeStep::Compress(request)
                },
            },
            Phase::Writing { len, width, height } => match event {
                EncoderEvent::Written(Ok(())) => {
                    self.phase = Phase::Releasing { width, height, failure: None };
                    EncodeStep::Release
                },
                EncoderEvent::Written(Err(e)) => {
                    self.phase = Phase::Releasing { width, height, failure: Some(Failure::Stream(e)) };
                    EncodeStep::Release
                },
                _ => {
                    self.phase = Phase::Writing { len, width, height };
                    EncodeStep::Write { len }
                },
            },
            Phase::Releasing { width, height, failure } => match event {
                EncoderEvent::Released => EncodeStep::Finished(
                    match failure {
                        None => Ok(EncodeResult::webp(width, height, self.io_id)),
                        Some(Failure::Empty) => Err(
                            FlowError::new(ErrorKind::ImageEncodingError, "libwebp encoding error"),
                        ),
                        Some(Failure::Stream(e)) => Err(FlowError::from_encoder(e)),
                    },
                ),
                _ => {
                    self.phase = Phase::Releasing { width, height, failure };
                    EncodeStep::Release
                },
            },
        }
    }
}

} // verus!
