//! The decoder adapter: one compressed stream in, its metadata and one bitmap out.
//!
//! The adapter buffers the stream once, has its features probed once, and then has
//! the frame decoded straight into a bitmap of the pipeline. What it has learned it
//! keeps: a later call finds the bytes and the features in place and asks for neither
//! again.

use vstd::prelude::*;
use vstd::string::*;
use crate::bitmap::BitmapBgra;
use crate::errors::{ErrorKind, FlowError, FlowErrorView, IoError};
use crate::libwebp::{
    fresh_decoder_config, BitstreamFeatures, DecodeRequest, DecoderConfig, DecoderOptions,
    StatusCode,
};
use crate::records::{DecoderCommand, ImageInfo, ImageInfoView, PixelFormat};

verus! {

/// What the caller has done since the last step.
#[derive(Debug, PartialEq, Eq)]
pub enum DecoderEvent {
    /// Nothing yet: the caller asks what to do.
    Start,
    /// The stream was read to its end, or it failed.
    InputRead(Result<Vec<u8>, IoError>),
    /// libwebp probed the buffered bytes: its status, and the features that it found.
    FeaturesProbed { status: StatusCode, features: BitstreamFeatures },
    /// The pipeline's allocator returned: the bitmap that it made, or nothing.
    BitmapAllocated(Option<BitmapBgra>),
    /// libwebp decoded the buffered bytes into the bitmap: its status.
    FrameDecoded(StatusCode),
    /// The bitmap was given back to the allocator.
    BitmapReleased,
}

/// The mathematical content of a [`DecoderEvent`].
pub enum DecoderEventView {
    Start,
    InputRead(Result<Seq<u8>, Seq<char>>),
    FeaturesProbed { status: StatusCode, features: BitstreamFeatures },
    BitmapAllocated(Option<BitmapBgra>),
    FrameDecoded(StatusCode),
    BitmapReleased,
}

impl View for DecoderEvent {
    type V = DecoderEventView;

    open spec fn view(&self) -> DecoderEventView {
        match self {
            DecoderEvent::Start => DecoderEventView::Start,
            DecoderEvent::InputRead(Ok(bytes)) => DecoderEventView::InputRead(Ok(bytes@)),
            DecoderEvent::InputRead(Err(e)) => DecoderEventView::InputRead(Err(e@)),
            DecoderEvent::FeaturesProbed { status, features } => DecoderEventView::FeaturesProbed {
                status: *status,
                features: *features,
            },
            DecoderEvent::BitmapAllocated(bitmap) => DecoderEventView::BitmapAllocated(*bitmap),
            DecoderEvent::FrameDecoded(status) => DecoderEventView::FrameDecoded(*status),
            DecoderEvent::BitmapReleased => DecoderEventView::BitmapReleased,
        }
    }
}

/// A step of [`WebPDecoder::ensure_data_buffered`].
#[derive(Debug, PartialEq, Eq)]
pub enum BufferStep {
    /// Read the stream to its end, then report `InputRead`.
    ReadInput,
    /// The operation is done: the bytes are buffered, or the stream failed.
    Finished(Result<(), FlowError>),
}

/// The mathematical content of a [`BufferStep`].
pub enum BufferStepView {
    ReadInput,
    Finished(Result<(), FlowErrorView>),
}

impl View for BufferStep {
    type V = BufferStepView;

    open spec fn view(&self) -> BufferStepView {
        match self {
            BufferStep::ReadInput => BufferStepView::ReadInput,
            BufferStep::Finished(Ok(())) => BufferStepView::Finished(Ok(())),
            BufferStep::Finished(Err(e)) => BufferStepView::Finished(Err(e@)),
        }
    }
}

/// A step of [`WebPDecoder::get_image_info`].
#[derive(Debug, PartialEq, Eq)]
pub enum InfoStep {
    /// Read the stream to its end, then report `InputRead`.
    ReadInput,
    /// Run libwebp's feature probe over the buffered bytes, then report `FeaturesProbed`.
    ProbeFeatures,
    /// The operation is done: this is the metadata, or why there is none.
    Finished(Result<ImageInfo, FlowError>),
}

/// The mathematical content of an [`InfoStep`].
pub enum InfoStepView {
    ReadInput,
    ProbeFeatures,
    Finished(Result<ImageInfoView, FlowErrorView>),
}

impl InfoStepView {
    /// Whether the step gives the metadata to the caller.
    pub open spec fn is_success(self) -> bool {
        self matches InfoStepView::Finished(Ok(_))
    }
}

impl View for InfoStep {
    type V = InfoStepView;

    open spec fn view(&self) -> InfoStepView {
        match self {
            InfoStep::ReadInput => InfoStepView::ReadInput,
            InfoStep::ProbeFeatures => InfoStepView::ProbeFeatures,
            InfoStep::Finished(Ok(info)) => InfoStepView::Finished(Ok(info@)),
            InfoStep::Finished(Err(e)) => InfoStepView::Finished(Err(e@)),
        }
    }
}

/// A step of [`WebPDecoder::read_frame`].
#[derive(Debug, PartialEq, Eq)]
pub enum FrameStep {
    /// Read the stream to its end, then report `InputRead`.
    ReadInput,
    /// Run libwebp's feature probe over the buffered bytes, then report `FeaturesProbed`.
    ProbeFeatures,
    /// Have the pipeline allocate a bitmap of this size and layout, then report
    /// `BitmapAllocated`.
    AllocateBitmap { width: i32, height: i32, format: PixelFormat },
    /// Run libwebp's decoder over the buffered bytes as the request says, then report
    /// `FrameDecoded`.
    Decode(DecodeRequest),
    /// Give the bitmap back to the allocator, then report `BitmapReleased`.
    ReleaseBitmap(BitmapBgra),
    /// The pipeline cannot go on. Do not call the decoder again for this frame.
    Fatal(FlowError),
    /// The operation is done: the bitmap is the caller's now, or there is none.
    Finished(Result<BitmapBgra, FlowError>),
}

/// The mathematical content of a [`FrameStep`].
pub enum FrameStepView {
    ReadInput,
    ProbeFeatures,
    AllocateBitmap { width: i32, height: i32, format: PixelFormat },
    Decode(DecodeRequest),
    ReleaseBitmap(BitmapBgra),
    Fatal(FlowErrorView),
    Finished(Result<BitmapBgra, FlowErrorView>),
}

impl FrameStepView {
    /// Whether the step hands a decoded bitmap to the caller.
    pub open spec fn is_success(self) -> bool {
        self matches FrameStepView::Finished(Ok(_))
    }

    /// Whether the step ends the operation.
    pub open spec fn is_final(self) -> bool {
        self is Finished || self is Fatal
    }
}

impl View for FrameStep {
    type V = FrameStepView;

    open spec fn view(&self) -> FrameStepView {
        match self {
            FrameStep::ReadInput => FrameStepView::ReadInput,
            FrameStep::ProbeFeatures => FrameStepView::ProbeFeatures,
            FrameStep::AllocateBitmap { width, height, format } => FrameStepView::AllocateBitmap {
                width: *width,
                height: *height,
                format: *format,
            },
            FrameStep::Decode(request) => FrameStepView::Decode(*request),
            FrameStep::ReleaseBitmap(bitmap) => FrameStepView::ReleaseBitmap(*bitmap),
            FrameStep::Fatal(e) => FrameStepView::Fatal(e@),
            FrameStep::Finished(Ok(bitmap)) => FrameStepView::Finished(Ok(*bitmap)),
            FrameStep::Finished(Err(e)) => FrameStepView::Finished(Err(e@)),
        }
    }
}

/// How far the frame in hand has come.
#[derive(Clone, Copy, Debug, PartialEq, Eq)]
pub enum FramePhase {
    /// No frame is in hand.
    Idle,
    /// A bitmap of this size has been asked for. The options are those that were in
    /// force when it was asked for: the frame is decoded with them.
    Allocating { width: i32, height: i32, options: DecoderOptions },
    /// libwebp is decoding into the bitmap.
    Decoding { bitmap: BitmapBgra, options: DecoderOptions },
    /// The decode failed with this status, and the bitmap is being given back.
    Releasing { bitmap: BitmapBgra, status: StatusCode },
}

/// The error of a libwebp that cannot set up a decoder configuration.
pub open spec fn init_error() -> FlowErrorView {
    FlowErrorView {
        kind: ErrorKind::ImageDecodingError,
        message: "Failed to initialize WebPDecoderConfig"@,
    }
}

/// The error of a feature probe that ended with `status`.
pub open spec fn probe_error(status: StatusCode) -> FlowErrorView {
    FlowErrorView {
        kind: ErrorKind::ImageDecodingError,
        message: "libwebp features decoding error "@ + status.name(),
    }
}

/// The error of a decode that ended with `status`.
pub open spec fn decode_error(status: StatusCode) -> FlowErrorView {
    FlowErrorView {
        kind: ErrorKind::ImageDecodingError,
        message: "libwebp decoding error "@ + status.name(),
    }
}

/// The error of an allocator that returned no bitmap, or not the bitmap asked for.
pub open spec fn allocation_error() -> FlowErrorView {
    FlowErrorView {
        kind: ErrorKind::AllocationFailed,
        message: "Failed to allocate the bitmap to decode into"@,
    }
}

/// The decoder as a state machine.
pub struct DecoderModel {
    /// The stream that the decoder is bound to.
    pub io_id: i32,
    /// The compressed bytes, once the stream has been read.
    pub bytes: Option<Seq<u8>>,
    /// The decoder configuration, once `initialize` has set it up.
    pub config: Option<DecoderConfig>,
    /// Whether `config.input` holds what a probe of `bytes` found.
    pub features_read: bool,
    /// How far the frame in hand has come.
    pub frame: FramePhase,
}

impl DecoderModel {
    /// The decoder that `create` returns: nothing read, nothing set up.
    pub open spec fn fresh(io_id: i32) -> DecoderModel {
        DecoderModel { io_id, bytes: None, config: None, features_read: false, frame: FramePhase::Idle }
    }

    /// What holds of every decoder: features are only read from buffered bytes into a
    /// configuration; a frame is only in hand once the bytes are buffered; and a bitmap
    /// that is decoded into is well formed and holds 32-bit BGRA.
    pub open spec fn wf(self) -> bool {
        &&& self.features_read ==> self.config is Some && self.bytes is Some
        &&& !(self.frame is Idle) ==> self.bytes is Some
        &&& match self.frame {
            FramePhase::Idle => true,
            FramePhase::Allocating { .. } => true,
            FramePhase::Decoding { bitmap, .. } => bitmap.wf() && bitmap.fmt() == PixelFormat::Bgra32,
            FramePhase::Releasing { bitmap, .. } => bitmap.wf(),
        }
    }

    /// The width that the probe found; `None` before a probe has succeeded.
    pub open spec fn input_width(self) -> Option<i32> {
        if self.features_read {
            Some(self.config.unwrap().input.width)
        } else {
            None
        }
    }

    /// The height that the probe found; `None` before a probe has succeeded.
    pub open spec fn input_height(self) -> Option<i32> {
        if self.features_read {
            Some(self.config.unwrap().input.height)
        } else {
            None
        }
    }

    /// The width of the frame that a decode would produce now: the scaling target if
    /// there is one, else the width that the probe found.
    pub open spec fn output_width(self) -> Option<i32> {
        if self.features_read {
            Some(self.config.unwrap().output_width())
        } else {
            None
        }
    }

    /// The height of the frame that a decode would produce now.
    pub open spec fn output_height(self) -> Option<i32> {
        if self.features_read {
            Some(self.config.unwrap().output_height())
        } else {
            None
        }
    }

    /// The metadata of the image, once its features are read.
    pub open spec fn image_info(self) -> ImageInfoView
        recommends
            self.features_read,
    {
        ImageInfoView::webp(self.config.unwrap().input.width, self.config.unwrap().input.height)
    }

    /// The decoder after `initialize`, given what libwebp returned: with a fresh
    /// configuration the features are unread again; without one nothing changes.
    pub open spec fn initialized(self, config: Option<DecoderConfig>) -> (
        DecoderModel,
        Result<(), FlowErrorView>,
    ) {
        match config {
            Some(c) => (DecoderModel { config: Some(c), features_read: false, ..self }, Ok(())),
            None => (self, Err(init_error())),
        }
    }

    /// The decoder after a command: a WebP hint turns scaling on and sets its target;
    /// any other command changes nothing.
    pub open spec fn told(self, tell: DecoderCommand) -> DecoderModel
        recommends
            self.config is Some,
    {
        match tell {
            DecoderCommand::WebPDecoderHints(hints) => DecoderModel {
                config: Some(
                    DecoderConfig {
                        input: self.config.unwrap().input,
                        options: DecoderOptions {
                            use_scaling: 1,
                            scaled_width: hints.width,
                            scaled_height: hints.height,
                        },
                    },
                ),
                ..self
            },
            _ => self,
        }
    }

    /// One step of `ensure_data_buffered`. Bytes that are buffered stay as they are;
    /// without them, only the outcome of a read is news.
    pub open spec fn buffer_step(self, event: DecoderEventView) -> (DecoderModel, BufferStepView) {
        if self.bytes is Some {
            (self, BufferStepView::Finished(Ok(())))
        } else {
            match event {
                DecoderEventView::InputRead(Ok(bytes)) => (
                    DecoderModel { bytes: Some(bytes), ..self },
                    BufferStepView::Finished(Ok(())),
                ),
                DecoderEventView::InputRead(Err(e)) => (
                    self,
                    BufferStepView::Finished(Err(FlowErrorView::from_decoder(e))),
                ),
                _ => (self, BufferStepView::ReadInput),
            }
        }
    }

    /// One step of `get_image_info`: buffer the bytes, then have them probed unless
    /// their features are known, then report.
    pub open spec fn info_step(self, event: DecoderEventView) -> (DecoderModel, InfoStepView)
        recommends
            self.config is Some,
    {
        let (buffered, step) = self.buffer_step(event);
        match step {
            BufferStepView::ReadInput => (buffered, InfoStepView::ReadInput),
            BufferStepView::Finished(Err(e)) => (buffered, InfoStepView::Finished(Err(e))),
            BufferStepView::Finished(Ok(())) => if buffered.features_read {
                (buffered, InfoStepView::Finished(Ok(buffered.image_info())))
            } else {
                match event {
                    DecoderEventView::FeaturesProbed { status, features } => if status == StatusCode::Success {
                        let probed = DecoderModel {
                            config: Some(
                                DecoderConfig { input: features, options: buffered.config.unwrap().options },
                            ),
                            features_read: true,
                            ..buffered
                        };
                        (probed, InfoStepView::Finished(Ok(probed.image_info())))
                    } else {
                        (buffered, InfoStepView::Finished(Err(probe_error(status))))
                    },
                    _ => (buffered, InfoStepView::ProbeFeatures),
                }
            },
        }
    }

    /// One step of `read_frame`.
    ///
    /// With no frame in hand the step is that of `get_image_info`, until the metadata
    /// is there; then a bitmap of the output size is asked for. A bitmap of that size
    /// in 32-bit BGRA is decoded into; anything else from the allocator is fatal. A
    /// decode that succeeds hands the bitmap over; one that fails has the bitmap
    /// released first and is reported afterwards. An event that does not answer the
    /// step before it changes nothing: the step is issued again.
    pub open spec fn frame_step(self, event: DecoderEventView) -> (DecoderModel, FrameStepView)
        recommends
            self.config is Some,
    {
        match self.frame {
            FramePhase::Idle => {
                let (known, step) = self.info_step(event);
                match step {
                    InfoStepView::ReadInput => (known, FrameStepView::ReadInput),
                    InfoStepView::ProbeFeatures => (known, FrameStepView::ProbeFeatures),
                    InfoStepView::Finished(Err(e)) => (known, FrameStepView::Finished(Err(e))),
                    InfoStepView::Finished(Ok(_)) => {
                        let config = known.config.unwrap();
                        (
                            DecoderModel {
                                frame: FramePhase::Allocating {
                                    width: config.output_width(),
                                    height: config.output_height(),
                                    options: config.options,
                                },
                                ..known
                            },
                            FrameStepView::AllocateBitmap {
                                width: config.output_width(),
                                height: config.output_height(),
                                format: PixelFormat::Bgra32,
                            },
                        )
                    },
                }
            },
            FramePhase::Allocating { width, height, options } => match event {
                DecoderEventView::BitmapAllocated(Some(bitmap)) => if bitmap.w() == width && bitmap.h()
                    == height && bitmap.fmt() == PixelFormat::Bgra32 {
                    (
                        DecoderModel { frame: FramePhase::Decoding { bitmap, options }, ..self },
                        FrameStepView::Decode(DecodeRequest::into_bitmap(bitmap, options)),
                    )
                } else {
                    (
                        DecoderModel { frame: FramePhase::Idle, ..self },
                        FrameStepView::Fatal(allocation_error()),
                    )
                },
                DecoderEventView::BitmapAllocated(None) => (
                    DecoderModel { frame: FramePhase::Idle, ..self },
                    FrameStepView::Fatal(allocation_error()),
                ),
                _ => (self, FrameStepView::AllocateBitmap { width, height, format: PixelFormat::Bgra32 }),
            },
            FramePhase::Decoding { bitmap, options } => match event {
                DecoderEventView::FrameDecoded(status) => if status == StatusCode::Success {
                    (DecoderModel { frame: FramePhase::Idle, ..self }, FrameStepView::Finished(Ok(bitmap)))
                } else {
                    (
                        DecoderModel { frame: FramePhase::Releasing { bitmap, status }, ..self },
                        FrameStepView::ReleaseBitmap(bitmap),
                    )
                },
                _ => (self, FrameStepView::Decode(DecodeRequest::into_bitmap(bitmap, options))),
            },
            FramePhase::Releasing { bitmap, status } => match event {
                DecoderEventView::BitmapReleased => (
                    DecoderModel { frame: FramePhase::Idle, ..self },
                    FrameStepView::Finished(Err(decode_error(status))),
                ),
                _ => (self, FrameStepView::ReleaseBitmap(bitmap)),
            },
        }
    }
}

/// Decodes the one frame of one WebP stream.
pub struct WebPDecoder {
    io_id: i32,
    bytes: Option<Vec<u8>>,
    config: Option<DecoderConfig>,
    features_read: bool,
    frame: FramePhase,
}

impl View for WebPDecoder {
    type V = DecoderModel;

    closed spec fn view(&self) -> DecoderModel {
        DecoderModel {
            io_id: self.io_id,
            bytes: match self.bytes {
                Some(bytes) => Some(bytes@),
                None => None,
            },
            config: self.config,
            features_read: self.features_read,
            frame: self.frame,
        }
    }
}

impl WebPDecoder {
    #[verifier::type_invariant]
    spec fn inv(self) -> bool {
        self@.wf()
    }

    /// Binds a decoder to the input stream `io_id`. Nothing is read yet.
    pub fn create(io_id: i32) -> (r: Result<WebPDecoder, FlowError>)
        ensures
            r matches Ok(decoder) && decoder@ == DecoderModel::fresh(io_id),
    {
        Ok(
            WebPDecoder {
                io_id,
                bytes: None,
                config: None,
                features_read: false,
                frame: FramePhase::Idle,
            },
        )
    }

    /// Sets up the decoder configuration, given what libwebp returned for it.
    pub fn initialize_with(&mut self, config: Option<DecoderConfig>) -> (r: Result<(), FlowError>)
        ensures
            final(self)@ == old(self)@.initialized(config).0,
            r is Ok <==> config is Some,
            r matches Err(e) ==> e@ == init_error(),
            final(self)@.wf(),
    {
        proof {
            use_type_invariant(&*self);
        }
        match config {
            Some(c) => {
                self.features_read = false;
                self.config = Some(c);
                Ok(())
            },
            None => Err(
                FlowError::new(ErrorKind::ImageDecodingError, "Failed to initialize WebPDecoderConfig"),
            ),
        }
    }

    /// Sets up the decoder configuration: asks libwebp for an empty one and keeps it.
    /// Call it before anything else. It fails only if libwebp refuses; the decoder is
    /// then as it was.
    pub fn initialize(&mut self) -> (r: Result<(), FlowError>)
        ensures
            r is Ok ==> final(self)@ == old(self)@.initialized(Some(DecoderConfig::empty())).0,
            r matches Err(e) ==> e@ == init_error() && final(self)@ == old(self)@,
            final(self)@.wf(),
    {
        let config = fresh_decoder_config();
        self.initialize_with(config)
    }

    /// Whether `initialize` has set up the configuration.
    pub fn is_initialized(&self) -> (b: bool)
        ensures
            b == (self@.config is Some),
            self@.wf(),
    {
        proof {
            use_type_invariant(self);
        }
        self.config.is_some()
    }

    /// The stream that the decoder is bound to.
    pub fn io_id(&self) -> (id: i32)
        ensures
            id == self@.io_id,
    {
        self.io_id
    }

    /// The compressed bytes, once they are buffered: what libwebp is to be run over.
    pub fn bytes(&self) -> (r: Option<&Vec<u8>>)
        ensures
            match r {
                Some(bytes) => self@.bytes == Some(bytes@),
                None => self@.bytes is None,
            },
    {
        self.bytes.as_ref()
    }

    /// Advances the buffering of the stream by one step.
    ///
    /// Once the bytes are there every call finishes at once and leaves them alone: the
    /// stream is read one time.
    pub fn ensure_data_buffered(&mut self, event: DecoderEvent) -> (step: BufferStep)
        ensures
            final(self)@ == old(self)@.buffer_step(event@).0,
            step@ == old(self)@.buffer_step(event@).1,
            final(self)@.wf(),
    {
        proof {
            use_type_invariant(&*self);
        }
        if self.bytes.is_some() {
            return BufferStep::Finished(Ok(()));
        }
        match event {
            DecoderEvent::InputRead(Ok(bytes)) => {
                self.bytes = Some(bytes);
                BufferStep::Finished(Ok(()))
            },
            DecoderEvent::InputRead(Err(e)) => BufferStep::Finished(Err(FlowError::from_decoder(e))),
            _ => BufferStep::ReadInput,
        }
    }

    /// The width that the probe found; `None` before a probe has succeeded.
    pub fn input_width(&self) -> (r: Option<i32>)
        ensures
            r == self@.input_width(),
    {
        proof {
            use_type_invariant(self);
        }
        match self.config {
            Some(config) if self.features_read => Some(config.input.width),
            _ => None,
        }
    }

    /// The height that the probe found; `None` before a probe has succeeded.
    pub fn input_height(&self) -> (r: Option<i32>)
        ensures
            r == self@.input_height(),
    {
        proof {
            use_type_invariant(self);
        }
        match self.config {
            Some(config) if self.features_read => Some(config.input.height),
            _ => None,
        }
    }

    /// The width of the frame that a decode would produce now: the scaling target if a
    /// hint has set one, else the width that the probe found; `None` before a probe has
    /// succeeded.
    pub fn output_width(&self) -> (r: Option<i32>)
        ensures
            r == self@.output_width(),
    {
        proof {
            use_type_invariant(self);
        }
        match self.config {
            Some(config) if self.features_read && config.options.use_scaling != 0 => Some(
                config.options.scaled_width,
            ),
            _ => self.input_width(),
        }
    }

    /// The height of the frame that a decode would produce now; `None` before a probe
    /// has succeeded.
    pub fn output_height(&self) -> (r: Option<i32>)
        ensures
            r == self@.output_height(),
    {
        proof {
            use_type_invariant(self);
        }
        match self.config {
            Some(config) if self.features_read && config.options.use_scaling != 0 => Some(
                config.options.scaled_height,
            ),
            _ => self.input_height(),
        }
    }

    /// Advances the extraction of the metadata by one step.
    ///
    /// Once the features are read every call finishes at once with the same record
    /// and changes nothing: the probe runs one time.
    pub fn get_image_info(&mut self, event: DecoderEvent) -> (step: InfoStep)
        requires
            old(self)@.config is Some,
        ensures
            final(self)@ == old(self)@.info_step(event@).0,
            step@ == old(self)@.info_step(event@).1,
            final(self)@.config is Some,
            final(self)@.wf(),
    {
        proof {
            use_type_invariant(&*self);
        }
        if self.bytes.is_none() {
            return match self.ensure_data_buffered(event) {
                BufferStep::ReadInput => InfoStep::ReadInput,
                BufferStep::Finished(Err(e)) => InfoStep::Finished(Err(e)),
                BufferStep::Finished(Ok(())) => InfoStep::ProbeFeatures,
            };
        }
        let config = self.config.unwrap();
        if self.features_read {
            return InfoStep::Finished(Ok(ImageInfo::webp(config.input.width, config.input.height)));
        }
        match event {
            DecoderEvent::FeaturesProbed { status, features } => {
                if status.is_ok() {
                    self.config = Some(DecoderConfig { input: features, options: config.options });
                    self.features_read = true;
                    InfoStep::Finished(Ok(ImageInfo::webp(features.width, features.height)))
                } else {
                    let mut message = "libwebp features decoding error ".to_owned();
                    message.append(status.as_str());
                    InfoStep::Finished(Err(FlowError { kind: ErrorKind::ImageDecodingError, message }))
                }
            },
            _ => InfoStep::ProbeFeatures,
        }
    }

    /// The rotation that the image's metadata asks for: never any. Viewers ignore the
    /// EXIF orientation of WebP images, and so does the decoder, whatever the stream holds.
    pub fn get_exif_rotation_flag(&mut self) -> (r: Result<Option<i32>, FlowError>)
        ensures
            r == Ok::<Option<i32>, FlowError>(None),
            final(self)@ == old(self)@,
    {
        Ok(None)
    }

    /// Takes a command from the pipeline. A WebP hint sets the size to which the next
    /// frame is scaled; a frame that is already in hand keeps the size it was asked
    /// for. Every other command is ignored.
    pub fn tell_decoder(&mut self, tell: DecoderCommand) -> (r: Result<(), FlowError>)
        requires
            old(self)@.config is Some,
        ensures
            r is Ok,
            final(self)@ == old(self)@.told(tell),
            final(self)@.wf(),
    {
        proof {
            use_type_invariant(&*self);
        }
        if let DecoderCommand::WebPDecoderHints(hints) = tell {
            let config = self.config.unwrap();
            self.config = Some(
                DecoderConfig {
                    input: config.input,
                    options: DecoderOptions {
                        use_scaling: 1,
                        scaled_width: hints.width,
                        scaled_height: hints.height,
                    },
                },
            );
        }
        Ok(())
    }

    /// Advances the decoding of the frame by one step.
    ///
    /// Call it with `Start`, do what the step says, and call it again with the event
    /// that reports what was done, until the step is `Finished` or `Fatal`.
    pub fn read_frame(&mut self, event: DecoderEvent) -> (step: FrameStep)
        requires
            old(self)@.config is Some,
        ensures
            final(self)@ == old(self)@.frame_step(event@).0,
            step@ == old(self)@.frame_step(event@).1,
            final(self)@.config is Some,
            final(self)@.wf(),
    {
        proof {
            use_type_invariant(&*self);
        }
        match self.frame {
            FramePhase::Idle => match self.get_image_info(event) {
                InfoStep::ReadInput => FrameStep::ReadInput,
                InfoStep::ProbeFeatures => FrameStep::ProbeFeatures,
                InfoStep::Finished(Err(e)) => FrameStep::Finished(Err(e)),
                InfoStep::Finished(Ok(_)) => {
                    let config = self.config.unwrap();
                    let scales = config.options.use_scaling != 0;
                    let width: i32 = if scales {
                        config.options.scaled_width
                    } else {
                        config.input.width
                    };
                    let height: i32 = if scales {
                        config.options.scaled_height
                    } else {
                        config.input.height
                    };
                    self.frame = FramePhase::Allocating { width, height, options: config.options };
                    FrameStep::AllocateBitmap { width, height, format: PixelFormat::Bgra32 }
                },
            },
            FramePhase::Allocating { width, height, options } => match event {
                DecoderEvent::BitmapAllocated(Some(bitmap)) => {
                    let fits = bitmap.width() as i64 == width as i64 && bitmap.height() as i64
                        == height as i64;
                    let layout = match bitmap.format() {
                        PixelFormat::Bgra32 => true,
                        _ => false,
                    };
                    if fits && layout {
                        self.frame = FramePhase::Decoding { bitmap, options };
                        FrameStep::Decode(DecodeRequest::new(bitmap, options))
                    } else {
                        self.frame = FramePhase::Idle;
                        FrameStep::Fatal(Self::allocation_failed())
                    }
                },
                DecoderEvent::BitmapAllocated(None) => {
                    self.frame = FramePhase::Idle;
                    FrameStep::Fatal(Self::allocation_failed())
                },
                _ => FrameStep::AllocateBitmap { width, height, format: PixelFormat::Bgra32 },
            },
            FramePhase::Decoding { bitmap, options } => match event {
                DecoderEvent::FrameDecoded(status) => {
                    if status.is_ok() {
                        self.frame = FramePhase::Idle;
                        FrameStep::Finished(Ok(bitmap))
                    } else {
                        self.frame = FramePhase::Releasing { bitmap, status };
                        FrameStep::ReleaseBitmap(bitmap)
                    }
                },
                _ => FrameStep::Decode(DecodeRequest::new(bitmap, options)),
            },
            FramePhase::Releasing { bitmap, status } => match event {
                DecoderEvent::BitmapReleased => {
                    self.frame = FramePhase::Idle;
                    let mut message = "libwebp decoding error ".to_owned();
                    message.append(status.as_str());
                    FrameStep::Finished(Err(FlowError { kind: ErrorKind::ImageDecodingError, message }))
                },
                _ => FrameStep::ReleaseBitmap(bitmap),
            },
        }
    }

    /// Whether the stream holds frames that have not been decoded: never. An animated
    /// stream is decoded as its first frame, and no other is offered.
    pub fn has_more_frames(&mut self) -> (r: Result<bool, FlowError>)
        ensures
            r == Ok::<bool, FlowError>(false),
            final(self)@ == old(self)@,
    {
        Ok(false)
    }

    fn allocation_failed() -> (e: FlowError)
        ensures
            e@ == allocation_error(),
    {
        FlowError::new(ErrorKind::AllocationFailed, "Failed to allocate the bitmap to decode into")
    }
}

} // verus!
